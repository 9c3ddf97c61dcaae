//! Verified core of a GAMLSS library: the family registry (names, parameters,
//! default links, link-override rules) and the rebuild of a family from its
//! description, the error type and its messages, smoothing-criterion parsing,
//! per-parameter link overrides and the link plan of a fit, the control of the
//! fit's outer loop, and the integer search that drives discrete quantiles.

mod cycles;
mod descriptor;
mod error;
mod families;
mod fitting;
mod links;
mod quantile;
mod text;

pub use text::{
    ascii_lower, ascii_lower_ignores_case, digit_char, equal_ignoring_ascii_case, joined,
    lower_char, same_ignoring_ascii_case, spec_decimal,
};

pub use error::{
    chain_text, check_state_len, error_message, shape_error_display, shape_text, state_len_message, GamlssError,
    ShapeErrorKind,
};

pub use links::{
    is_selectable, link_from_name, link_name, link_names_are_distinct, link_names_table, unknown_link_message,
    CauchitLink, CloglogLink, IdentityLink, InverseLink, InverseSquareLink, LinkKind, LogLink,
    LogitLink, ProbitLink, SqrtLink,
};

pub use families::{
    box_cox_tau_link, default_links_table, discrete_families_table, every_parameter_has_a_default_link,
    family_names_table, override_is_accepted, overrides_refused_only_by_ocat_and_student_t_nu, family_allows_override,
    family_default_link, family_is_discrete, family_name, family_names_identify_named_families,
    family_needs_second_order_links, family_parameters, family_parameters_are_distinct,
    family_wf, from_name, is_named_family, is_unknown_parameter, link_owner_name, names_distinct,
    names_view, no_hurdle, no_nested_hurdle, ocat_has_one_parameter_per_level,
    ocat_levels_identify, ocat_parameters, threshold_name, unknown_family_message, Beta,
    CensorStatus, Censored, Family, Gamma, Gaussian, Hurdle, NegativeBinomial, Ocat, Poisson, StudentT,
    Weibull, BCCG, BCPE, BCT,
};

pub use descriptor::{
    describes, descriptor_round_trips, descriptor_wf, names_a_family, same_family, unknown_name,
    FamilyDescriptor,
};

pub use fitting::{
    column_offset, criterion_wire_name, criterion_wire_names_table, default_max_iter, default_true, DEFAULT_MAX_ITER, criterion_wire_names_are_distinct, distinct_keys,
    has_key, is_first_rejection, key_index, link_override_read_after_write, lookup, opt_text,
    override_is_acceptable, override_rejection, overrides_acceptable, plan_links, planned_link,
    planning_fails_only_on_unknown_link_names, resolve_link, selected_link,
    term_blocks_tile_the_columns, term_column_blocks, unknown_criterion_message,
    validate_link_overrides, with_entries, with_entry, LinkOverrides, NaAction,
    OverrideEntries, ParamLink, SmoothingCriterion,
};

pub use cycles::{
    cycle_step, cycle_wanted, loop_stops_at_first_settled_cycle, run_cycles, settled,
    unsettled_loop_spends_its_budget, FitCycles,
};

pub use quantile::{
    is_least_reaching, midpoint, monotone, narrowed, quantile_search_finds_least,
    saturating_double, search_advance, search_inv, search_measure, search_step, state_wf,
    QuantileSearch, SearchState, SearchStep,
};
