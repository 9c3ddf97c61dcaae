//! Small string utilities shared by the error messages and name lookups.

use vstd::prelude::*;
use vstd::string::*;

verus! {

/// The character of a decimal digit `d` (`0 <= d < 10`).
pub open spec fn digit_char(d: nat) -> char {
    (48 + d) as char
}

/// Decimal representation of `n`, most significant digit first, no leading zeros.
pub open spec fn spec_decimal(n: nat) -> Seq<char>
    decreases n,
{
    if n < 10 {
        seq![digit_char(n)]
    } else {
        spec_decimal(n / 10).push(digit_char(n % 10))
    }
}

/// Appends one character to a `String` (`String::push`).
#[verifier::external_body]
pub(crate) fn push_char(s: &mut String, c: char)
    ensures
        final(s)@ == old(s)@.push(c),
{
    s.push(c);
}

fn append_decimal(out: &mut String, n: usize)
    ensures
        final(out)@ == old(out)@ + spec_decimal(n as nat),
    decreases n,
{
    if n >= 10 {
        append_decimal(out, n / 10);
    }
    let d: u8 = (n % 10) as u8;
    let c: char = (48u8 + d) as char;
    push_char(out, c);
    proof {
        assert(c == digit_char((n % 10) as nat));
    }
}

/// The decimal representation of `n`, as `format!("{}", n)` writes it.
pub fn decimal_text(n: usize) -> (r: String)
    ensures
        r@ == spec_decimal(n as nat),
{
    let mut out = String::new();
    append_decimal(&mut out, n);
    assert(out@ =~= spec_decimal(n as nat));
    out
}

/// Whether two string slices hold the same text.
pub fn same_text(a: &str, b: &str) -> (r: bool)
    ensures
        r == (a@ == b@),
{
    let x = a.to_owned();
    let y = b.to_owned();
    x == y
}

/// ASCII lower case of one character: `'A'..='Z'` map to `'a'..='z'`, every
/// other character is unchanged.
pub open spec fn lower_char(c: char) -> char {
    if 'A' <= c <= 'Z' {
        ((c as u32) + 32) as char
    } else {
        c
    }
}

/// ASCII lower case of a text.
pub open spec fn ascii_lower(s: Seq<char>) -> Seq<char> {
    s.map_values(|c: char| lower_char(c))
}

/// The ASCII-lowercased copy of `s` (what `str::to_ascii_lowercase` returns).
pub fn lowercase_ascii(s: &str) -> (r: String)
    ensures
        r@ == ascii_lower(s@),
{
    let n = s.unicode_len();
    let mut out = String::new();
    let mut i: usize = 0;
    while i < n
        invariant
            n == s@.len(),
            i <= n,
            out@ == ascii_lower(s@.subrange(0, i as int)),
        decreases n - i,
    {
        let c = s.get_char(i);
        let l: char = if c >= 'A' && c <= 'Z' {
            ((c as u8) + 32) as char
        } else {
            c
        };
        assert(l == lower_char(c));
        push_char(&mut out, l);
        assert(s@.subrange(0, i + 1) =~= s@.subrange(0, i as int).push(c));
        assert(out@ =~= ascii_lower(s@.subrange(0, i + 1)));
        i = i + 1;
    }
    assert(s@.subrange(0, n as int) =~= s@);
    out
}

/// `a` and `b` are the same character up to ASCII case: equal, or one is an
/// upper-case ASCII letter and the other lies 32 code points above it (its
/// lower-case form).
pub open spec fn same_ignoring_ascii_case(a: char, b: char) -> bool {
    ||| a == b
    ||| 'A' <= a <= 'Z' && b as int == a as int + 32
    ||| 'A' <= b <= 'Z' && a as int == b as int + 32
}

/// `s` and `t` are the same text up to ASCII case.
pub open spec fn equal_ignoring_ascii_case(s: Seq<char>, t: Seq<char>) -> bool {
    s.len() == t.len() && forall|i: int| 0 <= i < s.len() ==> same_ignoring_ascii_case(s[i], t[i])
}

/// Law: ASCII lower case sends every upper-case letter `'A'..='Z'` to the
/// letter 32 code points above it (`'a'..='z'`), leaves every other character
/// alone, and so gives the same text for two texts that differ only in ASCII
/// case; its result has no upper-case ASCII letter.
pub proof fn ascii_lower_ignores_case(s: Seq<char>, t: Seq<char>)
    requires
        equal_ignoring_ascii_case(s, t),
    ensures
        ascii_lower(s) == ascii_lower(t),
        ascii_lower(s).len() == s.len(),
        forall|i: int|
            0 <= i < s.len() ==> {
                &&& 'A' <= s[i] <= 'Z' ==> #[trigger] ascii_lower(s)[i] as int == s[i] as int + 32
                &&& !('A' <= s[i] <= 'Z') ==> ascii_lower(s)[i] == s[i]
                &&& !('A' <= ascii_lower(s)[i] <= 'Z')
            },
{
    assert forall|i: int| 0 <= i < s.len() implies ascii_lower(s)[i] == ascii_lower(t)[i] by {
        let a = s[i];
        let b = t[i];
        assert(same_ignoring_ascii_case(a, b));
        assert(ascii_lower(s)[i] == lower_char(a));
        assert(ascii_lower(t)[i] == lower_char(b));
    }
    assert(ascii_lower(s) =~= ascii_lower(t));
}

/// The texts of `parts` joined with `sep` between neighbours.
pub open spec fn joined(parts: Seq<Seq<char>>, sep: Seq<char>) -> Seq<char>
    decreases parts.len(),
{
    if parts.len() == 0 {
        Seq::empty()
    } else if parts.len() == 1 {
        parts[0]
    } else {
        joined(parts.drop_last(), sep) + sep + parts.last()
    }
}

/// Joins static names with `sep` between neighbours (`[..].join(sep)`).
pub fn join_names(parts: &Vec<&'static str>, sep: &str) -> (r: String)
    ensures
        r@ == joined(parts@.map_values(|s: &'static str| s@), sep@),
{
    let ghost views = parts@.map_values(|s: &'static str| s@);
    let mut out = String::new();
    let n = parts.len();
    let mut i: usize = 0;
    while i < n
        invariant
            n == parts@.len(),
            views == parts@.map_values(|s: &'static str| s@),
            i <= n,
            out@ == joined(views.subrange(0, i as int), sep@),
        decreases n - i,
    {
        if i > 0 {
            out.append(sep);
        }
        out.append(parts[i]);
        proof {
            let next = views.subrange(0, i + 1);
            assert(next.drop_last() =~= views.subrange(0, i as int));
            assert(next.last() == parts@[i as int]@);
            if i == 0 {
                assert(views.subrange(0, 0) =~= Seq::<Seq<char>>::empty());
            }
        }
        i = i + 1;
    }
    assert(views.subrange(0, n as int) =~= views);
    out
}

} // verus!
