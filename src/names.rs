//! Name handling shared by the differ and the path resolver: ASCII
//! case-insensitive identity and conversion to snake_case.
use vstd::prelude::*;

verus! {

/// Lower-cases an ASCII capital letter and leaves every other character alone.
pub open spec fn ascii_lower(c: char) -> char {
    if 'A' <= c && c <= 'Z' {
        ((c as u32) + 32) as char
    } else {
        c
    }
}

/// The ASCII-lower-cased form of a whole name.
pub open spec fn ascii_lower_seq(s: Seq<char>) -> Seq<char> {
    s.map_values(|c: char| ascii_lower(c))
}

/// Identity of names: equal up to ASCII case.
pub open spec fn same_name(a: Seq<char>, b: Seq<char>) -> bool {
    ascii_lower_seq(a) == ascii_lower_seq(b)
}

/// Whether a character has the Unicode `Uppercase` property.
pub uninterp spec fn upper_property(c: char) -> bool;

/// Whether a character has the Unicode `Lowercase` property.
pub uninterp spec fn lower_property(c: char) -> bool;

/// Relies on `char::is_uppercase`: the Unicode `Uppercase` property of `c`.
#[verifier::external_body]
fn is_upper(c: char) -> (r: bool)
    ensures
        r == upper_property(c),
{
    c.is_uppercase()
}

/// Relies on `char::is_lowercase`: the Unicode `Lowercase` property of `c`.
#[verifier::external_body]
fn is_lower(c: char) -> (r: bool)
    ensures
        r == lower_property(c),
{
    c.is_lowercase()
}

/// Relies on `str::eq_ignore_ascii_case`, documented as the same as comparing
/// `to_ascii_lowercase` of both strings.
#[verifier::external_body]
pub(crate) fn names_match(a: &str, b: &str) -> (r: bool)
    ensures
        r == same_name(a@, b@),
{
    a.eq_ignore_ascii_case(b)
}

/// Relies on `String::push`: appends one character.
#[verifier::external_body]
pub(crate) fn push_char(s: &mut String, c: char)
    ensures
        final(s)@ == old(s)@.push(c),
{
    s.push(c)
}

/// ASCII lower-casing of a single character.
pub fn to_ascii_lower(c: char) -> (r: char)
    ensures
        r == ascii_lower(c),
{
    if 'A' <= c && c <= 'Z' {
        ((c as u8) + 32) as char
    } else {
        c
    }
}

/// Position `i` is flagged in `flags`; positions past its end are not.
pub open spec fn flagged(flags: Seq<bool>, i: int) -> bool {
    0 <= i < flags.len() && flags[i]
}

/// What the snake_case conversion emits for the character at position `i`
/// of `cs`, given which positions hold uppercase and which lowercase
/// characters.
pub open spec fn snake_piece(cs: Seq<char>, upper: Seq<bool>, lower: Seq<bool>, i: int) -> Seq<
    char,
> {
    let c = cs[i];
    if i > 0 && flagged(upper, i) && (flagged(lower, i - 1) || (i + 1 < cs.len() && flagged(
        lower,
        i + 1,
    ))) {
        seq!['_', ascii_lower(c)]
    } else {
        seq![ascii_lower(c)]
    }
}

/// The snake_case form of the first `n` characters of `cs`.
pub open spec fn snake_prefix(cs: Seq<char>, upper: Seq<bool>, lower: Seq<bool>, n: nat) -> Seq<
    char,
>
    decreases n,
{
    if n == 0 {
        seq![]
    } else {
        snake_prefix(cs, upper, lower, (n - 1) as nat) + snake_piece(cs, upper, lower, n - 1)
    }
}

/// The snake_case form of a PascalCase or camelCase name.
pub open spec fn snake_case(cs: Seq<char>) -> Seq<char> {
    snake_prefix(
        cs,
        cs.map_values(|c: char| upper_property(c)),
        cs.map_values(|c: char| lower_property(c)),
        cs.len(),
    )
}

/// The snake_case conversion with the character classes given: `upper[i]`
/// and `lower[i]` say whether the character at `i` is uppercase or
/// lowercase. An underscore goes before an uppercase character (not the
/// first) whose neighbour on either side is lowercase; ASCII capitals are
/// lower-cased.
pub fn snake_with_classes(s: &str, upper: &Vec<bool>, lower: &Vec<bool>) -> (r: String)
    ensures
        r@ == snake_prefix(s@, upper@, lower@, s@.len()),
{
    let n = s.unicode_len();
    let mut result = String::new();
    let mut i: usize = 0;
    while i < n
        invariant
            n == s@.len(),
            i <= n,
            result@ == snake_prefix(s@, upper@, lower@, i as nat),
        decreases n - i,
    {
        let ch = s.get_char(i);
        if i > 0 && i < upper.len() && upper[i] {
            let prev_lower = i - 1 < lower.len() && lower[i - 1];
            let next_lower = i + 1 < n && i + 1 < lower.len() && lower[i + 1];
            if prev_lower || next_lower {
                push_char(&mut result, '_');
            }
        }
        push_char(&mut result, to_ascii_lower(ch));
        proof {
            assert(snake_prefix(s@, upper@, lower@, (i + 1) as nat) == snake_prefix(
                s@,
                upper@,
                lower@,
                i as nat,
            ) + snake_piece(s@, upper@, lower@, i as int));
        }
        i = i + 1;
    }
    result
}

/// Converts PascalCase / camelCase to snake_case, classing characters by
/// their Unicode uppercase and lowercase properties.
pub fn to_snake(s: &str) -> (r: String)
    ensures
        r@ == snake_case(s@),
{
    let n = s.unicode_len();
    let mut upper: Vec<bool> = Vec::new();
    let mut lower: Vec<bool> = Vec::new();
    let mut i: usize = 0;
    while i < n
        invariant
            n == s@.len(),
            i <= n,
            upper@ =~= s@.take(i as int).map_values(|c: char| upper_property(c)),
            lower@ =~= s@.take(i as int).map_values(|c: char| lower_property(c)),
        decreases n - i,
    {
        let ch = s.get_char(i);
        upper.push(is_upper(ch));
        lower.push(is_lower(ch));
        i = i + 1;
    }
    proof {
        assert(s@.take(n as int) =~= s@);
    }
    snake_with_classes(s, &upper, &lower)
}

/// Whether a text has no characters.
pub fn is_blank(s: &String) -> (r: bool)
    ensures
        r == (s@.len() == 0),
{
    s.as_str().unicode_len() == 0
}

} // verus!
