use vstd::prelude::*;

verus! {

/// Whether `c` is an ASCII decimal digit.
pub open spec fn is_digit(c: char) -> bool {
    '0' <= c && c <= '9'
}

/// The value of the decimal digit `c`.
pub open spec fn digit_value(c: char) -> int {
    (c as u32) as int - ('0' as u32) as int
}

/// The value of a string of decimal digits, most significant first.
pub open spec fn decimal_value(s: Seq<char>) -> int
    decreases s.len(),
{
    if s.len() == 0 {
        0
    } else {
        decimal_value(s.drop_last()) * 10 + digit_value(s.last())
    }
}

/// `s` without one leading `+` sign, if it has one.
pub open spec fn unsigned_part(s: Seq<char>) -> Seq<char> {
    if s.len() > 0 && s[0] == '+' {
        s.subrange(1, s.len() as int)
    } else {
        s
    }
}

/// The amount that the decimal literal `s` denotes: an optional `+`, then one
/// or more ASCII digits whose value fits in 128 bits. `None` for anything else.
pub open spec fn amount_of(s: Seq<char>) -> Option<u128> {
    let d = unsigned_part(s);
    if d.len() > 0 && (forall|i: int| 0 <= i < d.len() ==> is_digit(#[trigger] d[i]))
        && decimal_value(d) <= u128::MAX {
        Some(decimal_value(d) as u128)
    } else {
        None
    }
}

/// Relies on `cosmwasm_std::Uint128::from_str`, which hands the text to
/// `u128::from_str`: an optional `+` followed by decimal digits only, and an
/// error where the value does not fit in 128 bits.
#[verifier::external_body]
pub(crate) fn parse_amount(s: &str) -> (r: Option<u128>)
    ensures
        r == amount_of(s@),
{
    <cosmwasm_std::Uint128 as std::str::FromStr>::from_str(s).ok().map(|v| v.u128())
}

} // verus!
