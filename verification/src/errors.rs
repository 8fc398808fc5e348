//! The text of the bot's errors.

use crate::text::{push_signed_decimal, signed_decimal};
use vstd::prelude::*;

verus! {

/// "`param` should be between lower and upper but was value".
pub open spec fn not_in_range_spec(param: Seq<char>, value: int, lower: int, upper: int) -> Seq<char> {
    "`"@ + param + "` should be between "@ + signed_decimal(lower) + " and "@ + signed_decimal(
        upper,
    ) + " but was "@ + signed_decimal(value)
}

/// The message of a value outside its allowed range.
pub fn not_in_range_text(param: &str, value: i64, lower: i64, upper: i64) -> (text: String)
    ensures
        text@ == not_in_range_spec(param@, value as int, lower as int, upper as int),
{
    let mut t = "`".to_string();
    t.append(param);
    t.append("` should be between ");
    push_signed_decimal(&mut t, lower);
    t.append(" and ");
    push_signed_decimal(&mut t, upper);
    t.append(" but was ");
    push_signed_decimal(&mut t, value);
    assert(t@ =~= not_in_range_spec(param@, value as int, lower as int, upper as int));
    t
}


/// The range message starts with the parameter in backticks, then
/// ` should be between `, and ends with ` but was ` and the value.
pub proof fn lemma_not_in_range_layout(param: Seq<char>, value: int, lower: int, upper: int)
    ensures
        ({
            let t = not_in_range_spec(param, value, lower, upper);
            let v = signed_decimal(value);
            let p = param.len() as int;
            &&& t[0] == '`'
            &&& t.subrange(1, 1 + p) == param
            &&& t.subrange(1 + p, 21 + p) == "` should be between "@
            &&& t.subrange(t.len() - v.len() - 9, t.len() - v.len()) == " but was "@
            &&& t.skip(t.len() - v.len()) == v
        }),
{
    reveal_strlit("`");
    reveal_strlit("` should be between ");
    reveal_strlit(" but was ");
    let t = not_in_range_spec(param, value, lower, upper);
    let v = signed_decimal(value);
    let p = param.len() as int;
    assert(t.subrange(1, 1 + p) =~= param);
    assert(t.subrange(1 + p, 21 + p) =~= "` should be between "@);
    assert(t.subrange(t.len() - v.len() - 9, t.len() - v.len()) =~= " but was "@);
    assert(t.skip(t.len() - v.len()) =~= v);
}

} // verus!
