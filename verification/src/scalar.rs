//! Numbers on their way between documents and the query language.

use vstd::prelude::*;

verus! {

/// The integer of the query language that stands for `value`. The query
/// language has integers of 32 bits only: a value outside their range has
/// none, and is handed on as a number with a fraction instead.
pub fn graphql_int(value: i64) -> (fitting: Option<i32>)
    ensures
        match fitting {
            Some(i) => i == value,
            None => value < i32::MIN || value > i32::MAX,
        },
{
    if value >= i32::MIN as i64 && value <= i32::MAX as i64 {
        Some(value as i32)
    } else {
        None
    }
}

} // verus!
