//! Reading a move that a player typed.

use vstd::prelude::*;
use vstd::string::StrSliceExecFns;

verus! {

/// The index that `input` asks for: its first character, where that is one
/// of the digits `0` to `8`. What follows the first character is not looked
/// at.
pub open spec fn parsed_move(input: Seq<char>) -> Option<usize> {
    if input.len() > 0 && '0' <= input[0] <= '8' {
        Some((input[0] as u32 - '0' as u32) as usize)
    } else {
        None
    }
}

/// The index that a typed line asks for, or `None` where the line is empty
/// or does not start with one of the digits `0` to `8`.
pub fn parse_move(input: &str) -> (choice: Option<usize>)
    ensures
        choice == parsed_move(input@),
        choice matches Some(index) ==> index < 9,
{
    if input.unicode_len() == 0 {
        return None;
    }
    let code: u32 = input.get_char(0) as u32;
    if 48 <= code && code <= 56 {
        Some((code - 48) as usize)
    } else {
        None
    }
}

} // verus!
