//! Heads of HTTP messages.

use vstd::prelude::*;

use crate::text::{lowered, split_once, trimmed};

verus! {

/// A head is complete at its first empty line.
pub open spec fn is_complete(head: Seq<u8>) -> bool {
    head.len() >= 4 && head.skip(head.len() - 4) == seq![13u8, 10u8, 13u8, 10u8]
}

pub fn head_is_complete(head: &Vec<u8>) -> (yes: bool)
    ensures
        yes == is_complete(head@),
{
    let n = head.len();
    if n < 4 {
        return false;
    }
    let yes = head[n - 4] == 13 && head[n - 3] == 10 && head[n - 2] == 13 && head[n - 1] == 10;
    proof {
        let end = head@.skip(n - 4);
        if yes {
            assert(end =~= seq![13u8, 10u8, 13u8, 10u8]);
        } else {
            assert(end[0] == head@[n - 4] && end[1] == head@[n - 3] && end[2] == head@[n - 2]
                && end[3] == head@[n - 1]);
        }
    }
    yes
}

/// What header lines say of a name: the last line counts. A line without a colon says
/// nothing.
pub open spec fn header_value(lines: Seq<Seq<char>>, name: Seq<char>) -> Option<Seq<char>>
    decreases lines.len(),
{
    if lines.len() == 0 {
        None
    } else {
        match split_once(lines.last(), ':') {
            Some((raw, value)) => if lowered(trimmed(raw)) == name {
                Some(trimmed(value))
            } else {
                header_value(lines.drop_last(), name)
            },
            None => header_value(lines.drop_last(), name),
        }
    }
}

} // verus!
