//! Capped line listings shared by the search tools.

use vstd::prelude::*;
use crate::text::{decimal_spec, join_prefix, join_spec, lines, push_decimal};

verus! {

/// The lines shown of `ls` under the cap `limit`, joined with newlines.
pub open spec fn capped_lines(ls: Seq<Seq<char>>, limit: nat) -> Seq<char> {
    join_spec(ls.take(if limit < ls.len() { limit as int } else { ls.len() as int }), "\n"@)
}

/// The note appended when `total` lines were cut to `limit`.
pub open spec fn truncation_suffix(limit: nat, total: nat, noun: Seq<char>) -> Seq<char> {
    if total > limit {
        "\n\n[truncated: showing "@ + decimal_spec(limit) + " of "@ + decimal_spec(total) + " "@ + noun + "]"@
    } else {
        Seq::empty()
    }
}

/// The lines of `output` capped at `limit`, plus the truncation note; and
/// whether no line is shown.
pub fn capped_listing(output: &str, limit: usize, noun: &str) -> (r: (String, bool))
    ensures
        r.0@ == capped_lines(crate::text::lines_spec(output@), limit as nat) + truncation_suffix(
            limit as nat,
            crate::text::lines_spec(output@).len(),
            noun@,
        ),
        r.1 == (if (limit as nat) < crate::text::lines_spec(output@).len() { limit as nat } else {
            crate::text::lines_spec(output@).len()
        } == 0),
{
    let ls = lines(output);
    let total = ls.len();
    let shown = if limit < total { limit } else { total };
    let mut result = join_prefix(ls.as_slice(), shown, "\n");
    if total > limit {
        result.push_str("\n\n[truncated: showing ");
        push_decimal(&mut result, limit as u64);
        result.push_str(" of ");
        push_decimal(&mut result, total as u64);
        result.push_str(" ");
        result.push_str(noun);
        result.push_str("]");
    }
    (result, shown == 0)
}

} // verus!
