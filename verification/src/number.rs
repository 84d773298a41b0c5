//! Reading a decimal number from typed characters.

use vstd::prelude::*;
use crate::model::{all_digits, decimal_value, digit_value, is_digit};

verus! {

/// The number that an entry denotes, as far as a machine word holds it.
pub open spec fn parsed(s: Seq<char>) -> Option<usize> {
    if s.len() > 0 && all_digits(s) && decimal_value(s) <= usize::MAX {
        Some(decimal_value(s) as usize)
    } else {
        None
    }
}

/// A longer prefix of a digit sequence denotes no smaller a number.
pub proof fn lemma_prefix_value_monotone(s: Seq<char>, i: int, j: int)
    requires
        0 <= i <= j <= s.len(),
    ensures
        decimal_value(s.take(i)) <= decimal_value(s.take(j)),
    decreases j - i,
{
    if i < j {
        lemma_prefix_value_monotone(s, i, j - 1);
        assert(s.take(j).drop_last() =~= s.take(j - 1));
    }
}

/// Whether a character is a decimal digit.
pub fn is_decimal_digit(c: char) -> (b: bool)
    ensures
        b == is_digit(c),
{
    '0' <= c && c <= '9'
}

/// Reads the entry as a decimal number. The result is `None` where the entry
/// is empty, holds a character that is no digit, or denotes a number too large
/// for a machine word.
pub fn parse_number(entry: &Vec<char>) -> (n: Option<usize>)
    ensures
        n == parsed(entry@),
{
    if entry.len() == 0 {
        return None;
    }
    let mut acc: usize = 0;
    let mut i: usize = 0;
    while i < entry.len()
        invariant
            0 <= i <= entry.len(),
            all_digits(entry@.take(i as int)),
            acc == decimal_value(entry@.take(i as int)),
        decreases entry.len() - i,
    {
        let c = entry[i];
        if !is_decimal_digit(c) {
            return None;
        }
        let d: usize = (c as u32 - '0' as u32) as usize;
        proof {
            assert(entry@.take(i + 1).drop_last() =~= entry@.take(i as int));
            lemma_prefix_value_monotone(entry@, i + 1, entry@.len() as int);
            assert(entry@.take(entry@.len() as int) =~= entry@);
        }
        let shifted = match acc.checked_mul(10) {
            Some(v) => v,
            None => {
                return None;
            },
        };
        acc = match shifted.checked_add(d) {
            Some(v) => v,
            None => {
                return None;
            },
        };
        i += 1;
    }
    proof {
        assert(entry@.take(entry@.len() as int) =~= entry@);
    }
    Some(acc)
}

} // verus!
