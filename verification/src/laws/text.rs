//! Laws on numbers, lists and short identifiers in texts.

use vstd::prelude::*;
use vstd::string::*;

use crate::ids::{short_commit_hash, short_operation_hash, CommitId, OperationId};
use crate::text::{decimal, decimal_text, digit, joined, truncate};

verus! {

/// The digit that `c` is, in decimal notation.
pub open spec fn digit_value(c: char) -> int {
    c as int - '0' as int
}

/// The number that `digits` are in decimal notation.
pub open spec fn read_decimal(digits: Seq<char>) -> int
    decreases digits.len(),
{
    if digits.len() == 0 {
        0
    } else {
        10 * read_decimal(digits.drop_last()) + digit_value(digits.last())
    }
}

/// `text` is `n` in decimal notation: nothing but digits, no zero in front, and reading
/// them gives `n`.
pub open spec fn is_decimal(text: Seq<char>, n: int) -> bool {
    &&& text.len() > 0
    &&& forall|k: int| 0 <= k < text.len() ==> 0 <= digit_value(#[trigger] text[k]) <= 9
    &&& text.len() > 1 ==> text[0] != '0'
    &&& read_decimal(text) == n
}

proof fn lemma_digit(d: nat)
    requires
        d < 10,
    ensures
        digit(d).len() == 1,
        digit_value(digit(d)[0]) == d,
{
    reveal_strlit("0");
    reveal_strlit("1");
    reveal_strlit("2");
    reveal_strlit("3");
    reveal_strlit("4");
    reveal_strlit("5");
    reveal_strlit("6");
    reveal_strlit("7");
    reveal_strlit("8");
    reveal_strlit("9");
}

pub(crate) proof fn lemma_decimal(n: nat)
    ensures
        is_decimal(decimal(n), n as int),
        n > 0 ==> decimal(n)[0] != '0',
    decreases n,
{
    reveal_with_fuel(read_decimal, 2);
    if n < 10 {
        lemma_digit(n);
        assert(decimal(n).drop_last().len() == 0);
    } else {
        lemma_decimal(n / 10);
        lemma_digit(n % 10);
        let text = decimal(n);
        assert(text.drop_last() =~= decimal(n / 10));
        assert(text.last() == digit(n % 10)[0]);
        assert forall|k: int| 0 <= k < text.len() implies 0 <= digit_value(#[trigger] text[k])
            <= 9 by {
            if k < text.len() - 1 {
                assert(text[k] == decimal(n / 10)[k]);
            }
        }
        assert(text[0] == decimal(n / 10)[0]);
    }
}

/// A number that is written can be read back, and is written in one way only.
pub proof fn law_written_number_reads_back(n: usize, text: String)
    requires
        call_ensures(decimal_text, (n,), text),
    ensures
        is_decimal(text@, n as int),
{
    lemma_decimal(n as nat);
}

/// Different numbers are written differently.
pub proof fn law_numbers_are_told_apart(m: usize, n: usize, text: String, other: String)
    requires
        call_ensures(decimal_text, (m,), text),
        call_ensures(decimal_text, (n,), other),
        text@ == other@,
    ensures
        m == n,
{
    law_written_number_reads_back(m, text);
    law_written_number_reads_back(n, other);
}

/// Truncating keeps the front of a text: all of it where it is short enough.
pub proof fn law_truncation_keeps_the_front(s: &str, n: usize, text: String)
    requires
        call_ensures(truncate, (s, n), text),
    ensures
        text@.is_prefix_of(s@),
        text@.len() == (if s@.len() <= n {
            s@.len()
        } else {
            n as nat
        }),
{
    assert(text@ =~= s@.take(text@.len() as int));
}

/// `short` is the front of `hex`: twelve digits, or fewer where there are no more.
pub open spec fn is_short_form(short: Seq<char>, hex: Seq<char>) -> bool {
    &&& short.is_prefix_of(hex)
    &&& short.len() <= 12
    &&& short.len() < hex.len() ==> short.len() == 12
}

/// Commits and operations are named to the user by the first twelve digits of their
/// identifiers.
pub proof fn law_short_forms(
    commit_id: &CommitId,
    operation_id: &OperationId,
    commit: String,
    operation: String,
)
    requires
        call_ensures(short_commit_hash, (commit_id,), commit),
        call_ensures(short_operation_hash, (operation_id,), operation),
    ensures
        is_short_form(commit@, commit_id.hex@),
        is_short_form(operation@, operation_id.hex@),
{
    assert(commit@ =~= commit_id.hex@.take(commit@.len() as int));
    assert(operation@ =~= operation_id.hex@.take(operation@.len() as int));
}

/// Two commits are the same exactly where their identifiers are, digit for digit.
pub proof fn law_same_commit(a: &CommitId, b: &CommitId, r: bool, copy: CommitId)
    requires
        call_ensures(CommitId::same_as, (a, b), r),
        call_ensures(<CommitId as Clone>::clone, (a,), copy),
    ensures
        r <==> a.hex@ == b.hex@,
        copy.hex@ == a.hex@,
{
}

/// The parts in order, with a comma and a space between neighbours.
pub open spec fn listed(parts: Seq<Seq<char>>) -> Seq<char>
    decreases parts.len(),
{
    if parts.len() == 0 {
        seq![]
    } else if parts.len() == 1 {
        parts[0]
    } else {
        listed(parts.drop_last()) + seq![',', ' '] + parts.last()
    }
}

proof fn lemma_joined_last(parts: Seq<Seq<char>>, sep: Seq<char>)
    requires
        parts.len() > 1,
    ensures
        joined(parts, sep) == joined(parts.drop_last(), sep) + sep + parts.last(),
    decreases parts.len(),
{
    reveal_with_fuel(joined, 3);
    let rest = parts.drop_first();
    if parts.len() == 2 {
        assert(joined(parts, sep) =~= joined(parts.drop_last(), sep) + sep + parts.last());
    } else {
        lemma_joined_last(rest, sep);
        assert(rest.drop_last() =~= parts.drop_last().drop_first());
        assert(joined(parts, sep) =~= joined(parts.drop_last(), sep) + sep + parts.last());
    }
}

pub(crate) proof fn lemma_joined_is_listed(parts: Seq<Seq<char>>)
    ensures
        joined(parts, ", "@) == listed(parts),
    decreases parts.len(),
{
    reveal_strlit(", ");
    assert(", "@ =~= seq![',', ' ']);
    if parts.len() == 0 {
        assert(joined(parts, ", "@) =~= listed(parts));
    } else if parts.len() > 1 {
        lemma_joined_last(parts, ", "@);
        lemma_joined_is_listed(parts.drop_last());
    }
}

} // verus!
