//! How many decimals to show of a number, read off its decimal form.

use vstd::prelude::*;

verus! {

/// The byte that parts a number's whole digits from its decimals.
pub const POINT: u8 = 0x2e;

/// The decimals shown of a number whose form says nothing else.
pub const DEFAULT_DECIMALS: usize = 2;

/// How many points the text holds.
pub open spec fn points(text: Seq<u8>) -> nat
    decreases text.len(),
{
    if text.len() == 0 {
        0
    } else if text.last() == POINT {
        points(text.drop_last()) + 1
    } else {
        points(text.drop_last())
    }
}

/// How many bytes follow the last point of the text, or how many it holds if
/// there is no point in it.
pub open spec fn tail(text: Seq<u8>) -> nat
    decreases text.len(),
{
    if text.len() == 0 || text.last() == POINT {
        0
    } else {
        tail(text.drop_last()) + 1
    }
}

/// The decimals of a number written as `text`: as many as follow its point, where
/// it has exactly one, and `DEFAULT_DECIMALS` otherwise.
pub open spec fn decimals_of(text: Seq<u8>) -> nat {
    if points(text) == 1 {
        tail(text)
    } else {
        DEFAULT_DECIMALS as nat
    }
}

/// The decimals to show of a number written as `text`.
pub fn decimals(text: &[u8]) -> (count: usize)
    ensures
        count == decimals_of(text@),
{
    let mut seen: usize = 0;
    let mut after: usize = 0;
    let mut i: usize = 0;
    while i < text.len()
        invariant
            i <= text.len(),
            seen == points(text@.take(i as int)),
            after == tail(text@.take(i as int)),
            seen <= i,
            after <= i,
        decreases text.len() - i,
    {
        assert(text@.take(i + 1).drop_last() =~= text@.take(i as int));
        if text[i] == POINT {
            seen = seen + 1;
            after = 0;
        } else {
            after = after + 1;
        }
        i = i + 1;
    }
    assert(text@.take(i as int) =~= text@);
    if seen == 1 {
        after
    } else {
        DEFAULT_DECIMALS
    }
}

} // verus!
