//! Winner selection by rejection sampling. A step's random byte sequence is
//! scanned in order for the first byte whose value is a valid index among the
//! participants; byte values at or above the participant count are rejected
//! rather than folded back by a modulo, which would bias small draws. A step
//! with no acceptable byte leaves the draw unresolved, to be retried with
//! fresh bytes in a later step.
use vstd::prelude::*;

verus! {

/// Result of one attempt to draw a winner from a step's random bytes.
#[derive(Clone, Copy, Debug, PartialEq, Eq, Structural)]
pub enum DrawOutcome {
    /// A byte strictly below the participant count was found; its value is
    /// the winning index into the stable participant order.
    Resolved(u8),
    /// No byte of this step lies below the participant count.
    Unresolved,
}

/// The draw as a mathematical function of its two inputs: the value of the
/// first byte of `bytes` that is strictly below `n`, or `Unresolved` if
/// there is none.
pub open spec fn spec_draw(bytes: Seq<u8>, n: int) -> DrawOutcome
    decreases bytes.len(),
{
    if bytes.len() == 0 {
        DrawOutcome::Unresolved
    } else if (bytes[0] as int) < n {
        DrawOutcome::Resolved(bytes[0])
    } else {
        spec_draw(bytes.drop_first(), n)
    }
}

/// A resolved draw always yields a valid index.
pub proof fn lemma_draw_resolved_in_range(bytes: Seq<u8>, n: int)
    ensures
        spec_draw(bytes, n) matches DrawOutcome::Resolved(b) ==> (b as int) < n,
    decreases bytes.len(),
{
    if bytes.len() > 0 && !((bytes[0] as int) < n) {
        lemma_draw_resolved_in_range(bytes.drop_first(), n);
    }
}

/// A step none of whose bytes lies below the participant count never
/// resolves: rejection sampling defers to a later step instead of biasing
/// the draw.
pub proof fn lemma_draw_all_high_unresolved(bytes: Seq<u8>, n: int)
    requires
        forall|i: int| 0 <= i < bytes.len() ==> n <= bytes[i] as int,
    ensures
        spec_draw(bytes, n) == DrawOutcome::Unresolved,
    decreases bytes.len(),
{
    if bytes.len() > 0 {
        assert(forall|i: int|
            0 <= i < bytes.drop_first().len() ==> bytes.drop_first()[i] == bytes[i + 1]);
        lemma_draw_all_high_unresolved(bytes.drop_first(), n);
    }
}

/// Scan the step's random bytes in order and pick the first whose value is a
/// valid index among `n` participants.
pub fn select_winner(bytes: &Vec<u8>, n: usize) -> (r: DrawOutcome)
    requires
        1 <= n <= 256,
    ensures
        r == spec_draw(bytes@, n as int),
        r matches DrawOutcome::Resolved(b) ==> (b as int) < n,
{
    proof {
        assert(bytes@.skip(0) =~= bytes@);
    }
    let mut i: usize = 0;
    while i < bytes.len()
        invariant
            0 <= i <= bytes@.len(),
            1 <= n <= 256,
            spec_draw(bytes@, n as int) == spec_draw(bytes@.skip(i as int), n as int),
        decreases bytes@.len() - i,
    {
        let b = bytes[i];
        proof {
            assert(bytes@.skip(i as int)[0] == bytes@[i as int]);
        }
        if (b as usize) < n {
            return DrawOutcome::Resolved(b);
        }
        proof {
            assert(bytes@.skip(i as int).drop_first() =~= bytes@.skip(i as int + 1));
        }
        i = i + 1;
    }
    DrawOutcome::Unresolved
}

} // verus!
