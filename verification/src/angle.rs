//! Decoding of bus frames into angle samples, and the wraparound rule that
//! turns consecutive samples into turn-counter steps.

use vstd::prelude::*;

verus! {

/// Counts per full mechanical turn: the sensor reports a 14-bit sample, so
/// one revolution maps linearly onto the half-open range `[0, 16384)`.
pub const FULL_TURN_COUNTS: u16 = 16384;

/// Largest count difference between consecutive samples still read as genuine
/// motion. The design threshold is 80% of a full turn, 13107.2 counts, so a
/// wraparound is declared exactly when `|delta| > 13107`.
pub const WRAP_THRESHOLD_COUNTS: u16 = 13107;

/// The angle field of a bus frame: the lowest bit of the frame is a status
/// bit and is discarded, the next 14 bits are the sample.
pub open spec fn frame_angle(frame: u16) -> u16 {
    (frame >> 1) & 0x3FFF
}

/// Every decoded sample lies within one turn.
pub proof fn lemma_frame_angle_in_range(frame: u16)
    ensures
        frame_angle(frame) < FULL_TURN_COUNTS,
{
    assert((frame >> 1) & 0x3FFF < 16384) by (bit_vector);
}

/// Extracts the 14-bit angle sample from a raw bus frame.
pub fn extract_angle(frame: u16) -> (r: u16)
    ensures
        r == frame_angle(frame),
        r < FULL_TURN_COUNTS,
{
    proof {
        lemma_frame_angle_in_range(frame);
    }
    (frame >> 1) & 0x3FFF
}

/// How the turn counter moves between two consecutive samples, both given in
/// counts. A jump of more than the wraparound threshold is judged to be the
/// sensor crossing the zero point rather than genuine motion: a large
/// positive delta steps the counter down by one, a large negative delta steps
/// it up by one, and any smaller delta leaves it unchanged.
pub open spec fn turn_step(angle: int, angle_prev: int) -> int {
    let delta = angle - angle_prev;
    if delta > WRAP_THRESHOLD_COUNTS as int {
        -1
    } else if delta < -(WRAP_THRESHOLD_COUNTS as int) {
        1
    } else {
        0
    }
}

/// The turn counter moves by at most one step per sample pair; it moves
/// exactly when the count delta exceeds the wraparound threshold in absolute
/// value; and the step is `-1` for a large positive delta and `+1` for a
/// large negative one.
pub proof fn lemma_turn_step(angle: int, angle_prev: int)
    ensures
        -1 <= turn_step(angle, angle_prev) <= 1,
        turn_step(angle, angle_prev) == 0 <==> -(WRAP_THRESHOLD_COUNTS as int) <= angle
            - angle_prev <= WRAP_THRESHOLD_COUNTS as int,
        angle - angle_prev > WRAP_THRESHOLD_COUNTS as int ==> turn_step(angle, angle_prev) == -1,
        angle - angle_prev < -(WRAP_THRESHOLD_COUNTS as int) ==> turn_step(angle, angle_prev)
            == 1,
{
}

} // verus!
