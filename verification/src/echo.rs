//! The CAN echo firmware's decisions: it blinks the LED `count` times, reads
//! a frame, takes the frame's first byte plus one as the new count (back to
//! zero once it would exceed five) and answers with a frame whose identifier
//! and single data byte are that count.

use vstd::prelude::*;
use crate::can_frame::CanFrame;

verus! {

/// Largest count; the next one after it is zero.
pub const MAX_COUNT: u8 = 5;

/// The count that follows a received byte. The increment wraps at 256, as
/// the firmware's release build does, so 255 is followed by 0 as well.
pub open spec fn next_count_spec(received: u8) -> u8 {
    if received < MAX_COUNT {
        (received + 1) as u8
    } else {
        0
    }
}

/// The count that follows the byte `received`.
pub fn next_count(received: u8) -> (count: u8)
    ensures
        count == next_count_spec(received),
        count <= MAX_COUNT,
        count == (if received < 5 {
            received + 1
        } else {
            0
        }),
{
    // increment the count
    let mut count = received.wrapping_add(1);
    // reset the count if it gets too big
    count = if count > MAX_COUNT {
        0
    } else {
        count
    };
    count
}

/// The frame that announces `count`: identifier `count`, one data byte `count`.
pub fn count_frame(count: u8) -> (frame: CanFrame)
    ensures
        frame@ == (count as u16, seq![count]),
{
    let data = [count];
    assert(data@ =~= seq![count]);
    CanFrame::new_fitting(count as u16, &data)
}

/// Answers a received frame's payload (which must hold a byte): the new
/// count, and the frame that announces it.
pub fn reply_to(received: &[u8]) -> (reply: (u8, CanFrame))
    requires
        received@.len() >= 1,
    ensures
        reply.0 == next_count_spec(received@[0]),
        reply.0 == (if received@[0] < 5 {
            received@[0] + 1
        } else {
            0
        }),
        reply.1@ == (reply.0 as u16, seq![reply.0]),
{
    let count = next_count(received[0]);
    (count, count_frame(count))
}

/// The count after `n` replies, starting from `count`.
pub open spec fn count_after(count: u8, n: nat) -> u8
    decreases n,
{
    if n == 0 {
        count
    } else {
        next_count_spec(count_after(count, (n - 1) as nat))
    }
}

/// The count cycles 0, 1, 2, 3, 4, 5, 0, ...: six replies bring any count of
/// the cycle back to itself, and any received byte leads into the cycle.
pub proof fn lemma_count_cycle(count: u8)
    ensures
        next_count_spec(count) <= MAX_COUNT,
        count <= MAX_COUNT ==> count_after(count, 6) == count,
{
    reveal_with_fuel(count_after, 7);
}

/// A received byte below five is followed by that byte plus one; any other
/// byte, 255 included, by zero.
pub proof fn lemma_next_count_values(received: u8)
    ensures
        received < 5 ==> next_count_spec(received) == received + 1,
        received >= 5 ==> next_count_spec(received) == 0,
{
}

} // verus!
