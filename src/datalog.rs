//! The flash datalog: a ring of 64-byte slots over `[0, LOG_END)`. Writing
//! erases the whole region and starts over at 0 when the next record would
//! not fit; reading for replay wraps without erasing.

use vstd::prelude::*;
use crate::codec::{log_frame, serialize_message_log};

verus! {

/// End of the flash region given to the log.
pub const LOG_END: u32 = 0x20_0000;

/// Size of one log slot.
pub const SLOT_LEN: u32 = 64;

/// Where a record of `len` bytes goes when the write cursor is at
/// `pc_counter`: `(address, next cursor, whether the region is erased first)`.
pub open spec fn placement(pc_counter: int, len: int) -> (int, int, bool) {
    if pc_counter + len > LOG_END {
        (0, len, true)
    } else {
        (pc_counter, pc_counter + len, false)
    }
}

/// Where the next write goes; see `placement`.
pub fn full_check(pc_counter: u32, len: u32) -> (r: (u32, u32, bool))
    requires
        len <= LOG_END,
    ensures
        (r.0 as int, r.1 as int, r.2) == placement(pc_counter as int, len as int),
{
    if pc_counter as u64 + len as u64 > LOG_END as u64 {
        (0, len, true)
    } else {
        (pc_counter, pc_counter + len, false)
    }
}

/// One record to put in flash.
pub struct LogWrite {
    pub address: u32,
    pub frame: Vec<u8>,
    pub erase_first: bool,
    pub next: u32,
}

/// Frames an already serialized record for the log and places it.
pub fn datalog(command: Vec<u8>, pc_counter: u32) -> (r: LogWrite)
    requires
        command@.len() <= 255,
    ensures
        r.frame@ == log_frame(command@),
        (r.address as int, r.next as int, r.erase_first) == placement(
            pc_counter as int,
            SLOT_LEN as int,
        ),
{
    let frame = serialize_message_log(command);
    let (address, next, erase_first) = full_check(pc_counter, SLOT_LEN);
    LogWrite { address, frame, erase_first, next }
}

/// One replay step from cursor `pc_counter`: whether a slot is read there,
/// and the next cursor, one slot on and back to 0 when that reaches the end
/// of the region. A cursor outside the region reads nothing and goes to 0.
pub open spec fn replay_step(pc_counter: int) -> (bool, int) {
    if pc_counter < LOG_END {
        (true, if pc_counter + SLOT_LEN >= LOG_END { 0 } else { pc_counter + SLOT_LEN })
    } else {
        (false, 0)
    }
}

pub fn next_read(pc_counter: u32) -> (r: (bool, u32))
    ensures
        (r.0, r.1 as int) == replay_step(pc_counter as int),
{
    if pc_counter < LOG_END {
        if pc_counter + SLOT_LEN >= LOG_END {
            (true, 0)
        } else {
            (true, pc_counter + SLOT_LEN)
        }
    } else {
        (false, 0)
    }
}

/// From cursor 0, replay reads the slots in order and wraps to 0 right
/// after the last slot: after `k` steps the cursor is `64 * (k % slots)`.
pub proof fn lemma_replay_wrap(k: nat)
    ensures
        replay_cursor(k) == 64 * (k % slots()) as int,
    decreases k,
{
    if k > 0 {
        lemma_replay_wrap((k - 1) as nat);
        let j = (k - 1) as nat;
        assert(slots() == 32768);
        let m = j % slots();
        assert(m < slots());
        assert(replay_cursor(j) == 64 * m);
        assert(64 * m + 64 <= LOG_END);
        assert(replay_cursor(k) == replay_step(replay_cursor(j)).1);
        if m + 1 == slots() {
            assert(k % 32768 == 0) by (nonlinear_arith)
                requires j % 32768 + 1 == 32768, k == j + 1;
            assert(replay_cursor(k) == 0);
        } else {
            assert(k % 32768 == j % 32768 + 1) by (nonlinear_arith)
                requires j % 32768 + 1 < 32768, k == j + 1;
            assert(replay_cursor(k) == 64 * (m + 1));
        }
    }
}

/// The replay cursor after `k` steps from 0.
pub open spec fn replay_cursor(k: nat) -> int
    decreases k,
{
    if k == 0 {
        0
    } else {
        replay_step(replay_cursor((k - 1) as nat)).1
    }
}

/// The write cursor and the number of erases after `k` records written
/// from cursor `pc`.
pub open spec fn writes(pc: int, k: nat) -> (int, nat)
    decreases k,
{
    if k == 0 {
        (pc, 0)
    } else {
        let (c, e) = writes(pc, (k - 1) as nat);
        let (a, n, erased) = placement(c, SLOT_LEN as int);
        (n, if erased { e + 1 } else { e })
    }
}

/// Slots in the log region.
pub open spec fn slots() -> nat {
    (LOG_END / SLOT_LEN) as nat
}

/// From an empty log, the first `slots()` records fill the region without an
/// erase; the next one erases exactly once and lands at 0; later records go
/// on from there, up to a second full region, with no further erase.
pub proof fn lemma_log_wrap(k: nat)
    requires
        k <= 2 * slots(),
    ensures
        k <= slots() ==> writes(0, k) == (64 * k as int, 0nat),
        k > slots() ==> writes(0, k) == (64 * (k - slots()), 1nat),
        k == slots() + 1 ==> placement(writes(0, slots()).0, SLOT_LEN as int) == (0int, 64int, true),
    decreases k,
{
    if k > 0 {
        lemma_log_wrap((k - 1) as nat);
    }
    if k == slots() + 1 {
        lemma_log_wrap(slots());
    }
}

} // verus!
