//! The TSF transport claim: how the keyboard hook learns that the text
//! service owns the foreground window, so exactly one of the two ever
//! processes a key.
//!
//! The text service publishes "process N hosts my active text service"
//! into one shared `u32` (0 for none); the hook stands down whenever the
//! foreground window belongs to that process. The claim only ever means
//! "stand down": a corrupt value can silence the hook, but nothing written
//! there can make two layers type at once. The host keeps the shared
//! memory; these functions decide what is written and what a value means.

use vstd::prelude::*;

verus! {

/// The shared claim: the id of the process hosting an active text service,
/// or 0 for none.
#[derive(Debug)]
pub struct ClaimCell {
    claimed: u32,
}

impl View for ClaimCell {
    type V = u32;

    closed spec fn view(&self) -> u32 {
        self.claimed
    }
}

impl ClaimCell {
    /// No claim.
    pub fn new() -> (r: Self)
        ensures
            r@ == 0,
    {
        ClaimCell { claimed: 0 }
    }

    /// The cell holding `value`, as read from the shared memory.
    pub fn holding(value: u32) -> (r: Self)
        ensures
            r@ == value,
    {
        ClaimCell { claimed: value }
    }

    /// The value to store in the shared memory.
    pub fn value(&self) -> (r: u32)
        ensures
            r == self@,
    {
        self.claimed
    }
}

/// The claim after a release by `process_id`.
pub open spec fn released(claim: u32, process_id: u32) -> u32 {
    if claim == process_id {
        0
    } else {
        claim
    }
}

/// The hook stands down for `foreground` under `claim`.
pub open spec fn stands_down(claim: u32, foreground: u32, alive: bool) -> bool {
    foreground != 0 && claim == foreground && alive
}

/// Text-service side: claim the foreground for this host process (on
/// activation and on every focus event).
pub fn publish(cell: &mut ClaimCell, process_id: u32)
    ensures
        final(cell)@ == process_id,
{
    cell.claimed = process_id;
}

/// Text-service side: release the claim, but only if this process still
/// owns it (compare-and-exchange), so one application tearing down never
/// wipes the claim another one has just published.
pub fn release(cell: &mut ClaimCell, process_id: u32)
    ensures
        final(cell)@ == released(old(cell)@, process_id),
{
    if cell.claimed == process_id {
        cell.claimed = 0;
    }
}

/// Whether the claim names the foreground process, so that the host must
/// check the process is still alive before standing the hook down.
pub fn claim_matches(cell: &ClaimCell, foreground_process: u32) -> (r: bool)
    ensures
        r == (foreground_process != 0 && cell@ == foreground_process),
{
    foreground_process != 0 && cell.claimed == foreground_process
}

/// Hook side: must the hook stand down for this foreground process? Only
/// when a live text service (`process_alive`, which the host checks only
/// when the claim matches) has claimed exactly that process; process 0 is
/// never a valid claim, and a claim left by a dead process is ignored.
pub fn is_claimed_by(cell: &ClaimCell, foreground_process: u32, process_alive: bool) -> (r: bool)
    ensures
        r == stands_down(cell@, foreground_process, process_alive),
{
    claim_matches(cell, foreground_process) && process_alive
}

/// A published claim stands the hook down for that live process and for
/// no other; a dead process's claim stands nothing down; releasing the
/// claim lifts the stand-down; another process's release leaves it.
pub proof fn lemma_claim_protocol(pid: u32, other: u32, alive: bool)
    requires
        pid != 0,
        other != pid,
    ensures
        stands_down(pid, pid, true),
        !stands_down(pid, pid, false),
        !stands_down(pid, other, alive),
        !stands_down(released(pid, pid), pid, alive),
        released(pid, other) == pid,
        !stands_down(0, 0, alive),
{
}

} // verus!
