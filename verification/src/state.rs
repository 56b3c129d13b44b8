//! Scan counters shared by the desktop commands.

use vstd::prelude::*;

verus! {

/// A snapshot of the scan counters.
#[derive(Debug, Clone, Copy, PartialEq, Eq, Structural)]
pub struct ScanStatus {
    /// Scans that have begun and not yet ended.
    pub active_scans: u32,
    /// Scans that have ended since start-up.
    pub total_completed: u64,
}

/// The counters after a scan begins.
pub open spec fn after_begin(s: ScanStatus) -> ScanStatus {
    ScanStatus { active_scans: (s.active_scans + 1) as u32, total_completed: s.total_completed }
}

/// The counters after a scan ends: the active count goes down by one but
/// never below zero, and one more scan is completed.
pub open spec fn after_end(s: ScanStatus) -> ScanStatus {
    ScanStatus {
        active_scans: if s.active_scans == 0 { 0 } else { (s.active_scans - 1) as u32 },
        total_completed: (s.total_completed + 1) as u64,
    }
}

/// The application's scan state. The application shell shares it between
/// commands behind an async read-write lock.
#[derive(Debug, Clone)]
pub struct AppState {
    inner: ScanStatus,
}

impl View for AppState {
    type V = ScanStatus;

    closed spec fn view(&self) -> ScanStatus {
        self.inner
    }
}

impl AppState {
    /// Fresh state: no scan active, none completed.
    pub fn new() -> (s: Self)
        ensures
            s@ == (ScanStatus { active_scans: 0, total_completed: 0 }),
    {
        AppState { inner: ScanStatus { active_scans: 0, total_completed: 0 } }
    }

    /// The current counters.
    pub fn get_status(&self) -> (s: ScanStatus)
        ensures
            s == self@,
    {
        self.inner
    }

    /// Records that a scan has begun.
    pub fn begin_scan(&mut self)
        requires
            old(self)@.active_scans < u32::MAX,
        ensures
            final(self)@ == after_begin(old(self)@),
    {
        self.inner.active_scans = self.inner.active_scans + 1;
    }

    /// Records that a scan has ended.
    pub fn end_scan(&mut self)
        requires
            old(self)@.total_completed < u64::MAX,
        ensures
            final(self)@ == after_end(old(self)@),
    {
        self.inner.active_scans = if self.inner.active_scans == 0 { 0 } else { self.inner.active_scans - 1 };
        self.inner.total_completed = self.inner.total_completed + 1;
    }
}

/// A scan that begins and then ends leaves the active count as it was and
/// adds one completed scan.
pub proof fn lemma_begin_end_round_trip(s: ScanStatus)
    requires
        s.active_scans < u32::MAX,
        s.total_completed < u64::MAX,
    ensures
        after_end(after_begin(s)).active_scans == s.active_scans,
        after_end(after_begin(s)).total_completed == s.total_completed + 1,
{
}

/// The completed count only grows: every end adds exactly one.
pub proof fn lemma_end_counts_completion(s: ScanStatus)
    requires
        s.total_completed < u64::MAX,
    ensures
        after_end(s).total_completed == s.total_completed + 1,
        after_end(s).active_scans <= s.active_scans,
{
}

} // verus!
