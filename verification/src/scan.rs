//! The shared scan cell. A scan runs in the background: the foreground marks
//! the cell as scanning, the background writes the outcome into it once, and
//! the foreground polls it each refresh tick, consuming a terminal outcome
//! exactly once. The cell itself is plain state; the shell around the
//! library wraps it in a lock and owns the background thread.

use vstd::prelude::*;

verus! {

/// The life of one scan, as seen through the shared cell.
#[derive(Clone, Debug, PartialEq, Eq)]
pub enum ScanStatus {
    /// No scan is in flight and no outcome is waiting.
    Idle,
    /// A scan is in flight; its outcome has not arrived yet.
    Scanning,
    /// The scan found the base directory at this path.
    Found(Vec<u8>),
    /// The scan finished without finding a match.
    NotFound,
}

/// The cell a scan reports through.
pub struct ScanCell {
    pub status: ScanStatus,
}

impl ScanCell {
    /// A fresh, idle cell.
    pub fn new() -> (c: ScanCell)
        ensures
            c.status is Idle,
    {
        ScanCell { status: ScanStatus::Idle }
    }

    /// Marks a scan as in flight, whatever was in the cell before.
    pub fn begin(&mut self)
        ensures
            final(self).status is Scanning,
    {
        self.status = ScanStatus::Scanning;
    }

    /// Stores a finished scan's outcome: the base path when one was found.
    pub fn complete(&mut self, found: Option<Vec<u8>>)
        ensures
            match found {
                Some(p) => final(self).status == ScanStatus::Found(p),
                None => final(self).status is NotFound,
            },
    {
        match found {
            Some(p) => self.status = ScanStatus::Found(p),
            None => self.status = ScanStatus::NotFound,
        }
    }

    /// Returns the current status. A terminal outcome (found or not found)
    /// is consumed: the cell returns to idle, so each outcome is observed
    /// once; an idle or scanning cell is left as it is.
    pub fn take(&mut self) -> (r: ScanStatus)
        ensures
            r == old(self).status,
            final(self).status == (match old(self).status {
                ScanStatus::Found(_) => ScanStatus::Idle,
                ScanStatus::NotFound => ScanStatus::Idle,
                s => s,
            }),
    {
        match &self.status {
            ScanStatus::Idle => ScanStatus::Idle,
            ScanStatus::Scanning => ScanStatus::Scanning,
            _ => {
                let mut cur = ScanStatus::Idle;
                core::mem::swap(&mut cur, &mut self.status);
                cur
            },
        }
    }
}

} // verus!
