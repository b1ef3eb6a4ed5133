//! Usage tracker: measures the byte-footprint delta of one store mutation.
//!
//! The store reports a single running byte counter shared by all bookkeeping
//! in a call, so the only reliable way to attribute cost to one logical
//! mutation is to snapshot the counter before it and subtract after it. The
//! tracker is a two-state machine: idle, or tracking with a recorded
//! baseline. A measurement must never outlive a single call.

use crate::error::StorageError;
use vstd::prelude::*;

verus! {

/// One bracketed measurement of the store's byte counter.
pub struct StorageUsageTrackerData {
    is_tracked: bool,
    last_storage_usage: u64,
}

impl StorageUsageTrackerData {
    /// Whether a measurement is in progress.
    pub closed spec fn is_tracking(&self) -> bool {
        self.is_tracked
    }

    /// The counter value recorded when the measurement started.
    pub closed spec fn baseline(&self) -> u64 {
        self.last_storage_usage
    }

    /// Whether a measurement is in progress, as executable code sees it.
    pub fn tracking(&self) -> (r: bool)
        ensures
            r == self.is_tracking(),
    {
        self.is_tracked
    }

    /// Starts a measurement from the store's current byte counter.
    ///
    /// Valid only when idle: a tracker found mid-measurement is an
    /// internal-consistency bug, reported rather than silently reset.
    pub fn track(&mut self, current_usage: u64) -> (r: Result<(), StorageError>)
        ensures
            old(self).is_tracking() ==> r == Err::<(), StorageError>(StorageError::TrackerInUse)
                && *final(self) == *old(self),
            !old(self).is_tracking() ==> r == Ok::<(), StorageError>(())
                && final(self).is_tracking() && final(self).baseline() == current_usage,
    {
        if self.is_tracked {
            return Err(StorageError::TrackerInUse);
        }
        self.is_tracked = true;
        self.last_storage_usage = current_usage;
        Ok(())
    }

    /// Ends the measurement and returns `base_value` adjusted by the delta
    /// the counter showed: added if usage grew, subtracted if it shrank.
    ///
    /// Valid only while tracking. Fails without any state change when the
    /// adjustment leaves the unsigned 64-bit range.
    pub fn finish(&mut self, base_value: u64, current_usage: u64) -> (r: Result<
        u64,
        StorageError,
    >)
        ensures
            !old(self).is_tracking() ==> r == Err::<u64, StorageError>(StorageError::TrackerIdle)
                && *final(self) == *old(self),
            old(self).is_tracking() ==> ({
                let adjusted = base_value + current_usage - old(self).baseline();
                if 0 <= adjusted <= u64::MAX {
                    r == Ok::<u64, StorageError>(adjusted as u64) && !final(self).is_tracking()
                        && final(self).baseline() == old(self).baseline()
                } else {
                    r == Err::<u64, StorageError>(StorageError::Overflow) && *final(self) == *old(
                        self,
                    )
                }
            }),
    {
        if !self.is_tracked {
            return Err(StorageError::TrackerIdle);
        }
        let baseline: u64 = self.last_storage_usage;
        if current_usage >= baseline {
            let growth: u64 = current_usage - baseline;
            if base_value <= u64::MAX - growth {
                self.is_tracked = false;
                Ok(base_value + growth)
            } else {
                Err(StorageError::Overflow)
            }
        } else {
            let shrink: u64 = baseline - current_usage;
            if base_value >= shrink {
                self.is_tracked = false;
                Ok(base_value - shrink)
            } else {
                Err(StorageError::Overflow)
            }
        }
    }
}

impl Default for StorageUsageTrackerData {
    /// A fresh tracker starts idle.
    fn default() -> (r: Self)
        ensures
            !r.is_tracking(),
    {
        StorageUsageTrackerData { is_tracked: false, last_storage_usage: 0 }
    }
}

} // verus!
