//! A vault's daily bookkeeping and its day transitions.

use vstd::prelude::*;

use crate::constants::TWENTY_FOUR_HOURS;
use crate::error::TollgateError;
use crate::key::Key;

verus! {

/// Where the current distribution day stands.
#[derive(Debug, Clone, Copy, PartialEq, Eq, Structural)]
pub enum DayState {
    /// A day has just started; its fees are claimed, no page continued it yet.
    New,
    /// Pages of the day are being processed.
    Same,
    /// The day is settled; nothing more is paid until the next day.
    Closed,
}

/// The daily bookkeeping of one vault, updated by every crank.
#[derive(Debug, Clone, Copy)]
pub struct Progress {
    pub vault: Key,
    /// Start of the current day; 0 before the first day.
    pub last_distribution_ts: i64,
    /// What investors were paid in the current day.
    pub daily_spent: u64,
    /// Undistributed amount held over for the next day.
    pub carry: u64,
    /// How many investors of the current day are processed.
    pub cursor: u32,
    pub day_state: DayState,
    pub bump: u8,
}

/// Whether `now` lies a full day or more after `last`, or no day ever began.
pub open spec fn new_day_at(last: i64, now: i64) -> bool {
    last == 0 || now - last >= TWENTY_FOUR_HOURS
}

impl Progress {
    /// Whether a new day has begun at `now`.
    pub open spec fn is_new_day_spec(&self, now: i64) -> bool {
        new_day_at(self.last_distribution_ts, now)
    }

    /// The bookkeeping right after a new day begins at `now`.
    pub open spec fn started_at(self, now: i64) -> Progress {
        Progress {
            day_state: DayState::New,
            last_distribution_ts: now,
            daily_spent: 0,
            cursor: 0,
            ..self
        }
    }

    /// Sets up fresh bookkeeping for `vault`; refused once a day has begun.
    pub fn initialize(&mut self, vault: Key, bump: u8) -> (r: Result<(), TollgateError>)
        ensures
            old(self).last_distribution_ts == 0 ==> r is Ok && *final(self) == (Progress {
                vault,
                last_distribution_ts: 0,
                daily_spent: 0,
                carry: 0,
                cursor: 0,
                day_state: DayState::Closed,
                bump,
            }),
            old(self).last_distribution_ts != 0 ==> r == Err::<(), TollgateError>(
                TollgateError::ProgressAlreadyInitialized,
            ) && *final(self) == *old(self),
    {
        if self.last_distribution_ts != 0 {
            return Err(TollgateError::ProgressAlreadyInitialized);
        }
        self.vault = vault;
        self.last_distribution_ts = 0;
        self.daily_spent = 0;
        self.carry = 0;
        self.cursor = 0;
        self.day_state = DayState::Closed;
        self.bump = bump;
        Ok(())
    }

    /// Whether a new day has begun at `now`: no day ever began, or a full day
    /// has passed since the current one began.
    pub fn is_new_day(&self, now_ts: i64) -> (r: bool)
        ensures
            r == self.is_new_day_spec(now_ts),
    {
        if self.last_distribution_ts == 0 {
            return true;
        }
        (now_ts as i128) - (self.last_distribution_ts as i128) >= TWENTY_FOUR_HOURS as i128
    }

    /// Whether `now` still lies in the current day.
    pub fn is_same_day(&self, now_ts: i64) -> (r: bool)
        ensures
            r == !self.is_new_day_spec(now_ts),
    {
        !self.is_new_day(now_ts)
    }

    /// Begins a new day at `now`: the cursor and the day's spending restart
    /// from zero.
    pub fn start_new_day(&mut self, now_ts: i64) -> (r: Result<(), TollgateError>)
        ensures
            old(self).is_new_day_spec(now_ts) ==> r is Ok && *final(self) == old(self).started_at(
                now_ts,
            ),
            !old(self).is_new_day_spec(now_ts) ==> r == Err::<(), TollgateError>(
                TollgateError::CannotStartNewDay,
            ) && *final(self) == *old(self),
    {
        if !self.is_new_day(now_ts) {
            return Err(TollgateError::CannotStartNewDay);
        }
        self.day_state = DayState::New;
        self.last_distribution_ts = now_ts;
        self.daily_spent = 0;
        self.cursor = 0;
        Ok(())
    }

    /// Moves a day that has just begun on to its continuation.
    pub fn continue_same_day(&mut self) -> (r: Result<(), TollgateError>)
        ensures
            old(self).day_state == DayState::New ==> r is Ok && *final(self) == (Progress {
                day_state: DayState::Same,
                ..*old(self)
            }),
            old(self).day_state != DayState::New ==> r == Err::<(), TollgateError>(
                TollgateError::CannotContinueSameDay,
            ) && *final(self) == *old(self),
    {
        if self.day_state != DayState::New {
            return Err(TollgateError::CannotContinueSameDay);
        }
        self.day_state = DayState::Same;
        Ok(())
    }

    /// Closes an open day.
    pub fn close_day(&mut self) -> (r: Result<(), TollgateError>)
        ensures
            old(self).day_state != DayState::Closed ==> r is Ok && *final(self) == (Progress {
                day_state: DayState::Closed,
                ..*old(self)
            }),
            old(self).day_state == DayState::Closed ==> r == Err::<(), TollgateError>(
                TollgateError::CannotCloseDay,
            ) && *final(self) == *old(self),
    {
        if self.day_state == DayState::Closed {
            return Err(TollgateError::CannotCloseDay);
        }
        self.day_state = DayState::Closed;
        Ok(())
    }
}

} // verus!
