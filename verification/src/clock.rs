//! Elapsed-time bookkeeping for the timer example: a hh:mm:ss clock that
//! advances once per timer event and rolls over after twenty-four hours.

use vstd::prelude::*;

verus! {

/// An elapsed-time display value. Well-formed values keep seconds and
/// minutes under sixty and hours under twenty-four.
pub struct Time {
    seconds: u32,
    minutes: u32,
    hours: u32,
}

/// The clock value one second after `(seconds, minutes, hours)`, with
/// carries into minutes and hours and a full reset after 23:59:59.
pub open spec fn tick_spec(seconds: u32, minutes: u32, hours: u32) -> (u32, u32, u32) {
    if seconds < 59 {
        ((seconds + 1) as u32, minutes, hours)
    } else if minutes < 59 {
        (0u32, (minutes + 1) as u32, hours)
    } else if hours < 23 {
        (0u32, 0u32, (hours + 1) as u32)
    } else {
        (0u32, 0u32, 0u32)
    }
}

impl Time {
    /// Seconds shown, 0..=59 when well-formed.
    pub closed spec fn secs(self) -> u32 {
        self.seconds
    }

    /// Minutes shown, 0..=59 when well-formed.
    pub closed spec fn mins(self) -> u32 {
        self.minutes
    }

    /// Hours shown, 0..=23 when well-formed.
    pub closed spec fn hrs(self) -> u32 {
        self.hours
    }

    /// Every field is inside its display range.
    pub open spec fn wf(self) -> bool {
        self.secs() <= 59 && self.mins() <= 59 && self.hrs() <= 23
    }

    /// The clock at 00:00:00.
    pub fn new() -> (time: Time)
        ensures
            time.secs() == 0,
            time.mins() == 0,
            time.hrs() == 0,
            time.wf(),
    {
        Time { seconds: 0, minutes: 0, hours: 0 }
    }

    /// Read the clock as (seconds, minutes, hours).
    pub fn parts(&self) -> (parts: (u32, u32, u32))
        ensures
            parts == (self.secs(), self.mins(), self.hrs()),
    {
        (self.seconds, self.minutes, self.hours)
    }

    /// Advance by one second, carrying into minutes and hours and rolling
    /// the whole clock over after twenty-four hours.
    pub fn tick(&mut self)
        requires
            old(self).wf(),
        ensures
            (final(self).secs(), final(self).mins(), final(self).hrs()) == tick_spec(
                old(self).secs(),
                old(self).mins(),
                old(self).hrs(),
            ),
            final(self).wf(),
    {
        self.seconds = self.seconds + 1;
        if self.seconds > 59 {
            self.minutes = self.minutes + 1;
            self.seconds = 0;
        }
        if self.minutes > 59 {
            self.hours = self.hours + 1;
            self.minutes = 0;
        }
        if self.hours > 23 {
            self.seconds = 0;
            self.minutes = 0;
            self.hours = 0;
        }
    }

    /// Reset the display to 00:00:00, as the reset button does.
    pub fn reset(&mut self)
        ensures
            final(self).secs() == 0,
            final(self).mins() == 0,
            final(self).hrs() == 0,
            final(self).wf(),
    {
        self.seconds = 0;
        self.minutes = 0;
        self.hours = 0;
    }
}

} // verus!
