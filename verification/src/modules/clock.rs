//! The clock of the bar. It shows the hour twice: on the 24-hour and on the
//! 12-hour dial. The host reads the time of the machine and hands the hour
//! over.

use vstd::prelude::*;

verus! {

/// The tick that has the clock take the time anew.
#[derive(Debug, Clone)]
pub enum Message {
    Update,
}

/// The hour on the 12-hour dial: 12 at midnight and at noon, else the hour
/// modulo 12.
pub open spec fn twelve_hour(hour: int) -> int {
    if hour % 12 == 0 {
        12
    } else {
        hour % 12
    }
}

/// The hour of the day that the host last handed to the clock.
pub struct Clock {
    hour: u32,
}

impl Clock {
    /// The hour held is one of the day.
    #[verifier::type_invariant]
    spec fn on_the_dial(self) -> bool {
        self.hour < 24
    }

    /// The hour of the day held, from 0 to 23.
    pub closed spec fn hour(&self) -> int {
        self.hour as int
    }

    /// A clock that holds the hour `now_hour` of the day. Hours past 23 wrap
    /// round the dial.
    pub fn at(now_hour: u32) -> (clock: Clock)
        ensures
            clock.hour() == now_hour % 24,
    {
        Clock { hour: now_hour % 24 }
    }

    /// Takes `now_hour` as the hour of the day on a tick.
    pub fn update_at(&mut self, message: Message, now_hour: u32)
        ensures
            final(self).hour() == now_hour % 24,
    {
        match message {
            Message::Update => {
                self.hour = now_hour % 24;
            },
        }
    }

    /// The two numbers to show: the hour on the 24-hour dial, then on the
    /// 12-hour dial.
    pub fn hours(&self) -> (shown: (u32, u32))
        ensures
            shown.0 == self.hour(),
            shown.0 < 24,
            shown.1 == twelve_hour(self.hour()),
            1 <= shown.1 <= 12,
    {
        proof {
            use_type_invariant(self);
        }
        let remainder: u32 = self.hour % 12;
        if remainder == 0 {
            (self.hour, 12)
        } else {
            (self.hour, remainder)
        }
    }
}

} // verus!
