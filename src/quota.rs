//! Tracking a value against a quota, with a warning sent through a messenger
//! as the value nears or passes the maximum.
use vstd::prelude::*;

verus! {

/// Where warnings go. Users of the tracker implement it.
pub trait Messenger {
    fn send(&self, msg: &str);
}

/// How close a value is to its quota.
#[derive(PartialEq, Eq, Structural, Clone, Copy, Debug)]
pub enum Level {
    /// At or over the maximum.
    Over,
    /// At 90% of it or more.
    Urgent,
    /// At 75% of it or more.
    Warning,
}

/// The level of `value` against `max`: the share `value / max` is compared
/// with 1, 0.9 and 0.75. With a maximum of zero any positive value is over
/// quota, and zero itself has no share at all.
pub open spec fn level_of(value: nat, max: nat) -> Option<Level> {
    if max == 0 {
        if value > 0 {
            Some(Level::Over)
        } else {
            None
        }
    } else if value >= max {
        Some(Level::Over)
    } else if 10 * value >= 9 * max {
        Some(Level::Urgent)
    } else if 4 * value >= 3 * max {
        Some(Level::Warning)
    } else {
        None
    }
}

pub open spec fn message_of(level: Level) -> Seq<char> {
    match level {
        Level::Over => "Error: You are over your quota!"@,
        Level::Urgent => "Urgent warning: You've used up over 90% of your quota!"@,
        Level::Warning => "Warning: You've used up over 75% of your quota!"@,
    }
}

impl Level {
    /// The text sent for this level.
    pub fn message(&self) -> (r: &'static str)
        ensures
            r@ == message_of(*self),
    {
        match self {
            Level::Over => "Error: You are over your quota!",
            Level::Urgent => "Urgent warning: You've used up over 90% of your quota!",
            Level::Warning => "Warning: You've used up over 75% of your quota!",
        }
    }
}

/// The level of `value` against `max`, if it calls for a message.
pub fn quota_level(value: usize, max: usize) -> (r: Option<Level>)
    ensures
        r == level_of(value as nat, max as nat),
{
    let v = value as u128;
    let m = max as u128;
    if max == 0 {
        if value > 0 {
            Some(Level::Over)
        } else {
            None
        }
    } else if v >= m {
        Some(Level::Over)
    } else if 10 * v >= 9 * m {
        Some(Level::Urgent)
    } else if 4 * v >= 3 * m {
        Some(Level::Warning)
    } else {
        None
    }
}

pub struct LimitTracker<'a, T: Messenger> {
    messenger: &'a T,
    value: usize,
    max: usize,
}

impl<'a, T> LimitTracker<'a, T> where T: Messenger {
    pub closed spec fn spec_value(&self) -> usize {
        self.value
    }

    pub closed spec fn spec_max(&self) -> usize {
        self.max
    }

    pub closed spec fn spec_messenger(&self) -> &'a T {
        self.messenger
    }

    /// A tracker of a value that starts at zero, against `max`.
    pub fn new(messenger: &'a T, max: usize) -> (r: LimitTracker<'a, T>)
        ensures
            r.spec_messenger() == messenger,
            r.spec_value() == 0,
            r.spec_max() == max,
    {
        LimitTracker { messenger, value: 0, max }
    }

    /// Records `value` and sends one message if its level calls for one:
    /// the message of `quota_level(value, max)`.
    pub fn set_value(&mut self, value: usize)
        ensures
            final(self).spec_value() == value,
            final(self).spec_max() == old(self).spec_max(),
            final(self).spec_messenger() == old(self).spec_messenger(),
    {
        self.value = value;
        match quota_level(self.value, self.max) {
            Some(level) => self.messenger.send(level.message()),
            None => {},
        }
    }
}

} // verus!
