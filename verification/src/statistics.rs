//! Running totals and extremes of a simulation.
//!
//! The counters only grow, the maxima only rise and the minima only fall.
//! Nothing here feeds back into the simulation.

use crate::vehicle::CRUISE_VELOCITY;
use vstd::prelude::*;

verus! {

/// Totals and extremes observed so far.
#[derive(Clone, Copy, Debug, PartialEq, Eq)]
pub struct Statistics {
    /// Number of completed trips.
    pub num_vehicles: u32,
    /// Highest velocity any vehicle was given.
    pub max_velocity: u32,
    /// Lowest velocity any vehicle was given.
    pub min_velocity: u32,
    /// Longest completed trip; zero before the first.
    pub max_time: u64,
    /// Shortest completed trip; none before the first.
    pub min_time: Option<u64>,
    /// Number of close calls.
    pub close_calls: u32,
}

impl Statistics {
    /// Statistics of a simulation in which nothing has happened yet: no
    /// trips, no close calls, and cruise velocity as the only velocity seen.
    pub open spec fn spec_new() -> Statistics {
        Statistics {
            num_vehicles: 0,
            max_velocity: CRUISE_VELOCITY,
            min_velocity: CRUISE_VELOCITY,
            max_time: 0,
            min_time: None,
            close_calls: 0,
        }
    }

    /// The statistics after a vehicle was given `velocity`.
    pub open spec fn with_velocity(self, velocity: u32) -> Statistics {
        Statistics {
            max_velocity: if velocity > self.max_velocity {
                velocity
            } else {
                self.max_velocity
            },
            min_velocity: if velocity < self.min_velocity {
                velocity
            } else {
                self.min_velocity
            },
            ..self
        }
    }

    /// The statistics after a trip that took `time`: one more trip, and the
    /// extremes of trip time stretched to include it.
    pub open spec fn with_trip(self, time: u64) -> Statistics {
        Statistics {
            num_vehicles: (self.num_vehicles + 1) as u32,
            max_time: if time > self.max_time {
                time
            } else {
                self.max_time
            },
            min_time: match self.min_time {
                Some(least) if least <= time => Some(least),
                _ => Some(time),
            },
            ..self
        }
    }

    /// Statistics of a simulation in which nothing has happened yet.
    pub fn new() -> (r: Statistics)
        ensures
            r == Self::spec_new(),
    {
        Statistics {
            num_vehicles: 0,
            max_velocity: CRUISE_VELOCITY,
            min_velocity: CRUISE_VELOCITY,
            max_time: 0,
            min_time: None,
            close_calls: 0,
        }
    }

    /// Adds to the number of completed trips.
    pub fn add_to_total_vehicles(&mut self, amount_to_add: u32)
        requires
            old(self).num_vehicles + amount_to_add <= u32::MAX,
        ensures
            *final(self) == (Statistics {
                num_vehicles: (old(self).num_vehicles + amount_to_add) as u32,
                ..*old(self)
            }),
    {
        self.num_vehicles = self.num_vehicles + amount_to_add;
    }

    /// Replaces the highest velocity.
    pub fn set_max_velocity(&mut self, new_velocity: u32)
        ensures
            *final(self) == (Statistics { max_velocity: new_velocity, ..*old(self) }),
    {
        self.max_velocity = new_velocity;
    }

    /// Replaces the lowest velocity.
    pub fn set_min_velocity(&mut self, new_velocity: u32)
        ensures
            *final(self) == (Statistics { min_velocity: new_velocity, ..*old(self) }),
    {
        self.min_velocity = new_velocity;
    }

    /// Replaces the longest trip time.
    pub fn set_max_time(&mut self, new_time: u64)
        ensures
            *final(self) == (Statistics { max_time: new_time, ..*old(self) }),
    {
        self.max_time = new_time;
    }

    /// Replaces the shortest trip time.
    pub fn set_min_time(&mut self, new_time: u64)
        ensures
            *final(self) == (Statistics { min_time: Some(new_time), ..*old(self) }),
    {
        self.min_time = Some(new_time);
    }

    /// Adds to the number of close calls.
    pub fn add_close_call(&mut self, amount_to_add: u32)
        requires
            old(self).close_calls + amount_to_add <= u32::MAX,
        ensures
            *final(self) == (Statistics {
                close_calls: (old(self).close_calls + amount_to_add) as u32,
                ..*old(self)
            }),
    {
        self.close_calls = self.close_calls + amount_to_add;
    }

    /// Takes note of a velocity that a vehicle was given: the highest
    /// velocity rises to it if it is higher, the lowest falls to it if it is
    /// lower.
    pub fn record_velocity(&mut self, velocity: u32)
        ensures
            *final(self) == old(self).with_velocity(velocity),
            final(self).max_velocity >= old(self).max_velocity,
            final(self).min_velocity <= old(self).min_velocity,
            final(self).min_velocity <= velocity <= final(self).max_velocity,
    {
        if velocity > self.max_velocity {
            self.set_max_velocity(velocity);
        }
        if velocity < self.min_velocity {
            self.set_min_velocity(velocity);
        }
    }

    /// Takes note of a completed trip that took `time`.
    pub fn record_trip(&mut self, time: u64)
        requires
            old(self).num_vehicles < u32::MAX,
        ensures
            *final(self) == old(self).with_trip(time),
            final(self).num_vehicles == old(self).num_vehicles + 1,
            final(self).max_time >= old(self).max_time,
            final(self).min_time matches Some(least) && least <= time && (old(self).min_time
                matches Some(before) ==> least <= before),
            time <= final(self).max_time,
    {
        if time > self.max_time {
            self.set_max_time(time);
        }
        let lower: bool = match self.min_time {
            Some(least) => time < least,
            None => true,
        };
        if lower {
            self.set_min_time(time);
        }
        self.add_to_total_vehicles(1);
    }
}

} // verus!
