//! A running simulation and what the outside world may ask of it.
//!
//! The session takes the decisions of the main loop: what a key does, when a
//! vehicle is due, whether time passes. Reading keys, measuring time and
//! drawing are left to the caller.

use crate::geometry::{LanePair, Layout};
use crate::intersection::{Intersection, IntersectionState};
use crate::spawning::{spec_exit_for_choice, spec_pair_for_choices, ArrowKey};
use vstd::prelude::*;

verus! {

/// Milliseconds that must pass between two vehicles that appear by
/// themselves.
pub const SPAWN_INTERVAL: u64 = 800;

/// Milliseconds that must pass after a key before another key is heeded.
pub const KEY_PRESS_INTERVAL: u64 = 0;

/// Whether a key is heeded that comes `since_last_key` milliseconds after
/// the last one that was.
pub fn key_is_heeded(since_last_key: u64) -> (r: bool)
    ensures
        r == (since_last_key >= KEY_PRESS_INTERVAL),
{
    since_last_key >= KEY_PRESS_INTERVAL
}

/// What the outside world reports.
#[derive(Clone, Copy, Debug, PartialEq, Eq, Structural)]
pub enum Input {
    /// The window was closed.
    Quit,
    /// The escape key was pressed.
    Escape,
    /// An arrow key was pressed.
    Arrow(ArrowKey),
    /// The key that switches spawning by itself on and off was pressed.
    ToggleSpawning,
    /// Anything else.
    Other,
}

/// Whether the main loop goes on.
#[derive(Clone, Copy, Debug, PartialEq, Eq, Structural)]
pub enum Flow {
    Continue,
    Stop,
}

/// A simulation together with the switches of its main loop.
#[derive(Debug)]
pub struct Session {
    intersection: Intersection,
    next_id: u32,
    continuous_spawning: bool,
    show_statistics: bool,
}

/// The mathematical model of a [`Session`].
pub struct SessionState {
    pub intersection: IntersectionState,
    pub next_id: u32,
    pub continuous_spawning: bool,
    pub show_statistics: bool,
}

impl View for Session {
    type V = SessionState;

    closed spec fn view(&self) -> SessionState {
        SessionState {
            intersection: self.intersection@,
            next_id: self.next_id,
            continuous_spawning: self.continuous_spawning,
            show_statistics: self.show_statistics,
        }
    }
}

impl SessionState {
    /// The intersection is well-formed.
    pub open spec fn wf(self) -> bool {
        self.intersection.wf()
    }

    /// A session on `layout` in which nothing has happened yet.
    pub open spec fn fresh(layout: Layout) -> SessionState {
        SessionState {
            intersection: IntersectionState::empty(layout),
            next_id: 0,
            continuous_spawning: false,
            show_statistics: false,
        }
    }

    /// The session after a request for a vehicle on `pair`: the request is
    /// put to the intersection under the next identity, and the identity is
    /// used up whether or not the vehicle is admitted.
    pub open spec fn with_request(self, pair: LanePair) -> SessionState {
        SessionState {
            intersection: self.intersection.with_spawn(pair, self.next_id),
            next_id: (self.next_id + 1) as u32,
            ..self
        }
    }

    /// Whether a vehicle is due to appear by itself when `since_last_spawn`
    /// milliseconds have passed since the last one: spawning by itself is
    /// switched on, the statistics are not showing and the interval is over.
    pub open spec fn spawn_is_due(self, since_last_spawn: u64) -> bool {
        !self.show_statistics && self.continuous_spawning && since_last_spawn >= SPAWN_INTERVAL
    }

    /// Whether a tick can be taken: always while the statistics are showing,
    /// since time stands still then; otherwise when the counters have room.
    pub open spec fn can_tick(self) -> bool {
        self.show_statistics || self.intersection.has_room()
    }
}

impl Session {
    /// A session on `layout`: an empty intersection, identities from zero,
    /// spawning by itself switched off, statistics not showing.
    pub fn new(layout: Layout) -> (r: Session)
        requires
            layout.wf(),
        ensures
            r@ == SessionState::fresh(layout),
            r@.wf(),
    {
        Session {
            intersection: Intersection::new(layout),
            next_id: 0,
            continuous_spawning: false,
            show_statistics: false,
        }
    }

    /// The simulation.
    pub fn intersection(&self) -> (r: &Intersection)
        ensures
            r@ == self@.intersection,
    {
        &self.intersection
    }

    /// The identity that the next vehicle will be asked for with.
    pub fn next_id(&self) -> (r: u32)
        ensures
            r == self@.next_id,
    {
        self.next_id
    }

    /// Whether vehicles appear by themselves.
    pub fn continuous_spawning(&self) -> (r: bool)
        ensures
            r == self@.continuous_spawning,
    {
        self.continuous_spawning
    }

    /// Whether the statistics are showing and time stands still.
    pub fn show_statistics(&self) -> (r: bool)
        ensures
            r == self@.show_statistics,
    {
        self.show_statistics
    }

    /// Reacts to what the outside world reports. Closing the window stops
    /// the loop. Escape shows the statistics, and stops the loop if they are
    /// showing already. An arrow key asks for a vehicle from the side it
    /// stands for, towards a side picked by chance. The spawning key
    /// switches spawning by itself on or off. Anything else is ignored.
    pub fn handle(&mut self, input: Input) -> (flow: Flow)
        requires
            old(self)@.wf(),
            input is Arrow ==> old(self)@.next_id < u32::MAX,
        ensures
            final(self)@.wf(),
            match input {
                Input::Quit => flow == Flow::Stop && final(self)@ == old(self)@,
                Input::Escape => if old(self)@.show_statistics {
                    flow == Flow::Stop && final(self)@ == old(self)@
                } else {
                    flow == Flow::Continue && final(self)@ == (SessionState {
                        show_statistics: true,
                        ..old(self)@
                    })
                },
                Input::Arrow(key) => flow == Flow::Continue && exists|choice: int|
                    0 <= choice < 3 && final(self)@ == old(self)@.with_request(
                        #[trigger] LanePair::spec_new(
                            key.spec_origin(),
                            spec_exit_for_choice(key.spec_origin(), choice),
                        ).unwrap(),
                    ),
                Input::ToggleSpawning => flow == Flow::Continue && final(self)@ == (SessionState {
                    continuous_spawning: !old(self)@.continuous_spawning,
                    ..old(self)@
                }),
                Input::Other => flow == Flow::Continue && final(self)@ == old(self)@,
            },
    {
        match input {
            Input::Quit => Flow::Stop,
            Input::Escape => {
                if self.show_statistics {
                    Flow::Stop
                } else {
                    self.show_statistics = true;
                    Flow::Continue
                }
            },
            Input::Arrow(key) => {
                self.intersection.add_directed_vehicle(key, self.next_id);
                self.next_id = self.next_id + 1;
                Flow::Continue
            },
            Input::ToggleSpawning => {
                self.continuous_spawning = !self.continuous_spawning;
                Flow::Continue
            },
            Input::Other => Flow::Continue,
        }
    }

    /// Whether a vehicle is due to appear by itself, `since_last_spawn`
    /// milliseconds after the last one.
    pub fn spawn_is_due(&self, since_last_spawn: u64) -> (r: bool)
        ensures
            r == self@.spawn_is_due(since_last_spawn),
    {
        !self.show_statistics && self.continuous_spawning && since_last_spawn >= SPAWN_INTERVAL
    }

    /// Lets a vehicle appear on a route picked by chance if one is due,
    /// `since_last_spawn` milliseconds after the last one. Returns whether
    /// one was due, in which case the caller starts counting anew.
    pub fn spawn_if_due(&mut self, since_last_spawn: u64) -> (due: bool)
        requires
            old(self)@.wf(),
            old(self)@.spawn_is_due(since_last_spawn) ==> old(self)@.next_id < u32::MAX,
        ensures
            final(self)@.wf(),
            due == old(self)@.spawn_is_due(since_last_spawn),
            !due ==> final(self)@ == old(self)@,
            due ==> exists|first: int, second: int|
                0 <= first < 4 && 0 <= second < 3 && final(self)@ == old(self)@.with_request(
                    #[trigger] spec_pair_for_choices(first, second),
                ),
    {
        if !self.spawn_is_due(since_last_spawn) {
            return false;
        }
        self.intersection.add_random_vehicle(self.next_id);
        self.next_id = self.next_id + 1;
        true
    }

    /// Whether the next call of [`Session::tick`] is sure to find room in
    /// the counters.
    pub fn can_tick(&self) -> (r: bool)
        ensures
            r == (self@.show_statistics || self@.intersection.surely_has_room()),
            r ==> self@.can_tick(),
    {
        self.show_statistics || self.intersection.can_update()
    }

    /// Lets one tick pass, unless the statistics are showing: then time
    /// stands still.
    pub fn tick(&mut self)
        requires
            old(self)@.wf(),
            old(self)@.can_tick(),
        ensures
            final(self)@.wf(),
            final(self)@ == (SessionState {
                intersection: if old(self)@.show_statistics {
                    old(self)@.intersection
                } else {
                    old(self)@.intersection.ticked()
                },
                ..old(self)@
            }),
    {
        if !self.show_statistics {
            self.intersection.update();
        }
    }
}

} // verus!
