use vstd::prelude::*;

verus! {

/// A transition of the input between two samples.
#[derive(Clone, Copy, Debug, PartialEq, Eq, Structural)]
pub enum Edge {
    /// Newly active: the button was pressed.
    Rising,
    /// Newly inactive: the button was released.
    Falling,
    /// No change of level.
    Steady,
}

pub open spec fn edge_between(previous: bool, current: bool) -> Edge {
    if current && !previous {
        Edge::Rising
    } else if !current && previous {
        Edge::Falling
    } else {
        Edge::Steady
    }
}

/// Turns successive levels of one digital input into edges; it remembers
/// the level of the last sample.
pub struct EdgeDetector {
    previous_level: bool,
}

impl EdgeDetector {
    pub closed spec fn previous(&self) -> bool {
        self.previous_level
    }

    /// A detector whose last seen level is `initial_level`.
    pub fn new(initial_level: bool) -> (r: EdgeDetector)
        ensures
            r.previous() == initial_level,
    {
        EdgeDetector { previous_level: initial_level }
    }

    /// The level of the last sample.
    pub fn previous_level(&self) -> (r: bool)
        ensures
            r == self.previous(),
    {
        self.previous_level
    }

    /// Takes the input's current active level, reports the transition from
    /// the previous one, and remembers the new level.
    pub fn sample(&mut self, active: bool) -> (r: Edge)
        ensures
            r == edge_between(old(self).previous(), active),
            final(self).previous() == active,
    {
        let previous = self.previous_level;
        self.previous_level = active;
        if active && !previous {
            Edge::Rising
        } else if !active && previous {
            Edge::Falling
        } else {
            Edge::Steady
        }
    }
}

} // verus!
