//! The mathematical model of a scan: the state of a predictor over unbounded
//! integers, and the two transitions that change it.

use vstd::prelude::*;

verus! {

/// How far the window is translated by one shift.
pub const SHIFT: u64 = 1000;

/// Distance between two neighbouring candidates.
pub const STRIDE: u64 = 2;

/// Travel direction of a scan, fixed when the predictor is built.
#[derive(PartialEq, Eq, Clone, Copy, Debug, Structural)]
pub enum Direction {
    Forwards,
    Backwards,
}

/// The direction in which a scan from `start_id` towards `end_condition` travels.
pub open spec fn direction_of(start_id: int, end_condition: int) -> Direction {
    if start_id > end_condition {
        Direction::Backwards
    } else {
        Direction::Forwards
    }
}

/// The state of a scan, as plain mathematical values.
pub struct ScanState {
    /// Reach of a fresh window below its centre.
    pub backwards: nat,
    /// Reach of a fresh window above its centre.
    pub forwards: nat,
    pub direction: Direction,
    /// The value that is considered next.
    pub current_id: int,
    pub window_start: int,
    pub window_end: int,
    pub start_id: int,
    pub end_condition: int,
    /// Set by the first request that found the boundary crossed; never cleared.
    pub exhausted: bool,
}

/// What one request for a candidate does: the state it leaves and the
/// candidate it hands out, if any.
pub struct Issue {
    pub state: ScanState,
    pub id: Option<int>,
}

/// One call on a predictor: a request for a candidate, or the report of a hit.
pub enum Call {
    Next,
    Hit(int),
}

impl ScanState {
    /// The state of a scan that has just been set up.
    pub open spec fn initial(
        start_id: int,
        end_condition: int,
        backwards: nat,
        forwards: nat,
    ) -> ScanState {
        ScanState {
            backwards,
            forwards,
            direction: direction_of(start_id, end_condition),
            current_id: start_id,
            window_start: start_id - backwards,
            window_end: start_id + forwards,
            start_id,
            end_condition,
            exhausted: false,
        }
    }

    /// Width of the window.
    pub open spec fn width(self) -> nat {
        self.backwards + self.forwards
    }

    /// The invariant of every state that a predictor can be in.
    ///
    /// The window has its configured width and the position stays within one
    /// stride of it; a position that has left the window was reached by
    /// handing out a candidate that did not cross the boundary.
    pub open spec fn wf(self) -> bool {
        &&& self.direction == direction_of(self.start_id, self.end_condition)
        &&& self.window_end - self.window_start == self.width()
        &&& match self.direction {
            Direction::Forwards => {
                &&& self.window_start <= self.current_id <= self.window_end + STRIDE
                &&& self.current_id > self.window_end ==> self.current_id - STRIDE
                    <= self.end_condition
            },
            Direction::Backwards => {
                &&& self.window_start - STRIDE <= self.current_id <= self.window_end
                &&& self.current_id < self.window_start ==> self.current_id + STRIDE
                    >= self.end_condition
            },
        }
    }

    /// The position has left the window on the side that the scan travels to.
    pub open spec fn beyond_window(self) -> bool {
        match self.direction {
            Direction::Forwards => self.current_id > self.window_end,
            Direction::Backwards => self.current_id < self.window_start,
        }
    }

    /// `id` lies past the boundary in the travel direction.
    pub open spec fn crosses(self, id: int) -> bool {
        match self.direction {
            Direction::Forwards => id > self.end_condition,
            Direction::Backwards => id < self.end_condition,
        }
    }

    /// The window translated by one shift in the travel direction, with the
    /// position on the edge that the translation has newly exposed.
    pub open spec fn shifted(self) -> ScanState {
        match self.direction {
            Direction::Forwards => ScanState {
                window_start: self.window_start + SHIFT,
                window_end: self.window_end + SHIFT,
                current_id: self.window_start + SHIFT,
                ..self
            },
            Direction::Backwards => ScanState {
                window_start: self.window_start - SHIFT,
                window_end: self.window_end - SHIFT,
                current_id: self.window_end - SHIFT,
                ..self
            },
        }
    }

    /// The state with its position inside the window: shifted if the position
    /// had left the window, unchanged otherwise.
    pub open spec fn settled(self) -> ScanState {
        if self.beyond_window() {
            self.shifted()
        } else {
            self
        }
    }

    /// One stride from `id` in the travel direction.
    pub open spec fn stride_from(self, id: int) -> int {
        match self.direction {
            Direction::Forwards => id + STRIDE,
            Direction::Backwards => id - STRIDE,
        }
    }

    /// One request for a candidate.
    ///
    /// An exhausted scan stays as it is and hands out nothing. Otherwise the
    /// position is brought into the window; if it then lies past the
    /// boundary the scan becomes exhausted, else it is handed out and the
    /// position moves one stride on.
    pub open spec fn next(self) -> Issue {
        if self.exhausted {
            Issue { state: self, id: None }
        } else {
            let s = self.settled();
            if s.crosses(s.current_id) {
                Issue { state: ScanState { exhausted: true, ..s }, id: None }
            } else {
                Issue {
                    state: ScanState { current_id: s.stride_from(s.current_id), ..s },
                    id: Some(s.current_id),
                }
            }
        }
    }

    /// The state after `n` requests for a candidate.
    pub open spec fn after(self, n: nat) -> ScanState
        decreases n,
    {
        if n == 0 {
            self
        } else {
            self.after((n - 1) as nat).next().state
        }
    }

    /// `id` lies no further than one shift outside the window.
    pub open spec fn in_tolerance(self, id: int) -> bool {
        self.window_start - SHIFT <= id <= self.window_end + SHIFT
    }

    /// The window centred on `id`, position and everything else untouched.
    pub open spec fn centred_on(self, id: int) -> ScanState {
        ScanState { window_start: id - self.backwards, window_end: id + self.forwards, ..self }
    }

    /// The report of a hit at `id`: within tolerance the window is centred on
    /// `id` and shifted once; outside it nothing changes.
    pub open spec fn hit(self, id: int) -> ScanState {
        if self.in_tolerance(id) {
            self.centred_on(id).shifted()
        } else {
            self
        }
    }

    /// The position has passed the boundary.
    pub open spec fn passed(self) -> bool {
        self.crosses(self.current_id)
    }

    /// Distance between start and boundary.
    pub open spec fn span(self) -> int {
        match self.direction {
            Direction::Forwards => self.end_condition - self.start_id,
            Direction::Backwards => self.start_id - self.end_condition,
        }
    }

    /// Distance that the position has travelled from the start towards the
    /// boundary, kept between nothing and the whole span.
    pub open spec fn travelled(self) -> int {
        let raw = match self.direction {
            Direction::Forwards => self.current_id - self.start_id,
            Direction::Backwards => self.start_id - self.current_id,
        };
        if self.passed() {
            self.span()
        } else if raw < 0 {
            0
        } else {
            raw
        }
    }

    /// Position and the edge that a shift exposes are both odd, so that every
    /// candidate to come is odd.
    pub open spec fn aligned(self) -> bool {
        &&& self.current_id % 2 == 1
        &&& match self.direction {
            Direction::Forwards => self.window_start % 2 == 1,
            Direction::Backwards => self.window_end % 2 == 1,
        }
    }

    /// The state after `calls`, made in order.
    pub open spec fn run(self, calls: Seq<Call>) -> ScanState
        decreases calls.len(),
    {
        if calls.len() == 0 {
            self
        } else {
            let before = self.run(calls.drop_last());
            match calls.last() {
                Call::Next => before.next().state,
                Call::Hit(id) => before.hit(id),
            }
        }
    }

    /// Distance from the near edge of the window to one shift past the
    /// boundary, or nothing if the window lies further out.
    pub open spec fn room_for_shifts(self) -> nat {
        let room = match self.direction {
            Direction::Forwards => self.end_condition + SHIFT + 1 - self.window_start,
            Direction::Backwards => self.window_end + SHIFT + 1 - self.end_condition,
        };
        if room > 0 {
            room as nat
        } else {
            0
        }
    }

    /// Distance from the position to one stride past the far edge of the window.
    pub open spec fn room_in_window(self) -> nat {
        let room = match self.direction {
            Direction::Forwards => self.window_end + STRIDE - self.current_id,
            Direction::Backwards => self.current_id - (self.window_start - STRIDE),
        };
        if room > 0 {
            room as nat
        } else {
            0
        }
    }

    /// A number that no scan can hand out more candidates than, for
    /// windows of any width: every candidate uses up room in the window,
    /// and every shift uses up room before the boundary.
    pub open spec fn candidate_budget(self) -> nat {
        (self.width() + 3) * self.room_for_shifts() + self.room_in_window()
    }
}

} // verus!
