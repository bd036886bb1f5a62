//! The windowed candidate generator.

use crate::model::{direction_of, Direction, ScanState, SHIFT, STRIDE};
use vstd::prelude::*;

verus! {

/// How far a fresh window reaches on each side of its centre.
#[derive(Clone, Copy, Debug, PartialEq, Eq, Structural)]
pub struct Window {
    pub backwards: u64,
    pub forwards: u64,
}

/// Why a predictor could not be built.
#[derive(Clone, Copy, Debug, PartialEq, Eq, Structural)]
pub enum ConstructionError {
    /// The starting identifier is even; valid identifiers are odd.
    EvenStartId,
    /// The first window, or one shift past the boundary, leaves the range of `u64`.
    OutOfRange,
}

/// A hit that lies further than one shift outside the window. It is not applied.
#[derive(Clone, Copy, Debug, PartialEq, Eq, Structural)]
pub struct AnomalousHit {
    pub id: u64,
    pub window_start: u64,
    pub window_end: u64,
}

/// How far a scan has come: `travelled` out of `span`, and whether the
/// position has passed the boundary.
#[derive(Clone, Copy, Debug, PartialEq, Eq, Structural)]
pub struct Progress {
    pub travelled: u64,
    pub span: u64,
    pub complete: bool,
}

/// The first window around `base_id` fits into `u64`, and so does a window
/// that is shifted once after its last candidate reached the boundary.
pub open spec fn scan_in_range(base_id: u64, end_condition: u64, window: Window) -> bool {
    &&& window.backwards <= base_id
    &&& base_id + window.forwards <= u64::MAX
    &&& boundary_clear(direction_of(base_id as int, end_condition as int), end_condition as int)
}

/// The boundary keeps one shift and one step of distance from the end of
/// `u64` that the scan travels to.
pub open spec fn boundary_clear(direction: Direction, end_condition: int) -> bool {
    match direction {
        Direction::Forwards => end_condition + SHIFT + 1 <= u64::MAX,
        Direction::Backwards => end_condition >= SHIFT + 1,
    }
}

/// Both edges of the window, shifted once, stay within `u64`.
pub open spec fn shift_fits(s: ScanState) -> bool {
    match s.direction {
        Direction::Forwards => s.window_start + SHIFT <= u64::MAX && s.window_end + SHIFT
            <= u64::MAX,
        Direction::Backwards => s.window_start >= SHIFT && s.window_end >= SHIFT,
    }
}

/// The window centred on `id`, and that window shifted once, stay within `u64`.
pub open spec fn recentring_fits(s: ScanState, id: int) -> bool {
    &&& id - s.backwards >= 0
    &&& id + s.forwards <= u64::MAX
    &&& shift_fits(s.centred_on(id))
}

/// Generates candidates outward from a known identifier towards a boundary,
/// one window at a time, and moves the window to wherever a hit is reported.
pub struct IdPredictor {
    window: Window,
    direction: Direction,
    current_id: u64,
    window_start: u64,
    window_end: u64,
    start_id: u64,
    end_condition: u64,
    exhausted: bool,
}

impl View for IdPredictor {
    type V = ScanState;

    closed spec fn view(&self) -> ScanState {
        ScanState {
            backwards: self.window.backwards as nat,
            forwards: self.window.forwards as nat,
            direction: self.direction,
            current_id: self.current_id as int,
            window_start: self.window_start as int,
            window_end: self.window_end as int,
            start_id: self.start_id as int,
            end_condition: self.end_condition as int,
            exhausted: self.exhausted,
        }
    }
}

impl IdPredictor {
    /// The invariant of a predictor: that of its state, and a boundary
    /// that leaves room for the last shift.
    pub open spec fn wf(&self) -> bool {
        &&& self@.wf()
        &&& boundary_clear(self@.direction, self@.end_condition)
    }

    /// A predictor that starts at `base_id` and travels towards `end_condition`.
    pub fn new(base_id: u64, end_condition: u64, window: Window) -> (p: Self)
        requires
            base_id % 2 == 1,
            scan_in_range(base_id, end_condition, window),
        ensures
            p.wf(),
            p@ == ScanState::initial(
                base_id as int,
                end_condition as int,
                window.backwards as nat,
                window.forwards as nat,
            ),
            base_id <= end_condition ==> p@.direction == Direction::Forwards,
            base_id > end_condition ==> p@.direction == Direction::Backwards,
    {
        let start_id = base_id;
        let window_start = base_id - window.backwards;
        let window_end = base_id + window.forwards;
        let direction = if base_id > end_condition {
            Direction::Backwards
        } else {
            Direction::Forwards
        };
        IdPredictor {
            window,
            direction,
            current_id: start_id,
            window_start,
            window_end,
            start_id,
            end_condition,
            exhausted: false,
        }
    }

    /// Builds a predictor like [`IdPredictor::new`], or says why none can be built.
    pub fn try_new(
        base_id: u64,
        end_condition: u64,
        window: Window,
    ) -> (built: Result<Self, ConstructionError>)
        ensures
            built is Ok <==> base_id % 2 == 1 && scan_in_range(base_id, end_condition, window),
            built matches Ok(p) ==> p.wf() && p@ == ScanState::initial(
                base_id as int,
                end_condition as int,
                window.backwards as nat,
                window.forwards as nat,
            ),
            built matches Err(e) ==> (e == ConstructionError::EvenStartId <==> base_id % 2 != 1),
    {
        if base_id % 2 != 1 {
            return Err(ConstructionError::EvenStartId);
        }
        if window.backwards > base_id || window.forwards > u64::MAX - base_id {
            return Err(ConstructionError::OutOfRange);
        }
        let clear = if base_id > end_condition {
            end_condition >= SHIFT + 1
        } else {
            end_condition <= u64::MAX - SHIFT - 1
        };
        if !clear {
            return Err(ConstructionError::OutOfRange);
        }
        Ok(IdPredictor::new(base_id, end_condition, window))
    }

    /// Translates the window by one shift in the travel direction and puts
    /// the position on the edge that has come into view.
    fn shift_window(&mut self)
        requires
            shift_fits(old(self)@),
        ensures
            final(self)@ == old(self)@.shifted(),
    {
        match self.direction {
            Direction::Backwards => {
                self.window_start -= SHIFT;
                self.window_end -= SHIFT;
                self.current_id = self.window_end;
            },
            Direction::Forwards => {
                self.window_start += SHIFT;
                self.window_end += SHIFT;
                self.current_id = self.window_start;
            },
        }
    }

    /// Hands out the next candidate, or nothing once the boundary is crossed.
    ///
    /// A position that has left the window makes the window shift first. The
    /// edge that the shift exposes lies inside the shifted window, so one
    /// shift always suffices.
    pub fn next_id(&mut self) -> (candidate: Option<u64>)
        requires
            old(self).wf(),
        ensures
            final(self).wf(),
            final(self)@ == old(self)@.next().state,
            match candidate {
                Some(id) => old(self)@.next().id == Some(id as int),
                None => old(self)@.next().id is None,
            },
            candidate matches Some(id) ==> !old(self)@.crosses(id as int),
            candidate matches Some(id) ==> final(self)@.window_start <= id
                <= final(self)@.window_end,
            candidate is None ==> final(self)@.exhausted,
            old(self)@.exhausted ==> candidate is None && final(self)@ == old(self)@,
            old(self)@.aligned() ==> final(self)@.aligned() && (candidate matches Some(id) ==> id
                % 2 == 1),
    {
        if self.exhausted {
            return None;
        }
        match self.direction {
            Direction::Backwards => {
                if self.current_id < self.window_start {
                    self.shift_window();
                }
                let next_id = self.current_id;
                if next_id < self.end_condition {
                    self.exhausted = true;
                    return None;
                }
                self.current_id = next_id - STRIDE;
                Some(next_id)
            },
            Direction::Forwards => {
                if self.current_id > self.window_end {
                    self.shift_window();
                }
                let next_id = self.current_id;
                if next_id > self.end_condition {
                    self.exhausted = true;
                    return None;
                }
                self.current_id = next_id + STRIDE;
                Some(next_id)
            },
        }
    }

    /// Whether a hit at `id` may be reported: it is either out of tolerance,
    /// and then ignored, or the window that it asks for fits into `u64`.
    pub fn can_report(&self, id: u64) -> (fits: bool)
        ensures
            fits == (self@.in_tolerance(id as int) ==> recentring_fits(self@, id as int)),
    {
        if self.out_of_tolerance(id) {
            return true;
        }
        if id < self.window.backwards || self.window.forwards > u64::MAX - id {
            return false;
        }
        match self.direction {
            Direction::Forwards => id + self.window.forwards <= u64::MAX - SHIFT,
            Direction::Backwards => id - self.window.backwards >= SHIFT,
        }
    }

    /// Whether `id` lies further than one shift outside the window.
    fn out_of_tolerance(&self, id: u64) -> (out: bool)
        ensures
            out == !self@.in_tolerance(id as int),
    {
        let below = self.window_start >= SHIFT && self.window_start - SHIFT > id;
        let above = id >= SHIFT && id - SHIFT > self.window_end;
        below || above
    }

    /// Reports that `id` was confirmed valid.
    ///
    /// A hit within one shift of the window centres the window on it and
    /// shifts it once, so that the scan goes on ahead of the hit. Any other
    /// hit changes nothing and comes back as an error to be logged.
    pub fn id_hit(&mut self, id: u64) -> (outcome: Result<(), AnomalousHit>)
        requires
            old(self).wf(),
            old(self)@.in_tolerance(id as int) ==> recentring_fits(old(self)@, id as int),
        ensures
            final(self).wf(),
            final(self)@ == old(self)@.hit(id as int),
            outcome is Ok <==> old(self)@.in_tolerance(id as int),
            outcome matches Err(e) ==> e.id == id && e.window_start == old(self)@.window_start
                && e.window_end == old(self)@.window_end,
            old(self)@.in_tolerance(id as int) ==> final(self)@.window_end
                - final(self)@.window_start == old(self)@.width(),
            !old(self)@.in_tolerance(id as int) ==> final(self)@ == old(self)@,
            final(self)@.exhausted == old(self)@.exhausted,
    {
        if self.out_of_tolerance(id) {
            return Err(
                AnomalousHit { id, window_start: self.window_start, window_end: self.window_end },
            );
        }
        self.window_start = id - self.window.backwards;
        self.window_end = id + self.window.forwards;
        self.shift_window();
        Ok(())
    }

    /// How far the position has travelled from the start towards the boundary.
    ///
    /// The fraction `travelled / span` lies between nothing and the whole;
    /// once the position has passed the boundary it is the whole.
    pub fn progress(&self) -> (p: Progress)
        requires
            self.wf(),
        ensures
            p.span == self@.span(),
            p.travelled == self@.travelled(),
            p.complete == self@.passed(),
            p.travelled <= p.span,
            p.complete ==> p.travelled == p.span,
    {
        match self.direction {
            Direction::Backwards => {
                let span = self.start_id - self.end_condition;
                if self.current_id < self.end_condition {
                    Progress { travelled: span, span, complete: true }
                } else if self.current_id > self.start_id {
                    Progress { travelled: 0, span, complete: false }
                } else {
                    Progress { travelled: self.start_id - self.current_id, span, complete: false }
                }
            },
            Direction::Forwards => {
                let span = self.end_condition - self.start_id;
                if self.current_id > self.end_condition {
                    Progress { travelled: span, span, complete: true }
                } else if self.current_id < self.start_id {
                    Progress { travelled: 0, span, complete: false }
                } else {
                    Progress { travelled: self.current_id - self.start_id, span, complete: false }
                }
            },
        }
    }

    /// The value that is considered next.
    pub fn current_id(&self) -> (id: u64)
        ensures
            id == self@.current_id,
    {
        self.current_id
    }

    /// The boundary of the scan.
    pub fn end_condition(&self) -> (id: u64)
        ensures
            id == self@.end_condition,
    {
        self.end_condition
    }

    /// The identifier that the scan started at.
    pub fn start_id(&self) -> (id: u64)
        ensures
            id == self@.start_id,
    {
        self.start_id
    }

    /// The travel direction.
    pub fn direction(&self) -> (d: Direction)
        ensures
            d == self@.direction,
    {
        self.direction
    }

    /// Lower edge of the window.
    pub fn window_start(&self) -> (id: u64)
        ensures
            id == self@.window_start,
    {
        self.window_start
    }

    /// Upper edge of the window.
    pub fn window_end(&self) -> (id: u64)
        ensures
            id == self@.window_end,
    {
        self.window_end
    }

    /// The reach of a fresh window.
    pub fn window(&self) -> (w: Window)
        ensures
            w.backwards == self@.backwards,
            w.forwards == self@.forwards,
    {
        self.window
    }

    /// Whether a request has found the boundary crossed.
    pub fn is_exhausted(&self) -> (b: bool)
        ensures
            b == self@.exhausted,
    {
        self.exhausted
    }

}

} // verus!
