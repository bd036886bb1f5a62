//! What holds of every scan, proved over the model.

use crate::model::{Call, Direction, ScanState, SHIFT, STRIDE};
use vstd::prelude::*;

verus! {

/// A scan whose start does not lie above its boundary travels forwards, any
/// other scan backwards; a fresh scan satisfies the invariant.
pub proof fn lemma_initial_state(start_id: int, end_condition: int, backwards: nat, forwards: nat)
    ensures
        ScanState::initial(start_id, end_condition, backwards, forwards).wf(),
        !ScanState::initial(start_id, end_condition, backwards, forwards).exhausted,
        start_id <= end_condition ==> ScanState::initial(
            start_id,
            end_condition,
            backwards,
            forwards,
        ).direction == Direction::Forwards,
        start_id > end_condition ==> ScanState::initial(
            start_id,
            end_condition,
            backwards,
            forwards,
        ).direction == Direction::Backwards,
{
}

/// A request for a candidate keeps the invariant and leaves configuration,
/// start, boundary and direction alone.
pub proof fn lemma_next_keeps_invariant(s: ScanState)
    requires
        s.wf(),
    ensures
        s.next().state.wf(),
        s.next().state.backwards == s.backwards,
        s.next().state.forwards == s.forwards,
        s.next().state.direction == s.direction,
        s.next().state.start_id == s.start_id,
        s.next().state.end_condition == s.end_condition,
{
}

/// The report of a hit keeps the invariant and leaves configuration, start,
/// boundary, direction and exhaustion alone.
pub proof fn lemma_hit_keeps_invariant(s: ScanState, id: int)
    requires
        s.wf(),
    ensures
        s.hit(id).wf(),
        s.hit(id).backwards == s.backwards,
        s.hit(id).forwards == s.forwards,
        s.hit(id).direction == s.direction,
        s.hit(id).start_id == s.start_id,
        s.hit(id).end_condition == s.end_condition,
        s.hit(id).exhausted == s.exhausted,
{
}

/// Any number of requests keeps the invariant and leaves configuration,
/// start, boundary and direction alone.
pub proof fn lemma_after_keeps_invariant(s: ScanState, n: nat)
    requires
        s.wf(),
    ensures
        s.after(n).wf(),
        s.after(n).backwards == s.backwards,
        s.after(n).forwards == s.forwards,
        s.after(n).direction == s.direction,
        s.after(n).start_id == s.start_id,
        s.after(n).end_condition == s.end_condition,
    decreases n,
{
    if n > 0 {
        lemma_after_keeps_invariant(s, (n - 1) as nat);
        lemma_next_keeps_invariant(s.after((n - 1) as nat));
    }
}

/// No candidate lies past the boundary: a forward scan hands out nothing
/// above it, a backward scan nothing below it.
pub proof fn lemma_candidates_stay_within_boundary(s: ScanState)
    ensures
        s.next().id matches Some(id) ==> {
            &&& !s.crosses(id)
            &&& s.direction == Direction::Forwards ==> id <= s.end_condition
            &&& s.direction == Direction::Backwards ==> id >= s.end_condition
        },
{
}

/// A candidate that is handed out moves the position one stride past it:
/// two up in a forward scan, two down in a backward scan.
pub proof fn lemma_position_follows_candidate(s: ScanState)
    ensures
        s.next().id matches Some(id) ==> {
            &&& s.direction == Direction::Forwards ==> s.next().state.current_id == id + 2
            &&& s.direction == Direction::Backwards ==> s.next().state.current_id == id - 2
        },
{
}

/// A request that hands out nothing leaves the scan exhausted, and an
/// exhausted scan answers every request with nothing and does not change.
pub proof fn lemma_nothing_means_exhausted(s: ScanState)
    ensures
        s.next().id is None ==> s.next().state.exhausted,
        s.exhausted ==> s.next().id is None && s.next().state == s,
{
}

/// Exhaustion is permanent: once a request has handed out nothing, every
/// later request hands out nothing, whatever requests and reports of hits
/// were made in between.
pub proof fn lemma_exhaustion_is_permanent(s: ScanState, calls: Seq<Call>)
    requires
        s.next().id is None,
    ensures
        s.next().state.run(calls).exhausted,
        s.next().state.run(calls).next().id is None,
    decreases calls.len(),
{
    if calls.len() > 0 {
        lemma_exhaustion_is_permanent(s, calls.drop_last());
    }
}

/// Without a hit in between, an exhausted scan never changes again.
pub proof fn lemma_exhausted_scan_is_fixed(s: ScanState, n: nat)
    requires
        s.exhausted,
    ensures
        s.after(n) == s,
    decreases n,
{
    if n > 0 {
        lemma_exhausted_scan_is_fixed(s, (n - 1) as nat);
    }
}

/// A fresh scan from an odd start is aligned if the window reaches an even
/// distance towards the side that shifts expose.
pub proof fn lemma_initial_alignment(
    start_id: int,
    end_condition: int,
    backwards: nat,
    forwards: nat,
)
    requires
        start_id % 2 == 1,
        start_id <= end_condition ==> backwards % 2 == 0,
        start_id > end_condition ==> forwards % 2 == 0,
    ensures
        ScanState::initial(start_id, end_condition, backwards, forwards).aligned(),
{
}

/// An aligned scan hands out odd candidates only, and stays aligned.
pub proof fn lemma_candidates_are_odd(s: ScanState)
    requires
        s.aligned(),
    ensures
        s.next().state.aligned(),
        s.next().id matches Some(id) ==> id % 2 == 1,
{
}

/// Every candidate of an aligned scan is odd, however many requests came before it.
pub proof fn lemma_all_candidates_are_odd(s: ScanState, n: nat)
    requires
        s.aligned(),
    ensures
        s.after(n).aligned(),
        s.after(n).next().id matches Some(id) ==> id % 2 == 1,
    decreases n,
{
    if n > 0 {
        lemma_all_candidates_are_odd(s, (n - 1) as nat);
        lemma_candidates_are_odd(s.after((n - 1) as nat));
    }
    lemma_candidates_are_odd(s.after(n));
}

/// The report of an odd hit keeps a scan aligned if the window reaches an
/// even distance towards the side that shifts expose.
pub proof fn lemma_hit_keeps_alignment(s: ScanState, id: int)
    requires
        s.aligned(),
        id % 2 == 1,
        s.direction == Direction::Forwards ==> s.backwards % 2 == 0,
        s.direction == Direction::Backwards ==> s.forwards % 2 == 0,
    ensures
        s.hit(id).aligned(),
{
}

/// A hit within one shift of the window puts the window around it, shifted
/// once in the travel direction, and the position on the edge that the shift
/// exposes; a hit further out changes nothing.
pub proof fn lemma_hit_moves_window(s: ScanState, id: int)
    ensures
        s.in_tolerance(id) && s.direction == Direction::Forwards ==> {
            &&& s.hit(id).window_start == id - s.backwards + SHIFT
            &&& s.hit(id).window_end == id + s.forwards + SHIFT
            &&& s.hit(id).current_id == s.hit(id).window_start
        },
        s.in_tolerance(id) && s.direction == Direction::Backwards ==> {
            &&& s.hit(id).window_start == id - s.backwards - SHIFT
            &&& s.hit(id).window_end == id + s.forwards - SHIFT
            &&& s.hit(id).current_id == s.hit(id).window_end
        },
        s.in_tolerance(id) ==> s.hit(id).window_end - s.hit(id).window_start == s.width(),
        !s.in_tolerance(id) ==> s.hit(id) == s,
{
}

/// The distance travelled never exceeds the span, and is the whole span
/// once the position has passed the boundary.
pub proof fn lemma_progress_is_a_fraction(s: ScanState)
    requires
        s.wf(),
    ensures
        0 <= s.travelled() <= s.span(),
        s.passed() ==> s.travelled() == s.span(),
{
}

/// With a window no wider than a shift, a request for a candidate never
/// takes progress back.
pub proof fn lemma_request_keeps_progress(s: ScanState)
    requires
        s.wf(),
        s.width() <= SHIFT,
    ensures
        s.next().state.travelled() >= s.travelled(),
        s.next().state.span() == s.span(),
{
}

/// With a window no wider than a shift, progress never decreases over
/// requests for candidates with no hit in between.
pub proof fn lemma_progress_is_monotone(s: ScanState, m: nat, n: nat)
    requires
        s.wf(),
        s.width() <= SHIFT,
        m <= n,
    ensures
        s.after(m).travelled() <= s.after(n).travelled(),
        s.after(m).span() == s.after(n).span(),
    decreases n,
{
    if m < n {
        lemma_progress_is_monotone(s, m, (n - 1) as nat);
        lemma_after_keeps_invariant(s, (n - 1) as nat);
        lemma_request_keeps_progress(s.after((n - 1) as nat));
    }
}

/// Every candidate lies inside the window as the request leaves it.
pub proof fn lemma_candidates_lie_in_window(s: ScanState)
    requires
        s.wf(),
    ensures
        s.next().id matches Some(id) ==> s.next().state.window_start <= id
            <= s.next().state.window_end,
{
}

/// Inside the window the scan is dense: where no shift comes between two
/// candidates, they are exactly one stride apart.
pub proof fn lemma_window_is_scanned_densely(s: ScanState)
    requires
        s.wf(),
        s.next().id is Some,
        !s.next().state.beyond_window(),
        s.next().state.next().id is Some,
    ensures
        s.next().state.next().id->0 == s.stride_from(s.next().id->0),
{
}

/// With a window narrower than a shift, a candidate lies further in the
/// travel direction than the one handed out just before it.
pub proof fn lemma_next_candidate_is_further(s: ScanState)
    requires
        s.wf(),
        s.width() < SHIFT,
        s.next().id is Some,
        s.next().state.next().id is Some,
    ensures
        s.direction == Direction::Forwards ==> s.next().id->0 < s.next().state.next().id->0,
        s.direction == Direction::Backwards ==> s.next().id->0 > s.next().state.next().id->0,
{
}

/// With a window narrower than a shift and no hit in between, candidates
/// come in strict order of the travel direction, so none is handed out twice.
pub proof fn lemma_candidates_are_ordered(s: ScanState, m: nat, n: nat)
    requires
        s.wf(),
        s.width() < SHIFT,
        m < n,
        s.after(m).next().id is Some,
        s.after(n).next().id is Some,
    ensures
        s.direction == Direction::Forwards ==> s.after(m).next().id->0 < s.after(n).next().id->0,
        s.direction == Direction::Backwards ==> s.after(m).next().id->0 > s.after(n).next().id->0,
    decreases n,
{
    let before = s.after((n - 1) as nat);
    lemma_after_keeps_invariant(s, (n - 1) as nat);
    lemma_nothing_means_exhausted(before);
    lemma_nothing_means_exhausted(s.after(n));
    lemma_next_candidate_is_further(before);
    if m + 1 < n {
        lemma_candidates_are_ordered(s, m, (n - 1) as nat);
    }
}

/// Every candidate that is handed out lowers the budget of the scan.
pub proof fn lemma_candidate_uses_budget(s: ScanState)
    requires
        s.wf(),
        s.next().id is Some,
    ensures
        s.next().state.candidate_budget() < s.candidate_budget(),
{
    let t = s.next().state;
    let factor = s.width() + 3;
    if s.beyond_window() {
        assert(s.room_for_shifts() == t.room_for_shifts() + SHIFT);
        assert(factor * s.room_for_shifts() == factor * t.room_for_shifts() + factor * SHIFT)
            by (nonlinear_arith)
            requires
                s.room_for_shifts() == t.room_for_shifts() + SHIFT,
        ;
        assert(t.room_in_window() == s.width());
    } else {
        assert(s.room_for_shifts() == t.room_for_shifts());
        assert(t.room_in_window() + STRIDE == s.room_in_window());
    }
}

/// A scan that is not exhausted after `n` requests has handed out `n`
/// candidates, and its budget has shrunk by as much at least.
pub proof fn lemma_budget_after(s: ScanState, n: nat)
    requires
        s.wf(),
        !s.after(n).exhausted,
    ensures
        s.after(n).candidate_budget() + n <= s.candidate_budget(),
    decreases n,
{
    if n > 0 {
        let before = s.after((n - 1) as nat);
        lemma_after_keeps_invariant(s, (n - 1) as nat);
        lemma_nothing_means_exhausted(before);
        lemma_budget_after(s, (n - 1) as nat);
        lemma_candidate_uses_budget(before);
    }
}

/// Every scan ends: with no hit in between, a scan of any window width
/// is exhausted once more requests were made than its budget holds.
pub proof fn lemma_scan_ends(s: ScanState, n: nat)
    requires
        s.wf(),
        n > s.candidate_budget(),
    ensures
        s.after(n).exhausted,
        s.after(n).next().id is None,
{
    if !s.after(n).exhausted {
        lemma_budget_after(s, n);
    }
}

} // verus!
