//! The progress manager: which steps of a topic are completed, and the one
//! mutation that a progress record knows.

use crate::types::{Progress, ProgressView};
use vstd::prelude::*;

verus! {

/// Every element is smaller than the ones after it: the sequence is sorted
/// ascending and holds nothing twice.
pub open spec fn strictly_increasing(steps: Seq<usize>) -> bool {
    forall|i: int, j: int| 0 <= i < j < steps.len() ==> steps[i] < steps[j]
}

/// `steps` with `step` put in its place. Of a strictly increasing sequence
/// that holds `step` already this is the sequence itself.
pub open spec fn place(steps: Seq<usize>, step: usize) -> Seq<usize>
    decreases steps.len(),
{
    if steps.len() == 0 {
        seq![step]
    } else if steps.last() < step {
        steps.push(step)
    } else if steps.last() == step {
        steps
    } else {
        place(steps.drop_last(), step).push(steps.last())
    }
}

/// The elements of `steps` in ascending order, each of them once.
pub open spec fn ascending(steps: Seq<usize>) -> Seq<usize>
    decreases steps.len(),
{
    if steps.len() == 0 {
        steps
    } else {
        place(ascending(steps.drop_last()), steps.last())
    }
}

impl ProgressView {
    /// The record of a topic on which nothing was completed yet.
    pub open spec fn zero(topic_id: Seq<char>) -> ProgressView {
        ProgressView { topic_id, completed_steps: Seq::empty(), current_step: 0 }
    }

    /// The record after `step` was reported as completed: unchanged where
    /// the step is completed already; else the step joins the completed
    /// steps, which are put in ascending order, and the step after it
    /// becomes the current one.
    pub open spec fn record(self, step: usize) -> ProgressView {
        if self.completed_steps.contains(step) {
            self
        } else {
            ProgressView {
                topic_id: self.topic_id,
                completed_steps: ascending(self.completed_steps.push(step)),
                current_step: (step + 1) as usize,
            }
        }
    }

    /// The record that a report of `step` leaves. A step that is not
    /// completed and has no successor on this machine is refused and leaves
    /// the record as it is; any other step is recorded.
    pub open spec fn report(self, step: usize) -> ProgressView {
        if step == usize::MAX && !self.completed_steps.contains(step) {
            self
        } else {
            self.record(step)
        }
    }

    /// The record after each step of `steps` was reported in turn.
    pub open spec fn report_all(self, steps: Seq<usize>) -> ProgressView
        decreases steps.len(),
    {
        if steps.len() == 0 {
            self
        } else {
            self.report_all(steps.drop_last()).report(steps.last())
        }
    }

    /// The current step is the one after the greatest completed step, or the
    /// first step where nothing is completed.
    pub open spec fn current_follows_greatest(self) -> bool {
        &&& forall|i: int|
            0 <= i < self.completed_steps.len() ==> self.completed_steps[i] < self.current_step
        &&& self.completed_steps.len() > 0 ==> self.completed_steps.contains(
            (self.current_step - 1) as usize,
        )
        &&& self.completed_steps.len() == 0 ==> self.current_step == 0
    }

    /// What holds of a record that nothing but this module has written.
    pub open spec fn well_formed(self) -> bool {
        &&& strictly_increasing(self.completed_steps)
        &&& self.current_follows_greatest()
    }

    /// `step` is completed already, or comes after every completed step.
    pub open spec fn moves_forward(self, step: usize) -> bool {
        ||| self.completed_steps.contains(step)
        ||| forall|i: int| 0 <= i < self.completed_steps.len() ==> self.completed_steps[i] < step
    }

    /// Each step of `steps`, at the time it is reported, is completed
    /// already or comes after every step completed by then.
    pub open spec fn never_steps_back(self, steps: Seq<usize>) -> bool
        decreases steps.len(),
    {
        steps.len() > 0 ==> {
            &&& self.never_steps_back(steps.drop_last())
            &&& self.report_all(steps.drop_last()).moves_forward(steps.last())
        }
    }
}

/// Putting a step in its place keeps a strictly increasing sequence
/// strictly increasing, and adds the step to its elements and nothing else.
pub proof fn lemma_place(steps: Seq<usize>, step: usize)
    requires
        strictly_increasing(steps),
    ensures
        strictly_increasing(place(steps, step)),
        place(steps, step).to_set() == steps.to_set().insert(step),
    decreases steps.len(),
{
    let placed = place(steps, step);
    if steps.len() == 0 {
        assert(placed =~= steps.push(step));
        steps.lemma_push_to_set_commute(step);
    } else if steps.last() < step {
        steps.lemma_push_to_set_commute(step);
        assert forall|i: int, j: int| 0 <= i < j < placed.len() implies placed[i] < placed[j] by {
            if j == steps.len() {
                assert(steps[i] <= steps.last());
            }
        }
    } else if steps.last() == step {
        assert(steps.contains(steps[steps.len() - 1]));
        assert(steps.to_set().insert(step) =~= steps.to_set());
    } else {
        let front = steps.drop_last();
        let inner = place(front, step);
        lemma_place(front, step);
        assert(front.push(steps.last()) =~= steps);
        front.lemma_push_to_set_commute(steps.last());
        inner.lemma_push_to_set_commute(steps.last());
        assert(placed.to_set() =~= steps.to_set().insert(step));
        assert forall|i: int, j: int| 0 <= i < j < placed.len() implies placed[i] < placed[j] by {
            if j == inner.len() {
                assert(inner.contains(inner[i]));
                assert(front.to_set().insert(step).contains(inner[i]));
                if front.contains(inner[i]) {
                    let k = choose|k: int| 0 <= k < front.len() && front[k] == inner[i];
                    assert(steps[k] < steps[steps.len() - 1]);
                }
            }
        }
    }
}

/// `ascending` gives a strictly increasing sequence with the elements of
/// its argument and no others.
pub proof fn lemma_ascending(steps: Seq<usize>)
    ensures
        strictly_increasing(ascending(steps)),
        ascending(steps).to_set() == steps.to_set(),
    decreases steps.len(),
{
    if steps.len() > 0 {
        let front = steps.drop_last();
        lemma_ascending(front);
        lemma_place(ascending(front), steps.last());
        assert(front.push(steps.last()) =~= steps);
        front.lemma_push_to_set_commute(steps.last());
    }
}

/// A strictly increasing sequence is in ascending order already.
pub proof fn lemma_ascending_keeps_increasing(steps: Seq<usize>)
    requires
        strictly_increasing(steps),
    ensures
        ascending(steps) == steps,
    decreases steps.len(),
{
    if steps.len() > 0 {
        let front = steps.drop_last();
        lemma_ascending_keeps_increasing(front);
        if front.len() > 0 {
            assert(front.last() == steps[steps.len() - 2]);
        }
        assert(front.push(steps.last()) =~= steps);
    }
}

/// In a strictly increasing sequence, `step` belongs at index `i` where all
/// before `i` are smaller and all from `i` on are greater.
proof fn lemma_place_at(steps: Seq<usize>, step: usize, i: int)
    requires
        strictly_increasing(steps),
        0 <= i <= steps.len(),
        forall|j: int| i <= j < steps.len() ==> steps[j] > step,
        i > 0 ==> steps[i - 1] < step,
    ensures
        place(steps, step) == steps.insert(i, step),
    decreases steps.len(),
{
    if steps.len() == 0 {
        assert(seq![step] =~= steps.insert(i, step));
    } else if i == steps.len() {
        assert(steps.push(step) =~= steps.insert(i, step));
    } else {
        let front = steps.drop_last();
        lemma_place_at(front, step, i);
        assert(front.insert(i, step).push(steps.last()) =~= steps.insert(i, step));
    }
}

/// In a strictly increasing sequence that holds `step` at index `i - 1`,
/// with only greater elements behind it, `step` is in its place already.
proof fn lemma_place_present(steps: Seq<usize>, step: usize, i: int)
    requires
        strictly_increasing(steps),
        0 < i <= steps.len(),
        steps[i - 1] == step,
        forall|j: int| i <= j < steps.len() ==> steps[j] > step,
    ensures
        place(steps, step) == steps,
    decreases steps.len(),
{
    if i < steps.len() {
        let front = steps.drop_last();
        lemma_place_present(front, step, i);
        assert(front.push(steps.last()) =~= steps);
    }
}

/// Reporting a step twice leaves the record as reporting it once does:
/// the second report changes nothing.
pub proof fn lemma_record_is_idempotent(progress: ProgressView, step: usize)
    ensures
        progress.record(step).completed_steps.contains(step),
        progress.record(step).record(step) == progress.record(step),
        progress.report(step).report(step) == progress.report(step),
{
    if !progress.completed_steps.contains(step) {
        let pushed = progress.completed_steps.push(step);
        lemma_ascending(pushed);
        assert(pushed.contains(pushed[pushed.len() - 1]));
        assert(ascending(pushed).to_set().contains(step));
    }
}

/// A step that is reported joins the completed steps, and no step leaves
/// them.
pub proof fn lemma_record_adds_the_step(progress: ProgressView, step: usize)
    ensures
        progress.record(step).completed_steps.to_set() == progress.completed_steps.to_set().insert(
            step,
        ),
{
    if progress.completed_steps.contains(step) {
        assert(progress.completed_steps.to_set().insert(step)
            =~= progress.completed_steps.to_set());
    } else {
        lemma_ascending(progress.completed_steps.push(step));
        progress.completed_steps.lemma_push_to_set_commute(step);
    }
}

/// Putting a step in its place in a strictly increasing sequence that
/// does not hold it makes the sequence one longer.
proof fn lemma_place_adds_one(steps: Seq<usize>, step: usize)
    requires
        strictly_increasing(steps),
        !steps.contains(step),
    ensures
        place(steps, step).len() == steps.len() + 1,
    decreases steps.len(),
{
    if steps.len() > 0 {
        assert(steps.contains(steps[steps.len() - 1]));
        if steps.last() > step {
            let front = steps.drop_last();
            assert forall|v: usize| front.contains(v) implies steps.contains(v) by {
                let k = choose|k: int| 0 <= k < front.len() && front[k] == v;
                assert(steps[k] == v);
            }
            lemma_place_adds_one(front, step);
        }
    }
}

/// A step that is not completed makes sorted completed steps one longer
/// when it is reported.
pub proof fn lemma_record_adds_one(progress: ProgressView, step: usize)
    requires
        strictly_increasing(progress.completed_steps),
        !progress.completed_steps.contains(step),
    ensures
        progress.record(step).completed_steps.len() == progress.completed_steps.len() + 1,
{
    let pushed = progress.completed_steps.push(step);
    assert(pushed.drop_last() =~= progress.completed_steps);
    lemma_ascending_keeps_increasing(progress.completed_steps);
    lemma_place_adds_one(progress.completed_steps, step);
}

/// Reporting a step keeps the completed steps sorted and free of
/// duplicates.
pub proof fn lemma_record_keeps_sorted(progress: ProgressView, step: usize)
    requires
        strictly_increasing(progress.completed_steps),
    ensures
        strictly_increasing(progress.record(step).completed_steps),
{
    lemma_ascending(progress.completed_steps.push(step));
}

/// Whatever steps are reported to a fresh record, in whatever order and
/// however often, its completed steps are sorted and free of duplicates.
pub proof fn lemma_completed_steps_stay_sorted(topic_id: Seq<char>, steps: Seq<usize>)
    ensures
        strictly_increasing(ProgressView::zero(topic_id).report_all(steps).completed_steps),
    decreases steps.len(),
{
    if steps.len() > 0 {
        lemma_completed_steps_stay_sorted(topic_id, steps.drop_last());
        lemma_record_keeps_sorted(
            ProgressView::zero(topic_id).report_all(steps.drop_last()),
            steps.last(),
        );
    }
}

/// A well-formed record stays well-formed when the step reported is
/// completed already or comes after every completed step.
pub proof fn lemma_record_keeps_well_formed(progress: ProgressView, step: usize)
    requires
        progress.well_formed(),
        progress.moves_forward(step),
        step < usize::MAX || progress.completed_steps.contains(step),
    ensures
        progress.record(step).well_formed(),
{
    if !progress.completed_steps.contains(step) {
        let pushed = progress.completed_steps.push(step);
        assert(strictly_increasing(pushed));
        lemma_ascending_keeps_increasing(pushed);
        assert(pushed[pushed.len() - 1] == step);
    }
}

/// Where no report ever steps back behind a completed step, the current
/// step of a record that started fresh is the one after the greatest
/// completed step, or the first step while nothing is completed.
pub proof fn lemma_current_step_follows_greatest(topic_id: Seq<char>, steps: Seq<usize>)
    requires
        ProgressView::zero(topic_id).never_steps_back(steps),
    ensures
        ProgressView::zero(topic_id).report_all(steps).well_formed(),
    decreases steps.len(),
{
    if steps.len() > 0 {
        lemma_current_step_follows_greatest(topic_id, steps.drop_last());
        let before = ProgressView::zero(topic_id).report_all(steps.drop_last());
        if steps.last() < usize::MAX || before.completed_steps.contains(steps.last()) {
            lemma_record_keeps_well_formed(before, steps.last());
        }
    }
}

/// Whether `step` occurs in `steps`.
fn contains_step(steps: &Vec<usize>, step: usize) -> (found: bool)
    ensures
        found == steps@.contains(step),
{
    let mut i: usize = 0;
    while i < steps.len()
        invariant
            i <= steps.len(),
            forall|k: int| 0 <= k < i ==> steps@[k] != step,
        decreases steps.len() - i,
    {
        if steps[i] == step {
            return true;
        }
        i = i + 1;
    }
    false
}

/// Puts `step` in its place in a strictly increasing vector.
fn place_step(steps: &mut Vec<usize>, step: usize)
    requires
        strictly_increasing(old(steps)@),
    ensures
        final(steps)@ == place(old(steps)@, step),
        strictly_increasing(final(steps)@),
{
    let mut i: usize = steps.len();
    while i > 0 && steps[i - 1] > step
        invariant
            i <= steps.len(),
            steps@ == old(steps)@,
            forall|j: int| i <= j < steps.len() ==> steps@[j] > step,
        decreases i,
    {
        i = i - 1;
    }
    proof {
        lemma_place(steps@, step);
    }
    if i > 0 && steps[i - 1] == step {
        proof {
            lemma_place_present(steps@, step, i as int);
        }
    } else {
        proof {
            lemma_place_at(steps@, step, i as int);
        }
        steps.insert(i, step);
    }
}

/// The elements of `steps` in ascending order, each of them once.
fn ascending_steps(steps: &Vec<usize>) -> (sorted: Vec<usize>)
    ensures
        sorted@ == ascending(steps@),
{
    let mut sorted: Vec<usize> = Vec::new();
    let mut i: usize = 0;
    while i < steps.len()
        invariant
            i <= steps.len(),
            sorted@ == ascending(steps@.take(i as int)),
            strictly_increasing(sorted@),
        decreases steps.len() - i,
    {
        assert(steps@.take(i + 1).drop_last() =~= steps@.take(i as int));
        place_step(&mut sorted, steps[i]);
        i = i + 1;
    }
    assert(steps@.take(i as int) =~= steps@);
    sorted
}

impl Progress {
    /// The record of a topic on which nothing was completed yet.
    pub fn new(topic_id: &str) -> (progress: Progress)
        ensures
            progress@ == ProgressView::zero(topic_id@),
    {
        Progress { topic_id: topic_id.to_owned(), completed_steps: Vec::new(), current_step: 0 }
    }

    /// Whether `step_index` is among the completed steps.
    pub fn has_completed(&self, step_index: usize) -> (completed: bool)
        ensures
            completed == self@.completed_steps.contains(step_index),
    {
        contains_step(&self.completed_steps, step_index)
    }

    /// Reports `step_index` as completed and says whether the record
    /// changed. A step that is completed already changes nothing. Any other
    /// step joins the completed steps, which are then sorted ascending with
    /// each step once, and the step after it becomes the current one.
    /// A step that is not completed must have a successor on this machine.
    pub fn record_completed_step(&mut self, step_index: usize) -> (changed: bool)
        requires
            step_index < usize::MAX || old(self)@.completed_steps.contains(step_index),
        ensures
            final(self)@ == old(self)@.record(step_index),
            changed == !old(self)@.completed_steps.contains(step_index),
    {
        if contains_step(&self.completed_steps, step_index) {
            return false;
        }
        self.completed_steps.push(step_index);
        let sorted = ascending_steps(&self.completed_steps);
        self.completed_steps = sorted;
        self.current_step = step_index + 1;
        true
    }
}

} // verus!
