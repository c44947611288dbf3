//! From the samples of a discrete signal to the edges of its segments.
use vstd::prelude::*;
use vstd::std_specs::cmp::PartialEqSpec;
use crate::plottable::EnumPlottable;
use crate::plottable::LabelView;

verus! {

/// The x of the edge that opens a row: below every sample.
pub const MIN_SENTINEL: i64 = i64::MIN;

/// The x of the edge that closes a row: above every sample.
pub const MAX_SENTINEL: i64 = i64::MAX;

/// An edge as contracts see it: where a segment starts, and its label.
pub type EdgeView = (i64, LabelView);

/// The edges of a row as contracts see them, from left to right.
pub type EdgesView = Seq<EdgeView>;

/// The edges of a row as contracts see them.
pub open spec fn edge_views(edges: Seq<(i64, String)>) -> Seq<EdgeView> {
    Seq::new(edges.len(), |i: int| (edges[i].0, edges[i].1@))
}

/// Whether the value changes between sample `i` and the next one.
pub open spec fn changes<T: EnumPlottable>(samples: Seq<(i64, T)>, i: int) -> bool {
    !samples[i].1.eq_spec(&samples[i + 1].1)
}

/// The number of places where the value changes from one sample to the next.
pub open spec fn transition_count<T: EnumPlottable>(samples: Seq<(i64, T)>) -> nat
    decreases samples.len(),
{
    if samples.len() < 2 {
        0
    } else if changes(samples, samples.len() - 2) {
        transition_count(samples.drop_last()) + 1
    } else {
        transition_count(samples.drop_last())
    }
}

/// One edge for each change of value, in the order of the samples: it lies
/// at the x of the last sample that holds the old value and carries the
/// label of the new one.
pub open spec fn transitions<T: EnumPlottable>(samples: Seq<(i64, T)>) -> Seq<EdgeView>
    decreases samples.len(),
{
    if samples.len() < 2 {
        Seq::empty()
    } else {
        let n = samples.len() as int;
        let before = transitions(samples.drop_last());
        if changes(samples, n - 2) {
            before.push((samples[n - 2].0, samples[n - 1].1.label()))
        } else {
            before
        }
    }
}

/// The edges of a row: the opening sentinel with the first value's label,
/// the transitions, and the closing sentinel with the last value's label.
pub open spec fn edges_of<T: EnumPlottable>(samples: Seq<(i64, T)>) -> Seq<EdgeView> {
    seq![(MIN_SENTINEL, samples.first().1.label())] + transitions(samples) + seq![
        (MAX_SENTINEL, samples.last().1.label()),
    ]
}

/// There is one edge for each change of value.
pub proof fn lemma_transitions_len<T: EnumPlottable>(samples: Seq<(i64, T)>)
    ensures
        transitions(samples).len() == transition_count(samples),
    decreases samples.len(),
{
    if samples.len() >= 2 {
        lemma_transitions_len(samples.drop_last());
    }
}

/// A signal whose value changes `k` times has `k + 2` edges: the two
/// sentinels and one edge for each change. No segment is dropped, however
/// short it is.
pub proof fn lemma_edge_count<T: EnumPlottable>(samples: Seq<(i64, T)>)
    requires
        samples.len() > 0,
    ensures
        edges_of(samples).len() == transition_count(samples) + 2,
{
    lemma_transitions_len(samples);
}

/// The first edge lies at or below every x and the last edge at or above
/// it, so every sample falls between the two sentinels.
pub proof fn lemma_sentinels_enclose<T: EnumPlottable>(samples: Seq<(i64, T)>, x: i64)
    requires
        samples.len() > 0,
    ensures
        edges_of(samples).first().0 <= x <= edges_of(samples).last().0,
        edges_of(samples).first() == (MIN_SENTINEL, samples.first().1.label()),
        edges_of(samples).last() == (MAX_SENTINEL, samples.last().1.label()),
{
}

/// Every edge between the sentinels marks a change of value: it lies at the
/// x of a sample after which the value changes, and carries the label of the
/// value that follows. The edges keep the order of the samples.
pub proof fn lemma_transition_marks_change<T: EnumPlottable>(samples: Seq<(i64, T)>, k: int)
    requires
        0 <= k < transitions(samples).len(),
    ensures
        exists|i: int|
            {
                &&& 0 <= i < samples.len() - 1
                &&& changes(samples, i)
                &&& transitions(samples)[k] == (samples[i].0, samples[i + 1].1.label())
                &&& transitions(samples.take(i + 1)).len() == k
            },
    decreases samples.len(),
{
    let n = samples.len() as int;
    let before = samples.drop_last();
    if changes(samples, n - 2) && k == transitions(before).len() {
        assert(samples.take(n - 1) =~= before);
        assert(changes(samples, n - 2) && transitions(samples)[k] == (
            samples[n - 2].0,
            samples[n - 2 + 1].1.label(),
        ) && transitions(samples.take(n - 2 + 1)).len() == k);
    } else {
        lemma_transition_marks_change(before, k);
        let i = choose|i: int|
            {
                &&& 0 <= i < before.len() - 1
                &&& changes(before, i)
                &&& transitions(before)[k] == (before[i].0, before[i + 1].1.label())
                &&& transitions(before.take(i + 1)).len() == k
            };
        assert(before.take(i + 1) =~= samples.take(i + 1));
        assert(changes(samples, i) && transitions(samples)[k] == (
            samples[i].0,
            samples[i + 1].1.label(),
        ) && transitions(samples.take(i + 1)).len() == k);
    }
}

/// Whether the samples come in the order of their x.
pub open spec fn in_order<T>(samples: Seq<(i64, T)>) -> bool {
    forall|i: int, j: int|
        0 <= i <= j < samples.len() ==> (#[trigger] samples[i]).0 <= (#[trigger] samples[j]).0
}

proof fn lemma_transitions_in_order<T: EnumPlottable>(samples: Seq<(i64, T)>)
    requires
        in_order(samples),
    ensures
        forall|a: int, b: int|
            0 <= a <= b < transitions(samples).len() ==> (#[trigger] transitions(samples)[a]).0 <= (
            #[trigger] transitions(samples)[b]).0,
        forall|a: int|
            0 <= a < transitions(samples).len() ==> (#[trigger] transitions(samples)[a]).0
                <= samples[samples.len() - 2].0,
    decreases samples.len(),
{
    if samples.len() >= 2 {
        let n = samples.len() as int;
        let before = samples.drop_last();
        assert forall|i: int, j: int| 0 <= i <= j < before.len() implies (#[trigger] before[i]).0 <= (
        #[trigger] before[j]).0 by {
            assert(before[i] == samples[i]);
            assert(before[j] == samples[j]);
        }
        lemma_transitions_in_order(before);
        assert forall|a: int| 0 <= a < transitions(before).len() implies (#[trigger] transitions(
            before,
        )[a]).0 <= samples[n - 2].0 by {
            assert(before[n - 3] == samples[n - 3]);
            assert(samples[n - 3].0 <= samples[n - 2].0);
        }
    }
}

/// Where the samples come in the order of their x, so do the edges.
pub proof fn lemma_edges_in_order<T: EnumPlottable>(samples: Seq<(i64, T)>)
    requires
        samples.len() > 0,
        in_order(samples),
    ensures
        forall|a: int, b: int|
            0 <= a <= b < edges_of(samples).len() ==> (#[trigger] edges_of(samples)[a]).0 <= (
            #[trigger] edges_of(samples)[b]).0,
{
    lemma_transitions_in_order(samples);
    let inner = transitions(samples);
    let edges = edges_of(samples);
    assert forall|a: int, b: int| 0 <= a <= b < edges.len() implies (#[trigger] edges[a]).0 <= (
    #[trigger] edges[b]).0 by {
        if 0 < a && b < edges.len() - 1 {
            assert(edges[a] == inner[a - 1]);
            assert(edges[b] == inner[b - 1]);
        }
    }
}

/// A signal whose values all compare equal has no transition.
pub proof fn lemma_constant_has_no_transition<T: EnumPlottable>(samples: Seq<(i64, T)>)
    requires
        forall|i: int, j: int|
            0 <= i < samples.len() && 0 <= j < samples.len() ==> (#[trigger] samples[i]).1.eq_spec(
                &(#[trigger] samples[j]).1,
            ),
    ensures
        transitions(samples).len() == 0,
    decreases samples.len(),
{
    if samples.len() >= 2 {
        let n = samples.len() as int;
        let before = samples.drop_last();
        assert forall|i: int, j: int|
            0 <= i < before.len() && 0 <= j < before.len() implies (#[trigger] before[i]).1.eq_spec(
            &(#[trigger] before[j]).1,
        ) by {
            assert(before[i] == samples[i]);
            assert(before[j] == samples[j]);
        }
        lemma_constant_has_no_transition(before);
        assert(samples[n - 2].1.eq_spec(&samples[n - 2 + 1].1));
    }
}

/// A signal whose values all compare equal has exactly two edges, the
/// sentinels, and both carry the same label.
pub proof fn lemma_constant_signal<T: EnumPlottable>(samples: Seq<(i64, T)>)
    requires
        samples.len() > 0,
        forall|i: int, j: int|
            0 <= i < samples.len() && 0 <= j < samples.len() ==> (#[trigger] samples[i]).1.eq_spec(
                &(#[trigger] samples[j]).1,
            ),
    ensures
        edges_of(samples).len() == 2,
        edges_of(samples)[0].1 == edges_of(samples)[1].1,
        edges_of(samples)[0].0 == MIN_SENTINEL,
        edges_of(samples)[1].0 == MAX_SENTINEL,
{
    lemma_constant_has_no_transition(samples);
    let first = samples[0];
    let last = samples[samples.len() - 1];
    assert(first.1.eq_spec(&last.1));
    first.1.equal_values_share_label(&last.1);
}

/// Something that can be drawn as a row: it delivers its edges in order.
pub trait EnumPlotLineTrait {
    /// The edges that `get_edges_and_labels` delivers.
    spec fn edges(&self) -> EdgesView;

    fn get_edges_and_labels(&self) -> (out: Vec<(i64, String)>)
        ensures
            edge_views(out@) == self.edges(),
    ;
}

/// The samples of one discrete signal, in the order they were taken. It
/// always holds at least one sample.
pub struct EnumPlotLine<T: EnumPlottable> {
    points: Vec<(i64, T)>,
}

impl<T: EnumPlottable> EnumPlotLine<T> {
    #[verifier::type_invariant]
    spec fn holds_a_sample(&self) -> bool {
        self.points@.len() > 0
    }

    /// The samples of the line.
    pub closed spec fn samples(&self) -> Seq<(i64, T)> {
        self.points@
    }

    pub fn new(points: Vec<(i64, T)>) -> (line: Self)
        requires
            points@.len() > 0,
        ensures
            line.samples() == points@,
    {
        EnumPlotLine { points }
    }
}

impl<T: EnumPlottable> EnumPlotLineTrait for EnumPlotLine<T> {
    open spec fn edges(&self) -> EdgesView {
        edges_of(self.samples())
    }

    fn get_edges_and_labels(&self) -> (out: Vec<(i64, String)>) {
        proof {
            use_type_invariant(self);
            T::equality_is_specified();
        }
        let n: usize = self.points.len();
        let mut out_vec: Vec<(i64, String)> = Vec::new();
        out_vec.push((MIN_SENTINEL, self.points[0].1.display()));
        let ghost first = seq![(MIN_SENTINEL, self.points@.first().1.label())];
        assert(edge_views(out_vec@) =~= first + transitions(self.points@.take(1)));
        let mut i: usize = 1;
        while i < n
            invariant
                1 <= i <= n,
                n == self.points@.len(),
                T::obeys_eq_spec(),
                first == seq![(MIN_SENTINEL, self.points@.first().1.label())],
                edge_views(out_vec@) == first + transitions(self.points@.take(i as int)),
            decreases n - i,
        {
            let ghost done = self.points@.take(i as int);
            let ghost next = self.points@.take(i + 1);
            assert(next.drop_last() =~= done);
            if self.points[i - 1].1 != self.points[i].1 {
                let ghost before = out_vec@;
                out_vec.push((self.points[i - 1].0, self.points[i].1.display()));
                assert(edge_views(out_vec@) =~= edge_views(before).push(
                    (self.points@[i - 1].0, self.points@[i as int].1.label()),
                ));
                assert(edge_views(out_vec@) =~= first + transitions(next));
            } else {
                assert(edge_views(out_vec@) =~= first + transitions(next));
            }
            i = i + 1;
        }
        assert(self.points@.take(n as int) =~= self.points@);
        let ghost before = out_vec@;
        out_vec.push((MAX_SENTINEL, self.points[n - 1].1.display()));
        assert(edge_views(out_vec@) =~= edge_views(before).push(
            (MAX_SENTINEL, self.points@.last().1.label()),
        ));
        assert(edge_views(out_vec@) =~= edges_of(self.points@));
        out_vec
    }
}

} // verus!
