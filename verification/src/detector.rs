//! Rising-edge detection on a polled switch.

use vstd::prelude::*;

verus! {

/// What an [`EdgeDetector`] remembers between polls.
pub struct DebounceState {
    /// The sample the last poll saw.
    pub previous: bool,
    /// Whether the last poll reported an edge.
    pub edge: bool,
}

impl DebounceState {
    /// The state after one more sample: an edge is reported when the sample
    /// is high and the one before it was low, and the sample is remembered
    /// either way.
    pub open spec fn poll(self, sample: bool) -> DebounceState {
        DebounceState { previous: sample, edge: sample && !self.previous }
    }

    /// The state after polling every sample in turn.
    pub open spec fn poll_all(self, samples: Seq<bool>) -> DebounceState
        decreases samples.len(),
    {
        if samples.len() == 0 {
            self
        } else {
            self.poll_all(samples.drop_last()).poll(samples.last())
        }
    }

    /// What each poll reported while polling every sample in turn.
    pub open spec fn reports(self, samples: Seq<bool>) -> Seq<bool>
        decreases samples.len(),
    {
        if samples.len() == 0 {
            Seq::<bool>::empty()
        } else {
            self.reports(samples.drop_last()).push(self.poll_all(samples).edge)
        }
    }
}

/// Whether the line rises at sample `i`: it is high there and was low one
/// sample earlier, `previous` standing for the sample before the first.
pub open spec fn rises_at(previous: bool, samples: Seq<bool>, i: int) -> bool {
    samples[i] && !(if i == 0 {
        previous
    } else {
        samples[i - 1]
    })
}

/// How many rising transitions the samples hold.
pub open spec fn rising_transitions(previous: bool, samples: Seq<bool>) -> nat
    decreases samples.len(),
{
    if samples.len() == 0 {
        0
    } else {
        rising_transitions(previous, samples.drop_last()) + if rises_at(
            previous,
            samples,
            samples.len() - 1,
        ) {
            1nat
        } else {
            0nat
        }
    }
}

/// How many of the reports are edges.
pub open spec fn edge_count(reports: Seq<bool>) -> nat
    decreases reports.len(),
{
    if reports.len() == 0 {
        0
    } else {
        edge_count(reports.drop_last()) + if reports.last() {
            1nat
        } else {
            0nat
        }
    }
}

/// Turns raw switch samples into one-shot "the line just rose" reports.
///
/// The detector does not filter bounce: a loop that polls slower than the
/// contacts settle sees whatever levels it happens to sample.
#[derive(Debug)]
pub struct EdgeDetector {
    previous: bool,
    edge: bool,
}

impl View for EdgeDetector {
    type V = DebounceState;

    closed spec fn view(&self) -> DebounceState {
        DebounceState { previous: self.previous, edge: self.edge }
    }
}

impl EdgeDetector {
    /// A detector that takes the line to have been low so far.
    pub fn new() -> (detector: EdgeDetector)
        ensures
            detector@ == (DebounceState { previous: false, edge: false }),
    {
        EdgeDetector { previous: false, edge: false }
    }

    /// A detector that takes `level` as the sample before the first poll.
    pub fn primed(level: bool) -> (detector: EdgeDetector)
        ensures
            detector@ == (DebounceState { previous: level, edge: false }),
    {
        EdgeDetector { previous: level, edge: false }
    }

    /// Takes one sample of the line. Returns `true` exactly when the sample
    /// is high and the previous one was low; the sample becomes the previous
    /// one for the next call, on an edge too.
    pub fn poll(&mut self, sample: bool) -> (edge: bool)
        ensures
            final(self)@ == old(self)@.poll(sample),
            edge == (sample && !old(self)@.previous),
    {
        let edge: bool = sample && !self.previous;
        self.previous = sample;
        self.edge = edge;
        edge
    }

    /// The sample the last poll saw.
    pub fn previous(&self) -> (level: bool)
        ensures
            level == self@.previous,
    {
        self.previous
    }

    /// Whether the last poll reported an edge.
    pub fn edge(&self) -> (edge: bool)
        ensures
            edge == self@.edge,
    {
        self.edge
    }
}

/// Polling a sequence of samples leaves the last sample as the previous one.
pub proof fn lemma_poll_all_previous(start: DebounceState, samples: Seq<bool>)
    ensures
        start.poll_all(samples).previous == if samples.len() == 0 {
            start.previous
        } else {
            samples.last()
        },
    decreases samples.len(),
{
    if samples.len() > 0 {
        lemma_poll_all_previous(start, samples.drop_last());
    }
}

/// Whatever the samples are, the detector reports an edge at exactly the
/// polls where the line rises, so it reports one edge per rising transition.
/// A line that stays high after rising is not reported again, however long
/// it stays high.
pub proof fn lemma_one_edge_per_rise(start: DebounceState, samples: Seq<bool>)
    ensures
        start.reports(samples).len() == samples.len(),
        forall|i: int|
            0 <= i < samples.len() ==> #[trigger] start.reports(samples)[i] == rises_at(
                start.previous,
                samples,
                i,
            ),
        edge_count(start.reports(samples)) == rising_transitions(start.previous, samples),
        forall|j: int|
            0 < j < samples.len() && samples[j - 1] ==> !#[trigger] start.reports(samples)[j],
    decreases samples.len(),
{
    if samples.len() > 0 {
        let head = samples.drop_last();
        lemma_one_edge_per_rise(start, head);
        lemma_poll_all_previous(start, head);
        let reports = start.reports(samples);
        assert(reports.drop_last() =~= start.reports(head));
        assert forall|i: int| 0 <= i < samples.len() implies #[trigger] reports[i] == rises_at(
            start.previous,
            samples,
            i,
        ) by {
            if i < head.len() {
                assert(reports[i] == start.reports(head)[i]);
                assert(rises_at(start.previous, head, i) == rises_at(start.previous, samples, i));
            }
        }
        assert forall|j: int| 0 < j < samples.len() && samples[j - 1] implies !#[trigger] reports[j] by {
            assert(reports[j] == rises_at(start.previous, samples, j));
        }
    }
}

} // verus!
