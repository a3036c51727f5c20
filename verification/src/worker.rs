//! The background sampling worker and the two channels that tie it to its
//! session: a one-shot cancellation signal and the queue of finished samples.

use vstd::prelude::*;
use crate::channel::IOReportChannelRequest;
use crate::report::{IOReportSample, RawChannelEntryView};
use crate::units::floored_ms;
use crate::sample::{sample_of_window, sample_views, EnergySample, EnergySampleView};

verus! {

/// `oneshot::Sender`, the sending end of a channel for a single message.
/// Opaque: nothing is known of what a value holds.
#[verifier::external_type_specification]
#[verifier::external_body]
#[verifier::reject_recursive_types(T)]
pub struct ExCancelSender<T>(oneshot::Sender<T>);

/// `oneshot::Receiver`, the receiving end of a channel for a single message.
/// Opaque: nothing is known of what a value holds.
#[verifier::external_type_specification]
#[verifier::external_body]
#[verifier::reject_recursive_types(T)]
pub struct ExCancelReceiver<T>(oneshot::Receiver<T>);

/// `std::sync::mpsc::Sender`, the sending end of a queue between threads.
/// Opaque: nothing is known of what a value holds.
#[verifier::external_type_specification]
#[verifier::external_body]
#[verifier::reject_recursive_types(T)]
pub struct ExQueueSender<T>(std::sync::mpsc::Sender<T>);

/// `std::sync::mpsc::Receiver`, the receiving end of a queue between
/// threads. Opaque: nothing is known of what a value holds.
#[verifier::external_type_specification]
#[verifier::external_body]
#[verifier::reject_recursive_types(T)]
pub struct ExQueueReceiver<T>(std::sync::mpsc::Receiver<T>);

/// Calls `oneshot::channel`. Trusted; nothing is claimed of the endpoints.
#[verifier::external_body]
fn cancel_channel() -> (ends: (oneshot::Sender<()>, oneshot::Receiver<()>)) {
    oneshot::channel()
}

/// Calls `oneshot::Sender::send` with the unit message. Trusted; the result
/// tells whether the receiver was still there, and nothing is claimed of it.
#[verifier::external_body]
fn signal_cancel(sender: oneshot::Sender<()>) -> (delivered: bool) {
    sender.send(()).is_ok()
}

/// Calls `oneshot::Receiver::try_recv`, which never blocks. Trusted; the
/// result tells whether the message had arrived, and nothing is claimed of it.
#[verifier::external_body]
fn cancel_signaled(receiver: &oneshot::Receiver<()>) -> (signaled: bool) {
    receiver.try_recv().is_ok()
}

/// Calls `std::sync::mpsc::channel`. Trusted; nothing is claimed of the
/// endpoints.
#[verifier::external_body]
fn sample_queue() -> (ends: (
    std::sync::mpsc::Sender<EnergySample>,
    std::sync::mpsc::Receiver<EnergySample>,
)) {
    std::sync::mpsc::channel()
}

/// Calls `std::sync::mpsc::Sender::send`, which never blocks. Trusted; the
/// result tells whether the queue took the sample, which it does unless its
/// receiver is gone, and nothing is claimed of it.
#[verifier::external_body]
fn enqueue(sender: &std::sync::mpsc::Sender<EnergySample>, sample: EnergySample) -> (taken: bool) {
    sender.send(sample).is_ok()
}

/// Calls `std::sync::mpsc::Receiver::recv`, which waits for the next sample
/// and gives none once every sender is gone and the queue is empty. Trusted;
/// nothing is claimed of the result.
#[verifier::external_body]
fn dequeue(receiver: &std::sync::mpsc::Receiver<EnergySample>) -> (next: Option<EnergySample>) {
    receiver.recv().ok()
}

/// The number of windows per polling round that a request for `requested`
/// windows gets: at least 1, at most 32.
pub open spec fn clamped_windows(requested: nat) -> nat {
    if requested < 1 {
        1
    } else if requested > 32 {
        32
    } else {
        requested
    }
}

/// How a polling round of `duration` milliseconds is cut into windows: their
/// number, which is `num_samples` clamped to between 1 and 32, and the
/// milliseconds that each spans, which is the duration divided evenly.
pub fn poll_plan(duration: u64, num_samples: usize) -> (plan: (usize, u64))
    ensures
        plan.0 == clamped_windows(num_samples as nat),
        plan.1 == duration as nat / clamped_windows(num_samples as nat),
{
    let count: usize = if num_samples < 1 {
        1
    } else if num_samples > 32 {
        32
    } else {
        num_samples
    };
    (count, duration / (count as u64))
}

/// What the driver of a worker has to do next.
#[derive(Debug, Clone, Copy, PartialEq, Eq)]
pub enum WorkerAction {
    /// Wait `window_ms` milliseconds, take a snapshot, and deliver the delta
    /// since the previous snapshot.
    TakeWindow { window_ms: u64 },
    /// Leave the sampling loop.
    Stop,
}

/// Mathematical value of a [`WorkerState`].
pub struct WorkerStateView {
    /// Milliseconds that one polling round spans.
    pub interval_ms: nat,
    /// Windows, and so samples, per polling round.
    pub samples_per_poll: nat,
    /// Samples of the windows taken in during the round under way.
    pub pending: Seq<EnergySampleView>,
    /// Whether the worker is still sampling.
    pub active: bool,
}

impl WorkerStateView {
    /// Milliseconds that one window spans: the interval divided evenly.
    pub open spec fn window_ms(self) -> nat {
        self.interval_ms / self.samples_per_poll
    }

    /// Whether no round is under way.
    pub open spec fn between_rounds(self) -> bool {
        self.pending.len() == 0
    }

    /// Validity of a worker's value.
    pub open spec fn wf(self) -> bool {
        &&& 1 <= self.samples_per_poll <= 32
        &&& self.interval_ms <= u64::MAX
        &&& self.pending.len() < self.samples_per_poll
    }

    /// The worker that starts sampling every `interval_ms` milliseconds in
    /// `samples_per_poll` windows, the latter clamped.
    pub open spec fn initial(interval_ms: nat, samples_per_poll: nat) -> WorkerStateView {
        WorkerStateView {
            interval_ms,
            samples_per_poll: clamped_windows(samples_per_poll),
            pending: Seq::empty(),
            active: true,
        }
    }

    /// The worker and its next action at the top of the sampling loop, where
    /// `cancelled` tells what a look at the cancellation signal shows. The
    /// signal counts only between rounds: a round under way runs to its end.
    /// A worker that has stopped stays stopped.
    pub open spec fn checked(self, cancelled: bool) -> (WorkerStateView, WorkerAction) {
        if !self.active {
            (self, WorkerAction::Stop)
        } else if self.between_rounds() && cancelled {
            (WorkerStateView { active: false, ..self }, WorkerAction::Stop)
        } else {
            (self, WorkerAction::TakeWindow { window_ms: self.window_ms() as u64 })
        }
    }

    /// The worker after it has taken in a window that amounts to `sample`,
    /// and the samples that are then due for the queue: none until the
    /// round's last window is in, then those of the whole round, oldest
    /// first. A worker that has stopped takes in nothing.
    pub open spec fn taken_in(self, sample: EnergySampleView) -> (
        WorkerStateView,
        Seq<EnergySampleView>,
    ) {
        if !self.active {
            (self, Seq::empty())
        } else if self.pending.len() + 1 < self.samples_per_poll {
            (WorkerStateView { pending: self.pending.push(sample), ..self }, Seq::empty())
        } else {
            (WorkerStateView { pending: Seq::empty(), ..self }, self.pending.push(sample))
        }
    }

    /// The worker after the queue has answered for the samples of a round:
    /// it goes on if the queue took them all, and stops if it refused one.
    pub open spec fn concluded(self, all_taken: bool) -> WorkerStateView {
        WorkerStateView { active: self.active && all_taken, ..self }
    }

    /// The worker after it has taken in `windows` one after the other, with
    /// a queue that takes whatever it is offered, and all samples that became
    /// due on the way, oldest first.
    pub open spec fn taken_in_all(self, windows: Seq<EnergySampleView>) -> (
        WorkerStateView,
        Seq<EnergySampleView>,
    )
        decreases windows.len(),
    {
        if windows.len() == 0 {
            (self, Seq::empty())
        } else {
            let (before, due) = self.taken_in_all(windows.drop_last());
            let (after, round) = before.taken_in(windows.last());
            (after.concluded(true), due + round)
        }
    }
}

proof fn lemma_round_under_way(worker: WorkerStateView, windows: Seq<EnergySampleView>)
    requires
        worker.active,
        worker.between_rounds(),
        windows.len() < worker.samples_per_poll,
    ensures
        worker.taken_in_all(windows) == (
            WorkerStateView { pending: windows, ..worker },
            Seq::<EnergySampleView>::empty(),
        ),
    decreases windows.len(),
{
    if windows.len() == 0 {
        assert(worker.pending =~= windows);
    } else {
        lemma_round_under_way(worker, windows.drop_last());
        assert(windows.drop_last().push(windows.last()) =~= windows);
        assert(Seq::<EnergySampleView>::empty() + Seq::<EnergySampleView>::empty()
            =~= Seq::<EnergySampleView>::empty());
    }
}

/// The samples that a run of windows amounts to, where window `i` holds the
/// entries `deltas[i]` and was measured to span `elapsed[i]` milliseconds: a
/// window's span is floored at one millisecond.
pub open spec fn window_samples(
    deltas: Seq<Seq<RawChannelEntryView>>,
    elapsed: Seq<int>,
) -> Seq<EnergySampleView> {
    Seq::new(deltas.len(), |i: int| sample_of_window(deltas[i], floored_ms(elapsed[i])))
}

/// One polling round yields one sample per window. A worker that is between
/// rounds and takes in as many windows as it has per round, with a queue
/// that takes what it is offered, has then handed over exactly those
/// windows' samples, in order, each spanning at least a millisecond, and is
/// between rounds again; before the last window nothing is handed over.
pub proof fn lemma_round_yields_one_sample_per_window(
    worker: WorkerStateView,
    deltas: Seq<Seq<RawChannelEntryView>>,
    elapsed: Seq<int>,
)
    requires
        worker.wf(),
        worker.active,
        worker.between_rounds(),
        deltas.len() == worker.samples_per_poll,
        elapsed.len() == deltas.len(),
    ensures
        worker.taken_in_all(window_samples(deltas, elapsed)) == (
            worker,
            window_samples(deltas, elapsed),
        ),
        window_samples(deltas, elapsed).len() == worker.samples_per_poll,
        forall|i: int|
            0 <= i < worker.samples_per_poll ==> (#[trigger] window_samples(
                deltas,
                elapsed,
            )[i]).duration >= 1,
        worker.taken_in_all(window_samples(deltas, elapsed).drop_last()).1.len() == 0,
{
    let windows = window_samples(deltas, elapsed);
    let earlier = windows.drop_last();
    lemma_round_under_way(worker, earlier);
    assert(earlier.push(windows.last()) =~= windows);
    assert(Seq::<EnergySampleView>::empty() + windows =~= windows);
    assert(worker.pending =~= Seq::<EnergySampleView>::empty());
}

/// Windows of `interval / count` each fall short of the interval by less
/// than one unit per window.
proof fn lemma_even_windows(interval: int, count: int)
    requires
        0 <= interval,
        1 <= count,
    ensures
        (interval / count) * count <= interval < (interval / count + 1) * count,
{
    vstd::arithmetic::div_mod::lemma_fundamental_div_mod(interval, count);
    assert(0 <= interval % count < count);
    assert((interval / count) * count == count * (interval / count)) by (nonlinear_arith);
    assert((interval / count + 1) * count == count * (interval / count) + count)
        by (nonlinear_arith);
}

/// A request for between 1 and 32 windows per round is taken as it is, and
/// the windows of a round together fall short of the interval by less than
/// one millisecond each.
pub proof fn lemma_initial_worker(interval_ms: nat, samples_per_poll: nat)
    requires
        1 <= samples_per_poll <= 32,
        interval_ms <= u64::MAX,
    ensures
        WorkerStateView::initial(interval_ms, samples_per_poll).samples_per_poll
            == samples_per_poll,
        WorkerStateView::initial(interval_ms, samples_per_poll).wf(),
        WorkerStateView::initial(interval_ms, samples_per_poll).active,
        WorkerStateView::initial(interval_ms, samples_per_poll).between_rounds(),
        WorkerStateView::initial(interval_ms, samples_per_poll).window_ms() * samples_per_poll
            <= interval_ms,
        interval_ms < (WorkerStateView::initial(interval_ms, samples_per_poll).window_ms() + 1)
            * samples_per_poll,
{
    lemma_even_windows(interval_ms as int, samples_per_poll as int);
}

/// The decisions of a sampling worker, apart from the channels that carry
/// them out: when to poll, when to stop, and which samples are due for the
/// queue.
#[derive(Debug)]
pub struct WorkerState {
    duration: u64,
    num_samples: usize,
    pending: Vec<EnergySample>,
    active: bool,
}

impl View for WorkerState {
    type V = WorkerStateView;

    closed spec fn view(&self) -> WorkerStateView {
        WorkerStateView {
            interval_ms: self.duration as nat,
            samples_per_poll: self.num_samples as nat,
            pending: sample_views(self.pending@),
            active: self.active,
        }
    }
}

impl WorkerState {
    #[verifier::type_invariant]
    spec fn well_formed(&self) -> bool {
        &&& 1 <= self.num_samples <= 32
        &&& self.pending@.len() < self.num_samples
    }

    /// A worker that polls every `duration` milliseconds in `num_samples`
    /// windows, the latter clamped to between 1 and 32.
    pub fn new(duration: u64, num_samples: usize) -> (state: WorkerState)
        ensures
            state@ == WorkerStateView::initial(duration as nat, num_samples as nat),
            state@.wf(),
    {
        let (num_samples, _) = poll_plan(duration, num_samples);
        let state = WorkerState { duration, num_samples, pending: Vec::new(), active: true };
        assert(state@.pending =~= Seq::<EnergySampleView>::empty());
        state
    }

    /// Milliseconds that one polling round spans.
    pub fn interval_ms(&self) -> (millis: u64)
        ensures
            millis == self@.interval_ms,
    {
        self.duration
    }

    /// Windows per polling round; between 1 and 32.
    pub fn samples_per_poll(&self) -> (count: usize)
        ensures
            count == self@.samples_per_poll,
            1 <= count <= 32,
    {
        proof {
            use_type_invariant(self);
        }
        self.num_samples
    }

    /// Milliseconds that one window spans. Together the windows of a round
    /// fall short of the interval by less than one millisecond each.
    pub fn window_ms(&self) -> (millis: u64)
        ensures
            millis == self@.window_ms(),
            millis * self@.samples_per_poll <= self@.interval_ms,
            self@.interval_ms < (millis + 1) * self@.samples_per_poll,
    {
        proof {
            use_type_invariant(self);
            lemma_even_windows(self.duration as int, self.num_samples as int);
        }
        self.duration / (self.num_samples as u64)
    }

    /// Whether the worker is still sampling.
    pub fn is_active(&self) -> (active: bool)
        ensures
            active == self@.active,
    {
        self.active
    }

    /// Whether no round is under way.
    pub fn between_rounds(&self) -> (between: bool)
        ensures
            between == self@.between_rounds(),
            self@.wf(),
    {
        proof {
            use_type_invariant(self);
        }
        self.pending.len() == 0
    }

    /// Decides the next action at the top of the sampling loop, where
    /// `cancelled` tells what a look at the cancellation signal showed.
    pub fn check(&mut self, cancelled: bool) -> (action: WorkerAction)
        ensures
            (final(self)@, action) == old(self)@.checked(cancelled),
            old(self)@.wf(),
            final(self)@.wf(),
    {
        proof {
            use_type_invariant(&*self);
        }
        if !self.active {
            return WorkerAction::Stop;
        }
        if self.pending.len() == 0 && cancelled {
            self.active = false;
            return WorkerAction::Stop;
        }
        let window_ms = self.window_ms();
        WorkerAction::TakeWindow { window_ms }
    }

    /// Takes in the delta of one window and sums its entries into a sample.
    /// Returns the samples that are due for the queue: none until the last
    /// window of the round is in, then those of the whole round, oldest
    /// first.
    pub fn take_in(&mut self, window: IOReportSample) -> (due: Vec<EnergySample>)
        ensures
            (final(self)@, sample_views(due@)) == old(self)@.taken_in(
                sample_of_window(window.spec_iterator().remaining(), window.spec_duration()),
            ),
            old(self)@.wf(),
            final(self)@.wf(),
            due@.len() == 0 || due@.len() == old(self)@.samples_per_poll,
    {
        proof {
            use_type_invariant(&*self);
        }
        if !self.active {
            let due: Vec<EnergySample> = Vec::new();
            assert(sample_views(due@) =~= Seq::<EnergySampleView>::empty());
            return due;
        }
        let ghost before = self@;
        let sample = EnergySample::from_sample(window);
        let mut round: Vec<EnergySample> = Vec::new();
        std::mem::swap(&mut round, &mut self.pending);
        round.push(sample);
        proof {
            assert(sample_views(round@) =~= before.pending.push(sample@));
        }
        if round.len() < self.num_samples {
            std::mem::swap(&mut round, &mut self.pending);
            assert(sample_views(round@) =~= Seq::<EnergySampleView>::empty());
            return round;
        }
        proof {
            assert(self@.pending =~= Seq::<EnergySampleView>::empty());
        }
        round
    }

    /// Takes note of the queue's answer for the samples of a round: the
    /// worker stops unless the queue took them all.
    pub fn conclude(&mut self, all_taken: bool)
        ensures
            final(self)@ == old(self)@.concluded(all_taken),
            old(self)@.wf(),
            final(self)@.wf(),
    {
        proof {
            use_type_invariant(&*self);
        }
        if !all_taken {
            self.active = false;
        }
    }
}

/// Mathematical value of a [`SampleWorker`].
pub struct SampleWorkerView {
    /// The worker's decisions so far.
    pub state: WorkerStateView,
    /// Every sample that the queue has taken, oldest first.
    pub emitted: Seq<EnergySampleView>,
}

impl SampleWorkerView {
    /// The worker that starts sampling every `interval_ms` milliseconds in
    /// `samples_per_poll` windows, the latter clamped, and has queued nothing
    /// yet.
    pub open spec fn initial(interval_ms: nat, samples_per_poll: nat) -> SampleWorkerView {
        SampleWorkerView {
            state: WorkerStateView::initial(interval_ms, samples_per_poll),
            emitted: Seq::empty(),
        }
    }
}

/// The sampling side of a session: a worker's decisions together with the
/// receiving end of the cancellation signal and the sending end of the
/// sample queue.
pub struct SampleWorker {
    state: WorkerState,
    cancel: oneshot::Receiver<()>,
    queue: std::sync::mpsc::Sender<EnergySample>,
    emitted: Ghost<Seq<EnergySampleView>>,
}

impl View for SampleWorker {
    type V = SampleWorkerView;

    closed spec fn view(&self) -> SampleWorkerView {
        SampleWorkerView { state: self.state@, emitted: self.emitted@ }
    }
}

impl SampleWorker {
    /// The channel groups that a worker's subscription asks the provider
    /// for: none, which stands for every channel of the catalog.
    pub fn channel_requests() -> (requests: Vec<IOReportChannelRequest>)
        ensures
            requests@.len() == 0,
    {
        Vec::new()
    }

    /// The worker's two channel ends: where it looks for the cancellation
    /// signal, and where it queues its samples.
    pub closed spec fn channel_ends(&self) -> (
        oneshot::Receiver<()>,
        std::sync::mpsc::Sender<EnergySample>,
    ) {
        (self.cancel, self.queue)
    }

    /// The worker's decisions so far.
    pub fn state(&self) -> (state: &WorkerState)
        ensures
            state@ == self@.state,
    {
        &self.state
    }

    /// Decides what the driver does next. Between rounds the cancellation
    /// signal is looked at, without waiting: once it is seen the worker
    /// stops for good. Within a round no look is taken.
    pub fn next_action(&mut self) -> (action: WorkerAction)
        ensures
            final(self).channel_ends() == old(self).channel_ends(),
            final(self)@.emitted == old(self)@.emitted,
            (final(self)@.state, action) == old(self)@.state.checked(false) || (
                final(self)@.state,
                action,
            ) == old(self)@.state.checked(true),
    {
        let cancelled = self.state.is_active() && self.state.between_rounds() && cancel_signaled(
            &self.cancel,
        );
        self.state.check(cancelled)
    }

    /// Takes in the delta of one window. With the last window of a round the
    /// round's samples are queued, oldest first; if the queue's consumer is
    /// gone the worker stops at the first sample that the queue refuses.
    /// Returns how many samples the queue took.
    pub fn deliver(&mut self, window: IOReportSample) -> (taken: usize)
        ensures
            final(self).channel_ends() == old(self).channel_ends(),
            ({
                let (state, due) = old(self)@.state.taken_in(
                    sample_of_window(window.spec_iterator().remaining(), window.spec_duration()),
                );
                &&& taken <= due.len()
                &&& final(self)@.state == state.concluded(taken == due.len())
                &&& final(self)@.emitted == old(self)@.emitted + due.take(taken as int)
            }),
    {
        let due = self.state.take_in(window);
        let ghost offered = sample_views(due@);
        proof {
            assert(offered.take(0) =~= Seq::<EnergySampleView>::empty());
            assert(self.emitted@ + offered.take(0) =~= self.emitted@);
        }
        let mut taken: usize = 0;
        while taken < due.len()
            invariant
                taken <= due.len(),
                offered == sample_views(due@),
                self.emitted@ == old(self).emitted@ + offered.take(taken as int),
                self.channel_ends() == old(self).channel_ends(),
                (self.state@, offered) == old(self)@.state.taken_in(
                    sample_of_window(window.spec_iterator().remaining(), window.spec_duration()),
                ),
            decreases due.len() - taken,
        {
            if !enqueue(&self.queue, due[taken]) {
                self.state.conclude(false);
                return taken;
            }
            proof {
                assert(offered.take(taken + 1) =~= offered.take(taken as int).push(
                    offered[taken as int],
                ));
                self.emitted@ = self.emitted@.push(offered[taken as int]);
            }
            taken += 1;
        }
        self.state.conclude(true);
        taken
    }
}

/// Takes one answer of the sample queue into the samples drained so far: a
/// sample is appended, and the end of the queue ends the draining. Returns
/// whether the queue is still open.
pub fn collect(drained: &mut Vec<EnergySample>, next: Option<EnergySample>) -> (open: bool)
    ensures
        match next {
            Some(sample) => open && final(drained)@ == old(drained)@.push(sample),
            None => !open && final(drained)@ == old(drained)@,
        },
        next is Some ==> next->Some_0@.valid(),
{
    match next {
        Some(sample) => {
            let _ = sample.duration();
            drained.push(sample);
            true
        },
        None => false,
    }
}

/// The session's side of a running worker: the means to cancel it and the
/// receiving end of its sample queue.
pub struct SampleManager {
    cancel_sender: Option<oneshot::Sender<()>>,
    sample_receiver: std::sync::mpsc::Receiver<EnergySample>,
}

impl SampleManager {
    /// Sets up the two channels of a session and hands out both sides: the
    /// manager for the session, the worker for the sampling thread. The
    /// worker polls every `duration` milliseconds in `num_samples` windows,
    /// the latter clamped to between 1 and 32.
    pub fn new(duration: u64, num_samples: usize) -> (sides: (SampleManager, SampleWorker))
        ensures
            sides.1@ == SampleWorkerView::initial(duration as nat, num_samples as nat),
            !sides.0.cancel_requested(),
    {
        let (cancel_sender, cancel) = cancel_channel();
        let (queue, sample_receiver) = sample_queue();
        let worker = SampleWorker {
            state: WorkerState::new(duration, num_samples),
            cancel,
            queue,
            emitted: Ghost(Seq::empty()),
        };
        (SampleManager { cancel_sender: Some(cancel_sender), sample_receiver }, worker)
    }

    /// Whether cancellation has been signalled.
    pub closed spec fn cancel_requested(&self) -> bool {
        self.cancel_sender is None
    }

    /// The manager's end of the sample queue.
    pub closed spec fn queue_end(&self) -> std::sync::mpsc::Receiver<EnergySample> {
        self.sample_receiver
    }

    /// Signals cancellation to the worker, without waiting for it. The
    /// signal is sent once; later calls do nothing. Returns whether this call
    /// sent it.
    pub fn cancel(&mut self) -> (sent: bool)
        ensures
            sent == !old(self).cancel_requested(),
            final(self).cancel_requested(),
            final(self).queue_end() == old(self).queue_end(),
    {
        match self.cancel_sender.take() {
            Some(sender) => {
                let _ = signal_cancel(sender);
                true
            },
            None => false,
        }
    }

    /// Ends the worker's session: signals cancellation, then takes samples
    /// off the queue until the worker has let go of it, and returns them,
    /// oldest first. Waits for as long as the worker takes to see the
    /// signal and to let go, which a worker that is driven on does within
    /// one polling round. A vector holds no more than `usize::MAX` samples,
    /// so the draining ends there at the latest.
    pub fn stop(self) -> (samples: Vec<EnergySample>)
        ensures
            forall|i: int| 0 <= i < samples@.len() ==> (#[trigger] samples@[i])@.valid(),
    {
        let mut manager = self;
        let _ = manager.cancel();
        let sample_receiver = manager.sample_receiver;
        let mut samples: Vec<EnergySample> = Vec::new();
        while samples.len() < usize::MAX
            invariant
                samples.len() <= usize::MAX,
                forall|i: int| 0 <= i < samples@.len() ==> (#[trigger] samples@[i])@.valid(),
            decreases usize::MAX - samples.len(),
        {
            if !collect(&mut samples, dequeue(&sample_receiver)) {
                return samples;
            }
        }
        samples
    }
}

} // verus!
