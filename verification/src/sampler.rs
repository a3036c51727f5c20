//! Sampling sessions: the history of samples and the rule that at most one
//! worker is active at a time.

use vstd::prelude::*;
use crate::error::{IOReportError, IOReportErrorView, SamplerError};
use crate::profile::{profile_of, PowerProfile};
use crate::sample::{all_valid, sample_views, EnergySample, EnergySampleView};
use crate::worker::{SampleManager, SampleWorker, SampleWorkerView};

verus! {

/// Whether a session has an active worker.
#[derive(Debug, Clone, Copy, PartialEq, Eq, Structural)]
pub enum SessionState {
    Idle,
    Running,
}

/// Mathematical value of a session: its history, its state, and the times,
/// in milliseconds, of its latest start and latest stop.
pub struct SessionView {
    pub samples: Seq<EnergySampleView>,
    pub state: SessionState,
    pub start_time: Option<u64>,
    pub end_time: Option<u64>,
}

impl SessionView {
    /// A session that has never run.
    pub open spec fn idle() -> SessionView {
        SessionView {
            samples: Seq::empty(),
            state: SessionState::Idle,
            start_time: None,
            end_time: None,
        }
    }

    /// A request to start at `now`, where opening the provider failed with
    /// `failure` or succeeded: the session after it and the answer. A
    /// running session rejects the request; so does an idle one whose
    /// provider failed; both stay as they are. Otherwise the session runs
    /// from `now` on.
    pub open spec fn start(self, now: u64, failure: Option<IOReportErrorView>) -> (
        SessionView,
        Result<(), SamplerError>,
    ) {
        if self.state == SessionState::Running {
            (self, Err(SamplerError::AlreadyRunning))
        } else {
            match failure {
                Some(cause) => (self, Err(cause.at_session_start())),
                None => (
                    SessionView { state: SessionState::Running, start_time: Some(now), ..self },
                    Ok(()),
                ),
            }
        }
    }

    /// A request to stop at `now`, where `drained` is what the worker's
    /// queue handed out until it closed: the session after it and the
    /// answer. An idle session rejects the request and stays as it is; a
    /// running one appends all of `drained` to its history and is idle from
    /// `now` on.
    pub open spec fn stop(self, now: u64, drained: Seq<EnergySampleView>) -> (
        SessionView,
        Result<(), SamplerError>,
    ) {
        if self.state == SessionState::Running {
            (
                SessionView {
                    samples: self.samples + drained,
                    state: SessionState::Idle,
                    end_time: Some(now),
                    ..self
                },
                Ok(()),
            )
        } else {
            (self, Err(SamplerError::NotRunning))
        }
    }

    /// Milliseconds from the latest start to the latest stop, once both have
    /// happened; zero where the stop is the earlier of the two.
    pub open spec fn elapsed_ms(self) -> Option<nat> {
        match (self.start_time, self.end_time) {
            (Some(start), Some(end)) => Some(
                if end >= start {
                    (end - start) as nat
                } else {
                    0
                },
            ),
            _ => None,
        }
    }
}

/// What `provider` says of the attempt to open the provider.
pub open spec fn failure_of(provider: Result<(), IOReportError>) -> Option<IOReportErrorView> {
    match provider {
        Ok(_) => None,
        Err(cause) => Some(cause@),
    }
}

/// The history of a session is append-only: no request takes a sample away
/// or changes one, and only a stop that is accepted adds any.
pub proof fn lemma_history_is_append_only(
    session: SessionView,
    now: u64,
    failure: Option<IOReportErrorView>,
    drained: Seq<EnergySampleView>,
)
    ensures
        session.start(now, failure).0.samples == session.samples,
        session.stop(now, drained).0.samples.len() >= session.samples.len(),
        session.stop(now, drained).0.samples.subrange(0, session.samples.len() as int)
            == session.samples,
        session.stop(now, drained).1 is Err ==> session.stop(now, drained).0.samples
            == session.samples,
{
    assert(session.stop(now, drained).0.samples.subrange(0, session.samples.len() as int)
        =~= session.samples);
}

/// A session keeps every sample that is drained at its stop, and changes
/// its history at no other time. Starting leaves the history as it is, and
/// so does every request that is rejected while the session runs; the stop
/// that follows appends all of `drained`, in order, after what was there.
pub proof fn lemma_stop_keeps_every_drained_sample(
    session: SessionView,
    start_ms: u64,
    again_ms: u64,
    stop_ms: u64,
    failure: Option<IOReportErrorView>,
    drained: Seq<EnergySampleView>,
)
    requires
        session.state == SessionState::Idle,
    ensures
        ({
            let started = session.start(start_ms, None).0;
            let stopped = started.stop(stop_ms, drained).0;
            &&& started.state == SessionState::Running
            &&& started.samples == session.samples
            &&& started.start(again_ms, failure).0 == started
            &&& stopped.state == SessionState::Idle
            &&& stopped.samples == session.samples + drained
            &&& stopped.samples.len() == session.samples.len() + drained.len()
            &&& forall|i: int|
                0 <= i < session.samples.len() ==> stopped.samples[i] == session.samples[i]
            &&& forall|i: int|
                0 <= i < drained.len() ==> stopped.samples[session.samples.len() + i] == drained[i]
        }),
{
}

/// A second stop without a start in between is rejected as `NotRunning` and
/// leaves the session, its history included, as the first stop left it.
pub proof fn lemma_second_stop_is_rejected(
    session: SessionView,
    first_ms: u64,
    first_drained: Seq<EnergySampleView>,
    second_ms: u64,
    second_drained: Seq<EnergySampleView>,
)
    ensures
        ({
            let once = session.stop(first_ms, first_drained).0;
            once.stop(second_ms, second_drained) == (
                once,
                Err::<(), SamplerError>(SamplerError::NotRunning),
            )
        }),
{
}

/// A second start while the session runs is rejected as `AlreadyRunning`,
/// whatever the provider says, and leaves the session as it was.
pub proof fn lemma_second_start_is_rejected(
    session: SessionView,
    first_ms: u64,
    second_ms: u64,
    failure: Option<IOReportErrorView>,
)
    ensures
        ({
            let running = session.start(first_ms, None).0;
            &&& running.state == SessionState::Running
            &&& running.start(second_ms, failure) == (
                running,
                Err::<(), SamplerError>(SamplerError::AlreadyRunning),
            )
        }),
{
}

/// The state machine of a session, apart from the worker that it stands
/// for: the history, the explicit state, and the two times.
#[derive(Debug)]
pub struct Session {
    samples: Vec<EnergySample>,
    state: SessionState,
    start_time: Option<u64>,
    end_time: Option<u64>,
}

impl View for Session {
    type V = SessionView;

    closed spec fn view(&self) -> SessionView {
        SessionView {
            samples: sample_views(self.samples@),
            state: self.state,
            start_time: self.start_time,
            end_time: self.end_time,
        }
    }
}

impl Session {
    /// An idle session with an empty history.
    pub fn new() -> (session: Session)
        ensures
            session@ == SessionView::idle(),
    {
        let session = Session {
            samples: Vec::new(),
            state: SessionState::Idle,
            start_time: None,
            end_time: None,
        };
        assert(session@.samples =~= Seq::<EnergySampleView>::empty());
        session
    }

    /// Handles a request to start at time `now_ms`, where `provider` tells
    /// whether the provider's subscription could be opened. Rejected as
    /// `AlreadyRunning` if the session is running, else as
    /// `ProviderUnavailable` or `EmptyChannelCatalog` if the provider failed;
    /// the session then stays as it was. Otherwise the session is running.
    pub fn start(&mut self, now_ms: u64, provider: Result<(), IOReportError>) -> (outcome: Result<
        (),
        SamplerError,
    >)
        ensures
            (final(self)@, outcome) == old(self)@.start(now_ms, failure_of(provider)),
    {
        match self.state {
            SessionState::Running => Err(SamplerError::AlreadyRunning),
            SessionState::Idle => match provider {
                Err(cause) => Err(SamplerError::from_report(&cause)),
                Ok(_) => {
                    self.start_time = Some(now_ms);
                    self.state = SessionState::Running;
                    Ok(())
                },
            },
        }
    }

    /// Handles a request to stop at time `now_ms`, where `drained` holds
    /// what the worker's queue handed out until it closed. Rejected as
    /// `NotRunning`, with the session left as it was, if the session is
    /// idle. Otherwise all of `drained` is appended to the history, in
    /// order, and the session is idle.
    pub fn stop(&mut self, now_ms: u64, drained: Vec<EnergySample>) -> (outcome: Result<
        (),
        SamplerError,
    >)
        ensures
            (final(self)@, outcome) == old(self)@.stop(now_ms, sample_views(drained@)),
    {
        match self.state {
            SessionState::Idle => Err(SamplerError::NotRunning),
            SessionState::Running => {
                let mut drained = drained;
                let ghost taken = sample_views(drained@);
                self.samples.append(&mut drained);
                self.end_time = Some(now_ms);
                self.state = SessionState::Idle;
                proof {
                    assert(self@.samples =~= old(self)@.samples + taken);
                }
                Ok(())
            },
        }
    }

    /// The state of the session.
    pub fn state(&self) -> (state: SessionState)
        ensures
            state == self@.state,
    {
        self.state
    }

    /// The history of the session, oldest sample first.
    pub fn samples(&self) -> (history: &Vec<EnergySample>)
        ensures
            sample_views(history@) == self@.samples,
    {
        &self.samples
    }

    /// Milliseconds from the latest start to the latest stop, once both have
    /// happened; zero where the stop is the earlier of the two.
    pub fn elapsed_ms(&self) -> (elapsed: Option<u64>)
        ensures
            match self@.elapsed_ms() {
                Some(millis) => elapsed == Some(millis as u64),
                None => elapsed is None,
            },
    {
        match (self.start_time, self.end_time) {
            (Some(start), Some(end)) => Some(
                if end >= start {
                    end - start
                } else {
                    0
                },
            ),
            _ => None,
        }
    }
}

/// A session together with its hold on the worker: a running session holds
/// the manager of its worker, an idle one holds none.
struct Front {
    session: Session,
    manager: Option<SampleManager>,
}

impl Front {
    #[verifier::type_invariant]
    spec fn well_formed(&self) -> bool {
        self.tied()
    }

    /// Whether the session runs exactly if it holds a worker's manager.
    spec fn tied(&self) -> bool {
        (self.session@.state == SessionState::Running) == (self.manager is Some)
    }

    fn new() -> (front: Front)
        ensures
            front.session@ == SessionView::idle(),
            front.manager is None,
    {
        Front { session: Session::new(), manager: None }
    }

    fn is_running(&self) -> (running: bool)
        ensures
            running == (self.session@.state == SessionState::Running),
            running == (self.manager is Some),
    {
        proof {
            use_type_invariant(self);
        }
        self.session.state() == SessionState::Running
    }

    fn start(
        &mut self,
        now_ms: u64,
        provider: Result<(), IOReportError>,
        duration: u64,
        num_samples: usize,
    ) -> (started: Result<SampleWorker, SamplerError>)
        ensures
            final(self).session@ == old(self).session@.start(now_ms, failure_of(provider)).0,
            match old(self).session@.start(now_ms, failure_of(provider)).1 {
                Err(error) => started is Err && started->Err_0 == error,
                Ok(_) => started is Ok && started->Ok_0@ == SampleWorkerView::initial(
                    duration as nat,
                    num_samples as nat,
                ),
            },
            started is Err ==> final(self).manager == old(self).manager,
            started is Ok ==> old(self).manager is None && final(self).manager is Some,
            old(self).tied(),
            final(self).tied(),
    {
        let mut front = Front::new();
        std::mem::swap(self, &mut front);
        proof {
            use_type_invariant(&front);
        }
        let Front { session, manager } = front;
        let mut session = session;
        match session.start(now_ms, provider) {
            Err(error) => {
                *self = Front { session, manager };
                Err(error)
            },
            Ok(_) => {
                let (fresh, worker) = SampleManager::new(duration, num_samples);
                *self = Front { session, manager: Some(fresh) };
                Ok(worker)
            },
        }
    }

    fn stop(&mut self, now_ms: u64) -> (stopped: Result<(), SamplerError>)
        ensures
            exists|drained: Seq<EnergySampleView>|
                all_valid(drained) && (final(self).session@, stopped) == #[trigger] old(
                    self,
                ).session@.stop(now_ms, drained),
            final(self).manager is None,
            old(self).tied(),
            final(self).tied(),
    {
        let mut front = Front::new();
        std::mem::swap(self, &mut front);
        proof {
            use_type_invariant(&front);
        }
        let Front { session, manager } = front;
        let mut session = session;
        let drained = match manager {
            Some(manager) => manager.stop(),
            None => Vec::new(),
        };
        let ghost taken = sample_views(drained@);
        let stopped = session.stop(now_ms, drained);
        assert(all_valid(taken) && (session@, stopped) == old(self).session@.stop(
            now_ms,
            taken,
        ));
        *self = Front { session, manager: None };
        stopped
    }
}

/// A sampling session for callers that tie the worker's life to a scope:
/// `subscribe` starts the worker, `release` ends it when the scope does.
pub struct Sampler {
    front: Front,
}

impl View for Sampler {
    type V = SessionView;

    closed spec fn view(&self) -> SessionView {
        self.front.session@
    }
}

impl Default for Sampler {
    /// An idle session with an empty history.
    fn default() -> (sampler: Sampler)
        ensures
            sampler@ == SessionView::idle(),
    {
        Sampler::new()
    }
}

impl Sampler {
    /// The session's hold on its worker: the manager of the worker that is
    /// active, if one is.
    pub closed spec fn worker_held(&self) -> Option<SampleManager> {
        self.front.manager
    }

    /// An idle session with an empty history and no worker.
    pub fn new() -> (sampler: Sampler)
        ensures
            sampler@ == SessionView::idle(),
            sampler.worker_held() is None,
    {
        Sampler { front: Front::new() }
    }

    /// Starts sampling every `duration` milliseconds in `num_samples`
    /// windows, at time `now_ms`. `provider` tells whether the provider's
    /// subscription could be opened. On success the session is running and
    /// the worker for the sampling thread is handed out. A second request
    /// while the session is running is rejected as `AlreadyRunning`, and a
    /// failed provider as `ProviderUnavailable` or `EmptyChannelCatalog`;
    /// either way the session stays as it was.
    pub fn subscribe(
        &mut self,
        now_ms: u64,
        provider: Result<(), IOReportError>,
        duration: u64,
        num_samples: usize,
    ) -> (started: Result<SampleWorker, SamplerError>)
        ensures
            final(self)@ == old(self)@.start(now_ms, failure_of(provider)).0,
            match old(self)@.start(now_ms, failure_of(provider)).1 {
                Err(error) => started is Err && started->Err_0 == error,
                Ok(_) => started is Ok && started->Ok_0@ == SampleWorkerView::initial(
                    duration as nat,
                    num_samples as nat,
                ),
            },
            started is Err ==> final(self).worker_held() == old(self).worker_held(),
            started is Ok ==> old(self).worker_held() is None && final(self).worker_held()
                is Some,
            (old(self)@.state == SessionState::Running) == (old(self).worker_held() is Some),
            (final(self)@.state == SessionState::Running) == (final(self).worker_held() is Some),
    {
        self.front.start(now_ms, provider, duration, num_samples)
    }

    /// Ends sampling at time `now_ms`: cancels the worker, waits until its
    /// queue is closed, and appends every sample taken off it to the
    /// history, oldest first. Rejected as `NotRunning`, with the session left
    /// as it was, if no worker is active.
    pub fn release(&mut self, now_ms: u64) -> (stopped: Result<(), SamplerError>)
        ensures
            exists|drained: Seq<EnergySampleView>|
                all_valid(drained) && (final(self)@, stopped) == #[trigger] old(self)@.stop(
                    now_ms,
                    drained,
                ),
            final(self).worker_held() is None,
            (old(self)@.state == SessionState::Running) == (old(self).worker_held() is Some),
    {
        let stopped = self.front.stop(now_ms);
        proof {
            let drained = choose|drained: Seq<EnergySampleView>|
                all_valid(drained) && (self.front.session@, stopped) == #[trigger] old(
                    self,
                ).front.session@.stop(now_ms, drained);
            assert(all_valid(drained) && (self@, stopped) == old(self)@.stop(now_ms, drained));
        }
        stopped
    }

    /// Whether a worker is active.
    pub fn is_sampling(&self) -> (running: bool)
        ensures
            running == (self@.state == SessionState::Running),
            running == (self.worker_held() is Some),
    {
        self.front.is_running()
    }

    /// The history of the session, oldest sample first.
    pub fn samples(&self) -> (history: &Vec<EnergySample>)
        ensures
            sample_views(history@) == self@.samples,
    {
        self.front.session.samples()
    }

    /// The profile of the history, or `None` where one of its figures does
    /// not fit its machine type.
    pub fn power_profile(&self) -> (profile: Option<PowerProfile>)
        ensures
            profile is Some <==> profile_of(self@.samples).representable(),
            profile is Some ==> profile->Some_0@ == profile_of(self@.samples),
    {
        PowerProfile::from_samples(self.front.session.samples())
    }

    /// Whole seconds from the latest start to the latest stop, once both
    /// have happened.
    pub fn duration(&self) -> (seconds: Option<u64>)
        ensures
            match self@.elapsed_ms() {
                Some(millis) => seconds == Some((millis / 1_000) as u64),
                None => seconds is None,
            },
    {
        match self.front.session.elapsed_ms() {
            Some(millis) => Some(millis / 1_000),
            None => None,
        }
    }
}

/// A sampling session for callers that start and stop the worker by hand.
pub struct StartStopSampler {
    front: Front,
}

impl View for StartStopSampler {
    type V = SessionView;

    closed spec fn view(&self) -> SessionView {
        self.front.session@
    }
}

impl Default for StartStopSampler {
    /// An idle session with an empty history.
    fn default() -> (sampler: StartStopSampler)
        ensures
            sampler@ == SessionView::idle(),
    {
        StartStopSampler::new()
    }
}

impl StartStopSampler {
    /// The session's hold on its worker: the manager of the worker that is
    /// active, if one is.
    pub closed spec fn worker_held(&self) -> Option<SampleManager> {
        self.front.manager
    }

    /// An idle session with an empty history and no worker.
    pub fn new() -> (sampler: StartStopSampler)
        ensures
            sampler@ == SessionView::idle(),
            sampler.worker_held() is None,
    {
        StartStopSampler { front: Front::new() }
    }

    /// Starts sampling every `duration` milliseconds in `num_samples`
    /// windows, at time `now_ms`. `provider` tells whether the provider's
    /// subscription could be opened. On success the session is running and
    /// the worker for the sampling thread is handed out. A second request
    /// while the session is running is rejected as `AlreadyRunning`, and a
    /// failed provider as `ProviderUnavailable` or `EmptyChannelCatalog`;
    /// either way the session stays as it was.
    pub fn start(
        &mut self,
        now_ms: u64,
        provider: Result<(), IOReportError>,
        duration: u64,
        num_samples: usize,
    ) -> (started: Result<SampleWorker, SamplerError>)
        ensures
            final(self)@ == old(self)@.start(now_ms, failure_of(provider)).0,
            match old(self)@.start(now_ms, failure_of(provider)).1 {
                Err(error) => started is Err && started->Err_0 == error,
                Ok(_) => started is Ok && started->Ok_0@ == SampleWorkerView::initial(
                    duration as nat,
                    num_samples as nat,
                ),
            },
            started is Err ==> final(self).worker_held() == old(self).worker_held(),
            started is Ok ==> old(self).worker_held() is None && final(self).worker_held()
                is Some,
            (old(self)@.state == SessionState::Running) == (old(self).worker_held() is Some),
            (final(self)@.state == SessionState::Running) == (final(self).worker_held() is Some),
    {
        self.front.start(now_ms, provider, duration, num_samples)
    }

    /// Ends sampling at time `now_ms`: cancels the worker, waits until its
    /// queue is closed, and appends every sample taken off it to the
    /// history, oldest first. Rejected as `NotRunning`, with the session left
    /// as it was, if no worker is active.
    pub fn stop(&mut self, now_ms: u64) -> (stopped: Result<(), SamplerError>)
        ensures
            exists|drained: Seq<EnergySampleView>|
                all_valid(drained) && (final(self)@, stopped) == #[trigger] old(self)@.stop(
                    now_ms,
                    drained,
                ),
            final(self).worker_held() is None,
            (old(self)@.state == SessionState::Running) == (old(self).worker_held() is Some),
    {
        let stopped = self.front.stop(now_ms);
        proof {
            let drained = choose|drained: Seq<EnergySampleView>|
                all_valid(drained) && (self.front.session@, stopped) == #[trigger] old(
                    self,
                ).front.session@.stop(now_ms, drained);
            assert(all_valid(drained) && (self@, stopped) == old(self)@.stop(now_ms, drained));
        }
        stopped
    }

    /// Whether a worker is active.
    pub fn is_sampling(&self) -> (running: bool)
        ensures
            running == (self@.state == SessionState::Running),
            running == (self.worker_held() is Some),
    {
        self.front.is_running()
    }

    /// The history of the session, oldest sample first.
    pub fn samples(&self) -> (history: &Vec<EnergySample>)
        ensures
            sample_views(history@) == self@.samples,
    {
        self.front.session.samples()
    }

    /// The profile of the history, or `None` where one of its figures does
    /// not fit its machine type.
    pub fn power_profile(&self) -> (profile: Option<PowerProfile>)
        ensures
            profile is Some <==> profile_of(self@.samples).representable(),
            profile is Some ==> profile->Some_0@ == profile_of(self@.samples),
    {
        PowerProfile::from_samples(self.front.session.samples())
    }

    /// Milliseconds from the latest start to the latest stop, once both have
    /// happened.
    pub fn duration(&self) -> (millis: Option<u128>)
        ensures
            match self@.elapsed_ms() {
                Some(elapsed) => millis == Some(elapsed as u128),
                None => millis is None,
            },
    {
        match self.front.session.elapsed_ms() {
            Some(elapsed) => Some(elapsed as u128),
            None => None,
        }
    }
}

} // verus!
