//! Coordination of capture, buffering and transcription.
//!
//! The orchestrator is a state machine that is driven from outside. `start`
//! and `stop` switch a session on and off and say which worker to start or to
//! join. The consumption loop is run by the caller as well: it carries out the
//! [`PipelineAction`] it was given, reports the result as a [`PipelineEvent`]
//! to [`Orchestrator::step`], and gets the next action back.

use crate::audio::processor::{AudioProcessor, Conversion};
use crate::audio::recorder::{
    lemma_second_start_is_noop, lemma_stop_request_ends_capture, Recorder, RecordingState,
};
use crate::channel::{capacity_admissible, MAX_CAPACITY};
use crate::config::AppConfig;
use crate::transcription::service::TranscriptionService;
use crate::transcription::whisper::EngineCall;
use tokio::sync::mpsc::{channel, Receiver, Sender};
use vstd::prelude::*;

verus! {

/// Number of failed receives in a row that the consumption loop puts up with.
pub const MAX_CONSECUTIVE_FAILURES: u32 = 5;

/// What the consumption loop reports to [`Orchestrator::step`].
pub enum PipelineEvent<S> {
    /// Nothing is pending: the loop begins, or the last action is done.
    Ready,
    /// A receive on the audio channel has returned: a block of samples, or
    /// `None` from a channel that is closed and empty.
    Received(Option<Vec<S>>),
    /// The resampler has returned these samples.
    Resampled(Vec<S>),
    /// The speech engine has returned: the text, or `None` if it failed.
    Transcribed(Option<String>),
}

/// What the consumption loop is to do next.
pub enum PipelineAction<S> {
    /// Wait for the next block on the audio channel.
    Receive,
    /// Convert the samples as told and report them as `Resampled`.
    Resample(Vec<S>, Conversion),
    /// Run the speech engine on the samples and report as `Transcribed`.
    Transcribe(Vec<S>),
    /// Send the text to the output and report `Ready`.
    Forward(String),
    /// Pause briefly and report `Ready`.
    BackOff,
    /// Leave the loop.
    Exit,
}

/// A [`PipelineEvent`] by its contents.
pub enum EventModel<S> {
    Ready,
    Received(Option<Seq<S>>),
    Resampled(Seq<S>),
    Transcribed(Option<Seq<char>>),
}

/// A [`PipelineAction`] by its contents.
pub enum ActionModel<S> {
    Receive,
    Resample(Seq<S>, Conversion),
    Transcribe(Seq<S>),
    Forward(Seq<char>),
    BackOff,
    Exit,
}

impl<S> View for PipelineEvent<S> {
    type V = EventModel<S>;

    open spec fn view(&self) -> EventModel<S> {
        match *self {
            PipelineEvent::Ready => EventModel::Ready,
            PipelineEvent::Received(Some(chunk)) => EventModel::Received(Some(chunk@)),
            PipelineEvent::Received(None) => EventModel::Received(None),
            PipelineEvent::Resampled(samples) => EventModel::Resampled(samples@),
            PipelineEvent::Transcribed(Some(text)) => EventModel::Transcribed(Some(text@)),
            PipelineEvent::Transcribed(None) => EventModel::Transcribed(None),
        }
    }
}

impl<S> View for PipelineAction<S> {
    type V = ActionModel<S>;

    open spec fn view(&self) -> ActionModel<S> {
        match *self {
            PipelineAction::Receive => ActionModel::Receive,
            PipelineAction::Resample(samples, conversion) => ActionModel::Resample(
                samples@,
                conversion,
            ),
            PipelineAction::Transcribe(samples) => ActionModel::Transcribe(samples@),
            PipelineAction::Forward(text) => ActionModel::Forward(text@),
            PipelineAction::BackOff => ActionModel::BackOff,
            PipelineAction::Exit => ActionModel::Exit,
        }
    }
}

/// How a start request ended.
#[verifier::reject_recursive_types(S)]
pub enum StartOutcome<S> {
    /// A session is running already; nothing has changed.
    AlreadyRunning,
    /// The configured channel capacity is zero or above
    /// [`MAX_CAPACITY`](crate::channel::MAX_CAPACITY); nothing has changed.
    CapacityRejected,
    /// A session is running now.
    Started {
        /// The consuming end of the audio channel, for the consumption loop.
        audio: Receiver<Vec<S>>,
        /// Whether a capture worker is to be started.
        open_device: bool,
    },
}

/// How a stop request ended.
#[derive(Clone, Copy, Debug, PartialEq, Eq, Structural)]
pub enum StopOutcome {
    /// No session was running; nothing has changed.
    NotRunning,
    /// The session has ended.
    Stopped {
        /// Whether a capture worker is to be joined, and the end of capture
        /// reported with [`Orchestrator::capture_ended`].
        join_worker: bool,
    },
}

/// The state of an [`Orchestrator`].
#[verifier::reject_recursive_types(S)]
pub struct OrchestratorModel<S> {
    pub recorder: Recorder<S>,
    pub processor: AudioProcessor<S>,
    pub service: TranscriptionService,
    pub config: AppConfig,
    /// A session is running.
    pub is_active: bool,
    /// The consumption loop has been told to end.
    pub stop_signal: bool,
    /// Receives that have failed since the last block arrived.
    pub consecutive_failures: u32,
}

impl<S> OrchestratorModel<S> {
    /// The capacity the audio channel is opened with.
    pub open spec fn channel_capacity(self) -> usize {
        self.config.audio.performance.channel_buffer_size
    }

    /// Whether a start request begins a session.
    pub open spec fn can_start(self) -> bool {
        !self.is_active && capacity_admissible(self.channel_capacity())
    }

    /// The state after a start request for which `audio_sender` was made.
    pub open spec fn after_start(self, audio_sender: Sender<Vec<S>>) -> Self {
        if self.can_start() {
            OrchestratorModel {
                recorder: self.recorder.after_start(audio_sender),
                is_active: true,
                stop_signal: false,
                consecutive_failures: 0,
                ..self
            }
        } else {
            self
        }
    }

    /// The state after a stop request.
    pub open spec fn after_stop(self) -> Self {
        if self.is_active {
            OrchestratorModel {
                recorder: self.recorder.after_stop_request(),
                is_active: false,
                stop_signal: true,
                ..self
            }
        } else {
            self
        }
    }

    /// What a stop request returns.
    pub open spec fn stop_outcome(self) -> StopOutcome {
        if self.is_active {
            StopOutcome::Stopped { join_worker: self.recorder.stop_joins_worker() }
        } else {
            StopOutcome::NotRunning
        }
    }

    /// The action at the top of the loop: leave once the stop signal is set,
    /// otherwise receive.
    pub open spec fn resume(self) -> ActionModel<S> {
        if self.stop_signal {
            ActionModel::Exit
        } else {
            ActionModel::Receive
        }
    }

    /// The action for samples that are in the engine's format.
    pub open spec fn gate(self, samples: Seq<S>) -> ActionModel<S> {
        match self.service.call_for(samples.len()) {
            EngineCall::Run => ActionModel::Transcribe(samples),
            EngineCall::Skip(_) => self.resume(),
        }
    }

    /// The action for a block that has arrived.
    pub open spec fn on_block(self, chunk: Seq<S>) -> ActionModel<S> {
        match self.processor.settings().segment_of(self.processor.buffered(), chunk) {
            None => self.resume(),
            Some(samples) => match self.processor.settings().conversion_needed() {
                Some(conversion) => ActionModel::Resample(samples, conversion),
                None => self.gate(samples),
            },
        }
    }

    /// The failure count after a failed receive.
    pub open spec fn failures_after_miss(self) -> u32 {
        if self.consecutive_failures < u32::MAX {
            (self.consecutive_failures + 1) as u32
        } else {
            self.consecutive_failures
        }
    }

    /// The action that answers `event`.
    pub open spec fn action_for(self, event: EventModel<S>) -> ActionModel<S> {
        match event {
            EventModel::Ready => self.resume(),
            EventModel::Received(Some(chunk)) => self.on_block(chunk),
            EventModel::Received(None) => if self.failures_after_miss()
                > MAX_CONSECUTIVE_FAILURES {
                ActionModel::Exit
            } else {
                ActionModel::BackOff
            },
            EventModel::Resampled(samples) => self.gate(samples),
            EventModel::Transcribed(Some(text)) => ActionModel::Forward(text),
            EventModel::Transcribed(None) => self.resume(),
        }
    }

    /// The failure count after `event`: zero once a block has arrived, one
    /// more after a failed receive, unchanged otherwise.
    pub open spec fn failures_after(self, event: EventModel<S>) -> u32 {
        match event {
            EventModel::Received(Some(_)) => 0,
            EventModel::Received(None) => self.failures_after_miss(),
            _ => self.consecutive_failures,
        }
    }

    /// The samples the processor holds after `event`.
    pub open spec fn buffered_after(self, event: EventModel<S>) -> Seq<S> {
        match event {
            EventModel::Received(Some(chunk)) => self.processor.settings().buffer_after(
                self.processor.buffered(),
                chunk,
            ),
            _ => self.processor.buffered(),
        }
    }
}

/// Owns the components of the pipeline and the state of a session.
#[verifier::reject_recursive_types(S)]
pub struct Orchestrator<S> {
    recorder: Recorder<S>,
    processor: AudioProcessor<S>,
    transcription_service: TranscriptionService,
    app_config: AppConfig,
    is_active: bool,
    stop_signal: bool,
    consecutive_failures: u32,
}

impl<S> View for Orchestrator<S> {
    type V = OrchestratorModel<S>;

    closed spec fn view(&self) -> OrchestratorModel<S> {
        OrchestratorModel {
            recorder: self.recorder,
            processor: self.processor,
            service: self.transcription_service,
            config: self.app_config,
            is_active: self.is_active,
            stop_signal: self.stop_signal,
            consecutive_failures: self.consecutive_failures,
        }
    }
}

impl<S> Orchestrator<S> {
    /// An idle orchestrator around the given components.
    pub fn new(
        recorder: Recorder<S>,
        processor: AudioProcessor<S>,
        transcription_service: TranscriptionService,
        app_config: AppConfig,
    ) -> (orchestrator: Self)
        ensures
            orchestrator@ == (OrchestratorModel {
                recorder,
                processor,
                service: transcription_service,
                config: app_config,
                is_active: false,
                stop_signal: false,
                consecutive_failures: 0,
            }),
    {
        Orchestrator {
            recorder,
            processor,
            transcription_service,
            app_config,
            is_active: false,
            stop_signal: false,
            consecutive_failures: 0,
        }
    }

    /// Whether a session is running.
    pub fn is_active(&self) -> (active: bool)
        ensures
            active == self@.is_active,
    {
        self.is_active
    }

    /// Whether the consumption loop has been told to end.
    pub fn stop_requested(&self) -> (stop: bool)
        ensures
            stop == self@.stop_signal,
    {
        self.stop_signal
    }

    /// Receives that have failed since the last block arrived.
    pub fn consecutive_failures(&self) -> (failures: u32)
        ensures
            failures == self@.consecutive_failures,
    {
        self.consecutive_failures
    }

    /// The recorder, for the capture worker.
    pub fn recorder(&self) -> (recorder: &Recorder<S>)
        ensures
            *recorder == self@.recorder,
    {
        &self.recorder
    }

    /// The processor.
    pub fn processor(&self) -> (processor: &AudioProcessor<S>)
        ensures
            *processor == self@.processor,
    {
        &self.processor
    }

    /// The transcription service.
    pub fn transcription_service(&self) -> (service: &TranscriptionService)
        ensures
            *service == self@.service,
    {
        &self.transcription_service
    }

    /// The application settings.
    pub fn config(&self) -> (config: &AppConfig)
        ensures
            *config == self@.config,
    {
        &self.app_config
    }

    /// Begins a session.
    ///
    /// While a session runs, nothing happens. Otherwise the stop signal and the
    /// failure count are cleared, the session is marked as running, a channel
    /// of the configured capacity is opened and the recorder is started with
    /// its producing end. The caller then starts the consumption loop on the
    /// consuming end and, if told so, the capture worker.
    pub fn start(&mut self) -> (outcome: StartOutcome<S>)
        ensures
            outcome is AlreadyRunning <==> old(self)@.is_active,
            outcome is Started <==> old(self)@.can_start(),
            match outcome {
                StartOutcome::AlreadyRunning => old(self)@.is_active && final(self)@ == old(self)@,
                StartOutcome::CapacityRejected => {
                    &&& !old(self)@.is_active
                    &&& !capacity_admissible(old(self)@.channel_capacity())
                    &&& final(self)@ == old(self)@
                },
                StartOutcome::Started { audio, open_device } => {
                    &&& old(self)@.can_start()
                    &&& open_device == old(self)@.recorder.start_opens_device()
                    &&& exists|audio_sender: Sender<Vec<S>>|
                        final(self)@ == old(self)@.after_start(audio_sender)
                    &&& final(self)@.is_active
                    &&& !final(self)@.stop_signal
                    &&& final(self)@.consecutive_failures == 0
                    &&& final(self)@.recorder.state() == RecordingState::Active
                },
            },
    {
        if self.is_active {
            return StartOutcome::AlreadyRunning;
        }
        let capacity: usize = self.app_config.audio.performance.channel_buffer_size;
        if capacity == 0 || capacity > MAX_CAPACITY {
            return StartOutcome::CapacityRejected;
        }
        self.is_active = true;
        self.stop_signal = false;
        self.consecutive_failures = 0;
        let (audio_sender, audio) = channel::<Vec<S>>(capacity);
        let open_device = self.recorder.start_recording(audio_sender);
        assert(self@ == old(self)@.after_start(audio_sender));
        StartOutcome::Started { audio, open_device }
    }

    /// Ends the session.
    ///
    /// While no session runs, nothing happens. Otherwise the stop signal is
    /// set for the consumption loop, which leaves at its next turn; the
    /// session is marked as idle; and the recorder is asked to stop, so that
    /// the capture worker ends at its next poll of
    /// [`Recorder::should_stop`].
    pub fn stop(&mut self) -> (outcome: StopOutcome)
        ensures
            final(self)@ == old(self)@.after_stop(),
            outcome == old(self)@.stop_outcome(),
            !final(self)@.is_active,
            old(self)@.is_active ==> final(self)@.stop_signal && final(self)@.recorder.state()
                != RecordingState::Active,
            !old(self)@.is_active ==> final(self)@ == old(self)@ && outcome
                == StopOutcome::NotRunning,
    {
        if !self.is_active {
            return StopOutcome::NotRunning;
        }
        self.stop_signal = true;
        self.is_active = false;
        let join_worker = self.recorder.stop_recording();
        StopOutcome::Stopped { join_worker }
    }

    /// Records that the capture worker has ended, after a stop or because the
    /// device could not be set up: the recorder is inactive again.
    pub fn capture_ended(&mut self)
        ensures
            final(self)@ == (OrchestratorModel {
                recorder: old(self)@.recorder.after_reset(),
                ..old(self)@
            }),
            final(self)@.recorder.state() == RecordingState::Inactive,
    {
        self.recorder.reset();
    }

    /// One turn of the consumption loop: takes what happened and says what to
    /// do next.
    ///
    /// A block that has arrived clears the failure count and goes through the
    /// processor; a segment that comes out is sent to the resampler if its
    /// format differs from the engine's, and to the engine if it is long
    /// enough. Text from the engine is forwarded. A failed receive is counted:
    /// up to [`MAX_CONSECUTIVE_FAILURES`] in a row the loop backs off, one more
    /// ends it. Whenever the loop would go back to receiving and the stop
    /// signal is set, it ends instead.
    pub fn step(&mut self, event: PipelineEvent<S>) -> (action: PipelineAction<S>)
        ensures
            action@ == old(self)@.action_for(event@),
            final(self)@.consecutive_failures == old(self)@.failures_after(event@),
            final(self)@.processor.buffered() == old(self)@.buffered_after(event@),
            final(self)@.processor.settings() == old(self)@.processor.settings(),
            final(self)@.recorder == old(self)@.recorder,
            final(self)@.service == old(self)@.service,
            final(self)@.config == old(self)@.config,
            final(self)@.is_active == old(self)@.is_active,
            final(self)@.stop_signal == old(self)@.stop_signal,
    {
        match event {
            PipelineEvent::Ready => self.resume(),
            PipelineEvent::Received(Some(chunk)) => {
                self.consecutive_failures = 0;
                match self.processor.process(chunk) {
                    None => self.resume(),
                    Some(segment) => match segment.conversion {
                        Some(conversion) => PipelineAction::Resample(segment.samples, conversion),
                        None => self.gate(segment.samples),
                    },
                }
            },
            PipelineEvent::Received(None) => {
                if self.consecutive_failures < u32::MAX {
                    self.consecutive_failures = self.consecutive_failures + 1;
                }
                if self.consecutive_failures > MAX_CONSECUTIVE_FAILURES {
                    PipelineAction::Exit
                } else {
                    PipelineAction::BackOff
                }
            },
            PipelineEvent::Resampled(samples) => self.gate(samples),
            PipelineEvent::Transcribed(Some(text)) => PipelineAction::Forward(text),
            PipelineEvent::Transcribed(None) => self.resume(),
        }
    }

    fn resume(&self) -> (action: PipelineAction<S>)
        ensures
            action@ == self@.resume(),
    {
        if self.stop_signal {
            PipelineAction::Exit
        } else {
            PipelineAction::Receive
        }
    }

    fn gate(&self, samples: Vec<S>) -> (action: PipelineAction<S>)
        ensures
            action@ == self@.gate(samples@),
    {
        match self.transcription_service.transcribe(samples.as_slice()) {
            EngineCall::Run => PipelineAction::Transcribe(samples),
            EngineCall::Skip(_) => self.resume(),
        }
    }
}

/// A stop request on an idle orchestrator changes nothing.
pub proof fn lemma_stop_when_idle_is_noop<S>(state: OrchestratorModel<S>)
    requires
        !state.is_active,
    ensures
        state.after_stop() == state,
        state.stop_outcome() == StopOutcome::NotRunning,
{
}

/// A stop request on a running orchestrator leaves it idle, with the stop
/// signal set and the recorder no longer active: the consumption loop leaves at
/// its next turn, the capture worker at its next poll. A second stop request
/// changes nothing more.
pub proof fn lemma_stop_when_running<S>(state: OrchestratorModel<S>)
    requires
        state.is_active,
    ensures
        !state.after_stop().is_active,
        state.after_stop().stop_signal,
        state.after_stop().recorder.state() != RecordingState::Active,
        state.after_stop().resume() == ActionModel::<S>::Exit,
        state.after_stop().action_for(EventModel::Ready) == ActionModel::<S>::Exit,
        state.stop_outcome() == (StopOutcome::Stopped {
            join_worker: state.recorder.state() == RecordingState::Active,
        }),
        state.after_stop().after_stop() == state.after_stop(),
        state.after_stop().processor == state.processor,
        state.after_stop().service == state.service,
        state.after_stop().config == state.config,
{
    lemma_stop_request_ends_capture(state.recorder);
}

/// A start request on a running orchestrator changes nothing, so two start
/// requests in a row begin one session.
pub proof fn lemma_start_when_running_is_noop<S>(
    state: OrchestratorModel<S>,
    first: Sender<Vec<S>>,
    second: Sender<Vec<S>>,
)
    ensures
        state.is_active ==> state.after_start(first) == state,
        state.can_start() ==> state.after_start(first).is_active,
        state.after_start(first).after_start(second) == state.after_start(first),
{
}

/// A session that is started and then stopped is idle again and can be
/// started anew.
pub proof fn lemma_stopped_session_can_restart<S>(
    state: OrchestratorModel<S>,
    audio_sender: Sender<Vec<S>>,
)
    requires
        state.can_start(),
    ensures
        state.after_start(audio_sender).after_stop().can_start(),
        state.after_start(audio_sender).after_stop().recorder.state()
            == RecordingState::StopRequested,
{
    lemma_second_start_is_noop(state.recorder, audio_sender, audio_sender);
    lemma_stop_request_ends_capture(state.recorder.after_start(audio_sender));
}

/// The loop puts up with `MAX_CONSECUTIVE_FAILURES` failed receives in a row
/// and ends at the next one; a block that arrives in between clears the count.
pub proof fn lemma_failure_budget<S>(state: OrchestratorModel<S>, chunk: Seq<S>)
    ensures
        state.action_for(EventModel::Received(None)) == (if state.consecutive_failures
            >= MAX_CONSECUTIVE_FAILURES {
            ActionModel::<S>::Exit
        } else {
            ActionModel::<S>::BackOff
        }),
        state.consecutive_failures < u32::MAX ==> state.failures_after(
            EventModel::Received(None),
        ) == state.consecutive_failures + 1,
        state.failures_after(EventModel::Received(Some(chunk))) == 0,
{
}

/// The engine is asked for nothing but segments: a block leads to resampling
/// or transcription only if it brings the buffer to the emission threshold,
/// and samples in the engine's format reach the engine only if the service
/// lets them through.
pub proof fn lemma_only_segments_reach_engine<S>(
    state: OrchestratorModel<S>,
    chunk: Seq<S>,
    samples: Seq<S>,
)
    ensures
        state.action_for(EventModel::Received(Some(chunk))) is Resample || state.action_for(
            EventModel::Received(Some(chunk)),
        ) is Transcribe ==> state.processor.settings().ready(
            (state.processor.buffered() + chunk).len(),
        ),
        state.action_for(EventModel::Resampled(samples)) is Transcribe <==> state.service.call_for(
            samples.len(),
        ) == EngineCall::Run,
        samples.len() < state.service.settings().min_samples() ==> state.action_for(
            EventModel::Resampled(samples),
        ) == state.resume(),
        !(state.action_for(EventModel::Resampled(samples)) is Forward),
        !(state.action_for(EventModel::Received(Some(chunk))) is Forward),
{
}

} // verus!
