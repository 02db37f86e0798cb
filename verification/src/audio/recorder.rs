//! Lifecycle of a capture session.

use crate::channel::{try_send, SendOutcome};
use tokio::sync::mpsc::Sender;
use vstd::prelude::*;
use vstd::slice::slice_to_vec;

verus! {

/// Settings of a [`Recorder`].
#[derive(Clone, Copy, Debug, PartialEq, Eq, Structural)]
pub struct RecorderConfig {
    /// Number of channels to record (1 = mono, 2 = stereo).
    pub channels: u16,
    /// Sample rate to record at.
    pub sample_rate: u32,
}

impl RecorderConfig {
    /// The settings that `default` gives: mono at 44.1 kHz.
    pub open spec fn default_settings() -> RecorderConfig {
        RecorderConfig { channels: 1, sample_rate: 44100 }
    }
}

impl Default for RecorderConfig {
    fn default() -> (config: Self)
        ensures
            config == RecorderConfig::default_settings(),
    {
        RecorderConfig { channels: 1, sample_rate: 44100 }
    }
}

/// Where a capture session stands.
#[derive(Clone, Copy, Debug, PartialEq, Eq, Structural)]
pub enum RecordingState {
    /// No capture is running.
    Inactive,
    /// A capture worker is running, or about to.
    Active,
    /// The capture worker has been asked to end and has not yet been joined.
    StopRequested,
}

/// What became of a block of samples that the device delivered.
#[derive(Clone, Copy, Debug, PartialEq, Eq, Structural)]
pub enum Delivery {
    /// The block is on its way to the consumer.
    Sent,
    /// The session is not active; the block was discarded untouched.
    Ignored,
    /// The consumer is falling behind; the block was discarded.
    DroppedFull,
    /// The consumer is gone; the block was discarded.
    DroppedClosed,
}

impl Delivery {
    /// The fate of a block that was offered to the channel with `outcome`.
    pub open spec fn of_outcome(outcome: SendOutcome) -> Delivery {
        match outcome {
            SendOutcome::Sent => Delivery::Sent,
            SendOutcome::Full => Delivery::DroppedFull,
            SendOutcome::Closed => Delivery::DroppedClosed,
        }
    }

    /// The fate of a block that was offered to the channel with `outcome`.
    pub fn from_outcome(outcome: SendOutcome) -> (delivery: Delivery)
        ensures
            delivery == Delivery::of_outcome(outcome),
    {
        match outcome {
            SendOutcome::Sent => Delivery::Sent,
            SendOutcome::Full => Delivery::DroppedFull,
            SendOutcome::Closed => Delivery::DroppedClosed,
        }
    }
}

/// The state a capture session shares with its worker: where the session
/// stands and where captured blocks go.
///
/// The recorder decides; the caller owns the device and the worker thread and
/// follows what `start_recording` and `stop_recording` return.
#[verifier::reject_recursive_types(S)]
pub struct Recorder<S> {
    state: RecordingState,
    audio_sender: Option<Sender<Vec<S>>>,
    config: RecorderConfig,
}

impl<S> Recorder<S> {
    #[verifier::type_invariant]
    spec fn well_formed(&self) -> bool {
        (self.state is Inactive) == (self.audio_sender is None)
    }

    /// Where the session stands.
    pub closed spec fn state(&self) -> RecordingState {
        self.state
    }

    /// The channel end that captured blocks are sent to, while there is one.
    pub closed spec fn sender(&self) -> Option<Sender<Vec<S>>> {
        self.audio_sender
    }

    /// The settings the recorder was made with.
    pub closed spec fn settings(&self) -> RecorderConfig {
        self.config
    }

    /// A sender is held exactly while the session is not inactive.
    pub open spec fn consistent(&self) -> bool {
        (self.state() is Inactive) == (self.sender() is None)
    }

    /// Whether a start request in this state opens the device.
    pub open spec fn start_opens_device(&self) -> bool {
        self.state() != RecordingState::Active
    }

    /// The recorder after a start request with `audio_sender`.
    pub closed spec fn after_start(self, audio_sender: Sender<Vec<S>>) -> Self {
        if self.state == RecordingState::Active {
            self
        } else {
            Recorder {
                state: RecordingState::Active,
                audio_sender: Some(audio_sender),
                config: self.config,
            }
        }
    }

    /// Whether a stop request in this state has a worker to join.
    pub open spec fn stop_joins_worker(&self) -> bool {
        self.state() == RecordingState::Active
    }

    /// The recorder after a stop request.
    pub closed spec fn after_stop_request(self) -> Self {
        if self.state == RecordingState::Active {
            Recorder {
                state: RecordingState::StopRequested,
                audio_sender: self.audio_sender,
                config: self.config,
            }
        } else {
            self
        }
    }

    /// The recorder once its worker has ended.
    pub closed spec fn after_reset(self) -> Self {
        Recorder { state: RecordingState::Inactive, audio_sender: None, config: self.config }
    }

    /// An inactive recorder with the default settings.
    pub fn new() -> (recorder: Self)
        ensures
            recorder.state() == RecordingState::Inactive,
            recorder.sender() is None,
            recorder.settings() == RecorderConfig::default_settings(),
    {
        Self::with_config(RecorderConfig::default())
    }

    /// An inactive recorder with the given settings.
    pub fn with_config(config: RecorderConfig) -> (recorder: Self)
        ensures
            recorder.state() == RecordingState::Inactive,
            recorder.sender() is None,
            recorder.settings() == config,
    {
        Recorder { state: RecordingState::Inactive, audio_sender: None, config }
    }

    /// Where the session stands.
    pub fn recording_state(&self) -> (state: RecordingState)
        ensures
            state == self.state(),
            self.consistent(),
    {
        proof {
            use_type_invariant(self);
        }
        self.state
    }

    /// The settings the recorder was made with.
    pub fn config(&self) -> (config: RecorderConfig)
        ensures
            config == self.settings(),
    {
        self.config
    }

    /// Asks for a capture session that sends its blocks to `audio_sender`.
    ///
    /// While a session is active nothing changes, `audio_sender` is dropped and
    /// `false` is returned. Otherwise the session becomes active with
    /// `audio_sender` and `true` is returned: the caller then starts the worker
    /// that opens the device.
    pub fn start_recording(&mut self, audio_sender: Sender<Vec<S>>) -> (open_device: bool)
        ensures
            *final(self) == old(self).after_start(audio_sender),
            open_device == old(self).start_opens_device(),
            final(self).state() == RecordingState::Active,
            final(self).settings() == old(self).settings(),
            old(self).state() == RecordingState::Active ==> *final(self) == *old(self),
            old(self).state() != RecordingState::Active ==> final(self).sender() == Some(
                audio_sender,
            ),
    {
        if self.state == RecordingState::Active {
            return false;
        }
        *self = Recorder {
            state: RecordingState::Active,
            audio_sender: Some(audio_sender),
            config: self.config,
        };
        true
    }

    /// The stop predicate that the capture worker polls: the worker ends, and
    /// releases the device, once this is `true`.
    pub fn should_stop(&self) -> (stop: bool)
        ensures
            stop == (self.state() != RecordingState::Active),
    {
        self.state != RecordingState::Active
    }

    /// Handles one block that the device delivered.
    ///
    /// Unless the session is active the block is discarded as it is. Otherwise
    /// a copy of it is offered to the channel without waiting, and discarded if
    /// the channel is full or closed.
    pub fn deliver(&self, block: &[S]) -> (delivery: Delivery) where S: Copy
        ensures
            self.state() != RecordingState::Active ==> delivery == Delivery::Ignored,
            self.state() == RecordingState::Active ==> exists|outcome: SendOutcome|
                delivery == Delivery::of_outcome(outcome),
            self.state() == RecordingState::Active ==> delivery != Delivery::Ignored,
    {
        proof {
            use_type_invariant(self);
        }
        if self.state != RecordingState::Active {
            return Delivery::Ignored;
        }
        match &self.audio_sender {
            Some(sender) => {
                let outcome = try_send(sender, slice_to_vec(block));
                Delivery::from_outcome(outcome)
            },
            None => Delivery::Ignored,
        }
    }

    /// Asks the session to end.
    ///
    /// Unless a session is active nothing changes and `false` is returned.
    /// Otherwise the stop is requested and `true` is returned: the caller then
    /// joins the worker and calls [`Recorder::reset`].
    pub fn stop_recording(&mut self) -> (join_worker: bool)
        ensures
            *final(self) == old(self).after_stop_request(),
            join_worker == old(self).stop_joins_worker(),
            final(self).settings() == old(self).settings(),
            final(self).sender() == old(self).sender(),
            old(self).state() == RecordingState::Active ==> final(self).state()
                == RecordingState::StopRequested,
            old(self).state() != RecordingState::Active ==> *final(self) == *old(self),
    {
        proof {
            use_type_invariant(&*self);
        }
        if self.state != RecordingState::Active {
            return false;
        }
        self.state = RecordingState::StopRequested;
        true
    }

    /// Records that the worker has ended: after it was joined, or because it
    /// could not set up the device. The session is inactive again and its
    /// sender is dropped.
    pub fn reset(&mut self)
        ensures
            *final(self) == old(self).after_reset(),
            final(self).state() == RecordingState::Inactive,
            final(self).sender() is None,
            final(self).settings() == old(self).settings(),
    {
        *self = Recorder {
            state: RecordingState::Inactive,
            audio_sender: None,
            config: self.config,
        };
    }
}

/// Two start requests with no stop between them open the device at most once:
/// after the first the session is active, and the second opens nothing and
/// leaves the recorder as the first left it.
pub proof fn lemma_second_start_is_noop<S>(
    recorder: Recorder<S>,
    first: Sender<Vec<S>>,
    second: Sender<Vec<S>>,
)
    ensures
        recorder.after_start(first).state() == RecordingState::Active,
        recorder.after_start(first).settings() == recorder.settings(),
        recorder.state() == RecordingState::Active ==> recorder.after_start(first) == recorder,
        recorder.state() != RecordingState::Active ==> recorder.after_start(first).sender()
            == Some(first),
        !recorder.after_start(first).start_opens_device(),
        recorder.after_start(first).after_start(second) == recorder.after_start(first),
{
}

/// A stop request on a session that is not active changes nothing, and a
/// session that was started, asked to stop and reset is inactive and holds no
/// sender.
pub proof fn lemma_stop_releases_session<S>(recorder: Recorder<S>, audio_sender: Sender<Vec<S>>)
    ensures
        recorder.state() != RecordingState::Active ==> recorder.after_stop_request() == recorder
            && !recorder.stop_joins_worker(),
        recorder.after_start(audio_sender).stop_joins_worker(),
        recorder.after_start(audio_sender).after_stop_request().state()
            == RecordingState::StopRequested,
        recorder.after_start(audio_sender).after_stop_request().after_reset().state()
            == RecordingState::Inactive,
        recorder.after_start(audio_sender).after_stop_request().after_reset().sender() is None,
{
}

/// Whatever state a recorder is in, a stop request leaves it in a state in
/// which the worker's stop predicate holds, and keeps its settings and sender.
pub proof fn lemma_stop_request_ends_capture<S>(recorder: Recorder<S>)
    ensures
        recorder.after_stop_request().state() != RecordingState::Active,
        recorder.state() == RecordingState::Active ==> recorder.after_stop_request().state()
            == RecordingState::StopRequested,
        recorder.after_stop_request().sender() == recorder.sender(),
        recorder.after_stop_request().settings() == recorder.settings(),
        recorder.after_stop_request().after_stop_request() == recorder.after_stop_request(),
{
}

} // verus!
