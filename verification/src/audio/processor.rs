//! Accumulation of captured sample blocks into segments.

use vstd::prelude::*;

verus! {

/// Settings of an [`AudioProcessor`], fixed for a session.
#[derive(Clone, Copy, Debug)]
pub struct ProcessorConfig {
    /// Sample rate the consumer of segments expects.
    pub target_sample_rate: u32,
    /// Channel count the consumer of segments expects.
    pub target_channels: u16,
    /// Sample rate of the incoming blocks.
    pub source_sample_rate: u32,
    /// Channel count of the incoming blocks.
    pub source_channels: u16,
    /// Number of buffered samples from which a segment is emitted.
    pub min_samples_for_processing: usize,
    /// Number of samples above which only the most recent ones are kept.
    pub max_buffer_size: usize,
}

/// A rate conversion that a segment still has to go through.
#[derive(Clone, Copy, Debug, PartialEq, Eq, Structural)]
pub struct Conversion {
    /// Rate at which the samples were captured.
    pub source_rate: u32,
    /// Rate to convert to.
    pub target_rate: u32,
    /// Number of interleaved channels in the samples.
    pub channels: u16,
}

/// Samples handed out by [`AudioProcessor::process`].
#[derive(Debug)]
pub struct Segment<S> {
    /// The samples, oldest first, in the source format.
    pub samples: Vec<S>,
    /// The conversion to apply before use, or `None` if the samples already
    /// are in the target format.
    pub conversion: Option<Conversion>,
}

impl ProcessorConfig {
    /// The limit on the buffer is no smaller than the emission threshold.
    pub open spec fn valid(&self) -> bool {
        self.min_samples_for_processing <= self.max_buffer_size
    }

    /// Source and target format differ.
    pub open spec fn formats_differ(&self) -> bool {
        self.source_sample_rate != self.target_sample_rate || self.source_channels
            != self.target_channels
    }

    /// The conversion that every emitted segment needs.
    pub open spec fn conversion_needed(&self) -> Option<Conversion> {
        if self.formats_differ() {
            Some(
                Conversion {
                    source_rate: self.source_sample_rate,
                    target_rate: self.target_sample_rate,
                    channels: self.source_channels,
                },
            )
        } else {
            None
        }
    }

    /// Whether `len` accumulated samples are enough to emit a segment.
    pub open spec fn ready(&self, len: nat) -> bool {
        len >= self.min_samples_for_processing
    }

    /// `samples` after the size limit has been applied: unchanged while within
    /// the limit, otherwise the most recent `min_samples_for_processing` of
    /// them, in the order in which they arrived.
    pub open spec fn retained<S>(&self, samples: Seq<S>) -> Seq<S> {
        if samples.len() > self.max_buffer_size {
            samples.subrange(
                samples.len() - self.min_samples_for_processing,
                samples.len() as int,
            )
        } else {
            samples
        }
    }

    /// The samples emitted when `chunk` arrives while `buffered` is held.
    pub open spec fn segment_of<S>(&self, buffered: Seq<S>, chunk: Seq<S>) -> Option<Seq<S>> {
        if self.ready((buffered + chunk).len()) {
            Some(self.retained(buffered + chunk))
        } else {
            None
        }
    }

    /// The samples still held after `chunk` has arrived while `buffered` was held.
    pub open spec fn buffer_after<S>(&self, buffered: Seq<S>, chunk: Seq<S>) -> Seq<S> {
        if self.ready((buffered + chunk).len()) {
            Seq::empty()
        } else {
            buffered + chunk
        }
    }

    /// The samples still held after each of `chunks` has arrived in turn.
    pub open spec fn buffer_after_all<S>(&self, buffered: Seq<S>, chunks: Seq<Seq<S>>) -> Seq<S>
        decreases chunks.len(),
    {
        if chunks.len() == 0 {
            buffered
        } else {
            self.buffer_after(
                self.buffer_after_all(buffered, chunks.drop_last()),
                chunks.last(),
            )
        }
    }

    /// The samples of all segments emitted while each of `chunks` arrives in
    /// turn, in the order of emission.
    pub open spec fn emitted_by_all<S>(&self, buffered: Seq<S>, chunks: Seq<Seq<S>>) -> Seq<S>
        decreases chunks.len(),
    {
        if chunks.len() == 0 {
            Seq::empty()
        } else {
            self.emitted_by_all(buffered, chunks.drop_last()) + (match self.segment_of(
                self.buffer_after_all(buffered, chunks.drop_last()),
                chunks.last(),
            ) {
                Some(samples) => samples,
                None => Seq::empty(),
            })
        }
    }

    /// No arrival among `chunks` brings the buffer over its limit.
    pub open spec fn within_limit<S>(&self, buffered: Seq<S>, chunks: Seq<Seq<S>>) -> bool
        decreases chunks.len(),
    {
        chunks.len() > 0 ==> {
            &&& self.within_limit(buffered, chunks.drop_last())
            &&& self.buffer_after_all(buffered, chunks.drop_last()).len() + chunks.last().len()
                <= self.max_buffer_size
        }
    }

    /// A buffer content that can be met between two calls of `process`.
    pub open spec fn at_rest<S>(&self, buffered: Seq<S>) -> bool {
        buffered.len() == 0 || buffered.len() < self.min_samples_for_processing
    }

    /// The settings that `default` gives.
    pub open spec fn default_settings() -> ProcessorConfig {
        ProcessorConfig {
            target_sample_rate: 16000,
            target_channels: 1,
            source_sample_rate: 44100,
            source_channels: 1,
            min_samples_for_processing: 16000,
            max_buffer_size: 160000,
        }
    }

    /// Tells whether the settings can be handed to a processor.
    pub fn is_valid(&self) -> (ok: bool)
        ensures
            ok == self.valid(),
    {
        self.min_samples_for_processing <= self.max_buffer_size
    }

    /// The conversion that segments of this format need, if any.
    pub fn conversion(&self) -> (plan: Option<Conversion>)
        ensures
            plan == self.conversion_needed(),
    {
        if self.source_sample_rate != self.target_sample_rate || self.source_channels
            != self.target_channels {
            Some(
                Conversion {
                    source_rate: self.source_sample_rate,
                    target_rate: self.target_sample_rate,
                    channels: self.source_channels,
                },
            )
        } else {
            None
        }
    }
}

impl Default for ProcessorConfig {
    /// Mono capture at 44.1 kHz, segments of at least one second at 16 kHz,
    /// at most ten such seconds buffered.
    fn default() -> (config: Self)
        ensures
            config == ProcessorConfig::default_settings(),
    {
        ProcessorConfig {
            target_sample_rate: 16000,
            target_channels: 1,
            source_sample_rate: 44100,
            source_channels: 1,
            min_samples_for_processing: 16000,
            max_buffer_size: 160000,
        }
    }
}

/// Buffers sample blocks and hands them out as segments.
///
/// The processor never looks inside a sample, so it works for any sample type
/// `S`.
pub struct AudioProcessor<S> {
    buffer: Vec<S>,
    config: ProcessorConfig,
}

impl<S> AudioProcessor<S> {
    #[verifier::type_invariant]
    spec fn well_formed(&self) -> bool {
        self.config.valid() && self.config.at_rest(self.buffer@)
    }

    /// The samples currently buffered, oldest first.
    pub closed spec fn buffered(&self) -> Seq<S> {
        self.buffer@
    }

    /// The settings the processor was made with.
    pub closed spec fn settings(&self) -> ProcessorConfig {
        self.config
    }

    /// A processor with the default settings and nothing buffered.
    pub fn new() -> (processor: Self)
        ensures
            processor.settings() == ProcessorConfig::default_settings(),
            processor.buffered() == Seq::<S>::empty(),
    {
        Self::with_config(ProcessorConfig::default())
    }

    /// A processor with the given settings and nothing buffered, or `None` for
    /// settings whose buffer limit is below the emission threshold.
    pub fn try_with_config(config: ProcessorConfig) -> (made: Option<Self>)
        ensures
            made is Some <==> config.valid(),
            made matches Some(processor) ==> processor.settings() == config
                && processor.buffered() == Seq::<S>::empty(),
    {
        if config.is_valid() {
            Some(Self::with_config(config))
        } else {
            None
        }
    }

    /// A processor with the given settings and nothing buffered.
    pub fn with_config(config: ProcessorConfig) -> (processor: Self)
        requires
            config.valid(),
        ensures
            processor.settings() == config,
            processor.buffered() == Seq::<S>::empty(),
    {
        AudioProcessor { buffer: Vec::new(), config }
    }

    /// Number of samples currently buffered.
    pub fn buffered_len(&self) -> (len: usize)
        ensures
            len == self.buffered().len(),
            len <= self.settings().max_buffer_size,
            self.settings().at_rest(self.buffered()),
            self.settings().valid(),
    {
        proof {
            use_type_invariant(self);
        }
        self.buffer.len()
    }

    /// The settings the processor was made with.
    pub fn config(&self) -> (config: ProcessorConfig)
        ensures
            config == self.settings(),
            config.valid(),
    {
        proof {
            use_type_invariant(self);
        }
        self.config
    }

    /// Takes in one block of samples.
    ///
    /// The block joins the buffer. Once the buffer holds at least
    /// `min_samples_for_processing` samples, all of them leave as one segment
    /// and the buffer is empty again; if it holds more than `max_buffer_size`,
    /// only the most recent `min_samples_for_processing` leave and the older
    /// ones are discarded. The segment carries the conversion it needs when
    /// source and target format differ, and none when they are the same.
    pub fn process(&mut self, chunk: Vec<S>) -> (out: Option<Segment<S>>)
        ensures
            final(self).settings() == old(self).settings(),
            final(self).buffered() == old(self).settings().buffer_after(
                old(self).buffered(),
                chunk@,
            ),
            match out {
                Some(segment) => {
                    &&& old(self).settings().segment_of(old(self).buffered(), chunk@) == Some(
                        segment.samples@,
                    )
                    &&& segment.conversion == old(self).settings().conversion_needed()
                },
                None => old(self).settings().segment_of(old(self).buffered(), chunk@) is None,
            },
            out is Some <==> old(self).buffered().len() + chunk@.len() >= old(
                self,
            ).settings().min_samples_for_processing,
            out is Some ==> final(self).buffered().len() == 0,
            out is None ==> final(self).buffered().len() == old(self).buffered().len()
                + chunk@.len(),
            final(self).buffered().len() <= old(self).settings().max_buffer_size,
    {
        proof {
            use_type_invariant(&*self);
        }
        let mut chunk = chunk;
        let ghost arrived = chunk@;
        let ghost all = self.buffer@ + chunk@;
        let held: usize = self.buffer.len();
        let incoming: usize = chunk.len();
        let min: usize = self.config.min_samples_for_processing;
        let max: usize = self.config.max_buffer_size;
        let conversion = self.config.conversion();
        if incoming > max - held {
            let mut pending: Vec<S> = Vec::new();
            core::mem::swap(&mut self.buffer, &mut pending);
            let samples = if incoming >= min {
                chunk.split_off(incoming - min)
            } else {
                let mut recent = pending.split_off(held - (min - incoming));
                recent.append(&mut chunk);
                recent
            };
            assert(samples@ =~= all.subrange(all.len() - min, all.len() as int));
            Some(Segment { samples, conversion })
        } else if held + incoming < min {
            let mut pending: Vec<S> = Vec::new();
            core::mem::swap(&mut self.buffer, &mut pending);
            pending.append(&mut chunk);
            self.buffer = pending;
            None
        } else {
            let mut samples: Vec<S> = Vec::new();
            core::mem::swap(&mut self.buffer, &mut samples);
            samples.append(&mut chunk);
            Some(Segment { samples, conversion })
        }
    }
}

/// Whatever blocks arrive, and in whatever number, the buffer holds at most
/// `max_buffer_size` samples after each of them, and fewer than a segment's
/// worth unless it is empty.
pub proof fn lemma_buffer_stays_bounded<S>(
    config: ProcessorConfig,
    buffered: Seq<S>,
    chunks: Seq<Seq<S>>,
)
    requires
        config.valid(),
        config.at_rest(buffered),
    ensures
        config.at_rest(config.buffer_after_all(buffered, chunks)),
        config.buffer_after_all(buffered, chunks).len() <= config.max_buffer_size,
    decreases chunks.len(),
{
    if chunks.len() > 0 {
        lemma_buffer_stays_bounded(config, buffered, chunks.drop_last());
    }
}

/// A block leaves as part of a segment exactly when it brings the buffer to
/// the emission threshold; the buffer is then empty, and otherwise has grown
/// by the block.
pub proof fn lemma_emission_threshold<S>(config: ProcessorConfig, buffered: Seq<S>, chunk: Seq<S>)
    requires
        config.valid(),
    ensures
        config.segment_of(buffered, chunk) is Some <==> buffered.len() + chunk.len()
            >= config.min_samples_for_processing,
        config.segment_of(buffered, chunk) is Some ==> config.buffer_after(buffered, chunk).len()
            == 0,
        config.segment_of(buffered, chunk) is None ==> config.buffer_after(buffered, chunk)
            == buffered + chunk,
        config.segment_of(buffered, chunk) matches Some(samples) ==> {
            &&& samples.len() >= config.min_samples_for_processing
            &&& samples.len() <= buffered.len() + chunk.len()
            &&& buffered.len() + chunk.len() <= config.max_buffer_size ==> samples == buffered
                + chunk
            &&& buffered.len() + chunk.len() > config.max_buffer_size ==> samples.len()
                == config.min_samples_for_processing
        },
{
}

/// All of `chunks` one after the other.
pub open spec fn joined<S>(chunks: Seq<Seq<S>>) -> Seq<S>
    decreases chunks.len(),
{
    if chunks.len() == 0 {
        Seq::empty()
    } else {
        joined(chunks.drop_last()) + chunks.last()
    }
}

/// As long as the buffer stays within its limit, nothing is lost and nothing
/// comes twice: the emitted segments followed by what is still buffered are
/// the samples that were buffered at first followed by all that arrived, in
/// the same order.
pub proof fn lemma_segments_cover_input<S>(
    config: ProcessorConfig,
    buffered: Seq<S>,
    chunks: Seq<Seq<S>>,
)
    requires
        config.valid(),
        config.within_limit(buffered, chunks),
    ensures
        config.emitted_by_all(buffered, chunks) + config.buffer_after_all(buffered, chunks)
            == buffered + joined(chunks),
    decreases chunks.len(),
{
    if chunks.len() == 0 {
        assert(Seq::<S>::empty() + buffered =~= buffered + Seq::<S>::empty());
    } else {
        let earlier = chunks.drop_last();
        lemma_segments_cover_input(config, buffered, earlier);
        let emitted = config.emitted_by_all(buffered, earlier);
        let held = config.buffer_after_all(buffered, earlier);
        assert(emitted + held == buffered + joined(earlier));
        assert((emitted + held) + chunks.last() =~= buffered + (joined(earlier) + chunks.last()));
        if config.ready((held + chunks.last()).len()) {
            assert((emitted + (held + chunks.last())) + Seq::<S>::empty() =~= (emitted + held)
                + chunks.last());
        } else {
            assert((emitted + Seq::<S>::empty()) + (held + chunks.last()) =~= (emitted + held)
                + chunks.last());
        }
    }
}

/// With source and target in one format no segment asks for a conversion, and
/// a segment that came about within the buffer's limit is the buffered samples
/// followed by the block, unchanged.
pub proof fn lemma_same_format_passes_through<S>(
    config: ProcessorConfig,
    buffered: Seq<S>,
    chunk: Seq<S>,
)
    requires
        config.source_sample_rate == config.target_sample_rate,
        config.source_channels == config.target_channels,
    ensures
        config.conversion_needed() is None,
        buffered.len() + chunk.len() <= config.max_buffer_size ==> (config.segment_of(
            buffered,
            chunk,
        ) matches Some(samples) ==> samples == buffered + chunk),
{
}

} // verus!
