//! The host's audio-processor handle: a state machine over `Stopped`,
//! `Started` and `Poisoned` that gates the real-time process call.
//!
//! The calls into the plugin itself (start, stop, process) cross the binary
//! interface and are made by the caller; the handle takes what they returned
//! (a [`PluginCall`], or the raw process status) and decides the next state.
use vstd::prelude::*;
use crate::audio::{AudioPortBuffer, InputAudioBuffers, OutputAudioBuffers, has_channels, ports_hold_frames,
    some_channel_of_length};
use crate::event_io::{InputEvents, OutputEvents};

verus! {

/// Raw process status: the plugin failed to process the block.
pub const PROCESS_ERROR: i32 = 0;

/// Raw process status: keep calling process.
pub const PROCESS_CONTINUE: i32 = 1;

/// Raw process status: keep calling process while the input is not quiet.
pub const PROCESS_CONTINUE_IF_NOT_QUIET: i32 = 2;

/// Raw process status: keep calling process while the output tail lasts.
pub const PROCESS_TAIL: i32 = 3;

/// Raw process status: no processing is needed until the next event.
pub const PROCESS_SLEEP: i32 = 4;

/// The errors of the host-side processor handle.
#[derive(Clone, Copy, Debug, PartialEq, Eq, Structural)]
pub enum HostError {
    /// The call needs a started processor, and it is stopped.
    ProcessingStopped,
    /// The call needs a stopped processor, and it is started.
    ProcessingStarted,
    /// An earlier transition failed midway; the handle is unusable.
    ProcessorHandlePoisoned,
    /// The plugin refused to start processing.
    StartProcessingFailed,
    /// The plugin has no process entry point.
    NullProcessFunction,
    /// The plugin reported a failure, or an unknown status, for the block.
    ProcessingFailed,
}

/// The error a plugin reports for a block it could not process.
#[derive(Clone, Copy, Debug, PartialEq, Eq, Structural)]
pub struct ProcessError;

/// What the plugin asks of the host after processing a block.
#[derive(Clone, Copy, Debug, PartialEq, Eq, Structural)]
pub enum ProcessStatus {
    Continue,
    ContinueIfNotQuiet,
    Tail,
    Sleep,
}

impl ProcessStatus {
    pub open spec fn spec_from_raw(raw: i32) -> Option<Result<ProcessStatus, ProcessError>> {
        if raw == PROCESS_ERROR {
            Some(Err(ProcessError))
        } else if raw == PROCESS_CONTINUE {
            Some(Ok(ProcessStatus::Continue))
        } else if raw == PROCESS_CONTINUE_IF_NOT_QUIET {
            Some(Ok(ProcessStatus::ContinueIfNotQuiet))
        } else if raw == PROCESS_TAIL {
            Some(Ok(ProcessStatus::Tail))
        } else if raw == PROCESS_SLEEP {
            Some(Ok(ProcessStatus::Sleep))
        } else {
            None
        }
    }

    pub open spec fn spec_to_raw(self) -> i32 {
        match self {
            ProcessStatus::Continue => PROCESS_CONTINUE,
            ProcessStatus::ContinueIfNotQuiet => PROCESS_CONTINUE_IF_NOT_QUIET,
            ProcessStatus::Tail => PROCESS_TAIL,
            ProcessStatus::Sleep => PROCESS_SLEEP,
        }
    }

    /// Decodes a raw status: a known status, the error status, or `None` for
    /// a value the interface does not define.
    pub fn from_raw(raw: i32) -> (r: Option<Result<ProcessStatus, ProcessError>>)
        ensures
            r == Self::spec_from_raw(raw),
    {
        if raw == PROCESS_ERROR {
            Some(Err(ProcessError))
        } else if raw == PROCESS_CONTINUE {
            Some(Ok(ProcessStatus::Continue))
        } else if raw == PROCESS_CONTINUE_IF_NOT_QUIET {
            Some(Ok(ProcessStatus::ContinueIfNotQuiet))
        } else if raw == PROCESS_TAIL {
            Some(Ok(ProcessStatus::Tail))
        } else if raw == PROCESS_SLEEP {
            Some(Ok(ProcessStatus::Sleep))
        } else {
            None
        }
    }

    pub fn to_raw(self) -> (r: i32)
        ensures
            r == self.spec_to_raw(),
            Self::spec_from_raw(r) == Some(Ok::<ProcessStatus, ProcessError>(self)),
    {
        match self {
            ProcessStatus::Continue => PROCESS_CONTINUE,
            ProcessStatus::ContinueIfNotQuiet => PROCESS_CONTINUE_IF_NOT_QUIET,
            ProcessStatus::Tail => PROCESS_TAIL,
            ProcessStatus::Sleep => PROCESS_SLEEP,
        }
    }
}

/// The outcome of a process call as the host reports it: `None` when the
/// plugin has no process entry point, else the raw status it returned.
pub open spec fn spec_process_outcome(raw: Option<i32>) -> Result<ProcessStatus, HostError> {
    match raw {
        None => Err(HostError::NullProcessFunction),
        Some(x) => match ProcessStatus::spec_from_raw(x) {
            Some(Ok(s)) => Ok(s),
            _ => Err(HostError::ProcessingFailed),
        },
    }
}

/// Turns what the plugin's process entry point returned into the result of
/// the process call. A failed block leaves the processor started.
pub fn process_outcome(raw: Option<i32>) -> (r: Result<ProcessStatus, HostError>)
    ensures
        r == spec_process_outcome(raw),
{
    match raw {
        None => Err(HostError::NullProcessFunction),
        Some(x) => match ProcessStatus::from_raw(x) {
            Some(Ok(s)) => Ok(s),
            _ => Err(HostError::ProcessingFailed),
        },
    }
}

/// The smaller of two optional bounds; a missing bound does not constrain.
pub open spec fn min_bound(a: Option<usize>, b: Option<usize>) -> Option<usize> {
    match (a, b) {
        (Some(x), Some(y)) => Some(if x < y { x } else { y }),
        (Some(x), None) => Some(x),
        (None, y) => y,
    }
}

/// The number of frames one process call covers: the least of the shortest
/// input channel, the shortest output channel and the caller's cap, leaving
/// out those that are absent, and 0 when all are. The record carries it as a
/// 32-bit count, so it saturates there.
pub open spec fn spec_effective_frame_count(
    min_input: Option<usize>,
    min_output: Option<usize>,
    max_frame_count: Option<usize>,
) -> u32 {
    match min_bound(min_bound(min_input, min_output), max_frame_count) {
        Some(m) => if m > u32::MAX {
            u32::MAX
        } else {
            m as u32
        },
        None => 0,
    }
}

fn min_option(a: Option<usize>, b: Option<usize>) -> (r: Option<usize>)
    ensures
        r == min_bound(a, b),
{
    match (a, b) {
        (Some(x), Some(y)) => Some(if x < y { x } else { y }),
        (Some(x), None) => Some(x),
        (None, y) => y,
    }
}

pub fn effective_frame_count(
    min_input: Option<usize>,
    min_output: Option<usize>,
    max_frame_count: Option<usize>,
) -> (r: u32)
    ensures
        r == spec_effective_frame_count(min_input, min_output, max_frame_count),
{
    match min_option(min_option(min_input, min_output), max_frame_count) {
        Some(m) => if m > u32::MAX as usize {
            u32::MAX
        } else {
            m as u32
        },
        None => 0,
    }
}

/// The shortest channel over `ports`, or `None` when no port has a channel.
pub open spec fn spec_min_channel_length<S: Copy>(ports: Seq<AudioPortBuffer<S>>) -> Option<usize> {
    if has_channels(ports) {
        Some(
            choose|m: usize|
                ports_hold_frames(ports, m as nat) && #[trigger] some_channel_of_length(ports, m as nat),
        )
    } else {
        None
    }
}

proof fn lemma_min_channel_length_unique<S: Copy>(ports: Seq<AudioPortBuffer<S>>, m: usize)
    requires
        ports_hold_frames(ports, m as nat),
        some_channel_of_length(ports, m as nat),
    ensures
        spec_min_channel_length(ports) == Some(m),
{
    let (p, c) = choose|p: int, c: int|
        0 <= p < ports.len() && 0 <= c < ports[p].channels@.len() && #[trigger] ports[p].channel_len(c) == m;
    assert(ports[p].channels@.len() > 0);
    let w = choose|w: usize| ports_hold_frames(ports, w as nat) && #[trigger] some_channel_of_length(ports, w as nat);
    let (q, d) = choose|q: int, d: int|
        0 <= q < ports.len() && 0 <= d < ports[q].channels@.len() && #[trigger] ports[q].channel_len(d) == w;
    assert(ports[p].holds_frames(w as nat));
    assert(ports[p].channel_len(c) >= w);
    assert(ports[q].holds_frames(m as nat));
    assert(ports[q].channel_len(d) >= m);
}

/// The shortest input channel, as the process call uses it.
fn min_input_length<S: Copy>(buffers: &InputAudioBuffers<S>) -> (r: Option<usize>)
    ensures
        r == spec_min_channel_length(buffers@),
{
    let r = buffers.min_channel_buffer_length();
    proof {
        if let Some(m) = r {
            lemma_min_channel_length_unique(buffers@, m);
        }
    }
    r
}

/// The shortest output channel, as the process call uses it.
fn min_output_length<S: Copy>(buffers: &OutputAudioBuffers<S>) -> (r: Option<usize>)
    ensures
        r == spec_min_channel_length(buffers@),
{
    let r = buffers.min_channel_buffer_length();
    proof {
        if let Some(m) = r {
            lemma_min_channel_length_unique(buffers@, m);
        }
    }
    r
}

/// The plain record handed to the plugin's process entry point: the block's
/// timing and frame count, and the caller's buffers and event queues.
pub struct ProcessRecord<'r, 'e, X, T> {
    pub steady_time: i64,
    pub frames_count: u32,
    pub transport: Option<&'r T>,
    pub audio_inputs: &'r InputAudioBuffers<X>,
    pub audio_outputs: &'r mut OutputAudioBuffers<X>,
    pub in_events: &'r InputEvents<'e>,
    pub out_events: &'r mut OutputEvents<'e>,
}

/// What a call into the plugin did: returned success, returned failure, or
/// panicked before returning.
#[derive(Clone, Copy, Debug, PartialEq, Eq, Structural)]
pub enum PluginCall {
    Succeeded,
    Failed,
    Panicked,
}

/// The per-instance data a processor handle carries: the host's shared data,
/// the host's audio-processor data, and the plugin's handle.
pub struct ProcessorData<S, A, P> {
    pub shared: S,
    pub audio_processor: A,
    pub plugin: P,
}

/// A processor handle while processing is stopped.
pub struct StoppedPluginAudioProcessor<S, A, P> {
    data: ProcessorData<S, A, P>,
}

/// A processor handle while processing is started: the only one through which
/// a block can be processed.
pub struct StartedPluginAudioProcessor<S, A, P> {
    data: ProcessorData<S, A, P>,
}

/// The error of a refused start, which hands the stopped processor back.
pub struct ProcessingStartError<S, A, P> {
    processor: StoppedPluginAudioProcessor<S, A, P>,
}

impl<S, A, P> StoppedPluginAudioProcessor<S, A, P> {
    pub closed spec fn spec_data(&self) -> ProcessorData<S, A, P> {
        self.data
    }

    /// The handle of a freshly activated instance.
    pub fn new(shared: S, audio_processor: A, plugin: P) -> (r: StoppedPluginAudioProcessor<S, A, P>)
        ensures
            r.spec_data() == (ProcessorData { shared, audio_processor, plugin }),
    {
        StoppedPluginAudioProcessor { data: ProcessorData { shared, audio_processor, plugin } }
    }

    /// Moves to `Started` when the plugin's start call succeeded; otherwise
    /// hands this handle back, unchanged, inside the error.
    pub fn start_processing(self, plugin_started: bool) -> (r: Result<
        StartedPluginAudioProcessor<S, A, P>,
        ProcessingStartError<S, A, P>,
    >)
        ensures
            r is Ok <==> plugin_started,
            r matches Ok(s) ==> s.spec_data() == self.spec_data(),
            r matches Err(e) ==> e.spec_processor().spec_data() == self.spec_data(),
    {
        if plugin_started {
            Ok(StartedPluginAudioProcessor { data: self.data })
        } else {
            Err(ProcessingStartError { processor: self })
        }
    }

    pub fn shared_host_data(&self) -> (r: &S)
        ensures
            *r == self.spec_data().shared,
    {
        &self.data.shared
    }

    pub fn audio_processor_host_data(&self) -> (r: &A)
        ensures
            *r == self.spec_data().audio_processor,
    {
        &self.data.audio_processor
    }

    pub fn audio_processor_host_data_mut(&mut self) -> (r: &mut A)
        ensures
            *r == old(self).spec_data().audio_processor,
            final(self).spec_data() == (ProcessorData {
                audio_processor: *final(r),
                ..old(self).spec_data()
            }),
    {
        &mut self.data.audio_processor
    }

    pub fn shared_plugin_data(&self) -> (r: &P)
        ensures
            *r == self.spec_data().plugin,
    {
        &self.data.plugin
    }

    pub fn audio_processor_plugin_data(&mut self) -> (r: &mut P)
        ensures
            *r == old(self).spec_data().plugin,
            final(self).spec_data() == (ProcessorData { plugin: *final(r), ..old(self).spec_data() }),
    {
        &mut self.data.plugin
    }

    /// Gives the instance data back, ending the handle's life.
    pub fn into_data(self) -> (r: ProcessorData<S, A, P>)
        ensures
            r == self.spec_data(),
    {
        self.data
    }
}

impl<S, A, P> ProcessingStartError<S, A, P> {
    pub closed spec fn spec_processor(&self) -> StoppedPluginAudioProcessor<S, A, P> {
        self.processor
    }

    /// The error's text, as a report shows it.
    pub fn message(&self) -> (r: &'static str)
        ensures
            r@ == "Failed to start plugin processing"@,
    {
        let m = "Failed to start plugin processing";
        proof {
            reveal_strlit("Failed to start plugin processing");
        }
        m
    }

    pub fn into_stopped_processor(self) -> (r: StoppedPluginAudioProcessor<S, A, P>)
        ensures
            r == self.spec_processor(),
    {
        self.processor
    }
}

impl<S, A, P> StartedPluginAudioProcessor<S, A, P> {
    pub closed spec fn spec_data(&self) -> ProcessorData<S, A, P> {
        self.data
    }

    /// Builds the record for one block: the frame count is the least of the
    /// shortest input channel, the shortest output channel and
    /// `max_frame_count` (see [`spec_effective_frame_count`]); the rest is
    /// passed through as given. Nothing is allocated.
    pub fn process<'r, 'e, X: Copy, T>(
        &mut self,
        audio_inputs: &'r InputAudioBuffers<X>,
        audio_outputs: &'r mut OutputAudioBuffers<X>,
        events_input: &'r InputEvents<'e>,
        events_output: &'r mut OutputEvents<'e>,
        steady_time: i64,
        max_frame_count: Option<usize>,
        transport: Option<&'r T>,
    ) -> (r: ProcessRecord<'r, 'e, X, T>)
        ensures
            final(self).spec_data() == old(self).spec_data(),
            r.frames_count == spec_effective_frame_count(
                spec_min_channel_length(audio_inputs@),
                spec_min_channel_length(old(audio_outputs)@),
                max_frame_count,
            ),
            r.steady_time == steady_time,
            r.transport == transport,
            r.audio_inputs == audio_inputs,
            *r.audio_outputs == *old(audio_outputs),
            *final(audio_outputs) == *final(r.audio_outputs),
            r.in_events == events_input,
            *r.out_events == *old(events_output),
            *final(events_output) == *final(r.out_events),
    {
        let min_input = min_input_length(audio_inputs);
        let min_output = min_output_length(audio_outputs);
        let frames_count = effective_frame_count(min_input, min_output, max_frame_count);
        ProcessRecord {
            steady_time,
            frames_count,
            transport,
            audio_inputs,
            audio_outputs,
            in_events: events_input,
            out_events: events_output,
        }
    }

    /// Moves to `Stopped`; stopping always succeeds.
    pub fn stop_processing(self) -> (r: StoppedPluginAudioProcessor<S, A, P>)
        ensures
            r.spec_data() == self.spec_data(),
    {
        StoppedPluginAudioProcessor { data: self.data }
    }

    pub fn shared_host_data(&self) -> (r: &S)
        ensures
            *r == self.spec_data().shared,
    {
        &self.data.shared
    }

    pub fn audio_processor_host_data(&self) -> (r: &A)
        ensures
            *r == self.spec_data().audio_processor,
    {
        &self.data.audio_processor
    }

    pub fn audio_processor_host_data_mut(&mut self) -> (r: &mut A)
        ensures
            *r == old(self).spec_data().audio_processor,
            final(self).spec_data() == (ProcessorData {
                audio_processor: *final(r),
                ..old(self).spec_data()
            }),
    {
        &mut self.data.audio_processor
    }

    pub fn shared_plugin_handle(&self) -> (r: &P)
        ensures
            *r == self.spec_data().plugin,
    {
        &self.data.plugin
    }

    pub fn audio_processor_plugin_handle(&mut self) -> (r: &mut P)
        ensures
            *r == old(self).spec_data().plugin,
            final(self).spec_data() == (ProcessorData { plugin: *final(r), ..old(self).spec_data() }),
    {
        &mut self.data.plugin
    }
}

/// The state of a processor handle, with the instance data it carries.
pub enum ProcessorState<S, A, P> {
    Started(ProcessorData<S, A, P>),
    Stopped(ProcessorData<S, A, P>),
    Poisoned,
}

/// A start request: the next state and the error returned, if any, given
/// what the plugin's start call did. Only a stopped handle makes that call;
/// a refused start leaves it stopped, and a panic poisons it.
pub open spec fn start_transition<S, A, P>(st: ProcessorState<S, A, P>, call: PluginCall) -> (
    ProcessorState<S, A, P>,
    Option<HostError>,
) {
    match st {
        ProcessorState::Poisoned => (st, Some(HostError::ProcessorHandlePoisoned)),
        ProcessorState::Started(_) => (st, Some(HostError::ProcessingStarted)),
        ProcessorState::Stopped(d) => match call {
            PluginCall::Succeeded => (ProcessorState::Started(d), None),
            PluginCall::Failed => (st, Some(HostError::StartProcessingFailed)),
            PluginCall::Panicked => (ProcessorState::Poisoned, Some(HostError::ProcessorHandlePoisoned)),
        },
    }
}

/// A stop request: the next state and the error returned, if any, given what
/// the plugin's stop call did. Only a started handle makes that call;
/// stopping cannot be refused, and only a panic poisons the handle.
pub open spec fn stop_transition<S, A, P>(st: ProcessorState<S, A, P>, call: PluginCall) -> (
    ProcessorState<S, A, P>,
    Option<HostError>,
) {
    match st {
        ProcessorState::Poisoned => (st, Some(HostError::ProcessorHandlePoisoned)),
        ProcessorState::Stopped(_) => (st, Some(HostError::ProcessingStopped)),
        ProcessorState::Started(d) => match call {
            PluginCall::Panicked => (ProcessorState::Poisoned, Some(HostError::ProcessorHandlePoisoned)),
            _ => (ProcessorState::Stopped(d), None),
        },
    }
}

/// A processor handle in one of its three states. A transition that fails
/// midway leaves `Poisoned`, and every later call on it fails with
/// [`HostError::ProcessorHandlePoisoned`].
pub enum PluginAudioProcessor<S, A, P> {
    Started(StartedPluginAudioProcessor<S, A, P>),
    Stopped(StoppedPluginAudioProcessor<S, A, P>),
    Poisoned,
}

impl<S, A, P> PluginAudioProcessor<S, A, P> {
    /// The instance data reachable through the handle; none once poisoned.
    pub open spec fn spec_data(&self) -> Option<ProcessorData<S, A, P>> {
        match self {
            PluginAudioProcessor::Started(s) => Some(s.spec_data()),
            PluginAudioProcessor::Stopped(s) => Some(s.spec_data()),
            PluginAudioProcessor::Poisoned => None,
        }
    }

    /// The handle's state: which of the three it is in, with the instance
    /// data it carries.
    pub open spec fn spec_state(&self) -> ProcessorState<S, A, P> {
        match self {
            PluginAudioProcessor::Started(s) => ProcessorState::Started(s.spec_data()),
            PluginAudioProcessor::Stopped(s) => ProcessorState::Stopped(s.spec_data()),
            PluginAudioProcessor::Poisoned => ProcessorState::Poisoned,
        }
    }

    pub fn from_started(p: StartedPluginAudioProcessor<S, A, P>) -> (r: PluginAudioProcessor<S, A, P>)
        ensures
            r == PluginAudioProcessor::Started(p),
    {
        PluginAudioProcessor::Started(p)
    }

    pub fn from_stopped(p: StoppedPluginAudioProcessor<S, A, P>) -> (r: PluginAudioProcessor<S, A, P>)
        ensures
            r == PluginAudioProcessor::Stopped(p),
    {
        PluginAudioProcessor::Stopped(p)
    }

    pub fn as_started(&self) -> (r: Result<&StartedPluginAudioProcessor<S, A, P>, HostError>)
        ensures
            match self {
                PluginAudioProcessor::Started(s) => r == Ok::<_, HostError>(s),
                PluginAudioProcessor::Stopped(_) => r == Err::<&StartedPluginAudioProcessor<S, A, P>, _>(
                    HostError::ProcessingStopped,
                ),
                PluginAudioProcessor::Poisoned => r == Err::<&StartedPluginAudioProcessor<S, A, P>, _>(
                    HostError::ProcessorHandlePoisoned,
                ),
            },
    {
        match self {
            PluginAudioProcessor::Started(s) => Ok(s),
            PluginAudioProcessor::Stopped(_) => Err(HostError::ProcessingStopped),
            PluginAudioProcessor::Poisoned => Err(HostError::ProcessorHandlePoisoned),
        }
    }

    pub fn as_started_mut(&mut self) -> (r: Result<&mut StartedPluginAudioProcessor<S, A, P>, HostError>)
        ensures
            match *old(self) {
                PluginAudioProcessor::Started(s) => r is Ok && *r->Ok_0 == s
                    && *final(self) == PluginAudioProcessor::Started(*final(r->Ok_0)),
                PluginAudioProcessor::Stopped(_) => r == Err::<&mut StartedPluginAudioProcessor<S, A, P>, _>(
                    HostError::ProcessingStopped,
                ) && *final(self) == *old(self),
                PluginAudioProcessor::Poisoned => r == Err::<&mut StartedPluginAudioProcessor<S, A, P>, _>(
                    HostError::ProcessorHandlePoisoned,
                ) && *final(self) == *old(self),
            },
    {
        match self {
            PluginAudioProcessor::Started(s) => Ok(s),
            PluginAudioProcessor::Stopped(_) => Err(HostError::ProcessingStopped),
            PluginAudioProcessor::Poisoned => Err(HostError::ProcessorHandlePoisoned),
        }
    }

    pub fn as_stopped(&self) -> (r: Result<&StoppedPluginAudioProcessor<S, A, P>, HostError>)
        ensures
            match self {
                PluginAudioProcessor::Stopped(s) => r == Ok::<_, HostError>(s),
                PluginAudioProcessor::Started(_) => r == Err::<&StoppedPluginAudioProcessor<S, A, P>, _>(
                    HostError::ProcessingStarted,
                ),
                PluginAudioProcessor::Poisoned => r == Err::<&StoppedPluginAudioProcessor<S, A, P>, _>(
                    HostError::ProcessorHandlePoisoned,
                ),
            },
    {
        match self {
            PluginAudioProcessor::Stopped(s) => Ok(s),
            PluginAudioProcessor::Started(_) => Err(HostError::ProcessingStarted),
            PluginAudioProcessor::Poisoned => Err(HostError::ProcessorHandlePoisoned),
        }
    }

    pub fn as_stopped_mut(&mut self) -> (r: Result<&mut StoppedPluginAudioProcessor<S, A, P>, HostError>)
        ensures
            match *old(self) {
                PluginAudioProcessor::Stopped(s) => r is Ok && *r->Ok_0 == s
                    && *final(self) == PluginAudioProcessor::Stopped(*final(r->Ok_0)),
                PluginAudioProcessor::Started(_) => r == Err::<&mut StoppedPluginAudioProcessor<S, A, P>, _>(
                    HostError::ProcessingStarted,
                ) && *final(self) == *old(self),
                PluginAudioProcessor::Poisoned => r == Err::<&mut StoppedPluginAudioProcessor<S, A, P>, _>(
                    HostError::ProcessorHandlePoisoned,
                ) && *final(self) == *old(self),
            },
    {
        match self {
            PluginAudioProcessor::Stopped(s) => Ok(s),
            PluginAudioProcessor::Started(_) => Err(HostError::ProcessingStarted),
            PluginAudioProcessor::Poisoned => Err(HostError::ProcessorHandlePoisoned),
        }
    }

    /// The host's shared data, in either live state.
    pub fn shared_host_data(&self) -> (r: Result<&S, HostError>)
        ensures
            match self.spec_data() {
                Some(d) => r is Ok && *r->Ok_0 == d.shared,
                None => r == Err::<&S, _>(HostError::ProcessorHandlePoisoned),
            },
    {
        match self {
            PluginAudioProcessor::Poisoned => Err(HostError::ProcessorHandlePoisoned),
            PluginAudioProcessor::Started(s) => Ok(s.shared_host_data()),
            PluginAudioProcessor::Stopped(s) => Ok(s.shared_host_data()),
        }
    }

    /// The host's audio-processor data, in either live state.
    pub fn audio_processor_host_data(&self) -> (r: Result<&A, HostError>)
        ensures
            match self.spec_data() {
                Some(d) => r is Ok && *r->Ok_0 == d.audio_processor,
                None => r == Err::<&A, _>(HostError::ProcessorHandlePoisoned),
            },
    {
        match self {
            PluginAudioProcessor::Poisoned => Err(HostError::ProcessorHandlePoisoned),
            PluginAudioProcessor::Started(s) => Ok(s.audio_processor_host_data()),
            PluginAudioProcessor::Stopped(s) => Ok(s.audio_processor_host_data()),
        }
    }

    /// The host's audio-processor data for writing, in either live state. The
    /// state itself does not change.
    pub fn audio_processor_host_data_mut(&mut self) -> (r: Result<&mut A, HostError>)
        ensures
            match old(self).spec_data() {
                Some(d) => r is Ok && *r->Ok_0 == d.audio_processor && final(self).spec_data() == Some(
                    ProcessorData { audio_processor: *final(r->Ok_0), ..d },
                ) && ((*final(self)) is Started <==> (*old(self)) is Started),
                None => r == Err::<&mut A, _>(HostError::ProcessorHandlePoisoned) && *final(self) == *old(self),
            },
    {
        match self {
            PluginAudioProcessor::Poisoned => Err(HostError::ProcessorHandlePoisoned),
            PluginAudioProcessor::Started(s) => Ok(s.audio_processor_host_data_mut()),
            PluginAudioProcessor::Stopped(s) => Ok(s.audio_processor_host_data_mut()),
        }
    }

    pub fn is_started(&self) -> (r: bool)
        ensures
            r == self is Started,
    {
        match self {
            PluginAudioProcessor::Poisoned => false,
            PluginAudioProcessor::Started(_) => true,
            PluginAudioProcessor::Stopped(_) => false,
        }
    }

    pub fn is_poisoned(&self) -> (r: bool)
        ensures
            r == self is Poisoned,
    {
        match self {
            PluginAudioProcessor::Poisoned => true,
            _ => false,
        }
    }

    /// Moves a stopped handle to `Started`, given what the plugin's start
    /// call did (the caller makes that call only on a stopped handle). A
    /// refused start leaves it stopped; a panic poisons it. A started or
    /// poisoned handle is left as it is.
    pub fn start_processing(&mut self, call: PluginCall) -> (r: Result<
        &mut StartedPluginAudioProcessor<S, A, P>,
        HostError,
    >)
        ensures
            match start_transition(old(self).spec_state(), call) {
                (ProcessorState::Started(d), None) => r is Ok && r->Ok_0.spec_data() == d && *final(self)
                    == PluginAudioProcessor::Started(*final(r->Ok_0)),
                (st, e) => e is Some && r == Err::<&mut StartedPluginAudioProcessor<S, A, P>, _>(e->Some_0)
                    && final(self).spec_state() == st,
            },
    {
        let mut inner = PluginAudioProcessor::Poisoned;
        core::mem::swap(self, &mut inner);
        match inner {
            PluginAudioProcessor::Poisoned => Err(HostError::ProcessorHandlePoisoned),
            PluginAudioProcessor::Started(s) => {
                *self = PluginAudioProcessor::Started(s);
                Err(HostError::ProcessingStarted)
            },
            PluginAudioProcessor::Stopped(s) => match call {
                PluginCall::Panicked => Err(HostError::ProcessorHandlePoisoned),
                _ => match s.start_processing(call == PluginCall::Succeeded) {
                    Ok(started) => {
                        *self = PluginAudioProcessor::Started(started);
                        match self {
                            PluginAudioProcessor::Started(s) => Ok(s),
                            _ => Err(HostError::ProcessorHandlePoisoned),
                        }
                    },
                    Err(e) => {
                        *self = PluginAudioProcessor::Stopped(e.into_stopped_processor());
                        Err(HostError::StartProcessingFailed)
                    },
                },
            },
        }
    }

    /// The started handle: as it is when already started, else through
    /// [`Self::start_processing`].
    pub fn ensure_processing_started(&mut self, call: PluginCall) -> (r: Result<
        &mut StartedPluginAudioProcessor<S, A, P>,
        HostError,
    >)
        ensures
            match *old(self) {
                PluginAudioProcessor::Started(s) => r is Ok && *r->Ok_0 == s
                    && *final(self) == PluginAudioProcessor::Started(*final(r->Ok_0)),
                _ => match start_transition(old(self).spec_state(), call) {
                    (ProcessorState::Started(d), None) => r is Ok && r->Ok_0.spec_data() == d && *final(self)
                        == PluginAudioProcessor::Started(*final(r->Ok_0)),
                    (st, e) => e is Some && r == Err::<&mut StartedPluginAudioProcessor<S, A, P>, _>(e->Some_0)
                        && final(self).spec_state() == st,
                },
            },
    {
        if self.is_started() {
            match self {
                PluginAudioProcessor::Started(s) => Ok(s),
                _ => Err(HostError::ProcessorHandlePoisoned),
            }
        } else {
            self.start_processing(call)
        }
    }

    /// Moves a started handle to `Stopped`, given what the plugin's stop call
    /// did (the caller makes that call only on a started handle). Stopping
    /// cannot be refused; a panic poisons the handle. A stopped or poisoned
    /// handle is left as it is.
    pub fn stop_processing(&mut self, call: PluginCall) -> (r: Result<
        &mut StoppedPluginAudioProcessor<S, A, P>,
        HostError,
    >)
        ensures
            match stop_transition(old(self).spec_state(), call) {
                (ProcessorState::Stopped(d), None) => r is Ok && r->Ok_0.spec_data() == d && *final(self)
                    == PluginAudioProcessor::Stopped(*final(r->Ok_0)),
                (st, e) => e is Some && r == Err::<&mut StoppedPluginAudioProcessor<S, A, P>, _>(e->Some_0)
                    && final(self).spec_state() == st,
            },
    {
        let mut inner = PluginAudioProcessor::Poisoned;
        core::mem::swap(self, &mut inner);
        match inner {
            PluginAudioProcessor::Poisoned => Err(HostError::ProcessorHandlePoisoned),
            PluginAudioProcessor::Stopped(s) => {
                *self = PluginAudioProcessor::Stopped(s);
                Err(HostError::ProcessingStopped)
            },
            PluginAudioProcessor::Started(s) => match call {
                PluginCall::Panicked => Err(HostError::ProcessorHandlePoisoned),
                _ => {
                    *self = PluginAudioProcessor::Stopped(s.stop_processing());
                    match self {
                        PluginAudioProcessor::Stopped(s) => Ok(s),
                        _ => Err(HostError::ProcessorHandlePoisoned),
                    }
                },
            },
        }
    }

    /// The stopped handle: as it is when already stopped, else through
    /// [`Self::stop_processing`].
    pub fn ensure_processing_stopped(&mut self, call: PluginCall) -> (r: Result<
        &mut StoppedPluginAudioProcessor<S, A, P>,
        HostError,
    >)
        ensures
            match *old(self) {
                PluginAudioProcessor::Stopped(s) => r is Ok && *r->Ok_0 == s
                    && *final(self) == PluginAudioProcessor::Stopped(*final(r->Ok_0)),
                _ => match stop_transition(old(self).spec_state(), call) {
                    (ProcessorState::Stopped(d), None) => r is Ok && r->Ok_0.spec_data() == d && *final(self)
                        == PluginAudioProcessor::Stopped(*final(r->Ok_0)),
                    (st, e) => e is Some && r == Err::<&mut StoppedPluginAudioProcessor<S, A, P>, _>(e->Some_0)
                        && final(self).spec_state() == st,
                },
            },
    {
        match self {
            PluginAudioProcessor::Stopped(_) => {
                match self {
                    PluginAudioProcessor::Stopped(s) => Ok(s),
                    _ => Err(HostError::ProcessorHandlePoisoned),
                }
            },
            _ => self.stop_processing(call),
        }
    }

    /// Builds the record for one block on a started handle (see
    /// [`StartedPluginAudioProcessor::process`]). On a stopped or poisoned
    /// handle the call is refused and neither the handle nor any buffer or
    /// queue is touched.
    pub fn process<'r, 'e, X: Copy, T>(
        &mut self,
        audio_inputs: &'r InputAudioBuffers<X>,
        audio_outputs: &'r mut OutputAudioBuffers<X>,
        events_input: &'r InputEvents<'e>,
        events_output: &'r mut OutputEvents<'e>,
        steady_time: i64,
        max_frame_count: Option<usize>,
        transport: Option<&'r T>,
    ) -> (r: Result<ProcessRecord<'r, 'e, X, T>, HostError>)
        ensures
            match *old(self) {
                PluginAudioProcessor::Started(_) => r matches Ok(rec) && (*final(self)) is Started
                    && final(self).spec_data() == old(self).spec_data() && rec.frames_count
                    == spec_effective_frame_count(
                    spec_min_channel_length(audio_inputs@),
                    spec_min_channel_length(old(audio_outputs)@),
                    max_frame_count,
                ) && rec.steady_time == steady_time && rec.transport == transport && rec.audio_inputs
                    == audio_inputs && *rec.audio_outputs == *old(audio_outputs) && *final(audio_outputs)
                    == *final(rec.audio_outputs) && rec.in_events == events_input && *rec.out_events
                    == *old(events_output) && *final(events_output) == *final(rec.out_events),
                PluginAudioProcessor::Stopped(_) => r is Err && r->Err_0 == HostError::ProcessingStopped
                    && *final(self) == *old(self) && *final(audio_outputs) == *old(audio_outputs)
                    && *final(events_output) == *old(events_output),
                PluginAudioProcessor::Poisoned => r is Err && r->Err_0 == HostError::ProcessorHandlePoisoned
                    && *final(self) == *old(self) && *final(audio_outputs) == *old(audio_outputs)
                    && *final(events_output) == *old(events_output),
            },
    {
        match self {
            PluginAudioProcessor::Started(s) => Ok(
                s.process(
                    audio_inputs,
                    audio_outputs,
                    events_input,
                    events_output,
                    steady_time,
                    max_frame_count,
                    transport,
                ),
            ),
            PluginAudioProcessor::Stopped(_) => Err(HostError::ProcessingStopped),
            PluginAudioProcessor::Poisoned => Err(HostError::ProcessorHandlePoisoned),
        }
    }
}

impl<S, A, P> From<StartedPluginAudioProcessor<S, A, P>> for PluginAudioProcessor<S, A, P> {
    fn from(p: StartedPluginAudioProcessor<S, A, P>) -> (r: PluginAudioProcessor<S, A, P>) {
        PluginAudioProcessor::Started(p)
    }
}

impl<S, A, P> vstd::std_specs::convert::FromSpecImpl<StartedPluginAudioProcessor<S, A, P>> for PluginAudioProcessor<S, A, P> {
    open spec fn obeys_from_spec() -> bool {
        true
    }

    open spec fn from_spec(p: StartedPluginAudioProcessor<S, A, P>) -> PluginAudioProcessor<S, A, P> {
        PluginAudioProcessor::Started(p)
    }
}

impl<S, A, P> From<StoppedPluginAudioProcessor<S, A, P>> for PluginAudioProcessor<S, A, P> {
    fn from(p: StoppedPluginAudioProcessor<S, A, P>) -> (r: PluginAudioProcessor<S, A, P>) {
        PluginAudioProcessor::Stopped(p)
    }
}

impl<S, A, P> vstd::std_specs::convert::FromSpecImpl<StoppedPluginAudioProcessor<S, A, P>> for PluginAudioProcessor<S, A, P> {
    open spec fn obeys_from_spec() -> bool {
        true
    }

    open spec fn from_spec(p: StoppedPluginAudioProcessor<S, A, P>) -> PluginAudioProcessor<S, A, P> {
        PluginAudioProcessor::Stopped(p)
    }
}

/// Starting a stopped handle and then stopping it, with neither plugin call
/// panicking, gives back a stopped handle with the same instance data, and
/// neither request fails when the start succeeds.
pub proof fn lemma_start_then_stop_restores<S, A, P>(
    st: ProcessorState<S, A, P>,
    start: PluginCall,
    stop: PluginCall,
)
    requires
        st is Stopped,
        start != PluginCall::Panicked,
        stop != PluginCall::Panicked,
    ensures
        stop_transition(start_transition(st, start).0, stop).0 == st,
        start == PluginCall::Succeeded ==> start_transition(st, start).0 is Started && start_transition(
            st,
            start,
        ).1 is None && stop_transition(start_transition(st, start).0, stop).1 is None,
{
}

/// A panic in the plugin's start or stop call poisons the handle, and a
/// poisoned handle stays poisoned: every later start or stop request fails
/// with the poisoned error.
pub proof fn lemma_poisoned_is_terminal<S, A, P>(st: ProcessorState<S, A, P>, call: PluginCall)
    ensures
        st is Stopped ==> start_transition(st, PluginCall::Panicked) == (
            ProcessorState::<S, A, P>::Poisoned,
            Some(HostError::ProcessorHandlePoisoned),
        ),
        st is Started ==> stop_transition(st, PluginCall::Panicked) == (
            ProcessorState::<S, A, P>::Poisoned,
            Some(HostError::ProcessorHandlePoisoned),
        ),
        st is Poisoned ==> start_transition(st, call) == (
            ProcessorState::<S, A, P>::Poisoned,
            Some(HostError::ProcessorHandlePoisoned),
        ) && stop_transition(st, call) == (
            ProcessorState::<S, A, P>::Poisoned,
            Some(HostError::ProcessorHandlePoisoned),
        ),
{
}

} // verus!
