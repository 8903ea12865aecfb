use vstd::prelude::*;
use vstd::pervasive::unreached;
use crate::cycle::{effective_frames, steady_time_code, ProcessCycle};
use crate::error::HostError;
use crate::instance::{call_if, ForeignCall, FunctionTable, PluginInstanceInner};
use crate::status::{decode_status, ProcessStatus};

verus! {

/// The audio processor of an active instance while processing is stopped.
///
/// It is the capability "this instance is activated": only activation makes
/// one, deactivation takes it back, and it owns the host's processing-thread
/// state for the instance.
#[derive(Debug)]
pub struct StoppedPluginAudioProcessor<A> {
    id: u64,
    table: FunctionTable,
    handler: A,
}

/// The audio processor of an active instance while processing is started:
/// the only state in which a process cycle may run.
#[derive(Debug)]
pub struct StartedPluginAudioProcessor<A> {
    id: u64,
    table: FunctionTable,
    handler: A,
}

/// A failed start of processing, which hands the stopped processor back.
#[derive(Debug)]
pub struct ProcessingStartError<A> {
    processor: StoppedPluginAudioProcessor<A>,
}

/// The audio processor of an active instance, in either processing state.
///
/// `Poisoned` only stands in place of the value while a transition runs; the
/// methods below require that it is not observed.
#[derive(Debug)]
pub enum PluginAudioProcessor<A> {
    Started(StartedPluginAudioProcessor<A>),
    Stopped(StoppedPluginAudioProcessor<A>),
    Poisoned,
}

/// What a foreign process status means to the host: the status on success,
/// `ProcessingFailed` for the error code and for a code outside the ABI.
pub open spec fn process_outcome(raw: i32) -> Result<ProcessStatus, HostError> {
    match decode_status(raw) {
        Some(Ok(s)) => Ok(s),
        _ => Err(HostError::ProcessingFailed),
    }
}

/// Whether a start succeeds, given the foreign start function's report
/// (`None` when the table has no such entry).
pub open spec fn start_succeeds(reported: Option<bool>) -> bool {
    reported != Some(false)
}

/// The payload of a process cycle, or `NullProcessFunction` when the table
/// has no process entry.
pub open spec fn cycle_for(
    table: FunctionTable,
    input_frames: Option<u32>,
    output_frames: Option<u32>,
    audio_inputs: usize,
    audio_outputs: usize,
    steady_time: Option<u64>,
    has_transport: bool,
) -> Result<ProcessCycle, HostError> {
    if !table.process {
        Err(HostError::NullProcessFunction)
    } else {
        Ok(
            ProcessCycle {
                steady_time: steady_time_code(steady_time),
                frames_count: effective_frames(input_frames, output_frames),
                has_transport,
                audio_inputs_count: audio_inputs as u32,
                audio_outputs_count: audio_outputs as u32,
            },
        )
    }
}

impl<A> StoppedPluginAudioProcessor<A> {
    pub closed spec fn spec_id(&self) -> u64 {
        self.id
    }

    pub closed spec fn spec_table(&self) -> FunctionTable {
        self.table
    }

    pub closed spec fn spec_handler(&self) -> A {
        self.handler
    }

    /// The stopped processor that an activation of the instance `id` yields.
    pub(crate) fn new(id: u64, table: FunctionTable, handler: A) -> (r: StoppedPluginAudioProcessor<A>)
        ensures
            r.spec_id() == id,
            r.spec_table() == table,
            r.spec_handler() == handler,
    {
        StoppedPluginAudioProcessor { id, table, handler }
    }

    /// The id of the instance this processor belongs to.
    pub fn id(&self) -> (r: u64)
        ensures
            r == self.spec_id(),
    {
        self.id
    }

    /// The host's processing-thread state.
    pub fn handler(&self) -> (r: &A)
        ensures
            *r == self.spec_handler(),
    {
        &self.handler
    }

    /// The host's processing-thread state, for changing it.
    pub fn handler_mut(&mut self) -> (r: &mut A)
        ensures
            *r == old(self).spec_handler(),
            final(self).spec_handler() == *final(r),
            final(self).spec_id() == old(self).spec_id(),
            final(self).spec_table() == old(self).spec_table(),
    {
        &mut self.handler
    }

    /// Gives up the host's processing-thread state.
    pub(crate) fn into_handler(self) -> (r: A)
        ensures
            r == self.spec_handler(),
    {
        self.handler
    }

    /// The foreign entry to invoke before [`start_processing`](Self::start_processing),
    /// when the table provides one.
    pub fn start_call(&self) -> (r: Option<ForeignCall>)
        ensures
            r == call_if(self.spec_table().start_processing, ForeignCall::StartProcessing),
    {
        if self.table.start_processing {
            Some(ForeignCall::StartProcessing)
        } else {
            None
        }
    }

    /// Starts processing, given what the foreign start function returned
    /// (`None` when the table has no such entry). On failure the stopped
    /// processor comes back inside the error.
    pub fn start_processing(self, reported: Option<bool>) -> (r: Result<
        StartedPluginAudioProcessor<A>,
        ProcessingStartError<A>,
    >)
        requires
            reported is Some <==> self.spec_table().start_processing,
        ensures
            r is Ok <==> start_succeeds(reported),
            r matches Ok(s) ==> s.spec_id() == self.spec_id() && s.spec_table()
                == self.spec_table() && s.spec_handler() == self.spec_handler(),
            r matches Err(e) ==> e.spec_processor() == self,
    {
        match reported {
            Some(false) => Err(ProcessingStartError { processor: self }),
            _ => Ok(StartedPluginAudioProcessor { id: self.id, table: self.table, handler: self.handler }),
        }
    }

    /// The foreign entry that resets the instance, when the table provides one.
    pub fn reset(&self) -> (r: Option<ForeignCall>)
        ensures
            r == call_if(self.spec_table().reset, ForeignCall::Reset),
    {
        if self.table.reset {
            Some(ForeignCall::Reset)
        } else {
            None
        }
    }

    /// Whether this processor belongs to `instance`.
    pub fn matches<S, M>(&self, instance: &PluginInstanceInner<S, M>) -> (r: bool)
        ensures
            r == (self.spec_id() == instance.spec_id()),
    {
        self.id == instance.id()
    }
}

impl<A> StartedPluginAudioProcessor<A> {
    pub closed spec fn spec_id(&self) -> u64 {
        self.id
    }

    pub closed spec fn spec_table(&self) -> FunctionTable {
        self.table
    }

    pub closed spec fn spec_handler(&self) -> A {
        self.handler
    }

    /// The id of the instance this processor belongs to.
    pub fn id(&self) -> (r: u64)
        ensures
            r == self.spec_id(),
    {
        self.id
    }

    /// The host's processing-thread state.
    pub fn handler(&self) -> (r: &A)
        ensures
            *r == self.spec_handler(),
    {
        &self.handler
    }

    /// The host's processing-thread state, for changing it.
    pub fn handler_mut(&mut self) -> (r: &mut A)
        ensures
            *r == old(self).spec_handler(),
            final(self).spec_handler() == *final(r),
            final(self).spec_id() == old(self).spec_id(),
            final(self).spec_table() == old(self).spec_table(),
    {
        &mut self.handler
    }

    /// Lays out one process cycle for the foreign process function. The
    /// caller invokes that function with it and hands the returned status
    /// code to [`process_result`](Self::process_result).
    pub fn process(
        &self,
        input_frames: Option<u32>,
        output_frames: Option<u32>,
        audio_inputs: usize,
        audio_outputs: usize,
        steady_time: Option<u64>,
        has_transport: bool,
    ) -> (r: Result<ProcessCycle, HostError>)
        ensures
            r == cycle_for(
                self.spec_table(),
                input_frames,
                output_frames,
                audio_inputs,
                audio_outputs,
                steady_time,
                has_transport,
            ),
    {
        if !self.table.process {
            return Err(HostError::NullProcessFunction);
        }
        Ok(
            ProcessCycle::new(
                input_frames,
                output_frames,
                audio_inputs,
                audio_outputs,
                steady_time,
                has_transport,
            ),
        )
    }

    /// Reads the status code the foreign process function returned.
    pub fn process_result(raw: i32) -> (r: Result<ProcessStatus, HostError>)
        ensures
            r == process_outcome(raw),
    {
        match ProcessStatus::from_raw(raw) {
            Some(Ok(s)) => Ok(s),
            _ => Err(HostError::ProcessingFailed),
        }
    }

    /// Stops processing: the processor becomes stopped, and the caller
    /// invokes the returned foreign entry, when the table provides one.
    pub fn stop_processing(self) -> (r: (StoppedPluginAudioProcessor<A>, Option<ForeignCall>))
        ensures
            r.0.spec_id() == self.spec_id(),
            r.0.spec_table() == self.spec_table(),
            r.0.spec_handler() == self.spec_handler(),
            r.1 == call_if(self.spec_table().stop_processing, ForeignCall::StopProcessing),
    {
        let call = if self.table.stop_processing {
            Some(ForeignCall::StopProcessing)
        } else {
            None
        };
        (StoppedPluginAudioProcessor { id: self.id, table: self.table, handler: self.handler }, call)
    }

    /// The foreign entry that resets the instance, when the table provides one.
    pub fn reset(&self) -> (r: Option<ForeignCall>)
        ensures
            r == call_if(self.spec_table().reset, ForeignCall::Reset),
    {
        if self.table.reset {
            Some(ForeignCall::Reset)
        } else {
            None
        }
    }

    /// Whether this processor belongs to `instance`.
    pub fn matches<S, M>(&self, instance: &PluginInstanceInner<S, M>) -> (r: bool)
        ensures
            r == (self.spec_id() == instance.spec_id()),
    {
        self.id == instance.id()
    }
}

impl<A> ProcessingStartError<A> {
    pub closed spec fn spec_processor(&self) -> StoppedPluginAudioProcessor<A> {
        self.processor
    }

    /// The stopped processor whose start failed.
    pub fn into_stopped_processor(self) -> (r: StoppedPluginAudioProcessor<A>)
        ensures
            r == self.spec_processor(),
    {
        self.processor
    }
}

/// What a host sees of an audio processor: whether processing is started,
/// the instance it belongs to, and the host's processing-thread state.
pub struct ProcessorState<A> {
    pub started: bool,
    pub id: u64,
    pub table: FunctionTable,
    pub handler: A,
}

/// The foreign entry that must be invoked before a start: none for a started
/// processor, the start entry of a stopped one when its table provides it.
pub open spec fn start_call_for<A>(s: ProcessorState<A>) -> Option<ForeignCall> {
    if s.started {
        None
    } else {
        call_if(s.table.start_processing, ForeignCall::StartProcessing)
    }
}

/// What the strict start returns: `ProcessingStarted` on a started
/// processor, else the foreign start's outcome.
pub open spec fn strict_start<A>(s: ProcessorState<A>, reported: Option<bool>) -> Result<(), HostError> {
    if s.started {
        Err(HostError::ProcessingStarted)
    } else if start_succeeds(reported) {
        Ok(())
    } else {
        Err(HostError::StartProcessingFailed)
    }
}

/// What the idempotent start returns: success on a started processor, else
/// the foreign start's outcome.
pub open spec fn ensure_start<A>(s: ProcessorState<A>, reported: Option<bool>) -> Result<(), HostError> {
    if s.started {
        Ok(())
    } else {
        strict_start(s, reported)
    }
}

/// The state after a start attempt: started when it already was or when the
/// foreign start succeeded.
pub open spec fn after_start<A>(s: ProcessorState<A>, reported: Option<bool>) -> ProcessorState<A> {
    ProcessorState {
        started: s.started || start_succeeds(reported),
        id: s.id,
        table: s.table,
        handler: s.handler,
    }
}

/// The state after a stop: stopped, of the same instance.
pub open spec fn after_stop<A>(s: ProcessorState<A>) -> ProcessorState<A> {
    ProcessorState { started: false, id: s.id, table: s.table, handler: s.handler }
}

/// The foreign entry that must be invoked by a stop: the stop entry of a
/// started processor when its table provides one, nothing for a stopped one.
pub open spec fn stop_call_for<A>(s: ProcessorState<A>) -> Option<ForeignCall> {
    if s.started {
        call_if(s.table.stop_processing, ForeignCall::StopProcessing)
    } else {
        None
    }
}

/// The report a caller hands to a start: what the foreign start returned when
/// it was invoked, `None` when it was not.
pub open spec fn report_fits<A>(s: ProcessorState<A>, reported: Option<bool>) -> bool {
    reported is Some <==> start_call_for(s) is Some
}

/// What a process request yields: `ProcessingStopped` unless started, then
/// the cycle's payload.
pub open spec fn process_request<A>(
    s: ProcessorState<A>,
    input_frames: Option<u32>,
    output_frames: Option<u32>,
    audio_inputs: usize,
    audio_outputs: usize,
    steady_time: Option<u64>,
    has_transport: bool,
) -> Result<ProcessCycle, HostError> {
    if !s.started {
        Err(HostError::ProcessingStopped)
    } else {
        cycle_for(
            s.table,
            input_frames,
            output_frames,
            audio_inputs,
            audio_outputs,
            steady_time,
            has_transport,
        )
    }
}

impl<A> View for PluginAudioProcessor<A> {
    type V = ProcessorState<A>;

    open spec fn view(&self) -> ProcessorState<A> {
        match self {
            PluginAudioProcessor::Started(s) => ProcessorState {
                started: true,
                id: s.spec_id(),
                table: s.spec_table(),
                handler: s.spec_handler(),
            },
            PluginAudioProcessor::Stopped(s) => ProcessorState {
                started: false,
                id: s.spec_id(),
                table: s.spec_table(),
                handler: s.spec_handler(),
            },
            PluginAudioProcessor::Poisoned => arbitrary(),
        }
    }
}

impl<A> PluginAudioProcessor<A> {
    /// Not caught in the middle of a transition.
    pub open spec fn wf(&self) -> bool {
        !(self is Poisoned)
    }

    /// Whether processing is started.
    pub fn is_started(&self) -> (r: bool)
        requires
            self.wf(),
        ensures
            r == self@.started,
    {
        match self {
            PluginAudioProcessor::Started(_) => true,
            _ => false,
        }
    }

    /// The started processor, or `ProcessingStopped`.
    pub fn as_started(&self) -> (r: Result<&StartedPluginAudioProcessor<A>, HostError>)
        requires
            self.wf(),
        ensures
            self is Stopped ==> r == Err::<&StartedPluginAudioProcessor<A>, HostError>(
                HostError::ProcessingStopped,
            ),
            self matches PluginAudioProcessor::Started(s) ==> r == Ok::<
                &StartedPluginAudioProcessor<A>,
                HostError,
            >(&s),
    {
        match self {
            PluginAudioProcessor::Started(s) => Ok(s),
            _ => Err(HostError::ProcessingStopped),
        }
    }

    /// The started processor for changing it, or `ProcessingStopped`.
    pub fn as_started_mut(&mut self) -> (r: Result<&mut StartedPluginAudioProcessor<A>, HostError>)
        requires
            old(self).wf(),
        ensures
            *old(self) is Stopped ==> (r matches Err(e) && e == HostError::ProcessingStopped),
            *old(self) is Stopped ==> *final(self) == *old(self),
            *old(self) matches PluginAudioProcessor::Started(s) ==> (r matches Ok(m) && *m == s
                && *final(self) == PluginAudioProcessor::Started(*final(m))),
    {
        match self {
            PluginAudioProcessor::Started(s) => Ok(s),
            _ => Err(HostError::ProcessingStopped),
        }
    }

    /// The stopped processor for changing it, or `ProcessingStarted`.
    pub fn as_stopped_mut(&mut self) -> (r: Result<&mut StoppedPluginAudioProcessor<A>, HostError>)
        requires
            old(self).wf(),
        ensures
            *old(self) is Started ==> (r matches Err(e) && e == HostError::ProcessingStarted),
            *old(self) is Started ==> *final(self) == *old(self),
            *old(self) matches PluginAudioProcessor::Stopped(s) ==> (r matches Ok(m) && *m == s
                && *final(self) == PluginAudioProcessor::Stopped(*final(m))),
    {
        match self {
            PluginAudioProcessor::Stopped(s) => Ok(s),
            _ => Err(HostError::ProcessingStarted),
        }
    }

    /// The stopped processor, or `ProcessingStarted`.
    pub fn as_stopped(&self) -> (r: Result<&StoppedPluginAudioProcessor<A>, HostError>)
        requires
            self.wf(),
        ensures
            self is Started ==> r == Err::<&StoppedPluginAudioProcessor<A>, HostError>(
                HostError::ProcessingStarted,
            ),
            self matches PluginAudioProcessor::Stopped(s) ==> r == Ok::<
                &StoppedPluginAudioProcessor<A>,
                HostError,
            >(&s),
    {
        match self {
            PluginAudioProcessor::Stopped(s) => Ok(s),
            _ => Err(HostError::ProcessingStarted),
        }
    }

    /// The host's processing-thread state, in either processing state.
    pub fn handler(&self) -> (r: &A)
        requires
            self.wf(),
        ensures
            *r == self@.handler,
    {
        match self {
            PluginAudioProcessor::Started(s) => s.handler(),
            PluginAudioProcessor::Stopped(s) => s.handler(),
            PluginAudioProcessor::Poisoned => unreached(),
        }
    }

    /// The host's processing-thread state for changing it, in either
    /// processing state.
    pub fn handler_mut(&mut self) -> (r: &mut A)
        requires
            old(self).wf(),
        ensures
            *r == old(self)@.handler,
            final(self).wf(),
            final(self)@ == (ProcessorState {
                started: old(self)@.started,
                id: old(self)@.id,
                table: old(self)@.table,
                handler: *final(r),
            }),
    {
        match self {
            PluginAudioProcessor::Started(s) => s.handler_mut(),
            PluginAudioProcessor::Stopped(s) => s.handler_mut(),
            PluginAudioProcessor::Poisoned => unreached(),
        }
    }

    /// The foreign entry to invoke before a start, if any; its result goes to
    /// [`start_processing`](Self::start_processing) or
    /// [`ensure_processing_started`](Self::ensure_processing_started).
    pub fn start_call(&self) -> (r: Option<ForeignCall>)
        requires
            self.wf(),
        ensures
            r == start_call_for(self@),
    {
        match self {
            PluginAudioProcessor::Stopped(s) => s.start_call(),
            _ => None,
        }
    }

    /// Moves a stopped processor to started; a started one stays as it is and
    /// yields `ProcessingStarted`.
    pub fn start_processing(&mut self, reported: Option<bool>) -> (r: Result<(), HostError>)
        requires
            old(self).wf(),
            report_fits(old(self)@, reported),
        ensures
            final(self).wf(),
            r == strict_start(old(self)@, reported),
            final(self)@ == after_start(old(self)@, reported),
    {
        let mut inner = PluginAudioProcessor::Poisoned;
        core::mem::swap(self, &mut inner);
        match inner {
            PluginAudioProcessor::Started(s) => {
                *self = PluginAudioProcessor::Started(s);
                Err(HostError::ProcessingStarted)
            },
            PluginAudioProcessor::Stopped(s) => match s.start_processing(reported) {
                Ok(started) => {
                    *self = PluginAudioProcessor::Started(started);
                    Ok(())
                },
                Err(e) => {
                    *self = PluginAudioProcessor::Stopped(e.into_stopped_processor());
                    Err(HostError::StartProcessingFailed)
                },
            },
            PluginAudioProcessor::Poisoned => unreached(),
        }
    }

    /// Like [`start_processing`](Self::start_processing), but a started
    /// processor is a success.
    pub fn ensure_processing_started(&mut self, reported: Option<bool>) -> (r: Result<(), HostError>)
        requires
            old(self).wf(),
            report_fits(old(self)@, reported),
        ensures
            final(self).wf(),
            r == ensure_start(old(self)@, reported),
            final(self)@ == after_start(old(self)@, reported),
    {
        match self {
            PluginAudioProcessor::Started(_) => Ok(()),
            _ => self.start_processing(reported),
        }
    }

    /// Moves a started processor to stopped, returning the foreign entry to
    /// invoke; a stopped one stays as it is and yields `ProcessingStopped`.
    pub fn stop_processing(&mut self) -> (r: Result<Option<ForeignCall>, HostError>)
        requires
            old(self).wf(),
        ensures
            final(self).wf(),
            !old(self)@.started ==> r == Err::<Option<ForeignCall>, HostError>(
                HostError::ProcessingStopped,
            ),
            old(self)@.started ==> r == Ok::<Option<ForeignCall>, HostError>(
                stop_call_for(old(self)@),
            ),
            final(self)@ == after_stop(old(self)@),
    {
        let mut inner = PluginAudioProcessor::Poisoned;
        core::mem::swap(self, &mut inner);
        match inner {
            PluginAudioProcessor::Started(s) => {
                let (stopped, call) = s.stop_processing();
                *self = PluginAudioProcessor::Stopped(stopped);
                Ok(call)
            },
            PluginAudioProcessor::Stopped(s) => {
                *self = PluginAudioProcessor::Stopped(s);
                Err(HostError::ProcessingStopped)
            },
            PluginAudioProcessor::Poisoned => unreached(),
        }
    }

    /// Like [`stop_processing`](Self::stop_processing), but a stopped
    /// processor is a success.
    pub fn ensure_processing_stopped(&mut self) -> (r: Option<ForeignCall>)
        requires
            old(self).wf(),
        ensures
            final(self).wf(),
            r == stop_call_for(old(self)@),
            final(self)@ == after_stop(old(self)@),
    {
        match self.stop_processing() {
            Ok(call) => call,
            Err(_) => None,
        }
    }

    /// The started processor: a stopped one is started first, and on failure
    /// comes back inside the error.
    pub fn into_started(self, reported: Option<bool>) -> (r: Result<
        StartedPluginAudioProcessor<A>,
        ProcessingStartError<A>,
    >)
        requires
            self.wf(),
            report_fits(self@, reported),
        ensures
            r is Ok <==> after_start(self@, reported).started,
            r matches Ok(s) ==> s.spec_id() == self@.id && s.spec_table() == self@.table
                && s.spec_handler() == self@.handler,
            r matches Err(e) ==> e.spec_processor().spec_id() == self@.id
                && e.spec_processor().spec_table() == self@.table
                && e.spec_processor().spec_handler() == self@.handler,
    {
        match self {
            PluginAudioProcessor::Started(s) => Ok(s),
            PluginAudioProcessor::Stopped(s) => s.start_processing(reported),
            PluginAudioProcessor::Poisoned => unreached(),
        }
    }

    /// The stopped processor, with the foreign entry to invoke when a
    /// started one is stopped.
    pub fn into_stopped(self) -> (r: (StoppedPluginAudioProcessor<A>, Option<ForeignCall>))
        requires
            self.wf(),
        ensures
            r.0.spec_id() == self@.id,
            r.0.spec_table() == self@.table,
            r.0.spec_handler() == self@.handler,
            r.1 == stop_call_for(self@),
    {
        match self {
            PluginAudioProcessor::Started(s) => s.stop_processing(),
            PluginAudioProcessor::Stopped(s) => (s, None),
            PluginAudioProcessor::Poisoned => unreached(),
        }
    }

    /// Lays out one process cycle; only a started processor can run one.
    pub fn process(
        &self,
        input_frames: Option<u32>,
        output_frames: Option<u32>,
        audio_inputs: usize,
        audio_outputs: usize,
        steady_time: Option<u64>,
        has_transport: bool,
    ) -> (r: Result<ProcessCycle, HostError>)
        requires
            self.wf(),
        ensures
            r == process_request(
                self@,
                input_frames,
                output_frames,
                audio_inputs,
                audio_outputs,
                steady_time,
                has_transport,
            ),
    {
        match self {
            PluginAudioProcessor::Started(s) => s.process(
                input_frames,
                output_frames,
                audio_inputs,
                audio_outputs,
                steady_time,
                has_transport,
            ),
            _ => Err(HostError::ProcessingStopped),
        }
    }

    /// The foreign entry that resets the instance, in either state, when the
    /// table provides one.
    pub fn reset(&self) -> (r: Option<ForeignCall>)
        requires
            self.wf(),
        ensures
            r == call_if(self@.table.reset, ForeignCall::Reset),
    {
        match self {
            PluginAudioProcessor::Started(s) => s.reset(),
            PluginAudioProcessor::Stopped(s) => s.reset(),
            PluginAudioProcessor::Poisoned => unreached(),
        }
    }

    /// Whether this processor belongs to `instance`.
    pub fn matches<S, M>(&self, instance: &PluginInstanceInner<S, M>) -> (r: bool)
        requires
            self.wf(),
        ensures
            r == (self@.id == instance.spec_id()),
    {
        match self {
            PluginAudioProcessor::Started(s) => s.matches(instance),
            PluginAudioProcessor::Stopped(s) => s.matches(instance),
            PluginAudioProcessor::Poisoned => unreached(),
        }
    }
}

impl<A> From<StartedPluginAudioProcessor<A>> for PluginAudioProcessor<A> {
    fn from(p: StartedPluginAudioProcessor<A>) -> (r: PluginAudioProcessor<A>)
        ensures
            r == PluginAudioProcessor::Started(p),
    {
        PluginAudioProcessor::Started(p)
    }
}

impl<A> vstd::std_specs::convert::FromSpecImpl<StartedPluginAudioProcessor<A>> for PluginAudioProcessor<A> {
    open spec fn obeys_from_spec() -> bool {
        true
    }

    open spec fn from_spec(p: StartedPluginAudioProcessor<A>) -> PluginAudioProcessor<A> {
        PluginAudioProcessor::Started(p)
    }
}

impl<A> From<StoppedPluginAudioProcessor<A>> for PluginAudioProcessor<A> {
    fn from(p: StoppedPluginAudioProcessor<A>) -> (r: PluginAudioProcessor<A>)
        ensures
            r == PluginAudioProcessor::Stopped(p),
    {
        PluginAudioProcessor::Stopped(p)
    }
}

impl<A> vstd::std_specs::convert::FromSpecImpl<StoppedPluginAudioProcessor<A>> for PluginAudioProcessor<A> {
    open spec fn obeys_from_spec() -> bool {
        true
    }

    open spec fn from_spec(p: StoppedPluginAudioProcessor<A>) -> PluginAudioProcessor<A> {
        PluginAudioProcessor::Stopped(p)
    }
}

/// A process request on a stopped processor fails with `ProcessingStopped`
/// and yields no payload, so the foreign process function is never reached.
pub proof fn lemma_stopped_never_processes<A>(
    s: ProcessorState<A>,
    input_frames: Option<u32>,
    output_frames: Option<u32>,
    audio_inputs: usize,
    audio_outputs: usize,
    steady_time: Option<u64>,
    has_transport: bool,
)
    requires
        !s.started,
    ensures
        process_request(
            s,
            input_frames,
            output_frames,
            audio_inputs,
            audio_outputs,
            steady_time,
            has_transport,
        ) == Err::<ProcessCycle, HostError>(HostError::ProcessingStopped),
{
}

/// Starting a started processor asks for no foreign start call: the strict
/// start reports `ProcessingStarted`, the idempotent one succeeds, and the
/// processor stays started either way.
pub proof fn lemma_start_when_started<A>(s: ProcessorState<A>, reported: Option<bool>)
    requires
        s.started,
        report_fits(s, reported),
    ensures
        start_call_for(s) == None::<ForeignCall>,
        reported == None::<bool>,
        strict_start(s, reported) == Err::<(), HostError>(HostError::ProcessingStarted),
        ensure_start(s, reported) == Ok::<(), HostError>(()),
        after_start(s, reported) == s,
{
}

/// A processor keeps the instance it was made for across a start and a stop,
/// in either order.
pub proof fn lemma_matches_across_transitions<A>(s: ProcessorState<A>, reported: Option<bool>, id: u64)
    ensures
        (after_start(s, reported).id == id) == (s.id == id),
        (after_stop(s).id == id) == (s.id == id),
        (after_stop(after_start(s, reported)).id == id) == (s.id == id),
        (after_start(after_stop(s), reported).id == id) == (s.id == id),
{
}

} // verus!
