use vstd::prelude::*;
use crate::error::{message_of, severity_of, PluginError, PluginWrapperError};

verus! {

/// A plugin's state seen from the dispatch layer, split by the context that
/// may touch it: `shared` from any thread, `main_thread` from the control
/// thread only, and the audio processor, present while the plugin is active,
/// from the processing thread only.
#[derive(Debug)]
pub struct PluginWrapper<S, M, A> {
    shared: S,
    main_thread: M,
    audio_processor: Option<A>,
}

/// A message to log for a failed dispatch.
#[derive(Clone, Debug)]
pub struct LogRecord {
    pub severity: i32,
    pub message: String,
}

/// `record` is the log record of `error`.
pub open spec fn records(record: LogRecord, error: PluginWrapperError) -> bool {
    record.severity == severity_of(error) && record.message@ == message_of(error)
}

/// The checks on the raw pointers of a foreign call: the instance pointer,
/// then the instance's data pointer, must be present.
pub open spec fn raw_check(instance_present: bool, data_present: bool) -> Result<
    (),
    PluginWrapperError,
> {
    if !instance_present {
        Err(PluginWrapperError::NullPluginInstance)
    } else if !data_present {
        Err(PluginWrapperError::AlreadyDestroyed)
    } else {
        Ok(())
    }
}

/// The dispatch outcome for `outcome`: its value on success, with nothing to
/// log; nothing, with the error's record, on failure.
pub open spec fn dispatched<T>(outcome: Result<T, PluginWrapperError>, r: (Option<T>, Option<LogRecord>)) -> bool {
    match outcome {
        Ok(v) => r.0 == Some(v) && r.1 is None,
        Err(e) => r.0 is None && (r.1 matches Some(rec) && records(rec, e)),
    }
}

/// The log record of an error.
pub fn log_record(error: &PluginWrapperError) -> (r: LogRecord)
    ensures
        records(r, *error),
{
    LogRecord { severity: error.severity(), message: error.message() }
}

impl<S, M, A> PluginWrapper<S, M, A> {
    pub closed spec fn spec_active(&self) -> bool {
        self.audio_processor is Some
    }

    pub closed spec fn spec_processor(&self) -> A
        recommends
            self.spec_active(),
    {
        self.audio_processor->0
    }

    pub closed spec fn spec_shared(&self) -> S {
        self.shared
    }

    pub closed spec fn spec_main_thread(&self) -> M {
        self.main_thread
    }

    /// An inactive plugin with the given shared and control-thread parts.
    pub fn new(shared: S, main_thread: M) -> (r: PluginWrapper<S, M, A>)
        ensures
            !r.spec_active(),
            r.spec_shared() == shared,
            r.spec_main_thread() == main_thread,
    {
        PluginWrapper { shared, main_thread, audio_processor: None }
    }

    /// Whether the plugin is active.
    pub fn is_active(&self) -> (r: bool)
        ensures
            r == self.spec_active(),
    {
        self.audio_processor.is_some()
    }

    /// The part shared by all contexts.
    pub fn shared(&self) -> (r: &S)
        ensures
            *r == self.spec_shared(),
    {
        &self.shared
    }

    /// The control-thread part.
    pub fn main_thread(&self) -> (r: &M)
        ensures
            *r == self.spec_main_thread(),
    {
        &self.main_thread
    }

    /// The control-thread part, for changing it.
    pub fn main_thread_mut(&mut self) -> (r: &mut M)
        ensures
            *r == old(self).spec_main_thread(),
            final(self).spec_main_thread() == *final(r),
            final(self).spec_shared() == old(self).spec_shared(),
            final(self).spec_active() == old(self).spec_active(),
            old(self).spec_active() ==> final(self).spec_processor() == old(self).spec_processor(),
    {
        &mut self.main_thread
    }

    /// The processing-thread part for changing it, or `DeactivatedPlugin`
    /// while inactive.
    pub fn audio_processor_mut(&mut self) -> (r: Result<&mut A, PluginWrapperError>)
        ensures
            r is Ok <==> old(self).spec_active(),
            r matches Ok(a) ==> *a == old(self).spec_processor() && final(self).spec_processor()
                == *final(a),
            r matches Err(e) ==> e is DeactivatedPlugin && *final(self) == *old(self),
            final(self).spec_active() == old(self).spec_active(),
            final(self).spec_shared() == old(self).spec_shared(),
            final(self).spec_main_thread() == old(self).spec_main_thread(),
    {
        match &mut self.audio_processor {
            Some(a) => Ok(a),
            None => Err(PluginWrapperError::DeactivatedPlugin),
        }
    }

    /// The processing-thread part, or `DeactivatedPlugin` while inactive.
    pub fn audio_processor(&self) -> (r: Result<&A, PluginWrapperError>)
        ensures
            r is Ok <==> self.spec_active(),
            r matches Ok(a) ==> *a == self.spec_processor(),
            r matches Err(e) ==> e is DeactivatedPlugin,
    {
        match &self.audio_processor {
            Some(a) => Ok(a),
            None => Err(PluginWrapperError::DeactivatedPlugin),
        }
    }

    /// Stores the processing-thread part that the plugin's activation logic
    /// produced, or reports its error.
    pub fn store_processor(&mut self, created: Result<A, PluginError>) -> (r: Result<
        (),
        PluginWrapperError,
    >)
        requires
            !old(self).spec_active(),
        ensures
            created matches Ok(a) ==> r is Ok && final(self).spec_active()
                && final(self).spec_processor() == a,
            created matches Err(e) ==> r matches Err(PluginWrapperError::Plugin(e2)) && e2 == e
                && !final(self).spec_active(),
            final(self).spec_shared() == old(self).spec_shared(),
            final(self).spec_main_thread() == old(self).spec_main_thread(),
    {
        match created {
            Ok(a) => {
                self.audio_processor = Some(a);
                Ok(())
            },
            Err(e) => Err(PluginWrapperError::Plugin(e)),
        }
    }

    /// Activates the plugin: refused with `ActivatedPlugin` while active, in
    /// which case the activation logic is not run; otherwise runs it on the
    /// shared and control-thread parts and stores what it produced.
    pub fn activate<F>(&mut self, activation: F) -> (r: Result<(), PluginWrapperError>)
        where
            F: FnOnce(&S, &mut M) -> Result<A, PluginError>,
        requires
            forall|s: &S, m: &mut M| activation.requires((s, m)),
        ensures
            old(self).spec_active() ==> (r matches Err(PluginWrapperError::ActivatedPlugin)),
            old(self).spec_active() ==> *final(self) == *old(self),
            !old(self).spec_active() ==> (r is Ok <==> final(self).spec_active()),
            !old(self).spec_active() ==> (r is Err ==> r matches Err(PluginWrapperError::Plugin(_))),
            !old(self).spec_active() ==> exists|s: &S, m: &mut M, o: Result<A, PluginError>|
                {
                    &&& activation.ensures((s, m), o)
                    &&& (o is Ok <==> r is Ok)
                    &&& (o matches Ok(a) ==> final(self).spec_processor() == a)
                    &&& (o matches Err(e) ==> r == Err::<(), PluginWrapperError>(
                        PluginWrapperError::Plugin(e),
                    ))
                },
            final(self).spec_shared() == old(self).spec_shared(),
    {
        if self.audio_processor.is_some() {
            return Err(PluginWrapperError::ActivatedPlugin);
        }
        let created = activation(&self.shared, &mut self.main_thread);
        self.store_processor(created)
    }

    /// Dispatches one foreign call: checks the raw pointers (`wrapper` is the
    /// instance's data, absent when its pointer is null), runs `handler` on
    /// the wrapper only when they hold, and ends as [`finish_dispatch`] does.
    /// `handler` must not unwind; a panic inside it is reported as
    /// `PluginWrapperError::Panic`.
    pub fn handle<T, F>(instance_present: bool, wrapper: Option<&PluginWrapper<S, M, A>>, handler: F) -> (r: (
        Option<T>,
        Option<LogRecord>,
    ))
        where
            F: FnOnce(&PluginWrapper<S, M, A>) -> Result<T, PluginWrapperError>,
        requires
            forall|w: &PluginWrapper<S, M, A>| handler.requires((w,)),
        ensures
            raw_check(instance_present, wrapper is Some) matches Err(e) ==> dispatched(
                Err::<T, PluginWrapperError>(e),
                r,
            ),
            raw_check(instance_present, wrapper is Some) is Ok ==> exists|
                o: Result<T, PluginWrapperError>,
            |
                handler.ensures((wrapper->0,), o) && dispatched(o, r),
    {
        match from_raw(instance_present, wrapper.is_some()) {
            Err(e) => finish_dispatch(Err(e)),
            Ok(()) => match wrapper {
                Some(w) => {
                    let outcome = handler(w);
                    finish_dispatch(outcome)
                },
                None => finish_dispatch(Err(PluginWrapperError::AlreadyDestroyed)),
            },
        }
    }

    /// Deactivates the plugin, handing back its processing-thread part to be
    /// torn down; `DeactivatedPlugin` while inactive.
    pub fn deactivate(&mut self) -> (r: Result<A, PluginWrapperError>)
        ensures
            !old(self).spec_active() ==> r matches Err(PluginWrapperError::DeactivatedPlugin),
            old(self).spec_active() ==> r == Ok::<A, PluginWrapperError>(old(self).spec_processor()),
            !final(self).spec_active(),
            final(self).spec_shared() == old(self).spec_shared(),
            final(self).spec_main_thread() == old(self).spec_main_thread(),
    {
        match self.audio_processor.take() {
            Some(a) => Ok(a),
            None => Err(PluginWrapperError::DeactivatedPlugin),
        }
    }
}

/// Checks the raw pointers of a foreign call.
pub fn from_raw(instance_present: bool, data_present: bool) -> (r: Result<(), PluginWrapperError>)
    ensures
        r == raw_check(instance_present, data_present),
{
    if !instance_present {
        Err(PluginWrapperError::NullPluginInstance)
    } else if !data_present {
        Err(PluginWrapperError::AlreadyDestroyed)
    } else {
        Ok(())
    }
}

/// Ends a dispatch: the value on success, else the record to log. Nothing
/// is retried and no failure goes further.
pub fn finish_dispatch<T>(outcome: Result<T, PluginWrapperError>) -> (r: (Option<T>, Option<LogRecord>))
    ensures
        dispatched(outcome, r),
{
    match outcome {
        Ok(v) => (Some(v), None),
        Err(e) => {
            let rec = log_record(&e);
            (None, Some(rec))
        },
    }
}

/// A call with a null instance pointer never reaches plugin logic: the
/// pointer check fails with a null-instance error of host-misbehaviour
/// severity, and the dispatch then yields no value and one log record of it.
pub proof fn lemma_null_instance_is_reported<T>(data_present: bool, r: (Option<T>, Option<LogRecord>))
    requires
        raw_check(false, data_present) matches Err(e) && dispatched(Err::<T, PluginWrapperError>(e), r),
    ensures
        raw_check(false, data_present) matches Err(e) && e is NullPluginInstance,
        r.0 is None,
        r.1 matches Some(rec) && rec.severity == crate::error::LOG_HOST_MISBEHAVING
            && rec.message@ == message_of(PluginWrapperError::NullPluginInstance),
{
}

} // verus!
