use vstd::prelude::*;
use crate::error::HostError;
use crate::processor::{PluginAudioProcessor, StoppedPluginAudioProcessor};

verus! {

/// Which optional entries a foreign instance's function table provides.
#[derive(Clone, Copy, Debug, PartialEq, Eq, Structural)]
pub struct FunctionTable {
    pub activate: bool,
    pub deactivate: bool,
    pub start_processing: bool,
    pub stop_processing: bool,
    pub reset: bool,
    pub process: bool,
    pub on_main_thread: bool,
    pub destroy: bool,
}

/// An entry of a foreign instance's function table that the caller must invoke.
#[derive(Clone, Copy, Debug, PartialEq, Eq, Structural)]
pub enum ForeignCall {
    Activate,
    Deactivate,
    StartProcessing,
    StopProcessing,
    Reset,
    Process,
    OnMainThread,
    Destroy,
}

/// What a plugin factory gave back when asked for an instance.
#[derive(Clone, Copy, Debug, PartialEq, Eq, Structural)]
pub enum FactoryOutcome {
    /// The loaded binary exposes no factory.
    MissingFactory,
    /// The factory reported an error.
    Failed,
    /// The factory returned an instance pointer: `None` when it was null, the
    /// instance's function table otherwise.
    Returned(Option<FunctionTable>),
}

/// The frame-count range of an activation, `min <= max`.
#[derive(Clone, Copy, Debug, PartialEq, Eq, Structural)]
pub struct FramesCountRange {
    pub min: u32,
    pub max: u32,
}

impl FramesCountRange {
    pub open spec fn wf(&self) -> bool {
        self.min <= self.max
    }

    /// The range `min..=max`, or `None` when it is empty.
    pub fn new(min: u32, max: u32) -> (r: Option<FramesCountRange>)
        ensures
            r is Some <==> min <= max,
            r matches Some(range) ==> range.wf() && range.min == min && range.max == max,
    {
        if min <= max {
            Some(FramesCountRange { min, max })
        } else {
            None
        }
    }
}

/// `Some(call)` when the table provides that entry, `None` when it does not.
pub open spec fn call_if(present: bool, call: ForeignCall) -> Option<ForeignCall> {
    if present { Some(call) } else { None }
}

fn call_when(present: bool, call: ForeignCall) -> (r: Option<ForeignCall>)
    ensures
        r == call_if(present, call),
{
    if present { Some(call) } else { None }
}

/// The foreign calls that tear an instance down, in order: deactivation when
/// it is still active and provides that entry, then destruction when it
/// provides that entry.
pub open spec fn teardown_calls(active: bool, table: FunctionTable) -> Seq<ForeignCall> {
    let deactivation = if active && table.deactivate {
        seq![ForeignCall::Deactivate]
    } else {
        Seq::empty()
    };
    if table.destroy {
        deactivation.push(ForeignCall::Destroy)
    } else {
        deactivation
    }
}

/// The first step of activation: the table must provide an activate entry
/// and the instance must be inactive.
pub open spec fn activation_check(table: FunctionTable, active: bool) -> Result<(), HostError> {
    if !table.activate {
        Err(HostError::NullActivateFunction)
    } else if active {
        Err(HostError::AlreadyActivatedPlugin)
    } else {
        Ok(())
    }
}

/// The foreign calls of a deactivation, in order: a started processor is
/// stopped first (when the table has that entry), then the instance is
/// deactivated (when the table has that entry).
pub open spec fn deactivation_calls(started: bool, table: FunctionTable) -> Seq<ForeignCall> {
    let stop = if started && table.stop_processing {
        seq![ForeignCall::StopProcessing]
    } else {
        Seq::empty()
    };
    if table.deactivate {
        stop.push(ForeignCall::Deactivate)
    } else {
        stop
    }
}

/// Deactivation: refused on an inactive instance, else the foreign calls of
/// [`deactivation_calls`].
pub open spec fn deactivation(table: FunctionTable, active: bool, started: bool) -> Result<
    Seq<ForeignCall>,
    HostError,
> {
    if !active {
        Err(HostError::DeactivatedPlugin)
    } else {
        Ok(deactivation_calls(started, table))
    }
}

/// Issues the ids that name instances. Every id it hands out differs from
/// all ids it handed out before, so instances created through one
/// `InstanceIds` have distinct ids.
#[derive(Debug)]
pub struct InstanceIds {
    next: u64,
}

impl InstanceIds {
    /// Whether `id` was handed out already.
    pub closed spec fn issued(&self, id: u64) -> bool {
        id < self.next
    }

    /// Whether no id is left to hand out.
    pub closed spec fn exhausted(&self) -> bool {
        self.next == u64::MAX
    }

    /// An allocator that has handed out nothing yet.
    pub fn new() -> (r: InstanceIds)
        ensures
            forall|id: u64| !r.issued(id),
            !r.exhausted(),
    {
        InstanceIds { next: 0 }
    }

    /// A fresh id, or `None` once every id has been handed out.
    pub fn fresh(&mut self) -> (r: Option<u64>)
        ensures
            r is Some <==> !old(self).exhausted(),
            r matches Some(id) ==> !old(self).issued(id) && final(self).issued(id),
            r is None ==> *final(self) == *old(self),
            forall|i: u64| old(self).issued(i) ==> final(self).issued(i),
    {
        if self.next == u64::MAX {
            None
        } else {
            let id = self.next;
            self.next = self.next + 1;
            Some(id)
        }
    }
}

/// Two ids are distinct when one was handed out and the other was fresh at
/// the time: an instance created later never shares the id of one created
/// earlier through the same allocator.
pub proof fn lemma_fresh_ids_distinct(ids: InstanceIds, earlier: u64, later: u64)
    requires
        ids.issued(earlier),
        !ids.issued(later),
    ensures
        earlier != later,
{
}

/// One created foreign plugin instance, seen from the host, with the host's
/// own per-instance state split by context: `shared` for any thread and
/// `main_thread` for the control thread. The processing-thread state lives
/// in the audio processor that activation yields.
///
/// The value is consumed by [`PluginInstanceInner::teardown`], so an instance
/// is destroyed once.
#[derive(Debug)]
pub struct PluginInstanceInner<S, M> {
    id: u64,
    table: FunctionTable,
    shared: S,
    main_thread: M,
    active: bool,
}

impl<S, M> PluginInstanceInner<S, M> {
    pub closed spec fn spec_id(&self) -> u64 {
        self.id
    }

    pub closed spec fn spec_table(&self) -> FunctionTable {
        self.table
    }

    pub closed spec fn spec_active(&self) -> bool {
        self.active
    }

    pub closed spec fn spec_shared(&self) -> S {
        self.shared
    }

    pub closed spec fn spec_main_thread(&self) -> M {
        self.main_thread
    }

    /// Makes an instance out of what the factory gave back, with the host
    /// state that was built before the factory was called. The instance's id
    /// comes fresh from `ids`; when none is left, instantiation fails.
    pub fn instantiate(ids: &mut InstanceIds, shared: S, main_thread: M, factory: FactoryOutcome) -> (r:
        Result<PluginInstanceInner<S, M>, HostError>)
        ensures
            factory is MissingFactory ==> r matches Err(HostError::MissingPluginFactory),
            factory is Failed ==> r matches Err(HostError::InstantiationFailed),
            factory == FactoryOutcome::Returned(None) ==> r matches Err(
                HostError::InstantiationFailed,
            ),
            factory matches FactoryOutcome::Returned(Some(t)) ==> (old(ids).exhausted() ==> r matches Err(
                HostError::InstantiationFailed,
            )),
            factory matches FactoryOutcome::Returned(Some(t)) ==> (!old(ids).exhausted() ==> (r matches Ok(
                i,
            ) && i.spec_table() == t && !i.spec_active() && i.spec_shared() == shared
                && i.spec_main_thread() == main_thread)),
            r matches Ok(i) ==> !old(ids).issued(i.spec_id()) && final(ids).issued(i.spec_id()),
            r is Err ==> *final(ids) == *old(ids),
            forall|id: u64| old(ids).issued(id) ==> final(ids).issued(id),
    {
        match factory {
            FactoryOutcome::MissingFactory => Err(HostError::MissingPluginFactory),
            FactoryOutcome::Failed => Err(HostError::InstantiationFailed),
            FactoryOutcome::Returned(None) => Err(HostError::InstantiationFailed),
            FactoryOutcome::Returned(Some(table)) => match ids.fresh() {
                None => Err(HostError::InstantiationFailed),
                Some(id) => Ok(PluginInstanceInner { id, table, shared, main_thread, active: false }),
            },
        }
    }

    /// The id this instance was created under.
    pub fn id(&self) -> (r: u64)
        ensures
            r == self.spec_id(),
    {
        self.id
    }

    /// The entries of the foreign function table.
    pub fn raw_instance(&self) -> (r: FunctionTable)
        ensures
            r == self.spec_table(),
    {
        self.table
    }

    /// Whether the instance is active.
    pub fn is_active(&self) -> (r: bool)
        ensures
            r == self.spec_active(),
    {
        self.active
    }

    /// The host state shared by all contexts.
    pub fn shared(&self) -> (r: &S)
        ensures
            *r == self.spec_shared(),
    {
        &self.shared
    }

    /// The host state of the control thread.
    pub fn main_thread(&self) -> (r: &M)
        ensures
            *r == self.spec_main_thread(),
    {
        &self.main_thread
    }

    /// The host state of the control thread, for changing it.
    pub fn main_thread_mut(&mut self) -> (r: &mut M)
        ensures
            *r == old(self).spec_main_thread(),
            final(self).spec_main_thread() == *final(r),
            final(self).spec_id() == old(self).spec_id(),
            final(self).spec_table() == old(self).spec_table(),
            final(self).spec_shared() == old(self).spec_shared(),
            final(self).spec_active() == old(self).spec_active(),
    {
        &mut self.main_thread
    }

    /// First step of activation: the processing-thread state is built by
    /// `processor_init` from the shared and control-thread states, and the
    /// instance is active before the foreign activate function runs (which
    /// may call back into the host). On `Ok` the caller invokes the foreign
    /// activate function with `range` and hands its result, with the
    /// processor, to [`finish_activation`](Self::finish_activation). On
    /// `Err`, `processor_init` is not run.
    pub fn activate<A, F>(&mut self, range: FramesCountRange, processor_init: F) -> (r: Result<
        StoppedPluginAudioProcessor<A>,
        HostError,
    >)
        where
            F: FnOnce(&S, &mut M) -> A,
        requires
            range.wf(),
            forall|s: &S, m: &mut M| processor_init.requires((s, m)),
        ensures
            activation_check(old(self).spec_table(), old(self).spec_active()) matches Err(e) ==> (r
                matches Err(e2) && e2 == e),
            r is Err ==> *final(self) == *old(self),
            r is Ok <==> activation_check(old(self).spec_table(), old(self).spec_active()) is Ok,
            r matches Ok(p) ==> p.spec_id() == old(self).spec_id() && p.spec_table() == old(
                self,
            ).spec_table() && final(self).spec_active(),
            r matches Ok(p) ==> exists|s: &S, m: &mut M|
                processor_init.ensures((s, m), p.spec_handler()),
            final(self).spec_id() == old(self).spec_id(),
            final(self).spec_table() == old(self).spec_table(),
            final(self).spec_shared() == old(self).spec_shared(),
    {
        if !self.table.activate {
            return Err(HostError::NullActivateFunction);
        }
        if self.active {
            return Err(HostError::AlreadyActivatedPlugin);
        }
        let handler = processor_init(&self.shared, &mut self.main_thread);
        self.active = true;
        Ok(StoppedPluginAudioProcessor::new(self.id, self.table, handler))
    }

    /// Second step of activation, given what the foreign activate function
    /// returned: on success the processor comes back; on failure it is
    /// dropped with its processing-thread state and the instance is inactive
    /// again.
    pub fn finish_activation<A>(
        &mut self,
        processor: StoppedPluginAudioProcessor<A>,
        foreign_succeeded: bool,
    ) -> (r: Result<StoppedPluginAudioProcessor<A>, HostError>)
        requires
            old(self).spec_active(),
            processor.spec_id() == old(self).spec_id(),
        ensures
            foreign_succeeded ==> r == Ok::<StoppedPluginAudioProcessor<A>, HostError>(processor)
                && *final(self) == *old(self),
            !foreign_succeeded ==> (r matches Err(e) && e == HostError::ActivationFailed),
            final(self).spec_id() == old(self).spec_id(),
            final(self).spec_table() == old(self).spec_table(),
            final(self).spec_shared() == old(self).spec_shared(),
            final(self).spec_main_thread() == old(self).spec_main_thread(),
            final(self).spec_active() == foreign_succeeded,
    {
        if foreign_succeeded {
            Ok(processor)
        } else {
            self.active = false;
            Err(HostError::ActivationFailed)
        }
    }

    /// Deactivates the instance, taking its processor back. On `Ok` the
    /// caller invokes the returned foreign entries in order, and only then
    /// tears down the returned processing-thread state.
    pub fn deactivate<A>(&mut self, processor: PluginAudioProcessor<A>) -> (r: Result<
        (Vec<ForeignCall>, A),
        HostError,
    >)
        requires
            processor.wf(),
            processor@.id == old(self).spec_id(),
        ensures
            deactivation(old(self).spec_table(), old(self).spec_active(), processor@.started) matches Err(
                e,
            ) ==> (r matches Err(e2) && e2 == e),
            deactivation(old(self).spec_table(), old(self).spec_active(), processor@.started) matches Ok(
                calls,
            ) ==> (r matches Ok((c, a)) && c@ == calls && a == processor@.handler),
            !old(self).spec_active() ==> *final(self) == *old(self),
            final(self).spec_id() == old(self).spec_id(),
            final(self).spec_table() == old(self).spec_table(),
            final(self).spec_shared() == old(self).spec_shared(),
            final(self).spec_main_thread() == old(self).spec_main_thread(),
            !final(self).spec_active(),
    {
        if !self.active {
            return Err(HostError::DeactivatedPlugin);
        }
        let started = processor.is_started();
        let (stopped, _) = processor.into_stopped();
        let mut calls: Vec<ForeignCall> = Vec::new();
        if started && self.table.stop_processing {
            calls.push(ForeignCall::StopProcessing);
        }
        proof {
            let first: Seq<ForeignCall> = if started && self.table.stop_processing {
                seq![ForeignCall::StopProcessing]
            } else {
                Seq::empty()
            };
            assert(calls@ =~= first);
        }
        if self.table.deactivate {
            calls.push(ForeignCall::Deactivate);
        }
        self.active = false;
        Ok((calls, stopped.into_handler()))
    }

    /// The outcome of starting processing, given what the foreign
    /// start-processing function returned (`None` when the table has no such
    /// entry, which counts as success).
    pub fn start_processing(&self, reported: Option<bool>) -> (r: Result<(), HostError>)
        requires
            reported is Some <==> self.spec_table().start_processing,
        ensures
            r is Ok <==> reported != Some(false),
            r is Err ==> r == Err::<(), HostError>(HostError::StartProcessingFailed),
    {
        match reported {
            Some(false) => Err(HostError::StartProcessingFailed),
            _ => Ok(()),
        }
    }

    /// The foreign entry that stops processing, when the table provides one.
    pub fn stop_processing(&self) -> (r: Option<ForeignCall>)
        ensures
            r == call_if(self.spec_table().stop_processing, ForeignCall::StopProcessing),
    {
        call_when(self.table.stop_processing, ForeignCall::StopProcessing)
    }

    /// The foreign entry that resets the instance, when the table provides one.
    pub fn reset(&self) -> (r: Option<ForeignCall>)
        ensures
            r == call_if(self.spec_table().reset, ForeignCall::Reset),
    {
        call_when(self.table.reset, ForeignCall::Reset)
    }

    /// The foreign main-thread callback, when the table provides one.
    pub fn on_main_thread(&self) -> (r: Option<ForeignCall>)
        ensures
            r == call_if(self.spec_table().on_main_thread, ForeignCall::OnMainThread),
    {
        call_when(self.table.on_main_thread, ForeignCall::OnMainThread)
    }

    /// Ends the instance, returning the foreign calls to make in order: an
    /// active instance is deactivated first, then destroyed.
    pub fn teardown(self) -> (r: Vec<ForeignCall>)
        ensures
            r@ == teardown_calls(self.spec_active(), self.spec_table()),
    {
        let mut calls: Vec<ForeignCall> = Vec::new();
        if self.active && self.table.deactivate {
            calls.push(ForeignCall::Deactivate);
        }
        if self.table.destroy {
            calls.push(ForeignCall::Destroy);
        }
        proof {
            let d: Seq<ForeignCall> = if self.active && self.table.deactivate {
                seq![ForeignCall::Deactivate]
            } else {
                Seq::empty()
            };
            assert(d =~= if self.active && self.table.deactivate {
                Seq::<ForeignCall>::empty().push(ForeignCall::Deactivate)
            } else {
                Seq::empty()
            });
        }
        calls
    }
}

/// Activating an inactive instance whose table has an activate entry,
/// having the foreign activation succeed, then deactivating, succeeds at each
/// step and leaves the instance inactive, where activation succeeds again.
pub proof fn lemma_activation_cycle(table: FunctionTable)
    requires
        table.activate,
    ensures
        activation_check(table, false) is Ok,
        deactivation(table, true, false) is Ok,
        deactivation(table, true, true) is Ok,
{
}

/// Deactivating an instance that was never activated fails with
/// `DeactivatedPlugin` and asks for no foreign call.
pub proof fn lemma_deactivate_inactive(table: FunctionTable)
    ensures
        deactivation(table, false, false) == Err::<Seq<ForeignCall>, HostError>(
            HostError::DeactivatedPlugin,
        ),
{
}

/// Tearing an instance down makes each foreign call at most once, only
/// deactivation and destruction, and destruction comes last; an active
/// instance with both entries is deactivated, then destroyed.
pub proof fn lemma_teardown_order(active: bool, table: FunctionTable)
    ensures
        ({
            let calls = teardown_calls(active, table);
            &&& calls.no_duplicates()
            &&& forall|k: int| 0 <= k < calls.len() ==> calls[k] == ForeignCall::Deactivate
                || calls[k] == ForeignCall::Destroy
            &&& forall|k: int| 0 <= k < calls.len() && calls[k] == ForeignCall::Destroy ==> k
                == calls.len() - 1
            &&& active && table.deactivate && table.destroy ==> calls == seq![
                ForeignCall::Deactivate,
                ForeignCall::Destroy,
            ]
        }),
{
}

} // verus!
