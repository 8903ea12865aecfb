use clack_core::cycle::{decode_steady_time, encode_steady_time, frames_count, ProcessCycle, STEADY_TIME_ABSENT};
use clack_core::error::HostError;
use clack_core::instance::{FactoryOutcome, ForeignCall, FramesCountRange, FunctionTable, InstanceIds, PluginInstanceInner};
use clack_core::processor::{PluginAudioProcessor, StartedPluginAudioProcessor};
use clack_core::status::{
    ProcessError, ProcessStatus, PROCESS_CONTINUE, PROCESS_CONTINUE_IF_NOT_QUIET, PROCESS_ERROR,
    PROCESS_SLEEP, PROCESS_TAIL,
};

fn table(start: bool, process: bool) -> FunctionTable {
    FunctionTable {
        activate: true,
        deactivate: true,
        start_processing: start,
        stop_processing: true,
        reset: true,
        process,
        on_main_thread: true,
        destroy: true,
    }
}

fn active(ids: &mut InstanceIds, t: FunctionTable) -> (PluginInstanceInner<(), ()>, PluginAudioProcessor<u32>) {
    let mut i = PluginInstanceInner::instantiate(ids, (), (), FactoryOutcome::Returned(Some(t))).unwrap();
    let p = i.activate(FramesCountRange::new(1, 1024).unwrap(), |_, _| 7u32).unwrap();
    let p = i.finish_activation(p, true).unwrap();
    (i, PluginAudioProcessor::from(p))
}

fn stopped(t: FunctionTable) -> (PluginInstanceInner<(), ()>, PluginAudioProcessor<u32>) {
    let mut ids = InstanceIds::new();
    active(&mut ids, t)
}

#[test]
fn frames_count_takes_minimum_of_both() {
    assert_eq!(frames_count(Some(64), Some(128)), 64);
    assert_eq!(frames_count(Some(128), Some(64)), 64);
}

#[test]
fn frames_count_uses_the_reported_side() {
    assert_eq!(frames_count(None, Some(100)), 100);
    assert_eq!(frames_count(Some(100), None), 100);
}

#[test]
fn frames_count_is_zero_when_nothing_reported() {
    assert_eq!(frames_count(None, None), 0);
}

#[test]
fn steady_time_absent_is_distinct() {
    assert_eq!(encode_steady_time(None), -1);
    assert_eq!(STEADY_TIME_ABSENT, -1);
    assert_eq!(encode_steady_time(Some(0)), 0);
    assert_eq!(encode_steady_time(Some(42)), 42);
    for v in [0u64, 1, 1000, i64::MAX as u64, i64::MAX as u64 + 1, u64::MAX] {
        assert_ne!(encode_steady_time(Some(v)), encode_steady_time(None));
        assert!(encode_steady_time(Some(v)) >= 0);
    }
}

#[test]
fn steady_time_saturates_and_round_trips() {
    assert_eq!(encode_steady_time(Some(u64::MAX)), i64::MAX);
    assert_eq!(decode_steady_time(encode_steady_time(None)), None);
    assert_eq!(decode_steady_time(encode_steady_time(Some(12345))), Some(12345));
    assert_eq!(decode_steady_time(-7), None);
}

#[test]
fn process_cycle_layout() {
    let c = ProcessCycle::new(Some(64), Some(128), 2, 1, Some(99), true);
    assert_eq!(
        c,
        ProcessCycle {
            steady_time: 99,
            frames_count: 64,
            has_transport: true,
            audio_inputs_count: 2,
            audio_outputs_count: 1,
        }
    );
    let d = ProcessCycle::new(None, None, 0, 0, None, false);
    assert_eq!(d.steady_time, -1);
    assert_eq!(d.frames_count, 0);
    assert!(!d.has_transport);
}

#[test]
fn status_codes_match_the_abi() {
    assert_eq!(PROCESS_ERROR, clap_sys::process::CLAP_PROCESS_ERROR);
    assert_eq!(PROCESS_CONTINUE, clap_sys::process::CLAP_PROCESS_CONTINUE);
    assert_eq!(PROCESS_CONTINUE_IF_NOT_QUIET, clap_sys::process::CLAP_PROCESS_CONTINUE_IF_NOT_QUIET);
    assert_eq!(PROCESS_TAIL, clap_sys::process::CLAP_PROCESS_TAIL);
    assert_eq!(PROCESS_SLEEP, clap_sys::process::CLAP_PROCESS_SLEEP);
}

#[test]
fn status_decoding() {
    assert_eq!(ProcessStatus::from_raw(0), Some(Err(ProcessError)));
    assert_eq!(ProcessStatus::from_raw(1), Some(Ok(ProcessStatus::Continue)));
    assert_eq!(ProcessStatus::from_raw(2), Some(Ok(ProcessStatus::ContinueIfNotQuiet)));
    assert_eq!(ProcessStatus::from_raw(3), Some(Ok(ProcessStatus::Tail)));
    assert_eq!(ProcessStatus::from_raw(4), Some(Ok(ProcessStatus::Sleep)));
    assert_eq!(ProcessStatus::from_raw(5), None);
    assert_eq!(ProcessStatus::from_raw(-1), None);
    for s in [ProcessStatus::Continue, ProcessStatus::ContinueIfNotQuiet, ProcessStatus::Tail, ProcessStatus::Sleep] {
        assert_eq!(ProcessStatus::from_raw(s.as_raw()), Some(Ok(s)));
    }
}

#[test]
fn process_result_maps_errors() {
    assert_eq!(StartedPluginAudioProcessor::<u32>::process_result(1), Ok(ProcessStatus::Continue));
    assert_eq!(StartedPluginAudioProcessor::<u32>::process_result(4), Ok(ProcessStatus::Sleep));
    assert_eq!(StartedPluginAudioProcessor::<u32>::process_result(0), Err(HostError::ProcessingFailed));
    assert_eq!(StartedPluginAudioProcessor::<u32>::process_result(17), Err(HostError::ProcessingFailed));
}

#[test]
fn process_on_stopped_fails() {
    let (_i, p) = stopped(table(true, true));
    assert_eq!(p.process(Some(64), Some(64), 1, 1, None, false), Err(HostError::ProcessingStopped));
    assert!(p.as_started().is_err());
}

#[test]
fn process_on_started_lays_out_the_cycle() {
    let (_i, mut p) = stopped(table(true, true));
    assert_eq!(p.start_call(), Some(ForeignCall::StartProcessing));
    assert_eq!(p.start_processing(Some(true)), Ok(()));
    let c = p.process(Some(64), Some(128), 1, 1, Some(5), false).unwrap();
    assert_eq!(c.frames_count, 64);
    assert_eq!(c.steady_time, 5);
}

#[test]
fn process_without_entry_fails() {
    let (_i, mut p) = stopped(table(false, false));
    assert_eq!(p.start_call(), None);
    p.start_processing(None).unwrap();
    assert_eq!(p.process(None, Some(100), 0, 1, None, false), Err(HostError::NullProcessFunction));
}

#[test]
fn strict_start_on_started_errors() {
    let (_i, mut p) = stopped(table(true, true));
    p.start_processing(Some(true)).unwrap();
    assert_eq!(p.start_call(), None);
    assert_eq!(p.start_processing(None), Err(HostError::ProcessingStarted));
    assert!(p.is_started());
}

#[test]
fn ensure_start_on_started_is_idle() {
    let (_i, mut p) = stopped(table(true, true));
    assert_eq!(p.ensure_processing_started(Some(true)), Ok(()));
    assert_eq!(p.start_call(), None);
    assert_eq!(p.ensure_processing_started(None), Ok(()));
    assert!(p.is_started());
}

#[test]
fn failed_start_stays_stopped() {
    let (_i, mut p) = stopped(table(true, true));
    assert_eq!(p.start_processing(Some(false)), Err(HostError::StartProcessingFailed));
    assert!(!p.is_started());
    assert!(p.as_stopped().is_ok());
}

#[test]
fn stop_transitions() {
    let (_i, mut p) = stopped(table(true, true));
    assert_eq!(p.stop_processing(), Err(HostError::ProcessingStopped));
    assert_eq!(p.ensure_processing_stopped(), None);
    p.start_processing(Some(true)).unwrap();
    assert_eq!(p.as_stopped().err(), Some(HostError::ProcessingStarted));
    assert_eq!(p.stop_processing(), Ok(Some(ForeignCall::StopProcessing)));
    assert!(!p.is_started());
    p.start_processing(Some(true)).unwrap();
    assert_eq!(p.ensure_processing_stopped(), Some(ForeignCall::StopProcessing));
    assert!(!p.is_started());
}

#[test]
fn into_started_keeps_the_processor_on_failure() {
    let (i, p) = stopped(table(true, true));
    let e = p.into_started(Some(false)).err().unwrap();
    let back = e.into_stopped_processor();
    assert!(back.matches(&i));
    let started = back.start_processing(Some(true)).ok().unwrap();
    assert!(started.matches(&i));
    let (s, call) = started.stop_processing();
    assert_eq!(call, Some(ForeignCall::StopProcessing));
    assert!(s.matches(&i));
}

#[test]
fn into_stopped_stops_a_started_processor() {
    let (i, mut p) = stopped(table(true, true));
    p.start_processing(Some(true)).unwrap();
    let (s, call) = p.into_stopped();
    assert_eq!(call, Some(ForeignCall::StopProcessing));
    assert!(s.matches(&i));
}

#[test]
fn reset_in_either_state() {
    let (_i, mut p) = stopped(table(true, true));
    assert_eq!(p.reset(), Some(ForeignCall::Reset));
    p.start_processing(Some(true)).unwrap();
    assert_eq!(p.reset(), Some(ForeignCall::Reset));
}

#[test]
fn matches_only_its_own_instance() {
    let mut ids = InstanceIds::new();
    let (a, mut p) = active(&mut ids, table(true, true));
    let (b, q) = active(&mut ids, table(true, true));
    assert!(p.matches(&a));
    assert!(!p.matches(&b));
    assert!(q.matches(&b));
    assert!(!q.matches(&a));
    p.start_processing(Some(true)).unwrap();
    assert!(p.matches(&a));
    assert!(!p.matches(&b));
    p.stop_processing().unwrap();
    assert!(p.matches(&a));
    assert!(!p.matches(&b));
}

#[test]
fn handler_is_reachable_in_both_states() {
    let (_i, mut p) = stopped(table(true, true));
    assert_eq!(*p.handler(), 7);
    *p.handler_mut() = 8;
    p.start_processing(Some(true)).unwrap();
    assert_eq!(*p.handler(), 8);
    *p.as_started_mut().unwrap().handler_mut() = 9;
    assert_eq!(*p.as_started().unwrap().handler(), 9);
}

#[test]
fn mutable_state_access() {
    let (i, mut p) = stopped(table(true, true));
    assert!(matches!(p.as_started_mut(), Err(HostError::ProcessingStopped)));
    assert!(p.as_stopped_mut().unwrap().matches(&i));
    p.start_processing(Some(true)).unwrap();
    assert!(matches!(p.as_stopped_mut(), Err(HostError::ProcessingStarted)));
    assert!(p.as_started_mut().unwrap().matches(&i));
}
