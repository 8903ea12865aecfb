use vstd::prelude::*;

verus! {

/// The steady-time value of the ABI that means "no steady time".
pub const STEADY_TIME_ABSENT: i64 = -1;

/// The number of frames a process cycle covers, given the frame counts that
/// the input and output buffers report: the smaller of the two when both do,
/// the one reported otherwise, and zero when neither does.
pub open spec fn effective_frames(input: Option<u32>, output: Option<u32>) -> u32 {
    match (input, output) {
        (Some(a), Some(b)) => if a <= b { a } else { b },
        (Some(a), None) => a,
        (None, Some(b)) => b,
        (None, None) => 0,
    }
}

/// The signed steady time of the ABI for a requested steady time: the absent
/// marker for `None`, the value itself saturated to `i64::MAX` otherwise.
pub open spec fn steady_time_code(t: Option<u64>) -> i64 {
    match t {
        None => STEADY_TIME_ABSENT,
        Some(v) => if v <= i64::MAX as u64 { v as i64 } else { i64::MAX },
    }
}

/// How a signed steady time of the ABI reads: every negative value is absent.
pub open spec fn steady_time_value(raw: i64) -> Option<u64> {
    if raw < 0 { None } else { Some(raw as u64) }
}

/// Resolves the frame count of a process cycle from what each side reports.
pub fn frames_count(input: Option<u32>, output: Option<u32>) -> (r: u32)
    ensures
        r == effective_frames(input, output),
{
    match (input, output) {
        (Some(a), Some(b)) => if a <= b { a } else { b },
        (Some(a), None) => a,
        (None, Some(b)) => b,
        (None, None) => 0,
    }
}

/// Encodes a requested steady time for the process payload.
pub fn encode_steady_time(t: Option<u64>) -> (r: i64)
    ensures
        r == steady_time_code(t),
{
    match t {
        None => STEADY_TIME_ABSENT,
        Some(v) => if v <= i64::MAX as u64 { v as i64 } else { i64::MAX },
    }
}

/// Reads the steady time carried by a process payload.
pub fn decode_steady_time(raw: i64) -> (r: Option<u64>)
    ensures
        r == steady_time_value(raw),
{
    if raw < 0 { None } else { Some(raw as u64) }
}

/// The absent steady time never collides with a supplied one: a supplied
/// value encodes as a non-negative number, the absent one as a negative
/// number, and every supplied value up to `i64::MAX` reads back unchanged.
pub proof fn lemma_steady_time_distinct(v: u64)
    ensures
        steady_time_code(Some(v)) >= 0,
        steady_time_code(None) < 0,
        steady_time_code(Some(v)) != steady_time_code(None),
        steady_time_value(steady_time_code(None)) == None::<u64>,
        v <= i64::MAX as u64 ==> steady_time_value(steady_time_code(Some(v))) == Some(v),
{
}

/// The plain-value part of one process payload, as handed to the foreign
/// process function beside the buffers and event queues it describes.
#[derive(Clone, Copy, Debug, PartialEq, Eq, Structural)]
pub struct ProcessCycle {
    pub steady_time: i64,
    pub frames_count: u32,
    pub has_transport: bool,
    pub audio_inputs_count: u32,
    pub audio_outputs_count: u32,
}

impl ProcessCycle {
    /// Lays out one process payload from what the caller supplies: the frame
    /// counts the buffers report, the number of buffers on each side (the
    /// ABI's 32-bit count, as a truncating cast), the requested steady time and
    /// whether a transport snapshot comes along.
    pub fn new(
        input_frames: Option<u32>,
        output_frames: Option<u32>,
        audio_inputs: usize,
        audio_outputs: usize,
        steady_time: Option<u64>,
        has_transport: bool,
    ) -> (r: ProcessCycle)
        ensures
            r.frames_count == effective_frames(input_frames, output_frames),
            r.steady_time == steady_time_code(steady_time),
            r.has_transport == has_transport,
            r.audio_inputs_count == audio_inputs as u32,
            r.audio_outputs_count == audio_outputs as u32,
    {
        ProcessCycle {
            steady_time: encode_steady_time(steady_time),
            frames_count: frames_count(input_frames, output_frames),
            has_transport,
            audio_inputs_count: audio_inputs as u32,
            audio_outputs_count: audio_outputs as u32,
        }
    }
}

} // verus!
