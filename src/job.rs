use vstd::prelude::*;
use crate::render::{scratch_file, scratch_path, transcode_args, transcode_arguments};

verus! {

/// Largest input or output file a job accepts: 2 GiB.
pub const MAX_FILE_BYTES: u64 = 2147483648;

/// How long the transcoder may run, in milliseconds, counted from its start.
pub const DEADLINE_MS: u64 = 300000;

/// How long to wait between two looks at the running transcoder.
pub const POLL_INTERVAL_MS: u64 = 100;

/// Why a job failed. Every failure ends the job.
#[derive(Clone, Copy, Debug, PartialEq, Eq, Structural)]
pub enum JobError {
    InputUnavailable,
    InputTooLarge,
    SpawnFailed,
    Timeout,
    ProcessFailed,
    OutputMissing,
    OutputTooLarge,
    WaitError,
}

/// The diagnostic reported for each failure.
pub open spec fn error_text(e: JobError) -> Seq<char> {
    match e {
        JobError::InputUnavailable => "input file could not be read"@,
        JobError::InputTooLarge => "input file exceeds 2 GiB"@,
        JobError::SpawnFailed => "failed to start the transcoder"@,
        JobError::Timeout => "transcoder did not finish within 300 s and was stopped"@,
        JobError::ProcessFailed => "transcoder exited with a failure status"@,
        JobError::OutputMissing => "transcoder reported success but wrote no output"@,
        JobError::OutputTooLarge => "output file exceeds 2 GiB"@,
        JobError::WaitError => "failed to poll the transcoder"@,
    }
}

impl JobError {
    /// The human-readable diagnostic for this failure.
    pub fn message(&self) -> (r: String)
        ensures
            r@ == error_text(*self),
    {
        match self {
            JobError::InputUnavailable => String::from_str("input file could not be read"),
            JobError::InputTooLarge => String::from_str("input file exceeds 2 GiB"),
            JobError::SpawnFailed => String::from_str("failed to start the transcoder"),
            JobError::Timeout => String::from_str(
                "transcoder did not finish within 300 s and was stopped",
            ),
            JobError::ProcessFailed => String::from_str("transcoder exited with a failure status"),
            JobError::OutputMissing => String::from_str(
                "transcoder reported success but wrote no output",
            ),
            JobError::OutputTooLarge => String::from_str("output file exceeds 2 GiB"),
            JobError::WaitError => String::from_str("failed to poll the transcoder"),
        }
    }
}

/// What a job is asked to do: resize the video at `input_path`.
pub struct JobRequest {
    pub input_path: String,
    pub width: u32,
    pub height: u32,
}

/// A started job's command: the program, looked for on the execution path, its
/// arguments, and the file it writes.
pub struct Launch {
    pub program: String,
    pub args: Vec<String>,
    pub output: String,
}

/// The failure that the input's size calls for, if any; `None` when the
/// input could not be examined.
pub open spec fn input_failure(size: Option<u64>) -> Option<JobError> {
    match size {
        None => Some(JobError::InputUnavailable),
        Some(s) => if s > MAX_FILE_BYTES {
            Some(JobError::InputTooLarge)
        } else {
            None
        },
    }
}

/// Checks the input before anything is started.
pub fn check_input(input_size: Option<u64>) -> (r: Result<(), JobError>)
    ensures
        match input_failure(input_size) {
            Some(e) => r == Err::<(), JobError>(e),
            None => r is Ok,
        },
{
    match input_size {
        None => Err(JobError::InputUnavailable),
        Some(s) => if s > MAX_FILE_BYTES {
            Err(JobError::InputTooLarge)
        } else {
            Ok(())
        },
    }
}

/// Plans a job: checks its input and, only where it passes, builds the command
/// that writes to the path named by `token` in `scratch_dir`. A process is
/// started only from a `Launch`, so a rejected input starts none.
pub fn prepare(req: &JobRequest, input_size: Option<u64>, scratch_dir: &str, token: u64) -> (r:
    Result<Launch, JobError>)
    ensures
        match input_failure(input_size) {
            Some(e) => r matches Err(f) && f == e,
            None => r matches Ok(l) && l.program@ == "ffmpeg"@ && l.output@ == scratch_path(
                scratch_dir@,
                token as nat,
            ) && l.args.deep_view() == transcode_args(
                req.input_path@,
                req.width as nat,
                req.height as nat,
                l.output@,
            ),
        },
{
    match check_input(input_size) {
        Err(e) => Err(e),
        Ok(()) => {
            let output = scratch_file(scratch_dir, token);
            let args = transcode_arguments(req.input_path.as_str(), req.width, req.height, output.as_str());
            Ok(Launch { program: String::from_str("ffmpeg"), args, output })
        },
    }
}

/// What one look at the running transcoder saw.
#[derive(Clone, Copy, Debug, PartialEq, Eq, Structural)]
pub enum Probe {
    /// Still running.
    Running,
    /// Exited; `true` for a success status.
    Exited(bool),
    /// Its state could not be read.
    Unreadable,
}

/// What the supervisor does after a look.
#[derive(Clone, Copy, Debug, PartialEq, Eq, Structural)]
pub enum Step {
    /// Wait `POLL_INTERVAL_MS` and look again.
    Sleep,
    /// Stop the process, then end the job with this failure, whether or not
    /// stopping it succeeded.
    Kill(JobError),
    /// The process succeeded: go on to check its output.
    Collect,
    /// End the job with this failure.
    Fail(JobError),
}

/// The supervisor's decision after a look taken `elapsed_ms` after the start.
pub open spec fn next_step(elapsed_ms: u64, probe: Probe) -> Step {
    match probe {
        Probe::Running => if elapsed_ms >= DEADLINE_MS {
            Step::Kill(JobError::Timeout)
        } else {
            Step::Sleep
        },
        Probe::Exited(ok) => if ok {
            Step::Collect
        } else {
            Step::Fail(JobError::ProcessFailed)
        },
        Probe::Unreadable => Step::Fail(JobError::WaitError),
    }
}

/// Decides what to do after a look at the transcoder. A process still running
/// at the deadline is stopped and the job times out; one that exited with a
/// failure status fails the job, whatever it left on disk.
pub fn on_probe(elapsed_ms: u64, probe: Probe) -> (r: Step)
    ensures
        r == next_step(elapsed_ms, probe),
        probe == Probe::Running && elapsed_ms >= DEADLINE_MS ==> r == Step::Kill(JobError::Timeout),
        probe == Probe::Exited(false) ==> r == Step::Fail(JobError::ProcessFailed),
{
    match probe {
        Probe::Running => if elapsed_ms >= DEADLINE_MS {
            Step::Kill(JobError::Timeout)
        } else {
            Step::Sleep
        },
        Probe::Exited(ok) => if ok {
            Step::Collect
        } else {
            Step::Fail(JobError::ProcessFailed)
        },
        Probe::Unreadable => Step::Fail(JobError::WaitError),
    }
}

/// Checks what a successful run left at `output`, given its size (`None`
/// where no file is there), and hands the path back when it passes.
pub fn collect(output_size: Option<u64>, output: String) -> (r: Result<String, JobError>)
    ensures
        match output_size {
            None => r == Err::<String, JobError>(JobError::OutputMissing),
            Some(s) => if s > MAX_FILE_BYTES {
                r == Err::<String, JobError>(JobError::OutputTooLarge)
            } else {
                r matches Ok(p) && p@ == output@
            },
        },
{
    match output_size {
        None => Err(JobError::OutputMissing),
        Some(s) => if s > MAX_FILE_BYTES {
            Err(JobError::OutputTooLarge)
        } else {
            Ok(output)
        },
    }
}

} // verus!
