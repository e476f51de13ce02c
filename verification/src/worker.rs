//! The conversion pipeline: per job the worker skips work when the rendition
//! is already cached, otherwise converts the source to the archive form
//! (unless it already is one), extracts the archive into the destination
//! directory, and removes the temporary archive when one was produced.
//!
//! The decisions are verified here; spawning the external converter and
//! extractor is the surrounding binary's job. It builds the exact command
//! lines with `converter_command` / `extractor_command` / `cleanup_command`,
//! runs them, and feeds each observed `RunResult` back in. `run_job` and
//! `worker_loop` state the outcome of a whole job, and of a whole batch,
//! as a function of those observations.

use vstd::prelude::*;

use crate::queue::{ConversionJob, JobQueue};
use crate::text::{has_suffix, lemma_rfind_in_range, rfind, rfind_char, str_has_suffix};

verus! {

/// What the surrounding binary observed when it ran one external command.
pub enum RunResult {
    /// The process launched and terminated; `success` is "exit status zero",
    /// `detail` a rendering of the exit status for diagnostics.
    Exited { success: bool, detail: String },
    /// The process could not be launched at all; `error` describes the
    /// underlying OS error.
    LaunchFailed { error: String },
}

/// Terminal failure of a single conversion job. Job-fatal only: the worker
/// reports it and proceeds to the next job.
pub enum ConversionError {
    /// The converter process could not be launched.
    EpubConversionCommandError { error: String },
    /// The converter exited with a non-zero status.
    EpubConversionError { detail: String },
    /// The extraction process could not be launched.
    EpubDeflationCommandError { error: String },
    /// The extractor exited with a non-zero status.
    EpubDeflationError { detail: String },
    /// The temporary archive could not be removed.
    CleanUpError { error: String },
}

impl ConversionError {
    /// The diagnostic line for this failure.
    pub open spec fn message_spec(self) -> Seq<char> {
        match self {
            ConversionError::EpubConversionCommandError { error } => "Failed to launch converter: "@
                + error@,
            ConversionError::EpubConversionError { detail } => "Converter exited with an error code: "@
                + detail@,
            ConversionError::EpubDeflationCommandError { error } => "Failed to launch unzip: "@
                + error@,
            ConversionError::EpubDeflationError { detail } => "Unzipper exited with an error code: "@
                + detail@,
            ConversionError::CleanUpError { error } => "Failed to remove temporary epub file: "@
                + error@,
        }
    }

    /// Renders the diagnostic line for this failure.
    pub fn message(&self) -> (r: String)
        ensures
            r@ == self.message_spec(),
    {
        match self {
            ConversionError::EpubConversionCommandError { error } => String::from_str(
                "Failed to launch converter: ",
            ).concat(error.as_str()),
            ConversionError::EpubConversionError { detail } => String::from_str(
                "Converter exited with an error code: ",
            ).concat(detail.as_str()),
            ConversionError::EpubDeflationCommandError { error } => String::from_str(
                "Failed to launch unzip: ",
            ).concat(error.as_str()),
            ConversionError::EpubDeflationError { detail } => String::from_str(
                "Unzipper exited with an error code: ",
            ).concat(detail.as_str()),
            ConversionError::CleanUpError { error } => String::from_str(
                "Failed to remove temporary epub file: ",
            ).concat(error.as_str()),
        }
    }
}

/// A job's source is already in the archive form iff its path ends in
/// `.epub`; only then is no conversion (and later no cleanup) needed.
pub open spec fn needs_convert(job: ConversionJob) -> bool {
    !str_has_suffix(job.source_path@, ".epub"@)
}

/// What the worker decides to do for one job, given whether the rendition
/// is already cached.
pub enum JobPlan {
    /// The marker is already present: finish without doing any work.
    AlreadyCached,
    /// The source is already an archive: extract it directly, no temporary
    /// file, no cleanup.
    DirectExtract { archive: String },
    /// Convert the source into a temporary archive at `epub_target`,
    /// extract that, then remove it.
    ConvertThenExtract { epub_target: String },
}

/// Where the final path component of `p` begins: one past the last
/// separator, or the start of the string if there is none.
pub open spec fn name_start(p: Seq<char>) -> int {
    match rfind(p, '/') {
        Some(i) => i + 1,
        None => 0,
    }
}

/// The temporary archive path for the destination directory `dest`: the
/// extension of its final component replaced by `epub`, or `.epub`
/// appended when that component has no extension (no dot strictly inside
/// it).
pub open spec fn epub_target_spec(dest: Seq<char>) -> Seq<char> {
    match rfind(dest, '.') {
        Some(d) => if d > name_start(dest) {
            dest.subrange(0, d) + ".epub"@
        } else {
            dest + ".epub"@
        },
        None => dest + ".epub"@,
    }
}

/// Derives the temporary archive path from the destination directory.
pub fn with_epub_extension(dest: &str) -> (r: String)
    ensures
        r@ == epub_target_spec(dest@),
{
    proof {
        lemma_rfind_in_range(dest@, '.');
        lemma_rfind_in_range(dest@, '/');
    }
    let n = dest.unicode_len();
    let dot = rfind_char(dest, '.');
    let sep = rfind_char(dest, '/');
    let base: String = match dot {
        Some(d) => {
            let ns: usize = match sep {
                Some(i) => {
                    proof {
                        assert(i < n);
                    }
                    i + 1
                },
                None => 0,
            };
            if d > ns {
                String::from_str(dest.substring_char(0, d))
            } else {
                String::from_str(dest)
            }
        },
        None => String::from_str(dest),
    };
    base.concat(".epub")
}

/// The worker's decision for one job: skip when `cached`, otherwise extract
/// the source directly when it is already an archive, otherwise convert
/// into the derived temporary archive first.
pub fn plan_job(job: &ConversionJob, cached: bool) -> (p: JobPlan)
    ensures
        cached ==> p is AlreadyCached,
        !cached && !needs_convert(*job) ==> (p matches JobPlan::DirectExtract { archive }
            && archive@ == job.source_path@),
        !cached && needs_convert(*job) ==> (p matches JobPlan::ConvertThenExtract { epub_target }
            && epub_target@ == epub_target_spec(job.destination_directory@)),
{
    if cached {
        JobPlan::AlreadyCached
    } else if has_suffix(job.source_path.as_str(), ".epub") {
        JobPlan::DirectExtract { archive: job.source_path.clone() }
    } else {
        JobPlan::ConvertThenExtract {
            epub_target: with_epub_extension(job.destination_directory.as_str()),
        }
    }
}

/// Command line for the external converter: source, target, then the fixed
/// profile flags (no auto-generated cover, tablet output profile).
pub fn converter_command(converter_bin: &str, srcpath: &str, dstpath: &str) -> (argv: Vec<String>)
    ensures
        argv@.len() == 6,
        argv@[0]@ == converter_bin@,
        argv@[1]@ == srcpath@,
        argv@[2]@ == dstpath@,
        argv@[3]@ == "--no-default-epub-cover"@,
        argv@[4]@ == "--output-profile"@,
        argv@[5]@ == "tablet"@,
{
    let mut argv: Vec<String> = Vec::new();
    argv.push(String::from_str(converter_bin));
    argv.push(String::from_str(srcpath));
    argv.push(String::from_str(dstpath));
    argv.push(String::from_str("--no-default-epub-cover"));
    argv.push(String::from_str("--output-profile"));
    argv.push(String::from_str("tablet"));
    argv
}

/// Command line for the external extractor: unpack `archive` into `dest`.
pub fn extractor_command(dest: &str, archive: &str) -> (argv: Vec<String>)
    ensures
        argv@.len() == 4,
        argv@[0]@ == "unzip"@,
        argv@[1]@ == "-d"@,
        argv@[2]@ == dest@,
        argv@[3]@ == archive@,
{
    let mut argv: Vec<String> = Vec::new();
    argv.push(String::from_str("unzip"));
    argv.push(String::from_str("-d"));
    argv.push(String::from_str(dest));
    argv.push(String::from_str(archive));
    argv
}

/// Command line that removes the temporary archive `path`.
pub fn cleanup_command(path: &str) -> (argv: Vec<String>)
    ensures
        argv@.len() == 2,
        argv@[0]@ == "rm"@,
        argv@[1]@ == path@,
{
    let mut argv: Vec<String> = Vec::new();
    argv.push(String::from_str("rm"));
    argv.push(String::from_str(path));
    argv
}

/// How a converter run maps to the job's fate: success goes on, a non-zero
/// exit or a failed launch is terminal.
pub open spec fn convert_outcome_spec(r: RunResult) -> Result<(), ConversionError> {
    match r {
        RunResult::Exited { success, detail } => if success {
            Ok(())
        } else {
            Err(ConversionError::EpubConversionError { detail })
        },
        RunResult::LaunchFailed { error } => Err(
            ConversionError::EpubConversionCommandError { error },
        ),
    }
}

/// Maps the observed converter run to the job's fate.
pub fn convert_outcome(r: RunResult) -> (res: Result<(), ConversionError>)
    ensures
        res == convert_outcome_spec(r),
{
    match r {
        RunResult::Exited { success, detail } => if success {
            Ok(())
        } else {
            Err(ConversionError::EpubConversionError { detail })
        },
        RunResult::LaunchFailed { error } => Err(
            ConversionError::EpubConversionCommandError { error },
        ),
    }
}

/// How an extractor run maps to the job's fate: success goes on, a non-zero
/// exit or a failed launch is terminal.
pub open spec fn extract_outcome_spec(r: RunResult) -> Result<(), ConversionError> {
    match r {
        RunResult::Exited { success, detail } => if success {
            Ok(())
        } else {
            Err(ConversionError::EpubDeflationError { detail })
        },
        RunResult::LaunchFailed { error } => Err(
            ConversionError::EpubDeflationCommandError { error },
        ),
    }
}

/// Maps the observed extractor run to the job's fate.
pub fn extract_outcome(r: RunResult) -> (res: Result<(), ConversionError>)
    ensures
        res == extract_outcome_spec(r),
{
    match r {
        RunResult::Exited { success, detail } => if success {
            Ok(())
        } else {
            Err(ConversionError::EpubDeflationError { detail })
        },
        RunResult::LaunchFailed { error } => Err(
            ConversionError::EpubDeflationCommandError { error },
        ),
    }
}

/// How the removal of the temporary archive maps to the job's fate: a
/// failure to delete — the remover exiting non-zero, or not launching at
/// all — is terminal for reporting only. The job ends in a `CleanUpError`,
/// but nothing is rolled back: the already-extracted rendition stays
/// usable.
pub open spec fn cleanup_outcome_spec(r: RunResult) -> Result<(), ConversionError> {
    match r {
        RunResult::Exited { success, detail } => if success {
            Ok(())
        } else {
            Err(ConversionError::CleanUpError { error: detail })
        },
        RunResult::LaunchFailed { error } => Err(ConversionError::CleanUpError { error }),
    }
}

/// Maps the observed removal of the temporary archive to the job's fate.
pub fn cleanup_outcome(r: RunResult) -> (res: Result<(), ConversionError>)
    ensures
        res == cleanup_outcome_spec(r),
{
    match r {
        RunResult::Exited { success, detail } => if success {
            Ok(())
        } else {
            Err(ConversionError::CleanUpError { error: detail })
        },
        RunResult::LaunchFailed { error } => Err(ConversionError::CleanUpError { error }),
    }
}

/// Everything the surrounding binary observed while driving one job: the
/// cache probe, and the result of each external command it was asked to
/// run. A field is `None` exactly when the pipeline never reached that
/// stage.
pub struct JobTrace {
    pub cached: bool,
    pub convert: Option<RunResult>,
    pub extract: Option<RunResult>,
    pub cleanup: Option<RunResult>,
}

/// A trace supplies an observation for exactly the stages the pipeline
/// reaches for `job`: conversion only when the source is not an archive,
/// extraction once conversion (if any) succeeded, cleanup once extraction
/// succeeded and a temporary archive exists.
pub open spec fn trace_consistent(job: ConversionJob, t: JobTrace) -> bool {
    if t.cached {
        true
    } else {
        let conv_ok = !needs_convert(job) || (t.convert is Some && convert_outcome_spec(
            t.convert->Some_0,
        ) is Ok);
        let extr_ok = conv_ok && t.extract is Some && extract_outcome_spec(
            t.extract->Some_0,
        ) is Ok;
        &&& (needs_convert(job) ==> t.convert is Some)
        &&& (conv_ok ==> t.extract is Some)
        &&& (extr_ok && needs_convert(job) ==> t.cleanup is Some)
    }
}

/// The terminal state of one job as a function of what was observed: cached
/// jobs succeed without work; otherwise the first failing stage decides,
/// and a fully successful pass (with cleanup where a temporary archive was
/// made) succeeds.
pub open spec fn job_outcome(job: ConversionJob, t: JobTrace) -> Result<(), ConversionError> {
    if t.cached {
        Ok(())
    } else {
        let conv: Result<(), ConversionError> = if needs_convert(job) {
            convert_outcome_spec(t.convert->Some_0)
        } else {
            Ok(())
        };
        match conv {
            Err(e) => Err(e),
            Ok(_) => match extract_outcome_spec(t.extract->Some_0) {
                Err(e) => Err(e),
                Ok(_) => if needs_convert(job) {
                    cleanup_outcome_spec(t.cleanup->Some_0)
                } else {
                    Ok(())
                },
            },
        }
    }
}

/// Runs the decision side of one job against the observations in `trace`
/// and returns its terminal state. A job-fatal error never propagates
/// further than this result.
pub fn run_job(job: &ConversionJob, trace: JobTrace) -> (r: Result<(), ConversionError>)
    requires
        trace_consistent(*job, trace),
    ensures
        r == job_outcome(*job, trace),
{
    let JobTrace { cached, convert, extract, cleanup } = trace;
    if cached {
        return Ok(());
    }
    let source_is_archive = has_suffix(job.source_path.as_str(), ".epub");
    if !source_is_archive {
        match convert {
            Some(run) => {
                match convert_outcome(run) {
                    Err(e) => {
                        return Err(e);
                    },
                    Ok(_) => {},
                }
            },
            None => {
                proof {
                    assert(false);
                }
            },
        }
    }
    match extract {
        Some(run) => {
            match extract_outcome(run) {
                Err(e) => {
                    return Err(e);
                },
                Ok(_) => {},
            }
        },
        None => {
            proof {
                assert(false);
            }
        },
    }
    if !source_is_archive {
        match cleanup {
            Some(run) => {
                return cleanup_outcome(run);
            },
            None => {
                proof {
                    assert(false);
                }
            },
        }
    }
    Ok(())
}

/// Drains the queue in FIFO order, runs every job to a terminal state, and
/// reports one outcome per job. A failed job is reported and never stops
/// the loop: every later job is still processed.
pub fn worker_loop(queue: &mut JobQueue, traces: Vec<JobTrace>) -> (reports: Vec<
    Result<(), ConversionError>,
>)
    requires
        old(queue).wf(),
        traces@.len() == old(queue)@.len(),
        forall|i: int|
            0 <= i < traces@.len() ==> trace_consistent(#[trigger] old(queue)@[i], traces@[i]),
    ensures
        final(queue).wf(),
        final(queue)@.len() == 0,
        reports@.len() == old(queue)@.len(),
        forall|i: int|
            0 <= i < reports@.len() ==> reports@[i] == job_outcome(
                #[trigger] old(queue)@[i],
                traces@[i],
            ),
{
    let ghost jobs0 = queue@;
    let ghost traces0 = traces@;
    let mut traces = traces;
    let mut reports: Vec<Result<(), ConversionError>> = Vec::new();
    while queue.len() > 0
        invariant
            queue.wf(),
            jobs0.len() == traces0.len(),
            reports@.len() + queue@.len() == jobs0.len(),
            traces@.len() == queue@.len(),
            queue@ == jobs0.subrange(reports@.len() as int, jobs0.len() as int),
            traces@ == traces0.subrange(reports@.len() as int, traces0.len() as int),
            forall|i: int|
                0 <= i < traces0.len() ==> trace_consistent(#[trigger] jobs0[i], traces0[i]),
            forall|i: int|
                0 <= i < reports@.len() ==> reports@[i] == job_outcome(
                    #[trigger] jobs0[i],
                    traces0[i],
                ),
        decreases queue@.len(),
    {
        let ghost k = reports@.len() as int;
        match queue.dequeue() {
            Some(job) => {
                let trace = traces.remove(0);
                proof {
                    assert(jobs0[k] == job);
                    assert(traces0[k] == trace);
                }
                let r = run_job(&job, trace);
                reports.push(r);
                proof {
                    assert(queue@ =~= jobs0.subrange(reports@.len() as int, jobs0.len() as int));
                    assert(traces@ =~= traces0.subrange(
                        reports@.len() as int,
                        traces0.len() as int,
                    ));
                }
            },
            None => {
                proof {
                    assert(false);
                }
            },
        }
    }
    proof {
        assert(queue@.len() == 0);
    }
    reports
}

/// Idempotence of the pipeline: a job whose destination is already cached
/// (the marker file is present when the worker looks) finishes successfully
/// without any conversion, extraction or cleanup being observed.
pub proof fn lemma_cached_job_is_noop(job: ConversionJob, t: JobTrace)
    requires
        t.cached,
    ensures
        trace_consistent(job, t),
        job_outcome(job, t) == Ok::<(), ConversionError>(()),
{
}

/// A successful job leaves no temporary archive behind: when a temporary
/// archive was produced (the source was not already one), a job that ends
/// in `Ok` had the removal of that archive observed to exit successfully —
/// a failed deletion always surfaces as a `CleanUpError` instead.
pub proof fn lemma_success_leaves_no_temp(job: ConversionJob, t: JobTrace)
    requires
        !t.cached,
        needs_convert(job),
        trace_consistent(job, t),
        job_outcome(job, t) is Ok,
    ensures
        t.cleanup is Some,
        t.cleanup->Some_0 matches RunResult::Exited { success: true, .. },
{
}

/// Worker resilience: in one drained batch every job gets its own outcome,
/// determined only by its own observations — an earlier job's failure
/// leaves every later job's outcome what it would have been anyway. This is
/// the shape of `worker_loop`'s contract, restated over the model.
pub proof fn lemma_failure_is_isolated(
    jobs: Seq<ConversionJob>,
    traces: Seq<JobTrace>,
    outcomes: Seq<Result<(), ConversionError>>,
    i: int,
    k: int,
)
    requires
        jobs.len() == traces.len(),
        outcomes.len() == jobs.len(),
        forall|n: int| 0 <= n < jobs.len() ==> outcomes[n] == job_outcome(#[trigger] jobs[n], traces[n]),
        0 <= i < k < jobs.len(),
        outcomes[i] is Err,
    ensures
        outcomes[k] == job_outcome(jobs[k], traces[k]),
{
}

} // verus!
