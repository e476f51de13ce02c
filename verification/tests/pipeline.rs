//! Conversion pipeline: cache probe paths, job planning, command lines,
//! outcome mapping, whole jobs and whole batches.

use ebook_core::cache::marker_path;
use ebook_core::queue::{ConversionJob, JobQueue};
use ebook_core::worker::{
    cleanup_command, cleanup_outcome, convert_outcome, converter_command, extract_outcome,
    extractor_command, plan_job, run_job, with_epub_extension, worker_loop, ConversionError,
    JobPlan, JobTrace, RunResult,
};

fn job(src: &str, dest: &str) -> ConversionJob {
    ConversionJob {
        source_path: src.to_string(),
        destination_directory: dest.to_string(),
    }
}

fn ok_run() -> RunResult {
    RunResult::Exited {
        success: true,
        detail: "exit status: 0".to_string(),
    }
}

fn failed_run() -> RunResult {
    RunResult::Exited {
        success: false,
        detail: "exit status: 1".to_string(),
    }
}

#[test]
fn marker_path_is_the_fixed_relative_file() {
    assert_eq!(marker_path("/cache/123"), "/cache/123/META-INF/container.xml");
    assert_eq!(marker_path("/cache/123/"), "/cache/123/META-INF/container.xml");
    assert_eq!(marker_path(""), "META-INF/container.xml");
}

#[test]
fn queue_is_fifo() {
    let mut q = JobQueue::new(100);
    assert!(q.enqueue(job("/data/1/a.mobi", "/cache/1")));
    assert!(q.enqueue(job("/data/2/b.mobi", "/cache/2")));
    assert!(q.enqueue(job("/data/3/c.mobi", "/cache/3")));
    assert_eq!(q.len(), 3);
    assert_eq!(q.dequeue().unwrap().destination_directory, "/cache/1");
    assert_eq!(q.dequeue().unwrap().destination_directory, "/cache/2");
    assert_eq!(q.dequeue().unwrap().destination_directory, "/cache/3");
    assert!(q.dequeue().is_none());
}

#[test]
fn queue_full_enqueue_fails_and_keeps_contents() {
    let mut q = JobQueue::new(2);
    assert!(q.enqueue(job("/a", "/1")));
    assert!(q.enqueue(job("/b", "/2")));
    assert!(!q.enqueue(job("/c", "/3")));
    assert_eq!(q.len(), 2);
    assert_eq!(q.dequeue().unwrap().source_path, "/a");
}

#[test]
fn cached_job_is_planned_as_noop() {
    let p = plan_job(&job("/data/123/book.mobi", "/cache/123"), true);
    assert!(matches!(p, JobPlan::AlreadyCached));
}

#[test]
fn epub_source_is_extracted_directly() {
    let p = plan_job(&job("/data/123/book.epub", "/cache/123"), false);
    match p {
        JobPlan::DirectExtract { archive } => assert_eq!(archive, "/data/123/book.epub"),
        _ => panic!("expected a direct extraction"),
    }
}

#[test]
fn other_source_is_converted_first() {
    let p = plan_job(&job("/data/123/book.mobi", "/cache/123"), false);
    match p {
        JobPlan::ConvertThenExtract { epub_target } => assert_eq!(epub_target, "/cache/123.epub"),
        _ => panic!("expected a conversion"),
    }
}

#[test]
fn epub_target_replaces_or_appends_extension() {
    assert_eq!(with_epub_extension("/cache/123"), "/cache/123.epub");
    assert_eq!(with_epub_extension("/cache/123.tmp"), "/cache/123.epub");
    assert_eq!(with_epub_extension("/a.b/c"), "/a.b/c.epub");
    assert_eq!(with_epub_extension("/a/.hidden"), "/a/.hidden.epub");
}

#[test]
fn converter_command_has_fixed_profile_flags() {
    let argv = converter_command("ebook-convert", "/data/123/book.mobi", "/cache/123.epub");
    assert_eq!(
        argv,
        vec![
            "ebook-convert",
            "/data/123/book.mobi",
            "/cache/123.epub",
            "--no-default-epub-cover",
            "--output-profile",
            "tablet",
        ]
    );
}

#[test]
fn extractor_and_cleanup_commands() {
    assert_eq!(
        extractor_command("/cache/123", "/cache/123.epub"),
        vec!["unzip", "-d", "/cache/123", "/cache/123.epub"]
    );
    assert_eq!(cleanup_command("/cache/123.epub"), vec!["rm", "/cache/123.epub"]);
}

#[test]
fn outcome_mapping_per_stage() {
    assert!(convert_outcome(ok_run()).is_ok());
    assert!(matches!(
        convert_outcome(failed_run()),
        Err(ConversionError::EpubConversionError { .. })
    ));
    assert!(matches!(
        convert_outcome(RunResult::LaunchFailed { error: "no such file".to_string() }),
        Err(ConversionError::EpubConversionCommandError { .. })
    ));
    assert!(extract_outcome(ok_run()).is_ok());
    assert!(matches!(
        extract_outcome(failed_run()),
        Err(ConversionError::EpubDeflationError { .. })
    ));
    assert!(matches!(
        extract_outcome(RunResult::LaunchFailed { error: "no such file".to_string() }),
        Err(ConversionError::EpubDeflationCommandError { .. })
    ));
    // a failure to delete the temporary archive is reported, whether the
    // remover exited non-zero or never launched
    assert!(cleanup_outcome(ok_run()).is_ok());
    assert!(matches!(
        cleanup_outcome(failed_run()),
        Err(ConversionError::CleanUpError { .. })
    ));
    assert!(matches!(
        cleanup_outcome(RunResult::LaunchFailed { error: "no such file".to_string() }),
        Err(ConversionError::CleanUpError { .. })
    ));
}

#[test]
fn error_messages_carry_stage_and_detail() {
    let e = ConversionError::EpubConversionCommandError { error: "denied".to_string() };
    assert_eq!(e.message(), "Failed to launch converter: denied");
    let e = ConversionError::EpubConversionError { detail: "exit status: 2".to_string() };
    assert_eq!(e.message(), "Converter exited with an error code: exit status: 2");
    let e = ConversionError::EpubDeflationCommandError { error: "denied".to_string() };
    assert_eq!(e.message(), "Failed to launch unzip: denied");
    let e = ConversionError::EpubDeflationError { detail: "exit status: 9".to_string() };
    assert_eq!(e.message(), "Unzipper exited with an error code: exit status: 9");
    let e = ConversionError::CleanUpError { error: "busy".to_string() };
    assert_eq!(e.message(), "Failed to remove temporary epub file: busy");
}

#[test]
fn full_job_on_a_mobi_source_succeeds_and_cleans_up() {
    // The end-to-end shape: convert, extract, remove the temporary archive.
    let j = job("/data/123/book.mobi", "/cache/123");
    let trace = JobTrace {
        cached: false,
        convert: Some(ok_run()),
        extract: Some(ok_run()),
        cleanup: Some(ok_run()),
    };
    assert!(run_job(&j, trace).is_ok());
}

#[test]
fn cached_job_runs_no_commands() {
    let j = job("/data/123/book.mobi", "/cache/123");
    let trace = JobTrace { cached: true, convert: None, extract: None, cleanup: None };
    assert!(run_job(&j, trace).is_ok());
}

#[test]
fn failed_cleanup_is_reported_but_nothing_is_rolled_back() {
    // Conversion and extraction succeeded, so the rendition stands; the
    // remover exiting non-zero still ends the job in a reported error.
    let j = job("/data/123/book.mobi", "/cache/123");
    let trace = JobTrace {
        cached: false,
        convert: Some(ok_run()),
        extract: Some(ok_run()),
        cleanup: Some(failed_run()),
    };
    assert!(matches!(run_job(&j, trace), Err(ConversionError::CleanUpError { .. })));
}

#[test]
fn failed_conversion_is_terminal_for_the_job() {
    let j = job("/data/123/book.mobi", "/cache/123");
    let trace = JobTrace {
        cached: false,
        convert: Some(RunResult::LaunchFailed { error: "No such file or directory".to_string() }),
        extract: None,
        cleanup: None,
    };
    assert!(matches!(
        run_job(&j, trace),
        Err(ConversionError::EpubConversionCommandError { .. })
    ));
}

#[test]
fn worker_survives_a_failing_job_and_processes_the_next() {
    let mut q = JobQueue::new(100);
    assert!(q.enqueue(job("/data/missing/book.mobi", "/cache/9")));
    assert!(q.enqueue(job("/data/123/book.epub", "/cache/123")));
    let traces = vec![
        JobTrace {
            cached: false,
            convert: Some(RunResult::LaunchFailed {
                error: "No such file or directory".to_string(),
            }),
            extract: None,
            cleanup: None,
        },
        JobTrace { cached: false, convert: None, extract: Some(ok_run()), cleanup: None },
    ];
    let reports = worker_loop(&mut q, traces);
    assert_eq!(reports.len(), 2);
    assert!(reports[0].is_err());
    assert!(reports[1].is_ok());
    assert!(q.is_empty());
}

#[test]
fn worker_processes_jobs_in_enqueue_order() {
    let mut q = JobQueue::new(100);
    assert!(q.enqueue(job("/data/1/a.epub", "/cache/1")));
    assert!(q.enqueue(job("/data/2/b.mobi", "/cache/2")));
    assert!(q.enqueue(job("/data/3/c.epub", "/cache/3")));
    let traces = vec![
        JobTrace { cached: false, convert: None, extract: Some(ok_run()), cleanup: None },
        JobTrace { cached: false, convert: Some(failed_run()), extract: None, cleanup: None },
        JobTrace { cached: true, convert: None, extract: None, cleanup: None },
    ];
    let reports = worker_loop(&mut q, traces);
    // one report per job, in enqueue order: the middle one failed
    assert_eq!(reports.len(), 3);
    assert!(reports[0].is_ok());
    assert!(matches!(&reports[1], Err(ConversionError::EpubConversionError { .. })));
    assert!(reports[2].is_ok());
}
