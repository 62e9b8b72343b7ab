use nadzu::error::AppError;
use nadzu::models::github_dto::{GithubContributionCalendar, GithubContributionDay, GithubContributionWeek};
use nadzu::services::contributions::calendar::{format_iso_time, get_utc_date};
use nadzu::services::contributions::transform::transform_calendar;
use nadzu::services::contributions::{
    after_fetch, fresh_hit, cache_ttl, check_username, format_date, get_month_label, parse_ymd,
};
use nadzu::services::ytdlp::command::{downloader_settings, resolve_output_dir, ytdlp_args};
use nadzu::services::ytdlp::lifecycle::{enqueue_job, job_step, JobEvent, JobStatus};
use nadzu::services::ytdlp::jobs::{
    append_captured_line, combine_outputs, created_at_of, job_id, keep_job, timeout_message, truncate_message,
    MAX_CAPTURED_OUTPUT_BYTES,
};
use nadzu::services::ytdlp::progress::{extract_queued_fragments, is_sensitive_token, redact_client_progress_line};
use nadzu::services::ytdlp::resolve_format_selector;
use nadzu::models::malee::checkout::{CheckoutDraft, DeliveryInfo, QuoteStatus};
use nadzu::models::malee::events::CheckoutDraftView;
use nadzu::time::{day_of_unix_secs, Day};

#[test]
fn utc_dates_of_instants() {
    assert_eq!(get_utc_date(0), (1970, 1, 1));
    assert_eq!(get_utc_date(951_782_400), (2000, 2, 29));
    assert_eq!(get_utc_date(1_767_225_599), (2025, 12, 31));
    assert_eq!(format_iso_time(1_700_000_000), "2023-11-14T22:13:20Z");
    assert_eq!(format_date(7, 3, 9), "0007-03-09");
}

#[test]
fn chrono_dates() {
    let mut draft = CheckoutDraft::default();
    draft.delivery = Some(DeliveryInfo {
        city: "Kandy".to_string(),
        date: Day::from_days(739975).unwrap(),
        quote_status: QuoteStatus::Pending,
    });
    let view = CheckoutDraftView::of_draft(&draft);
    assert_eq!(view.delivery_date.as_deref(), Some("2026-12-25"));
    assert_eq!(view.delivery_city.as_deref(), Some("Kandy"));
    assert!(Day::from_days(i32::MAX).is_none());
}

#[test]
fn calendar_labels_and_parsing() {
    assert_eq!(get_month_label(1), "Jan");
    assert_eq!(get_month_label(0), "Jan");
    assert_eq!(get_month_label(12), "Dec");
    assert_eq!(get_month_label(13), "");
    assert_eq!(parse_ymd("2024-05-17"), Some((2024, 5, 17)));
    assert_eq!(parse_ymd("2024-5-17"), None);
    assert_eq!(cache_ttl(0), 10800);
    assert_eq!(cache_ttl(86_400 - 60), 60);
    assert_eq!(check_username("  ", "nxdun"), Err(AppError::Validation("Username cannot be empty".to_string())));
    assert_eq!(
        check_username("someotheruser", "nxdun"),
        Err(AppError::Validation("Only the default username is allowed".to_string()))
    );
    assert!(check_username("nxdun", "nxdun").is_ok());
}

fn day(date: &str, weekday: u32, count: u32, level: &str) -> GithubContributionDay {
    GithubContributionDay {
        date: date.to_string(),
        weekday,
        contribution_count: count,
        contribution_level: level.to_string(),
    }
}

#[test]
fn calendar_transform() {
    let calendar = GithubContributionCalendar {
        total_contributions: 12,
        weeks: vec![
            GithubContributionWeek {
                contribution_days: vec![
                    day("2024-01-30", 2, 0, "NONE"),
                    day("2024-01-31", 3, 5, "SECOND_QUARTILE"),
                    day("2024-02-01", 4, 7, "FOURTH_QUARTILE"),
                ],
            },
            GithubContributionWeek {
                contribution_days: vec![day("2024-02-04", 0, 1, "FIRST_QUARTILE")],
            },
        ],
    };
    let r = transform_calendar("nxdun", calendar, (2024, 2, 1), "2024-02-01T00:00:00Z".to_string());
    assert_eq!(r.cells.len(), 4);
    assert_eq!(r.summary.max_daily_count, 7);
    assert_eq!(r.summary.total_weeks, 2);
    assert_eq!(r.range.from, "2024-01-30");
    assert_eq!(r.range.to, "2024-02-04");
    assert_eq!(r.months.len(), 1);
    assert_eq!(r.months[0].label, "Jan");
    assert_eq!(r.months[0].week_index, 0);
    assert_eq!(r.cells[2].color, "#216e39");
    assert!(!r.cells[2].is_future);
    assert!(r.cells[3].is_future);
    assert!(r.cells[2].is_in_current_month);
    assert!(!r.cells[1].is_in_current_month);
    assert_eq!(r.cells[0].weekday_label, "Tue");
    assert_eq!(r.legend.len(), 5);
    assert_eq!((r.legend[2].min, r.legend[2].max), (5, 5));
    assert_eq!((r.legend[3].min, r.legend[3].max), (0, 0));
    assert_eq!(r.legend[0].label, "No contributions");
    assert!(!r.meta.cached);
}

#[test]
fn job_ids_and_retention() {
    let id = job_id(1_700_000_000, 7);
    assert_eq!(id, "ytdlp-1700000000-7");
    assert_eq!(created_at_of(&id), Some(1_700_000_000));
    assert!(keep_job(None, None, &id, 1_700_000_000 + 7199));
    assert!(!keep_job(None, None, &id, 1_700_000_000 + 7200));
    assert!(keep_job(None, None, "custom", u64::MAX));
    assert!(keep_job(Some(100), None, &id, 3699));
    assert!(!keep_job(Some(100), None, &id, 3700));
    assert!(keep_job(None, Some(100), &id, 50));
}

#[test]
fn job_messages() {
    assert_eq!(combine_outputs("out".to_string(), "err".to_string()), "err\nout");
    assert_eq!(combine_outputs("out".to_string(), String::new()), "out");
    assert_eq!(truncate_message("héllo world", 5), "héllo...");
    assert_eq!(truncate_message("short", 10), "short");
    assert_eq!(timeout_message(), "yt-dlp timed out after 7200s");
}

#[test]
fn progress_lines_are_redacted() {
    assert_eq!(
        redact_client_progress_line("[download] Destination: /home/app/x.mp4"),
        "[download] Destination: [REDACTED_PATH]"
    );
    assert_eq!(
        redact_client_progress_line("[info]   saving  \"C:\\Users\\me\\a.mp4\"  to ${SECRET} ok"),
        "[info] saving [REDACTED_PATH] to [REDACTED_PATH] ok"
    );
    assert!(is_sensitive_token(&"'/root/.cache',".chars().collect()));
    assert!(!is_sensitive_token(&"50%".chars().collect()));
}

#[test]
fn output_dirs_and_commands() {
    assert_eq!(resolve_output_dir("/dl", &None).unwrap(), "/dl");
    assert_eq!(resolve_output_dir("/dl", &Some("music/a".to_string())).unwrap(), "/dl/music/a");
    assert_eq!(resolve_output_dir("/dl/", &Some("x".to_string())).unwrap(), "/dl/x");
    assert_eq!(
        resolve_output_dir("/dl", &Some("../etc".to_string())),
        Err(AppError::Validation("folder must be a relative safe path".to_string()))
    );
    assert!(resolve_output_dir("/dl", &Some("/abs".to_string())).is_err());
    assert!(resolve_output_dir("/dl", &Some("a/..b".to_string())).is_ok());
    let (d, a) = downloader_settings(&None, &None);
    assert_eq!(d, "aria2c");
    assert_eq!(a.as_deref(), Some("aria2c:-x16 -j16 -s16 -k1M --file-allocation=none --summary-interval=0"));
    let (d, a) = downloader_settings(&Some(" curl ".to_string()), &Some("-s".to_string()));
    assert_eq!(d, "curl");
    assert_eq!(a.as_deref(), Some("curl:-s"));
    let (_, a) = downloader_settings(&Some("curl".to_string()), &None);
    assert!(a.is_none());
    let (sel, sort) = resolve_format_selector("mp3", "best");
    let args = ytdlp_args(&sel, &sort, &Some("mp3".to_string()), "/tmp/j", "job1", "https://x", "aria2c", &None);
    assert_eq!(
        args,
        vec![
            "--newline", "--no-warnings", "--ignore-errors", "--concurrent-fragments", "8",
            "--buffer-size", "16K", "-f", "ba/b", "-S", "aext:mp3", "--extract-audio",
            "--audio-format", "mp3", "-P", "/tmp/j", "-o", "job1.%(ext)s", "https://x",
            "--downloader", "aria2c",
        ]
    );
}

#[test]
fn format_selectors() {
    assert_eq!(resolve_format_selector("custom:bv+ba", "best"), ("bv+ba".to_string(), None));
    assert_eq!(
        resolve_format_selector("mp4", "720"),
        ("bv*[height<=720]+ba/b".to_string(), Some("res,vcodec:h264,acodec:aac,ext:mp4:m4a".to_string()))
    );
    assert_eq!(resolve_format_selector("any", "audio"), ("ba/b".to_string(), None));
    assert_eq!(resolve_format_selector("webm", "best"), ("bestvideo+bestaudio/best".to_string(), None));
}

#[test]
fn queued_fragment_counts() {
    assert_eq!(extract_queued_fragments("[#1 10MiB/20MiB(50%)] (+3)"), Some(3));
    assert_eq!(extract_queued_fragments("(+12) and (+4)"), Some(12));
    assert_eq!(extract_queued_fragments("(+) (3)"), None);
    assert_eq!(extract_queued_fragments("no queue"), None);
}

#[test]
fn captured_output_is_bounded() {
    let mut captured = String::new();
    append_captured_line(&mut captured, "first");
    append_captured_line(&mut captured, "second");
    assert_eq!(captured, "first\nsecond");

    let long = "x".repeat(MAX_CAPTURED_OUTPUT_BYTES);
    append_captured_line(&mut captured, &long);
    assert_eq!(captured.len(), MAX_CAPTURED_OUTPUT_BYTES);
    assert!(captured.starts_with("first\nsecond\nxxx"));

    append_captured_line(&mut captured, "more");
    assert_eq!(captured.len(), MAX_CAPTURED_OUTPUT_BYTES);
}

#[test]
fn days_of_instants() {
    let epoch = day_of_unix_secs(0).unwrap();
    assert_eq!(epoch.days(), 719163);
    let mut draft = CheckoutDraft::default();
    draft.delivery = Some(DeliveryInfo { city: "Galle".to_string(), date: epoch, quote_status: QuoteStatus::Pending });
    assert_eq!(CheckoutDraftView::of_draft(&draft).delivery_date.as_deref(), Some("1970-01-01"));
    assert_eq!(day_of_unix_secs(1_767_225_599).unwrap(), Day::from_days(739616).unwrap());
    assert_eq!(day_of_unix_secs(86_399).unwrap().days(), 719163);
    assert_eq!(day_of_unix_secs(86_400).unwrap().days(), 719164);
    assert!(day_of_unix_secs(u64::MAX).is_none());
}

fn empty_calendar_response() -> nadzu::models::contributions::ContributionsResponse {
    let calendar = GithubContributionCalendar { total_contributions: 0, weeks: vec![] };
    transform_calendar("nxdun", calendar, (2024, 2, 1), "2024-02-01T00:00:00Z".to_string())
}

#[test]
fn cache_answers() {
    let fresh = fresh_hit(Some((empty_calendar_response(), 100)), 99).unwrap();
    assert!(fresh.meta.cached);
    assert!(fresh_hit(Some((empty_calendar_response(), 100)), 100).is_none());
    assert!(fresh_hit(None, 0).is_none());

    let fetched = after_fetch(Ok(empty_calendar_response()), None).unwrap();
    assert!(!fetched.meta.cached);
    let stale = after_fetch(Err(AppError::UpstreamError("down".to_string())), Some(empty_calendar_response())).unwrap();
    assert!(stale.meta.cached);
    assert_eq!(
        after_fetch(Err(AppError::UpstreamError("down".to_string())), None).unwrap_err(),
        AppError::UpstreamError("down".to_string())
    );
}

#[test]
fn job_lifecycle() {
    let mut job = enqueue_job(100, None);
    assert_eq!(job.status, JobStatus::Queued);
    assert_eq!(job.updated_at, Some(100));
    assert_eq!(job.finished_at, None);
    job_step(&mut job, JobEvent::Progress, 105);
    assert_eq!(job.status, JobStatus::Running);
    assert_eq!(job.started_at, Some(105));
    job_step(&mut job, JobEvent::Started, 110);
    assert_eq!(job.started_at, Some(110));
    job_step(&mut job, JobEvent::Progress, 120);
    assert_eq!(job.started_at, Some(110));
    assert_eq!(job.updated_at, Some(120));
    job_step(&mut job, JobEvent::Finished(vec!["a.mp4".to_string()]), 130);
    assert_eq!(job.status, JobStatus::Finished);
    assert_eq!(job.finished_at, Some(130));
    assert_eq!(job.files, Some(vec!["a.mp4".to_string()]));
    job_step(&mut job, JobEvent::Message, 140);
    assert_eq!(job.status, JobStatus::Finished);
    assert_eq!(job.finished_at, Some(130));

    let refused = enqueue_job(200, Some("folder must be a relative safe path".to_string()));
    assert_eq!(refused.status, JobStatus::Failed);
    assert_eq!(refused.finished_at, Some(200));
    assert_eq!(refused.error.as_deref(), Some("folder must be a relative safe path"));
}
