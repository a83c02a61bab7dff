use pin_blog::command::{Sink, VcsCommand};
use pin_blog::config::Config;
use pin_blog::history::{HistoryOutcome, QueryError};
use pin_blog::resolver::{
    finish_resolution, plan_resolution, resolution_step, Observation, ResolveError, ResolveStep,
};

fn mirrored_copy() -> Config {
    Config {
        folder_path: String::from("/srv/blog"),
        git_repo: Some(String::from("https://example.org/blog.git")),
    }
}

fn plain_folder() -> Config {
    Config { folder_path: String::from("/srv/blog"), git_repo: None }
}

fn history_of(relative: &str) -> VcsCommand {
    let args = ["-C", "/srv/blog", "log", "--pretty=format:%at", "--reverse", "--", relative];
    VcsCommand {
        program: String::from("git"),
        args: args.iter().map(|s| s.to_string()).collect(),
        stdout: Sink::Capture,
        stderr: Sink::Capture,
    }
}

#[test]
fn without_git_the_filesystem_is_asked() {
    for path in ["/srv/blog/posts/a.md", "/elsewhere/a.md", "posts/a.md", ""] {
        assert_eq!(plan_resolution(&plain_folder(), path), ResolveStep::ReadChangeTime);
    }
}

#[test]
fn without_git_the_change_time_is_the_creation_time() {
    for seconds in [0i64, 1, -1, 1_700_000_000, i64::MAX, i64::MIN] {
        assert_eq!(finish_resolution(Observation::ChangeTime(seconds)), Ok(seconds));
    }
}

#[test]
fn with_git_the_history_of_the_relative_path_is_queried() {
    assert_eq!(
        plan_resolution(&mirrored_copy(), "/srv/blog/posts/a.md"),
        ResolveStep::QueryHistory(history_of("posts/a.md"))
    );
    assert_eq!(
        plan_resolution(&mirrored_copy(), "/srv/blog/about.md"),
        ResolveStep::QueryHistory(history_of("about.md"))
    );
}

#[test]
fn a_path_outside_the_working_copy_fails() {
    assert_eq!(
        plan_resolution(&mirrored_copy(), "/srv/other/posts/a.md"),
        ResolveStep::Fail(ResolveError::OutsideWorkingCopy)
    );
    assert_eq!(
        plan_resolution(&mirrored_copy(), "/srv/blogs/a.md"),
        ResolveStep::Fail(ResolveError::OutsideWorkingCopy)
    );
    assert_eq!(
        plan_resolution(&mirrored_copy(), "posts/a.md"),
        ResolveStep::Fail(ResolveError::OutsideWorkingCopy)
    );
}

#[test]
fn the_step_follows_the_relative_path() {
    assert_eq!(
        resolution_step(&mirrored_copy(), Some(String::from("posts/b.md"))),
        ResolveStep::QueryHistory(history_of("posts/b.md"))
    );
    assert_eq!(
        resolution_step(&mirrored_copy(), None),
        ResolveStep::Fail(ResolveError::OutsideWorkingCopy)
    );
    assert_eq!(resolution_step(&plain_folder(), None), ResolveStep::ReadChangeTime);
    assert_eq!(
        resolution_step(&plain_folder(), Some(String::from("posts/b.md"))),
        ResolveStep::ReadChangeTime
    );
}

#[test]
fn unreadable_metadata_fails_resolution() {
    assert_eq!(
        finish_resolution(Observation::MetadataUnreadable(String::from("No such file"))),
        Err(ResolveError::Metadata(String::from("No such file")))
    );
}

#[test]
fn history_decides_when_git_is_used() {
    let found = HistoryOutcome::Finished { code: Some(0), stdout: b"100\n200".to_vec() };
    assert_eq!(finish_resolution(Observation::History(found)), Ok(100));
}

#[test]
fn an_uncommitted_file_has_no_creation_time() {
    let nothing = HistoryOutcome::Finished { code: Some(0), stdout: Vec::new() };
    assert_eq!(
        finish_resolution(Observation::History(nothing)),
        Err(ResolveError::Query(QueryError::EmptyOutput))
    );
}

#[test]
fn every_query_error_fails_resolution() {
    let failed = HistoryOutcome::Failed(String::from("spawn failed"));
    assert_eq!(
        finish_resolution(Observation::History(failed)),
        Err(ResolveError::Query(QueryError::Launch(String::from("spawn failed"))))
    );
    let exited = HistoryOutcome::Finished { code: Some(1), stdout: b"100".to_vec() };
    assert_eq!(
        finish_resolution(Observation::History(exited)),
        Err(ResolveError::Query(QueryError::ExitStatus(Some(1))))
    );
    let binary = HistoryOutcome::Finished { code: Some(0), stdout: vec![0xff] };
    assert_eq!(
        finish_resolution(Observation::History(binary)),
        Err(ResolveError::Query(QueryError::NotUtf8))
    );
    let words = HistoryOutcome::Finished { code: Some(0), stdout: b"yesterday".to_vec() };
    assert_eq!(
        finish_resolution(Observation::History(words)),
        Err(ResolveError::Query(QueryError::InvalidTimestamp))
    );
}
