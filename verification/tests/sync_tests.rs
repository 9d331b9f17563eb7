use readwise_sync::db::{load_checkpoint, save, save_checkpoint, Store};
use readwise_sync::models::{Category, ReaderResult};
use readwise_sync::sync::{Action, Event, PageTally, Phase, SyncRun};
use readwise_sync::timestamp::Timestamp;

fn instant(secs: i64) -> Timestamp {
    Timestamp::from_epoch_seconds(secs).unwrap()
}

fn note(id: &str) -> ReaderResult {
    ReaderResult {
        author: None,
        category: Category::Note,
        content: None,
        created_at: instant(10),
        id: id.to_string(),
        image_url: None,
        location: None,
        notes: None,
        parent_id: None,
        published_date: None,
        reading_progress: 0,
        site_name: None,
        source: None,
        source_url: None,
        summary: None,
        tags: None,
        title: id.to_string(),
        updated_at: None,
        readwise_url: None,
        word_count: 0,
    }
}

/// What a scripted server answers to one request: a page of documents with
/// its continuation, or a failure that no retry mends.
enum Reply {
    Page(Vec<&'static str>, Option<&'static str>),
    Failure,
}

/// Drives a run against scripted replies and returns the addresses that were
/// requested and the number of commits.
fn drive(store: &mut Store, full: bool, now: Timestamp, replies: Vec<Reply>) -> (Vec<String>, u32) {
    let (mut run, mut action) = SyncRun::start(load_checkpoint(store), full, now);
    let mut requested = Vec::new();
    let mut commits = 0;
    let mut replies = replies.into_iter();
    loop {
        match action {
            Action::Fetch { url } => {
                requested.push(url);
                action = match replies.next().expect("a request beyond the script") {
                    Reply::Page(ids, next) => {
                        for id in ids {
                            save(store, note(id));
                        }
                        run.step(Event::Page { next_cursor: next.map(|c| c.to_string()) })
                    }
                    Reply::Failure => run.step(Event::Failed),
                };
            }
            Action::Commit { checkpoint } => {
                save_checkpoint(store, &checkpoint);
                commits += 1;
                break;
            }
            Action::Stop => break,
        }
    }
    assert!(replies.next().is_none(), "replies left over");
    (requested, commits)
}

#[test]
fn a_run_starts_with_the_first_page() {
    let (run, action) = SyncRun::start(None, false, instant(1_000));
    assert_eq!(run.phase(), Phase::Paging);
    assert_eq!(run.started_at(), instant(1_000));
    assert_eq!(action, Action::Fetch { url: "https://readwise.io/api/v3/list/".to_string() });
    assert_eq!(run.request_url(), "https://readwise.io/api/v3/list/");
}

#[test]
fn an_incremental_run_filters_the_first_request() {
    let (_, action) = SyncRun::start(Some(instant(1_700_000_000)), false, instant(1_800_000_000));
    assert_eq!(
        action,
        Action::Fetch {
            url: "https://readwise.io/api/v3/list/?updatedAfter=2023-11-14T22:13:20Z".to_string()
        }
    );
}

#[test]
fn a_full_run_ignores_the_watermark() {
    let (_, action) = SyncRun::start(Some(instant(1_700_000_000)), true, instant(1_800_000_000));
    assert_eq!(action, Action::Fetch { url: "https://readwise.io/api/v3/list/".to_string() });
}

#[test]
fn the_filter_goes_with_the_first_request_only() {
    let (mut run, _) = SyncRun::start(Some(instant(1_700_000_000)), false, instant(1_800_000_000));
    let second = run.step(Event::Page { next_cursor: Some("c1".to_string()) });
    assert_eq!(
        second,
        Action::Fetch { url: "https://readwise.io/api/v3/list/?pageCursor=c1".to_string() }
    );
    let third = run.step(Event::Page { next_cursor: Some("c2".to_string()) });
    assert_eq!(
        third,
        Action::Fetch { url: "https://readwise.io/api/v3/list/?pageCursor=c2".to_string() }
    );
    assert_eq!(run.phase(), Phase::Paging);
}

#[test]
fn the_last_page_commits_the_starting_instant() {
    let (mut run, _) = SyncRun::start(Some(instant(5)), false, instant(1_000));
    let action = run.step(Event::Page { next_cursor: None });
    assert_eq!(action, Action::Commit { checkpoint: instant(1_000) });
    assert_eq!(run.phase(), Phase::Committed);
}

#[test]
fn a_failure_stops_without_a_commit() {
    let (mut run, _) = SyncRun::start(Some(instant(5)), false, instant(1_000));
    assert_eq!(run.step(Event::Failed), Action::Stop);
    assert_eq!(run.phase(), Phase::Aborted);
}

#[test]
fn nothing_follows_the_end_of_a_run() {
    let (mut done, _) = SyncRun::start(None, false, instant(1_000));
    done.step(Event::Page { next_cursor: None });
    assert_eq!(done.step(Event::Page { next_cursor: Some("c".to_string()) }), Action::Stop);
    assert_eq!(done.step(Event::Page { next_cursor: None }), Action::Stop);
    assert_eq!(done.step(Event::Failed), Action::Stop);
    assert_eq!(done.phase(), Phase::Committed);

    let (mut failed, _) = SyncRun::start(None, false, instant(1_000));
    failed.step(Event::Failed);
    assert_eq!(failed.step(Event::Page { next_cursor: None }), Action::Stop);
    assert_eq!(failed.step(Event::Page { next_cursor: Some("c".to_string()) }), Action::Stop);
    assert_eq!(failed.phase(), Phase::Aborted);
}

#[test]
fn three_pages_are_all_processed_and_committed_once() {
    let mut store = Store::new();
    let replies = vec![
        Reply::Page(vec!["a", "b"], Some("cursor-b")),
        Reply::Page(vec!["c"], Some("cursor-c")),
        Reply::Page(vec!["d", "e"], None),
    ];
    let (requested, commits) = drive(&mut store, false, instant(2_000), replies);
    assert_eq!(
        requested,
        vec![
            "https://readwise.io/api/v3/list/".to_string(),
            "https://readwise.io/api/v3/list/?pageCursor=cursor-b".to_string(),
            "https://readwise.io/api/v3/list/?pageCursor=cursor-c".to_string(),
        ]
    );
    assert_eq!(commits, 1);
    assert_eq!(store.len(), 5);
    for id in ["a", "b", "c", "d", "e"] {
        assert!(store.get(id).is_some());
    }
    assert_eq!(load_checkpoint(&store), Some(instant(2_000)));
}

#[test]
fn a_single_page_listing() {
    let mut store = Store::new();
    let (requested, commits) =
        drive(&mut store, false, instant(2_000), vec![Reply::Page(vec![], None)]);
    assert_eq!(requested.len(), 1);
    assert_eq!(commits, 1);
    assert_eq!(store.len(), 0);
    assert_eq!(load_checkpoint(&store), Some(instant(2_000)));
}

#[test]
fn a_failure_on_the_second_of_three_pages_keeps_the_watermark() {
    let mut store = Store::new();
    save_checkpoint(&mut store, &instant(500));
    let replies = vec![Reply::Page(vec!["a", "b"], Some("cursor-b")), Reply::Failure];
    let (requested, commits) = drive(&mut store, false, instant(2_000), replies);
    assert_eq!(
        requested,
        vec![
            "https://readwise.io/api/v3/list/?updatedAfter=1970-01-01T00:08:20Z".to_string(),
            "https://readwise.io/api/v3/list/?pageCursor=cursor-b".to_string(),
        ]
    );
    assert_eq!(commits, 0);
    assert_eq!(load_checkpoint(&store), Some(instant(500)));
    assert_eq!(store.len(), 2);
}

#[test]
fn a_failure_on_the_first_run_leaves_no_watermark() {
    let mut store = Store::new();
    let (_, commits) = drive(&mut store, false, instant(2_000), vec![Reply::Failure]);
    assert_eq!(commits, 0);
    assert_eq!(load_checkpoint(&store), None);
}

#[test]
fn the_next_run_resumes_from_the_committed_instant() {
    let mut store = Store::new();
    drive(&mut store, false, instant(1_700_000_000), vec![Reply::Page(vec!["a"], None)]);
    let (requested, commits) =
        drive(&mut store, false, instant(1_800_000_000), vec![Reply::Page(vec!["a"], None)]);
    assert_eq!(
        requested,
        vec!["https://readwise.io/api/v3/list/?updatedAfter=2023-11-14T22:13:20Z".to_string()]
    );
    assert_eq!(commits, 1);
    assert_eq!(store.len(), 1);
    assert_eq!(load_checkpoint(&store), Some(instant(1_800_000_000)));
}

#[test]
fn a_rerun_after_a_failure_covers_the_same_window() {
    let mut store = Store::new();
    save_checkpoint(&mut store, &instant(500));
    let first = drive(
        &mut store,
        false,
        instant(2_000),
        vec![Reply::Page(vec!["a"], Some("cursor-b")), Reply::Failure],
    );
    let second = drive(
        &mut store,
        false,
        instant(3_000),
        vec![Reply::Page(vec!["a"], Some("cursor-b")), Reply::Page(vec!["b"], None)],
    );
    assert_eq!(first.0[0], second.0[0]);
    assert_eq!(second.1, 1);
    assert_eq!(store.len(), 2);
    assert_eq!(load_checkpoint(&store), Some(instant(3_000)));
}

#[test]
fn the_commit_is_the_start_and_not_the_end_of_the_run() {
    let started = instant(1_000);
    let (mut run, _) = SyncRun::start(None, false, started);
    run.step(Event::Page { next_cursor: Some("cursor-b".to_string()) });
    run.step(Event::Page { next_cursor: Some("cursor-c".to_string()) });
    match run.step(Event::Page { next_cursor: None }) {
        Action::Commit { checkpoint } => {
            assert_eq!(checkpoint, started);
            assert_eq!(checkpoint.seconds(), 1_000);
        }
        other => panic!("expected a commit, got {:?}", other),
    }
}

#[test]
fn an_empty_cursor_is_still_a_continuation() {
    let (mut run, _) = SyncRun::start(None, false, instant(1_000));
    let action = run.step(Event::Page { next_cursor: Some(String::new()) });
    assert_eq!(
        action,
        Action::Fetch { url: "https://readwise.io/api/v3/list/?pageCursor=".to_string() }
    );
    assert_eq!(run.phase(), Phase::Paging);
}

#[test]
fn a_fresh_tally_counts_nothing() {
    let tally = PageTally::new();
    assert_eq!(tally.saved(), 0);
    assert_eq!(tally.failed(), 0);
}

#[test]
fn one_refused_document_among_many() {
    let mut tally = PageTally::new();
    for index in 0..100 {
        tally.record(index != 41);
    }
    assert_eq!(tally.saved(), 99);
    assert_eq!(tally.failed(), 1);
}

#[test]
fn each_outcome_moves_its_own_count() {
    let mut tally = PageTally::new();
    tally.record(false);
    assert_eq!((tally.saved(), tally.failed()), (0, 1));
    tally.record(true);
    assert_eq!((tally.saved(), tally.failed()), (1, 1));
    tally.record(false);
    tally.record(false);
    assert_eq!((tally.saved(), tally.failed()), (1, 3));
}

#[test]
fn refused_documents_do_not_end_the_run() {
    let (mut run, _) = SyncRun::start(None, false, instant(1_000));
    let mut tally = PageTally::new();
    tally.record(false);
    tally.record(false);
    assert_eq!(tally.failed(), 2);
    let action = run.step(Event::Page { next_cursor: Some("cursor-b".to_string()) });
    assert_eq!(
        action,
        Action::Fetch { url: "https://readwise.io/api/v3/list/?pageCursor=cursor-b".to_string() }
    );
    assert_eq!(run.step(Event::Page { next_cursor: None }), Action::Commit {
        checkpoint: instant(1_000)
    });
}
