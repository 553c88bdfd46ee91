use informer::{ErrorResponse, Informer, PollStep, Versioned, WatchEvent, BACKOFF_SECS, GONE};

type Pod = Versioned<&'static str>;
type Item = Result<WatchEvent<Pod>, String>;

fn pod(name: &'static str, version: &str) -> Pod {
    Versioned { resource_version: Some(version.to_string()), object: name }
}

fn unversioned(name: &'static str) -> Pod {
    Versioned { resource_version: None, object: name }
}

fn server_error(code: u16) -> ErrorResponse {
    ErrorResponse {
        status: "Failure".to_string(),
        message: "too old resource version".to_string(),
        reason: "Expired".to_string(),
        code,
    }
}

fn open_at(token: &str) -> PollStep {
    PollStep::Open { token: token.to_string() }
}

fn pause() -> PollStep {
    PollStep::Backoff { secs: 10 }
}

#[test]
fn new_session_starts_from_the_sentinel() {
    let informer: Informer<Pod> = Informer::new();
    assert_eq!(informer.version(), "0");
    assert_eq!(informer.poll(), open_at("0"));
}

#[test]
fn backoff_is_ten_seconds_and_gone_is_410() {
    assert_eq!(BACKOFF_SECS, 10);
    assert_eq!(GONE, 410);
}

#[test]
fn added_then_modified_leaves_the_last_version() {
    let mut informer: Informer<Pod> = Informer::new();
    assert_eq!(informer.poll(), open_at("0"));
    let stream: Result<(), String> = informer.opened(Ok(()));
    assert_eq!(stream, Ok(()));
    let items: Vec<Item> =
        vec![Ok(WatchEvent::Added(pod("a", "1"))), Ok(WatchEvent::Modified(pod("a", "3")))];
    let out = informer.intercept_all(items.clone());
    assert_eq!(out, items);
    assert_eq!(informer.version(), "3");
    assert_eq!(informer.poll(), open_at("3"));
}

#[test]
fn every_kind_of_change_moves_the_token() {
    let mut informer: Informer<Pod> = Informer::new();
    informer.intercept::<String>(Ok(WatchEvent::Added(pod("a", "5")))).unwrap();
    assert_eq!(informer.version(), "5");
    informer.intercept::<String>(Ok(WatchEvent::Modified(pod("a", "8")))).unwrap();
    assert_eq!(informer.version(), "8");
    informer.intercept::<String>(Ok(WatchEvent::Deleted(pod("a", "13")))).unwrap();
    assert_eq!(informer.version(), "13");
    assert_eq!(informer.poll(), open_at("13"));
}

#[test]
fn token_follows_the_stream_not_an_order_of_tokens() {
    let mut informer: Informer<Pod> = Informer::new();
    let items: Vec<Item> = vec![
        Ok(WatchEvent::Added(pod("a", "9"))),
        Ok(WatchEvent::Added(pod("b", "10"))),
        Ok(WatchEvent::Modified(pod("a", "7"))),
    ];
    informer.intercept_all(items);
    assert_eq!(informer.version(), "7");
}

#[test]
fn gone_makes_the_next_poll_pause_and_start_over() {
    let mut informer: Informer<Pod> = Informer::new().init_from("42".to_string());
    assert_eq!(informer.poll(), open_at("42"));
    informer.opened::<(), String>(Ok(())).unwrap();
    let gone: Item = Ok(WatchEvent::Error(server_error(410)));
    let out = informer.intercept(gone.clone());
    assert_eq!(out, gone);
    assert_eq!(informer.version(), "42");

    assert_eq!(informer.poll(), pause());
    assert_eq!(informer.version(), "42");
    assert_eq!(informer.recover(), "0");
    assert_eq!(informer.version(), "0");
    assert_eq!(informer.poll(), open_at("0"));
}

#[test]
fn gone_wins_over_tokens_seen_in_the_same_stream() {
    let mut informer: Informer<Pod> = Informer::new();
    let items: Vec<Item> = vec![
        Ok(WatchEvent::Added(pod("a", "4"))),
        Ok(WatchEvent::Error(server_error(410))),
        Ok(WatchEvent::Modified(pod("a", "6"))),
    ];
    informer.intercept_all(items);
    assert_eq!(informer.version(), "6");
    assert_eq!(informer.poll(), pause());
    assert_eq!(informer.recover(), "0");
}

#[test]
fn failed_open_is_handed_back_and_retried_from_the_same_token() {
    let mut informer: Informer<Pod> = Informer::new().init_from("17".to_string());
    assert_eq!(informer.poll(), open_at("17"));
    let outcome: Result<(), String> = informer.opened(Err("connection refused".to_string()));
    assert_eq!(outcome, Err("connection refused".to_string()));
    assert_eq!(informer.version(), "17");

    assert_eq!(informer.poll(), pause());
    assert_eq!(informer.recover(), "17");
    assert_eq!(informer.version(), "17");
    assert_eq!(informer.poll(), open_at("17"));
}

#[test]
fn successful_open_raises_no_flag() {
    let mut informer: Informer<Pod> = Informer::new();
    let outcome: Result<u32, String> = informer.opened(Ok(7));
    assert_eq!(outcome, Ok(7));
    assert_eq!(informer.poll(), open_at("0"));
}

#[test]
fn init_from_sets_the_token_of_the_first_request() {
    let informer: Informer<Pod> = Informer::new().init_from("42".to_string());
    assert_eq!(informer.version(), "42");
    assert_eq!(informer.poll(), open_at("42"));
}

#[test]
fn reset_goes_back_to_the_sentinel_without_an_error() {
    let mut informer: Informer<Pod> = Informer::new();
    informer.intercept::<String>(Ok(WatchEvent::Added(pod("a", "31")))).unwrap();
    assert_eq!(informer.version(), "31");
    informer.reset();
    assert_eq!(informer.version(), "0");
    assert_eq!(informer.poll(), open_at("0"));
}

#[test]
fn reset_leaves_a_pending_pause_in_place() {
    let mut informer: Informer<Pod> = Informer::new().init_from("5".to_string());
    informer.opened::<(), String>(Err("down".to_string())).unwrap_err();
    informer.reset();
    assert_eq!(informer.version(), "0");
    assert_eq!(informer.poll(), pause());
    assert_eq!(informer.recover(), "0");
}

#[test]
fn one_pause_clears_both_flags() {
    let mut informer: Informer<Pod> = Informer::new().init_from("3".to_string());
    informer.opened::<(), String>(Err("down".to_string())).unwrap_err();
    informer.intercept::<String>(Ok(WatchEvent::Error(server_error(410)))).unwrap();
    assert_eq!(informer.poll(), pause());
    assert_eq!(informer.poll(), pause());
    assert_eq!(informer.recover(), "0");
    assert_eq!(informer.poll(), open_at("0"));
    assert_eq!(informer.recover(), "0");
    assert_eq!(informer.poll(), open_at("0"));
}

#[test]
fn recover_without_a_flag_changes_nothing() {
    let mut informer: Informer<Pod> = Informer::new().init_from("12".to_string());
    assert_eq!(informer.recover(), "12");
    assert_eq!(informer.version(), "12");
    assert_eq!(informer.poll(), open_at("12"));
}

#[test]
fn other_server_errors_pass_without_a_trace() {
    let mut informer: Informer<Pod> = Informer::new().init_from("8".to_string());
    for code in [0u16, 400, 409, 411, 500, 65535] {
        let item: Item = Ok(WatchEvent::Error(server_error(code)));
        assert_eq!(informer.intercept(item.clone()), item);
        assert_eq!(informer.version(), "8");
        assert_eq!(informer.poll(), open_at("8"));
    }
}

#[test]
fn transport_failure_of_an_item_passes_without_a_trace() {
    let mut informer: Informer<Pod> = Informer::new().init_from("8".to_string());
    let item: Item = Err("unexpected end of frame".to_string());
    assert_eq!(informer.intercept(item.clone()), item);
    assert_eq!(informer.version(), "8");
    assert_eq!(informer.poll(), open_at("8"));
}

#[test]
fn change_without_a_token_is_skipped() {
    let mut informer: Informer<Pod> = Informer::new().init_from("8".to_string());
    let items: Vec<Item> = vec![
        Ok(WatchEvent::Added(unversioned("a"))),
        Ok(WatchEvent::Modified(unversioned("a"))),
        Ok(WatchEvent::Deleted(unversioned("a"))),
    ];
    assert_eq!(informer.intercept_all(items.clone()), items);
    assert_eq!(informer.version(), "8");
    assert_eq!(informer.poll(), open_at("8"));
}

#[test]
fn items_come_back_in_order_and_unchanged() {
    let mut informer: Informer<Pod> = Informer::new();
    let items: Vec<Item> = vec![
        Ok(WatchEvent::Added(pod("a", "1"))),
        Err("garbled".to_string()),
        Ok(WatchEvent::Error(server_error(500))),
        Ok(WatchEvent::Deleted(unversioned("b"))),
        Ok(WatchEvent::Error(server_error(410))),
        Ok(WatchEvent::Modified(pod("c", "2"))),
        Ok(WatchEvent::Added(pod("a", "1"))),
    ];
    let out = informer.intercept_all(items.clone());
    assert_eq!(out.len(), 7);
    assert_eq!(out, items);
    let mut one_by_one: Informer<Pod> = Informer::new();
    for item in items {
        assert_eq!(one_by_one.intercept(item.clone()), item);
    }
    assert_eq!(one_by_one.version(), informer.version());
    assert_eq!(one_by_one.poll(), informer.poll());
}

#[test]
fn empty_run_changes_nothing() {
    let mut informer: Informer<Pod> = Informer::new().init_from("4".to_string());
    let out = informer.intercept_all(Vec::<Item>::new());
    assert!(out.is_empty());
    assert_eq!(informer.version(), "4");
    assert_eq!(informer.poll(), open_at("4"));
}

#[test]
fn draining_in_batches_is_draining_at_once() {
    let items: Vec<Item> = vec![
        Ok(WatchEvent::Added(pod("a", "1"))),
        Ok(WatchEvent::Error(server_error(410))),
        Ok(WatchEvent::Modified(pod("a", "2"))),
        Err("garbled".to_string()),
    ];
    for cut in 0..=items.len() {
        let mut whole: Informer<Pod> = Informer::new();
        whole.intercept_all(items.clone());
        let mut parts: Informer<Pod> = Informer::new();
        parts.intercept_all(items[..cut].to_vec());
        parts.intercept_all(items[cut..].to_vec());
        assert_eq!(parts.version(), whole.version());
        assert_eq!(parts.poll(), whole.poll());
        assert_eq!(parts.recover(), whole.recover());
    }
}

#[test]
fn observe_reads_without_taking_the_item() {
    let mut informer: Informer<Pod> = Informer::new();
    let item: Item = Ok(WatchEvent::Modified(pod("a", "21")));
    informer.observe(&item);
    assert_eq!(informer.version(), "21");
    assert_eq!(item, Ok(WatchEvent::Modified(pod("a", "21"))));
}

#[test]
fn session_runs_through_expiry_failure_and_recovery() {
    let mut informer: Informer<Pod> = Informer::new();

    assert_eq!(informer.poll(), open_at("0"));
    informer.opened::<(), String>(Ok(())).unwrap();
    informer.intercept_all::<String>(vec![
        Ok(WatchEvent::Added(pod("a", "100"))),
        Ok(WatchEvent::Error(server_error(410))),
    ]);
    assert_eq!(informer.version(), "100");

    assert_eq!(informer.poll(), pause());
    assert_eq!(informer.recover(), "0");
    informer.opened::<(), String>(Err("down".to_string())).unwrap_err();

    assert_eq!(informer.poll(), pause());
    assert_eq!(informer.recover(), "0");
    informer.opened::<(), String>(Ok(())).unwrap();
    informer.intercept_all::<String>(vec![
        Ok(WatchEvent::Added(pod("a", "100"))),
        Ok(WatchEvent::Added(pod("b", "101"))),
    ]);

    assert_eq!(informer.poll(), open_at("101"));
}
