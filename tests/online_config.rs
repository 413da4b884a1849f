use std::time::Duration;

use online_config::content::{
    body_text, check_content_type, content_length_hint, header_text, ContentTypeCheck,
};
use online_config::cycle::{Action, CycleError, Event, FetchCycle, Stage, Timings};
use online_config::pool::{PoolEntry, ServerPool, ServerSource};
use online_config::service::{OnlineConfigService, OnlineConfigServiceBuilder, Phase};

const URL: &str = "http://example.com/sip008.json";
const BODY: &str = "{\"version\":1,\"servers\":[{\"id\":\"a\"}]}";

fn static_pool() -> ServerPool<String> {
    let mut pool = ServerPool::new();
    pool.add(ServerSource::Configuration, "static-1".to_string());
    pool.add(ServerSource::CommandLine, "static-2".to_string());
    pool
}

fn snapshot(pool: &ServerPool<String>) -> Vec<(ServerSource, String)> {
    pool.entries().iter().map(|e: &PoolEntry<String>| (e.source, e.server.clone())).collect()
}

fn json_headers() -> Event<String> {
    Event::Responded {
        content_type: Some(b"application/json; charset=utf-8".to_vec()),
        content_length: Some(BODY.len().to_string().into_bytes()),
    }
}

/// Runs the cycle in flight on `svc` to its end with a body that parses to `servers`.
fn finish_cycle(
    svc: &mut OnlineConfigService<String>,
    t: u64,
    body: &[u8],
    servers: Vec<String>,
    integrity: bool,
) -> Action {
    assert!(matches!(svc.step(t, json_headers()), Action::Read(ContentTypeCheck::Compliant)));
    assert!(matches!(svc.step(t + 1, Event::Chunk(body.to_vec())), Action::ReadMore));
    match svc.step(t + 2, Event::BodyEnd) {
        Action::Parse(text) => assert_eq!(text.as_bytes(), body),
        other => panic!("unexpected {:?}", other),
    }
    assert!(matches!(svc.step(t + 3, Event::Parsed(servers)), Action::Check));
    svc.step(t + 4, Event::IntegrityChecked(integrity))
}

fn started_service(start: u64) -> OnlineConfigService<String> {
    let builder = OnlineConfigServiceBuilder::new(URL.to_string(), static_pool());
    let (mut svc, action) = builder.build(start);
    assert!(matches!(action, Action::Send(_)));
    let done = finish_cycle(&mut svc, start + 10, BODY.as_bytes(), vec!["a".to_string()], true);
    assert!(matches!(done, Action::Sleep(Ok(_))));
    assert_eq!(svc.phase(), Phase::Running);
    svc
}

#[test]
fn reset_replaces_only_entries_of_the_source() {
    let mut pool = static_pool();
    pool.add(ServerSource::OnlineConfig, "old".to_string());
    pool.add(ServerSource::Default, "default".to_string());
    pool.reset_servers(vec!["x".to_string(), "y".to_string()], ServerSource::OnlineConfig);
    assert_eq!(
        snapshot(&pool),
        vec![
            (ServerSource::Configuration, "static-1".to_string()),
            (ServerSource::CommandLine, "static-2".to_string()),
            (ServerSource::Default, "default".to_string()),
            (ServerSource::OnlineConfig, "x".to_string()),
            (ServerSource::OnlineConfig, "y".to_string()),
        ]
    );
    assert_eq!(pool.len(), 5);
}

#[test]
fn reset_twice_is_reset_once() {
    let mut once = static_pool();
    once.reset_servers(vec!["a".to_string()], ServerSource::OnlineConfig);
    let mut twice = static_pool();
    twice.reset_servers(vec!["a".to_string()], ServerSource::OnlineConfig);
    twice.reset_servers(vec!["a".to_string()], ServerSource::OnlineConfig);
    assert_eq!(snapshot(&once), snapshot(&twice));
}

#[test]
fn reset_with_no_servers_empties_the_source() {
    let mut pool = static_pool();
    pool.add(ServerSource::OnlineConfig, "gone".to_string());
    pool.reset_servers(Vec::new(), ServerSource::OnlineConfig);
    assert_eq!(pool.len(), 2);
}

#[test]
fn content_length_hints() {
    assert_eq!(content_length_hint(None), None);
    assert_eq!(content_length_hint(Some(b"12".to_vec())), Some(12));
    assert_eq!(content_length_hint(Some(b"+7".to_vec())), Some(7));
    assert_eq!(content_length_hint(Some(b"0".to_vec())), Some(0));
    assert_eq!(content_length_hint(Some(b"".to_vec())), None);
    assert_eq!(content_length_hint(Some(b"+".to_vec())), None);
    assert_eq!(content_length_hint(Some(b"-3".to_vec())), None);
    assert_eq!(content_length_hint(Some(b"1a".to_vec())), None);
    assert_eq!(content_length_hint(Some(b"99999999999999999999999".to_vec())), None);
    assert_eq!(
        content_length_hint(Some(usize::MAX.to_string().into_bytes())),
        Some(usize::MAX)
    );
}

#[test]
fn header_text_needs_visible_ascii() {
    assert_eq!(header_text(b"text/plain\tx".to_vec()), Some("text/plain\tx".to_string()));
    assert_eq!(header_text(b"caf\xc3\xa9".to_vec()), None);
    assert_eq!(header_text(b"a\nb".to_vec()), None);
}

#[test]
fn content_type_verdicts() {
    let check = |s: &[u8]| check_content_type(Some(s.to_vec()));
    assert_eq!(check(b"application/json; charset=utf-8"), ContentTypeCheck::Compliant);
    assert_eq!(check(b"Application/JSON; Charset=UTF-8"), ContentTypeCheck::Compliant);
    assert_eq!(check(b"application/json"), ContentTypeCheck::Mismatch);
    assert_eq!(check(b"text/plain; charset=utf-8"), ContentTypeCheck::Mismatch);
    assert_eq!(check(b"application/json; charset=latin1"), ContentTypeCheck::Mismatch);
    assert_eq!(check(b"not a media type"), ContentTypeCheck::Unparsable);
    assert_eq!(check(b"application/json\xff"), ContentTypeCheck::NotText);
    assert_eq!(check_content_type(None), ContentTypeCheck::Missing);
}

#[test]
fn body_text_decodes_utf8() {
    assert_eq!(body_text("h\u{e9}".as_bytes().to_vec()), Some("h\u{e9}".to_string()));
    assert_eq!(body_text(vec![0x66, 0xff, 0x66]), None);
    assert_eq!(body_text(Vec::new()), Some(String::new()));
}

#[test]
fn builder_defaults_and_interval() {
    let mut builder = OnlineConfigServiceBuilder::new(URL.to_string(), static_pool());
    assert_eq!(builder.update_interval(), Duration::from_secs(3600));
    builder.set_update_interval(Duration::from_secs(60));
    assert_eq!(builder.update_interval(), Duration::from_secs(60));
    let svc = started_service(0);
    assert_eq!(svc.update_interval(), Duration::from_secs(3600));
    assert_eq!(svc.config_url(), URL);
}

#[test]
fn successful_cycle_tags_one_entry() {
    let builder = OnlineConfigServiceBuilder::new(URL.to_string(), static_pool());
    let (mut svc, action) = builder.build(100);
    match action {
        Action::Send(req) => {
            assert_eq!(req.method(), "GET");
            assert_eq!(req.uri(), URL);
            assert_eq!(req.headers()["User-Agent"], "online_config/0.1.0");
            assert!(req.body().is_empty());
        }
        other => panic!("unexpected {:?}", other),
    }
    assert_eq!(svc.phase(), Phase::Starting);
    let done = finish_cycle(&mut svc, 150, BODY.as_bytes(), vec!["a".to_string()], true);
    match done {
        Action::Sleep(Ok(t)) => assert_eq!(t, Timings { fetch_ms: 50, read_ms: 4, total_ms: 54 }),
        other => panic!("unexpected {:?}", other),
    }
    assert_eq!(svc.phase(), Phase::Running);
    assert_eq!(
        snapshot(svc.balancer()),
        vec![
            (ServerSource::Configuration, "static-1".to_string()),
            (ServerSource::CommandLine, "static-2".to_string()),
            (ServerSource::OnlineConfig, "a".to_string()),
        ]
    );
}

#[test]
fn pending_servers_are_those_parsed() {
    let builder = OnlineConfigServiceBuilder::new(URL.to_string(), static_pool());
    let (mut svc, _) = builder.build(0);
    svc.step(1, json_headers());
    svc.step(2, Event::Chunk(BODY.as_bytes().to_vec()));
    svc.step(3, Event::BodyEnd);
    svc.step(4, Event::Parsed(vec!["a".to_string(), "b".to_string()]));
    assert_eq!(svc.pending_servers(), &vec!["a".to_string(), "b".to_string()]);
}

#[test]
fn unreachable_url_at_build_aborts() {
    let builder = OnlineConfigServiceBuilder::new(URL.to_string(), static_pool());
    let (mut svc, _) = builder.build(0);
    assert!(matches!(svc.step(5, Event::TransportFailed), Action::Abort(CycleError::Transport)));
    assert_eq!(svc.phase(), Phase::Failed);
    assert!(matches!(svc.step(6, Event::Wake), Action::Ignored));
    assert_eq!(svc.balancer().len(), 2);
}

#[test]
fn malformed_url_at_build_aborts() {
    let builder = OnlineConfigServiceBuilder::new("http://exa mple/ x".to_string(), static_pool());
    let (svc, action) = builder.build(0);
    assert!(matches!(action, Action::Abort(CycleError::RequestConstruction)));
    assert_eq!(svc.phase(), Phase::Failed);
}

#[test]
fn failed_third_tick_keeps_second_ticks_entries() {
    let mut svc = started_service(0);
    // second tick
    assert!(matches!(svc.step(3_600_000, Event::Wake), Action::Send(_)));
    let done = finish_cycle(&mut svc, 3_600_010, BODY.as_bytes(), vec!["b".to_string()], true);
    assert!(matches!(done, Action::Sleep(Ok(_))));
    let after_second = snapshot(svc.balancer());
    // third tick: unreachable
    assert!(matches!(svc.step(7_200_000, Event::Wake), Action::Send(_)));
    assert!(matches!(
        svc.step(7_200_100, Event::TransportFailed),
        Action::Sleep(Err(CycleError::Transport))
    ));
    assert_eq!(snapshot(svc.balancer()), after_second);
    assert_eq!(svc.phase(), Phase::Running);
    // fourth tick goes on as usual
    assert!(matches!(svc.step(10_800_000, Event::Wake), Action::Send(_)));
    let done = finish_cycle(&mut svc, 10_800_010, BODY.as_bytes(), vec!["c".to_string()], true);
    assert!(matches!(done, Action::Sleep(Ok(_))));
    assert_eq!(snapshot(svc.balancer())[2], (ServerSource::OnlineConfig, "c".to_string()));
}

#[test]
fn deadline_ends_cycle_without_touching_pool() {
    let mut svc = started_service(0);
    let before = snapshot(svc.balancer());
    assert!(matches!(svc.step(1_000_000, Event::Wake), Action::Send(_)));
    svc.step(1_000_010, json_headers());
    svc.step(1_000_020, Event::Chunk(BODY.as_bytes().to_vec()));
    svc.step(1_000_030, Event::BodyEnd);
    svc.step(1_000_040, Event::Parsed(vec!["z".to_string()]));
    let late = svc.step(1_030_001, Event::IntegrityChecked(true));
    assert!(matches!(late, Action::Sleep(Err(CycleError::Timeout))));
    assert_eq!(snapshot(svc.balancer()), before);
}

#[test]
fn deadline_exactly_met_still_succeeds() {
    let mut cycle: FetchCycle<String> = FetchCycle::new(30_000);
    let mut pool = static_pool();
    assert!(matches!(cycle.begin(URL, 0), Action::Send(_)));
    cycle.advance(&mut pool, 10, json_headers());
    cycle.advance(&mut pool, 20, Event::Chunk(BODY.as_bytes().to_vec()));
    cycle.advance(&mut pool, 30, Event::BodyEnd);
    cycle.advance(&mut pool, 40, Event::Parsed(vec!["a".to_string()]));
    let done = cycle.advance(&mut pool, 30_000, Event::IntegrityChecked(true));
    assert!(matches!(done, Action::Done(Ok(_))));
    assert_eq!(pool.len(), 3);
    assert_eq!(cycle.stage(), Stage::Idle);
}

#[test]
fn timer_event_ends_cycle() {
    let mut cycle: FetchCycle<String> = FetchCycle::new(30_000);
    let mut pool = static_pool();
    cycle.begin(URL, 0);
    let r = cycle.advance(&mut pool, 5, Event::TimedOut);
    assert!(matches!(r, Action::Done(Err(CycleError::Timeout))));
    assert_eq!(pool.len(), 2);
}

#[test]
fn non_utf8_body_fails_with_encoding_error() {
    let mut svc = started_service(0);
    let before = snapshot(svc.balancer());
    svc.step(5_000_000, Event::Wake);
    svc.step(5_000_001, json_headers());
    svc.step(5_000_002, Event::Chunk(vec![0x7b, 0xff, 0x7d]));
    let r = svc.step(5_000_003, Event::BodyEnd);
    assert!(matches!(r, Action::Sleep(Err(CycleError::Encoding))));
    assert_eq!(snapshot(svc.balancer()), before);
}

#[test]
fn integrity_failure_leaves_pool() {
    let mut svc = started_service(0);
    let before = snapshot(svc.balancer());
    svc.step(5_000_000, Event::Wake);
    let r = finish_cycle(&mut svc, 5_000_001, BODY.as_bytes(), vec!["q".to_string()], false);
    assert!(matches!(r, Action::Sleep(Err(CycleError::Integrity))));
    assert_eq!(snapshot(svc.balancer()), before);
}

#[test]
fn parse_and_read_failures() {
    let mut svc = started_service(0);
    svc.step(5_000_000, Event::Wake);
    svc.step(5_000_001, json_headers());
    assert!(matches!(
        svc.step(5_000_002, Event::ReadFailed),
        Action::Sleep(Err(CycleError::BodyRead))
    ));
    svc.step(6_000_000, Event::Wake);
    svc.step(6_000_001, json_headers());
    svc.step(6_000_002, Event::BodyEnd);
    assert!(matches!(
        svc.step(6_000_003, Event::ParseFailed),
        Action::Sleep(Err(CycleError::Parse))
    ));
    assert_eq!(svc.balancer().len(), 3);
}

#[test]
fn missing_content_type_does_not_stop_cycle() {
    let builder = OnlineConfigServiceBuilder::new(URL.to_string(), static_pool());
    let (mut svc, _) = builder.build(0);
    let r = svc.step(1, Event::Responded { content_type: None, content_length: None });
    assert!(matches!(r, Action::Read(ContentTypeCheck::Missing)));
    svc.step(2, Event::Chunk(BODY.as_bytes().to_vec()));
    svc.step(3, Event::BodyEnd);
    svc.step(4, Event::Parsed(vec!["a".to_string()]));
    assert!(matches!(svc.step(5, Event::IntegrityChecked(true)), Action::Sleep(Ok(_))));
    assert_eq!(svc.balancer().len(), 3);
}

#[test]
fn malformed_content_type_does_not_stop_cycle() {
    let builder = OnlineConfigServiceBuilder::new(URL.to_string(), static_pool());
    let (mut svc, _) = builder.build(0);
    let r = svc.step(
        1,
        Event::Responded {
            content_type: Some(b"garbage".to_vec()),
            content_length: Some(b"huge".to_vec()),
        },
    );
    assert!(matches!(r, Action::Read(ContentTypeCheck::Unparsable)));
    svc.step(2, Event::Chunk(BODY.as_bytes().to_vec()));
    svc.step(3, Event::BodyEnd);
    svc.step(4, Event::Parsed(vec!["a".to_string()]));
    assert!(matches!(svc.step(5, Event::IntegrityChecked(true)), Action::Sleep(Ok(_))));
}

#[test]
fn out_of_place_events_are_ignored() {
    let mut svc = started_service(0);
    assert!(matches!(svc.step(10, Event::BodyEnd), Action::Ignored));
    assert!(matches!(svc.step(10, Event::IntegrityChecked(true)), Action::Ignored));
    svc.step(20, Event::Wake);
    assert!(matches!(svc.step(21, Event::Wake), Action::Ignored));
    assert!(matches!(svc.step(22, Event::Chunk(vec![1])), Action::Ignored));
    assert_eq!(svc.balancer().len(), 3);
}

#[test]
fn body_arrives_in_pieces() {
    let mut cycle: FetchCycle<String> = FetchCycle::new(30_000);
    let mut pool: ServerPool<String> = ServerPool::new();
    cycle.begin(URL, 0);
    cycle.advance(&mut pool, 1, json_headers());
    let (a, b) = BODY.as_bytes().split_at(10);
    cycle.advance(&mut pool, 2, Event::Chunk(a.to_vec()));
    cycle.advance(&mut pool, 3, Event::Chunk(b.to_vec()));
    match cycle.advance(&mut pool, 4, Event::BodyEnd) {
        Action::Parse(text) => assert_eq!(text, BODY),
        other => panic!("unexpected {:?}", other),
    }
}
