use migre::{Action, Config, ConfigError, Phase, Pump, PumpState, PumpStep, ReadOutcome, Session};

fn addrs(list: &[&str]) -> Vec<String> {
    list.iter().map(|s| s.to_string()).collect()
}

fn data(s: &str) -> ReadOutcome {
    ReadOutcome::Data(s.as_bytes().to_vec())
}

fn broadcast(s: &str, targets: &[usize]) -> Action {
    Action::Broadcast { chunk: s.as_bytes().to_vec(), targets: targets.to_vec() }
}

/// A session for two upstreams, both dialed.
fn active_pair() -> Session {
    let mut s = Session::new(2);
    let r = s.on_dialed(&vec![true, true]);
    assert_eq!(r, vec![Action::StartReturnPump, Action::StartDiscardPump(1), Action::ReadClient]);
    s
}

#[test]
fn config_keeps_fields() {
    let config = Config::new(
        "127.0.0.1:12345".to_string(),
        addrs(&["127.0.0.1:8000", "127.0.0.1:8001"]),
        Some(true),
        None,
    )
    .unwrap();
    assert_eq!(config.listen_addr, "127.0.0.1:12345");
    assert_eq!(config.upstreams[0], "127.0.0.1:8000");
    assert_eq!(config.run_once, Some(true));
    assert_eq!(config.upstream_count(), 2);
    assert!(config.stops_after_accept());
}

#[test]
fn config_without_run_once_keeps_accepting() {
    let config = Config::new("0.0.0.0:1".to_string(), addrs(&["a:1"]), None, Some(4)).unwrap();
    assert!(!config.stops_after_accept());
    let config = Config::new("0.0.0.0:1".to_string(), addrs(&["a:1"]), Some(false), None).unwrap();
    assert!(!config.stops_after_accept());
}

#[test]
fn config_rejects_empty_upstreams() {
    let r = Config::new("0.0.0.0:1".to_string(), Vec::new(), Some(true), Some(0));
    assert_eq!(r.unwrap_err(), ConfigError::NoUpstreams);
}

#[test]
fn config_rejects_empty_worker_pool() {
    let r = Config::new("0.0.0.0:1".to_string(), addrs(&["a:1"]), None, Some(0));
    assert_eq!(r.unwrap_err(), ConfigError::EmptyWorkerPool);
}

#[test]
fn pump_hands_chunks_on_unchanged() {
    let mut p = Pump::new();
    assert_eq!(p.on_read(data("hello\n")), PumpStep::Write(b"hello\n".to_vec()));
    assert_eq!(p.state(), PumpState::Writing);
    assert_eq!(p.on_written(true), PumpStep::Read);
    assert_eq!(p.on_read(ReadOutcome::Interrupted), PumpStep::Read);
    assert_eq!(p.on_read(data("")), PumpStep::Stop);
    assert_eq!(p.state(), PumpState::Drained);
    assert_eq!(p.on_read(data("late")), PumpStep::Ignore);
}

#[test]
fn pump_stops_on_read_error() {
    let mut p = Pump::new();
    assert_eq!(p.on_read(ReadOutcome::Failed), PumpStep::Stop);
    assert_eq!(p.state(), PumpState::Drained);
}

#[test]
fn pump_stops_when_sink_refuses() {
    let mut p = Pump::new();
    assert_eq!(p.on_written(true), PumpStep::Ignore);
    assert_eq!(p.on_read(data("x")), PumpStep::Write(b"x".to_vec()));
    assert_eq!(p.on_read(data("y")), PumpStep::Ignore);
    assert_eq!(p.on_written(false), PumpStep::Stop);
    assert_eq!(p.state(), PumpState::Broken);
}

#[test]
fn echo_through_primary_and_shadow() {
    let mut s = active_pair();
    assert_eq!(s.phase(), Phase::Active);
    assert_eq!(s.on_client_read(data("hello\n")), vec![broadcast("hello\n", &[0, 1])]);
    assert_eq!(s.on_write_done(1, true), Vec::<Action>::new());
    assert_eq!(s.on_write_done(0, true), vec![Action::ReadClient]);
    assert_eq!(
        s.on_client_read(data("")),
        vec![Action::ShutdownWrite(0), Action::ShutdownWrite(1)]
    );
    assert_eq!(s.phase(), Phase::Draining);
    assert!(s.is_open(0) && s.is_open(1));
    assert!(!s.is_live(0) && !s.is_live(1));
    assert_eq!(
        s.on_primary_closed(),
        vec![Action::CloseUpstream(0), Action::CloseUpstream(1), Action::CloseClient]
    );
    assert_eq!(s.phase(), Phase::Closed);
    assert!(!s.is_open(0) && !s.is_open(1));
}

#[test]
fn unreachable_primary_closes_without_data() {
    let mut s = Session::new(2);
    assert_eq!(
        s.on_dialed(&vec![false, true]),
        vec![Action::CloseUpstream(1), Action::CloseClient]
    );
    assert_eq!(s.phase(), Phase::Closed);
    assert_eq!(s.on_client_read(data("ping\n")), Vec::<Action>::new());
    assert_eq!(s.on_primary_closed(), Vec::<Action>::new());
}

#[test]
fn unreachable_shadow_is_left_out() {
    let mut s = Session::new(2);
    assert_eq!(s.on_dialed(&vec![true, false]), vec![Action::StartReturnPump, Action::ReadClient]);
    assert!(s.is_live(0) && !s.is_live(1) && !s.is_open(1));
    assert_eq!(s.on_client_read(data("ping\n")), vec![broadcast("ping\n", &[0])]);
    assert_eq!(s.on_write_done(0, true), vec![Action::ReadClient]);
}

#[test]
fn no_upstream_dialed_closes_the_client() {
    let mut s = Session::new(3);
    assert_eq!(s.on_dialed(&vec![false, false, false]), vec![Action::CloseClient]);
    assert_eq!(s.phase(), Phase::Closed);
}

#[test]
fn chunks_keep_their_order() {
    let mut s = active_pair();
    assert_eq!(s.on_client_read(data("foo\n")), vec![broadcast("foo\n", &[0, 1])]);
    // no second read is issued before both writes of the first chunk are done
    assert_eq!(s.on_client_read(data("bar\n")), Vec::<Action>::new());
    assert_eq!(s.on_write_done(0, true), Vec::<Action>::new());
    assert_eq!(s.on_write_done(1, true), vec![Action::ReadClient]);
    assert_eq!(s.on_client_read(data("bar\n")), vec![broadcast("bar\n", &[0, 1])]);
}

#[test]
fn failed_shadow_write_drops_the_shadow() {
    let mut s = Session::new(3);
    s.on_dialed(&vec![true, true, true]);
    assert_eq!(s.on_client_read(data("a")), vec![broadcast("a", &[0, 1, 2])]);
    assert_eq!(s.on_write_done(1, false), vec![Action::CloseUpstream(1)]);
    assert_eq!(s.on_write_done(1, true), Vec::<Action>::new());
    assert_eq!(s.on_write_done(0, true), Vec::<Action>::new());
    assert_eq!(s.on_write_done(2, true), vec![Action::ReadClient]);
    assert!(!s.is_open(1));
    assert_eq!(s.on_client_read(data("b")), vec![broadcast("b", &[0, 2])]);
}

#[test]
fn failed_primary_write_keeps_the_return_path() {
    let mut s = active_pair();
    s.on_client_read(data("a"));
    assert_eq!(s.on_write_done(0, false), Vec::<Action>::new());
    assert_eq!(s.on_write_done(1, true), vec![Action::ReadClient]);
    assert!(s.is_open(0) && !s.is_live(0));
    assert_eq!(s.on_client_read(data("b")), vec![broadcast("b", &[1])]);
}

#[test]
fn read_with_no_upstream_left_reads_again() {
    let mut s = Session::new(1);
    s.on_dialed(&vec![true]);
    s.on_client_read(data("a"));
    assert_eq!(s.on_write_done(0, false), vec![Action::ReadClient]);
    assert_eq!(s.on_client_read(data("b")), vec![Action::ReadClient]);
}

#[test]
fn interrupted_client_read_is_retried() {
    let mut s = active_pair();
    assert_eq!(s.on_client_read(ReadOutcome::Interrupted), vec![Action::ReadClient]);
    assert_eq!(s.phase(), Phase::Active);
}

#[test]
fn client_read_error_stops_the_broadcast() {
    let mut s = active_pair();
    assert_eq!(
        s.on_client_read(ReadOutcome::Failed),
        vec![Action::ShutdownWrite(0), Action::ShutdownWrite(1)]
    );
    assert_eq!(s.phase(), Phase::Draining);
}

#[test]
fn primary_end_closes_an_active_session() {
    let mut s = active_pair();
    s.on_client_read(data("a"));
    assert_eq!(
        s.on_primary_closed(),
        vec![Action::CloseUpstream(0), Action::CloseUpstream(1), Action::CloseClient]
    );
    assert_eq!(s.on_write_done(0, true), Vec::<Action>::new());
    assert_eq!(s.phase(), Phase::Closed);
}

#[test]
fn incomplete_dial_report_is_ignored() {
    let mut s = Session::new(2);
    assert_eq!(s.on_dialed(&vec![true]), Vec::<Action>::new());
    assert_eq!(s.phase(), Phase::Dialing);
    assert_eq!(s.upstream_count(), 2);
}

#[test]
fn sessions_do_not_share_state() {
    let mut a = active_pair();
    let mut b = active_pair();
    a.on_client_read(data("mine"));
    assert_eq!(a.on_primary_closed().len(), 3);
    assert_eq!(b.phase(), Phase::Active);
    assert_eq!(b.on_client_read(data("yours")), vec![broadcast("yours", &[0, 1])]);
}

#[test]
fn client_read_is_wanted_only_between_chunks() {
    let mut s = Session::new(2);
    assert!(!s.wants_client_read());
    s.on_dialed(&vec![true, true]);
    assert!(s.wants_client_read());
    s.on_client_read(data("a"));
    assert!(!s.wants_client_read());
    s.on_write_done(0, true);
    s.on_write_done(1, true);
    assert!(s.wants_client_read());
    s.on_client_read(data(""));
    assert!(!s.wants_client_read());
}
