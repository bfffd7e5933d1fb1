use media_bridge::diff::DiffSession;
use media_bridge::error::RemoteError;
use media_bridge::event::{Event, SessionState};
use media_bridge::json::metadata_json;
use media_bridge::metadata::{normalize, MetaValue, Metadata};
use media_bridge::position::PositionSession;

fn remote_error(msg: &str) -> RemoteError {
    RemoteError { message: msg.to_string() }
}

fn snapshot(title: &str) -> Metadata {
    let raw = vec![
        ("xesam:title".to_string(), MetaValue::Str(title.to_string())),
        ("mpris:length".to_string(), MetaValue::I64(1000)),
    ];
    normalize(&raw).ok().unwrap()
}

#[test]
fn position_poller_two_progress_events_then_end_of_stream() {
    let Ok(mut sess) = PositionSession::start(Ok(300)) else {
        panic!("starting with a read length must stream");
    };
    let mut events: Vec<Event> = Vec::new();
    events.push(sess.on_tick(Ok(100)));
    events.push(sess.on_tick(Ok(200)));
    events.push(sess.on_tick(Ok(300)));
    assert_eq!(events.len(), 3);
    assert!(matches!(&events[0], Event::Position(p) if p == "100"));
    assert!(matches!(&events[1], Event::Position(p) if p == "200"));
    assert!(matches!(&events[2], Event::EndOfStream));
    assert!(matches!(sess.state, SessionState::Ended));
}

#[test]
fn position_poller_failed_length_read_never_streams() {
    let r = PositionSession::start(Err(remote_error("no such player")));
    let Err(ev) = r else {
        panic!("a failed length read must not stream");
    };
    assert!(matches!(ev, Event::Error(m) if m == "no such player"));
}

#[test]
fn position_poller_failed_read_ends_the_session() {
    let Ok(mut sess) = PositionSession::start(Ok(500)) else {
        panic!();
    };
    let e = sess.on_tick(Err(remote_error("gone")));
    assert!(matches!(e, Event::Error(m) if m == "gone"));
    assert!(matches!(sess.state, SessionState::Failed));
}

#[test]
fn position_poller_disconnects_when_the_send_fails() {
    let Ok(mut sess) = PositionSession::start(Ok(500)) else {
        panic!();
    };
    let _ = sess.on_tick(Ok(10));
    sess.on_send_failed();
    assert!(matches!(sess.state, SessionState::Disconnected));
}

#[test]
fn diff_poller_identical_snapshots_emit_no_metadata_event() {
    let mut sess = DiffSession::start(snapshot("same"), "Playing".to_string());
    assert!(sess.on_metadata(Ok(snapshot("same"))).is_none());
    assert!(sess.on_metadata(Ok(snapshot("same"))).is_none());
    assert!(matches!(sess.state, SessionState::Streaming));
}

#[test]
fn diff_poller_changed_snapshot_emits_exactly_one_metadata_event() {
    let mut sess = DiffSession::start(snapshot("before"), "Playing".to_string());
    let second = snapshot("after");
    let expected = metadata_json(&second);
    let e = sess.on_metadata(Ok(second));
    assert!(matches!(e, Some(Event::Metadata(p)) if p == expected));
    // the new snapshot is now the last seen: repeating it emits nothing
    assert!(sess.on_metadata(Ok(snapshot("after"))).is_none());
}

#[test]
fn diff_poller_status_is_change_gated() {
    let mut sess = DiffSession::start(snapshot("t"), "Playing".to_string());
    assert!(sess.on_status(Ok("Playing".to_string())).is_none());
    let e = sess.on_status(Ok("Paused".to_string()));
    assert!(matches!(e, Some(Event::Status(p)) if p == "Paused"));
    assert!(sess.on_status(Ok("Paused".to_string())).is_none());
}

#[test]
fn diff_poller_keepalive_is_time_gated_only() {
    let sess = DiffSession::start(snapshot("t"), "Playing".to_string());
    assert!(matches!(sess.on_keepalive(), Event::Keepalive));
    assert!(matches!(sess.on_keepalive(), Event::Keepalive));
}

#[test]
fn diff_poller_failed_metadata_read_ends_the_session() {
    let mut sess = DiffSession::start(snapshot("t"), "Playing".to_string());
    let e = sess.on_metadata(Err(remote_error("read failed")));
    assert!(matches!(e, Some(Event::Error(m)) if m == "read failed"));
    assert!(matches!(sess.state, SessionState::Failed));
}

#[test]
fn diff_poller_failed_status_read_ends_the_session() {
    let mut sess = DiffSession::start(snapshot("t"), "Playing".to_string());
    let e = sess.on_status(Err(remote_error("read failed")));
    assert!(matches!(e, Some(Event::Error(m)) if m == "read failed"));
    assert!(matches!(sess.state, SessionState::Failed));
}

#[test]
fn diff_poller_disconnects_when_the_send_fails() {
    let mut sess = DiffSession::start(snapshot("t"), "Playing".to_string());
    sess.on_send_failed();
    assert!(matches!(sess.state, SessionState::Disconnected));
}
