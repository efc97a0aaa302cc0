use live_preview::channel::{Channel, WatchChannel};
use live_preview::filter::{FilterDecision, ModifyKind, RawEventKind, RawFsEvent};
use live_preview::session::{WatchSession, WatchStrategy};
use live_preview::supervisor::{Directive, SessionSupervisor};

fn modified(path: &str) -> RawFsEvent {
    RawFsEvent { kind: RawEventKind::Modified(ModifyKind::Other), paths: vec![path.to_string()] }
}

fn launched(d: Directive) -> WatchSession {
    match d {
        Directive::Launch(s) => s,
        _ => panic!("expected a launch"),
    }
}

#[test]
fn session_ignores_events_until_armed() {
    let s = WatchSession::new(WatchChannel::Markdown, 3, "/tmp/a.md".to_string());
    assert!(!s.is_draining());
    assert!(matches!(s.on_event(&modified("/tmp/a.md")), FilterDecision::Suppress));
}

#[test]
fn arming_reads_the_watched_file_at_once() {
    let mut s = WatchSession::new(WatchChannel::Markdown, 3, "/tmp/a.md".to_string());
    let first = s.armed();
    assert_eq!(first, "/tmp/a.md");
    assert!(s.is_draining());
    let u = s.update("# start".to_string());
    assert_eq!(u.channel, Channel::Markdown);
    assert_eq!(u.path, "/tmp/a.md");
    assert_eq!(u.content, "# start");
}

#[test]
fn armed_session_rereads_reported_path() {
    let mut s = WatchSession::new(WatchChannel::Stylesheet, 0, "/tmp/s.css".to_string());
    s.armed();
    match s.on_event(&modified("/tmp/s.css")) {
        FilterDecision::Significant(p) => assert_eq!(p, "/tmp/s.css"),
        FilterDecision::Suppress => panic!("edit was suppressed"),
    }
    let dup = RawFsEvent {
        kind: RawEventKind::Modified(ModifyKind::DataChange),
        paths: vec!["/tmp/s.css".to_string()],
    };
    assert!(matches!(s.on_event(&dup), FilterDecision::Suppress));
}

#[test]
fn update_escapes_the_watched_path() {
    let s = WatchSession::new(WatchChannel::Markdown, 0, "C:\\docs\\a.md".to_string());
    let u = s.update("x".to_string());
    assert_eq!(u.path, "C:\\\\docs\\\\a.md");
    assert_eq!(s.strategy(), WatchStrategy::EventDriven);
    let share = WatchSession::new(WatchChannel::Markdown, 1, "\\\\srv\\a.md".to_string());
    assert_eq!(share.strategy(), WatchStrategy::Polling { interval_secs: 1 });
}

#[test]
fn first_start_launches_a_session() {
    let mut sup = SessionSupervisor::new();
    let s = launched(sup.start_channel(WatchChannel::Markdown, "/tmp/a.md".to_string()));
    assert_eq!(s.channel(), WatchChannel::Markdown);
    assert_eq!(s.session(), 0);
    assert_eq!(s.path(), "/tmp/a.md");
    assert!(!s.is_draining());
}

#[test]
fn restart_waits_for_the_old_watcher() {
    let mut sup = SessionSupervisor::new();
    let old = launched(sup.start_channel(WatchChannel::Markdown, "/tmp/a.md".to_string()));
    let d = sup.start_channel(WatchChannel::Markdown, "/tmp/b.md".to_string());
    assert!(matches!(
        d,
        Directive::Signal { channel: WatchChannel::Markdown, session } if session == old.session()
    ));
    // Nothing is launched while the old session still holds its watcher.
    let d = sup.start_channel(WatchChannel::Markdown, "/tmp/c.md".to_string());
    assert!(matches!(d, Directive::Nothing));
    assert!(matches!(sup.session_ended(WatchChannel::Markdown, 77), Directive::Nothing));
    let new = launched(sup.session_ended(WatchChannel::Markdown, old.session()));
    assert_eq!(new.path(), "/tmp/c.md");
    assert_ne!(new.session(), old.session());
    // The old session's report comes only once; a repeat is stale.
    assert!(matches!(sup.session_ended(WatchChannel::Markdown, old.session()), Directive::Nothing));
}

#[test]
fn stop_without_session_is_a_no_op() {
    let mut sup = SessionSupervisor::new();
    assert!(matches!(sup.stop_channel(WatchChannel::Markdown), Directive::Nothing));
    assert!(matches!(sup.stop_channel(WatchChannel::Markdown), Directive::Nothing));
    let s = launched(sup.start_channel(WatchChannel::Markdown, "/tmp/a.md".to_string()));
    assert_eq!(s.session(), 0);
}

#[test]
fn stop_signals_once() {
    let mut sup = SessionSupervisor::new();
    let s = launched(sup.start_channel(WatchChannel::Stylesheet, "/tmp/s.css".to_string()));
    assert!(matches!(
        sup.stop_channel(WatchChannel::Stylesheet),
        Directive::Signal { channel: WatchChannel::Stylesheet, session: 0 }
    ));
    assert!(matches!(sup.stop_channel(WatchChannel::Stylesheet), Directive::Nothing));
    assert!(matches!(sup.session_ended(WatchChannel::Stylesheet, s.session()), Directive::Nothing));
    let again = launched(sup.start_channel(WatchChannel::Stylesheet, "/tmp/t.css".to_string()));
    assert_eq!(again.session(), 1);
}

#[test]
fn stop_cancels_a_pending_restart() {
    let mut sup = SessionSupervisor::new();
    let s = launched(sup.start_channel(WatchChannel::Markdown, "/tmp/a.md".to_string()));
    sup.start_channel(WatchChannel::Markdown, "/tmp/b.md".to_string());
    assert!(matches!(sup.stop_channel(WatchChannel::Markdown), Directive::Nothing));
    assert!(matches!(sup.session_ended(WatchChannel::Markdown, s.session()), Directive::Nothing));
}

#[test]
fn failed_arming_frees_the_channel() {
    let mut sup = SessionSupervisor::new();
    let s = launched(sup.start_channel(WatchChannel::Markdown, "/missing.md".to_string()));
    assert!(matches!(sup.session_ended(WatchChannel::Markdown, s.session()), Directive::Nothing));
    let next = launched(sup.start_channel(WatchChannel::Markdown, "/tmp/a.md".to_string()));
    assert_eq!(next.session(), 1);
}

#[test]
fn channels_run_independently() {
    let mut sup = SessionSupervisor::new();
    let mut md = launched(sup.start_channel(WatchChannel::Markdown, "/tmp/a.md".to_string()));
    let mut css = launched(sup.start_channel(WatchChannel::Stylesheet, "/tmp/s.css".to_string()));
    assert_ne!(md.session(), css.session());
    md.armed();
    css.armed();
    // A restart of the stylesheet does not touch the markdown session.
    let d = sup.start_channel(WatchChannel::Stylesheet, "/tmp/t.css".to_string());
    assert!(matches!(
        d,
        Directive::Signal { channel: WatchChannel::Stylesheet, session } if session == css.session()
    ));
    assert!(matches!(sup.stop_channel(WatchChannel::Markdown), Directive::Signal { channel: WatchChannel::Markdown, .. }));
    // An edit of the stylesheet notifies on the stylesheet stream only.
    let u = match css.on_event(&modified("/tmp/s.css")) {
        FilterDecision::Significant(_) => css.update("body{}".to_string()),
        FilterDecision::Suppress => panic!("edit was suppressed"),
    };
    assert_eq!(u.channel, Channel::Stylesheet);
    assert_eq!(u.path, "/tmp/s.css");
    let m = md.update("# md".to_string());
    assert_eq!(m.channel, Channel::Markdown);
}

#[test]
fn channel_event_names() {
    assert_eq!(Channel::Markdown.event_name(), "update_md");
    assert_eq!(Channel::Stylesheet.event_name(), "update_css");
    assert_eq!(Channel::Tcp.event_name(), "update_md_tcp");
    assert_eq!(WatchChannel::Markdown.channel(), Channel::Markdown);
    assert_eq!(WatchChannel::Stylesheet.channel(), Channel::Stylesheet);
}
