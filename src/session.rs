use vstd::prelude::*;
use crate::channel::{watch_channel_spec, WatchChannel};
use crate::escape::escape_spec;
use crate::filter::{classify, significant_path, FilterDecision, RawFsEvent};
use crate::notification::ContentUpdate;

verus! {

/// Seconds between two polls of a file on a network share.
pub const POLL_INTERVAL_SECS: u64 = 1;

/// How a file is watched.
#[derive(Clone, Copy, Debug, PartialEq, Eq, Structural)]
pub enum WatchStrategy {
    /// Compare the file's state at a fixed interval.
    Polling { interval_secs: u64 },
    /// Rely on the operating system's change notifications.
    EventDriven,
}

/// A path on a network share starts with two backslashes.
pub open spec fn is_network_share_spec(p: Seq<char>) -> bool {
    p.len() >= 2 && p[0] == '\\' && p[1] == '\\'
}

/// Network shares are polled, since native notifications are unreliable there;
/// every other path is watched through the operating system.
pub open spec fn strategy_spec(p: Seq<char>) -> WatchStrategy {
    if is_network_share_spec(p) {
        WatchStrategy::Polling { interval_secs: POLL_INTERVAL_SECS }
    } else {
        WatchStrategy::EventDriven
    }
}

pub fn is_network_share(path: &str) -> (r: bool)
    ensures
        r == is_network_share_spec(path@),
{
    let n = path.unicode_len();
    n >= 2 && path.get_char(0) == '\\' && path.get_char(1) == '\\'
}

/// The watcher strategy for `path`.
pub fn watch_strategy(path: &str) -> (r: WatchStrategy)
    ensures
        r == strategy_spec(path@),
{
    if is_network_share(path) {
        WatchStrategy::Polling { interval_secs: POLL_INTERVAL_SECS }
    } else {
        WatchStrategy::EventDriven
    }
}

/// What a session is: its stream, its number, the watched path, and whether its
/// watcher is armed and its events are being drained.
pub struct SessionModel {
    pub channel: WatchChannel,
    pub session: u64,
    pub path: Seq<char>,
    pub draining: bool,
}

/// One watch of one file for one stream. It is created before its watcher is
/// armed, and ignores events until then.
#[derive(Clone, Debug)]
pub struct WatchSession {
    channel: WatchChannel,
    session: u64,
    path: String,
    draining: bool,
}

impl View for WatchSession {
    type V = SessionModel;

    closed spec fn view(&self) -> SessionModel {
        SessionModel {
            channel: self.channel,
            session: self.session,
            path: self.path@,
            draining: self.draining,
        }
    }
}

impl WatchSession {
    pub fn new(channel: WatchChannel, session: u64, path: String) -> (r: WatchSession)
        ensures
            r@ == (SessionModel { channel, session, path: path@, draining: false }),
    {
        WatchSession { channel, session, path, draining: false }
    }

    pub fn channel(&self) -> (r: WatchChannel)
        ensures
            r == self@.channel,
    {
        self.channel
    }

    pub fn session(&self) -> (r: u64)
        ensures
            r == self@.session,
    {
        self.session
    }

    pub fn path(&self) -> (r: &str)
        ensures
            r@ == self@.path,
    {
        self.path.as_str()
    }

    pub fn is_draining(&self) -> (r: bool)
        ensures
            r == self@.draining,
    {
        self.draining
    }

    /// How this session's watcher is to be armed.
    pub fn strategy(&self) -> (r: WatchStrategy)
        ensures
            r == strategy_spec(self@.path),
    {
        watch_strategy(self.path.as_str())
    }

    /// Records that the watcher is armed. The returned path is read at once and
    /// its content notified, before any filesystem event: the watched file itself.
    pub fn armed(&mut self) -> (r: String)
        ensures
            r@ == old(self)@.path,
            final(self)@ == (SessionModel { draining: true, ..old(self)@ }),
    {
        self.draining = true;
        self.path.clone()
    }

    /// The path to re-read for a raw event: the one the event reports, when the
    /// session is draining and the event stands for an edit.
    pub fn on_event(&self, ev: &RawFsEvent) -> (r: FilterDecision)
        ensures
            r.view() == (if self@.draining {
                significant_path(*ev)
            } else {
                None
            }),
    {
        if self.draining {
            classify(ev)
        } else {
            FilterDecision::Suppress
        }
    }

    /// The notification for content read on behalf of this session: always on the
    /// session's own stream, under the watched path.
    pub fn update(&self, content: String) -> (r: ContentUpdate)
        ensures
            r.channel == watch_channel_spec(self@.channel),
            r.path@ == escape_spec(self@.path),
            r.content == content,
    {
        ContentUpdate::new(self.channel.channel(), self.path.as_str(), content)
    }
}

} // verus!
