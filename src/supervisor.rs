use vstd::prelude::*;
use crate::channel::WatchChannel;
use crate::session::{SessionModel, WatchSession};

verus! {

/// The state of one stream's watching.
pub enum SlotModel {
    /// No session.
    Idle,
    /// A session that holds a watcher for `path`.
    Live { session: u64, path: Seq<char> },
    /// A session that was told to stop and still holds its watcher; `next` is the
    /// path to watch once it has let go of it.
    Stopping { session: u64, next: Option<Seq<char>> },
}

pub struct SupervisorModel {
    pub markdown: SlotModel,
    pub stylesheet: SlotModel,
    /// The number the next session gets.
    pub next_session: u64,
}

/// What the caller is to do after a request or a report.
pub enum DirectiveModel {
    Nothing,
    /// Arm a watcher for this new session.
    Launch(SessionModel),
    /// Send the stop signal to this session.
    Signal { channel: WatchChannel, session: u64 },
    /// No session number is left: the start request fails.
    Refused(WatchChannel),
}

pub open spec fn slot_session(s: SlotModel) -> Option<u64> {
    match s {
        SlotModel::Idle => None,
        SlotModel::Live { session, .. } => Some(session),
        SlotModel::Stopping { session, .. } => Some(session),
    }
}

impl SupervisorModel {
    pub open spec fn slot(self, ch: WatchChannel) -> SlotModel {
        match ch {
            WatchChannel::Markdown => self.markdown,
            WatchChannel::Stylesheet => self.stylesheet,
        }
    }

    pub open spec fn with_slot(self, ch: WatchChannel, s: SlotModel) -> SupervisorModel {
        match ch {
            WatchChannel::Markdown => SupervisorModel { markdown: s, ..self },
            WatchChannel::Stylesheet => SupervisorModel { stylesheet: s, ..self },
        }
    }

    /// Every session number in use was handed out before `next_session`.
    pub open spec fn wf(self) -> bool {
        &&& (slot_session(self.markdown) matches Some(id) ==> id < self.next_session)
        &&& (slot_session(self.stylesheet) matches Some(id) ==> id < self.next_session)
    }
}

/// A new session for `path` on a stream that holds no watcher.
pub open spec fn launch_spec(m: SupervisorModel, ch: WatchChannel, path: Seq<char>) -> (
    SupervisorModel,
    DirectiveModel,
) {
    if m.next_session < u64::MAX {
        let id = m.next_session;
        (
            SupervisorModel {
                next_session: (id + 1) as u64,
                ..m.with_slot(ch, SlotModel::Live { session: id, path })
            },
            DirectiveModel::Launch(
                SessionModel { channel: ch, session: id, path, draining: false },
            ),
        )
    } else {
        (m.with_slot(ch, SlotModel::Idle), DirectiveModel::Refused(ch))
    }
}

/// A start request: launch at once on an idle stream; otherwise the current
/// session is told to stop (once) and the latest requested path waits for it.
pub open spec fn start_spec(m: SupervisorModel, ch: WatchChannel, path: Seq<char>) -> (
    SupervisorModel,
    DirectiveModel,
) {
    match m.slot(ch) {
        SlotModel::Idle => launch_spec(m, ch, path),
        SlotModel::Live { session, .. } => (
            m.with_slot(ch, SlotModel::Stopping { session, next: Some(path) }),
            DirectiveModel::Signal { channel: ch, session },
        ),
        SlotModel::Stopping { session, .. } => (
            m.with_slot(ch, SlotModel::Stopping { session, next: Some(path) }),
            DirectiveModel::Nothing,
        ),
    }
}

/// A stop request: signal a live session; a stopping one forgets its pending
/// restart; an idle stream is left as it is.
pub open spec fn stop_spec(m: SupervisorModel, ch: WatchChannel) -> (
    SupervisorModel,
    DirectiveModel,
) {
    match m.slot(ch) {
        SlotModel::Idle => (m, DirectiveModel::Nothing),
        SlotModel::Live { session, .. } => (
            m.with_slot(ch, SlotModel::Stopping { session, next: None }),
            DirectiveModel::Signal { channel: ch, session },
        ),
        SlotModel::Stopping { session, .. } => (
            m.with_slot(ch, SlotModel::Stopping { session, next: None }),
            DirectiveModel::Nothing,
        ),
    }
}

/// A session reports that it is over and holds no watcher (it was stopped, or its
/// watcher could not be armed). Only then does a pending restart launch. A report
/// of any other session is stale and changes nothing.
pub open spec fn ended_spec(m: SupervisorModel, ch: WatchChannel, id: u64) -> (
    SupervisorModel,
    DirectiveModel,
) {
    match m.slot(ch) {
        SlotModel::Live { session, .. } if session == id => (
            m.with_slot(ch, SlotModel::Idle),
            DirectiveModel::Nothing,
        ),
        SlotModel::Stopping { session, next: Some(p) } if session == id => launch_spec(
            m,
            ch,
            p,
        ),
        SlotModel::Stopping { session, next: None } if session == id => (
            m.with_slot(ch, SlotModel::Idle),
            DirectiveModel::Nothing,
        ),
        _ => (m, DirectiveModel::Nothing),
    }
}

/// Restarting a stream that has a live session signals that session once and
/// launches nothing; while it still holds its watcher, further start requests and
/// stale reports launch nothing either; its own report that it let go launches
/// exactly one new session, under a fresh number, for the latest path.
pub proof fn lemma_restart_is_serialized(
    m: SupervisorModel,
    ch: WatchChannel,
    path: Seq<char>,
    again: Seq<char>,
    stale: u64,
)
    requires
        m.wf(),
        m.slot(ch) is Live,
        m.next_session < u64::MAX,
    ensures
        ({
            let old_id = m.slot(ch)->Live_session;
            let (m1, d1) = start_spec(m, ch, path);
            let (m2, d2) = ended_spec(m1, ch, old_id);
            &&& d1 == DirectiveModel::Signal { channel: ch, session: old_id }
            &&& m1.slot(ch) == SlotModel::Stopping { session: old_id, next: Some(path) }
            &&& start_spec(m1, ch, again).1 == DirectiveModel::Nothing
            &&& (stale != old_id ==> ended_spec(m1, ch, stale) == (m1, DirectiveModel::Nothing))
            &&& d2 == DirectiveModel::Launch(
                SessionModel { channel: ch, session: m.next_session, path, draining: false },
            )
            &&& m2.slot(ch) == SlotModel::Live { session: m.next_session, path }
            &&& m.next_session != old_id
        }),
{
}

/// Stopping a stream without a session changes nothing and asks for nothing, and
/// a second stop request after a first one asks for nothing more.
pub proof fn lemma_stop_is_idempotent(m: SupervisorModel, ch: WatchChannel)
    ensures
        m.slot(ch) is Idle ==> stop_spec(m, ch) == (m, DirectiveModel::Nothing),
        ({
            let m1 = stop_spec(m, ch).0;
            stop_spec(m1, ch) == (m1, DirectiveModel::Nothing)
        }),
{
}

/// Requests and reports for one stream leave the other stream's state alone, and
/// every session launched for a stream belongs to that stream.
pub proof fn lemma_channels_independent(
    m: SupervisorModel,
    ch: WatchChannel,
    other: WatchChannel,
    path: Seq<char>,
    id: u64,
)
    requires
        ch != other,
    ensures
        start_spec(m, ch, path).0.slot(other) == m.slot(other),
        stop_spec(m, ch).0.slot(other) == m.slot(other),
        ended_spec(m, ch, id).0.slot(other) == m.slot(other),
        start_spec(m, ch, path).1 matches DirectiveModel::Launch(s) ==> s.channel == ch,
        ended_spec(m, ch, id).1 matches DirectiveModel::Launch(s) ==> s.channel == ch,
{
}

/// A stop signal names the stream's current session and is sent once: a session
/// told to stop gets no second signal, and no signal ever names a session
/// launched later, so a stale stop cannot end a fresh session.
pub proof fn lemma_signal_reaches_current_session_once(
    m: SupervisorModel,
    ch: WatchChannel,
    path: Seq<char>,
    id: u64,
)
    requires
        m.wf(),
    ensures
        start_spec(m, ch, path).1 matches DirectiveModel::Signal { channel, session } ==> channel
            == ch && m.slot(ch) == (SlotModel::Live { session, path: m.slot(ch)->Live_path }),
        stop_spec(m, ch).1 matches DirectiveModel::Signal { channel, session } ==> channel == ch
            && m.slot(ch) == (SlotModel::Live { session, path: m.slot(ch)->Live_path }),
        !(ended_spec(m, ch, id).1 is Signal),
        m.slot(ch) is Stopping ==> !(start_spec(m, ch, path).1 is Signal) && !(stop_spec(
            m,
            ch,
        ).1 is Signal),
        start_spec(m, ch, path).1 is Signal ==> start_spec(m, ch, path).0.slot(ch) is Stopping,
        stop_spec(m, ch).1 is Signal ==> stop_spec(m, ch).0.slot(ch) is Stopping,
{
}

pub enum Slot {
    Idle,
    Live { session: u64, path: String },
    Stopping { session: u64, next: Option<String> },
}

impl View for Slot {
    type V = SlotModel;

    open spec fn view(&self) -> SlotModel {
        match self {
            Slot::Idle => SlotModel::Idle,
            Slot::Live { session, path } => SlotModel::Live { session: *session, path: path@ },
            Slot::Stopping { session, next } => SlotModel::Stopping {
                session: *session,
                next: match next {
                    Some(p) => Some(p@),
                    None => None,
                },
            },
        }
    }
}

pub enum Directive {
    Nothing,
    Launch(WatchSession),
    Signal { channel: WatchChannel, session: u64 },
    Refused(WatchChannel),
}

impl View for Directive {
    type V = DirectiveModel;

    open spec fn view(&self) -> DirectiveModel {
        match self {
            Directive::Nothing => DirectiveModel::Nothing,
            Directive::Launch(s) => DirectiveModel::Launch(s@),
            Directive::Signal { channel, session } => DirectiveModel::Signal {
                channel: *channel,
                session: *session,
            },
            Directive::Refused(ch) => DirectiveModel::Refused(*ch),
        }
    }
}

/// Keeps at most one session per stream, and never lets a new one arm its
/// watcher while the previous one of the same stream still holds its own.
pub struct SessionSupervisor {
    markdown: Slot,
    stylesheet: Slot,
    next_session: u64,
}

impl View for SessionSupervisor {
    type V = SupervisorModel;

    closed spec fn view(&self) -> SupervisorModel {
        SupervisorModel {
            markdown: self.markdown@,
            stylesheet: self.stylesheet@,
            next_session: self.next_session,
        }
    }
}

impl SessionSupervisor {
    pub fn new() -> (r: SessionSupervisor)
        ensures
            r@ == (SupervisorModel {
                markdown: SlotModel::Idle,
                stylesheet: SlotModel::Idle,
                next_session: 0,
            }),
            r@.wf(),
    {
        SessionSupervisor { markdown: Slot::Idle, stylesheet: Slot::Idle, next_session: 0 }
    }

    fn take_slot(&mut self, ch: WatchChannel) -> (r: Slot)
        ensures
            r@ == old(self)@.slot(ch),
            final(self)@ == old(self)@.with_slot(ch, SlotModel::Idle),
    {
        let mut out = Slot::Idle;
        match ch {
            WatchChannel::Markdown => core::mem::swap(&mut self.markdown, &mut out),
            WatchChannel::Stylesheet => core::mem::swap(&mut self.stylesheet, &mut out),
        }
        out
    }

    fn put_slot(&mut self, ch: WatchChannel, s: Slot)
        ensures
            final(self)@ == old(self)@.with_slot(ch, s@),
    {
        match ch {
            WatchChannel::Markdown => self.markdown = s,
            WatchChannel::Stylesheet => self.stylesheet = s,
        }
    }

    fn launch(&mut self, ch: WatchChannel, path: String) -> (d: Directive)
        requires
            old(self)@.slot(ch) is Idle,
        ensures
            (final(self)@, d@) == launch_spec(old(self)@, ch, path@),
    {
        if self.next_session < u64::MAX {
            let id = self.next_session;
            let session = WatchSession::new(ch, id, path.clone());
            self.put_slot(ch, Slot::Live { session: id, path });
            self.next_session = id + 1;
            Directive::Launch(session)
        } else {
            Directive::Refused(ch)
        }
    }

    /// Starts watching `path` on `ch`, replacing its current session if any.
    pub fn start_channel(&mut self, ch: WatchChannel, path: String) -> (d: Directive)
        requires
            old(self)@.wf(),
        ensures
            (final(self)@, d@) == start_spec(old(self)@, ch, path@),
            final(self)@.wf(),
    {
        let slot = self.take_slot(ch);
        match slot {
            Slot::Idle => self.launch(ch, path),
            Slot::Live { session, path: _ } => {
                self.put_slot(ch, Slot::Stopping { session, next: Some(path) });
                Directive::Signal { channel: ch, session }
            },
            Slot::Stopping { session, next: _ } => {
                self.put_slot(ch, Slot::Stopping { session, next: Some(path) });
                Directive::Nothing
            },
        }
    }

    /// Stops the session of `ch`, without waiting for it to let go of its watcher.
    pub fn stop_channel(&mut self, ch: WatchChannel) -> (d: Directive)
        requires
            old(self)@.wf(),
        ensures
            (final(self)@, d@) == stop_spec(old(self)@, ch),
            final(self)@.wf(),
    {
        let slot = self.take_slot(ch);
        match slot {
            Slot::Idle => Directive::Nothing,
            Slot::Live { session, path: _ } => {
                self.put_slot(ch, Slot::Stopping { session, next: None });
                Directive::Signal { channel: ch, session }
            },
            Slot::Stopping { session, next: _ } => {
                self.put_slot(ch, Slot::Stopping { session, next: None });
                Directive::Nothing
            },
        }
    }

    /// Takes the report that session `id` of `ch` has ended and released its watcher.
    pub fn session_ended(&mut self, ch: WatchChannel, id: u64) -> (d: Directive)
        requires
            old(self)@.wf(),
        ensures
            (final(self)@, d@) == ended_spec(old(self)@, ch, id),
            final(self)@.wf(),
    {
        let slot = self.take_slot(ch);
        match slot {
            Slot::Live { session, path } => {
                if session == id {
                    Directive::Nothing
                } else {
                    self.put_slot(ch, Slot::Live { session, path });
                    Directive::Nothing
                }
            },
            Slot::Stopping { session, next } => {
                if session == id {
                    match next {
                        Some(p) => self.launch(ch, p),
                        None => Directive::Nothing,
                    }
                } else {
                    self.put_slot(ch, Slot::Stopping { session, next });
                    Directive::Nothing
                }
            },
            Slot::Idle => Directive::Nothing,
        }
    }
}

} // verus!
