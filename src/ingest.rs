use vstd::prelude::*;
use crate::channel::Channel;
use crate::escape::lemma_escape_plain;
use crate::notification::ContentUpdate;

verus! {

/// The port the listener binds to unless reconfigured.
pub const DEFAULT_PORT: u16 = 7878;

/// Where the listener accepts pushes.
#[derive(Clone, Debug)]
pub struct TcpEndpoint {
    pub address: String,
    pub port: u16,
}

impl TcpEndpoint {
    /// The loopback address on the default port.
    pub fn loopback_default() -> (r: TcpEndpoint)
        ensures
            r.address@ == "127.0.0.1"@,
            r.port == DEFAULT_PORT,
    {
        TcpEndpoint { address: String::from_str("127.0.0.1"), port: DEFAULT_PORT }
    }
}

/// A request to bind a new listener, numbered so that its outcome can be matched.
#[derive(Clone, Debug)]
pub struct BindRequest {
    pub listener: u64,
    pub endpoint: TcpEndpoint,
}

/// What one received push gives: the notification, and whether the listener that
/// took it is to accept the next connection.
#[derive(Clone, Debug)]
pub struct Delivery {
    pub update: ContentUpdate,
    pub accept_next: bool,
}

pub struct ListenerModel {
    /// The listener that accepts pushes, if any.
    pub active: Option<u64>,
    /// A listener being bound that is to take over once bound.
    pub pending: Option<u64>,
    pub next_listener: u64,
}

impl ListenerModel {
    pub open spec fn wf(self) -> bool {
        &&& (self.active matches Some(a) ==> a < self.next_listener)
        &&& (self.pending matches Some(p) ==> p < self.next_listener)
        &&& (self.active matches Some(a) ==> self.pending != Some(a))
    }
}

/// Keeps at most one listener accepting pushes. A reconfigured endpoint takes
/// over only once it is bound, so a failed bind leaves the current listener in
/// place.
pub struct IngestListener {
    active: Option<u64>,
    pending: Option<u64>,
    next_listener: u64,
}

impl View for IngestListener {
    type V = ListenerModel;

    closed spec fn view(&self) -> ListenerModel {
        ListenerModel {
            active: self.active,
            pending: self.pending,
            next_listener: self.next_listener,
        }
    }
}

/// The notification for a pushed payload: on the network stream, under the path
/// "tcp", with the payload as it came.
pub open spec fn push_update_spec(u: ContentUpdate, payload: String) -> bool {
    &&& u.channel == Channel::Tcp
    &&& u.path@ == "tcp"@
    &&& u.content == payload
}

impl IngestListener {
    pub fn new() -> (r: IngestListener)
        ensures
            r@ == (ListenerModel { active: None, pending: None, next_listener: 0 }),
            r@.wf(),
    {
        IngestListener { active: None, pending: None, next_listener: 0 }
    }

    /// Asks for a listener on `endpoint`; it supersedes any bind still pending.
    /// `None` when no listener number is left.
    pub fn reconfigure(&mut self, endpoint: TcpEndpoint) -> (r: Option<BindRequest>)
        requires
            old(self)@.wf(),
        ensures
            final(self)@.wf(),
            old(self)@.next_listener < u64::MAX ==> {
                &&& r matches Some(b)
                &&& b.listener == old(self)@.next_listener
                &&& b.endpoint == endpoint
                &&& final(self)@ == (ListenerModel {
                    pending: Some(b.listener),
                    next_listener: (b.listener + 1) as u64,
                    ..old(self)@
                })
            },
            old(self)@.next_listener == u64::MAX ==> r is None && final(self)@ == old(self)@,
    {
        if self.next_listener < u64::MAX {
            let id = self.next_listener;
            self.pending = Some(id);
            self.next_listener = id + 1;
            Some(BindRequest { listener: id, endpoint })
        } else {
            None
        }
    }

    /// Takes the report that `listener` is bound. When it is the pending one it
    /// becomes the active one, and the former active listener is returned to be
    /// closed; a superseded listener is returned to be closed itself.
    pub fn bound(&mut self, listener: u64) -> (close: Option<u64>)
        requires
            old(self)@.wf(),
        ensures
            final(self)@.wf(),
            old(self)@.pending == Some(listener) ==> {
                &&& close == old(self)@.active
                &&& final(self)@ == (ListenerModel {
                    active: Some(listener),
                    pending: None,
                    ..old(self)@
                })
            },
            old(self)@.pending != Some(listener) ==> close == Some(listener) && final(self)@
                == old(self)@,
    {
        if self.pending == Some(listener) {
            let former = self.active;
            self.active = Some(listener);
            self.pending = None;
            former
        } else {
            Some(listener)
        }
    }

    /// Takes the report that binding `listener` failed. Returns whether the failure
    /// is to be reported, which it is when the listener was the pending one. The
    /// active listener stays as it is either way.
    pub fn bind_failed(&mut self, listener: u64) -> (report: bool)
        requires
            old(self)@.wf(),
        ensures
            final(self)@.wf(),
            report == (old(self)@.pending == Some(listener)),
            final(self)@.active == old(self)@.active,
            final(self)@.next_listener == old(self)@.next_listener,
            final(self)@.pending == (if report {
                None
            } else {
                old(self)@.pending
            }),
    {
        if self.pending == Some(listener) {
            self.pending = None;
            true
        } else {
            false
        }
    }

    /// Stops accepting pushes: returns the listener to close, and drops a
    /// pending bind, which is closed when it reports.
    pub fn stop(&mut self) -> (close: Option<u64>)
        requires
            old(self)@.wf(),
        ensures
            final(self)@.wf(),
            close == old(self)@.active,
            final(self)@ == (ListenerModel { active: None, pending: None, ..old(self)@ }),
    {
        let close = self.active;
        self.active = None;
        self.pending = None;
        close
    }

    /// A whole payload received by `listener`. It is always notified, so no push
    /// is lost; the listener goes on accepting when it is still the active one.
    pub fn received(&self, listener: u64, payload: String) -> (r: Delivery)
        ensures
            push_update_spec(r.update, payload),
            r.accept_next == (self@.active == Some(listener)),
    {
        let path = "tcp";
        proof {
            reveal_strlit("tcp");
            lemma_escape_plain(path@);
        }
        let update = ContentUpdate::new(Channel::Tcp, path, payload);
        Delivery { update, accept_next: self.active == Some(listener) }
    }
}

} // verus!
