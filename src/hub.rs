use vstd::prelude::*;
use crate::screen::{Addr, Screen, ScreenId, lookup};
use crate::message::{HostEvent, Message, Snapshot};
use crate::cluster::{
    Cluster, CursorAction, host_outcome, merge_seq, net_outcome, refocus_action, refocused,
    replace_first, local_entry,
};

verus! {

/// Where the engine stands in the handshake with its peers.
#[derive(Clone, Copy, Debug, PartialEq, Eq, Structural)]
pub enum State {
    /// The first announcement has not gone out yet.
    Connecting,
    /// Announced, or a broadcast failed: waiting for a peer to answer.
    Waiting,
    /// A peer answered: local input is routed through the cluster.
    Connected,
}

/// Why a message is sent: what a failed or successful send means for the
/// connection state.
#[derive(Clone, Copy, Debug, PartialEq, Eq, Structural)]
pub enum Purpose {
    /// The first `Connect` to the configured peers.
    Announce,
    /// The merged cluster sent in answer to a peer's `Connect`.
    Handshake,
    /// A focus handoff, relevant to every screen.
    Global,
    /// An input event for the screen that owns input.
    Focused,
    /// A cluster snapshot for a peer that asked for it.
    Reply,
    /// An administrative change passed on to the peers.
    Relay,
}

/// Where a message goes.
#[derive(Clone, Debug)]
pub enum Dest {
    /// The peer set that the network adapter was configured with.
    Peers,
    /// Each of these routes: every known screen's, the local one included.
    Routes(Vec<Addr>),
    /// One address.
    To(Addr),
}

/// A message to send, where, and why.
#[derive(Clone, Debug)]
pub struct Outgoing {
    pub msg: Message,
    pub dest: Dest,
    pub purpose: Purpose,
}

/// What the host adapter must do in answer to a network message.
#[derive(Clone, Copy, Debug, PartialEq, Eq, Structural)]
pub enum HostAction {
    Inject(HostEvent),
    Cursor(CursorAction),
}

/// Everything that one network message makes the engine do, besides the
/// change of its own state.
#[derive(Clone, Debug)]
pub struct Reaction {
    /// A fresh snapshot to push to the admin channel.
    pub admin: Option<Snapshot>,
    pub send: Option<Outgoing>,
    pub host: Option<HostAction>,
}

/// The engine's answer to a message of the admin channel.
#[derive(Clone, Debug)]
pub enum AdminReply {
    /// Answer on the admin channel.
    Reply(Message),
    /// The topology changed: pass it on to the peers.
    Relay(Outgoing),
    /// A screen list without the local screen: nothing changed.
    Refused,
    /// A message that has no meaning on the admin channel: discarded.
    Unexpected,
}

/// `sn` is a copy of the screens and focus of `c`.
pub open spec fn snapshot_of(sn: Snapshot, c: Cluster) -> bool {
    sn.screens@ == c.screens@ && sn.focused == c.focus.focused
}

/// The routes of the screens of `s`.
pub open spec fn routes_view(s: Seq<Screen>) -> Seq<Addr> {
    s.map_values(|e: Screen| e.route)
}

/// `o` sends the snapshot of `c` for `p` to every known screen of `c`.
pub open spec fn cluster_to_all(o: Outgoing, c: Cluster, p: Purpose) -> bool {
    &&& (match o.msg {
        Message::Cluster(sn) => snapshot_of(sn, c),
        _ => false,
    })
    &&& to_all(o.dest, c.screens@)
    &&& o.purpose == p
}

/// `d` names the route of every screen of `s`.
pub open spec fn to_all(d: Dest, s: Seq<Screen>) -> bool {
    match d {
        Dest::Routes(v) => v@ == routes_view(s),
        _ => false,
    }
}

/// `o` announces the local screen `me` alone to the configured peers.
pub open spec fn announces(o: Option<Outgoing>, me: Screen) -> bool {
    match o {
        Some(o) => {
            &&& o.purpose == Purpose::Announce
            &&& o.dest is Peers
            &&& match o.msg {
                Message::Connect(sn) => sn.screens@ == seq![me] && sn.focused is None,
                _ => false,
            }
        },
        None => false,
    }
}

/// The connection state after a send for `p` that succeeded (`ok`) or
/// failed: only a failed global broadcast demotes, only a successful
/// handshake answer promotes.
pub open spec fn after_send(s: State, p: Purpose, ok: bool) -> State {
    if p == Purpose::Global && !ok {
        State::Waiting
    } else if p == Purpose::Handshake && ok {
        State::Connected
    } else {
        s
    }
}

/// The protocol engine: the only writer of the cluster and of the
/// connection state.
///
/// Two choices of this engine: a screen, once known, stays known for the
/// engine's lifetime (there is no departure or timeout policy); and a
/// demotion from `Connected` to `Waiting` does not announce again, since
/// `writable` acts only while `Connecting`: the engine waits for a peer's
/// `Connect` or `Cluster`.
pub struct Hub {
    pub cluster: Cluster,
    pub state: State,
}

impl Hub {
    pub open spec fn wf(&self) -> bool {
        self.cluster.wf()
    }

    /// An engine whose cluster holds the local screen alone, not yet
    /// announced.
    pub fn new(local: ScreenId, route: Addr, width: u16, height: u16, cursor_x: i32, cursor_y: i32) -> (r: Hub)
        ensures
            r.wf(),
            r.state == State::Connecting,
            r.cluster.screens@ == seq![local_entry(local, route, width, height)],
            r.cluster.local == local,
            r.cluster.route == route,
            r.cluster.focus.focused == Some(local),
            !r.cluster.focus.suppressed,
            r.cluster.cursor_x == cursor_x,
            r.cluster.cursor_y == cursor_y,
    {
        Hub { cluster: Cluster::new(local, route, width, height, cursor_x, cursor_y), state: State::Connecting }
    }

    /// Records the outcome of a send made for `purpose`. A failed focus
    /// handoff demotes to `Waiting`; an answered `Connect` connects; the
    /// outcome of any other send changes nothing.
    pub fn sent(&mut self, purpose: Purpose, ok: bool)
        ensures
            final(self).state == after_send(old(self).state, purpose, ok),
            final(self).cluster == old(self).cluster,
    {
        if purpose == Purpose::Global && !ok {
            self.state = State::Waiting;
        } else if purpose == Purpose::Handshake && ok {
            self.state = State::Connected;
        }
    }

    /// The network became writable for the first time: while connecting,
    /// announce the local screen to the configured peers and wait.
    pub fn writable(&mut self) -> (r: Option<Outgoing>)
        requires
            old(self).wf(),
        ensures
            final(self).wf(),
            final(self).cluster == old(self).cluster,
            old(self).state == State::Connecting ==> {
                &&& final(self).state == State::Waiting
                &&& announces(r, old(self).cluster.me())
            },
            old(self).state != State::Connecting ==> r is None && final(self).state == old(self).state,
    {
        if self.state == State::Connecting {
            self.state = State::Waiting;
            let sn = self.cluster.local_snapshot();
            Some(Outgoing { msg: Message::Connect(sn), dest: Dest::Peers, purpose: Purpose::Announce })
        } else {
            None
        }
    }

    /// A captured local input event. Before the engine is connected it is
    /// discarded. Otherwise a focus handoff goes to every known screen, an
    /// event for the focused peer goes to that peer's route, and anything
    /// else is dropped.
    pub fn host_event(&mut self, ev: HostEvent) -> (r: Option<Outgoing>)
        requires
            old(self).wf(),
        ensures
            final(self).wf(),
            final(self).state == old(self).state,
            old(self).state != State::Connected ==> r is None && final(self).cluster == old(self).cluster,
            old(self).state == State::Connected ==> {
                let c = old(self).cluster;
                let out = host_outcome(c.screens@, c.me(), c.focus, c.cursor_x as int, c.cursor_y as int, ev);
                &&& final(self).cluster.screens@ == c.screens@
                &&& final(self).cluster.focus == c.focus
                &&& final(self).cluster.local == c.local
                &&& (match ev {
                    HostEvent::Motion { x, y } => final(self).cluster.cursor_x == x && final(self).cluster.cursor_y == y,
                    _ => final(self).cluster.cursor_x == c.cursor_x && final(self).cluster.cursor_y == c.cursor_y,
                })
                &&& match out {
                    None => r is None,
                    Some(Message::Focus(n)) => r is Some && r->0.msg == Message::Focus(n)
                        && r->0.purpose == Purpose::Global && to_all(r->0.dest, c.screens@),
                    Some(m) => r is Some && r->0.msg == m && r->0.purpose == Purpose::Focused
                        && r->0.dest == Dest::To(lookup(c.screens@, c.focus.focused->0)->0.route),
                }
            },
    {
        if self.state != State::Connected {
            return None;
        }
        match self.cluster.process_host_event(ev) {
            None => None,
            Some(Message::Focus(n)) => {
                let routes = self.cluster.routes();
                Some(Outgoing { msg: Message::Focus(n), dest: Dest::Routes(routes), purpose: Purpose::Global })
            },
            Some(m) => match self.cluster.focused_route() {
                Some(a) => Some(Outgoing { msg: m, dest: Dest::To(a), purpose: Purpose::Focused }),
                None => None,
            },
        }
    }

    /// A message from the peer at `from`; `width` and `height` are a fresh
    /// read of the host's screen size.
    /// - `Connect`: merge the sender's cluster, push it to the admin channel
    ///   and answer every screen with it; success of that answer connects.
    /// - `Cluster`: take the sender's cluster, with the local entry read
    ///   afresh; push it to the admin channel; connected at once.
    /// - `RequestCluster`: answer the sender with the current cluster.
    /// - `Screens`: replace the screen set wholesale.
    /// - `Focus`: move the focus, and tell the host what to do with its pointer.
    /// - an input message: inject it while the local screen owns input.
    pub fn net_event(&mut self, msg: Message, from: Addr, width: u16, height: u16) -> (r: Reaction)
        requires
            old(self).wf(),
        ensures
            final(self).wf(),
            final(self).cluster.local == old(self).cluster.local,
            final(self).cluster.route == old(self).cluster.route,
            ({
                let c = old(self).cluster;
                let f = final(self).cluster;
                let same_cursor = f.cursor_x == c.cursor_x && f.cursor_y == c.cursor_y;
                match msg {
                    Message::Connect(remote) => {
                        &&& same_cursor
                        &&& f.screens@ == merge_seq(c.screens@, remote.screens@)
                        &&& f.focus == c.focus
                        &&& final(self).state == old(self).state
                        &&& r.admin is Some && snapshot_of(r.admin->0, f)
                        &&& r.send is Some && cluster_to_all(r.send->0, f, Purpose::Handshake)
                        &&& r.host is None
                    },
                    Message::Cluster(remote) => {
                        &&& same_cursor
                        &&& f.screens@ == replace_first(
                            merge_seq(c.screens@, remote.screens@),
                            c.local,
                            local_entry(c.local, c.route, width, height),
                        )
                        &&& lookup(f.screens@, c.local) == Some(local_entry(c.local, c.route, width, height))
                        &&& f.focus == c.focus
                        &&& final(self).state == State::Connected
                        &&& r.admin is Some && snapshot_of(r.admin->0, f)
                        &&& r.send is None
                        &&& r.host is None
                    },
                    Message::RequestCluster => {
                        &&& f == c
                        &&& final(self).state == old(self).state
                        &&& r.admin is None
                        &&& r.send is Some && r.send->0.dest == Dest::To(from)
                            && r.send->0.purpose == Purpose::Reply
                            && (match r.send->0.msg {
                                Message::Cluster(sn) => snapshot_of(sn, c),
                                _ => false,
                            })
                        &&& r.host is None
                    },
                    Message::Screens(list) => {
                        &&& same_cursor
                        &&& f.focus.suppressed == c.focus.suppressed
                        &&& (if crate::screen::has_id(list@, c.local) {
                            &&& f.screens@ == list@
                            &&& f.focus.focused == (match c.focus.focused {
                                Some(x) => if crate::screen::has_id(list@, x) { Some(x) } else { None },
                                None => None,
                            })
                        } else {
                            f.screens@ == c.screens@ && f.focus == c.focus
                        })
                        &&& final(self).state == old(self).state
                        &&& r.admin is None && r.send is None && r.host is None
                    },
                    Message::Focus(id) => {
                        &&& same_cursor
                        &&& f.screens@ == c.screens@
                        &&& f.focus == refocused(c.screens@, c.local, c.focus, id)
                        &&& final(self).state == old(self).state
                        &&& r.admin is None && r.send is None
                        &&& r.host == (match refocus_action(c.screens@, c.local, id) {
                            Some(a) => Some(HostAction::Cursor(a)),
                            None => None,
                        })
                    },
                    _ => {
                        let out = if c.focus.focused == Some(c.local) {
                            net_outcome(c.me(), c.cursor_x as int, c.cursor_y as int, msg)
                        } else {
                            None
                        };
                        &&& f.screens@ == c.screens@
                        &&& f.focus == c.focus
                        &&& final(self).state == old(self).state
                        &&& r.admin is None && r.send is None
                        &&& r.host == (match out {
                            Some(e) => Some(HostAction::Inject(e)),
                            None => None,
                        })
                        &&& (match out {
                            Some(HostEvent::Motion { x, y }) => f.cursor_x == x && f.cursor_y == y,
                            _ => same_cursor,
                        })
                    },
                }
            }),
    {
        let none = Reaction { admin: None, send: None, host: None };
        match msg {
            Message::Connect(remote) => {
                self.cluster.merge(&remote);
                let routes = self.cluster.routes();
                let sn = self.cluster.snapshot();
                Reaction {
                    admin: Some(self.cluster.snapshot()),
                    send: Some(Outgoing { msg: Message::Cluster(sn), dest: Dest::Routes(routes), purpose: Purpose::Handshake }),
                    host: None,
                }
            },
            Message::Cluster(remote) => {
                self.cluster.replace(width, height, &remote);
                self.state = State::Connected;
                Reaction { admin: Some(self.cluster.snapshot()), send: None, host: None }
            },
            Message::RequestCluster => {
                let sn = self.cluster.snapshot();
                Reaction {
                    admin: None,
                    send: Some(Outgoing { msg: Message::Cluster(sn), dest: Dest::To(from), purpose: Purpose::Reply }),
                    host: None,
                }
            },
            Message::Screens(list) => {
                self.cluster.set_screens(list);
                none
            },
            Message::Focus(id) => {
                let host = match self.cluster.refocus(id) {
                    Some(a) => Some(HostAction::Cursor(a)),
                    None => None,
                };
                Reaction { admin: None, send: None, host }
            },
            m => {
                let host = match self.cluster.process_net_event(&m) {
                    Some(e) => Some(HostAction::Inject(e)),
                    None => None,
                };
                Reaction { admin: None, send: None, host }
            },
        }
    }

    /// A message from the admin channel, a trusted local peer.
    /// `RequestCluster` is answered on the channel; `Screens` replaces the
    /// screen set and passes the result on to every known screen; anything
    /// else is discarded.
    pub fn admin_message(&mut self, msg: Message) -> (r: AdminReply)
        requires
            old(self).wf(),
        ensures
            final(self).wf(),
            final(self).state == old(self).state,
            final(self).cluster.local == old(self).cluster.local,
            ({
                let c = old(self).cluster;
                let f = final(self).cluster;
                match msg {
                    Message::RequestCluster => {
                        &&& f == c
                        &&& match r {
                            AdminReply::Reply(Message::Cluster(sn)) => snapshot_of(sn, c),
                            _ => false,
                        }
                    },
                    Message::Screens(list) => if crate::screen::has_id(list@, c.local) {
                        &&& f.screens@ == list@
                        &&& f.focus.focused == (match c.focus.focused {
                            Some(x) => if crate::screen::has_id(list@, x) { Some(x) } else { None },
                            None => None,
                        })
                        &&& match r {
                            AdminReply::Relay(o) => cluster_to_all(o, f, Purpose::Relay),
                            _ => false,
                        }
                    } else {
                        f.screens@ == c.screens@ && f.focus == c.focus && r is Refused
                    },
                    _ => f == c && r is Unexpected,
                }
            }),
    {
        match msg {
            Message::RequestCluster => AdminReply::Reply(Message::Cluster(self.cluster.snapshot())),
            Message::Screens(list) => {
                if self.cluster.set_screens(list) {
                    let routes = self.cluster.routes();
                    let sn = self.cluster.snapshot();
                    AdminReply::Relay(Outgoing { msg: Message::Cluster(sn), dest: Dest::Routes(routes), purpose: Purpose::Relay })
                } else {
                    AdminReply::Refused
                }
            },
            _ => AdminReply::Unexpected,
        }
    }
}

} // verus!
