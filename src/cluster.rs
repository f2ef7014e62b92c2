use vstd::prelude::*;
use crate::screen::{Addr, Screen, ScreenId, contains, lookup, has_id, lemma_lookup_none, lemma_lookup_first, find_screen};
use crate::message::{HostEvent, Message, Snapshot, copy_screens, routes_of};

verus! {

/// What the host must do with its own cursor after a change of focus.
#[derive(Clone, Copy, Debug, PartialEq, Eq, Structural)]
pub enum CursorAction {
    /// Hide the pointer and grab it exclusively: a peer drives input.
    Suppress,
    /// Show the pointer and release the grab: the local screen drives input.
    Restore,
}

/// Which screen owns input, and whether the local pointer is suppressed.
#[derive(Clone, Copy, Debug, PartialEq, Eq, Structural)]
pub struct Focus {
    pub focused: Option<ScreenId>,
    pub suppressed: bool,
}

/// The union of `l` and `r`, keyed by id: the entries of `l` in order, then
/// each entry of `r` whose id is not yet present. Known ids are never
/// overwritten.
pub open spec fn merge_seq(l: Seq<Screen>, r: Seq<Screen>) -> Seq<Screen>
    decreases r.len(),
{
    if r.len() == 0 {
        l
    } else {
        let m = merge_seq(l, r.drop_last());
        if has_id(m, r.last().id) {
            m
        } else {
            m.push(r.last())
        }
    }
}

/// `s` with its first entry of the given id replaced by `e`.
pub open spec fn replace_first(s: Seq<Screen>, id: ScreenId, e: Screen) -> Seq<Screen>
    decreases s.len(),
{
    if s.len() == 0 {
        s
    } else if has_id(s.drop_last(), id) {
        replace_first(s.drop_last(), id, e).push(s.last())
    } else if s.last().id == id {
        s.drop_last().push(e)
    } else {
        s
    }
}

/// The focus after `refocus(id)` on a cluster whose screens are `s`: an
/// unknown id changes nothing; the local id restores the pointer; any other
/// known id suppresses it.
pub open spec fn refocused(s: Seq<Screen>, local: ScreenId, f: Focus, id: ScreenId) -> Focus {
    if !has_id(s, id) {
        f
    } else {
        Focus { focused: Some(id), suppressed: id != local }
    }
}

/// The cursor instruction that goes with `refocus(id)`.
pub open spec fn refocus_action(s: Seq<Screen>, local: ScreenId, id: ScreenId) -> Option<CursorAction> {
    if !has_id(s, id) {
        None
    } else if id == local {
        Some(CursorAction::Restore)
    } else {
        Some(CursorAction::Suppress)
    }
}

/// The first screen of `s`, other than `local`, that contains the point.
pub open spec fn first_hit(s: Seq<Screen>, local: ScreenId, px: int, py: int) -> Option<ScreenId>
    decreases s.len(),
{
    if s.len() == 0 {
        None
    } else if s[0].id != local && contains(s[0], px, py) {
        Some(s[0].id)
    } else {
        first_hit(s.drop_first(), local, px, py)
    }
}

/// The screen that a point of the virtual desktop crosses into: none while
/// the point stays on the local screen `me`, else the first other screen
/// that contains it.
pub open spec fn crossing(s: Seq<Screen>, me: Screen, px: int, py: int) -> Option<ScreenId> {
    if contains(me, px, py) {
        None
    } else {
        first_hit(s, me.id, px, py)
    }
}

/// A peer, not the local screen, owns input.
pub open spec fn peer_focused(f: Focus, local: ScreenId) -> bool {
    f.focused is Some && f.focused->0 != local
}

/// The message, if any, that a local input event becomes.
pub open spec fn host_outcome(
    s: Seq<Screen>,
    me: Screen,
    f: Focus,
    cx: int,
    cy: int,
    ev: HostEvent,
) -> Option<Message> {
    match ev {
        HostEvent::Motion { x, y } => {
            let hit = crossing(s, me, me.x + x, me.y + y);
            if hit is Some {
                Some(Message::Focus(hit->0))
            } else if peer_focused(f, me.id) {
                Some(Message::MouseMove { dx: (x - cx) as i64, dy: (y - cy) as i64 })
            } else {
                None
            }
        },
        HostEvent::ButtonPress { button } => if peer_focused(f, me.id) {
            Some(Message::ButtonPress { button })
        } else {
            None
        },
        HostEvent::ButtonRelease { button } => if peer_focused(f, me.id) {
            Some(Message::ButtonRelease { button })
        } else {
            None
        },
        HostEvent::KeyPress { key } => if peer_focused(f, me.id) {
            Some(Message::KeyPress { key })
        } else {
            None
        },
        HostEvent::KeyRelease { key } => if peer_focused(f, me.id) {
            Some(Message::KeyRelease { key })
        } else {
            None
        },
        _ => None,
    }
}

/// `v` held within `0 .. extent`: the last pixel where `v` is past it, and
/// `0` below it (or where the extent is empty).
pub open spec fn clamp_extent(v: int, extent: int) -> int {
    if v < 0 {
        0
    } else if v >= extent {
        if extent > 0 { extent - 1 } else { 0 }
    } else {
        v
    }
}

/// The event to inject for a message that a peer sent to the focused
/// screen, where `cx, cy` is the local cursor and `me` the local screen.
pub open spec fn net_outcome(me: Screen, cx: int, cy: int, m: Message) -> Option<HostEvent> {
    match m {
        Message::MouseMove { dx, dy } => Some(
            HostEvent::Motion {
                x: clamp_extent(cx + dx, me.width as int) as i32,
                y: clamp_extent(cy + dy, me.height as int) as i32,
            },
        ),
        Message::ButtonPress { button } => Some(HostEvent::ButtonPress { button }),
        Message::ButtonRelease { button } => Some(HostEvent::ButtonRelease { button }),
        Message::KeyPress { key } => Some(HostEvent::KeyPress { key }),
        Message::KeyRelease { key } => Some(HostEvent::KeyRelease { key }),
        _ => None,
    }
}

/// The entry that a fresh read of the host's geometry gives the local screen.
pub open spec fn local_entry(id: ScreenId, route: Addr, width: u16, height: u16) -> Screen {
    Screen { id, route, x: 0, y: 0, width, height }
}

/// `lookup` on a sequence with one more entry at the end.
pub proof fn lemma_lookup_push(m: Seq<Screen>, x: Screen, id: ScreenId)
    ensures
        lookup(m.push(x), id) == (if lookup(m, id) is Some {
            lookup(m, id)
        } else if x.id == id {
            Some(x)
        } else {
            None
        }),
{
    assert(m.push(x).drop_last() =~= m);
}

/// After a merge, an id resolves to the local entry where the local side
/// knew it, and to the remote one otherwise.
pub proof fn lemma_merge_lookup(l: Seq<Screen>, r: Seq<Screen>, id: ScreenId)
    ensures
        lookup(merge_seq(l, r), id) == (if lookup(l, id) is Some {
            lookup(l, id)
        } else {
            lookup(r, id)
        }),
    decreases r.len(),
{
    if r.len() > 0 {
        let p = r.drop_last();
        let x = r.last();
        let m = merge_seq(l, p);
        lemma_merge_lookup(l, p, id);
        lemma_lookup_push(p, x, id);
        assert(p.push(x) =~= r);
        if !has_id(m, x.id) {
            lemma_lookup_push(m, x, id);
        }
    }
}

/// Replacing the first entry of an id is an update at its first index.
pub proof fn lemma_replace_first_index(s: Seq<Screen>, id: ScreenId, e: Screen, i: int)
    requires
        0 <= i < s.len(),
        s[i].id == id,
        forall|j: int| 0 <= j < i ==> s[j].id != id,
    ensures
        replace_first(s, id, e) == s.update(i, e),
    decreases s.len(),
{
    let p = s.drop_last();
    if i < p.len() {
        assert forall|j: int| 0 <= j < i implies p[j].id != id by {
            assert(p[j] == s[j]);
        }
        lemma_lookup_first(p, id, i);
        lemma_replace_first_index(p, id, e, i);
        assert(p.update(i, e).push(s.last()) =~= s.update(i, e));
    } else {
        assert forall|j: int| 0 <= j < p.len() implies p[j].id != id by {
            assert(p[j] == s[j]);
        }
        lemma_lookup_none(p, id);
        assert(p.push(e) =~= s.update(i, e));
    }
}

/// Merging two remote snapshots that share no id gives the same topology in
/// either order: every id resolves to the same screen.
pub proof fn law_merge_commutes(l: Seq<Screen>, a: Seq<Screen>, b: Seq<Screen>)
    requires
        forall|id: ScreenId| !(has_id(a, id) && has_id(b, id)),
    ensures
        forall|id: ScreenId|
            lookup(merge_seq(merge_seq(l, a), b), id) == lookup(merge_seq(merge_seq(l, b), a), id),
{
    assert forall|id: ScreenId|
        lookup(merge_seq(merge_seq(l, a), b), id) == lookup(merge_seq(merge_seq(l, b), a), id) by {
        assert(!(has_id(a, id) && has_id(b, id)));
        lemma_merge_lookup(l, a, id);
        lemma_merge_lookup(l, b, id);
        lemma_merge_lookup(merge_seq(l, a), b, id);
        lemma_merge_lookup(merge_seq(l, b), a, id);
    }
}

/// A merge never changes the entry of an id that was already known,
/// whatever the remote snapshot says of it.
pub proof fn law_merge_keeps_known(l: Seq<Screen>, r: Seq<Screen>, id: ScreenId)
    requires
        has_id(l, id),
    ensures
        lookup(merge_seq(l, r), id) == lookup(l, id),
{
    lemma_merge_lookup(l, r, id);
}

/// Focusing any known screen and then the local one leaves the local
/// pointer shown and in control, as it was before it was suppressed.
pub proof fn law_refocus_round_trip(s: Seq<Screen>, local: ScreenId, f: Focus, id: ScreenId)
    requires
        has_id(s, local),
    ensures
        refocused(s, local, refocused(s, local, f, id), local) == (Focus {
            focused: Some(local),
            suppressed: false,
        }),
        refocus_action(s, local, local) == Some(CursorAction::Restore),
{
}

/// A motion that stays strictly inside the local rectangle never hands focus
/// on; one that leaves it for a neighbour's rectangle hands focus to exactly
/// that neighbour.
pub proof fn law_motion_focus(
    s: Seq<Screen>,
    me: Screen,
    f: Focus,
    cx: int,
    cy: int,
    x: i32,
    y: i32,
)
    ensures
        contains(me, me.x + x, me.y + y) ==> !(host_outcome(s, me, f, cx, cy, HostEvent::Motion { x, y }) matches Some(Message::Focus(_))),
        !contains(me, me.x + x, me.y + y) && first_hit(s, me.id, me.x + x, me.y + y) is Some ==> {
            let n = first_hit(s, me.id, me.x + x, me.y + y)->0;
            &&& host_outcome(s, me, f, cx, cy, HostEvent::Motion { x, y }) == Some(Message::Focus(n))
            &&& n != me.id
            &&& exists|k: int| 0 <= k < s.len() && s[k].id == n && contains(#[trigger] s[k], me.x + x, me.y + y)
        },
{
    lemma_first_hit(s, me.id, me.x + x, me.y + y);
}

/// What `first_hit` finds is a screen of `s`, other than `local`, that
/// contains the point.
pub proof fn lemma_first_hit(s: Seq<Screen>, local: ScreenId, px: int, py: int)
    ensures
        first_hit(s, local, px, py) is Some ==> {
            let n = first_hit(s, local, px, py)->0;
            n != local && exists|k: int| 0 <= k < s.len() && s[k].id == n && contains(#[trigger] s[k], px, py)
        },
    decreases s.len(),
{
    if s.len() > 0 {
        if !(s[0].id != local && contains(s[0], px, py)) {
            let t = s.drop_first();
            lemma_first_hit(t, local, px, py);
            if first_hit(t, local, px, py) is Some {
                let n = first_hit(t, local, px, py)->0;
                let k = choose|k: int| 0 <= k < t.len() && t[k].id == n && contains(#[trigger] t[k], px, py);
                assert(s[k + 1] == t[k]);
            }
        }
    }
}

/// The topology registry: every known screen in discovery order, the local
/// screen's id and route, the focus, and the live local cursor position.
pub struct Cluster {
    pub screens: Vec<Screen>,
    pub local: ScreenId,
    pub route: Addr,
    pub focus: Focus,
    pub cursor_x: i32,
    pub cursor_y: i32,
}

impl Cluster {
    /// The local screen is known, and so is the focused screen, if any.
    pub open spec fn wf(&self) -> bool {
        &&& has_id(self.screens@, self.local)
        &&& (self.focus.focused matches Some(f) ==> has_id(self.screens@, f))
    }

    /// The local screen's entry.
    pub open spec fn me(&self) -> Screen {
        lookup(self.screens@, self.local)->0
    }

    /// A cluster that holds only the local screen, at the origin of the
    /// virtual desktop, focused.
    pub fn new(local: ScreenId, route: Addr, width: u16, height: u16, cursor_x: i32, cursor_y: i32) -> (r: Cluster)
        ensures
            r.wf(),
            r.screens@ == seq![local_entry(local, route, width, height)],
            r.local == local,
            r.route == route,
            r.focus == (Focus { focused: Some(local), suppressed: false }),
            r.cursor_x == cursor_x,
            r.cursor_y == cursor_y,
    {
        let mut screens: Vec<Screen> = Vec::new();
        screens.push(Screen { id: local, route, x: 0, y: 0, width, height });
        proof {
            lemma_lookup_first(screens@, local, 0);
        }
        Cluster {
            screens,
            local,
            route,
            focus: Focus { focused: Some(local), suppressed: false },
            cursor_x,
            cursor_y,
        }
    }

    /// The cluster as it is sent to peers.
    pub fn snapshot(&self) -> (r: Snapshot)
        ensures
            r.screens@ == self.screens@,
            r.focused == self.focus.focused,
    {
        Snapshot { screens: copy_screens(&self.screens), focused: self.focus.focused }
    }

    /// A snapshot that holds the local screen alone, unfocused: what the
    /// first announcement to peers carries.
    pub fn local_snapshot(&self) -> (r: Snapshot)
        requires
            self.wf(),
        ensures
            r.screens@ == seq![self.me()],
            r.focused is None,
    {
        let i = find_screen(&self.screens, self.local);
        let mut screens: Vec<Screen> = Vec::new();
        match i {
            Some(i) => screens.push(self.screens[i]),
            None => {},
        }
        Snapshot { screens, focused: None }
    }

    /// The routes of all known screens, in discovery order.
    pub fn routes(&self) -> (r: Vec<Addr>)
        ensures
            r@ == self.screens@.map_values(|s: Screen| s.route),
    {
        routes_of(&self.screens)
    }

    /// The route of the screen that owns input, if any.
    pub fn focused_route(&self) -> (r: Option<Addr>)
        requires
            self.wf(),
        ensures
            r == (match self.focus.focused {
                Some(f) => Some(lookup(self.screens@, f)->0.route),
                None => None,
            }),
    {
        match self.focus.focused {
            Some(f) => match find_screen(&self.screens, f) {
                Some(i) => Some(self.screens[i].route),
                None => None,
            },
            None => None,
        }
    }

    /// Adds the screens of `remote` whose ids are not known yet, in the order
    /// the sender lists them; every known entry stays as it is.
    pub fn merge(&mut self, remote: &Snapshot)
        requires
            old(self).wf(),
        ensures
            final(self).wf(),
            final(self).screens@ == merge_seq(old(self).screens@, remote.screens@),
            final(self).local == old(self).local,
            final(self).route == old(self).route,
            final(self).focus == old(self).focus,
            final(self).cursor_x == old(self).cursor_x,
            final(self).cursor_y == old(self).cursor_y,
    {
        let ghost l = self.screens@;
        let ghost r = remote.screens@;
        let mut i: usize = 0;
        while i < remote.screens.len()
            invariant
                i <= r.len(),
                r == remote.screens@,
                self.screens@ == merge_seq(l, r.subrange(0, i as int)),
                self.local == old(self).local,
                self.route == old(self).route,
                self.focus == old(self).focus,
                self.cursor_x == old(self).cursor_x,
                self.cursor_y == old(self).cursor_y,
            decreases r.len() - i,
        {
            let e = remote.screens[i];
            proof {
                let q = r.subrange(0, i as int + 1);
                assert(q.drop_last() =~= r.subrange(0, i as int));
                assert(q.last() == e);
            }
            match find_screen(&self.screens, e.id) {
                Some(_) => {},
                None => self.screens.push(e),
            }
            i = i + 1;
        }
        proof {
            assert(r.subrange(0, r.len() as int) =~= r);
            lemma_merge_lookup(l, r, self.local);
            match self.focus.focused {
                Some(f) => lemma_merge_lookup(l, r, f),
                None => {},
            }
        }
    }

    /// Like `merge`, then the local entry is overwritten by a fresh read of
    /// the host's geometry: a peer's description of this screen is never
    /// trusted.
    pub fn replace(&mut self, width: u16, height: u16, remote: &Snapshot)
        requires
            old(self).wf(),
        ensures
            final(self).wf(),
            final(self).screens@ == replace_first(
                merge_seq(old(self).screens@, remote.screens@),
                old(self).local,
                local_entry(old(self).local, old(self).route, width, height),
            ),
            lookup(final(self).screens@, old(self).local) == Some(local_entry(old(self).local, old(self).route, width, height)),
            forall|id: ScreenId| id != old(self).local ==> lookup(final(self).screens@, id) == lookup(merge_seq(old(self).screens@, remote.screens@), id),
            final(self).local == old(self).local,
            final(self).route == old(self).route,
            final(self).focus == old(self).focus,
            final(self).cursor_x == old(self).cursor_x,
            final(self).cursor_y == old(self).cursor_y,
    {
        self.merge(remote);
        let fresh = Screen { id: self.local, route: self.route, x: 0, y: 0, width, height };
        let ghost m = self.screens@;
        match find_screen(&self.screens, self.local) {
            Some(i) => {
                proof {
                    lemma_replace_first_index(m, self.local, fresh, i as int);
                }
                self.screens.set(i, fresh);
                proof {
                    let u = self.screens@;
                    assert forall|j: int| 0 <= j < i implies u[j].id != self.local by {
                        assert(u[j] == m[j]);
                    }
                    lemma_lookup_first(u, self.local, i as int);
                    assert forall|id: ScreenId| id != self.local implies lookup(u, id) == lookup(m, id) by {
                        lemma_lookup_same_ids(m, u, id, i as int);
                    }
                    match self.focus.focused {
                        Some(f) => {
                            if f != self.local {
                                assert(lookup(u, f) == lookup(m, f));
                            }
                        },
                        None => {},
                    }
                }
            },
            None => {},
        }
    }

    /// Sets the focus to `id` when it names a known screen, and tells the
    /// host what to do with its pointer: suppress it while a peer owns
    /// input, restore it when the local screen does. An unknown id changes
    /// nothing.
    pub fn refocus(&mut self, id: ScreenId) -> (r: Option<CursorAction>)
        requires
            old(self).wf(),
        ensures
            final(self).wf(),
            final(self).focus == refocused(old(self).screens@, old(self).local, old(self).focus, id),
            r == refocus_action(old(self).screens@, old(self).local, id),
            final(self).screens@ == old(self).screens@,
            final(self).local == old(self).local,
            final(self).route == old(self).route,
            final(self).cursor_x == old(self).cursor_x,
            final(self).cursor_y == old(self).cursor_y,
    {
        match find_screen(&self.screens, id) {
            None => None,
            Some(_) => {
                if id == self.local {
                    self.focus = Focus { focused: Some(id), suppressed: false };
                    Some(CursorAction::Restore)
                } else {
                    self.focus = Focus { focused: Some(id), suppressed: true };
                    Some(CursorAction::Suppress)
                }
            },
        }
    }

    /// Replaces the whole screen set by `list`, keeping the focus only if
    /// its screen is still listed. A list without the local screen is
    /// refused, and leaves the cluster as it was.
    pub fn set_screens(&mut self, list: Vec<Screen>) -> (r: bool)
        requires
            old(self).wf(),
        ensures
            final(self).wf(),
            r == has_id(list@, old(self).local),
            r ==> final(self).screens@ == list@,
            r ==> final(self).focus.focused == (match old(self).focus.focused {
                Some(f) => if has_id(list@, f) { Some(f) } else { None },
                None => None,
            }),
            !r ==> final(self).screens@ == old(self).screens@ && final(self).focus == old(self).focus,
            final(self).focus.suppressed == old(self).focus.suppressed,
            final(self).local == old(self).local,
            final(self).route == old(self).route,
            final(self).cursor_x == old(self).cursor_x,
            final(self).cursor_y == old(self).cursor_y,
    {
        if find_screen(&list, self.local).is_none() {
            return false;
        }
        let focused = match self.focus.focused {
            Some(f) => if find_screen(&list, f).is_some() { Some(f) } else { None },
            None => None,
        };
        self.screens = list;
        self.focus = Focus { focused, suppressed: self.focus.suppressed };
        true
    }

    /// The local screen's entry.
    pub fn local_screen(&self) -> (r: Screen)
        requires
            self.wf(),
        ensures
            r == self.me(),
            r.id == self.local,
    {
        match find_screen(&self.screens, self.local) {
            Some(i) => self.screens[i],
            None => Screen { id: self.local, route: self.route, x: 0, y: 0, width: 0, height: 0 },
        }
    }

    /// Whether a peer, not the local screen, owns input.
    pub fn is_peer_focused(&self) -> (r: bool)
        ensures
            r == peer_focused(self.focus, self.local),
    {
        match self.focus.focused {
            Some(f) => f != self.local,
            None => false,
        }
    }

    /// Interprets a local input event. A motion records the new cursor
    /// position; if that position has left the local rectangle for a
    /// neighbour's, the result is a `Focus` handoff to be sent to everyone.
    /// Otherwise, while a peer owns input, the event becomes the message to
    /// send to that peer (a motion as the delta from the last position).
    pub fn process_host_event(&mut self, ev: HostEvent) -> (r: Option<Message>)
        requires
            old(self).wf(),
        ensures
            final(self).wf(),
            r == host_outcome(old(self).screens@, old(self).me(), old(self).focus, old(self).cursor_x as int, old(self).cursor_y as int, ev),
            (match ev {
                HostEvent::Motion { x, y } => final(self).cursor_x == x && final(self).cursor_y == y,
                _ => final(self).cursor_x == old(self).cursor_x && final(self).cursor_y == old(self).cursor_y,
            }),
            final(self).screens@ == old(self).screens@,
            final(self).local == old(self).local,
            final(self).route == old(self).route,
            final(self).focus == old(self).focus,
    {
        let me = self.local_screen();
        let peer = self.is_peer_focused();
        match ev {
            HostEvent::Motion { x, y } => {
                let px = me.x as i64 + x as i64;
                let py = me.y as i64 + y as i64;
                let dx = x as i64 - self.cursor_x as i64;
                let dy = y as i64 - self.cursor_y as i64;
                self.cursor_x = x;
                self.cursor_y = y;
                if !me.contains_point(px, py) {
                    match find_hit(&self.screens, self.local, px, py) {
                        Some(n) => return Some(Message::Focus(n)),
                        None => {},
                    }
                }
                if peer {
                    Some(Message::MouseMove { dx, dy })
                } else {
                    None
                }
            },
            HostEvent::ButtonPress { button } => if peer {
                Some(Message::ButtonPress { button })
            } else {
                None
            },
            HostEvent::ButtonRelease { button } => if peer {
                Some(Message::ButtonRelease { button })
            } else {
                None
            },
            HostEvent::KeyPress { key } => if peer {
                Some(Message::KeyPress { key })
            } else {
                None
            },
            HostEvent::KeyRelease { key } => if peer {
                Some(Message::KeyRelease { key })
            } else {
                None
            },
            _ => None,
        }
    }

    /// Translates a message that a peer addressed to the focused screen into
    /// an event to inject locally. Only while the local screen owns input:
    /// otherwise the message is dropped. A motion delta moves the cursor,
    /// held within the local screen.
    pub fn process_net_event(&mut self, m: &Message) -> (r: Option<HostEvent>)
        requires
            old(self).wf(),
        ensures
            final(self).wf(),
            r == (if old(self).focus.focused == Some(old(self).local) {
                net_outcome(old(self).me(), old(self).cursor_x as int, old(self).cursor_y as int, *m)
            } else {
                None
            }),
            (match r {
                Some(HostEvent::Motion { x, y }) => final(self).cursor_x == x && final(self).cursor_y == y,
                _ => final(self).cursor_x == old(self).cursor_x && final(self).cursor_y == old(self).cursor_y,
            }),
            final(self).screens@ == old(self).screens@,
            final(self).local == old(self).local,
            final(self).route == old(self).route,
            final(self).focus == old(self).focus,
    {
        if self.focus.focused != Some(self.local) {
            return None;
        }
        let me = self.local_screen();
        match m {
            Message::MouseMove { dx, dy } => {
                let x = clamp_to(self.cursor_x as i128 + *dx as i128, me.width);
                let y = clamp_to(self.cursor_y as i128 + *dy as i128, me.height);
                self.cursor_x = x;
                self.cursor_y = y;
                Some(HostEvent::Motion { x, y })
            },
            Message::ButtonPress { button } => Some(HostEvent::ButtonPress { button: *button }),
            Message::ButtonRelease { button } => Some(HostEvent::ButtonRelease { button: *button }),
            Message::KeyPress { key } => Some(HostEvent::KeyPress { key: *key }),
            Message::KeyRelease { key } => Some(HostEvent::KeyRelease { key: *key }),
            _ => None,
        }
    }
} // impl Cluster

/// `v` held within `0 .. extent`.
pub fn clamp_to(v: i128, extent: u16) -> (r: i32)
    ensures
        r == clamp_extent(v as int, extent as int),
{
    if v < 0 {
        0
    } else if v >= extent as i128 {
        if extent > 0 {
            (extent - 1) as i32
        } else {
            0
        }
    } else {
        v as i32
    }
}

/// The first screen of `v`, other than `local`, that contains the point.
pub fn find_hit(v: &Vec<Screen>, local: ScreenId, px: i64, py: i64) -> (r: Option<ScreenId>)
    ensures
        r == first_hit(v@, local, px as int, py as int),
{
    let mut i: usize = 0;
    assert(v@.subrange(0, v@.len() as int) =~= v@);
    while i < v.len()
        invariant
            i <= v@.len(),
            first_hit(v@, local, px as int, py as int) == first_hit(v@.subrange(i as int, v@.len() as int), local, px as int, py as int),
        decreases v@.len() - i,
    {
        let ghost t = v@.subrange(i as int, v@.len() as int);
        assert(t[0] == v@[i as int]);
        if v[i].id != local && v[i].contains_point(px, py) {
            return Some(v[i].id);
        }
        assert(t.drop_first() =~= v@.subrange(i as int + 1, v@.len() as int));
        i = i + 1;
    }
    None
}

/// An update at index `i` that keeps the entry's id changes what `lookup`
/// finds for no other id.
pub proof fn lemma_lookup_same_ids(m: Seq<Screen>, u: Seq<Screen>, id: ScreenId, i: int)
    requires
        0 <= i < m.len(),
        u.len() == m.len(),
        id != m[i].id,
        u[i].id == m[i].id,
        forall|k: int| 0 <= k < m.len() && k != i ==> u[k] == m[k],
    ensures
        lookup(u, id) == lookup(m, id),
    decreases m.len(),
{
    if m.len() > 0 {
        let pm = m.drop_last();
        let pu = u.drop_last();
        if i < pm.len() {
            lemma_lookup_same_ids(pm, pu, id, i);
            assert(u.last() == m.last());
        } else {
            assert(pu =~= pm);
        }
    }
}

} // verus!
