use vstd::prelude::*;
use crate::screen::{Addr, Screen, ScreenId};

verus! {

/// An input event captured on the local machine, or one to inject into it.
/// Motion positions are relative to the local screen's top-left corner.
#[derive(Clone, Copy, Debug, PartialEq, Eq, Structural)]
pub enum HostEvent {
    Motion { x: i32, y: i32 },
    ButtonPress { button: u32 },
    ButtonRelease { button: u32 },
    KeyPress { key: u32 },
    KeyRelease { key: u32 },
    FocusChanged,
    Poll,
}

/// A copy of a cluster as it travels between peers: its screens in
/// discovery order and the screen that owns input.
#[derive(Clone, Debug)]
pub struct Snapshot {
    pub screens: Vec<Screen>,
    pub focused: Option<ScreenId>,
}

/// The wire vocabulary shared by peers and the admin channel.
#[derive(Clone, Debug)]
pub enum Message {
    Connect(Snapshot),
    Cluster(Snapshot),
    RequestCluster,
    Screens(Vec<Screen>),
    Focus(ScreenId),
    MouseMove { dx: i64, dy: i64 },
    ButtonPress { button: u32 },
    ButtonRelease { button: u32 },
    KeyPress { key: u32 },
    KeyRelease { key: u32 },
}

/// A copy of `v` with the same entries in the same order.
pub fn copy_screens(v: &Vec<Screen>) -> (r: Vec<Screen>)
    ensures
        r@ == v@,
{
    let mut r: Vec<Screen> = Vec::new();
    let mut i: usize = 0;
    while i < v.len()
        invariant
            i <= v@.len(),
            r@ == v@.subrange(0, i as int),
        decreases v@.len() - i,
    {
        r.push(v[i]);
        i = i + 1;
        assert(r@ =~= v@.subrange(0, i as int));
    }
    assert(r@ =~= v@);
    r
}

/// The routes of the screens of `v`, in order.
pub fn routes_of(v: &Vec<Screen>) -> (r: Vec<Addr>)
    ensures
        r@ == v@.map_values(|s: Screen| s.route),
{
    let mut r: Vec<Addr> = Vec::new();
    let mut i: usize = 0;
    while i < v.len()
        invariant
            i <= v@.len(),
            r@ == v@.subrange(0, i as int).map_values(|s: Screen| s.route),
        decreases v@.len() - i,
    {
        r.push(v[i].route);
        i = i + 1;
        assert(r@ =~= v@.subrange(0, i as int).map_values(|s: Screen| s.route));
    }
    assert(v@.subrange(0, v@.len() as int) =~= v@);
    r
}

} // verus!
