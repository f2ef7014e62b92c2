use vstd::prelude::*;

verus! {

/// A network address: an IPv4 address as a 32-bit number, and a port.
#[derive(Clone, Copy, Debug, PartialEq, Eq, Structural)]
pub struct Addr {
    pub ip: u32,
    pub port: u16,
}

/// Stable identifier of a participating screen.
#[derive(Clone, Copy, Debug, PartialEq, Eq, Structural)]
pub struct ScreenId {
    pub id: u64,
}

/// A screen placed in the shared virtual desktop.
#[derive(Clone, Copy, Debug, PartialEq, Eq, Structural)]
pub struct Screen {
    pub id: ScreenId,
    pub route: Addr,
    pub x: i32,
    pub y: i32,
    pub width: u16,
    pub height: u16,
}

/// The point `(px, py)` of the virtual desktop lies inside the rectangle of `s`.
pub open spec fn contains(s: Screen, px: int, py: int) -> bool {
    s.x <= px < s.x + s.width && s.y <= py < s.y + s.height
}

impl Screen {
    /// Whether the point `(px, py)` of the virtual desktop lies on this screen.
    pub fn contains_point(&self, px: i64, py: i64) -> (r: bool)
        ensures
            r == contains(*self, px as int, py as int),
    {
        let x0 = self.x as i64;
        let y0 = self.y as i64;
        x0 <= px && px < x0 + self.width as i64 && y0 <= py && py < y0 + self.height as i64
    }
}

/// The first entry of `s` with the given id.
pub open spec fn lookup(s: Seq<Screen>, id: ScreenId) -> Option<Screen>
    decreases s.len(),
{
    if s.len() == 0 {
        None
    } else {
        match lookup(s.drop_last(), id) {
            Some(e) => Some(e),
            None => if s.last().id == id {
                Some(s.last())
            } else {
                None
            },
        }
    }
}

/// Some entry of `s` carries the given id.
pub open spec fn has_id(s: Seq<Screen>, id: ScreenId) -> bool {
    lookup(s, id) is Some
}

/// Where no entry carries the id, `lookup` finds nothing.
pub proof fn lemma_lookup_none(s: Seq<Screen>, id: ScreenId)
    requires
        forall|i: int| 0 <= i < s.len() ==> s[i].id != id,
    ensures
        lookup(s, id) is None,
    decreases s.len(),
{
    if s.len() > 0 {
        let p = s.drop_last();
        assert forall|j: int| 0 <= j < p.len() implies p[j].id != id by {
            assert(p[j] == s[j]);
        }
        lemma_lookup_none(p, id);
    }
}

/// `lookup` finds the entry at the first index that carries the id.
pub proof fn lemma_lookup_first(s: Seq<Screen>, id: ScreenId, i: int)
    requires
        0 <= i < s.len(),
        s[i].id == id,
        forall|j: int| 0 <= j < i ==> s[j].id != id,
    ensures
        lookup(s, id) == Some(s[i]),
    decreases s.len(),
{
    let p = s.drop_last();
    if i < p.len() {
        assert forall|j: int| 0 <= j < i implies p[j].id != id by {
            assert(p[j] == s[j]);
        }
        lemma_lookup_first(p, id, i);
    } else {
        assert forall|j: int| 0 <= j < p.len() implies p[j].id != id by {
            assert(p[j] == s[j]);
        }
        lemma_lookup_none(p, id);
    }
}

/// Index of the first entry of `v` with the given id.
pub fn find_screen(v: &Vec<Screen>, id: ScreenId) -> (r: Option<usize>)
    ensures
        match r {
            Some(i) => {
                &&& i < v@.len()
                &&& v@[i as int].id == id
                &&& forall|j: int| 0 <= j < i ==> v@[j].id != id
                &&& lookup(v@, id) == Some(v@[i as int])
            },
            None => lookup(v@, id) is None,
        },
{
    let mut i: usize = 0;
    while i < v.len()
        invariant
            i <= v@.len(),
            forall|j: int| 0 <= j < i ==> v@[j].id != id,
        decreases v@.len() - i,
    {
        if v[i].id == id {
            proof {
                lemma_lookup_first(v@, id, i as int);
            }
            return Some(i);
        }
        i = i + 1;
    }
    proof {
        lemma_lookup_none(v@, id);
    }
    None
}

} // verus!
