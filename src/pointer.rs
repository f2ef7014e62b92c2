use vstd::prelude::*;

verus! {

/// What the host must do with its pointer after a motion.
#[derive(Clone, Copy, Debug, PartialEq, Eq, Structural)]
pub enum PointerAction {
    /// Nothing: the pointer stays on the local screen, shown.
    Stay,
    /// The virtual cursor came back: warp the pointer to it, release the
    /// grab and show the pointer.
    Release { warp_x: i32, warp_y: i32 },
    /// The virtual cursor left: hide and grab the pointer, then warp it to
    /// the centre of the screen.
    Capture { warp_x: i32, warp_y: i32 },
    /// Still away: warp the pointer back to the centre of the screen.
    Recenter { warp_x: i32, warp_y: i32 },
}

/// A virtual cursor that may leave the local screen. While it is away the
/// real pointer is held at the screen's centre, and each motion of it moves
/// the virtual cursor by the same amount.
#[derive(Clone, Copy, Debug, PartialEq, Eq, Structural)]
pub struct Pointer {
    /// The virtual cursor.
    pub x: i64,
    pub y: i64,
    /// Where the real pointer was last seen or put.
    pub real_x: i32,
    pub real_y: i32,
    /// The real pointer is shown and drives the local screen.
    pub focused: bool,
}

/// `v` held within the range of `i64`.
pub open spec fn saturate(v: int) -> int {
    if v < i64::MIN {
        i64::MIN as int
    } else if v > i64::MAX {
        i64::MAX as int
    } else {
        v
    }
}

/// The point lies strictly inside a screen of the given size, off its
/// border pixels.
pub open spec fn in_screen(x: int, y: int, width: int, height: int) -> bool {
    0 < x && 0 < y && x < width - 1 && y < height - 1
}

/// Whether the virtual cursor lies inside a screen of the given size.
pub fn cursor_in_screen(x: i64, y: i64, width: u16, height: u16) -> (r: bool)
    ensures
        r == in_screen(x as int, y as int, width as int, height as int),
{
    0 < x && 0 < y && x < width as i64 - 1 && y < height as i64 - 1
}

impl Pointer {
    /// A pointer at the real position `(x, y)`, on screen and shown.
    pub fn new(x: i32, y: i32) -> (r: Pointer)
        ensures
            r == (Pointer { x: x as i64, y: y as i64, real_x: x, real_y: y, focused: true }),
    {
        Pointer { x: x as i64, y: y as i64, real_x: x, real_y: y, focused: true }
    }

    /// The real pointer was seen at `(rx, ry)` on a screen of the given
    /// size: move the virtual cursor by the same amount, then keep the
    /// pointer shown where the virtual cursor is on the screen, or hold it
    /// hidden at the centre where the virtual cursor is away.
    pub fn update_cursor(&mut self, rx: i32, ry: i32, width: u16, height: u16) -> (r: PointerAction)
        ensures
            final(self).x == saturate(old(self).x + rx - old(self).real_x),
            final(self).y == saturate(old(self).y + ry - old(self).real_y),
            in_screen(final(self).x as int, final(self).y as int, width as int, height as int) ==> {
                &&& final(self).focused
                &&& if old(self).focused {
                    r == PointerAction::Stay && final(self).real_x == rx && final(self).real_y == ry
                } else {
                    &&& r == (PointerAction::Release { warp_x: final(self).x as i32, warp_y: final(self).y as i32 })
                    &&& final(self).real_x == final(self).x && final(self).real_y == final(self).y
                }
            },
            !in_screen(final(self).x as int, final(self).y as int, width as int, height as int) ==> {
                &&& !final(self).focused
                &&& final(self).real_x == width / 2 && final(self).real_y == height / 2
                &&& r == if old(self).focused {
                    PointerAction::Capture { warp_x: (width / 2) as i32, warp_y: (height / 2) as i32 }
                } else {
                    PointerAction::Recenter { warp_x: (width / 2) as i32, warp_y: (height / 2) as i32 }
                }
            },
    {
        self.x = saturating_shift(self.x, rx, self.real_x);
        self.y = saturating_shift(self.y, ry, self.real_y);
        self.real_x = rx;
        self.real_y = ry;
        if cursor_in_screen(self.x, self.y, width, height) {
            if self.focused {
                PointerAction::Stay
            } else {
                self.real_x = self.x as i32;
                self.real_y = self.y as i32;
                self.focused = true;
                PointerAction::Release { warp_x: self.real_x, warp_y: self.real_y }
            }
        } else {
            let was_focused = self.focused;
            self.focused = false;
            self.real_x = (width / 2) as i32;
            self.real_y = (height / 2) as i32;
            if was_focused {
                PointerAction::Capture { warp_x: self.real_x, warp_y: self.real_y }
            } else {
                PointerAction::Recenter { warp_x: self.real_x, warp_y: self.real_y }
            }
        }
    }
}

/// `v` moved by `to - from`, held within the range of `i64`.
pub fn saturating_shift(v: i64, to: i32, from: i32) -> (r: i64)
    ensures
        r == saturate(v + to - from),
{
    let t: i128 = v as i128 + to as i128 - from as i128;
    if t < i64::MIN as i128 {
        i64::MIN
    } else if t > i64::MAX as i128 {
        i64::MAX
    } else {
        t as i64
    }
}

} // verus!
