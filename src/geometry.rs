use vstd::prelude::*;

verus! {

/// Position of a window's origin in the root window's coordinate space.
#[derive(Debug, Clone, Copy, PartialEq, Eq, Structural)]
pub struct Position {
    pub x: i16,
    pub y: i16,
}

/// Size of a window in pixels.
#[derive(Debug, Clone, Copy, PartialEq, Eq, Structural)]
pub struct Size {
    pub width: u16,
    pub height: u16,
}

/// What one geometry query reports of a window.
#[derive(Debug, Clone, Copy, PartialEq, Eq, Structural)]
pub struct Geometry {
    pub x: i16,
    pub y: i16,
    pub width: u16,
    pub height: u16,
    pub depth: u8,
}

impl Geometry {
    pub open spec fn spec_size(self) -> Size {
        Size { width: self.width, height: self.height }
    }

    pub open spec fn spec_position(self) -> Position {
        Position { x: self.x, y: self.y }
    }

    pub fn size(&self) -> (r: Size)
        ensures
            r == self.spec_size(),
    {
        Size { width: self.width, height: self.height }
    }

    pub fn position(&self) -> (r: Position)
        ensures
            r == self.spec_position(),
    {
        Position { x: self.x, y: self.y }
    }
}

/// The observer notifications owed after the cached size changes: each
/// dimension that changed, and one resize event carrying the new size.
#[derive(Debug, Clone, Copy, PartialEq, Eq, Structural)]
pub struct SizeNotifications {
    pub width: Option<u32>,
    pub height: Option<u32>,
    pub resize: Option<Size>,
}

/// The notifications for a move from the cached size `old` (absent before the
/// first query) to `new`. A dimension is announced when it differs from the
/// cached one, or when nothing was cached; the resize event fires exactly when
/// at least one dimension is announced.
pub open spec fn size_notifications(old: Option<Size>, new: Size) -> SizeNotifications {
    let width_changed = old is None || old->Some_0.width != new.width;
    let height_changed = old is None || old->Some_0.height != new.height;
    SizeNotifications {
        width: if width_changed { Some(new.width as u32) } else { None },
        height: if height_changed { Some(new.height as u32) } else { None },
        resize: if width_changed || height_changed {
            Some(new)
        } else {
            None
        },
    }
}

/// Computes the notifications owed for a change of the cached size.
pub fn notifications_for(old: Option<Size>, new: Size) -> (r: SizeNotifications)
    ensures
        r == size_notifications(old, new),
{
    let (width_changed, height_changed) = match old {
        None => (true, true),
        Some(o) => (o.width != new.width, o.height != new.height),
    };
    SizeNotifications {
        width: if width_changed { Some(new.width as u32) } else { None },
        height: if height_changed { Some(new.height as u32) } else { None },
        resize: if width_changed || height_changed {
            Some(new)
        } else {
            None
        },
    }
}

/// What a pointer query reports: the pointer in root coordinates, and whether
/// it is on the same screen as the queried window.
#[derive(Debug, Clone, Copy, PartialEq, Eq, Structural)]
pub struct PointerReply {
    pub root_x: i16,
    pub root_y: i16,
    pub same_screen: bool,
}

/// Whether the pointer lies inside the window whose origin is `pos` and whose
/// size is `size`.
pub open spec fn pointer_inside(pos: Position, size: Size, p: PointerReply) -> bool {
    &&& p.same_screen
    &&& p.root_x >= pos.x
    &&& p.root_y >= pos.y
    &&& (p.root_x as int) < pos.x as int + size.width as int
    &&& (p.root_y as int) < pos.y as int + size.height as int
}

/// The pointer position relative to the window's origin when it lies inside
/// the window, `None` otherwise.
pub fn cursor_in_bounds(pos: Position, size: Size, p: PointerReply) -> (r: Option<(u16, u16)>)
    ensures
        pointer_inside(pos, size, p) <==> r is Some,
        r is Some ==> r->Some_0.0 as int == p.root_x as int - pos.x as int && r->Some_0.1 as int
            == p.root_y as int - pos.y as int,
{
    let px = p.root_x as i32;
    let py = p.root_y as i32;
    let x = pos.x as i32;
    let y = pos.y as i32;
    if p.same_screen && px >= x && py >= y && px < x + size.width as i32 && py < y
        + size.height as i32 {
        Some(((px - x) as u16, (py - y) as u16))
    } else {
        None
    }
}

} // verus!
