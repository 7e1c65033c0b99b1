use vstd::prelude::*;
use crate::geometry::Size;

verus! {

/// Milliseconds the watcher sleeps between two polls.
pub const POLL_INTERVAL_MS: u64 = 50;

/// A notification the watcher receives for the captured window.
#[derive(Debug, Clone, Copy, PartialEq, Eq, Structural)]
pub enum WatchEvent {
    /// The window's structure changed; carries its new size.
    Configure { width: u16, height: u16 },
    /// One of the window's properties changed.
    Property,
    /// Any other event.
    Other,
}

/// The watcher thread's own memory: the last size it saw.
#[derive(Debug, Clone, Copy, PartialEq, Eq, Structural)]
pub struct Watcher {
    pub last_size: Option<Size>,
}

/// Whether an event calls for the geometry to be queried again: a size other
/// than the last one seen, or any property change.
pub open spec fn spec_marks_dirty(last: Option<Size>, ev: WatchEvent) -> bool {
    match ev {
        WatchEvent::Configure { width, height } => last != Some(Size { width, height }),
        WatchEvent::Property => true,
        WatchEvent::Other => false,
    }
}

/// The last size seen after an event.
pub open spec fn spec_last_size_after(last: Option<Size>, ev: WatchEvent) -> Option<Size> {
    match ev {
        WatchEvent::Configure { width, height } => Some(Size { width, height }),
        _ => last,
    }
}

impl Watcher {
    pub fn new() -> (r: Watcher)
        ensures
            r.last_size is None,
    {
        Watcher { last_size: None }
    }

    /// Takes in one event and says whether the shared dirty flag is to be set.
    /// A pure relocation, which leaves the size as last seen, sets nothing.
    pub fn on_event(&mut self, ev: WatchEvent) -> (dirty: bool)
        ensures
            dirty == spec_marks_dirty(old(self).last_size, ev),
            final(self).last_size == spec_last_size_after(old(self).last_size, ev),
    {
        match ev {
            WatchEvent::Configure { width, height } => {
                let size = Size { width, height };
                let changed = match self.last_size {
                    Some(last) => last.width != width || last.height != height,
                    None => true,
                };
                self.last_size = Some(size);
                changed
            },
            WatchEvent::Property => true,
            WatchEvent::Other => false,
        }
    }
}

} // verus!
