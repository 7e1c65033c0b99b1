use vstd::prelude::*;

verus! {

/// The window-manager state property read to classify visibility.
pub const WM_STATE_ATOM: u32 = 320;

/// The state atom that marks a window as hidden.
pub const WM_STATE_HIDDEN_ATOM: u32 = 324;

/// Whether the captured window is currently shown.
#[derive(Debug, Clone, Copy, PartialEq, Eq, Structural)]
pub enum WindowVisibility {
    Unknown,
    Visible,
    Hidden,
}

impl WindowVisibility {
    /// The numeric code of each variant, as exposed to the host.
    pub open spec fn spec_code(self) -> i32 {
        match self {
            WindowVisibility::Unknown => 0,
            WindowVisibility::Visible => 1,
            WindowVisibility::Hidden => 2,
        }
    }

    /// The variant for a numeric code; unrecognised codes are `Unknown`.
    pub open spec fn spec_from_code(value: i32) -> WindowVisibility {
        if value == 1 {
            WindowVisibility::Visible
        } else if value == 2 {
            WindowVisibility::Hidden
        } else {
            WindowVisibility::Unknown
        }
    }

    pub fn code(&self) -> (r: i32)
        ensures
            r == self.spec_code(),
    {
        match self {
            WindowVisibility::Unknown => 0,
            WindowVisibility::Visible => 1,
            WindowVisibility::Hidden => 2,
        }
    }
}

impl Default for WindowVisibility {
    fn default() -> (r: Self)
        ensures
            r == WindowVisibility::Unknown,
    {
        WindowVisibility::Unknown
    }
}

impl From<i32> for WindowVisibility {
    fn from(value: i32) -> (r: Self)
        ensures
            r == WindowVisibility::spec_from_code(value),
    {
        match value {
            1 => WindowVisibility::Visible,
            2 => WindowVisibility::Hidden,
            _ => WindowVisibility::Unknown,
        }
    }
}

impl vstd::std_specs::convert::FromSpecImpl<i32> for WindowVisibility {
    open spec fn obeys_from_spec() -> bool {
        true
    }

    open spec fn from_spec(v: i32) -> WindowVisibility {
        WindowVisibility::spec_from_code(v)
    }
}

/// Visibility as read from the window's state property: `Hidden` when any of
/// the listed atoms is the hidden-state atom, `Visible` otherwise.
pub open spec fn visibility_of_state(atoms: Seq<u32>) -> WindowVisibility {
    if exists|i: int| 0 <= i < atoms.len() && atoms[i] == WM_STATE_HIDDEN_ATOM {
        WindowVisibility::Hidden
    } else {
        WindowVisibility::Visible
    }
}

/// Classifies the atoms of a successfully read window-state property.
pub fn classify_visibility(atoms: &Vec<u32>) -> (r: WindowVisibility)
    ensures
        r == visibility_of_state(atoms@),
{
    let mut i: usize = 0;
    while i < atoms.len()
        invariant
            0 <= i <= atoms@.len(),
            forall|j: int| 0 <= j < i ==> atoms@[j] != WM_STATE_HIDDEN_ATOM,
        decreases atoms@.len() - i,
    {
        if atoms[i] == WM_STATE_HIDDEN_ATOM {
            return WindowVisibility::Hidden;
        }
        i = i + 1;
    }
    WindowVisibility::Visible
}

} // verus!
