use vstd::prelude::*;

verus! {

/// One of the two mutually exclusive ways the content can be displayed.
#[derive(Clone, Copy, Debug, PartialEq, Eq, Structural)]
pub enum DisplayMode {
    Vector,
    Crt,
}

/// The id of the checkable menu entry that selects a mode.
pub open spec fn menu_id_of(mode: DisplayMode) -> Seq<char> {
    match mode {
        DisplayMode::Vector => "display_vector"@,
        DisplayMode::Crt => "display_crt"@,
    }
}

/// The mode selected by the menu entry with the given id, if any.
pub open spec fn mode_of_menu_id(id: Seq<char>) -> Option<DisplayMode> {
    if id == "display_vector"@ {
        Some(DisplayMode::Vector)
    } else if id == "display_crt"@ {
        Some(DisplayMode::Crt)
    } else {
        None
    }
}

impl DisplayMode {
    /// The id of this mode's menu entry; it is also the payload of the
    /// notification sent when the entry is clicked.
    pub fn menu_id(&self) -> (r: &'static str)
        ensures
            r@ == menu_id_of(*self),
    {
        match self {
            DisplayMode::Vector => "display_vector",
            DisplayMode::Crt => "display_crt",
        }
    }

    /// The mode that a clicked menu entry selects; `None` for an entry that
    /// is not a display-mode entry.
    pub fn from_menu_id(id: &str) -> (r: Option<DisplayMode>)
        ensures
            r == mode_of_menu_id(id@),
    {
        if str_eq(id, "display_vector") {
            Some(DisplayMode::Vector)
        } else if str_eq(id, "display_crt") {
            Some(DisplayMode::Crt)
        } else {
            None
        }
    }
}

/// Character-wise string equality.
pub(crate) fn str_eq(a: &str, b: &str) -> (r: bool)
    ensures
        r == (a@ == b@),
{
    let n = a.unicode_len();
    if n != b.unicode_len() {
        return false;
    }
    let mut i: usize = 0;
    while i < n
        invariant
            n == a@.len(),
            n == b@.len(),
            i <= n,
            forall|j: int| 0 <= j < i ==> a@[j] == b@[j],
        decreases n - i,
    {
        if a.get_char(i) != b.get_char(i) {
            return false;
        }
        i = i + 1;
    }
    assert(a@ =~= b@);
    true
}

} // verus!
