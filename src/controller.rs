use vstd::prelude::*;

use vstd::string::StringExecFns;

use crate::mode::{menu_id_of, mode_of_menu_id, str_eq, DisplayMode};

verus! {

/// The checked states of the two display-mode menu entries.
#[derive(Clone, Copy, Debug, PartialEq, Eq, Structural)]
pub struct Toggles {
    pub vector: bool,
    pub crt: bool,
}

/// The toggles after the user picked `mode` in the menu: its entry checked,
/// the other one not.
pub open spec fn toggles_for(mode: DisplayMode) -> Toggles {
    Toggles { vector: mode == DisplayMode::Vector, crt: mode == DisplayMode::Crt }
}

/// The toggles after the content asked for the mode called `name`: an entry
/// is checked exactly when `name` is its mode's name, so an unknown name
/// leaves both unchecked.
pub open spec fn toggles_requested(name: Seq<char>) -> Toggles {
    Toggles { vector: name == "vector"@, crt: name == "crt"@ }
}

/// The name of the event that carries a menu selection to the content.
pub open spec fn menu_event_name() -> Seq<char> {
    "menu-event"@
}

/// An event to be sent to the embedded content.
#[derive(Debug, PartialEq, Eq)]
pub struct Notification {
    pub event: String,
    pub payload: String,
}

/// Owns the checked states of the two display-mode entries. It records the
/// one mode whose entry is checked, if any, so the two entries are never
/// checked together.
#[derive(Debug)]
pub struct DisplayModeController {
    active: Option<DisplayMode>,
}

impl View for DisplayModeController {
    type V = Toggles;

    open spec fn view(&self) -> Toggles {
        toggles_of(self.spec_active())
    }
}

/// The toggles when exactly the entry of `active` is checked.
pub open spec fn toggles_of(active: Option<DisplayMode>) -> Toggles {
    Toggles { vector: active == Some(DisplayMode::Vector), crt: active == Some(DisplayMode::Crt) }
}

impl DisplayModeController {
    /// The mode whose entry is checked, if any.
    pub closed spec fn spec_active(&self) -> Option<DisplayMode> {
        self.active
    }

    /// A controller whose entries are both unchecked, as they are before any
    /// mode has been chosen.
    pub fn new() -> (r: DisplayModeController)
        ensures
            r@ == (Toggles { vector: false, crt: false }),
    {
        DisplayModeController { active: None }
    }

    /// The current checked states.
    pub fn toggles(&self) -> (r: Toggles)
        ensures
            r == self@,
    {
        Toggles { vector: self.is_vector_checked(), crt: self.is_crt_checked() }
    }

    pub fn is_vector_checked(&self) -> (r: bool)
        ensures
            r == self@.vector,
    {
        match self.active {
            Some(DisplayMode::Vector) => true,
            _ => false,
        }
    }

    pub fn is_crt_checked(&self) -> (r: bool)
        ensures
            r == self@.crt,
    {
        match self.active {
            Some(DisplayMode::Crt) => true,
            _ => false,
        }
    }

    /// The user picked `mode` in the menu: its entry becomes checked, the
    /// other one unchecked, and the content is told which entry was picked.
    pub fn handle_menu_selection(&mut self, mode: DisplayMode) -> (r: Notification)
        ensures
            final(self)@ == toggles_for(mode),
            final(self)@.vector != final(self)@.crt,
            active_mode_of(final(self)@) == Some(mode),
            r.event@ == menu_event_name(),
            r.payload@ == menu_id_of(mode),
    {
        self.active = Some(mode);
        Notification { event: String::from_str("menu-event"), payload: String::from_str(mode.menu_id()) }
    }

    /// A menu entry with id `id` was clicked. A display-mode entry is handled
    /// as [`Self::handle_menu_selection`] of its mode; any other entry changes
    /// nothing and sends nothing.
    pub fn handle_menu_event(&mut self, id: &str) -> (r: Option<Notification>)
        ensures
            match mode_of_menu_id(id@) {
                Some(mode) => {
                    &&& final(self)@ == toggles_for(mode)
                    &&& r is Some
                    &&& r->0.event@ == menu_event_name()
                    &&& r->0.payload@ == menu_id_of(mode)
                },
                None => final(self)@ == old(self)@ && r is None,
            },
    {
        match DisplayMode::from_menu_id(id) {
            Some(mode) => Some(self.handle_menu_selection(mode)),
            None => None,
        }
    }

    /// The content asks for the mode called `name`: the vector entry is
    /// checked exactly when `name` is `"vector"`, the CRT entry exactly when
    /// it is `"crt"`. Any other name leaves both unchecked. Nothing is sent
    /// back.
    pub fn sync_display_mode(&mut self, name: &str)
        ensures
            final(self)@ == toggles_requested(name@),
    {
        let is_vector = str_eq(name, "vector");
        let is_crt = str_eq(name, "crt");
        proof {
            reveal_strlit("vector");
            reveal_strlit("crt");
            if is_vector {
                assert("vector"@[0] != "crt"@[0]);
            }
        }
        self.active = if is_vector {
            Some(DisplayMode::Vector)
        } else if is_crt {
            Some(DisplayMode::Crt)
        } else {
            None
        };
    }

    /// The mode whose entry is checked, if any.
    pub fn active_mode(&self) -> (r: Option<DisplayMode>)
        ensures
            r == active_mode_of(self@),
    {
        match self.active {
            Some(DisplayMode::Vector) => Some(DisplayMode::Vector),
            Some(DisplayMode::Crt) => Some(DisplayMode::Crt),
            None => None,
        }
    }
}

/// The mode whose entry is checked in `t`, if any.
pub open spec fn active_mode_of(t: Toggles) -> Option<DisplayMode> {
    if t.vector {
        Some(DisplayMode::Vector)
    } else if t.crt {
        Some(DisplayMode::Crt)
    } else {
        None
    }
}

/// The toggles after the content sent each of `names` in turn, starting from
/// `start`.
pub open spec fn after_syncs(start: Toggles, names: Seq<Seq<char>>) -> Toggles
    decreases names.len(),
{
    if names.len() == 0 {
        start
    } else {
        let before = after_syncs(start, names.drop_last());
        sync_step(before, names.last())
    }
}

/// One sync request for the mode called `name`, made in state `before`. As
/// [`DisplayModeController::sync_display_mode`] states, the new toggles
/// depend on `name` alone.
pub open spec fn sync_step(before: Toggles, name: Seq<char>) -> Toggles {
    toggles_requested(name)
}

/// Whatever the starting state and whatever came before, after a non-empty
/// run of sync requests the toggles are exactly those that the last request
/// asks for.
pub proof fn lemma_last_sync_wins(start: Toggles, names: Seq<Seq<char>>)
    requires
        names.len() > 0,
    ensures
        after_syncs(start, names) == toggles_requested(names.last()),
{
}

/// Sending the same sync request twice in a row leaves the toggles as sending
/// it once does.
pub proof fn lemma_sync_idempotent(start: Toggles, name: Seq<char>)
    ensures
        after_syncs(start, seq![name, name]) == after_syncs(start, seq![name]),
{
    assert(seq![name, name].drop_last() =~= seq![name]);
    assert(seq![name].drop_last() =~= Seq::<Seq<char>>::empty());
}

/// No controller ever has both entries checked.
pub proof fn lemma_never_both_checked(c: &DisplayModeController)
    ensures
        !(c@.vector && c@.crt),
{
}

} // verus!
