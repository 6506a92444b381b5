use vstd::prelude::*;
use crate::text::str_equal;

verus! {

/// The global key chord registered at startup.
pub const TOGGLE_SHORTCUT: &'static str = "Alt+Shift+S";

/// The registered chord in lower case, the form a fired chord is compared in.
pub const TOGGLE_SHORTCUT_LOWER: &'static str = "alt+shift+s";

/// Name of the event sent to the user interface when the chord fires.
pub const SHORTCUT_EVENT: &'static str = "shortcut-event";

/// Payload of that event: the interface toggles its timer.
pub const TOGGLE_TIMER: &'static str = "toggle-timer";

/// Whether a key chord was pressed or released.
#[derive(Clone, Copy, Debug, PartialEq, Eq, Structural)]
pub enum KeyState {
    Pressed,
    Released,
}

/// An event sent to every listener of the user interface.
#[derive(Clone, Copy, Debug, PartialEq, Eq, Structural)]
pub enum UiEmission {
    /// `shortcut-event` carrying `toggle-timer`.
    ToggleTimer,
}

impl UiEmission {
    /// The event's name.
    pub fn event_name(&self) -> (r: &'static str)
        ensures
            r@ == SHORTCUT_EVENT@,
    {
        SHORTCUT_EVENT
    }

    /// The event's payload.
    pub fn payload(&self) -> (r: &'static str)
        ensures
            r@ == TOGGLE_TIMER@,
    {
        TOGGLE_TIMER
    }
}

/// The lower-case form of a string, as `str::to_lowercase` gives it.
pub uninterp spec fn lower_of(s: Seq<char>) -> Seq<char>;

/// Relies on `str::to_lowercase`: its result depends on the characters alone.
#[verifier::external_body]
fn lowercase(s: &str) -> (r: String)
    ensures
        r@ == lower_of(s@),
{
    s.to_lowercase()
}

/// What a fired chord, already in lower case, sends to the interface.
pub open spec fn emission_of_lowered(lowered: Seq<char>, state: KeyState) -> Option<UiEmission> {
    if lowered == TOGGLE_SHORTCUT_LOWER@ && state == KeyState::Pressed {
        Some(UiEmission::ToggleTimer)
    } else {
        None
    }
}

/// The emission for a fired chord whose text is already in lower case: one
/// `toggle-timer` when it is the registered chord being pressed, none
/// otherwise.
pub fn emission_for_lowered(lowered: &str, state: KeyState) -> (r: Option<UiEmission>)
    ensures
        r == emission_of_lowered(lowered@, state),
{
    if state == KeyState::Pressed && str_equal(lowered, TOGGLE_SHORTCUT_LOWER) {
        Some(UiEmission::ToggleTimer)
    } else {
        None
    }
}

/// The emission for a fired chord, given by its text in any case.
pub fn emission_for_shortcut(fired: &str, state: KeyState) -> (r: Option<UiEmission>)
    ensures
        r == emission_of_lowered(lower_of(fired@), state),
{
    let lowered = lowercase(fired);
    emission_for_lowered(lowered.as_str(), state)
}

} // verus!
