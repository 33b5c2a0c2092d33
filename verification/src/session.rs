//! Facts about the desktop session, read from values that the platform
//! reports: whether the session is GNOME on Wayland, and which application
//! owns the focused X11 window.

use vstd::prelude::*;
use vstd::utf8::{decode_utf8, valid_utf8};
use crate::text::{
    chars_of, has_field_ignore_ascii_case, last_nonempty_field_string,
    range_eq_ignore_ascii_case, spec_eq_ignore_ascii_case, spec_has_field_ignore_ascii_case,
    spec_last_nonempty_field,
};

verus! {

/// The characters that `String::from_utf8_lossy` decodes from these bytes.
pub uninterp spec fn utf8_lossy(bytes: Seq<u8>) -> Seq<char>;

/// Calls `String::from_utf8_lossy`. Trusted: the result is the named lossy
/// decoding of the bytes, and on valid UTF-8 it is the plain decoding.
#[verifier::external_body]
fn decode_utf8_lossy(bytes: &[u8]) -> (r: String)
    ensures
        r@ == utf8_lossy(bytes@),
        valid_utf8(bytes@) ==> r@ == decode_utf8(bytes@),
{
    String::from_utf8_lossy(bytes).into_owned()
}

/// The session is a GNOME session on Wayland: the session type is `wayland`
/// and one of the colon-separated desktop names is `gnome`, both up to ASCII
/// case.
pub open spec fn spec_is_gnome_wayland(session_type: Option<Seq<char>>, current_desktop: Option<
    Seq<char>,
>) -> bool {
    &&& session_type matches Some(t) && spec_eq_ignore_ascii_case(t, "wayland"@)
    &&& current_desktop matches Some(d) && spec_has_field_ignore_ascii_case(d, ':', "gnome"@)
}

/// Decides from `XDG_SESSION_TYPE` and `XDG_CURRENT_DESKTOP` (absent when
/// unset or not Unicode) whether the session is GNOME on Wayland, where the
/// active window has to be found through XWayland.
pub fn is_gnome_wayland_session(session_type: Option<&str>, current_desktop: Option<&str>) -> (r:
    bool)
    ensures
        r == spec_is_gnome_wayland(
            match session_type {
                Some(t) => Some(t@),
                None => None,
            },
            match current_desktop {
                Some(d) => Some(d@),
                None => None,
            },
        ),
{
    let is_wayland: bool = match session_type {
        Some(t) => {
            let chars: Vec<char> = chars_of(t);
            let wayland: Vec<char> = chars_of("wayland");
            let n: usize = chars.len();
            assert(chars@.subrange(0, n as int) =~= chars@);
            range_eq_ignore_ascii_case(&chars, 0, n, &wayland)
        },
        None => false,
    };
    let is_gnome: bool = match current_desktop {
        Some(d) => {
            let chars: Vec<char> = chars_of(d);
            let gnome: Vec<char> = chars_of("gnome");
            has_field_ignore_ascii_case(&chars, ':', &gnome)
        },
        None => false,
    };
    is_wayland && is_gnome
}

/// Whether the `_NET_WM_STATE` atoms of a window hold the focused-state atom.
/// Mutter keeps the last X11 window in `_NET_ACTIVE_WINDOW` when focus moves
/// to a native Wayland window, but removes this atom from it.
pub fn window_state_is_focused(states: &[u32], focused_atom: u32) -> (r: bool)
    ensures
        r == states@.contains(focused_atom),
{
    let mut k: usize = 0;
    while k < states.len()
        invariant
            k <= states.len(),
            forall|m: int| 0 <= m < k ==> states@[m] != focused_atom,
        decreases states.len() - k,
    {
        if states[k] == focused_atom {
            assert(states@[k as int] == focused_atom);
            return true;
        }
        k += 1;
    }
    false
}

/// The application name held in a `WM_CLASS` property value: the value is
/// decoded as UTF-8 (replacing invalid sequences), split at NUL characters,
/// and the last non-empty part is the class name; empty when there is none.
pub fn wm_class_app_name(class_bytes: &[u8]) -> (r: String)
    ensures
        r@ == spec_last_nonempty_field(utf8_lossy(class_bytes@), '\0'),
        valid_utf8(class_bytes@) ==> r@ == spec_last_nonempty_field(
            decode_utf8(class_bytes@),
            '\0',
        ),
{
    let decoded: String = decode_utf8_lossy(class_bytes);
    let chars: Vec<char> = chars_of(decoded.as_str());
    last_nonempty_field_string(&chars, '\0')
}

} // verus!
