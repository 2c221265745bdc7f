//! Which display session the overlay runs in, decided from the values of the
//! environment variables that name it, and whether a Wayland compositor offers
//! the layer-shell protocol the native Wayland overlay needs.
use vstd::prelude::*;
use vstd::string::*;

verus! {

/// The kind of display session.
#[derive(Debug, Clone, Copy, PartialEq, Eq, Structural)]
pub enum SessionType {
    X11,
    Wayland,
}

/// The character with code `c`, mapped to lower case where it is an ASCII
/// capital letter.
pub open spec fn ascii_fold(c: char) -> u32 {
    let code: u32 = c as u32;
    if 65 <= code <= 90 {
        (code + 32) as u32
    } else {
        code
    }
}

/// `a` and `b` are equal when ASCII letters are compared without regard to case.
pub open spec fn eq_ignoring_ascii_case(a: Seq<char>, b: Seq<char>) -> bool {
    &&& a.len() == b.len()
    &&& forall|i: int| 0 <= i < a.len() ==> ascii_fold(#[trigger] a[i]) == ascii_fold(b[i])
}

/// The text `x11`.
pub open spec fn x11_name() -> Seq<char> {
    seq!['x', '1', '1']
}

/// The text `wayland`.
pub open spec fn wayland_name() -> Seq<char> {
    seq!['w', 'a', 'y', 'l', 'a', 'n', 'd']
}

/// The name of the wlr layer-shell protocol's global interface.
pub open spec fn layer_shell_interface() -> Seq<char> {
    seq![
        'z', 'w', 'l', 'r', '_', 'l', 'a', 'y', 'e', 'r', '_', 's', 'h', 'e', 'l', 'l', '_', 'v', '1',
    ]
}

/// The session named by the environment: `WINIT_UNIX_BACKEND` where it names
/// `x11` or `wayland` in any case, else `XDG_SESSION_TYPE` where it does, else
/// Wayland where `WAYLAND_DISPLAY` is set and not empty, else X11.  A variable
/// that is unset or not valid Unicode is `None`.
pub open spec fn session_from_env(
    winit_unix_backend: Option<Seq<char>>,
    xdg_session_type: Option<Seq<char>>,
    wayland_display: Option<Seq<char>>,
) -> SessionType {
    if winit_unix_backend matches Some(b) && eq_ignoring_ascii_case(b, x11_name()) {
        SessionType::X11
    } else if winit_unix_backend matches Some(b) && eq_ignoring_ascii_case(b, wayland_name()) {
        SessionType::Wayland
    } else if xdg_session_type matches Some(s) && eq_ignoring_ascii_case(s, wayland_name()) {
        SessionType::Wayland
    } else if xdg_session_type matches Some(s) && eq_ignoring_ascii_case(s, x11_name()) {
        SessionType::X11
    } else if wayland_display matches Some(d) && d.len() > 0 {
        SessionType::Wayland
    } else {
        SessionType::X11
    }
}

/// The variable's value, where it is set, is `name` in any ASCII case.
pub open spec fn names(value: Option<Seq<char>>, name: Seq<char>) -> bool {
    value matches Some(v) && eq_ignoring_ascii_case(v, name)
}

/// The order in which the environment decides the session: a backend named
/// by `WINIT_UNIX_BACKEND` wins; failing that, a session type named by
/// `XDG_SESSION_TYPE`; failing both, the session is Wayland exactly when
/// `WAYLAND_DISPLAY` is set and not empty, whether or not the other two are
/// set.
pub proof fn lemma_session_precedence(
    winit_unix_backend: Option<Seq<char>>,
    xdg_session_type: Option<Seq<char>>,
    wayland_display: Option<Seq<char>>,
)
    ensures
        ({
            let session = session_from_env(winit_unix_backend, xdg_session_type, wayland_display);
            let backend_named = names(winit_unix_backend, x11_name()) || names(
                winit_unix_backend,
                wayland_name(),
            );
            let type_named = names(xdg_session_type, x11_name()) || names(
                xdg_session_type,
                wayland_name(),
            );
            &&& names(winit_unix_backend, x11_name()) ==> session == SessionType::X11
            &&& names(winit_unix_backend, wayland_name()) ==> session == SessionType::Wayland
            &&& !backend_named && names(xdg_session_type, x11_name()) ==> session
                == SessionType::X11
            &&& !backend_named && names(xdg_session_type, wayland_name()) ==> session
                == SessionType::Wayland
            &&& !backend_named && !type_named ==> (session == SessionType::Wayland
                <==> (wayland_display matches Some(d) && d.len() > 0))
        }),
{
    if names(winit_unix_backend, x11_name()) && names(winit_unix_backend, wayland_name()) {
        let b = winit_unix_backend->0;
        assert(b.len() == 3 && b.len() == 7);
    }
    if names(xdg_session_type, x11_name()) && names(xdg_session_type, wayland_name()) {
        let t = xdg_session_type->0;
        assert(t.len() == 3 && t.len() == 7);
    }
}

/// The view of an optional string.
pub open spec fn opt_view(s: Option<String>) -> Option<Seq<char>> {
    match s {
        Some(s) => Some(s@),
        None => None,
    }
}

/// Whether `a` and `b` are equal when ASCII letters are compared without
/// regard to case.
pub fn eq_ignore_ascii_case(a: &str, b: &str) -> (same: bool)
    ensures
        same == eq_ignoring_ascii_case(a@, b@),
{
    let len: usize = a.unicode_len();
    if len != b.unicode_len() {
        return false;
    }
    let mut i: usize = 0;
    while i < len
        invariant
            len == a@.len(),
            len == b@.len(),
            i <= len,
            forall|j: int| 0 <= j < i ==> ascii_fold(#[trigger] a@[j]) == ascii_fold(b@[j]),
        decreases len - i,
    {
        let x: u32 = a.get_char(i) as u32;
        let y: u32 = b.get_char(i) as u32;
        let fx: u32 = if 65 <= x && x <= 90 {
            x + 32
        } else {
            x
        };
        let fy: u32 = if 65 <= y && y <= 90 {
            y + 32
        } else {
            y
        };
        if fx != fy {
            assert(ascii_fold(a@[i as int]) != ascii_fold(b@[i as int]));
            return false;
        }
        i = i + 1;
    }
    true
}

/// The session the environment names; see `session_from_env`.
pub fn session_type_from_env(
    winit_unix_backend: Option<String>,
    xdg_session_type: Option<String>,
    wayland_display: Option<String>,
) -> (session: SessionType)
    ensures
        session == session_from_env(
            opt_view(winit_unix_backend),
            opt_view(xdg_session_type),
            opt_view(wayland_display),
        ),
{
    let x11 = "x11";
    let wayland = "wayland";
    proof {
        reveal_strlit("x11");
        reveal_strlit("wayland");
        assert(x11@ =~= x11_name());
        assert(wayland@ =~= wayland_name());
    }
    if let Some(backend) = &winit_unix_backend {
        if eq_ignore_ascii_case(backend.as_str(), x11) {
            return SessionType::X11;
        } else if eq_ignore_ascii_case(backend.as_str(), wayland) {
            return SessionType::Wayland;
        }
    }
    if let Some(session) = &xdg_session_type {
        if eq_ignore_ascii_case(session.as_str(), wayland) {
            return SessionType::Wayland;
        } else if eq_ignore_ascii_case(session.as_str(), x11) {
            return SessionType::X11;
        }
    }
    if let Some(display) = &wayland_display {
        if display.as_str().unicode_len() > 0 {
            return SessionType::Wayland;
        }
    }
    SessionType::X11
}

/// Whether the compositor's globals, given by their interface names, include
/// the wlr layer-shell protocol.
pub fn advertises_layer_shell(interfaces: &Vec<String>) -> (found: bool)
    ensures
        found == exists|i: int|
            0 <= i < interfaces@.len() && #[trigger] interfaces@[i]@ == layer_shell_interface(),
{
    let wanted = String::from_str("zwlr_layer_shell_v1");
    proof {
        reveal_strlit("zwlr_layer_shell_v1");
        assert(wanted@ =~= layer_shell_interface());
    }
    let mut i: usize = 0;
    while i < interfaces.len()
        invariant
            i <= interfaces@.len(),
            wanted@ == layer_shell_interface(),
            forall|j: int| 0 <= j < i ==> #[trigger] interfaces@[j]@ != layer_shell_interface(),
        decreases interfaces@.len() - i,
    {
        if interfaces[i] == wanted {
            return true;
        }
        i = i + 1;
    }
    false
}

} // verus!
