//! The model of the display-server side of the manager: window identifiers,
//! the atom cache, and the decisions behind the gateway requests — which
//! close path a window gets, which fields of a configure request are applied,
//! and which key grabs are registered. The requests themselves are plain
//! data; issuing them is protocol I/O and happens outside this crate.

use vstd::prelude::*;

use crate::keys::KeyCombo;

verus! {

/// The protocol's "current time" placeholder in client messages.
pub const CURRENT_TIME: u32 = 0;

/// Configure-window value flag: the x coordinate is present.
pub const CONFIG_WINDOW_X: u16 = 1;
/// Configure-window value flag: the y coordinate is present.
pub const CONFIG_WINDOW_Y: u16 = 2;
/// Configure-window value flag: the width is present.
pub const CONFIG_WINDOW_WIDTH: u16 = 4;
/// Configure-window value flag: the height is present.
pub const CONFIG_WINDOW_HEIGHT: u16 = 8;
/// Configure-window value flag: the border width is present.
pub const CONFIG_WINDOW_BORDER_WIDTH: u16 = 16;
/// Configure-window value flag: the sibling window is present.
pub const CONFIG_WINDOW_SIBLING: u16 = 32;
/// Configure-window value flag: the stacking mode is present.
pub const CONFIG_WINDOW_STACK_MODE: u16 = 64;

/// The window type a client advertises.
#[derive(Clone, Copy, Debug, PartialEq, Eq, Structural)]
pub enum WindowType {
    Desktop,
    Dock,
    Toolbar,
    Menu,
    Utility,
    Splash,
    Dialog,
    DropdownMenu,
    PopupMenu,
    Tooltip,
    Notification,
    Combo,
    Dnd,
    Normal,
}

/// A state flag a window can carry.
#[derive(Clone, Copy, Debug, PartialEq, Eq, Structural)]
pub enum WindowState {
    Modal,
    Sticky,
    MaximizedVert,
    MaximizedHorz,
    Shaded,
    SkipTaskbar,
    SkipPager,
    Hidden,
    Fullscreen,
    Above,
    Below,
    DemandsAttention,
}

/// A server-assigned window identifier.
#[derive(Clone, Copy, Debug, PartialEq, Eq, Hash, Structural)]
pub struct Window(pub u32);

impl Window {
    /// The raw identifier.
    pub fn get(&self) -> (r: u32)
        ensures
            r == self.0,
    {
        self.0
    }
}

/// The well-known atoms, resolved once when the connection opens and
/// immutable afterwards.
#[derive(Clone, Copy, Debug, PartialEq, Eq, Structural)]
pub struct AtomCache {
    pub wm_delete_window: u32,
    pub wm_protocols: u32,
}

/// The request that closes a window: a polite delete message when the window
/// advertises the delete protocol, a forced destroy otherwise.
#[derive(Clone, Debug)]
pub enum CloseAction {
    /// Send a 32-bit-format client message carrying `data` under
    /// `message_type` to `window`.
    SendDeleteMessage { window: Window, message_type: u32, data: Vec<u32> },
    /// Destroy `window` outright.
    DestroyWindow { window: Window },
}

/// Whether `protocols` holds `atom`.
fn contains_atom(protocols: &Vec<u32>, atom: u32) -> (r: bool)
    ensures
        r == protocols@.contains(atom),
{
    let mut i: usize = 0;
    while i < protocols.len()
        invariant
            0 <= i <= protocols@.len(),
            forall|j: int| 0 <= j < i ==> protocols@[j] != atom,
        decreases protocols@.len() - i,
    {
        if protocols[i] == atom {
            assert(protocols@[i as int] == atom);
            return true;
        }
        i = i + 1;
    }
    false
}

/// Decides the close path of `win`. `protocols` is the protocol atom list the
/// window declares, or `None` when the query failed; only a window whose list
/// was read and holds the delete atom gets the polite path.
pub fn window_close(atoms: &AtomCache, win: &Window, protocols: Option<&Vec<u32>>) -> (r:
    CloseAction)
    ensures
        (match protocols {
            Some(p) => p@.contains(atoms.wm_delete_window),
            None => false,
        }) ==> (r matches CloseAction::SendDeleteMessage { window, message_type, data }
            && window == *win && message_type == atoms.wm_protocols && data@ == seq![
            atoms.wm_delete_window,
            CURRENT_TIME,
            0u32,
            0u32,
            0u32,
        ]),
        !(match protocols {
            Some(p) => p@.contains(atoms.wm_delete_window),
            None => false,
        }) ==> r == (CloseAction::DestroyWindow { window: *win }),
{
    let supported = match protocols {
        Some(p) => contains_atom(p, atoms.wm_delete_window),
        None => false,
    };
    if supported {
        let mut data: Vec<u32> = Vec::new();
        data.push(atoms.wm_delete_window);
        data.push(CURRENT_TIME);
        data.push(0);
        data.push(0);
        data.push(0);
        proof {
            assert(data@ =~= seq![atoms.wm_delete_window, CURRENT_TIME, 0u32, 0u32, 0u32]);
        }
        CloseAction::SendDeleteMessage {
            window: *win,
            message_type: atoms.wm_protocols,
            data,
        }
    } else {
        CloseAction::DestroyWindow { window: *win }
    }
}

/// A raw configure request: the geometry a client asks for, with `value_mask`
/// saying which fields the request actually carries.
#[derive(Clone, Copy, Debug, PartialEq, Eq, Structural)]
pub struct ConfigureRequest {
    pub window: Window,
    pub x: i16,
    pub y: i16,
    pub width: u16,
    pub height: u16,
    pub border_width: u16,
    pub sibling: u32,
    pub stack_mode: u8,
    pub value_mask: u16,
}

/// The configure values a request carries: of the seven candidate fields, in
/// protocol order, exactly those whose flag is set in the value mask.
pub open spec fn spec_configure_values(ev: ConfigureRequest) -> Seq<(u16, u32)> {
    let s = Seq::<(u16, u32)>::empty();
    let s = if ev.value_mask & CONFIG_WINDOW_X != 0 {
        s.push((CONFIG_WINDOW_X, ev.x as u32))
    } else {
        s
    };
    let s = if ev.value_mask & CONFIG_WINDOW_Y != 0 {
        s.push((CONFIG_WINDOW_Y, ev.y as u32))
    } else {
        s
    };
    let s = if ev.value_mask & CONFIG_WINDOW_WIDTH != 0 {
        s.push((CONFIG_WINDOW_WIDTH, ev.width as u32))
    } else {
        s
    };
    let s = if ev.value_mask & CONFIG_WINDOW_HEIGHT != 0 {
        s.push((CONFIG_WINDOW_HEIGHT, ev.height as u32))
    } else {
        s
    };
    let s = if ev.value_mask & CONFIG_WINDOW_BORDER_WIDTH != 0 {
        s.push((CONFIG_WINDOW_BORDER_WIDTH, ev.border_width as u32))
    } else {
        s
    };
    let s = if ev.value_mask & CONFIG_WINDOW_SIBLING != 0 {
        s.push((CONFIG_WINDOW_SIBLING, ev.sibling))
    } else {
        s
    };
    let s = if ev.value_mask & CONFIG_WINDOW_STACK_MODE != 0 {
        s.push((CONFIG_WINDOW_STACK_MODE, ev.stack_mode as u32))
    } else {
        s
    };
    s
}

/// The (flag, value) pairs of `ev` that its value mask declares present, in
/// protocol order. Geometry negotiation during the request phase is server
/// compliance: these values are applied as asked, and no abstract event is
/// raised for them.
pub fn configure_request_values(ev: &ConfigureRequest) -> (r: Vec<(u16, u32)>)
    ensures
        r@ == spec_configure_values(*ev),
{
    let mut r: Vec<(u16, u32)> = Vec::new();
    if ev.value_mask & CONFIG_WINDOW_X != 0 {
        r.push((CONFIG_WINDOW_X, #[verifier::truncate] (ev.x as u32)));
    }
    if ev.value_mask & CONFIG_WINDOW_Y != 0 {
        r.push((CONFIG_WINDOW_Y, #[verifier::truncate] (ev.y as u32)));
    }
    if ev.value_mask & CONFIG_WINDOW_WIDTH != 0 {
        r.push((CONFIG_WINDOW_WIDTH, ev.width as u32));
    }
    if ev.value_mask & CONFIG_WINDOW_HEIGHT != 0 {
        r.push((CONFIG_WINDOW_HEIGHT, ev.height as u32));
    }
    if ev.value_mask & CONFIG_WINDOW_BORDER_WIDTH != 0 {
        r.push((CONFIG_WINDOW_BORDER_WIDTH, ev.border_width as u32));
    }
    if ev.value_mask & CONFIG_WINDOW_SIBLING != 0 {
        r.push((CONFIG_WINDOW_SIBLING, ev.sibling));
    }
    if ev.value_mask & CONFIG_WINDOW_STACK_MODE != 0 {
        r.push((CONFIG_WINDOW_STACK_MODE, ev.stack_mode as u32));
    }
    proof {
        assert(r@ =~= spec_configure_values(*ev));
    }
    r
}

/// One asynchronous key grab to register on a window.
#[derive(Clone, Copy, Debug, PartialEq, Eq, Structural)]
pub struct GrabRequest {
    pub window: Window,
    pub mod_mask: u16,
    pub keycode: u8,
}

/// The grabs to register and the key symbols to skip, given each combo's
/// resolved device keycode (`None` when the server knows no keycode for it).
pub open spec fn spec_grab_plan(win: Window, combos: Seq<KeyCombo>, keycodes: Seq<Option<u8>>) -> (
    Seq<GrabRequest>,
    Seq<u32>,
)
    decreases combos.len(),
{
    if combos.len() == 0 {
        (Seq::<GrabRequest>::empty(), Seq::<u32>::empty())
    } else {
        let prefix = spec_grab_plan(win, combos.drop_last(), keycodes.drop_last());
        match keycodes.last() {
            Some(kc) => (
                prefix.0.push(
                    GrabRequest {
                        window: win,
                        mod_mask: combos.last().mod_mask as u16,
                        keycode: kc,
                    },
                ),
                prefix.1,
            ),
            None => (prefix.0, prefix.1.push(combos.last().keysym)),
        }
    }
}

/// Plans the key grabs for `win`: `keycodes[i]` is the device keycode
/// resolved for `combos[i]`'s key symbol. A combo without a keycode is
/// skipped, never fatal; its key symbol comes back in the second list so the
/// caller can report it.
pub fn grab_requests(win: &Window, combos: &Vec<KeyCombo>, keycodes: &Vec<Option<u8>>) -> (r: (
    Vec<GrabRequest>,
    Vec<u32>,
))
    requires
        combos@.len() == keycodes@.len(),
    ensures
        (r.0@, r.1@) == spec_grab_plan(*win, combos@, keycodes@),
{
    let mut grabs: Vec<GrabRequest> = Vec::new();
    let mut skipped: Vec<u32> = Vec::new();
    let mut i: usize = 0;
    while i < combos.len()
        invariant
            0 <= i <= combos@.len(),
            combos@.len() == keycodes@.len(),
            (grabs@, skipped@) == spec_grab_plan(
                *win,
                combos@.subrange(0, i as int),
                keycodes@.subrange(0, i as int),
            ),
        decreases combos@.len() - i,
    {
        proof {
            assert(combos@.subrange(0, i + 1).drop_last() =~= combos@.subrange(0, i as int));
            assert(keycodes@.subrange(0, i + 1).drop_last() =~= keycodes@.subrange(0, i as int));
            assert(combos@.subrange(0, i + 1).last() == combos@[i as int]);
            assert(keycodes@.subrange(0, i + 1).last() == keycodes@[i as int]);
        }
        match keycodes[i] {
            Some(keycode) => {
                grabs.push(
                    GrabRequest {
                        window: *win,
                        mod_mask: #[verifier::truncate] (combos[i].mod_mask as u16),
                        keycode,
                    },
                );
            },
            None => {
                skipped.push(combos[i].keysym);
            },
        }
        i = i + 1;
    }
    proof {
        assert(combos@.subrange(0, combos@.len() as int) =~= combos@);
        assert(keycodes@.subrange(0, keycodes@.len() as int) =~= keycodes@);
    }
    (grabs, skipped)
}

/// No grab is lost: every combo either gets a grab or is reported skipped.
pub proof fn lemma_grab_plan_complete(win: Window, combos: Seq<KeyCombo>, keycodes: Seq<Option<u8>>)
    requires
        combos.len() == keycodes.len(),
    ensures
        spec_grab_plan(win, combos, keycodes).0.len() + spec_grab_plan(win, combos, keycodes).1.len()
            == combos.len(),
    decreases combos.len(),
{
    if combos.len() > 0 {
        lemma_grab_plan_complete(win, combos.drop_last(), keycodes.drop_last());
    }
}

} // verus!
