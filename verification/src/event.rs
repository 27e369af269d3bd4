//! The event translator: turns the server's raw event stream into the closed
//! `Event` set the dispatcher consumes. Configure requests are serviced
//! directly and yield no event; unmap notifications sourced at the root
//! window are synthetic and are suppressed; unknown raw events are silently
//! discarded.

use vstd::prelude::*;

use crate::keys::KeyCombo;
use crate::x::ConfigureRequest;
use crate::x::Window;
use crate::x::configure_request_values;
use crate::x::spec_configure_values;

verus! {

/// The abstract events the dispatcher sees.
#[derive(Clone, Copy, Debug, PartialEq, Eq, Structural)]
pub enum Event {
    /// A client asks to have a window mapped.
    MapRequest(Window),
    /// A window was unmapped by its client.
    UnmapNotify(Window),
    /// A window is gone.
    DestroyNotify(Window),
    /// A grabbed key combination was pressed.
    KeyPress(KeyCombo),
    /// The pointer entered a window.
    EnterNotify(Window),
}

/// A raw protocol event, reduced to the fields the translator reads. The key
/// press carries the key symbol the caller resolved from the reported
/// keycode; the unmap notification carries the window the event was reported
/// against (`source`) beside the unmapped window itself.
#[derive(Clone, Copy, Debug, PartialEq, Eq, Structural)]
pub enum RawEvent {
    ConfigureRequest(ConfigureRequest),
    MapRequest { window: Window },
    UnmapNotify { window: Window, source: Window },
    DestroyNotify { window: Window },
    KeyPress { mod_mask: u32, keysym: u32 },
    EnterNotify { source: Window },
    Unknown,
}

/// What the event loop does with one raw event: service a configure request
/// with the given values, hand an abstract event to the dispatcher, or drop
/// the raw event.
#[derive(Clone, Debug, PartialEq, Eq)]
pub enum Reaction {
    Configure { window: Window, values: Vec<(u16, u32)> },
    Forward(Event),
    Ignore,
}

/// The abstract event a raw event translates to, if any: configure requests
/// and unknown events yield none, a root-sourced unmap notification is
/// suppressed, and the rest map one to one.
pub open spec fn spec_translate(root: Window, raw: RawEvent) -> Option<Event> {
    match raw {
        RawEvent::ConfigureRequest(_) => None,
        RawEvent::MapRequest { window } => Some(Event::MapRequest(window)),
        RawEvent::UnmapNotify { window, source } => if source == root {
            None
        } else {
            Some(Event::UnmapNotify(window))
        },
        RawEvent::DestroyNotify { window } => Some(Event::DestroyNotify(window)),
        RawEvent::KeyPress { mod_mask, keysym } => Some(
            Event::KeyPress(KeyCombo { mod_mask, keysym }),
        ),
        RawEvent::EnterNotify { source } => Some(Event::EnterNotify(source)),
        RawEvent::Unknown => None,
    }
}

/// The translator; it needs to know the root window to tell synthetic unmap
/// notifications from real ones.
pub struct EventLoop {
    root: Window,
}

impl EventLoop {
    /// The root window the translator filters against.
    pub closed spec fn root_window(self) -> Window {
        self.root
    }

    /// A translator for the screen whose root window is `root`.
    pub fn new(root: Window) -> (r: EventLoop)
        ensures
            r.root_window() == root,
    {
        EventLoop { root }
    }

    /// Services a configure request: the values to apply, exactly the fields
    /// the request's value mask declares present. No event is yielded for a
    /// configure request — geometry negotiation during the request phase is
    /// server compliance, not manager policy.
    pub fn on_configure_request(&self, ev: &ConfigureRequest) -> (r: Vec<(u16, u32)>)
        ensures
            r@ == spec_configure_values(*ev),
            spec_translate(self.root_window(), RawEvent::ConfigureRequest(*ev)) is None,
    {
        configure_request_values(ev)
    }

    /// A map request translates one to one.
    pub fn on_map_request(&self, window: Window) -> (r: Option<Event>)
        ensures
            r == Some(Event::MapRequest(window)),
    {
        Some(Event::MapRequest(window))
    }

    /// An unmap notification translates one to one — unless it is reported
    /// against the root window, a synthetic unmap from a root-level
    /// operation, which must not be treated as a real client unmap.
    pub fn on_unmap_notify(&self, window: Window, source: Window) -> (r: Option<Event>)
        ensures
            source == self.root_window() ==> r is None,
            source != self.root_window() ==> r == Some(Event::UnmapNotify(window)),
    {
        if source.get() != self.root.get() {
            Some(Event::UnmapNotify(window))
        } else {
            None
        }
    }

    /// A destroy notification translates one to one.
    pub fn on_destroy_notify(&self, window: Window) -> (r: Option<Event>)
        ensures
            r == Some(Event::DestroyNotify(window)),
    {
        Some(Event::DestroyNotify(window))
    }

    /// A key press pairs the resolved key symbol with the reported modifier
    /// state.
    pub fn on_key_press(&self, mod_mask: u32, keysym: u32) -> (r: Option<Event>)
        ensures
            r == Some(Event::KeyPress(KeyCombo { mod_mask, keysym })),
    {
        Some(Event::KeyPress(KeyCombo { mod_mask, keysym }))
    }

    /// A pointer entry translates one to one, carrying the entered window.
    pub fn on_enter_notify(&self, source: Window) -> (r: Option<Event>)
        ensures
            r == Some(Event::EnterNotify(source)),
    {
        Some(Event::EnterNotify(source))
    }

    /// Translates one raw event into the abstract event it forwards, if any.
    pub fn translate(&self, raw: &RawEvent) -> (r: Option<Event>)
        ensures
            r == spec_translate(self.root_window(), *raw),
    {
        match raw {
            RawEvent::ConfigureRequest(_) => None,
            RawEvent::MapRequest { window } => self.on_map_request(*window),
            RawEvent::UnmapNotify { window, source } => self.on_unmap_notify(*window, *source),
            RawEvent::DestroyNotify { window } => self.on_destroy_notify(*window),
            RawEvent::KeyPress { mod_mask, keysym } => self.on_key_press(*mod_mask, *keysym),
            RawEvent::EnterNotify { source } => self.on_enter_notify(*source),
            RawEvent::Unknown => None,
        }
    }

    /// Decides one loop iteration: a configure request is serviced in place
    /// with exactly the requested values, a translatable event is forwarded,
    /// and everything else is dropped.
    pub fn react(&self, raw: &RawEvent) -> (r: Reaction)
        ensures
            *raw matches RawEvent::ConfigureRequest(ev) ==> (r matches Reaction::Configure {
                window,
                values,
            } && window == ev.window && values@ == spec_configure_values(ev)),
            !(*raw is ConfigureRequest) ==> match spec_translate(self.root_window(), *raw) {
                Some(e) => r == Reaction::Forward(e),
                None => r == Reaction::Ignore,
            },
    {
        match raw {
            RawEvent::ConfigureRequest(ev) => Reaction::Configure {
                window: ev.window,
                values: self.on_configure_request(ev),
            },
            _ => match self.translate(raw) {
                Some(e) => Reaction::Forward(e),
                None => Reaction::Ignore,
            },
        }
    }
}

} // verus!
