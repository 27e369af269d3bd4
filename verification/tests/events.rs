use voidwm::event::Event;
use voidwm::event::EventLoop;
use voidwm::event::RawEvent;
use voidwm::event::Reaction;
use voidwm::keys::KeyCombo;
use voidwm::x::ConfigureRequest;
use voidwm::x::Window;
use voidwm::x::CONFIG_WINDOW_HEIGHT;
use voidwm::x::CONFIG_WINDOW_STACK_MODE;
use voidwm::x::CONFIG_WINDOW_WIDTH;
use voidwm::x::CONFIG_WINDOW_X;

fn request(value_mask: u16) -> ConfigureRequest {
    ConfigureRequest {
        window: Window(5),
        x: -5,
        y: 20,
        width: 300,
        height: 200,
        border_width: 1,
        sibling: 77,
        stack_mode: 4,
        value_mask,
    }
}

#[test]
fn root_sourced_unmap_yields_no_event() {
    let el = EventLoop::new(Window(1));
    assert_eq!(el.on_unmap_notify(Window(5), Window(1)), None);
    let raw = RawEvent::UnmapNotify { window: Window(5), source: Window(1) };
    assert_eq!(el.translate(&raw), None);
    assert_eq!(el.react(&raw), Reaction::Ignore);
}

#[test]
fn client_unmap_forwards_the_window() {
    let el = EventLoop::new(Window(1));
    assert_eq!(el.on_unmap_notify(Window(5), Window(99)), Some(Event::UnmapNotify(Window(5))));
    let raw = RawEvent::UnmapNotify { window: Window(5), source: Window(99) };
    assert_eq!(el.translate(&raw), Some(Event::UnmapNotify(Window(5))));
    assert_eq!(el.react(&raw), Reaction::Forward(Event::UnmapNotify(Window(5))));
}

#[test]
fn lifecycle_events_translate_one_to_one() {
    let el = EventLoop::new(Window(1));
    assert_eq!(
        el.translate(&RawEvent::MapRequest { window: Window(7) }),
        Some(Event::MapRequest(Window(7)))
    );
    assert_eq!(
        el.translate(&RawEvent::DestroyNotify { window: Window(8) }),
        Some(Event::DestroyNotify(Window(8)))
    );
    assert_eq!(
        el.translate(&RawEvent::EnterNotify { source: Window(9) }),
        Some(Event::EnterNotify(Window(9)))
    );
    assert_eq!(
        el.translate(&RawEvent::KeyPress { mod_mask: 65, keysym: 0x63 }),
        Some(Event::KeyPress(KeyCombo { mod_mask: 65, keysym: 0x63 }))
    );
}

#[test]
fn unknown_raw_events_are_discarded() {
    let el = EventLoop::new(Window(1));
    assert_eq!(el.translate(&RawEvent::Unknown), None);
    assert_eq!(el.react(&RawEvent::Unknown), Reaction::Ignore);
}

#[test]
fn configure_request_keeps_only_masked_fields() {
    let el = EventLoop::new(Window(1));
    let ev = request(CONFIG_WINDOW_X | CONFIG_WINDOW_HEIGHT);
    let values = el.on_configure_request(&ev);
    assert_eq!(values, vec![(CONFIG_WINDOW_X, -5i16 as u32), (CONFIG_WINDOW_HEIGHT, 200)]);
    assert_eq!(el.translate(&RawEvent::ConfigureRequest(ev)), None);
}

#[test]
fn configure_request_with_full_mask_keeps_protocol_order() {
    let el = EventLoop::new(Window(1));
    let ev = request(0x7f);
    let values = el.on_configure_request(&ev);
    let flags: Vec<u16> = values.iter().map(|v| v.0).collect();
    assert_eq!(flags, vec![1, 2, 4, 8, 16, 32, 64]);
    assert_eq!(values[6], (CONFIG_WINDOW_STACK_MODE, 4));
}

#[test]
fn configure_request_is_serviced_not_forwarded() {
    let el = EventLoop::new(Window(1));
    let ev = request(CONFIG_WINDOW_WIDTH);
    match el.react(&RawEvent::ConfigureRequest(ev)) {
        Reaction::Configure { window, values } => {
            assert_eq!(window, Window(5));
            assert_eq!(values, vec![(CONFIG_WINDOW_WIDTH, 300)]);
        }
        other => panic!("expected a configure reaction, got {:?}", other),
    }
}
