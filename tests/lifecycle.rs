use wgpu_lifecycle::{Effects, Event, Extent, Key, KeyState, Lifecycle, Phase};

fn ready() -> Lifecycle {
    let mut app = Lifecycle::new();
    app.handle(Event::Resumed);
    app
}

#[test]
fn starts_loading() {
    let app = Lifecycle::new();
    assert_eq!(app.phase(), Phase::Loading);
    assert!(!app.is_ready());
}

#[test]
fn first_resume_sets_up_renders_and_shows() {
    let mut app = Lifecycle::new();
    let e = app.handle(Event::Resumed);
    assert!(e.set_up && e.render && e.show_window);
    assert_eq!(e.reconfigure, None);
    assert!(!e.exit && !e.request_redraw);
    assert_eq!(app.phase(), Phase::Ready { pending_resize: false });
    assert!(app.is_ready());
}

#[test]
fn second_resume_is_a_no_op() {
    let mut once = Lifecycle::new();
    once.handle(Event::Resumed);
    let mut twice = Lifecycle::new();
    twice.handle(Event::Resumed);
    let e = twice.handle(Event::Resumed);
    assert_eq!(twice.phase(), once.phase());
    assert!(!e.set_up && !e.render && !e.show_window && !e.exit);
}

#[test]
fn events_before_ready_are_ignored() {
    let mut app = Lifecycle::new();
    for event in [
        Event::RedrawRequested { width: 10, height: 10 },
        Event::Resized { width: 10, height: 10 },
        Event::Keyboard { key: Key::Escape, state: KeyState::Pressed },
        Event::Other,
    ] {
        let e = app.handle(event);
        assert_eq!(e, Effects {
            set_up: false,
            reconfigure: None,
            render: false,
            show_window: false,
            request_redraw: false,
            exit: false,
        });
        assert_eq!(app.phase(), Phase::Loading);
    }
}

#[test]
fn redraw_without_resize_renders_and_asks_again() {
    let mut app = ready();
    let e = app.handle(Event::RedrawRequested { width: 800, height: 600 });
    assert_eq!(e.reconfigure, None);
    assert!(e.render && e.request_redraw && !e.exit);
}

#[test]
fn resize_is_deferred_to_redraw() {
    let mut app = ready();
    let e = app.handle(Event::Resized { width: 640, height: 480 });
    assert!(e.request_redraw && !e.render);
    assert_eq!(e.reconfigure, None);
    assert_eq!(app.phase(), Phase::Ready { pending_resize: true });
}

#[test]
fn resizes_coalesce_into_one_reconfigure() {
    let mut app = ready();
    let mut reconfigures = Vec::new();
    for (w, h) in [(100u32, 100u32), (200, 150), (0, 0), (300, 250)] {
        let e = app.handle(Event::Resized { width: w, height: h });
        if let Some(size) = e.reconfigure {
            reconfigures.push(size);
        }
    }
    let e = app.handle(Event::RedrawRequested { width: 1024, height: 0 });
    if let Some(size) = e.reconfigure {
        reconfigures.push(size);
    }
    assert_eq!(reconfigures, vec![Extent { width: 1024, height: 1 }]);
    let e = app.handle(Event::RedrawRequested { width: 1024, height: 0 });
    assert_eq!(e.reconfigure, None);
}

#[test]
fn escape_press_exits_when_ready() {
    let mut app = ready();
    assert!(app.handle(Event::Keyboard { key: Key::Escape, state: KeyState::Pressed }).exit);
}

#[test]
fn other_key_events_do_not_exit() {
    let mut app = ready();
    assert!(!app.handle(Event::Keyboard { key: Key::Escape, state: KeyState::Released }).exit);
    assert!(!app.handle(Event::Keyboard { key: Key::Other, state: KeyState::Pressed }).exit);
    assert!(!app.handle(Event::Keyboard { key: Key::Other, state: KeyState::Released }).exit);
    let mut loading = Lifecycle::new();
    assert!(!loading.handle(Event::Keyboard { key: Key::Escape, state: KeyState::Pressed }).exit);
    assert!(!loading.handle(Event::Keyboard { key: Key::Other, state: KeyState::Pressed }).exit);
}

#[test]
fn close_request_exits_while_loading() {
    let mut app = Lifecycle::new();
    let e = app.handle(Event::CloseRequested);
    assert!(e.exit);
    assert!(!e.set_up && !e.render && !e.show_window && !e.request_redraw);
    assert_eq!(app.phase(), Phase::Loading);
}

#[test]
fn close_request_exits_when_ready() {
    let mut app = ready();
    let e = app.handle(Event::CloseRequested);
    assert!(e.exit);
    assert!(!e.render && !e.request_redraw);
}

#[test]
fn other_events_do_nothing_when_ready() {
    let mut app = ready();
    let before = app.phase();
    let e = app.handle(Event::Other);
    assert!(!e.exit && !e.render && !e.request_redraw && e.reconfigure.is_none());
    assert_eq!(app.phase(), before);
}
