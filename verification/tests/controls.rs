use af::controls::{control_for_key, Action, Control, ControlId, Controls, InputEvent, Key};

#[test]
fn edge_triggers_fire_only_on_transitions() {
    // Levels over four frames: up, down, down, up.
    let levels = [false, true, true, false];
    let mut control = Control { last_frame: false, this_frame: false };
    let mut just_down = Vec::new();
    let mut just_up = Vec::new();
    for level in levels {
        control.advance();
        control.set_level(level);
        just_down.push(control.just_down());
        just_up.push(control.just_up());
    }
    assert_eq!(just_down, vec![false, true, false, false]);
    assert_eq!(just_up, vec![false, false, false, true]);
}

#[test]
fn events_set_levels_and_report_close_and_resize() {
    let mut controls = Controls::new();
    controls.advance();
    let events = vec![
        InputEvent::Key { key: Key::A, action: Action::Press },
        InputEvent::Key { key: Key::Other, action: Action::Press },
        InputEvent::Size { width: 640, height: 480 },
        InputEvent::Key { key: Key::Up, action: Action::Press },
        InputEvent::Key { key: Key::Up, action: Action::Release },
        InputEvent::Size { width: 800, height: 600 },
        InputEvent::Key { key: Key::B, action: Action::Repeat },
        InputEvent::Key { key: Key::Escape, action: Action::Press },
    ];
    let input = controls.handle_events(&events);
    assert!(controls.left.down());
    assert!(controls.left.just_down());
    assert!(controls.up.up());
    assert!(!controls.debug.down());
    assert!(input.close_requested);
    assert_eq!(input.resized, Some((800, 600)));
}

#[test]
fn the_controls_can_be_walked_and_changed() {
    let mut controls = Controls::new();
    controls.up.this_frame = true;
    controls.debug.this_frame = true;
    for control in controls.iter_mut() {
        control.last_frame = control.this_frame;
    }
    assert!(controls.up.last_frame && controls.debug.last_frame);
    assert!(!controls.down.last_frame && !controls.left.last_frame && !controls.right.last_frame);
    let mut same = Controls::new();
    same.up.this_frame = true;
    same.debug.this_frame = true;
    same.advance();
    assert_eq!(controls, same);
    let order: Vec<bool> = {
        let mut c = Controls::new();
        c.left.this_frame = true;
        c.iter_mut().iter().map(|control| control.this_frame).collect()
    };
    assert_eq!(order, vec![false, false, true, false, false]);
}

#[test]
fn keys_are_bound_to_controls() {
    let bound = [
        (Key::W, Some(ControlId::Up)),
        (Key::Up, Some(ControlId::Up)),
        (Key::S, Some(ControlId::Down)),
        (Key::Down, Some(ControlId::Down)),
        (Key::A, Some(ControlId::Left)),
        (Key::Left, Some(ControlId::Left)),
        (Key::D, Some(ControlId::Right)),
        (Key::Right, Some(ControlId::Right)),
        (Key::B, Some(ControlId::Debug)),
        (Key::Escape, None),
        (Key::Other, None),
    ];
    for (key, id) in bound {
        assert_eq!(control_for_key(key), id);
    }
    let mut controls = Controls::new();
    controls.set(ControlId::Right, Control { last_frame: true, this_frame: false });
    assert!(controls.get(ControlId::Right).just_up());
    assert!(controls.right.just_up());
    controls.handle_event(InputEvent::Key { key: Key::D, action: Action::Press });
    assert!(controls.right.down() && !controls.right.just_down());
    controls.handle_event(InputEvent::Key { key: Key::D, action: Action::Repeat });
    assert!(controls.right.down());
    controls.handle_event(InputEvent::Size { width: 1, height: 1 });
    controls.handle_event(InputEvent::Key { key: Key::Right, action: Action::Release });
    assert!(controls.right.up());
}
