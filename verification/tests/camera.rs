use voxel_engine::camera::{
    ButtonState, CameraAction, CameraEvent, Controller, Key, MouseButton, MoveDir,
};

#[test]
fn a_fresh_controller_is_not_orbiting() {
    let c = Controller::new();
    assert!(!c.rotating);
}

#[test]
fn left_press_enters_orbit_mode() {
    let mut c = Controller::new();
    let action = c.handle_event(&CameraEvent::MouseClick {
        state: ButtonState::Pressed,
        button: MouseButton::Left,
    });
    assert_eq!(action, None);
    assert!(c.rotating);
}

#[test]
fn left_release_leaves_orbit_mode() {
    let mut c = Controller::new();
    c.handle_event(&CameraEvent::MouseClick {
        state: ButtonState::Pressed,
        button: MouseButton::Left,
    });
    let action = c.handle_event(&CameraEvent::MouseClick {
        state: ButtonState::Released,
        button: MouseButton::Left,
    });
    assert_eq!(action, None);
    assert!(!c.rotating);
}

#[test]
fn right_press_does_not_orbit() {
    let mut c = Controller::new();
    c.handle_event(&CameraEvent::MouseClick {
        state: ButtonState::Pressed,
        button: MouseButton::Right,
    });
    assert!(!c.rotating);
    c.handle_event(&CameraEvent::MouseClick {
        state: ButtonState::Pressed,
        button: MouseButton::Middle,
    });
    assert!(!c.rotating);
}

#[test]
fn drag_rotates_only_while_orbiting() {
    let mut c = Controller::new();
    assert_eq!(c.handle_event(&CameraEvent::MouseMotion), None);

    c.handle_event(&CameraEvent::MouseClick {
        state: ButtonState::Pressed,
        button: MouseButton::Left,
    });
    assert_eq!(
        c.handle_event(&CameraEvent::MouseMotion),
        Some(CameraAction::Rotate)
    );

    c.handle_event(&CameraEvent::MouseClick {
        state: ButtonState::Released,
        button: MouseButton::Left,
    });
    assert_eq!(c.handle_event(&CameraEvent::MouseMotion), None);
}

#[test]
fn the_wheel_always_zooms() {
    let mut c = Controller::new();
    assert_eq!(
        c.handle_event(&CameraEvent::MouseWheel),
        Some(CameraAction::Zoom)
    );
    c.handle_event(&CameraEvent::MouseClick {
        state: ButtonState::Pressed,
        button: MouseButton::Left,
    });
    assert_eq!(
        c.handle_event(&CameraEvent::MouseWheel),
        Some(CameraAction::Zoom)
    );
}

#[test]
fn each_key_press_translates_along_its_axis() {
    let mut c = Controller::new();
    let cases = [
        (Key::W, MoveDir::Forward),
        (Key::S, MoveDir::Back),
        (Key::A, MoveDir::Left),
        (Key::D, MoveDir::Right),
        (Key::LShift, MoveDir::Up),
        (Key::LControl, MoveDir::Down),
    ];
    for (key, dir) in cases {
        let action = c.handle_event(&CameraEvent::Key {
            state: ButtonState::Pressed,
            kind: key,
        });
        assert_eq!(action, Some(CameraAction::Translate(dir)));
        assert!(!c.rotating);
    }
}

#[test]
fn unrecognized_keys_and_releases_do_nothing() {
    let mut c = Controller::new();
    assert_eq!(
        c.handle_event(&CameraEvent::Key {
            state: ButtonState::Pressed,
            kind: Key::Other,
        }),
        None
    );
    assert_eq!(
        c.handle_event(&CameraEvent::Key {
            state: ButtonState::Released,
            kind: Key::W,
        }),
        None
    );
}
