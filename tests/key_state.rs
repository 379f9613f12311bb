use rq::engine::input::{KeyState, KEY_CODE_ARROW_LEFT, KEY_CODE_ARROW_UP};

#[test]
fn new_key_state_holds_nothing() {
    let k = KeyState::new();
    assert!(!k.is_pressed(KEY_CODE_ARROW_LEFT));
    assert!(!k.is_pressed(""));
}

#[test]
fn press_and_release() {
    let mut k = KeyState::new();
    k.set_pressed(KEY_CODE_ARROW_LEFT);
    k.set_pressed(KEY_CODE_ARROW_UP);
    assert!(k.is_pressed("ArrowLeft"));
    assert!(k.is_pressed("ArrowUp"));
    assert!(!k.is_pressed("ArrowDown"));
    k.set_released(KEY_CODE_ARROW_LEFT);
    assert!(!k.is_pressed("ArrowLeft"));
    assert!(k.is_pressed("ArrowUp"));
}

#[test]
fn repeated_press_needs_one_release() {
    let mut k = KeyState::new();
    k.set_pressed("KeyW");
    k.set_pressed("KeyW");
    k.set_released("KeyW");
    assert!(!k.is_pressed("KeyW"));
}

#[test]
fn releasing_an_unheld_key_changes_nothing() {
    let mut k = KeyState::new();
    k.set_pressed("KeyW");
    k.set_released("KeyS");
    assert!(k.is_pressed("KeyW"));
    assert!(!k.is_pressed("KeyS"));
}
