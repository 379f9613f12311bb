use rq::engine::input::{KeyState, KEY_CODE_ARROW_LEFT, KEY_CODE_ARROW_UP};
use rq::engine::sprite_sheet::{Cell, Sheet, SheetRect, SpriteSheet};
use rq::engine::{DrawCommand, EngineError, Point, Rect};
use rq::game::actor::{Actor, ActorStateContext, ActorStateMachine};
use rq::object::player::Direction;

fn sheet_without(missing: &str) -> SpriteSheet {
    let mut sheet = Sheet::new();
    for (row, token) in ["down", "left", "right", "up"].iter().enumerate() {
        for pose in 1..4i16 {
            let name = format!("{}0{}.png", token, pose);
            if name != missing {
                sheet.insert(
                    &name,
                    Cell { frame: SheetRect { x: (pose - 1) * 32, y: row as i16 * 32, w: 32, h: 32 } },
                );
            }
        }
    }
    SpriteSheet { name: "actor".to_string(), sheet: Some(sheet) }
}

fn held(code: &str) -> KeyState {
    let mut k = KeyState::new();
    k.set_pressed(code);
    k
}

#[test]
fn new_actor_has_no_state() {
    assert!(Actor::new().state_machine.is_none());
}

#[test]
fn actor_starts_idle_and_draws_rest_pose() {
    let m = ActorStateMachine::new(ActorStateContext::new(sheet_without("")));
    assert!(!m.is_moving());
    assert_eq!(m.context().position(), Point { x: 0, y: 0 });
    assert_eq!(
        m.draw(),
        Ok(DrawCommand::Image {
            image: "actor".to_string(),
            source: Rect { x: 32, y: 0, w: 32, h: 32 },
            destination: Rect { x: 0, y: 0, w: 32, h: 32 },
        })
    );
}

#[test]
fn actor_turns_then_walks_a_tile() {
    let left = held(KEY_CODE_ARROW_LEFT);
    let mut m = ActorStateMachine::new(ActorStateContext::new(sheet_without("")));
    m = m.update(&left);
    assert_eq!(m.context().direction(), Direction::Left);
    assert!(!m.is_moving());
    for tick in 1..=8 {
        m = m.update(&left);
        assert_eq!(m.context().position(), Point { x: -4 * tick, y: 0 });
        assert_eq!(m.is_moving(), tick != 8);
    }
    assert_eq!(m.context().frame(), 8);
    assert_eq!(m.context().frame_name(), "left02.png");
}

#[test]
fn actor_draw_reports_missing_frame() {
    let up = held(KEY_CODE_ARROW_UP);
    let mut m = ActorStateMachine::new(ActorStateContext::new(sheet_without("up03.png")));
    m = m.update(&up).update(&up);
    for _ in 0..3 {
        m = m.update(&up);
    }
    assert_eq!(m.context().frame(), 4);
    assert_eq!(m.draw(), Err(EngineError::FrameNotFound("up03.png".to_string())));
    assert_eq!(m.context().position(), Point { x: 0, y: -16 });
}
