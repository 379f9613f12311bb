use rq::engine::input::{KeyState, KEY_CODE_ARROW_DOWN};
use rq::engine::sprite_sheet::{Cell, Sheet, SheetRect, SpriteSheet, SpriteSheetStore};
use rq::engine::{DrawCommand, GameLoop, Point, Rect, FRAME_SIZE, TIME_UNITS_PER_MS};
use rq::game::{load_sprite_sheet_store, RQ, SPRITE_SHEET_NAME};

fn sheet() -> SpriteSheet {
    let mut sheet = Sheet::new();
    for (row, token) in ["down", "left", "right", "up"].iter().enumerate() {
        for pose in 1..4i16 {
            sheet.insert(
                &format!("{}0{}.png", token, pose),
                Cell { frame: SheetRect { x: (pose - 1) * 32, y: row as i16 * 32, w: 32, h: 32 } },
            );
        }
    }
    SpriteSheet { name: SPRITE_SHEET_NAME.to_string(), sheet: Some(sheet) }
}

fn game() -> RQ {
    RQ::initialize(load_sprite_sheet_store(sheet()).unwrap())
}

fn position(game: &RQ) -> Point {
    game.player.state_machine.as_ref().unwrap().context().position()
}

#[test]
fn frame_size_is_a_sixtieth_of_a_second() {
    assert_eq!(FRAME_SIZE * 60, 1000 * TIME_UNITS_PER_MS);
}

#[test]
fn small_deltas_run_no_tick_but_draw_each_refresh() {
    let mut game_loop = GameLoop::new(0);
    let mut game = game();
    let held = {
        let mut k = KeyState::new();
        k.set_pressed(KEY_CODE_ARROW_DOWN);
        k
    };
    for now in [100u64, 350, 600, 999] {
        let drawn = game_loop.refresh(now, &mut game, &held).unwrap();
        assert_eq!(drawn.len(), 2);
        assert_eq!(drawn[0], DrawCommand::Clear(Rect { x: 0, y: 0, w: 480, h: 480 }));
        assert_eq!(position(&game), Point { x: 0, y: 0 });
        assert_eq!(game_loop.accumulated_delta(), now);
        assert_eq!(game_loop.last_frame(), now);
    }
}

#[test]
fn small_deltas_accumulate_into_a_tick() {
    let mut game_loop = GameLoop::new(0);
    assert_eq!(game_loop.advance(600), 0);
    assert_eq!(game_loop.advance(1200), 1);
    assert_eq!(game_loop.accumulated_delta(), 200);
}

#[test]
fn large_delta_catches_up_whole_ticks() {
    let mut game_loop = GameLoop::new(5_000);
    assert_eq!(game_loop.advance(5_000 + 3 * FRAME_SIZE + 250), 3);
    assert_eq!(game_loop.accumulated_delta(), 250);
    assert_eq!(game_loop.last_frame(), 5_000 + 3 * FRAME_SIZE + 250);
}

#[test]
fn exact_multiple_holds_back_one_tick() {
    let mut game_loop = GameLoop::new(0);
    assert_eq!(game_loop.advance(4 * FRAME_SIZE), 3);
    assert_eq!(game_loop.accumulated_delta(), FRAME_SIZE);
    assert_eq!(game_loop.advance(4 * FRAME_SIZE + 1), 1);
    assert_eq!(game_loop.accumulated_delta(), 1);
}

#[test]
fn one_tick_of_time_runs_nothing() {
    let mut game_loop = GameLoop::new(10);
    assert_eq!(game_loop.advance(10 + FRAME_SIZE), 0);
    assert_eq!(game_loop.advance(10 + FRAME_SIZE + 1), 1);
}

#[test]
fn refresh_runs_catch_up_ticks_before_one_draw() {
    let mut game_loop = GameLoop::new(0);
    let mut game = game();
    let mut held = KeyState::new();
    held.set_pressed(KEY_CODE_ARROW_DOWN);
    let drawn = game_loop.refresh(5 * FRAME_SIZE + 1, &mut game, &held).unwrap();
    assert_eq!(position(&game), Point { x: 0, y: 20 });
    assert_eq!(
        drawn,
        vec![
            DrawCommand::Clear(Rect { x: 0, y: 0, w: 480, h: 480 }),
            DrawCommand::Image {
                image: "Sprite-0001".to_string(),
                source: Rect { x: 64, y: 0, w: 32, h: 32 },
                destination: Rect { x: 0, y: 20, w: 32, h: 32 },
            },
        ]
    );
}

#[test]
fn game_without_player_only_clears() {
    let mut game_loop = GameLoop::new(0);
    let mut game = RQ::new();
    let drawn = game_loop.refresh(3 * FRAME_SIZE, &mut game, &KeyState::new()).unwrap();
    assert_eq!(drawn, vec![DrawCommand::Clear(Rect { x: 0, y: 0, w: 480, h: 480 })]);
    assert!(game.player.state_machine.is_none());
}

#[test]
fn refresh_reports_missing_sheet() {
    let mut game_loop = GameLoop::new(0);
    let mut game = RQ::initialize(SpriteSheetStore::new());
    let r = game_loop.refresh(FRAME_SIZE + 1, &mut game, &KeyState::new());
    assert_eq!(r, Err(rq::engine::EngineError::SheetNotFound("Sprite-0001".to_string())));
}
