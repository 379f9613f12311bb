use rq::engine::input::{KeyState, KEY_CODE_ARROW_DOWN, KEY_CODE_ARROW_RIGHT, KEY_CODE_ARROW_UP};
use rq::engine::{DrawCommand, Game, GameLoop, Rect, FRAME_SIZE};
use rq::object::player::{Direction, Player};
use rq::scene::map_scene::MapScene;
use rq::scene::{Scene, SceneEnum, SceneManager};
use rq::sprite::player_sprite::PlayerSprite;
use rq::sprite::Sprite;

fn held(code: &str) -> KeyState {
    let mut k = KeyState::new();
    k.set_pressed(code);
    k
}

#[test]
fn new_player_faces_down_at_origin() {
    let p = Player::new(3, 4, 7, 4);
    assert_eq!((p.x, p.y, p.map_id, p.move_speed), (3, 4, 7, 4));
    assert_eq!((p.pixel_x, p.pixel_y, p.frame), (0, 0, 0));
    assert_eq!(p.direction, Direction::Down);
    assert_eq!((p.next_x, p.next_y, p.next_map_id), (None, None, None));
}

#[test]
fn map_player_walks_one_tile() {
    let mut p = Player::new(0, 0, 0, 4);
    let down = held(KEY_CODE_ARROW_DOWN);
    assert_eq!(p.update(&down), Ok(()));
    assert_eq!((p.pixel_x, p.pixel_y, p.frame), (0, 4, 1));
    let none = KeyState::new();
    for _ in 0..7 {
        p.update(&none).unwrap();
    }
    assert_eq!((p.pixel_x, p.pixel_y, p.frame), (0, 32, 8));
    p.update(&none).unwrap();
    assert_eq!((p.pixel_x, p.pixel_y, p.frame), (0, 32, 0));
}

#[test]
fn map_player_turns_then_walks() {
    let mut p = Player::new(0, 0, 0, 8);
    let right = held(KEY_CODE_ARROW_RIGHT);
    p.update(&right).unwrap();
    assert_eq!(p.direction, Direction::Right);
    assert_eq!((p.pixel_x, p.pixel_y), (0, 0));
    p.update(&right).unwrap();
    assert_eq!((p.pixel_x, p.pixel_y, p.frame), (8, 0, 1));
}

#[test]
fn sprite_rows_and_columns() {
    let mut p = Player::new(0, 0, 0, 4);
    p.pixel_x = 64;
    p.pixel_y = -32;
    let s = PlayerSprite::from(&p);
    assert_eq!(s.source_image(), "Sprite-0001");
    assert_eq!(s.frame(), Rect { x: 32, y: 0, w: 32, h: 32 });
    assert_eq!(s.destination(), Rect { x: 64, y: -32, w: 32, h: 32 });
    p.direction = Direction::Left;
    p.frame = 5;
    assert_eq!(PlayerSprite::from(&p).frame(), Rect { x: 0, y: 32, w: 32, h: 32 });
    p.direction = Direction::Right;
    p.frame = 9;
    assert_eq!(PlayerSprite::from(&p).frame(), Rect { x: 32, y: 64, w: 32, h: 32 });
    p.direction = Direction::Up;
    p.frame = 15;
    assert_eq!(PlayerSprite::from(&p).frame(), Rect { x: 64, y: 96, w: 32, h: 32 });
}

#[test]
fn map_scene_draws_player_sprite() {
    let scene = MapScene { player: Player::new(0, 0, 0, 4) };
    assert_eq!(
        scene.draw(),
        Ok(DrawCommand::Image {
            image: "Sprite-0001".to_string(),
            source: Rect { x: 32, y: 0, w: 32, h: 32 },
            destination: Rect { x: 0, y: 0, w: 32, h: 32 },
        })
    );
}

#[test]
fn scene_manager_runs_map_scene() {
    let mut manager = SceneManager::new();
    let mut game_loop = GameLoop::new(0);
    let drawn = game_loop.refresh(2 * FRAME_SIZE + 1, &mut manager, &held(KEY_CODE_ARROW_UP)).unwrap();
    let SceneEnum::MapScene(scene) = &manager.current_scene;
    assert_eq!(scene.player.direction, Direction::Up);
    assert_eq!((scene.player.pixel_x, scene.player.pixel_y), (0, -4));
    assert_eq!(drawn[0], DrawCommand::Clear(Rect { x: 0, y: 0, w: 480, h: 480 }));
    assert_eq!(
        drawn[1],
        DrawCommand::Image {
            image: "Sprite-0001".to_string(),
            source: Rect { x: 32, y: 96, w: 32, h: 32 },
            destination: Rect { x: 0, y: -4, w: 32, h: 32 },
        }
    );
    assert_eq!(manager.update(&KeyState::new()), Ok(()));
}
