use rq::engine::asset_loader::{data_url_of_encoded, image_data_url};
use rq::engine::sprite_sheet::{Cell, Sheet, SheetRect, SpriteSheet, SpriteSheetStore};
use rq::engine::{DrawCommand, EngineError, Point, Rect};

fn cell(x: i16, y: i16, w: i16, h: i16) -> Cell {
    Cell { frame: SheetRect { x, y, w, h } }
}

#[test]
fn sheet_lookup() {
    let mut sheet = Sheet::new();
    assert_eq!(sheet.get("down02.png"), None);
    sheet.insert("down02.png", cell(32, 0, 32, 32));
    sheet.insert("down01.png", cell(0, 0, 32, 32));
    assert_eq!(sheet.get("down02.png"), Some(cell(32, 0, 32, 32)));
    assert_eq!(sheet.get("down01.png"), Some(cell(0, 0, 32, 32)));
    assert_eq!(sheet.get("down03.png"), None);
}

#[test]
fn later_insert_replaces_frame() {
    let mut sheet = Sheet::new();
    sheet.insert("a", cell(1, 2, 3, 4));
    sheet.insert("a", cell(5, 6, 7, 8));
    assert_eq!(sheet.get("a"), Some(cell(5, 6, 7, 8)));
}

#[test]
fn draw_sprite_uses_frame_size_at_destination() {
    let mut sheet = Sheet::new();
    sheet.insert("up01.png", cell(0, 96, 30, 20));
    let sprite_sheet = SpriteSheet { name: "hero".to_string(), sheet: Some(sheet) };
    let drawn = sprite_sheet.draw_sprite("up01.png", &Point { x: -8, y: 40 }).unwrap();
    assert_eq!(
        drawn,
        DrawCommand::Image {
            image: "hero".to_string(),
            source: Rect { x: 0, y: 96, w: 30, h: 20 },
            destination: Rect { x: -8, y: 40, w: 30, h: 20 },
        }
    );
    assert_eq!(
        sprite_sheet.draw_sprite("up02.png", &Point { x: 0, y: 0 }),
        Err(EngineError::FrameNotFound("up02.png".to_string()))
    );
}

#[test]
fn draw_sprite_without_sheet_fails() {
    let sprite_sheet = SpriteSheet { name: "hero".to_string(), sheet: None };
    assert_eq!(
        sprite_sheet.draw_sprite("up01.png", &Point { x: 0, y: 0 }),
        Err(EngineError::FrameNotFound("up01.png".to_string()))
    );
}

#[test]
fn store_add_and_get() {
    let mut store = SpriteSheetStore::new();
    assert_eq!(
        store.get("hero").err(),
        Some(EngineError::SheetNotFound("hero".to_string()))
    );
    assert_eq!(store.add(SpriteSheet { name: "hero".to_string(), sheet: None }), Ok(()));
    assert_eq!(store.get("hero").unwrap().name, "hero");
    assert!(store.get("hero").unwrap().sheet.is_none());
}

#[test]
fn store_add_duplicate_replaces_and_reports() {
    let mut store = SpriteSheetStore::new();
    store.add(SpriteSheet { name: "hero".to_string(), sheet: None }).unwrap();
    let mut sheet = Sheet::new();
    sheet.insert("a", cell(1, 1, 1, 1));
    assert_eq!(
        store.add(SpriteSheet { name: "hero".to_string(), sheet: Some(sheet) }),
        Err(EngineError::DuplicateSheet("hero".to_string()))
    );
    assert_eq!(store.get("hero").unwrap().sheet.as_ref().unwrap().get("a"), Some(cell(1, 1, 1, 1)));
}

#[test]
fn data_url_from_bytes() {
    assert_eq!(image_data_url("png", &[1, 2, 3]), "data:image/png;base64,AQID");
    assert_eq!(image_data_url("png", b"hi"), "data:image/png;base64,aGk=");
    assert_eq!(image_data_url("gif", &[]), "data:image/gif;base64,");
}

#[test]
fn data_url_from_encoded_text() {
    assert_eq!(data_url_of_encoded("png", "AQID"), "data:image/png;base64,AQID");
}
