use rustarok_client::asset_db::{AssetDatabase, TextureId};

#[test]
fn replace_non_ascii() {
    assert_eq!(AssetDatabase::<u8, u8>::replace_non_ascii_chars("abc\\def.bmp"), "abc\\def.bmp");
    // U+00C0 - 0x7F = 0x41 ('A'), U+00FF - 0x7F = 0x80
    assert_eq!(AssetDatabase::<u8, u8>::replace_non_ascii_chars("\u{C0}x"), "Ax");
    assert_eq!(AssetDatabase::<u8, u8>::replace_non_ascii_chars("\u{FF}"), "\u{80}");
    // U+AC00 - 0x7F = 0xAB81, low byte 0x81
    assert_eq!(AssetDatabase::<u8, u8>::replace_non_ascii_chars("\u{AC00}"), "\u{81}");
}

#[test]
fn textures_are_found_by_name() {
    let mut db: AssetDatabase<&str, &str> = AssetDatabase::new();
    let a = db.register_texture("data\\a.bmp", "tex-a");
    let b = db.register_texture("data\\\u{C0}.bmp", "tex-b");
    assert_eq!(a, TextureId(0));
    assert_eq!(b, TextureId(1));
    assert_eq!(db.get_texture_id("data\\a.bmp"), Some(TextureId(0)));
    assert_eq!(db.get_texture_id("data\\A.bmp"), Some(TextureId(1)));
    assert_eq!(db.get_texture_id("missing"), None);
    assert_eq!(*db.get_texture(b), "tex-b");
}

#[test]
fn reserved_texture_slots() {
    let mut db: AssetDatabase<u8, u32> = AssetDatabase::new();
    let ids = db.reserve_texture_slots(&0, 3);
    assert_eq!(ids, vec![TextureId(0), TextureId(1), TextureId(2)]);
    db.fill_reserved_texture_slot(TextureId(1), 11);
    db.fill_bulk_reserved_texture_slot(TextureId(2), 22, "late".to_string());
    assert_eq!(*db.get_texture(TextureId(1)), 11);
    assert_eq!(db.get_texture_id("late"), Some(TextureId(2)));
    let one = db.reserve_texture_slot(5, "one");
    assert_eq!(one, TextureId(3));
    assert_eq!(*db.get_texture(one), 5);
}

#[test]
fn models_are_found_by_name() {
    let mut db: AssetDatabase<String, u8> = AssetDatabase::new();
    db.register_model("first.rsm", "m1".to_string());
    db.register_model("second.rsm", "m2".to_string());
    assert_eq!(db.get_model_index("second.rsm"), 1);
    assert_eq!(db.get_model(0), "m1");
    let slots = db.reserve_model_slots(&String::new(), 2);
    assert_eq!(slots, vec![2, 3]);
    db.fill_bulk_reserved_model_slot(3, "m4".to_string(), "fourth.rsm".to_string());
    assert_eq!(db.get_model_index("fourth.rsm"), 3);
    assert_eq!(db.get_model(3), "m4");
    // re-registering a name points it at the newest model
    db.register_model("first.rsm", "m1b".to_string());
    assert_eq!(db.get_model_index("first.rsm"), 4);
}

#[test]
fn last_registration_of_a_name_is_what_it_finds() {
    let mut db: AssetDatabase<&str, &str> = AssetDatabase::new();
    db.register_model("\u{C0}.rsm", "old");
    db.register_model("x.rsm", "other");
    db.register_model("A.rsm", "new");
    assert_eq!(*db.get_model(db.get_model_index("\u{C0}.rsm")), "new");
    let id = db.register_texture("t.bmp", "tex");
    assert_eq!(*db.get_texture(id), "tex");
}
