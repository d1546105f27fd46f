use rustarok_client::attrib_mod::Percentage;
use rustarok_client::spawn_area::{
    area_effect, create_status_payload, spawn_area_completion, spawn_area_settings, status_names,
    AreaEffect, SpawnAreaSettings, StatusPayloadKind,
};

#[test]
fn status_names_in_order() {
    assert_eq!(status_names(), vec!["absorb", "poison", "firebomb", "armor"]);
}

#[test]
fn first_argument_completes_to_statuses_heal_and_damage() {
    assert_eq!(
        spawn_area_completion(0),
        Some(vec![
            "absorb".to_string(),
            "poison".to_string(),
            "firebomb".to_string(),
            "armor".to_string(),
            "heal".to_string(),
            "damage".to_string()
        ])
    );
    assert_eq!(spawn_area_completion(1), None);
}

#[test]
fn effect_by_name() {
    assert_eq!(area_effect("heal", 30), AreaEffect::Heal(30));
    assert_eq!(area_effect("heal", -5), AreaEffect::Heal(0));
    assert_eq!(area_effect("damage", 7), AreaEffect::Damage(7));
    assert_eq!(area_effect("poison", 7), AreaEffect::Status);
}

#[test]
fn settings_defaults_and_clamps() {
    assert_eq!(
        spawn_area_settings(None, None, None, None, None),
        SpawnAreaSettings { value: 0, width: 2, height: 3, interval_ms: 500, time_ms: 500 }
    );
    assert_eq!(
        spawn_area_settings(Some(9), Some(-4), Some(70000), Some(250), Some(1000)),
        SpawnAreaSettings { value: 9, width: 0, height: 4464, interval_ms: 250, time_ms: 1000 }
    );
}

#[test]
fn status_payloads() {
    assert_eq!(create_status_payload("absorb", 3), Ok(StatusPayloadKind::Absorb));
    assert_eq!(create_status_payload("firebomb", 0), Ok(StatusPayloadKind::FireBomb { damage: 1 }));
    assert_eq!(create_status_payload("poison", 12), Ok(StatusPayloadKind::Poison { damage: 12 }));
    assert_eq!(create_status_payload("armor", -20), Ok(StatusPayloadKind::Armor(Percentage(-20))));
    assert_eq!(create_status_payload("heal", 1), Err("Status not found".to_string()));
}

#[test]
fn every_listed_status_exists() {
    for name in status_names() {
        assert!(create_status_payload(&name, 5).is_ok());
    }
}
