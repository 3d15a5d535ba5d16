use reina_manager::dto::{
    clean_double_option_string, clean_option_string, InsertCollectionData, InsertGameData,
    UpdateCollectionData, UpdateGameData, UpdateSettingsData,
};

fn s(x: &str) -> Option<String> {
    Some(x.to_string())
}

#[test]
fn blank_text_becomes_none() {
    assert_eq!(clean_option_string(s("")), None);
    assert_eq!(clean_option_string(s("  \t\n")), None);
    assert_eq!(clean_option_string(s("\u{3000}")), None);
    assert_eq!(clean_option_string(s(" a ")), s(" a "));
    assert_eq!(clean_option_string(None), None);
}

#[test]
fn double_option_keeps_provided_marker() {
    assert_eq!(clean_double_option_string(Some(s(" "))), Some(None));
    assert_eq!(clean_double_option_string(Some(s("x"))), Some(s("x")));
    assert_eq!(clean_double_option_string(Some(None)), Some(None));
    assert_eq!(clean_double_option_string(None), None);
}

#[test]
fn insert_game_data_cleaned() {
    let d = InsertGameData {
        bgm_id: s(""),
        vndb_id: s("v17"),
        ymgal_id: s("  "),
        id_type: "".to_string(),
        date: s("2024-01-01"),
        localpath: s(" "),
        savepath: None,
        autosave: Some(1),
        maxbackups: None,
        clear: Some(0),
        le_launch: None,
        magpie: None,
        vndb_data: None,
        bgm_data: None,
        ymgal_data: None,
        custom_data: None,
    }
    .cleaned();
    assert_eq!(d.bgm_id, None);
    assert_eq!(d.vndb_id, s("v17"));
    assert_eq!(d.ymgal_id, None);
    assert_eq!(d.id_type, "");
    assert_eq!(d.date, s("2024-01-01"));
    assert_eq!(d.localpath, None);
    assert_eq!(d.autosave, Some(1));
    assert_eq!(d.clear, Some(0));
}

#[test]
fn update_game_data_cleaned() {
    let d = UpdateGameData {
        bgm_id: Some(s("")),
        vndb_id: None,
        ymgal_id: Some(s("y")),
        id_type: s(" "),
        date: Some(None),
        localpath: Some(s("\n")),
        savepath: Some(s("/save")),
        autosave: Some(None),
        maxbackups: None,
        clear: None,
        le_launch: None,
        magpie: Some(Some(1)),
        vndb_data: None,
        bgm_data: None,
        ymgal_data: None,
        custom_data: None,
    }
    .cleaned();
    assert_eq!(d.bgm_id, Some(None));
    assert_eq!(d.vndb_id, None);
    assert_eq!(d.ymgal_id, Some(s("y")));
    assert_eq!(d.id_type, s(" "));
    assert_eq!(d.date, Some(None));
    assert_eq!(d.localpath, Some(None));
    assert_eq!(d.savepath, Some(s("/save")));
    assert_eq!(d.autosave, Some(None));
    assert_eq!(d.magpie, Some(Some(1)));
}

#[test]
fn collection_data_cleaned() {
    let d = InsertCollectionData { name: "  Favourites \t".to_string(), parent_id: Some(2), sort_order: 3, icon: s(" ") }
        .cleaned();
    assert_eq!(d.name, "Favourites");
    assert_eq!(d.parent_id, Some(2));
    assert_eq!(d.sort_order, 3);
    assert_eq!(d.icon, None);

    let u = UpdateCollectionData { name: s(" x "), parent_id: Some(None), sort_order: None, icon: Some(s("")) }
        .cleaned();
    assert_eq!(u.name, s("x"));
    assert_eq!(u.parent_id, Some(None));
    assert_eq!(u.icon, Some(None));

    let u2 = UpdateCollectionData { name: None, parent_id: None, sort_order: Some(1), icon: Some(s("star")) }
        .cleaned();
    assert_eq!(u2.name, None);
    assert_eq!(u2.icon, Some(s("star")));
}

#[test]
fn settings_cleaned() {
    let d = UpdateSettingsData {
        bgm_token: s(" "),
        save_root_path: s("/saves"),
        db_backup_path: s(""),
        le_path: None,
        magpie_path: s("m.exe"),
    }
    .cleaned();
    assert_eq!(d.bgm_token, None);
    assert_eq!(d.save_root_path, s("/saves"));
    assert_eq!(d.db_backup_path, None);
    assert_eq!(d.le_path, None);
    assert_eq!(d.magpie_path, s("m.exe"));
    let z = UpdateSettingsData::default();
    assert_eq!(z.bgm_token, None);
    assert_eq!(z.magpie_path, None);
}
