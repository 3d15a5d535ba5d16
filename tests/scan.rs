use reina_manager::scan::{compare_executables, compare_lowered_executables, ScanResult};
use std::cmp::Ordering;

#[test]
fn executables_naming_the_game_come_first() {
    let mut exes = vec![
        "config.exe".to_string(),
        "bin\\MyGame_chs.exe".to_string(),
        "mygame.exe".to_string(),
        "a.exe".to_string(),
        "uninst.exe".to_string(),
    ];
    exes.sort_by(|a, b| compare_executables(a, b, "MyGame"));
    assert_eq!(
        exes,
        vec!["mygame.exe", "bin\\MyGame_chs.exe", "a.exe", "config.exe", "uninst.exe"]
    );
}

#[test]
fn lowered_comparison() {
    assert_eq!(compare_lowered_executables("Game.exe", "game.exe", "x.exe", "x.exe", "game"), Ordering::Less);
    assert_eq!(compare_lowered_executables("x.exe", "x.exe", "Game.exe", "game.exe", "game"), Ordering::Greater);
    assert_eq!(compare_lowered_executables("ab.exe", "ab.exe", "c.exe", "c.exe", "game"), Ordering::Greater);
    assert_eq!(compare_lowered_executables("ab.exe", "ab.exe", "cd.exe", "cd.exe", "game"), Ordering::Equal);
    // Without lowering, a differently cased name is not found.
    assert_eq!(compare_lowered_executables("GAME.exe", "GAME.exe", "x.exe", "x.exe", "game"), Ordering::Greater);
    assert_eq!(compare_executables("GAME.exe", "x.exe", "game"), Ordering::Less);
    // Lengths are counted in bytes.
    assert_eq!(compare_executables("é.exe", "ab.exe", "zz"), Ordering::Equal);
}

#[test]
fn scan_result_holds_folder() {
    let r = ScanResult { name: "G".to_string(), path: "/g/G".to_string(), executables: vec!["g.exe".to_string()] };
    assert_eq!(r.clone().executables.len(), 1);
}
