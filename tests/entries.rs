use mod_manager::conflict::ConflictBlock;
use mod_manager::entry::{
    assemble_conflict, build_mod_entry, entry_from_parts, first_present, log_candidates, mod_path,
    FileFacts,
};

#[test]
fn entry_takes_name_and_facts() {
    let facts = FileFacts { size: 1234, created: Some(1_700_000_000) };
    let e = entry_from_parts(Some("b.zipmod".to_string()), "a/b.zipmod", "/g/mods/a/b.zipmod".to_string(), Some(facts));
    assert_eq!(e.name, "b.zipmod");
    assert_eq!(e.path, "/g/mods/a/b.zipmod");
    assert_eq!(e.size, 1234);
    assert_eq!(e.created, Some(1_700_000_000));
}

#[test]
fn entry_without_facts_or_file_name() {
    let e = entry_from_parts(None, "..", "/g/mods/..".to_string(), None);
    assert_eq!(e.name, "..");
    assert_eq!(e.size, 0);
    assert_eq!(e.created, None);
    let f = FileFacts { size: 7, created: None };
    let e = entry_from_parts(None, "x", "p".to_string(), Some(f));
    assert_eq!(e.size, 7);
    assert_eq!(e.created, None);
}

#[test]
fn built_entry_is_named_after_last_component() {
    let e = build_mod_entry("/g/mods/Pack/c.zipmod".to_string(), "Pack/c.zipmod", None);
    assert_eq!(e.name, "c.zipmod");
    assert_eq!(e.path, "/g/mods/Pack/c.zipmod");
    assert_eq!(e.size, 0);
}

#[test]
fn mod_files_lie_in_mods_folder() {
    assert_eq!(mod_path("/game", "Pack/a.zipmod"), "/game/mods/Pack/a.zipmod");
}

#[test]
fn conflict_is_assembled_in_order() {
    let block = ConflictBlock {
        loaded: "Pack/new.zipmod".to_string(),
        skipped: vec!["Pack/old.zipmod".to_string(), "other.zipmod".to_string()],
    };
    let facts = vec![Some(FileFacts { size: 10, created: Some(5) })];
    let c = assemble_conflict("/game", &block, Some(FileFacts { size: 3, created: None }), &facts);
    assert_eq!(c.loaded.name, "new.zipmod");
    assert_eq!(c.loaded.path, "/game/mods/Pack/new.zipmod");
    assert_eq!(c.loaded.size, 3);
    assert_eq!(c.skipped.len(), 2);
    assert_eq!(c.skipped[0].name, "old.zipmod");
    assert_eq!(c.skipped[0].size, 10);
    assert_eq!(c.skipped[0].created, Some(5));
    assert_eq!(c.skipped[1].name, "other.zipmod");
    assert_eq!(c.skipped[1].path, "/game/mods/other.zipmod");
    assert_eq!(c.skipped[1].size, 0);
    assert_eq!(c.skipped[1].created, None);
}

#[test]
fn log_candidates_in_order() {
    assert_eq!(
        log_candidates("/game"),
        vec![
            "/game/output_log.txt",
            "/game/Koikatsu_Data/output_log.txt",
            "/game/BepInEx/LogOutput.log",
        ]
    );
}

#[test]
fn first_present_index() {
    assert_eq!(first_present(&vec![false, true, true]), Some(1));
    assert_eq!(first_present(&vec![true]), Some(0));
    assert_eq!(first_present(&vec![false, false]), None);
    assert_eq!(first_present(&vec![]), None);
}

#[test]
fn names_do_not_depend_on_game_path() {
    let block = ConflictBlock {
        loaded: "a.zipmod".to_string(),
        skipped: vec!["b.zipmod".to_string(), "sub/c.zipmod".to_string()],
    };
    let one = assemble_conflict("/g", &block, None, &vec![]);
    let two = assemble_conflict("/other/game", &block, None, &vec![]);
    assert_eq!(one.loaded.name, "a.zipmod");
    assert_eq!(one.loaded.path, "/g/mods/a.zipmod");
    assert_eq!(one.skipped[0].path, "/g/mods/b.zipmod");
    assert_eq!(one.skipped[1].path, "/g/mods/sub/c.zipmod");
    assert_eq!(two.loaded.path, "/other/game/mods/a.zipmod");
    let names = |c: &mod_manager::entry::ModConflict| {
        c.skipped.iter().map(|e| e.name.clone()).collect::<Vec<_>>()
    };
    assert_eq!(names(&one), vec!["b.zipmod", "c.zipmod"]);
    assert_eq!(names(&one), names(&two));
    assert_eq!(one.loaded.name, two.loaded.name);
}

#[test]
fn joining_onto_a_trailing_separator_adds_none() {
    assert_eq!(mod_path("/game/", "x.zipmod"), "/game/mods/x.zipmod");
    assert_eq!(log_candidates("")[0], "output_log.txt");
}
