use mod_manager::conflict::{conflict_blocks, find_conflicts, parse_skipped, ConflictBlock};

fn block(loaded: &str, skipped: &[&str]) -> ConflictBlock {
    ConflictBlock {
        loaded: loaded.to_string(),
        skipped: skipped.iter().map(|s| s.to_string()).collect(),
    }
}

#[test]
fn finds_each_conflict_block() {
    let log = [
        "[Info] Loading mods\n",
        "[Warning: Sideloader] Multiple versions detected, only \"Sideloader Modpack/a_v2.zipmod\" will be loaded. ",
        "Skipped versions: \"Sideloader Modpack/a_v1.zipmod\", \"MyMods/a_old.zipmod\"\n",
        "noise\n",
        "only \"b.zipmod\" will be loaded. Skipped versions: \"b_old.zipmod\"\n",
    ]
    .join("");
    let found = find_conflicts(&log).unwrap();
    assert_eq!(
        found,
        vec![
            block(
                "Sideloader Modpack/a_v2.zipmod",
                &["Sideloader Modpack/a_v1.zipmod", "MyMods/a_old.zipmod"],
            ),
            block("b.zipmod", &["b_old.zipmod"]),
        ]
    );
}

#[test]
fn log_without_conflicts_gives_none() {
    assert_eq!(find_conflicts("").unwrap(), vec![]);
    assert_eq!(find_conflicts("only \"a\" will be loaded. Skipped versions: none").unwrap(), vec![]);
}

#[test]
fn skipped_list_is_unquoted() {
    assert_eq!(parse_skipped("\"x.zipmod\", \"y.zipmod\""), vec!["x.zipmod", "y.zipmod"]);
    assert_eq!(parse_skipped("\"only.zipmod\""), vec!["only.zipmod"]);
}

#[test]
fn matches_missing_a_group_give_no_block() {
    let caps = vec![
        vec![Some("m".to_string()), Some("a".to_string()), Some("\"b\", \"c\"".to_string())],
        vec![Some("m".to_string()), None, Some("\"d\"".to_string())],
        vec![Some("m".to_string())],
    ];
    assert_eq!(conflict_blocks(&caps), vec![block("a", &["b", "c"])]);
}
