//! Mod files on disk: where they are, what the front end is told of them,
//! and where the game's log file may be.

use vstd::prelude::*;

use crate::conflict::ConflictBlock;

verus! {

/// A relative path that every platform reads alike: no `\`, no `:`, and no
/// leading `/`.
pub open spec fn portable_relative(p: Seq<char>) -> bool {
    &&& forall|i: int| 0 <= i < p.len() ==> p[i] != '\\' && p[i] != ':'
    &&& p.len() == 0 || p[0] != '/'
}

/// A base path with no `?`, so not in the verbatim form `\\?\` of Windows.
pub open spec fn plain_base(b: Seq<char>) -> bool {
    forall|i: int| 0 <= i < b.len() ==> b[i] != '?'
}

/// `r` is `part` adjoined to `base`: directly, or after a `/` or a `\`.
pub open spec fn joined(base: Seq<char>, part: Seq<char>, r: Seq<char>) -> bool {
    ||| r == base + part
    ||| r == base + seq!['/'] + part
    ||| r == base + seq!['\\'] + part
}

/// `r` is the path `rel` inside the `mods` folder of the game at `game`.
pub open spec fn in_mods_folder(game: Seq<char>, rel: Seq<char>, r: Seq<char>) -> bool {
    exists|m: Seq<char>| joined(game, "mods"@, m) && joined(m, rel, r)
}

/// What follows the last `/` of `s` (all of `s` where it has none).
pub open spec fn last_segment(s: Seq<char>) -> Seq<char>
    decreases s.len(),
{
    if s.len() == 0 {
        s
    } else if s.last() == '/' {
        Seq::empty()
    } else {
        last_segment(s.drop_last()).push(s.last())
    }
}

/// A portable relative path whose last segment names a file: not empty,
/// not `.` and not `..`.
pub open spec fn names_a_file(s: Seq<char>) -> bool {
    &&& portable_relative(s)
    &&& last_segment(s).len() > 0
    &&& last_segment(s) != seq!['.']
    &&& last_segment(s) != seq!['.', '.']
}

/// Relies on `Path::join` followed by `to_string_lossy`. A relative `part`
/// without prefix or root is appended to `base`, after the platform's
/// separator unless `base` is empty or already ends in one (or is a bare
/// drive such as `C:`); only a verbatim `base` is rewritten instead.
#[verifier::external_body]
fn join_path(base: &str, part: &str) -> (r: String)
    ensures
        plain_base(base@) && portable_relative(part@) ==> joined(base@, part@, r@),
{
    std::path::Path::new(base).join(part).to_string_lossy().into_owned()
}

/// Relies on `Path::file_name` followed by `to_string_lossy`: the last
/// normal component of a path. Where the path has no prefix and no root, and
/// its last segment after `/` is a name, that segment is the file name on
/// every platform.
#[verifier::external_body]
fn path_file_name(path: &str) -> (r: Option<String>)
    ensures
        names_a_file(path@) ==> r.deep_view() == Some(last_segment(path@)),
{
    std::path::Path::new(path).file_name().map(|s| s.to_string_lossy().into_owned())
}

/// A path joined from a base without `?` and a part without `?` has none.
proof fn lemma_joined_plain(base: Seq<char>, part: Seq<char>, r: Seq<char>)
    requires
        plain_base(base),
        plain_base(part),
        joined(base, part, r),
    ensures
        plain_base(r),
{
    assert forall|i: int| 0 <= i < r.len() implies r[i] != '?' by {
        if r == base + part {
            if i >= base.len() {
                assert(r[i] == part[i - base.len()]);
            }
        } else if r == base + seq!['/'] + part {
            if i > base.len() {
                assert(r[i] == part[i - base.len() - 1]);
            }
        } else {
            if i > base.len() {
                assert(r[i] == part[i - base.len() - 1]);
            }
        }
    }
}

/// What the file system told of a mod file: its size in bytes and, where the
/// platform records it, its creation time in whole seconds since the epoch.
#[derive(Debug, Clone, Copy, PartialEq, Eq)]
pub struct FileFacts {
    pub size: u64,
    pub created: Option<u64>,
}

/// A mod file as the front end sees it.
#[derive(Debug, PartialEq, Eq)]
pub struct ModEntry {
    pub name: String,
    pub path: String,
    pub size: u64,
    pub created: Option<u64>,
}

/// One conflict: the mod file that is loaded and those that are skipped.
#[derive(Debug, PartialEq, Eq)]
pub struct ModConflict {
    pub loaded: ModEntry,
    pub skipped: Vec<ModEntry>,
}

/// The size reported for a file: 0 where nothing is known of it.
pub open spec fn size_of(facts: Option<FileFacts>) -> u64 {
    match facts {
        Some(f) => f.size,
        None => 0,
    }
}

/// The creation time reported for a file, where one is known.
pub open spec fn created_of(facts: Option<FileFacts>) -> Option<u64> {
    match facts {
        Some(f) => f.created,
        None => None,
    }
}

/// The facts given for the `i`th file of a list, none where the list is short.
pub open spec fn facts_at(facts: Seq<Option<FileFacts>>, i: int) -> Option<FileFacts> {
    if 0 <= i < facts.len() {
        facts[i]
    } else {
        None
    }
}

/// The name shown for a mod file: the last component of its relative path,
/// or the relative path itself where it has none.
pub open spec fn shown_name(file_name: Option<Seq<char>>, rel: Seq<char>) -> Seq<char> {
    match file_name {
        Some(n) => n,
        None => rel,
    }
}

/// The entry of a mod file whose path's last component is `file_name`.
pub fn entry_from_parts(
    file_name: Option<String>,
    rel: &str,
    full_path: String,
    facts: Option<FileFacts>,
) -> (r: ModEntry)
    ensures
        r.name@ == shown_name(file_name.deep_view(), rel@),
        r.path == full_path,
        r.size == size_of(facts),
        r.created == created_of(facts),
{
    let name = match file_name {
        Some(n) => n,
        None => String::from_str(rel),
    };
    let (size, created) = match facts {
        Some(f) => (f.size, f.created),
        None => (0, None),
    };
    ModEntry { name, path: full_path, size, created }
}

/// The entry of the mod file at `full_path`, named after the last component
/// of `rel`, its path relative to the mods folder.
pub fn build_mod_entry(full_path: String, rel: &str, facts: Option<FileFacts>) -> (r: ModEntry)
    ensures
        r.path == full_path,
        names_a_file(rel@) ==> r.name@ == last_segment(rel@),
        r.size == size_of(facts),
        r.created == created_of(facts),
{
    let file_name = path_file_name(rel);
    entry_from_parts(file_name, rel, full_path, facts)
}

/// Where the mod at `rel` lies: in the `mods` folder of the game.
pub fn mod_path(game_path: &str, rel: &str) -> (r: String)
    ensures
        plain_base(game_path@) && portable_relative(rel@) ==> in_mods_folder(game_path@, rel@, r@),
{
    proof {
        reveal_strlit("mods");
    }
    let mods = join_path(game_path, "mods");
    let r = join_path(mods.as_str(), rel);
    proof {
        if plain_base(game_path@) && portable_relative(rel@) {
            lemma_joined_plain(game_path@, "mods"@, mods@);
        }
    }
    r
}

/// `e` is the entry of the mod file at `rel` in the game at `game`, of which
/// `facts` is what is known: its name is the last segment of `rel` and its
/// path lies in the `mods` folder wherever those can be told on every
/// platform.
pub open spec fn describes(game: Seq<char>, rel: Seq<char>, facts: Option<FileFacts>, e: ModEntry) -> bool {
    &&& e.size == size_of(facts)
    &&& e.created == created_of(facts)
    &&& names_a_file(rel) ==> e.name@ == last_segment(rel)
    &&& plain_base(game) && portable_relative(rel) ==> in_mods_folder(game, rel, e.path@)
}

/// The entry of the mod at `rel` in the game at `game_path`.
fn entry_in_game(game_path: &str, rel: &str, facts: Option<FileFacts>) -> (r: ModEntry)
    ensures
        describes(game_path@, rel@, facts, r),
{
    build_mod_entry(mod_path(game_path, rel), rel, facts)
}

/// The conflict that `block` describes, for the game at `game_path`;
/// `skipped_facts[i]` is what is known of the `i`th skipped file.
pub fn assemble_conflict(
    game_path: &str,
    block: &ConflictBlock,
    loaded_facts: Option<FileFacts>,
    skipped_facts: &Vec<Option<FileFacts>>,
) -> (r: ModConflict)
    ensures
        describes(game_path@, block.loaded@, loaded_facts, r.loaded),
        r.skipped.len() == block.skipped.len(),
        forall|i: int|
            0 <= i < r.skipped.len() ==> #[trigger] describes(
                game_path@,
                block.skipped[i]@,
                facts_at(skipped_facts@, i),
                r.skipped[i],
            ),
{
    let loaded = entry_in_game(game_path, block.loaded.as_str(), loaded_facts);
    let mut skipped: Vec<ModEntry> = Vec::new();
    let mut i: usize = 0;
    while i < block.skipped.len()
        invariant
            i <= block.skipped.len(),
            skipped.len() == i,
            forall|j: int|
                0 <= j < i ==> #[trigger] describes(
                    game_path@,
                    block.skipped[j]@,
                    facts_at(skipped_facts@, j),
                    skipped[j],
                ),
        decreases block.skipped.len() - i,
    {
        let facts = if i < skipped_facts.len() {
            skipped_facts[i]
        } else {
            None
        };
        skipped.push(entry_in_game(game_path, block.skipped[i].as_str(), facts));
        i = i + 1;
    }
    ModConflict { loaded, skipped }
}

/// The files that may hold the game's log, in the order in which they are
/// tried: `output_log.txt` in the game folder, then in `Koikatsu_Data`, then
/// `LogOutput.log` in `BepInEx`.
pub fn log_candidates(game_path: &str) -> (r: Vec<String>)
    ensures
        r.len() == 3,
        plain_base(game_path@) ==> {
            &&& joined(game_path@, "output_log.txt"@, r[0]@)
            &&& exists|m: Seq<char>|
                joined(game_path@, "Koikatsu_Data"@, m) && joined(m, "output_log.txt"@, r[1]@)
            &&& exists|m: Seq<char>|
                joined(game_path@, "BepInEx"@, m) && joined(m, "LogOutput.log"@, r[2]@)
        },
{
    proof {
        reveal_strlit("output_log.txt");
        reveal_strlit("Koikatsu_Data");
        reveal_strlit("BepInEx");
        reveal_strlit("LogOutput.log");
    }
    let data = join_path(game_path, "Koikatsu_Data");
    let bepinex = join_path(game_path, "BepInEx");
    let mut r: Vec<String> = Vec::new();
    r.push(join_path(game_path, "output_log.txt"));
    r.push(join_path(data.as_str(), "output_log.txt"));
    r.push(join_path(bepinex.as_str(), "LogOutput.log"));
    proof {
        if plain_base(game_path@) {
            lemma_joined_plain(game_path@, "Koikatsu_Data"@, data@);
            lemma_joined_plain(game_path@, "BepInEx"@, bepinex@);
        }
    }
    r
}

/// The first index at which `present` holds, if any.
pub fn first_present(present: &Vec<bool>) -> (r: Option<usize>)
    ensures
        r matches Some(i) ==> i < present.len() && present[i as int] && forall|j: int|
            0 <= j < i ==> !present[j],
        r is None <==> forall|j: int| 0 <= j < present.len() ==> !present[j],
{
    let mut i: usize = 0;
    while i < present.len()
        invariant
            i <= present.len(),
            forall|j: int| 0 <= j < i ==> !present[j],
        decreases present.len() - i,
    {
        if present[i] {
            return Some(i);
        }
        i = i + 1;
    }
    None
}

} // verus!
