//! Finding mod-version conflicts in a game log.
//!
//! The loader writes one block per mod that it found in several versions:
//! `only "<loaded>" will be loaded. Skipped versions: "<a>", "<b>"`.

use vstd::prelude::*;

use crate::error::ModError;
use crate::text::{comma_pieces, split_comma_space, trim_quotes, trim_quotes_spec};

verus! {

/// The pattern of one conflict block: group 1 is the loaded mod's relative
/// path, group 2 the quoted, comma-separated list of the skipped ones.
pub const CONFLICT_PATTERN: &'static str = r#"only\s+"([^"]+)"\s+will be loaded\. Skipped versions:\s+((?:"[^"]+",\s*)*"[^"]+")"#;

/// Whether the regex engine accepts `pattern`.
pub uninterp spec fn regex_accepts(pattern: Seq<char>) -> bool;

/// The matches of `pattern` in `text`, leftmost first and without overlap;
/// for each, the text of every group (group 0 being the whole match), `None`
/// for a group that took no part.
pub uninterp spec fn regex_captures(pattern: Seq<char>, text: Seq<char>) -> Seq<Seq<Option<Seq<char>>>>;

/// Relies on `regex::Regex::new` (whether a pattern compiles depends on the
/// pattern alone) and on `Regex::captures_iter` with `Captures::iter` (the
/// groups of each successive match).
#[verifier::external_body]
fn capture_groups(pattern: &str, text: &str) -> (r: Result<Vec<Vec<Option<String>>>, String>)
    ensures
        r is Ok <==> regex_accepts(pattern@),
        r matches Ok(caps) ==> caps.deep_view() == regex_captures(pattern@, text@),
{
    let re = regex::Regex::new(pattern).map_err(|e| e.to_string())?;
    Ok(re.captures_iter(text).map(
        |c| c.iter().map(|m| m.map(|m| m.as_str().to_string())).collect(),
    ).collect())
}

/// One conflict block: the relative path of the mod that is loaded and those
/// of the versions that are skipped, in the order of the log.
#[derive(Debug, PartialEq, Eq)]
pub struct ConflictBlock {
    pub loaded: String,
    pub skipped: Vec<String>,
}

impl View for ConflictBlock {
    type V = (Seq<char>, Seq<Seq<char>>);

    open spec fn view(&self) -> (Seq<char>, Seq<Seq<char>>) {
        (self.loaded@, self.skipped.deep_view())
    }
}

pub open spec fn blocks_view(v: Seq<ConflictBlock>) -> Seq<(Seq<char>, Seq<Seq<char>>)> {
    v.map_values(|b: ConflictBlock| b@)
}

/// The skipped list as written in the log, split into unquoted paths.
pub open spec fn skipped_paths(raw: Seq<char>) -> Seq<Seq<char>> {
    comma_pieces(raw).map_values(|p: Seq<char>| trim_quotes_spec(p))
}

/// The block that the groups of one match describe, if groups 1 and 2 both
/// took part.
pub open spec fn block_of(groups: Seq<Option<Seq<char>>>) -> Option<(Seq<char>, Seq<Seq<char>>)> {
    if groups.len() >= 3 && groups[1] is Some && groups[2] is Some {
        Some((groups[1]->Some_0, skipped_paths(groups[2]->Some_0)))
    } else {
        None
    }
}

/// The blocks that a list of matches describes, in order.
pub open spec fn blocks_of(caps: Seq<Seq<Option<Seq<char>>>>) -> Seq<(Seq<char>, Seq<Seq<char>>)>
    decreases caps.len(),
{
    if caps.len() == 0 {
        Seq::empty()
    } else {
        let front = blocks_of(caps.drop_last());
        match block_of(caps.last()) {
            Some(b) => front.push(b),
            None => front,
        }
    }
}

/// The unquoted paths of a skipped list such as `"a.zipmod", "b.zipmod"`.
pub fn parse_skipped(raw: &str) -> (r: Vec<String>)
    ensures
        r.deep_view() == skipped_paths(raw@),
{
    let pieces = split_comma_space(raw);
    let mut r: Vec<String> = Vec::new();
    let mut i: usize = 0;
    while i < pieces.len()
        invariant
            i <= pieces.len(),
            pieces.deep_view() == comma_pieces(raw@),
            r.deep_view() == skipped_paths(raw@).subrange(0, i as int),
        decreases pieces.len() - i,
    {
        let t = trim_quotes(pieces[i].as_str());
        proof {
            assert(pieces.deep_view()[i as int] == pieces[i as int]@);
            assert(skipped_paths(raw@).subrange(0, i + 1) =~= skipped_paths(raw@).subrange(
                0,
                i as int,
            ).push(t@));
        }
        r.push(t);
        i = i + 1;
    }
    assert(skipped_paths(raw@).subrange(0, i as int) == skipped_paths(raw@));
    r
}

/// The conflict blocks that a list of matches of `CONFLICT_PATTERN`
/// describes: each match gives the block of its groups 1 and 2.
pub fn conflict_blocks(caps: &Vec<Vec<Option<String>>>) -> (r: Vec<ConflictBlock>)
    ensures
        blocks_view(r@) == blocks_of(caps.deep_view()),
{
    let mut r: Vec<ConflictBlock> = Vec::new();
    let mut i: usize = 0;
    while i < caps.len()
        invariant
            i <= caps.len(),
            blocks_view(r@) == blocks_of(caps.deep_view().subrange(0, i as int)),
        decreases caps.len() - i,
    {
        let groups = &caps[i];
        let ghost g = caps.deep_view()[i as int];
        let ghost done = caps.deep_view().subrange(0, i + 1);
        assert(done.drop_last() == caps.deep_view().subrange(0, i as int));
        assert(done.last() == g);
        assert(g == groups.deep_view());
        if groups.len() >= 3 {
            assert(g[1] == groups[1].deep_view());
            assert(g[2] == groups[2].deep_view());
            match (&groups[1], &groups[2]) {
                (Some(loaded), Some(raw)) => {
                    let b = ConflictBlock { loaded: loaded.clone(), skipped: parse_skipped(raw.as_str()) };
                    assert(blocks_view(r@.push(b)) =~= blocks_view(r@).push(b@));
                    r.push(b);
                },
                _ => {},
            }
        }
        i = i + 1;
    }
    assert(caps.deep_view().subrange(0, i as int) == caps.deep_view());
    r
}

/// The conflict blocks of `log`, in the order in which they appear.
pub fn find_conflicts(log: &str) -> (r: Result<Vec<ConflictBlock>, ModError>)
    ensures
        r is Err <==> !regex_accepts(CONFLICT_PATTERN@),
        r matches Err(e) ==> e is RegexCompile,
        r matches Ok(v) ==> blocks_view(v@) == blocks_of(regex_captures(CONFLICT_PATTERN@, log@)),
{
    match capture_groups(CONFLICT_PATTERN, log) {
        Ok(caps) => Ok(conflict_blocks(&caps)),
        Err(e) => Err(ModError::RegexCompile(e)),
    }
}

} // verus!
