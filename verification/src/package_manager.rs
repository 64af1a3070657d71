//! The per-tool package-manager handles: one unit type per command-line
//! installer. A host-specific runner gives them their probing, install and
//! upgrade behaviour; their names key the version-check cache directories.

use vstd::prelude::*;
use vstd::string::StringExecFns;

use crate::text;

verus! {

broadcast use vstd::seq::group_seq_axioms;

/// Installs Rust tools through cargo.
#[derive(Clone, Copy, Debug)]
pub struct CargoManager;

/// Installs system packages through apt.
#[derive(Clone, Copy, Debug)]
pub struct AptManager;

/// Installs system packages through Homebrew.
#[derive(Clone, Copy, Debug)]
pub struct BrewManager;

impl CargoManager {
    /// The name used for cache directories and log lines.
    pub fn name(&self) -> (r: String)
        ensures
            r@ == "cargo"@,
    {
        String::from_str("cargo")
    }
}

impl AptManager {
    /// The name used for cache directories and log lines.
    pub fn name(&self) -> (r: String)
        ensures
            r@ == "apt"@,
    {
        String::from_str("apt")
    }
}

impl BrewManager {
    /// The name used for cache directories and log lines.
    pub fn name(&self) -> (r: String)
        ensures
            r@ == "brew"@,
    {
        String::from_str("brew")
    }
}


/// What `cargo search --limit 1` output parses to: the third token of the
/// first line, quotes stripped.
pub open spec fn spec_cargo_search_version(out: Seq<char>) -> Option<Seq<char>> {
    let lines = text::spec_split(out, '\n');
    if lines.len() < 1 {
        None
    } else {
        let toks = text::spec_tokens(lines[0]);
        if toks.len() >= 3 {
            Some(text::spec_trim_char(toks[2], '"'))
        } else {
            None
        }
    }
}

/// Parse the version out of a `cargo search --limit 1` listing.
pub fn parse_cargo_search_version(out: &str) -> (r: Option<String>)
    ensures
        r.deep_view() == spec_cargo_search_version(out@),
{
    let lines = text::split_char(out, '\n');
    if lines.len() == 0 {
        return None;
    }
    proof {
        assert(lines.deep_view()[0] == lines@[0]@);
    }
    let toks = text::tokens(lines[0].as_str());
    if toks.len() >= 3 {
        proof {
            assert(toks.deep_view()[2] == toks@[2]@);
        }
        Some(String::from_str(text::trim_char_str(toks[2].as_str(), '"')))
    } else {
        None
    }
}

/// What `apt-cache policy` output parses to: the token after `Candidate:`
/// on the first line naming it.
pub open spec fn spec_apt_candidate_version(out: Seq<char>) -> Option<Seq<char>> {
    match text::first_line_with(text::spec_split(out, '\n'), "Candidate:"@) {
        Some(line) => {
            let toks = text::spec_tokens(line);
            if toks.len() >= 2 {
                Some(toks[1])
            } else {
                None
            }
        },
        None => None,
    }
}

/// Parse the candidate version out of an `apt-cache policy` listing.
pub fn parse_apt_candidate_version(out: &str) -> (r: Option<String>)
    ensures
        r.deep_view() == spec_apt_candidate_version(out@),
{
    let lines = text::split_char(out, '\n');
    let ghost lv = lines.deep_view();
    let mut i: usize = 0;
    while i < lines.len()
        invariant
            i <= lines.len(),
            lv == lines.deep_view(),
            lv == text::spec_split(out@, '\n'),
            forall|j: int| 0 <= j < i ==> !text::spec_contains(#[trigger] lv[j], "Candidate:"@),
        decreases lines.len() - i,
    {
        let line: &str = lines[i].as_str();
        proof {
            assert(lv[i as int] == lines@[i as int]@);
        }
        if text::contains_str(line, "Candidate:") {
            proof {
                text::lemma_first_line_skip(lv, "Candidate:"@, i as int);
                assert(lv.skip(i as int)[0] == lv[i as int]);
                assert(text::first_line_with(lv.skip(i as int), "Candidate:"@) == Some(
                    lv[i as int],
                ));
            }
            let toks = text::tokens(line);
            if toks.len() >= 2 {
                proof {
                    assert(toks.deep_view()[1] == toks@[1]@);
                }
                return Some(toks[1].clone());
            }
            return None;
        }
        i += 1;
    }
    proof {
        text::lemma_first_line_skip(lv, "Candidate:"@, i as int);
        assert(lv.skip(i as int).len() == 0);
    }
    None
}

/// What `brew info` output parses to: the second token of the first line.
pub open spec fn spec_brew_info_version(out: Seq<char>) -> Option<Seq<char>> {
    let lines = text::spec_split(out, '\n');
    if lines.len() < 1 {
        None
    } else {
        let toks = text::spec_tokens(lines[0]);
        if toks.len() >= 2 {
            Some(toks[1])
        } else {
            None
        }
    }
}

/// Parse the version out of a `brew info` listing.
pub fn parse_brew_info_version(out: &str) -> (r: Option<String>)
    ensures
        r.deep_view() == spec_brew_info_version(out@),
{
    let lines = text::split_char(out, '\n');
    if lines.len() == 0 {
        return None;
    }
    proof {
        assert(lines.deep_view()[0] == lines@[0]@);
    }
    let toks = text::tokens(lines[0].as_str());
    if toks.len() >= 2 {
        proof {
            assert(toks.deep_view()[1] == toks@[1]@);
        }
        Some(toks[1].clone())
    } else {
        None
    }
}

/// Some line of the listing mentions `name`.
pub open spec fn spec_listing_mentions(out: Seq<char>, name: Seq<char>) -> bool {
    text::first_line_with(text::spec_split(out, '\n'), name) is Some
}

/// Whether some line of a listing (an installed-tools list, say) mentions
/// `name`.
pub fn listing_mentions(out: &str, name: &str) -> (r: bool)
    ensures
        r == spec_listing_mentions(out@, name@),
{
    let lines = text::split_char(out, '\n');
    let ghost lv = lines.deep_view();
    let mut i: usize = 0;
    while i < lines.len()
        invariant
            i <= lines.len(),
            lv == lines.deep_view(),
            lv == text::spec_split(out@, '\n'),
            forall|j: int| 0 <= j < i ==> !text::spec_contains(#[trigger] lv[j], name@),
        decreases lines.len() - i,
    {
        let line: &str = lines[i].as_str();
        proof {
            assert(lv[i as int] == lines@[i as int]@);
        }
        if text::contains_str(line, name) {
            proof {
                text::lemma_first_line_skip(lv, name@, i as int);
                assert(lv.skip(i as int)[0] == lv[i as int]);
                assert(text::first_line_with(lv.skip(i as int), name@) == Some(lv[i as int]));
            }
            return true;
        }
        i += 1;
    }
    proof {
        text::lemma_first_line_skip(lv, name@, i as int);
        assert(lv.skip(i as int).len() == 0);
    }
    false
}

} // verus!
