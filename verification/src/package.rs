//! The package model: one logical package and its name under each manager.

use vstd::prelude::*;
use vstd::string::{StrSliceExecFns, StringExecFns};

use crate::manager::PackageManager;
use crate::text;

verus! {

/// A system package that can be installed.
///
/// Packages are immutable value objects; `name_for` resolves the name to
/// hand to a given package manager, preferring a manager-tagged alternative
/// (`"apt:foo bar"`) and falling back to the canonical name.
#[derive(Debug, PartialEq, Eq, Hash)]
pub struct Package {
    /// Name of the package
    pub name: String,
    /// Version constraint (if any)
    pub version: Option<String>,
    /// Alternative names for different package managers
    pub alternatives: Vec<String>,
}

/// The mathematical value of a `Package`.
#[verifier::ext_equal]
pub struct PackageView {
    pub name: Seq<char>,
    pub version: Option<Seq<char>>,
    pub alternatives: Seq<Seq<char>>,
}

impl View for Package {
    type V = PackageView;

    open spec fn view(&self) -> PackageView {
        PackageView {
            name: self.name@,
            version: self.version.deep_view(),
            alternatives: self.alternatives.deep_view(),
        }
    }
}

impl DeepView for Package {
    type V = PackageView;

    open spec fn deep_view(&self) -> PackageView {
        self.view()
    }
}

/// The tag that marks an alternative as meant for `pm`.
pub open spec fn manager_tag(pm: PackageManager) -> Seq<char> {
    match pm {
        PackageManager::Apt => "apt:"@,
        PackageManager::Yum => "yum:"@,
        PackageManager::Brew => "brew:"@,
    }
}

/// The alternative `alt` carries the tag of `pm`.
pub open spec fn alt_matches(alt: Seq<char>, pm: PackageManager) -> bool {
    text::spec_starts_with(alt, manager_tag(pm))
}

/// The payload of the first alternative tagged for `pm`, if any.
pub open spec fn first_alt(alts: Seq<Seq<char>>, pm: PackageManager) -> Option<Seq<char>>
    decreases alts.len(),
{
    if alts.len() == 0 {
        None
    } else if alt_matches(alts[0], pm) {
        Some(alts[0].skip(manager_tag(pm).len() as int))
    } else {
        first_alt(alts.skip(1), pm)
    }
}

/// What `name_for` returns: the tagged alternative's payload if one exists,
/// else the canonical name.
pub open spec fn spec_name_for(p: PackageView, pm: PackageManager) -> Seq<char> {
    match first_alt(p.alternatives, pm) {
        Some(n) => n,
        None => p.name,
    }
}

/// A tagged alternative must carry a payload after its tag.
pub open spec fn alt_ok(alt: Seq<char>, pm: PackageManager) -> bool {
    alt_matches(alt, pm) ==> alt.len() > manager_tag(pm).len()
}

/// A well-formed package: non-empty canonical name, and every tagged
/// alternative has a non-empty payload.
pub open spec fn wf(p: PackageView) -> bool {
    &&& p.name.len() > 0
    &&& forall|i: int, pm: PackageManager|
        0 <= i < p.alternatives.len() ==> #[trigger] alt_ok(p.alternatives[i], pm)
}

/// Skipping alternatives that do not match leaves `first_alt` unchanged.
proof fn lemma_first_alt_skip(alts: Seq<Seq<char>>, pm: PackageManager, i: int)
    requires
        0 <= i <= alts.len(),
        forall|j: int| 0 <= j < i ==> !alt_matches(#[trigger] alts[j], pm),
    ensures
        first_alt(alts, pm) == first_alt(alts.skip(i), pm),
    decreases i,
{
    if i > 0 {
        assert(!alt_matches(alts[0], pm));
        assert(forall|j: int|
            0 <= j < i - 1 ==> !alt_matches(#[trigger] alts.skip(1)[j], pm)) by {
            assert(forall|j: int| 0 <= j < i - 1 ==> alts.skip(1)[j] == alts[j + 1]);
        }
        lemma_first_alt_skip(alts.skip(1), pm, i - 1);
        assert(alts.skip(1).skip(i - 1) =~= alts.skip(i));
    } else {
        assert(alts.skip(0) =~= alts);
    }
}

/// Every alternative picked by `first_alt` has a non-empty payload.
proof fn lemma_first_alt_nonempty(alts: Seq<Seq<char>>, pm: PackageManager)
    requires
        forall|i: int| 0 <= i < alts.len() ==> #[trigger] alt_ok(alts[i], pm),
    ensures
        match first_alt(alts, pm) {
            Some(n) => n.len() > 0,
            None => true,
        },
    decreases alts.len(),
{
    if alts.len() > 0 {
        assert(alt_ok(alts[0], pm));
        if !alt_matches(alts[0], pm) {
            assert(forall|i: int|
                0 <= i < alts.skip(1).len() ==> #[trigger] alt_ok(alts.skip(1)[i], pm)) by {
                assert(forall|i: int| 0 <= i < alts.len() - 1 ==> alts.skip(1)[i] == alts[i + 1]);
            }
            lemma_first_alt_nonempty(alts.skip(1), pm);
        }
    }
}

/// Name resolution is total: a well-formed package resolves to a non-empty
/// name under every manager — the manager-tagged alternative if present,
/// else the canonical name.
pub proof fn lemma_name_resolution_total(p: PackageView, pm: PackageManager)
    requires
        wf(p),
    ensures
        spec_name_for(p, pm).len() > 0,
{
    assert(forall|i: int| 0 <= i < p.alternatives.len() ==> #[trigger] alt_ok(p.alternatives[i], pm));
    lemma_first_alt_nonempty(p.alternatives, pm);
}

impl Package {
    /// Create a new package with a specific name.
    pub fn new(name: &str) -> (p: Package)
        ensures
            p@.name == name@,
            p@.version is None,
            p@.alternatives =~= Seq::<Seq<char>>::empty(),
    {
        Package { name: String::from_str(name), version: None, alternatives: Vec::new() }
    }

    /// Add a version constraint to the package.
    pub fn with_version(self, version: &str) -> (p: Package)
        ensures
            p@.name == self@.name,
            p@.version == Some(version@),
            p@.alternatives == self@.alternatives,
    {
        Package {
            name: self.name,
            version: Some(String::from_str(version)),
            alternatives: self.alternatives,
        }
    }

    /// Add alternative package names for different package managers.
    pub fn with_alternatives(self, alternatives: Vec<String>) -> (p: Package)
        ensures
            p@.name == self@.name,
            p@.version == self@.version,
            p@.alternatives == alternatives.deep_view(),
    {
        Package { name: self.name, version: self.version, alternatives }
    }

    /// Get the best package name for the given package manager.
    pub fn name_for<'a>(&'a self, pm: &PackageManager) -> (r: &'a str)
        ensures
            r@ == spec_name_for(self@, *pm),
    {
        let tag: &str = match pm {
            PackageManager::Apt => "apt:",
            PackageManager::Yum => "yum:",
            PackageManager::Brew => "brew:",
        };
        let tag_len = tag.unicode_len();
        let mut i: usize = 0;
        while i < self.alternatives.len()
            invariant
                i <= self.alternatives.len(),
                tag@ == manager_tag(*pm),
                tag_len == tag@.len(),
                forall|j: int| 0 <= j < i ==> !alt_matches(#[trigger] self@.alternatives[j], *pm),
            decreases self.alternatives.len() - i,
        {
            let alt: &str = self.alternatives[i].as_str();
            assert(alt@ == self@.alternatives[i as int]);
            if text::starts_with(alt, tag) {
                proof {
                    lemma_first_alt_skip(self@.alternatives, *pm, i as int);
                    assert(self@.alternatives.skip(i as int)[0] == self@.alternatives[i as int]);
                }
                let n = alt.unicode_len();
                let payload = alt.substring_char(tag_len, n);
                proof {
                    assert(payload@ =~= alt@.skip(tag_len as int));
                }
                return payload;
            }
            i += 1;
        }
        proof {
            lemma_first_alt_skip(self@.alternatives, *pm, i as int);
            assert(self@.alternatives.skip(i as int).len() == 0);
        }
        self.name.as_str()
    }

    /// What `display_string` shows: `"name"` or `"name=version"`.
    pub open spec fn spec_display(p: PackageView) -> Seq<char> {
        match p.version {
            Some(v) => p.name + "="@ + v,
            None => p.name,
        }
    }

    /// Render the package as `"name"` or `"name=version"`.
    pub fn display_string(&self) -> (r: String)
        ensures
            r@ == Package::spec_display(self@),
    {
        match &self.version {
            Some(v) => {
                let mut s = self.name.clone();
                s.append("=");
                s.append(v.as_str());
                s
            },
            None => self.name.clone(),
        }
    }
}

impl Clone for Package {
    /// Cloning keeps the package's value.
    fn clone(&self) -> (p: Self)
        ensures
            p@ == self@,
    {
        let p = Package {
            name: self.name.clone(),
            version: match &self.version {
                Some(v) => Some(v.clone()),
                None => None,
            },
            alternatives: self.alternatives.clone(),
        };
        proof {
            assert(p@.alternatives =~= self@.alternatives);
            assert(p@ =~= self@);
        }
        p
    }
}

} // verus!
