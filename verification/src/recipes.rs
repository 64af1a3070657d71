//! Declarative per-platform package tables and their validation.

use vstd::prelude::*;
use vstd::string::StringExecFns;

use crate::command::lemma_vec_push_deep_view;
use crate::engine::valid_name;
use crate::errors::SetupError;
use crate::manager::PackageManager;
use crate::text;

verus! {

broadcast use vstd::seq::group_seq_axioms;

/// One package to install and which manager installs it.
#[derive(Debug)]
pub struct PackageSpec {
    pub name: String,
    pub manager_type: PackageManager,
}

/// The mathematical value of a `PackageSpec`.
#[verifier::ext_equal]
pub struct PackageSpecView {
    pub name: Seq<char>,
    pub manager_type: PackageManager,
}

impl View for PackageSpec {
    type V = PackageSpecView;

    open spec fn view(&self) -> PackageSpecView {
        PackageSpecView { name: self.name@, manager_type: self.manager_type }
    }
}

impl DeepView for PackageSpec {
    type V = PackageSpecView;

    open spec fn deep_view(&self) -> PackageSpecView {
        self.view()
    }
}

/// Shorthand for a package-spec value in specifications.
pub open spec fn psv(name: Seq<char>, manager_type: PackageManager) -> PackageSpecView {
    PackageSpecView { name, manager_type }
}

impl PackageSpec {
    /// A spec for one package under one manager.
    pub fn new(name: &str, manager_type: PackageManager) -> (r: PackageSpec)
        ensures
            r@ == psv(name@, manager_type),
    {
        PackageSpec { name: String::from_str(name), manager_type }
    }
}

impl Clone for PackageSpec {
    /// Cloning keeps the spec's value.
    fn clone(&self) -> (r: Self)
        ensures
            r@ == self@,
    {
        PackageSpec { name: self.name.clone(), manager_type: self.manager_type }
    }
}

/// A platform table: what each platform name maps to.
pub type TableView = Seq<(Seq<char>, Seq<PackageSpecView>)>;

/// The package list of the first entry for `platform`, if any.
pub open spec fn spec_table_lookup(t: TableView, platform: Seq<char>) -> Option<
    Seq<PackageSpecView>,
>
    decreases t.len(),
{
    if t.len() == 0 {
        None
    } else if t[0].0 == platform {
        Some(t[0].1)
    } else {
        spec_table_lookup(t.skip(1), platform)
    }
}

/// A platform's package list is well-formed: non-empty, one manager
/// throughout, and every name fit to hand to an installer.
pub open spec fn spec_entry_valid(specs: Seq<PackageSpecView>) -> bool {
    &&& specs.len() > 0
    &&& forall|i: int|
        0 <= i < specs.len() ==> (#[trigger] specs[i]).manager_type == specs[0].manager_type
    &&& forall|i: int| 0 <= i < specs.len() ==> valid_name((#[trigger] specs[i]).name)
}

/// Every platform's list in the table is well-formed.
pub open spec fn spec_table_valid(t: TableView) -> bool {
    forall|j: int| 0 <= j < t.len() ==> spec_entry_valid((#[trigger] t[j]).1)
}

/// Build a platform's list of three packages under one manager.
fn specs3(a: &str, b: &str, c: &str, pm: PackageManager) -> (v: Vec<PackageSpec>)
    ensures
        v.deep_view() =~= seq![psv(a@, pm), psv(b@, pm), psv(c@, pm)],
{
    let mut v: Vec<PackageSpec> = Vec::new();
    let ghost v0 = v;
    let sa = PackageSpec::new(a, pm);
    v.push(sa);
    proof {
        lemma_vec_push_deep_view(v0, v, sa);
    }
    let ghost v1 = v;
    let sb = PackageSpec::new(b, pm);
    v.push(sb);
    proof {
        lemma_vec_push_deep_view(v1, v, sb);
    }
    let ghost v2 = v;
    let sc = PackageSpec::new(c, pm);
    v.push(sc);
    proof {
        lemma_vec_push_deep_view(v2, v, sc);
    }
    v
}

/// Look up `platform` in a table.
fn table_get<'a>(t: &'a Vec<(String, Vec<PackageSpec>)>, platform: &str) -> (r: Result<
    &'a Vec<PackageSpec>,
    SetupError,
>)
    ensures
        match r {
            Ok(v) => spec_table_lookup(t.deep_view(), platform@) == Some(v.deep_view()),
            Err(e) => spec_table_lookup(t.deep_view(), platform@) is None && e@
                == (crate::errors::SetupErrorView::DetectionFailure {
                message: "Unsupported platform: "@ + platform@,
            }),
        },
{
    let ghost tv = t.deep_view();
    let mut i: usize = 0;
    proof {
        assert(tv.skip(0) =~= tv);
    }
    while i < t.len()
        invariant
            i <= t.len(),
            tv == t.deep_view(),
            spec_table_lookup(tv, platform@) == spec_table_lookup(tv.skip(i as int), platform@),
        decreases t.len() - i,
    {
        proof {
            assert(tv.skip(i as int)[0] == tv[i as int]);
            assert(tv.skip(i as int).skip(1) =~= tv.skip(i + 1));
        }
        if text::str_eq(t[i].0.as_str(), platform) {
            return Ok(&t[i].1);
        }
        i += 1;
    }
    let mut m = String::from_str("Unsupported platform: ");
    m.append(platform);
    Err(SetupError::DetectionFailure { message: m })
}

/// Check every entry of a table.
fn table_validate(t: &Vec<(String, Vec<PackageSpec>)>) -> (r: Result<(), SetupError>)
    ensures
        r is Ok <==> spec_table_valid(t.deep_view()),
        r is Err ==> r->Err_0@ is InvalidRecipe,
{
    let ghost tv = t.deep_view();
    let mut j: usize = 0;
    while j < t.len()
        invariant
            j <= t.len(),
            tv == t.deep_view(),
            forall|x: int| 0 <= x < j ==> spec_entry_valid((#[trigger] tv[x]).1),
        decreases t.len() - j,
    {
        let entry = &t[j];
        proof {
            assert(tv[j as int] == t@[j as int].deep_view());
        }
        if entry.1.len() == 0 {
            let mut m = String::from_str("empty package list for platform: ");
            m.append(entry.0.as_str());
            proof {
                assert(!spec_entry_valid(tv[j as int].1));
            }
            return Err(SetupError::InvalidRecipe { message: m });
        }
        let expected = entry.1[0].manager_type;
        let mut i: usize = 0;
        while i < entry.1.len()
            invariant
                i <= entry.1.len(),
                entry.1.len() > 0,
                tv == t.deep_view(),
                0 <= (j as int) < tv.len(),
                tv[j as int].1 == entry.1.deep_view(),
                expected == tv[j as int].1[0].manager_type,
                forall|x: int|
                    0 <= x < i ==> (#[trigger] tv[j as int].1[x]).manager_type == expected,
                forall|x: int| 0 <= x < i ==> valid_name((#[trigger] tv[j as int].1[x]).name),
            decreases entry.1.len() - i,
        {
            let spec_i = &entry.1[i];
            proof {
                assert(tv[j as int].1[i as int] == entry.1@[i as int]@);
            }
            let same = match (spec_i.manager_type, expected) {
                (PackageManager::Apt, PackageManager::Apt) => true,
                (PackageManager::Yum, PackageManager::Yum) => true,
                (PackageManager::Brew, PackageManager::Brew) => true,
                _ => false,
            };
            if !same {
                let mut m = String::from_str("inconsistent package manager types in platform: ");
                m.append(entry.0.as_str());
                proof {
                    assert(!spec_entry_valid(tv[j as int].1));
                }
                return Err(SetupError::InvalidRecipe { message: m });
            }
            if spec_i.name.as_str().is_empty() || text::contains_space(spec_i.name.as_str()) {
                let mut m = String::from_str("invalid package name in platform: ");
                m.append(entry.0.as_str());
                proof {
                    assert(!valid_name(tv[j as int].1[i as int].name));
                    assert(!spec_entry_valid(tv[j as int].1));
                }
                return Err(SetupError::InvalidRecipe { message: m });
            }
            i += 1;
        }
        proof {
            assert(spec_entry_valid(tv[j as int].1));
        }
        j += 1;
    }
    Ok(())
}

/// Replace the first entry for `platform`, or add one.
fn table_insert(t: &mut Vec<(String, Vec<PackageSpec>)>, platform: &str, specs: Vec<PackageSpec>)
    ensures
        spec_table_lookup(final(t).deep_view(), platform@) == Some(specs.deep_view()),
{
    let ghost tv = t.deep_view();
    let mut i: usize = 0;
    while i < t.len()
        invariant
            i <= t.len(),
            tv == t.deep_view(),
            forall|x: int| 0 <= x < i ==> (#[trigger] tv[x]).0 != platform@,
        decreases t.len() - i,
    {
        if text::str_eq(t[i].0.as_str(), platform) {
            let ghost pre = *t;
            t.set(i, (String::from_str(platform), specs));
            proof {
                assert(t.deep_view() =~= tv.update(i as int, (platform@, specs.deep_view())));
                lemma_lookup_found(t.deep_view(), platform@, i as int);
            }
            return;
        }
        i += 1;
    }
    let ghost pre = *t;
    let e = (String::from_str(platform), specs);
    t.push(e);
    proof {
        lemma_vec_push_deep_view(pre, *t, e);
        lemma_lookup_found(t.deep_view(), platform@, tv.len() as int);
    }
}

/// A table whose first entry for `platform` sits at `i`, with no earlier
/// one, looks `platform` up to that entry.
proof fn lemma_lookup_found(t: TableView, platform: Seq<char>, i: int)
    requires
        0 <= i < t.len(),
        t[i].0 == platform,
        forall|x: int| 0 <= x < i ==> (#[trigger] t[x]).0 != platform,
    ensures
        spec_table_lookup(t, platform) == Some(t[i].1),
    decreases i,
{
    if i > 0 {
        assert(forall|x: int| 0 <= x < i - 1 ==> (#[trigger] t.skip(1)[x]).0 != platform) by {
            assert(forall|x: int| 0 <= x < i - 1 ==> t.skip(1)[x] == t[x + 1]);
        }
        assert(t.skip(1)[i - 1] == t[i]);
        lemma_lookup_found(t.skip(1), platform, i - 1);
    }
}

/// What `Recipe::new` builds: the same three shell tools on each platform,
/// under that platform's manager.
pub open spec fn spec_base_table() -> TableView {
    seq![
        (
            "ubuntu"@,
            seq![
                psv("zsh"@, PackageManager::Apt),
                psv("tmux"@, PackageManager::Apt),
                psv("htop"@, PackageManager::Apt),
            ],
        ),
        (
            "amazon"@,
            seq![
                psv("zsh"@, PackageManager::Yum),
                psv("tmux"@, PackageManager::Yum),
                psv("htop"@, PackageManager::Yum),
            ],
        ),
        (
            "macos"@,
            seq![
                psv("zsh"@, PackageManager::Brew),
                psv("tmux"@, PackageManager::Brew),
                psv("htop"@, PackageManager::Brew),
            ],
        ),
    ]
}

/// The base platform recipe: which packages each platform installs.
#[derive(Debug)]
pub struct Recipe {
    pub packages: Vec<(String, Vec<PackageSpec>)>,
}

impl Recipe {
    /// The fixed base table.
    pub fn new() -> (r: Recipe)
        ensures
            r.packages.deep_view() == spec_base_table(),
    {
        let mut packages: Vec<(String, Vec<PackageSpec>)> = Vec::new();
        let ghost v0 = packages;
        let ubuntu = (
            String::from_str("ubuntu"),
            specs3("zsh", "tmux", "htop", PackageManager::Apt),
        );
        packages.push(ubuntu);
        proof {
            lemma_vec_push_deep_view(v0, packages, ubuntu);
        }
        let ghost v1 = packages;
        let amazon = (
            String::from_str("amazon"),
            specs3("zsh", "tmux", "htop", PackageManager::Yum),
        );
        packages.push(amazon);
        proof {
            lemma_vec_push_deep_view(v1, packages, amazon);
        }
        let ghost v2 = packages;
        let macos = (
            String::from_str("macos"),
            specs3("zsh", "tmux", "htop", PackageManager::Brew),
        );
        packages.push(macos);
        proof {
            lemma_vec_push_deep_view(v2, packages, macos);
            assert(packages.deep_view() =~~= spec_base_table());
        }
        Recipe { packages }
    }

    /// The packages to install on `platform`, or an error naming it.
    pub fn get_packages<'a>(&'a self, platform: &str) -> (r: Result<&'a Vec<PackageSpec>, SetupError>)
        ensures
            match r {
                Ok(v) => spec_table_lookup(self.packages.deep_view(), platform@) == Some(
                    v.deep_view(),
                ),
                Err(e) => spec_table_lookup(self.packages.deep_view(), platform@) is None && e@
                    == (crate::errors::SetupErrorView::DetectionFailure {
                    message: "Unsupported platform: "@ + platform@,
                }),
            },
    {
        table_get(&self.packages, platform)
    }

    /// Check the whole table: succeeds exactly when every platform's list
    /// is non-empty, uses one manager throughout, and holds valid names.
    pub fn validate(&self) -> (r: Result<(), SetupError>)
        ensures
            r is Ok <==> spec_table_valid(self.packages.deep_view()),
            r is Err ==> r->Err_0@ is InvalidRecipe,
    {
        table_validate(&self.packages)
    }

    /// Replace the package list of `platform`, or add one.
    pub fn insert(&mut self, platform: &str, specs: Vec<PackageSpec>)
        ensures
            spec_table_lookup(final(self).packages.deep_view(), platform@) == Some(
                specs.deep_view(),
            ),
    {
        table_insert(&mut self.packages, platform, specs)
    }
}

/// What `DevToolsRecipe::new` builds: per-platform developer tools, with
/// per-platform name differences and omissions.
pub open spec fn spec_devtools_table() -> TableView {
    seq![
        (
            "ubuntu"@,
            seq![
                psv("ripgrep"@, PackageManager::Apt),
                psv("fd-find"@, PackageManager::Apt),
                psv("bat"@, PackageManager::Apt),
                psv("exa"@, PackageManager::Apt),
            ],
        ),
        (
            "amazon"@,
            seq![psv("ripgrep"@, PackageManager::Yum), psv("exa"@, PackageManager::Yum)],
        ),
        (
            "macos"@,
            seq![
                psv("ripgrep"@, PackageManager::Brew),
                psv("fd"@, PackageManager::Brew),
                psv("bat"@, PackageManager::Brew),
                psv("exa"@, PackageManager::Brew),
            ],
        ),
    ]
}

/// The developer-tools platform recipe.
#[derive(Debug)]
pub struct DevToolsRecipe {
    pub packages: Vec<(String, Vec<PackageSpec>)>,
}

impl DevToolsRecipe {
    /// The fixed developer-tools table. `fd-find` is `fd` under Homebrew,
    /// and `fd-find` and `bat` are absent from the Amazon Linux repos.
    pub fn new() -> (r: DevToolsRecipe)
        ensures
            r.packages.deep_view() == spec_devtools_table(),
    {
        let mut packages: Vec<(String, Vec<PackageSpec>)> = Vec::new();

        let mut u: Vec<PackageSpec> = specs3("ripgrep", "fd-find", "bat", PackageManager::Apt);
        let ghost u3 = u;
        let ue = PackageSpec::new("exa", PackageManager::Apt);
        u.push(ue);
        proof {
            lemma_vec_push_deep_view(u3, u, ue);
        }
        let ghost v0 = packages;
        let ubuntu = (String::from_str("ubuntu"), u);
        packages.push(ubuntu);
        proof {
            lemma_vec_push_deep_view(v0, packages, ubuntu);
        }

        let mut a: Vec<PackageSpec> = Vec::new();
        let ghost a0 = a;
        let ar = PackageSpec::new("ripgrep", PackageManager::Yum);
        a.push(ar);
        proof {
            lemma_vec_push_deep_view(a0, a, ar);
        }
        let ghost a1 = a;
        let ae = PackageSpec::new("exa", PackageManager::Yum);
        a.push(ae);
        proof {
            lemma_vec_push_deep_view(a1, a, ae);
        }
        let ghost v1 = packages;
        let amazon = (String::from_str("amazon"), a);
        packages.push(amazon);
        proof {
            lemma_vec_push_deep_view(v1, packages, amazon);
        }

        let mut m: Vec<PackageSpec> = specs3("ripgrep", "fd", "bat", PackageManager::Brew);
        let ghost m3 = m;
        let me = PackageSpec::new("exa", PackageManager::Brew);
        m.push(me);
        proof {
            lemma_vec_push_deep_view(m3, m, me);
        }
        let ghost v2 = packages;
        let macos = (String::from_str("macos"), m);
        packages.push(macos);
        proof {
            lemma_vec_push_deep_view(v2, packages, macos);
            assert(packages.deep_view() =~~= spec_devtools_table());
        }
        DevToolsRecipe { packages }
    }

    /// The packages to install on `platform`, or an error naming it.
    pub fn get_packages<'a>(&'a self, platform: &str) -> (r: Result<
        &'a Vec<PackageSpec>,
        SetupError,
    >)
        ensures
            match r {
                Ok(v) => spec_table_lookup(self.packages.deep_view(), platform@) == Some(
                    v.deep_view(),
                ),
                Err(e) => spec_table_lookup(self.packages.deep_view(), platform@) is None && e@
                    == (crate::errors::SetupErrorView::DetectionFailure {
                    message: "Unsupported platform: "@ + platform@,
                }),
            },
    {
        table_get(&self.packages, platform)
    }

    /// Check the whole table, as `Recipe::validate` does.
    pub fn validate(&self) -> (r: Result<(), SetupError>)
        ensures
            r is Ok <==> spec_table_valid(self.packages.deep_view()),
            r is Err ==> r->Err_0@ is InvalidRecipe,
    {
        table_validate(&self.packages)
    }
}

} // verus!
