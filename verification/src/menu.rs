//! The installable components offered by the interactive menu.

use vstd::prelude::*;
use vstd::string::StringExecFns;

use crate::command::lemma_vec_push_deep_view;
use crate::text;

verus! {

broadcast use vstd::seq::group_seq_axioms;

/// Where an installation goes.
#[derive(Clone, Copy, Debug, PartialEq, Eq, Structural)]
pub enum InstallTarget {
    Host,
    DevContainer,
}

impl InstallTarget {
    /// What the menu shows for this target.
    pub open spec fn spec_display(self) -> Seq<char> {
        match self {
            InstallTarget::Host => "Install on Host System"@,
            InstallTarget::DevContainer => "Install in Dev Container"@,
        }
    }

    /// Render the target as the menu shows it.
    pub fn display_string(&self) -> (r: String)
        ensures
            r@ == self.spec_display(),
    {
        match self {
            InstallTarget::Host => String::from_str("Install on Host System"),
            InstallTarget::DevContainer => String::from_str("Install in Dev Container"),
        }
    }
}

/// One installable component.
#[derive(Debug)]
pub struct InstallModule {
    pub name: String,
    pub description: String,
    pub dependencies: Vec<String>,
    pub commands: Vec<String>,
}

/// The mathematical value of an `InstallModule`.
#[verifier::ext_equal]
pub struct ModuleView {
    pub name: Seq<char>,
    pub description: Seq<char>,
    pub dependencies: Seq<Seq<char>>,
    pub commands: Seq<Seq<char>>,
}

impl View for InstallModule {
    type V = ModuleView;

    open spec fn view(&self) -> ModuleView {
        ModuleView {
            name: self.name@,
            description: self.description@,
            dependencies: self.dependencies.deep_view(),
            commands: self.commands.deep_view(),
        }
    }
}

impl DeepView for InstallModule {
    type V = ModuleView;

    open spec fn deep_view(&self) -> ModuleView {
        self.view()
    }
}

impl Clone for InstallModule {
    /// Cloning keeps the module's value.
    fn clone(&self) -> (r: Self)
        ensures
            r@ == self@,
    {
        let r = InstallModule {
            name: self.name.clone(),
            description: self.description.clone(),
            dependencies: self.dependencies.clone(),
            commands: self.commands.clone(),
        };
        proof {
            assert(r@.dependencies =~= self@.dependencies);
            assert(r@.commands =~= self@.commands);
            assert(r@ =~= self@);
        }
        r
    }
}

/// What the user chose: a target and the components to install there.
#[derive(Debug)]
pub struct InstallPlan {
    pub target: Option<InstallTarget>,
    pub components: Vec<InstallModule>,
}

/// Shorthand for a module value in specifications.
pub open spec fn modv(
    name: Seq<char>,
    description: Seq<char>,
    dependencies: Seq<Seq<char>>,
) -> ModuleView {
    ModuleView { name, description, dependencies, commands: Seq::empty() }
}

/// The fixed component list the menu offers, separator row included.
pub open spec fn spec_available_components() -> Seq<ModuleView> {
    seq![
        modv(
            "Secret.Rust (cysec)"@,
            "Secure Rust development environment with cryptographic tools and security features."@,
            seq!["libssl-dev"@, "pkg-config"@],
        ),
        modv(
            "Cyrup ML"@,
            "Machine Learning environment with CUDA support, Python ML libraries, and Jupyter."@,
            seq!["python3-pip"@, "nvidia-cuda-toolkit"@],
        ),
        modv(
            "Cyrup AI (cyrup, cyrupd)"@,
            "AI development environment with Cyrup CLI and daemon for local AI development."@,
            seq!["python3-venv"@, "python3-dev"@],
        ),
        modv("───────────────────"@, ""@, Seq::empty()),
        modv(
            "Cyrup Developer"@,
            "Development environment with Rust, Python, and common development tools."@,
            seq!["build-essential"@, "git"@, "curl"@],
        ),
    ]
}

/// Build one component.
fn module(name: &str, description: &str, dependencies: Vec<String>) -> (r: InstallModule)
    ensures
        r@ == modv(name@, description@, dependencies.deep_view()),
{
    let r = InstallModule {
        name: String::from_str(name),
        description: String::from_str(description),
        dependencies,
        commands: Vec::new(),
    };
    proof {
        assert(r@.commands =~= Seq::<Seq<char>>::empty());
        assert(r@ =~= modv(name@, description@, dependencies.deep_view()));
    }
    r
}

/// The components the menu offers, separator row included.
pub fn get_available_components() -> (r: Vec<InstallModule>)
    ensures
        r.deep_view() == spec_available_components(),
{
    let mut out: Vec<InstallModule> = Vec::new();

    let ghost v0 = out;
    let m0 = module(
        "Secret.Rust (cysec)",
        "Secure Rust development environment with cryptographic tools and security features.",
        text::owned_strings(vec!["libssl-dev", "pkg-config"]),
    );
    out.push(m0);
    proof {
        lemma_vec_push_deep_view(v0, out, m0);
    }

    let ghost v1 = out;
    let m1 = module(
        "Cyrup ML",
        "Machine Learning environment with CUDA support, Python ML libraries, and Jupyter.",
        text::owned_strings(vec!["python3-pip", "nvidia-cuda-toolkit"]),
    );
    out.push(m1);
    proof {
        lemma_vec_push_deep_view(v1, out, m1);
    }

    let ghost v2 = out;
    let m2 = module(
        "Cyrup AI (cyrup, cyrupd)",
        "AI development environment with Cyrup CLI and daemon for local AI development.",
        text::owned_strings(vec!["python3-venv", "python3-dev"]),
    );
    out.push(m2);
    proof {
        lemma_vec_push_deep_view(v2, out, m2);
    }

    let ghost v3 = out;
    let m3 = module("───────────────────", "", Vec::new());
    out.push(m3);
    proof {
        lemma_vec_push_deep_view(v3, out, m3);
    }

    let ghost v4 = out;
    let m4 = module(
        "Cyrup Developer",
        "Development environment with Rust, Python, and common development tools.",
        text::owned_strings(vec!["build-essential", "git", "curl"]),
    );
    out.push(m4);
    proof {
        lemma_vec_push_deep_view(v4, out, m4);
        assert(out.deep_view() =~~= spec_available_components());
    }
    out
}

/// What the menu explains about a target.
pub open spec fn spec_target_description(target: InstallTarget) -> Seq<char> {
    match target {
        InstallTarget::Host => "Install directly on your host system."@,
        InstallTarget::DevContainer =>
            "Install in a Docker-based VS Code Dev Container for isolated development."@,
    }
}

/// Explain an installation target.
pub fn get_target_description(target: &InstallTarget) -> (r: String)
    ensures
        r@ == spec_target_description(*target),
{
    match target {
        InstallTarget::Host => String::from_str("Install directly on your host system."),
        InstallTarget::DevContainer => String::from_str(
            "Install in a Docker-based VS Code Dev Container for isolated development.",
        ),
    }
}

/// A module row the user can actually install: not a separator.
pub open spec fn is_real_module(m: ModuleView) -> bool {
    !text::spec_starts_with(m.name, "─"@)
}

/// The component rows of `s` that are not separators, in order.
pub open spec fn spec_real_modules(s: Seq<ModuleView>) -> Seq<ModuleView>
    decreases s.len(),
{
    if s.len() == 0 {
        Seq::empty()
    } else if is_real_module(s[0]) {
        seq![s[0]] + spec_real_modules(s.skip(1))
    } else {
        spec_real_modules(s.skip(1))
    }
}

/// Drop separator rows from a selection.
pub fn filter_separators(components: Vec<InstallModule>) -> (r: Vec<InstallModule>)
    ensures
        r.deep_view() == spec_real_modules(components.deep_view()),
{
    let ghost cv = components.deep_view();
    let mut out: Vec<InstallModule> = Vec::new();
    let mut i: usize = 0;
    proof {
        assert(cv.skip(0) =~= cv);
        assert(out.deep_view() =~= Seq::<ModuleView>::empty());
    }
    while i < components.len()
        invariant
            i <= components.len(),
            cv == components.deep_view(),
            out.deep_view() + spec_real_modules(cv.skip(i as int)) =~= spec_real_modules(cv),
        decreases components.len() - i,
    {
        proof {
            assert(cv.skip(i as int)[0] == cv[i as int]);
            assert(cv.skip(i as int).skip(1) =~= cv.skip(i + 1));
        }
        let m = &components[i];
        proof {
            assert(m@ == cv[i as int]);
        }
        if !text::starts_with(m.name.as_str(), "─") {
            let c = m.clone();
            let ghost pre = out;
            out.push(c);
            proof {
                lemma_vec_push_deep_view(pre, out, c);
                assert(out.deep_view() + spec_real_modules(cv.skip(i + 1)) =~= spec_real_modules(
                    cv,
                ));
            }
        }
        i += 1;
    }
    proof {
        assert(cv.skip(components.len() as int).len() == 0);
        assert(out.deep_view() =~= spec_real_modules(cv));
    }
    out
}

} // verus!
