//! The static catalog of logical package groups and their per-manager
//! alternative names.

use vstd::prelude::*;
use vstd::string::StringExecFns;

use crate::command::lemma_vec_push_deep_view;
use crate::package::{Package, PackageView};
use crate::text;

verus! {

broadcast use vstd::seq::group_seq_axioms;

/// A catalog entry: a canonical name, no version constraint, and one
/// alternative-name string per manager.
pub open spec fn pkgv(name: Seq<char>, alts: Seq<Seq<char>>) -> PackageView {
    PackageView { name, version: None, alternatives: alts }
}

/// What the catalog maps each logical group name to.
pub open spec fn spec_catalog_get(name: Seq<char>) -> Option<PackageView> {
    if name == "system-core"@ {
        Some(
            pkgv(
                "curl"@,
                seq![
                    "apt:apt-transport-https ca-certificates software-properties-common curl wget"@,
                    "yum:yum-utils ca-certificates curl wget"@,
                    "brew:curl wget coreutils gnu-sed"@,
                ],
            ),
        )
    } else if name == "build-essential"@ {
        Some(
            pkgv(
                "build-essential"@,
                seq![
                    "apt:build-essential pkg-config"@,
                    "yum:gcc gcc-c++ make"@,
                    "brew:gcc make xcode-select"@,
                ],
            ),
        )
    } else if name == "python-base"@ {
        Some(
            pkgv(
                "build-essential"@,
                seq![
                    "apt:build-essential libssl-dev libffi-dev zlib1g-dev"@,
                    "yum:gcc gcc-c++ openssl-devel libffi-devel zlib-devel"@,
                    "brew:openssl@3 xz"@,
                ],
            ),
        )
    } else if name == "shell-tools"@ {
        Some(
            pkgv(
                "zsh"@,
                seq![
                    "apt:zsh tmux htop tree ncdu jq fzf bat exa"@,
                    "yum:zsh tmux htop tree ncdu jq fzf bat exa"@,
                    "brew:zsh tmux htop tree ncdu jq fzf bat exa"@,
                ],
            ),
        )
    } else if name == "network-tools"@ {
        Some(
            pkgv(
                "net-tools"@,
                seq![
                    "apt:openvpn net-tools dnsutils iputils-ping traceroute mtr nmap"@,
                    "yum:openvpn net-tools bind-utils iputils traceroute mtr nmap"@,
                    "brew:openvpn iproute2mac bind-tools traceroute mtr nmap"@,
                ],
            ),
        )
    } else if name == "rust-base"@ {
        Some(
            pkgv(
                "build-essential"@,
                seq![
                    "apt:build-essential pkg-config libssl-dev"@,
                    "yum:gcc gcc-c++ openssl-devel"@,
                    "brew:openssl@3"@,
                ],
            ),
        )
    } else if name == "dev-tools"@ {
        Some(
            pkgv(
                "ripgrep"@,
                seq![
                    "apt:ripgrep fd-find exa bat git-lfs"@,
                    "yum:ripgrep fd-find exa bat git-lfs"@,
                    "brew:ripgrep fd exa bat git-lfs"@,
                ],
            ),
        )
    } else if name == "browsers"@ {
        Some(
            pkgv(
                "firefox"@,
                seq![
                    "apt:firefox firefox-geckodriver chromium-browser"@,
                    "yum:firefox geckodriver chromium"@,
                    "brew:firefox geckodriver chromium"@,
                ],
            ),
        )
    } else if name == "database"@ {
        Some(
            pkgv(
                "postgresql"@,
                seq![
                    "apt:postgresql postgresql-contrib postgresql-client"@,
                    "yum:postgresql postgresql-devel postgresql-libs"@,
                    "brew:postgresql@14 pgcli"@,
                ],
            ),
        )
    } else {
        None
    }
}

/// Build a package with three alternative-name strings.
fn pkg3(name: &str, a: &str, b: &str, c: &str) -> (p: Package)
    ensures
        p@ == pkgv(name@, seq![a@, b@, c@]),
{
    let mut alts: Vec<String> = Vec::new();
    let ghost v0 = alts;
    let sa = String::from_str(a);
    alts.push(sa);
    proof {
        lemma_vec_push_deep_view(v0, alts, sa);
    }
    let ghost v1 = alts;
    let sb = String::from_str(b);
    alts.push(sb);
    proof {
        lemma_vec_push_deep_view(v1, alts, sb);
    }
    let ghost v2 = alts;
    let sc = String::from_str(c);
    alts.push(sc);
    proof {
        lemma_vec_push_deep_view(v2, alts, sc);
        assert(alts.deep_view() =~= seq![a@, b@, c@]);
    }
    let p = Package::new(name).with_alternatives(alts);
    proof {
        assert(p@ =~= pkgv(name@, seq![a@, b@, c@]));
    }
    p
}

/// Get a package from the catalog.
pub fn get(name: &str) -> (r: Option<Package>)
    ensures
        match r {
            Some(p) => spec_catalog_get(name@) == Some(p@),
            None => spec_catalog_get(name@) is None,
        },
{
    proof {
        reveal_strlit("system-core");
        reveal_strlit("build-essential");
        reveal_strlit("python-base");
        reveal_strlit("shell-tools");
        reveal_strlit("network-tools");
        reveal_strlit("rust-base");
        reveal_strlit("dev-tools");
        reveal_strlit("browsers");
        reveal_strlit("database");
    }
    if text::str_eq(name, "system-core") {
        Some(
            pkg3(
                "curl",
                "apt:apt-transport-https ca-certificates software-properties-common curl wget",
                "yum:yum-utils ca-certificates curl wget",
                "brew:curl wget coreutils gnu-sed",
            ),
        )
    } else if text::str_eq(name, "build-essential") {
        Some(
            pkg3(
                "build-essential",
                "apt:build-essential pkg-config",
                "yum:gcc gcc-c++ make",
                "brew:gcc make xcode-select",
            ),
        )
    } else if text::str_eq(name, "python-base") {
        Some(
            pkg3(
                "build-essential",
                "apt:build-essential libssl-dev libffi-dev zlib1g-dev",
                "yum:gcc gcc-c++ openssl-devel libffi-devel zlib-devel",
                "brew:openssl@3 xz",
            ),
        )
    } else if text::str_eq(name, "shell-tools") {
        Some(
            pkg3(
                "zsh",
                "apt:zsh tmux htop tree ncdu jq fzf bat exa",
                "yum:zsh tmux htop tree ncdu jq fzf bat exa",
                "brew:zsh tmux htop tree ncdu jq fzf bat exa",
            ),
        )
    } else if text::str_eq(name, "network-tools") {
        Some(
            pkg3(
                "net-tools",
                "apt:openvpn net-tools dnsutils iputils-ping traceroute mtr nmap",
                "yum:openvpn net-tools bind-utils iputils traceroute mtr nmap",
                "brew:openvpn iproute2mac bind-tools traceroute mtr nmap",
            ),
        )
    } else if text::str_eq(name, "rust-base") {
        Some(
            pkg3(
                "build-essential",
                "apt:build-essential pkg-config libssl-dev",
                "yum:gcc gcc-c++ openssl-devel",
                "brew:openssl@3",
            ),
        )
    } else if text::str_eq(name, "dev-tools") {
        Some(
            pkg3(
                "ripgrep",
                "apt:ripgrep fd-find exa bat git-lfs",
                "yum:ripgrep fd-find exa bat git-lfs",
                "brew:ripgrep fd exa bat git-lfs",
            ),
        )
    } else if text::str_eq(name, "browsers") {
        Some(
            pkg3(
                "firefox",
                "apt:firefox firefox-geckodriver chromium-browser",
                "yum:firefox geckodriver chromium",
                "brew:firefox geckodriver chromium",
            ),
        )
    } else if text::str_eq(name, "database") {
        Some(
            pkg3(
                "postgresql",
                "apt:postgresql postgresql-contrib postgresql-client",
                "yum:postgresql postgresql-devel postgresql-libs",
                "brew:postgresql@14 pgcli",
            ),
        )
    } else {
        None
    }
}

/// What `get_many` returns: the catalog's entry for each name that has
/// one, in order; names without an entry are passed over.
pub open spec fn spec_get_many(names: Seq<Seq<char>>) -> Seq<PackageView>
    decreases names.len(),
{
    if names.len() == 0 {
        Seq::empty()
    } else {
        match spec_catalog_get(names[0]) {
            Some(p) => seq![p] + spec_get_many(names.skip(1)),
            None => spec_get_many(names.skip(1)),
        }
    }
}

/// Get multiple packages from the catalog.
pub fn get_many(names: &Vec<&str>) -> (r: Vec<Package>)
    ensures
        r.deep_view() == spec_get_many(names.deep_view()),
{
    let ghost nv = names.deep_view();
    let mut out: Vec<Package> = Vec::new();
    let mut i: usize = 0;
    proof {
        assert(nv.skip(0) =~= nv);
        assert(out.deep_view() =~= Seq::<PackageView>::empty());
    }
    while i < names.len()
        invariant
            i <= names.len(),
            nv == names.deep_view(),
            out.deep_view() + spec_get_many(nv.skip(i as int)) =~= spec_get_many(nv),
        decreases names.len() - i,
    {
        proof {
            assert(nv.skip(i as int)[0] == nv[i as int]);
            assert(nv.skip(i as int).skip(1) =~= nv.skip(i + 1));
        }
        match get(names[i]) {
            Some(p) => {
                let ghost pre = out;
                out.push(p);
                proof {
                    lemma_vec_push_deep_view(pre, out, p);
                    assert(out.deep_view() + spec_get_many(nv.skip(i + 1)) =~= spec_get_many(nv));
                }
            },
            None => {},
        }
        i += 1;
    }
    proof {
        assert(nv.skip(names.len() as int).len() == 0);
        assert(out.deep_view() =~= spec_get_many(nv));
    }
    out
}

/// The logical groups every installation needs.
pub open spec fn base_package_names() -> Seq<Seq<char>> {
    seq!["system-core"@, "build-essential"@]
}

/// Get base system packages required for all installations.
pub fn get_base_packages() -> (r: Vec<Package>)
    ensures
        r.deep_view() == spec_get_many(base_package_names()),
{
    let mut names: Vec<&str> = Vec::new();
    names.push("system-core");
    names.push("build-essential");
    proof {
        assert(names.deep_view() =~= base_package_names());
    }
    get_many(&names)
}

/// The logical groups of the development environment.
pub open spec fn dev_package_names() -> Seq<Seq<char>> {
    seq![
        "python-base"@,
        "rust-base"@,
        "shell-tools"@,
        "network-tools"@,
        "dev-tools"@,
        "browsers"@,
        "database"@,
    ]
}

/// Get development environment packages.
pub fn get_dev_packages() -> (r: Vec<Package>)
    ensures
        r.deep_view() == spec_get_many(dev_package_names()),
{
    let mut names: Vec<&str> = Vec::new();
    names.push("python-base");
    names.push("rust-base");
    names.push("shell-tools");
    names.push("network-tools");
    names.push("dev-tools");
    names.push("browsers");
    names.push("database");
    proof {
        assert(names.deep_view() =~= dev_package_names());
    }
    get_many(&names)
}

/// The cargo-installed tools.
pub open spec fn cargo_package_names() -> Seq<Seq<char>> {
    seq![
        "dioxus-cli"@,
        "hurl"@,
        "ruff"@,
        "pueue"@,
        "zellij"@,
        "zoxide"@,
        "wasm-pack"@,
        "taplo-cli"@,
        "cargo-watch"@,
        "cargo-edit"@,
        "cargo-update"@,
    ]
}

/// Get the list of cargo packages to install.
pub fn get_cargo_packages() -> (r: Vec<&'static str>)
    ensures
        r.deep_view() == cargo_package_names(),
{
    let mut names: Vec<&str> = Vec::new();
    names.push("dioxus-cli");
    names.push("hurl");
    names.push("ruff");
    names.push("pueue");
    names.push("zellij");
    names.push("zoxide");
    names.push("wasm-pack");
    names.push("taplo-cli");
    names.push("cargo-watch");
    names.push("cargo-edit");
    names.push("cargo-update");
    proof {
        assert(names.deep_view() =~= cargo_package_names());
    }
    names
}

} // verus!
