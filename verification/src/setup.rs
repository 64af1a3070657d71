//! Host-setup decisions: the home directory fallback, the commands that
//! ready a platform's package manager, and the install-or-upgrade rule.

use vstd::prelude::*;
use vstd::string::StringExecFns;

use crate::command::{lemma_vec_push_deep_view, CommandLine, CommandLineView};
use crate::errors::{SetupError, SetupErrorView};
use crate::manager::cmdv;
use crate::text;

verus! {

broadcast use vstd::seq::group_seq_axioms;

/// The home directory assumed when the environment names none: root's on
/// the Linux platforms, the user's folder on macOS.
pub open spec fn spec_default_home(os: Seq<char>, username: Seq<char>) -> Seq<char> {
    if os == "ubuntu"@ || os == "amazon"@ {
        "/root"@
    } else {
        "/Users/"@ + username
    }
}

/// The home directory to assume for `username` when the environment names
/// none.
pub fn default_home_for(os: &str, username: &str) -> (r: String)
    ensures
        r@ == spec_default_home(os@, username@),
{
    if text::str_eq(os, "ubuntu") || text::str_eq(os, "amazon") {
        String::from_str("/root")
    } else {
        let mut s = String::from_str("/Users/");
        s.append(username);
        s
    }
}

/// The commands that ready a platform's package manager, in order. On
/// macOS, a missing Homebrew is bootstrapped first, and on Apple silicon
/// its shell environment is loaded; the Linux platforms clean and refresh
/// their manager's metadata.
pub open spec fn spec_setup_plan(
    os: Seq<char>,
    brew_present: bool,
    arch_is_aarch64: bool,
) -> Option<Seq<CommandLineView>> {
    if os == "ubuntu"@ {
        Some(
            seq![
                cmdv("sudo"@, seq!["-n"@, "apt-get"@, "-y"@, "clean"@]),
                cmdv("sudo"@, seq!["-n"@, "apt-get"@, "-y"@, "update"@]),
            ],
        )
    } else if os == "amazon"@ {
        Some(
            seq![
                cmdv("sudo"@, seq!["-n"@, "yum"@, "-y"@, "clean"@, "all"@]),
                cmdv("sudo"@, seq!["-n"@, "yum"@, "-y"@, "makecache"@]),
            ],
        )
    } else if os == "macos"@ {
        let bootstrap: Seq<CommandLineView> = if brew_present {
            Seq::empty()
        } else if arch_is_aarch64 {
            seq![
                cmdv(
                    "bash"@,
                    seq![
                        "-c"@,
                        "/bin/bash -c \"$(curl -fsSL https://raw.githubusercontent.com/Homebrew/install/HEAD/install.sh)\""@,
                    ],
                ),
                cmdv("bash"@, seq!["-c"@, "eval \"$(/opt/homebrew/bin/brew shellenv)\""@]),
            ]
        } else {
            seq![
                cmdv(
                    "bash"@,
                    seq![
                        "-c"@,
                        "/bin/bash -c \"$(curl -fsSL https://raw.githubusercontent.com/Homebrew/install/HEAD/install.sh)\""@,
                    ],
                ),
            ]
        };
        Some(bootstrap + seq![cmdv("brew"@, seq!["update"@, "--force"@])])
    } else {
        None
    }
}

/// Plan the commands that ready the package manager of `os`, or fail for
/// an unsupported system, naming it.
pub fn setup_package_manager_plan(os: &str, brew_present: bool, arch_is_aarch64: bool) -> (r:
    Result<Vec<CommandLine>, SetupError>)
    ensures
        match r {
            Ok(cmds) => spec_setup_plan(os@, brew_present, arch_is_aarch64) == Some(
                cmds.deep_view(),
            ),
            Err(e) => spec_setup_plan(os@, brew_present, arch_is_aarch64) is None && e@
                == (SetupErrorView::DetectionFailure {
                message: "Unsupported operating system: "@ + os@,
            }),
        },
{
    let mut cmds: Vec<CommandLine> = Vec::new();
    if text::str_eq(os, "ubuntu") {
        let ghost v0 = cmds;
        let c0 = CommandLine::new("sudo", vec!["-n", "apt-get", "-y", "clean"]);
        cmds.push(c0);
        proof {
            lemma_vec_push_deep_view(v0, cmds, c0);
        }
        let ghost v1 = cmds;
        let c1 = CommandLine::new("sudo", vec!["-n", "apt-get", "-y", "update"]);
        cmds.push(c1);
        proof {
            lemma_vec_push_deep_view(v1, cmds, c1);
            assert(cmds.deep_view() =~~= spec_setup_plan(os@, brew_present, arch_is_aarch64)
                ->Some_0);
        }
        Ok(cmds)
    } else if text::str_eq(os, "amazon") {
        let ghost v0 = cmds;
        let c0 = CommandLine::new("sudo", vec!["-n", "yum", "-y", "clean", "all"]);
        cmds.push(c0);
        proof {
            lemma_vec_push_deep_view(v0, cmds, c0);
        }
        let ghost v1 = cmds;
        let c1 = CommandLine::new("sudo", vec!["-n", "yum", "-y", "makecache"]);
        cmds.push(c1);
        proof {
            lemma_vec_push_deep_view(v1, cmds, c1);
            assert(cmds.deep_view() =~~= spec_setup_plan(os@, brew_present, arch_is_aarch64)
                ->Some_0);
        }
        Ok(cmds)
    } else if text::str_eq(os, "macos") {
        if !brew_present {
            let ghost v0 = cmds;
            let c0 = CommandLine::new(
                "bash",
                vec![
                    "-c",
                    "/bin/bash -c \"$(curl -fsSL https://raw.githubusercontent.com/Homebrew/install/HEAD/install.sh)\"",
                ],
            );
            cmds.push(c0);
            proof {
                lemma_vec_push_deep_view(v0, cmds, c0);
            }
            if arch_is_aarch64 {
                let ghost v1 = cmds;
                let c1 = CommandLine::new(
                    "bash",
                    vec!["-c", "eval \"$(/opt/homebrew/bin/brew shellenv)\""],
                );
                cmds.push(c1);
                proof {
                    lemma_vec_push_deep_view(v1, cmds, c1);
                }
            }
        }
        let ghost v2 = cmds;
        let c2 = CommandLine::new("brew", vec!["update", "--force"]);
        cmds.push(c2);
        proof {
            lemma_vec_push_deep_view(v2, cmds, c2);
            assert(cmds.deep_view() =~~= spec_setup_plan(os@, brew_present, arch_is_aarch64)
                ->Some_0);
        }
        Ok(cmds)
    } else {
        proof {
            reveal_strlit("ubuntu");
            reveal_strlit("amazon");
            reveal_strlit("macos");
        }
        let mut m = String::from_str("Unsupported operating system: ");
        m.append(os);
        Err(SetupError::DetectionFailure { message: m })
    }
}

/// What an idempotent install does for one package.
#[derive(Clone, Copy, Debug, PartialEq, Eq, Structural)]
pub enum UpgradeStep {
    /// Not installed yet: install it.
    InstallIt,
    /// Installed and the version check is cached: nothing to do.
    UseCachedVersion,
    /// Installed but the cache is cold: fetch the latest version, record
    /// it, and upgrade only when forced.
    RefreshVersion { force_upgrade: bool },
}

/// The install-or-upgrade rule: install what is missing; trust a fresh
/// version check unless an upgrade is forced; else refresh the version
/// record, upgrading only when forced.
pub fn install_or_upgrade_decision(installed: bool, cache_fresh: bool, force_upgrade: bool) -> (r:
    UpgradeStep)
    ensures
        r == (if !installed {
            UpgradeStep::InstallIt
        } else if !force_upgrade && cache_fresh {
            UpgradeStep::UseCachedVersion
        } else {
            UpgradeStep::RefreshVersion { force_upgrade }
        }),
{
    if !installed {
        UpgradeStep::InstallIt
    } else if !force_upgrade && cache_fresh {
        UpgradeStep::UseCachedVersion
    } else {
        UpgradeStep::RefreshVersion { force_upgrade }
    }
}

} // verus!
