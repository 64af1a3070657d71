//! The supported package managers.

use vstd::prelude::*;
use vstd::string::StringExecFns;

use crate::command::{CommandLine, CommandLineView};
use crate::engine::{chunk_packages, initial_run, inv, InstallRun};
use crate::errors::{SetupError, SetupErrorView};
use crate::package::Package;
use crate::recipe::{Recipe, RecipeView};
use crate::sys::command_on_path;

verus! {

/// Shorthand for a command-line value in specifications.
pub open spec fn cmdv(program: Seq<char>, args: Seq<Seq<char>>) -> CommandLineView {
    CommandLineView { program, args }
}

/// Supported package managers.
#[derive(Clone, Copy, Debug, PartialEq, Eq, Structural)]
pub enum PackageManager {
    /// Debian-based systems (Debian, Ubuntu, etc.)
    Apt,
    /// RPM-based systems (RHEL, CentOS, Amazon Linux)
    Yum,
    /// macOS package manager
    Brew,
}

impl PackageManager {
    /// The user-facing name of the manager's command-line tool.
    pub open spec fn spec_display_name(self) -> Seq<char> {
        match self {
            PackageManager::Apt => "apt-get"@,
            PackageManager::Yum => "yum"@,
            PackageManager::Brew => "brew"@,
        }
    }

    /// The name of the manager's command-line tool, e.g. for log lines.
    pub fn display_name(&self) -> (r: String)
        ensures
            r@ == self.spec_display_name(),
    {
        match self {
            PackageManager::Apt => String::from_str("apt-get"),
            PackageManager::Yum => String::from_str("yum"),
            PackageManager::Brew => String::from_str("brew"),
        }
    }

    /// The fixed per-manager recipe template.
    pub open spec fn spec_recipe(self) -> RecipeView {
        match self {
            PackageManager::Apt => RecipeView {
                update_steps: seq![
                    cmdv("sudo"@, seq!["apt-get"@, "-y"@, "clean"@]),
                    cmdv("sudo"@, seq!["apt-get"@, "-y"@, "update"@]),
                ],
                install_command: cmdv("sudo"@, seq!["apt-get"@, "install"@, "-y"@]),
            },
            PackageManager::Yum => RecipeView {
                update_steps: seq![
                    cmdv("sudo"@, seq!["yum"@, "-y"@, "clean"@, "all"@]),
                    cmdv("sudo"@, seq!["yum"@, "-y"@, "makecache"@]),
                ],
                install_command: cmdv("sudo"@, seq!["yum"@, "install"@, "-y"@]),
            },
            PackageManager::Brew => RecipeView {
                update_steps: seq![cmdv("brew"@, seq!["update"@])],
                install_command: cmdv("brew"@, seq!["install"@]),
            },
        }
    }

    /// Get the recipe for this package manager.
    pub fn recipe(&self) -> (r: Recipe)
        ensures
            r@ == self.spec_recipe(),
    {
        let r = match self {
            PackageManager::Apt => Recipe::new()
                .with_update_steps(
                    vec![
                        CommandLine::new("sudo", vec!["apt-get", "-y", "clean"]),
                        CommandLine::new("sudo", vec!["apt-get", "-y", "update"]),
                    ],
                )
                .with_install_step("sudo", vec!["apt-get", "install", "-y"]),
            PackageManager::Yum => Recipe::new()
                .with_update_steps(
                    vec![
                        CommandLine::new("sudo", vec!["yum", "-y", "clean", "all"]),
                        CommandLine::new("sudo", vec!["yum", "-y", "makecache"]),
                    ],
                )
                .with_install_step("sudo", vec!["yum", "install", "-y"]),
            PackageManager::Brew => Recipe::new()
                .with_update_steps(vec![CommandLine::new("brew", vec!["update"])])
                .with_install_step("brew", vec!["install"]),
        };
        proof {
            assert(r@.update_steps =~~= self.spec_recipe().update_steps);
            assert(r@ =~~= self.spec_recipe());
        }
        r
    }

    /// Choose the package manager from host probes. On macOS only Homebrew
    /// is considered; elsewhere apt-get is probed before yum, first found
    /// wins. Succeeds exactly when the host offers a manager it may use.
    pub fn detect_from(
        host_is_macos: bool,
        has_brew: bool,
        has_apt_get: bool,
        has_yum: bool,
    ) -> (r: Result<PackageManager, SetupError>)
        ensures
            r is Ok <==> (if host_is_macos {
                has_brew
            } else {
                has_apt_get || has_yum
            }),
            match r {
                Ok(pm) => pm == (if host_is_macos {
                    PackageManager::Brew
                } else if has_apt_get {
                    PackageManager::Apt
                } else {
                    PackageManager::Yum
                }),
                Err(e) => e@ == (SetupErrorView::DetectionFailure {
                    message: if host_is_macos {
                        "Homebrew not found. Please install it first: https://brew.sh"@
                    } else {
                        "No supported package manager found. Please install apt-get or yum."@
                    },
                }),
            },
    {
        if host_is_macos {
            if has_brew {
                Ok(PackageManager::Brew)
            } else {
                Err(
                    SetupError::DetectionFailure {
                        message: String::from_str(
                            "Homebrew not found. Please install it first: https://brew.sh",
                        ),
                    },
                )
            }
        } else if has_apt_get {
            Ok(PackageManager::Apt)
        } else if has_yum {
            Ok(PackageManager::Yum)
        } else {
            Err(
                SetupError::DetectionFailure {
                    message: String::from_str(
                        "No supported package manager found. Please install apt-get or yum.",
                    ),
                },
            )
        }
    }

    /// Detect the system's package manager by probing the search path.
    /// Whether the host is macOS is an upstream input; what the probes find
    /// is decided by the environment, so the contract promises only what
    /// holds of every outcome.
    pub fn detect(host_is_macos: bool) -> (r: Result<PackageManager, SetupError>)
        ensures
            match r {
                Ok(pm) => host_is_macos <==> pm == PackageManager::Brew,
                Err(e) => e@ is DetectionFailure,
            },
    {
        let has_brew = command_on_path("brew");
        let has_apt_get = command_on_path("apt-get");
        let has_yum = command_on_path("yum");
        PackageManager::detect_from(host_is_macos, has_brew, has_apt_get, has_yum)
    }

    /// Start installing `packages` with this manager: the packages are
    /// split into batches of [`crate::BATCH_SIZE`], and the returned run
    /// executes the manager's recipe once per batch. Empty input yields an
    /// immediately successful no-op run.
    pub fn install(&self, packages: &Vec<Package>) -> (r: InstallRun)
        ensures
            r@ == initial_run(*self, packages.deep_view()),
            inv(r@),
    {
        let batches = chunk_packages(packages, crate::BATCH_SIZE);
        InstallRun::from_batches(*self, self.recipe(), batches)
    }
}

} // verus!
