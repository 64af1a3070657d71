//! A recipe: the manager-specific commands that install a batch of packages.

use vstd::prelude::*;
use vstd::string::StringExecFns;

use crate::command::{CommandLine, CommandLineView};
use crate::engine::{execute_run, inv, InstallRun};
use crate::manager::PackageManager;
use crate::package::Package;

verus! {

/// Recipe for installing packages with a specific package manager:
/// update steps run strictly in order before the install command, and the
/// install command is only ever extended with package names.
#[derive(Debug)]
pub struct Recipe {
    /// Steps to update the package manager
    pub update_steps: Vec<CommandLine>,
    /// Command and base arguments for installing packages
    pub install_command: CommandLine,
}

/// The mathematical value of a `Recipe`.
#[verifier::ext_equal]
pub struct RecipeView {
    pub update_steps: Seq<CommandLineView>,
    pub install_command: CommandLineView,
}

impl View for Recipe {
    type V = RecipeView;

    open spec fn view(&self) -> RecipeView {
        RecipeView {
            update_steps: self.update_steps.deep_view(),
            install_command: self.install_command@,
        }
    }
}

impl Recipe {
    /// Create a new empty recipe.
    pub fn new() -> (r: Recipe)
        ensures
            r@.update_steps =~= Seq::<CommandLineView>::empty(),
            r@.install_command.program =~= Seq::<char>::empty(),
            r@.install_command.args =~= Seq::<Seq<char>>::empty(),
    {
        Recipe {
            update_steps: Vec::new(),
            install_command: CommandLine { program: String::new(), args: Vec::new() },
        }
    }

    /// Set the update steps for this recipe.
    pub fn with_update_steps(self, steps: Vec<CommandLine>) -> (r: Recipe)
        ensures
            r@.update_steps == steps.deep_view(),
            r@.install_command == self@.install_command,
    {
        Recipe { update_steps: steps, install_command: self.install_command }
    }

    /// Set the install command for this recipe.
    pub fn with_install_step(self, cmd: &str, args: Vec<&str>) -> (r: Recipe)
        ensures
            r@.update_steps == self@.update_steps,
            r@.install_command.program == cmd@,
            r@.install_command.args == args.deep_view(),
    {
        Recipe { update_steps: self.update_steps, install_command: CommandLine::new(cmd, args) }
    }

    /// Start executing this recipe over `packages` as a single batch with
    /// manager `pm`: the returned run probes the recipe's commands, runs
    /// the update steps in order, validates each resolved name, and then
    /// runs the install command, retrying failing commands. Empty input
    /// yields an immediately successful no-op run.
    pub fn execute(&self, pm: &PackageManager, packages: &Vec<Package>) -> (r: InstallRun)
        ensures
            r@ == execute_run(self@, *pm, packages.deep_view()),
            inv(r@),
    {
        let recipe = self.clone();
        if packages.len() == 0 {
            InstallRun::from_batches(*pm, recipe, Vec::new())
        } else {
            let batch = packages.clone();
            proof {
                assert(batch.deep_view() =~= packages.deep_view());
            }
            let mut batches: Vec<Vec<Package>> = Vec::new();
            batches.push(batch);
            proof {
                assert(batches.deep_view() =~= seq![packages.deep_view()]);
            }
            InstallRun::from_batches(*pm, recipe, batches)
        }
    }
}

impl Clone for Recipe {
    /// Cloning keeps the recipe's value.
    fn clone(&self) -> (r: Self)
        ensures
            r@ == self@,
    {
        let r = Recipe {
            update_steps: self.update_steps.clone(),
            install_command: self.install_command.clone(),
        };
        proof {
            assert(r@.update_steps =~= self@.update_steps);
            assert(r@ =~= self@);
        }
        r
    }
}

} // verus!
