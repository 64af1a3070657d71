//! A command line: a program name and its arguments.

use vstd::prelude::*;
use vstd::string::StringExecFns;

verus! {

broadcast use vstd::seq::group_seq_axioms;

/// One external command invocation: program name plus arguments.
#[derive(Debug)]
pub struct CommandLine {
    pub program: String,
    pub args: Vec<String>,
}

/// The mathematical value of a `CommandLine`.
#[verifier::ext_equal]
pub struct CommandLineView {
    pub program: Seq<char>,
    pub args: Seq<Seq<char>>,
}

impl View for CommandLine {
    type V = CommandLineView;

    open spec fn view(&self) -> CommandLineView {
        CommandLineView { program: self.program@, args: self.args.deep_view() }
    }
}

impl DeepView for CommandLine {
    type V = CommandLineView;

    open spec fn deep_view(&self) -> CommandLineView {
        self.view()
    }
}

/// Pushing onto a vector pushes the element's deep view onto the vector's.
pub proof fn lemma_vec_push_deep_view<T: DeepView>(pre: Vec<T>, post: Vec<T>, x: T)
    requires
        post@ == pre@.push(x),
    ensures
        post.deep_view() == pre.deep_view().push(x.deep_view()),
{
    assert(post.deep_view() =~= pre.deep_view().push(x.deep_view()));
}

/// A command a runner may spawn: non-empty program, no empty argument.
pub open spec fn spec_valid(c: CommandLineView) -> bool {
    &&& c.program.len() > 0
    &&& forall|i: int| 0 <= i < c.args.len() ==> #[trigger] c.args[i].len() > 0
}

impl CommandLine {
    /// Build a command line from a program name and argument literals.
    pub fn new(program: &str, args: Vec<&str>) -> (c: CommandLine)
        ensures
            c@.program == program@,
            c@.args == args.deep_view(),
    {
        let mut owned: Vec<String> = Vec::new();
        let mut i: usize = 0;
        while i < args.len()
            invariant
                i <= args.len(),
                owned.deep_view() =~= args.deep_view().take(i as int),
            decreases args.len() - i,
        {
            let s = String::from_str(args[i]);
            let ghost pre = owned;
            owned.push(s);
            proof {
                lemma_vec_push_deep_view(pre, owned, s);
                assert(owned.deep_view() =~= args.deep_view().take(i + 1));
            }
            i += 1;
        }
        proof {
            assert(owned.deep_view() =~~= args.deep_view());
        }
        let c = CommandLine { program: String::from_str(program), args: owned };
        proof {
            assert(c@.args =~= args.deep_view());
        }
        c
    }

    /// Whether a runner may spawn this command: the program name is
    /// non-empty and no argument is the empty string.
    pub fn is_valid(&self) -> (r: bool)
        ensures
            r == spec_valid(self@),
    {
        if self.program.as_str().is_empty() {
            return false;
        }
        let mut i: usize = 0;
        while i < self.args.len()
            invariant
                i <= self.args.len(),
                forall|j: int| 0 <= j < i ==> #[trigger] self@.args[j].len() > 0,
            decreases self.args.len() - i,
        {
            if self.args[i].as_str().is_empty() {
                proof {
                    assert(self@.args[i as int].len() == 0);
                }
                return false;
            }
            i += 1;
        }
        true
    }

    /// This command with `extra` appended to its arguments.
    pub fn with_extra_args(&self, extra: &Vec<String>) -> (c: CommandLine)
        ensures
            c@.program == self@.program,
            c@.args == self@.args + extra.deep_view(),
    {
        let mut args = self.args.clone();
        proof {
            assert(args.deep_view() =~= self@.args);
        }
        let mut i: usize = 0;
        while i < extra.len()
            invariant
                i <= extra.len(),
                args.deep_view() =~= self@.args + extra.deep_view().take(i as int),
            decreases extra.len() - i,
        {
            let e = extra[i].clone();
            let ghost pre = args;
            args.push(e);
            proof {
                lemma_vec_push_deep_view(pre, args, e);
                assert(args.deep_view() =~= self@.args + extra.deep_view().take(i + 1));
            }
            i += 1;
        }
        proof {
            assert(extra.deep_view().take(extra.len() as int) =~= extra.deep_view());
        }
        let c = CommandLine { program: self.program.clone(), args };
        proof {
            assert(c@.args =~= self@.args + extra.deep_view());
        }
        c
    }
}

impl Clone for CommandLine {
    /// Cloning keeps the command's value.
    fn clone(&self) -> (c: Self)
        ensures
            c@ == self@,
    {
        let c = CommandLine { program: self.program.clone(), args: self.args.clone() };
        proof {
            assert(c@.args =~= self@.args);
            assert(c@ =~= self@);
        }
        c
    }
}

} // verus!
