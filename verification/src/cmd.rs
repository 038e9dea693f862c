//! A single external command invocation, modelled as data.
//!
//! Every mutating or probing action in this system is one external process:
//! a program name and an ordered argument list.  Nothing here runs anything;
//! the surrounding binary executes a `Cmd` and reports what happened.

use vstd::prelude::*;

verus! {

/// The mathematical content of a command: its program name and arguments,
/// as character sequences.
#[verifier::ext_equal]
pub struct CmdView {
    pub program: Seq<char>,
    pub args: Seq<Seq<char>>,
}

/// An external command: a program name and its ordered arguments.
pub struct Cmd {
    pub program: String,
    pub args: Vec<String>,
}

impl View for Cmd {
    type V = CmdView;

    open spec fn view(&self) -> CmdView {
        CmdView { program: self.program@, args: self.args.deep_view() }
    }
}

impl DeepView for Cmd {
    type V = CmdView;

    open spec fn deep_view(&self) -> CmdView {
        self.view()
    }
}

impl Cmd {
    /// A command with no arguments yet.
    pub fn new(program: &str) -> (c: Cmd)
        ensures
            c@.program == program@,
            c@.args == Seq::<Seq<char>>::empty(),
    {
        let c = Cmd { program: program.to_owned(), args: Vec::new() };
        proof {
            assert(c@.args =~= Seq::<Seq<char>>::empty());
        }
        c
    }

    /// The same command with one more argument appended.
    pub fn arg(self, a: &str) -> (c: Cmd)
        ensures
            c@.program == self@.program,
            c@.args == self@.args.push(a@),
    {
        let mut args = self.args;
        args.push(a.to_owned());
        let c = Cmd { program: self.program, args };
        proof {
            assert(c@.args =~= self@.args.push(a@));
        }
        c
    }

    /// The same command with one more, already owned, argument appended.
    pub fn arg_string(self, a: String) -> (c: Cmd)
        ensures
            c@.program == self@.program,
            c@.args == self@.args.push(a@),
    {
        let ghost a_view = a@;
        let mut args = self.args;
        args.push(a);
        let c = Cmd { program: self.program, args };
        proof {
            assert(c@.args =~= self@.args.push(a_view));
        }
        c
    }

    /// An identical copy of the command.
    pub fn duplicate(&self) -> (c: Cmd)
        ensures
            c@ == self@,
    {
        let program = self.program.clone();
        let mut args: Vec<String> = Vec::new();
        let mut i: usize = 0;
        while i < self.args.len()
            invariant
                i <= self.args.len(),
                args@.len() == i,
                forall|k: int| 0 <= k < i ==> args@[k]@ == self.args@[k]@,
            decreases self.args.len() - i,
        {
            args.push(self.args[i].clone());
            i += 1;
        }
        let c = Cmd { program, args };
        proof {
            assert forall|k: int| 0 <= k < self@.args.len() implies c@.args[k] == self@.args[k] by {
                assert(c@.args[k] == args@[k]@);
                assert(self@.args[k] == self.args@[k]@);
            }
            assert(c@.args =~= self@.args);
            assert(c@ =~= self@);
        }
        c
    }
}

} // verus!
