//! Local process invocations, as plain data.
//!
//! The library never spawns a process itself. Every command it wants run
//! locally is described by a [`Cmd`] (a program name plus its arguments, in
//! order), and a multi-command procedure by a sequence of [`Step`]s. The
//! caller executes the steps through its process runner, feeding each
//! outcome to a [`crate::runner::StepRunner`] which decides whether the
//! next step may start.

use vstd::prelude::*;

verus! {

/// One local process invocation: a program name and its arguments, in order.
pub struct Cmd {
    pub program: String,
    pub args: Vec<String>,
}

impl Cmd {
    /// The command is exactly `program` applied to `args`.
    pub open spec fn is(&self, program: Seq<char>, args: Seq<Seq<char>>) -> bool {
        self.program@ == program && self.args.deep_view() == args
    }
}

/// One step of a local command plan. A failing step with `fatal` set stops
/// the plan; a non-fatal step's failure is ignored and the plan goes on.
pub struct Step {
    pub cmd: Cmd,
    pub fatal: bool,
}

impl Step {
    /// The step runs exactly `program` applied to `args`, with the given
    /// fatality.
    pub open spec fn is(&self, program: Seq<char>, args: Seq<Seq<char>>, fatal: bool) -> bool {
        self.cmd.is(program, args) && self.fatal == fatal
    }
}

/// Appends one borrowed argument to an argument list.
pub fn push_arg(v: &mut Vec<String>, s: &str)
    ensures
        final(v).deep_view() == old(v).deep_view().push(s@),
{
    v.push(s.to_owned());
    assert(v.deep_view() =~= old(v).deep_view().push(s@));
}

/// Appends one owned argument to an argument list.
pub fn push_arg_string(v: &mut Vec<String>, s: String)
    ensures
        final(v).deep_view() == old(v).deep_view().push(s@),
{
    v.push(s);
    assert(v.deep_view() =~= old(v).deep_view().push(s@));
}

} // verus!
