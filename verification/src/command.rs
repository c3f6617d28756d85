//! The model of one external command invocation: a program path and its
//! argument vector, as plain strings.  The library derives every command it
//! wants run; the surrounding binary executes them.

use vstd::prelude::*;

verus! {

/// One external command: program path plus arguments, in order.
#[derive(Debug)]
pub struct CommandLine {
    pub program: String,
    pub args: Vec<String>,
}

/// The character-level view of an argument vector.
pub open spec fn argv_view(args: Seq<String>) -> Seq<Seq<char>> {
    args.map_values(|s: String| s@)
}

impl CommandLine {
    /// The character-level view of this command's arguments.
    pub open spec fn argv(self) -> Seq<Seq<char>> {
        argv_view(self.args@)
    }
}

/// The path of the network-configuration tool every provisioning, dispatch
/// and reclamation command goes through.
pub open spec fn ip_program() -> Seq<char> {
    ("/usr/sbin/ip")@
}

/// Builds a command for the network-configuration tool with no arguments yet.
pub fn new_ip_command() -> (c: CommandLine)
    ensures
        c.program@ == ip_program(),
        c.argv() =~= Seq::<Seq<char>>::empty(),
{
    let c = CommandLine { program: "/usr/sbin/ip".to_owned(), args: Vec::new() };
    proof {
        assert(c.args@.map_values(|s: String| s@) =~= Seq::<Seq<char>>::empty());
    }
    c
}

/// Appends one argument.
pub fn push_arg(c: &mut CommandLine, arg: String)
    ensures
        final(c).program@ == old(c).program@,
        final(c).argv() =~= old(c).argv().push(arg@),
{
    let ghost before = c.args@;
    c.args.push(arg);
    proof {
        assert(c.args@ =~= before.push(arg));
        assert(c.args@.map_values(|s: String| s@) =~= before.map_values(|s: String| s@).push(
            arg@,
        ));
    }
}

} // verus!
