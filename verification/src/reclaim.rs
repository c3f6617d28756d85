//! The environment reclaimer: one "delete namespace" command per descriptor,
//! in ascending index order.  Unlike provisioning it is best-effort: a failed
//! deletion is recorded and the machine still advances to the remaining
//! descriptors.

use vstd::prelude::*;
use crate::command::{new_ip_command, push_arg, CommandLine};
use crate::plan::HostDescriptor;

verus! {

/// The exact argument vector that deletes descriptor `d`'s namespace
/// (deleting a namespace destroys any interface still inside it).
pub open spec fn reclaim_argv(d: HostDescriptor) -> Seq<Seq<char>> {
    seq![("netns")@, ("del")@, d.namespace_name@]
}

/// Builds the command that deletes descriptor `d`'s namespace.
pub fn reclaim_command(d: &HostDescriptor) -> (c: CommandLine)
    ensures
        c.program@ == crate::command::ip_program(),
        c.argv() == reclaim_argv(*d),
{
    let mut c = new_ip_command();
    push_arg(&mut c, "netns".to_owned());
    push_arg(&mut c, "del".to_owned());
    push_arg(&mut c, d.namespace_name.clone());
    proof {
        assert(c.argv() =~= reclaim_argv(*d));
    }
    c
}

/// One recorded deletion failure: which descriptor, and the reported cause.
#[derive(Debug)]
pub struct DeleteFailure {
    pub index: usize,
    pub cause: String,
}

/// Drives reclamation as a best-effort state machine: the caller takes one
/// command per descriptor and reports its outcome; failures are recorded but
/// never stop the remaining deletions.
pub struct Reclaimer {
    pub descriptors: Vec<HostDescriptor>,
    pub index: usize,
    pub failures: Vec<DeleteFailure>,
}

impl Reclaimer {
    pub open spec fn wf(self) -> bool {
        self.index <= self.descriptors@.len()
    }

    /// Deletions remain to be attempted.  Recorded failures have no bearing
    /// on this: every descriptor is attempted.
    pub open spec fn in_progress(self) -> bool {
        self.index < self.descriptors@.len()
    }

    /// Starts at descriptor 0 with no recorded failures.
    pub fn new(descriptors: Vec<HostDescriptor>) -> (r: Reclaimer)
        ensures
            r.wf(),
            r.descriptors@ == descriptors@,
            r.index == 0,
            r.failures@.len() == 0,
    {
        Reclaimer { descriptors, index: 0, failures: Vec::new() }
    }

    /// The next deletion command, or `None` once every descriptor has been
    /// attempted.  Past failures never suppress a command.
    pub fn current_command(&self) -> (r: Option<CommandLine>)
        requires
            self.wf(),
        ensures
            r is Some <==> self.in_progress(),
            r is Some ==> {
                &&& r->Some_0.program@ == crate::command::ip_program()
                &&& r->Some_0.argv() == reclaim_argv(self.descriptors@[self.index as int])
            },
    {
        if self.index >= self.descriptors.len() {
            return None;
        }
        Some(reclaim_command(&self.descriptors[self.index]))
    }

    /// Records a successful deletion and moves to the next descriptor.
    pub fn record_success(&mut self)
        requires
            old(self).wf(),
            old(self).in_progress(),
        ensures
            final(self).wf(),
            final(self).descriptors@ == old(self).descriptors@,
            final(self).index == old(self).index + 1,
            final(self).failures@ == old(self).failures@,
    {
        let n = self.descriptors.len();
        assert(self.index < n);
        self.index = self.index + 1;
    }

    /// Records a failed deletion and still moves to the next descriptor:
    /// one failure never prevents the remaining reclamation attempts.
    pub fn record_failure(&mut self, cause: String)
        requires
            old(self).wf(),
            old(self).in_progress(),
        ensures
            final(self).wf(),
            final(self).descriptors@ == old(self).descriptors@,
            final(self).index == old(self).index + 1,
            final(self).failures@.len() == old(self).failures@.len() + 1,
            forall|k: int|
                0 <= k < old(self).failures@.len() ==> #[trigger] final(self).failures@[k] == old(
                    self,
                ).failures@[k],
            final(self).failures@.last().index == old(self).index,
            final(self).failures@.last().cause@ == cause@,
    {
        let n = self.descriptors.len();
        assert(self.index < n);
        self.failures.push(DeleteFailure { index: self.index, cause });
        self.index = self.index + 1;
    }

    /// The recorded failures, in the order they happened.
    pub fn failures(&self) -> (r: &Vec<DeleteFailure>)
        ensures
            r@ == self.failures@,
    {
        &self.failures
    }
}

} // verus!
