//! The environment provisioner: for each host descriptor, in ascending index
//! order, seven external operations create and configure one namespaced
//! virtual interface.  Modelled as a state machine that hands the caller one
//! command at a time and is told each command's outcome; a failure halts it
//! immediately (fail-fast, no rollback), naming the descriptor and step.

use vstd::prelude::*;
use crate::command::{new_ip_command, push_arg, CommandLine};
use crate::plan::HostDescriptor;

verus! {

/// The number of external operations per descriptor.
pub const STEPS_PER_HOST: usize = 7;

/// One of the seven per-descriptor provisioning operations, in order.
#[derive(Clone, Copy, PartialEq, Eq, Structural, Debug)]
pub enum ProvisionStep {
    /// Create the network namespace.
    CreateNamespace,
    /// Create the bridge-mode virtual interface on the parent link.
    CreateInterface,
    /// Move the interface into the namespace.
    MoveInterface,
    /// Assign the CIDR address to the interface, inside the namespace.
    AssignAddress,
    /// Bring the interface up, inside the namespace.
    InterfaceUp,
    /// Bring the loopback interface up, inside the namespace.
    LoopbackUp,
    /// Install the default route via the interface, inside the namespace.
    DefaultRoute,
}

impl ProvisionStep {
    /// The step's position in the per-descriptor order.
    pub open spec fn number(self) -> int {
        match self {
            ProvisionStep::CreateNamespace => 0,
            ProvisionStep::CreateInterface => 1,
            ProvisionStep::MoveInterface => 2,
            ProvisionStep::AssignAddress => 3,
            ProvisionStep::InterfaceUp => 4,
            ProvisionStep::LoopbackUp => 5,
            ProvisionStep::DefaultRoute => 6,
        }
    }

    /// The step at a given position in the per-descriptor order.
    pub fn from_number(k: usize) -> (r: ProvisionStep)
        requires
            k < STEPS_PER_HOST,
        ensures
            r.number() == k,
    {
        if k == 0 {
            ProvisionStep::CreateNamespace
        } else if k == 1 {
            ProvisionStep::CreateInterface
        } else if k == 2 {
            ProvisionStep::MoveInterface
        } else if k == 3 {
            ProvisionStep::AssignAddress
        } else if k == 4 {
            ProvisionStep::InterfaceUp
        } else if k == 5 {
            ProvisionStep::LoopbackUp
        } else {
            ProvisionStep::DefaultRoute
        }
    }
}

/// The exact argument vector of provisioning step `k` for descriptor `d`
/// under parent interface `parent`.
pub open spec fn step_argv(k: int, d: HostDescriptor, parent: Seq<char>) -> Seq<Seq<char>> {
    if k == 0 {
        seq![("netns")@, ("add")@, d.namespace_name@]
    } else if k == 1 {
        seq![
            ("link")@,
            ("add")@,
            d.interface_name@,
            ("link")@,
            parent,
            ("type")@,
            ("macvlan")@,
            ("mode")@,
            ("bridge")@,
        ]
    } else if k == 2 {
        seq![("link")@, ("set")@, d.interface_name@, ("netns")@, d.namespace_name@]
    } else if k == 3 {
        seq![
            ("netns")@,
            ("exec")@,
            d.namespace_name@,
            ("ip")@,
            ("addr")@,
            ("add")@,
            d.cidr@,
            ("dev")@,
            d.interface_name@,
        ]
    } else if k == 4 {
        seq![
            ("netns")@,
            ("exec")@,
            d.namespace_name@,
            ("ip")@,
            ("link")@,
            ("set")@,
            d.interface_name@,
            ("up")@,
        ]
    } else if k == 5 {
        seq![("netns")@, ("exec")@, d.namespace_name@, ("ip")@, ("link")@, ("set")@, ("lo")@, ("up")@]
    } else {
        seq![
            ("netns")@,
            ("exec")@,
            d.namespace_name@,
            ("ip")@,
            ("route")@,
            ("add")@,
            ("default")@,
            ("dev")@,
            d.interface_name@,
        ]
    }
}

/// Builds the command for provisioning step `k` of descriptor `d`.
pub fn provision_command(d: &HostDescriptor, parent: &String, k: usize) -> (c: CommandLine)
    requires
        k < STEPS_PER_HOST,
    ensures
        c.program@ == crate::command::ip_program(),
        c.argv() == step_argv(k as int, *d, parent@),
{
    let mut c = new_ip_command();
    if k == 0 {
        push_arg(&mut c, "netns".to_owned());
        push_arg(&mut c, "add".to_owned());
        push_arg(&mut c, d.namespace_name.clone());
    } else if k == 1 {
        push_arg(&mut c, "link".to_owned());
        push_arg(&mut c, "add".to_owned());
        push_arg(&mut c, d.interface_name.clone());
        push_arg(&mut c, "link".to_owned());
        push_arg(&mut c, parent.clone());
        push_arg(&mut c, "type".to_owned());
        push_arg(&mut c, "macvlan".to_owned());
        push_arg(&mut c, "mode".to_owned());
        push_arg(&mut c, "bridge".to_owned());
    } else if k == 2 {
        push_arg(&mut c, "link".to_owned());
        push_arg(&mut c, "set".to_owned());
        push_arg(&mut c, d.interface_name.clone());
        push_arg(&mut c, "netns".to_owned());
        push_arg(&mut c, d.namespace_name.clone());
    } else if k == 3 {
        push_arg(&mut c, "netns".to_owned());
        push_arg(&mut c, "exec".to_owned());
        push_arg(&mut c, d.namespace_name.clone());
        push_arg(&mut c, "ip".to_owned());
        push_arg(&mut c, "addr".to_owned());
        push_arg(&mut c, "add".to_owned());
        push_arg(&mut c, d.cidr.clone());
        push_arg(&mut c, "dev".to_owned());
        push_arg(&mut c, d.interface_name.clone());
    } else if k == 4 {
        push_arg(&mut c, "netns".to_owned());
        push_arg(&mut c, "exec".to_owned());
        push_arg(&mut c, d.namespace_name.clone());
        push_arg(&mut c, "ip".to_owned());
        push_arg(&mut c, "link".to_owned());
        push_arg(&mut c, "set".to_owned());
        push_arg(&mut c, d.interface_name.clone());
        push_arg(&mut c, "up".to_owned());
    } else if k == 5 {
        push_arg(&mut c, "netns".to_owned());
        push_arg(&mut c, "exec".to_owned());
        push_arg(&mut c, d.namespace_name.clone());
        push_arg(&mut c, "ip".to_owned());
        push_arg(&mut c, "link".to_owned());
        push_arg(&mut c, "set".to_owned());
        push_arg(&mut c, "lo".to_owned());
        push_arg(&mut c, "up".to_owned());
    } else {
        push_arg(&mut c, "netns".to_owned());
        push_arg(&mut c, "exec".to_owned());
        push_arg(&mut c, d.namespace_name.clone());
        push_arg(&mut c, "ip".to_owned());
        push_arg(&mut c, "route".to_owned());
        push_arg(&mut c, "add".to_owned());
        push_arg(&mut c, "default".to_owned());
        push_arg(&mut c, "dev".to_owned());
        push_arg(&mut c, d.interface_name.clone());
    }
    proof {
        assert(c.argv() =~= step_argv(k as int, *d, parent@));
    }
    c
}

/// A provisioning failure: the descriptor and step at which the external
/// operation failed, with the reported cause.
#[derive(Debug)]
pub struct ProvisionError {
    pub index: usize,
    pub step: ProvisionStep,
    pub cause: String,
}

/// Drives provisioning as a fail-fast state machine.  The caller repeatedly
/// takes `current_command`, runs it, and reports the outcome; the machine
/// advances through all steps of all descriptors in ascending index order and
/// halts permanently on the first failure.
pub struct Provisioner {
    pub descriptors: Vec<HostDescriptor>,
    pub parent_interface: String,
    pub index: usize,
    pub step: usize,
    pub failure: Option<ProvisionError>,
}

impl Provisioner {
    /// The machine's bookkeeping is consistent.
    pub open spec fn wf(self) -> bool {
        &&& self.step < STEPS_PER_HOST
        &&& self.index <= self.descriptors@.len()
        &&& (self.index == self.descriptors@.len() ==> self.step == 0)
    }

    /// A command is still owed: nothing has failed and descriptors remain.
    pub open spec fn in_progress(self) -> bool {
        self.failure is None && self.index < self.descriptors@.len()
    }

    /// Starts at step 0 of descriptor 0 with no failure.
    pub fn new(descriptors: Vec<HostDescriptor>, parent_interface: String) -> (r: Provisioner)
        ensures
            r.wf(),
            r.descriptors@ == descriptors@,
            r.parent_interface@ == parent_interface@,
            r.index == 0,
            r.step == 0,
            r.failure is None,
    {
        Provisioner { descriptors, parent_interface, index: 0, step: 0, failure: None }
    }

    /// The next command to run, or `None` once every step is done or a
    /// failure has halted the machine.
    pub fn current_command(&self) -> (r: Option<CommandLine>)
        requires
            self.wf(),
        ensures
            r is Some <==> self.in_progress(),
            r is Some ==> {
                &&& r->Some_0.program@ == crate::command::ip_program()
                &&& r->Some_0.argv() == step_argv(
                    self.step as int,
                    self.descriptors@[self.index as int],
                    self.parent_interface@,
                )
            },
    {
        if self.failure.is_some() {
            return None;
        }
        if self.index >= self.descriptors.len() {
            return None;
        }
        let d = &self.descriptors[self.index];
        Some(provision_command(d, &self.parent_interface, self.step))
    }

    /// Records that the current step succeeded: move to the next step, or to
    /// the next descriptor after the last step.
    pub fn record_success(&mut self)
        requires
            old(self).wf(),
            old(self).in_progress(),
        ensures
            final(self).wf(),
            final(self).descriptors@ == old(self).descriptors@,
            final(self).parent_interface@ == old(self).parent_interface@,
            final(self).failure is None,
            old(self).step + 1 < STEPS_PER_HOST ==> {
                &&& final(self).index == old(self).index
                &&& final(self).step == old(self).step + 1
            },
            old(self).step + 1 == STEPS_PER_HOST ==> {
                &&& final(self).index == old(self).index + 1
                &&& final(self).step == 0
            },
    {
        if self.step + 1 < STEPS_PER_HOST {
            self.step = self.step + 1;
        } else {
            let n = self.descriptors.len();
            assert(self.index < n);
            self.step = 0;
            self.index = self.index + 1;
        }
    }

    /// Records that the current step failed: the machine halts for good,
    /// surfacing the descriptor index, the failing step and the cause.
    pub fn record_failure(&mut self, cause: String)
        requires
            old(self).wf(),
            old(self).in_progress(),
        ensures
            final(self).wf(),
            final(self).descriptors@ == old(self).descriptors@,
            final(self).parent_interface@ == old(self).parent_interface@,
            final(self).index == old(self).index,
            final(self).step == old(self).step,
            final(self).failure is Some,
            final(self).failure->0.index == old(self).index,
            final(self).failure->0.step.number() == old(self).step,
            final(self).failure->0.cause@ == cause@,
            !final(self).in_progress(),
    {
        let step = ProvisionStep::from_number(self.step);
        self.failure = Some(ProvisionError { index: self.index, step, cause });
    }

    /// The machine's verdict once driving stops: `Ok` only if no step failed.
    pub fn into_result(self) -> (r: Result<(), ProvisionError>)
        ensures
            self.failure is Some <==> r is Err,
            r is Err ==> r->Err_0 == self.failure->0,
            r is Ok ==> self.failure is None,
    {
        match self.failure {
            Some(e) => Err(e),
            None => Ok(()),
        }
    }
}

/// Once any step has failed, the provisioner is halted: it never offers a
/// command again, so no step of any later descriptor is attempted.
pub proof fn lemma_failure_halts(p: Provisioner)
    requires
        p.failure is Some,
    ensures
        !p.in_progress(),
{
}

} // verus!
