//! The concurrent session dispatcher's verified core: the exact client
//! command each worker runs inside its namespace, and the fan-in drain that
//! collects completion signals from the workers' shared queue.
//!
//! The workers themselves are spawned by the surrounding binary; each one
//! runs its client subprocess and sends exactly one signal (or drops with an
//! error report if the subprocess could not be started).  The drain below
//! performs at most `count` receive operations — never a `(count+1)`-th,
//! which would block forever once all workers are done.

use vstd::prelude::*;
use crate::addr::{ipv4_chars, Ipv4Address};
use crate::command::{new_ip_command, push_arg, CommandLine};
use crate::plan::HostDescriptor;

verus! {

/// The server share path `//<server>/public/`.
pub open spec fn share_chars(server: u32) -> Seq<char> {
    ("//")@ + ipv4_chars(server) + ("/public/")@
}

/// The non-interactive client command `get <file>`.
pub open spec fn get_chars(file: Seq<char>) -> Seq<char> {
    ("get ")@ + file
}

/// The exact argument vector of the client session for descriptor `d`:
/// inside `d`'s namespace, an unauthenticated guest client fetches `file`
/// from the server's public share.
pub open spec fn client_argv(d: HostDescriptor, server: u32, file: Seq<char>) -> Seq<Seq<char>> {
    seq![
        ("netns")@,
        ("exec")@,
        d.namespace_name@,
        ("smbclient")@,
        ("-Uguest")@,
        ("-N")@,
        share_chars(server),
        ipv4_chars(server),
        ("-c")@,
        get_chars(file),
    ]
}

/// Builds the client-session command for descriptor `d`.
pub fn client_command(d: &HostDescriptor, server: Ipv4Address, file: &String) -> (c: CommandLine)
    ensures
        c.program@ == crate::command::ip_program(),
        c.argv() == client_argv(*d, server.bits, file@),
{
    proof {
        reveal_strlit("//");
        reveal_strlit("/public/");
        reveal_strlit("get ");
    }
    let dotted = server.dotted();

    let mut share: String = "//".to_owned();
    share.append(dotted.as_str());
    share.append("/public/");
    assert(share@ =~= share_chars(server.bits));

    let mut get_command: String = "get ".to_owned();
    get_command.append(file.as_str());
    assert(get_command@ =~= get_chars(file@));

    let mut c = new_ip_command();
    push_arg(&mut c, "netns".to_owned());
    push_arg(&mut c, "exec".to_owned());
    push_arg(&mut c, d.namespace_name.clone());
    push_arg(&mut c, "smbclient".to_owned());
    push_arg(&mut c, "-Uguest".to_owned());
    push_arg(&mut c, "-N".to_owned());
    push_arg(&mut c, share);
    push_arg(&mut c, dotted);
    push_arg(&mut c, "-c".to_owned());
    push_arg(&mut c, get_command);
    proof {
        assert(c.argv() =~= client_argv(*d, server.bits, file@));
    }
    c
}

#[verifier::external_type_specification]
#[verifier::external_body]
#[verifier::reject_recursive_types(T)]
pub struct ExReceiver<T>(flume::Receiver<T>);

/// Relies on `flume::Receiver::recv`: blocks until a message arrives
/// (`Some`) or every sender has been dropped with the queue empty (`None`).
/// Which of the concurrently sent messages arrives, and in what order, is
/// scheduling-dependent, so nothing is claimed about the value.
#[verifier::external_body]
fn recv_signal(rx: &flume::Receiver<i32>) -> (r: Option<i32>) {
    rx.recv().ok()
}

/// What the fan-in drain observed.
#[derive(Debug)]
pub struct DrainOutcome {
    /// The completion signals, in arrival order.
    pub signals: Vec<i32>,
    /// True if the workers' queue disconnected before `count` signals
    /// arrived (some worker dropped without sending).
    pub disconnected: bool,
}

/// Fans in the workers' completion signals: performs one receive operation
/// per expected signal — exactly `count` of them unless the queue
/// disconnects early, and never more.  For `count == 0` it performs no
/// receive and returns at once.
pub fn drain(rx: &flume::Receiver<i32>, count: usize) -> (r: DrainOutcome)
    ensures
        !r.disconnected ==> r.signals@.len() == count,
        r.disconnected ==> r.signals@.len() < count,
        count == 0 ==> !r.disconnected && r.signals@.len() == 0,
{
    let mut signals: Vec<i32> = Vec::new();
    let mut i: usize = 0;
    while i < count
        invariant
            i <= count,
            signals@.len() == i,
        decreases count - i,
    {
        match recv_signal(rx) {
            Some(v) => {
                signals.push(v);
                i = i + 1;
            },
            None => {
                return DrainOutcome { signals, disconnected: true };
            },
        }
    }
    DrainOutcome { signals, disconnected: false }
}

} // verus!
