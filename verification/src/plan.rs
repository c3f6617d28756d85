//! The host address planner: turns a half-open IPv4 address range and naming
//! templates into the ordered sequence of host descriptors that the other
//! phases consume.  Pure, deterministic, and the sole source of resource
//! names, so name uniqueness and the interface-name length limit are
//! established here.

use vstd::prelude::*;
use crate::addr::{ipv4_chars, Ipv4Address};
use crate::numfmt::{
    dec_seq, dec_string, lemma_dec_seq_injective, lemma_dec_seq_len_bound,
    lemma_dec_seq_len_lower, pow10,
};

verus! {

/// Virtual interface names are `"macvlan"` followed by the decimal index and
/// must stay within the 16-character OS limit, so at most this many hosts can
/// be planned (indices `0 .. 10^9 - 1` use at most 9 digits).
pub const MAX_HOSTS: usize = 1_000_000_000;

/// The OS limit on virtual interface name length.
pub const INTERFACE_NAME_LIMIT: usize = 16;

/// A planning failure.
#[derive(Clone, Copy, PartialEq, Eq, Structural, Debug)]
pub enum PlanError {
    /// The end address precedes the base address.
    InvalidRange,
    /// The range is so large that some derived interface name would exceed
    /// the OS length limit.
    NameLimitExceeded,
}

/// One per-address record driving a full provision/run/reclaim cycle.
#[derive(Clone, PartialEq, Eq, Debug)]
pub struct HostDescriptor {
    /// 0-based position in address order.
    pub index: usize,
    /// The address assigned to this host's interface.
    pub address: Ipv4Address,
    /// Namespace name: the configured template followed by the index.
    pub namespace_name: String,
    /// Interface name: `"macvlan"` followed by the index.
    pub interface_name: String,
    /// `address ++ "/" ++ prefixLength`.
    pub cidr: String,
}

/// The immutable per-run configuration, with the derived host count.
#[derive(Clone, Debug)]
pub struct RunConfig {
    pub base: Ipv4Address,
    pub end: Ipv4Address,
    pub prefix_len: u8,
    pub parent_interface: String,
    pub base_namespace: String,
    pub server: Ipv4Address,
    pub file_name: String,
    pub count: usize,
}

pub open spec fn macvlan_prefix() -> Seq<char> {
    seq!['m', 'a', 'c', 'v', 'l', 'a', 'n']
}

/// The interface name derived for host `i`.
pub open spec fn interface_chars(i: nat) -> Seq<char> {
    macvlan_prefix() + dec_seq(i)
}

/// The namespace name derived for host `i` from the configured template.
pub open spec fn namespace_chars(base_ns: Seq<char>, i: nat) -> Seq<char> {
    base_ns + dec_seq(i)
}

/// The CIDR string `a.b.c.d/len`.
pub open spec fn cidr_chars(bits: u32, prefix_len: u8) -> Seq<char> {
    ipv4_chars(bits) + seq!['/'] + dec_seq(prefix_len as nat)
}

impl RunConfig {
    /// The configuration is consistent: the range is forward, the count is
    /// the number of addresses in `[base, end)`, and every derived interface
    /// name fits the OS limit.
    pub open spec fn wf(self) -> bool {
        &&& self.base.bits <= self.end.bits
        &&& self.count == self.end.bits - self.base.bits
        &&& self.count <= MAX_HOSTS
    }

    /// Validates a run configuration and derives the host count.
    ///
    /// Fails with `InvalidRange` exactly when the end address precedes the
    /// base, and with `NameLimitExceeded` exactly when the (forward) range
    /// holds more hosts than interface names can be derived for.
    pub fn new(
        base: Ipv4Address,
        end: Ipv4Address,
        prefix_len: u8,
        parent_interface: String,
        base_namespace: String,
        server: Ipv4Address,
        file_name: String,
    ) -> (r: Result<RunConfig, PlanError>)
        ensures
            match r {
                Ok(c) => {
                    &&& base.bits <= end.bits
                    &&& end.bits - base.bits <= MAX_HOSTS
                    &&& c.wf()
                    &&& c.base == base
                    &&& c.end == end
                    &&& c.prefix_len == prefix_len
                    &&& c.parent_interface@ == parent_interface@
                    &&& c.base_namespace@ == base_namespace@
                    &&& c.server == server
                    &&& c.file_name@ == file_name@
                    &&& c.count == end.bits - base.bits
                },
                Err(PlanError::InvalidRange) => end.bits < base.bits,
                Err(PlanError::NameLimitExceeded) => {
                    &&& base.bits <= end.bits
                    &&& end.bits - base.bits > MAX_HOSTS
                },
            },
    {
        if end.bits < base.bits {
            return Err(PlanError::InvalidRange);
        }
        let span = end.bits - base.bits;
        if span as usize > MAX_HOSTS {
            return Err(PlanError::NameLimitExceeded);
        }
        Ok(
            RunConfig {
                base,
                end,
                prefix_len,
                parent_interface,
                base_namespace,
                server,
                file_name,
                count: span as usize,
            },
        )
    }
}

/// `d` is exactly the descriptor the plan assigns to position `i`.
pub open spec fn descriptor_matches(cfg: RunConfig, i: int, d: HostDescriptor) -> bool {
    &&& d.index == i
    &&& d.address.bits == cfg.base.bits + i
    &&& d.namespace_name@ == namespace_chars(cfg.base_namespace@, i as nat)
    &&& d.interface_name@ == interface_chars(i as nat)
    &&& d.cidr@ == cidr_chars((cfg.base.bits + i) as u32, cfg.prefix_len)
}

/// Produces the ordered host descriptors for every address in
/// `[cfg.base, cfg.end)`: one per address, indices `0..count` contiguous and
/// ascending in address-enumeration order, names derived from the index.
pub fn plan(cfg: &RunConfig) -> (r: Vec<HostDescriptor>)
    requires
        cfg.wf(),
    ensures
        r@.len() == cfg.count,
        forall|i: int| 0 <= i < r@.len() ==> descriptor_matches(*cfg, i, #[trigger] r@[i]),
        forall|i: int, j: int|
            0 <= i < j < r@.len() ==> (#[trigger] r@[i]).namespace_name@ != (
            #[trigger] r@[j]).namespace_name@,
        forall|i: int, j: int|
            0 <= i < j < r@.len() ==> (#[trigger] r@[i]).interface_name@ != (
            #[trigger] r@[j]).interface_name@,
{
    let mut r: Vec<HostDescriptor> = Vec::new();
    let mut i: usize = 0;
    while i < cfg.count
        invariant
            cfg.wf(),
            i <= cfg.count,
            r@.len() == i,
            forall|k: int| 0 <= k < i ==> descriptor_matches(*cfg, k, #[trigger] r@[k]),
        decreases cfg.count - i,
    {
        proof {
            reveal_strlit("macvlan");
            reveal_strlit("/");
        }
        let address = Ipv4Address { bits: cfg.base.bits + i as u32 };
        let digits = dec_string(i);

        let mut namespace_name = cfg.base_namespace.clone();
        namespace_name.append(digits.as_str());

        let mut interface_name: String = "macvlan".to_owned();
        assert(interface_name@ =~= macvlan_prefix());
        interface_name.append(digits.as_str());
        assert(interface_name@ =~= interface_chars(i as nat));

        let mut cidr = address.dotted();
        cidr.append("/");
        cidr.append(dec_string(cfg.prefix_len as usize).as_str());
        assert(cidr@ =~= cidr_chars(address.bits, cfg.prefix_len));

        let d = HostDescriptor { index: i, address, namespace_name, interface_name, cidr };
        r.push(d);
        i = i + 1;
    }
    proof {
        assert forall|i: int, j: int| 0 <= i < j < r@.len() implies (
        #[trigger] r@[i]).namespace_name@ != (#[trigger] r@[j]).namespace_name@ && r@[
            i
        ].interface_name@ != r@[j].interface_name@ by {
            lemma_names_unique(cfg.base_namespace@, i as nat, j as nat);
        }
    }
    r
}

proof fn lemma_append_cancel(p: Seq<char>, x: Seq<char>, y: Seq<char>)
    requires
        p + x == p + y,
    ensures
        x == y,
{
    assert((p + x).len() == p.len() + x.len());
    assert((p + y).len() == p.len() + y.len());
    assert(x.len() == y.len());
    assert forall|k: int| 0 <= k < x.len() implies #[trigger] x[k] == y[k] by {
        assert((p + x)[p.len() + k] == x[k]);
        assert((p + y)[p.len() + k] == y[k]);
    }
    assert(x =~= y);
}

/// Distinct indices yield distinct namespace names (for any one template) and
/// distinct interface names: the planner's naming scheme never collides
/// within a run.
pub proof fn lemma_names_unique(base_ns: Seq<char>, i: nat, j: nat)
    requires
        i != j,
    ensures
        namespace_chars(base_ns, i) != namespace_chars(base_ns, j),
        interface_chars(i) != interface_chars(j),
{
    if namespace_chars(base_ns, i) == namespace_chars(base_ns, j) {
        lemma_append_cancel(base_ns, dec_seq(i), dec_seq(j));
        lemma_dec_seq_injective(i, j);
    }
    if interface_chars(i) == interface_chars(j) {
        lemma_append_cancel(macvlan_prefix(), dec_seq(i), dec_seq(j));
        lemma_dec_seq_injective(i, j);
    }
}

/// Any index below the host limit derives an interface name within the
/// 16-character OS limit, and the first index at the limit exceeds it: the
/// planner's cap is exactly the boundary of the naming scheme.
pub proof fn lemma_interface_name_length(i: nat)
    ensures
        i < MAX_HOSTS ==> interface_chars(i).len() <= INTERFACE_NAME_LIMIT,
        i >= MAX_HOSTS ==> interface_chars(i).len() > INTERFACE_NAME_LIMIT,
{
    assert(pow10(9) == 1_000_000_000) by {
        reveal_with_fuel(pow10, 10);
    }
    if i < MAX_HOSTS {
        lemma_dec_seq_len_bound(i, 9);
    } else {
        lemma_dec_seq_len_lower(i, 9);
    }
}

} // verus!
