use vstd::prelude::*;

use crate::dto::DataMap;
use crate::errors::FwError;

verus! {

/// One host network interface as the enumeration subsystem reports it,
/// reduced to plain values: the hardware address is present or absent, and
/// the bound addresses are already rendered as canonical strings.
#[derive(Debug, Clone)]
pub struct InterfaceInfo {
    pub name: String,
    pub description: String,
    pub mac: Option<String>,
    pub ips: Vec<String>,
    pub up: bool,
    pub loopback: bool,
    pub running: bool,
}

/// The read-only snapshot of one interface presented to callers; an absent
/// hardware address is rendered as the literal "unknown".
#[derive(Debug, Clone)]
pub struct InterfaceDto {
    pub name: String,
    pub description: String,
    pub mac: String,
    pub ips: Vec<String>,
    pub up: bool,
    pub loopback: bool,
    pub running: bool,
}

/// How a snapshot descriptor relates to the raw interface it was taken from:
/// every field copied, except that an absent hardware address becomes the
/// literal "unknown".
pub open spec fn dto_of(i: InterfaceInfo, d: InterfaceDto) -> bool {
    &&& d.name@ == i.name@
    &&& d.description@ == i.description@
    &&& (match i.mac {
        Some(m) => d.mac@ == m@,
        None => d.mac@ == "unknown"@,
    })
    &&& d.ips.deep_view() == i.ips.deep_view()
    &&& d.up == i.up
    &&& d.loopback == i.loopback
    &&& d.running == i.running
}

/// Whether an interface qualifies as the default: up, not loopback, and at
/// least one address bound.
pub open spec fn qualifies(i: InterfaceInfo) -> bool {
    i.up && !i.loopback && i.ips@.len() > 0
}

fn clone_strings(v: &Vec<String>) -> (r: Vec<String>)
    ensures
        r.deep_view() == v.deep_view(),
{
    let mut r: Vec<String> = Vec::new();
    let mut i: usize = 0;
    while i < v.len()
        invariant
            i <= v@.len(),
            r@.len() == i,
            forall|j: int| 0 <= j < i ==> #[trigger] r@[j]@ == v@[j]@,
        decreases v@.len() - i,
    {
        r.push(v[i].clone());
        i = i + 1;
    }
    proof {
        assert forall|j: int| 0 <= j < r@.len() implies r.deep_view()[j] == v.deep_view()[j] by {
            assert(r@[j]@ == v@[j]@);
        }
        assert(r.deep_view() =~= v.deep_view());
    }
    r
}

impl InterfaceDto {
    /// Normalizes one raw interface into its snapshot descriptor.
    pub fn from_network_interface(intf: &InterfaceInfo) -> (r: InterfaceDto)
        ensures
            dto_of(*intf, r),
    {
        InterfaceDto {
            name: intf.name.clone(),
            description: intf.description.clone(),
            mac: match &intf.mac {
                Some(m) => m.clone(),
                None => "unknown".to_owned(),
            },
            ips: clone_strings(&intf.ips),
            up: intf.up,
            loopback: intf.loopback,
            running: intf.running,
        }
    }
}

/// The index of the first interface at or after `from` that qualifies as the
/// default, if any.
pub open spec fn first_qualifying_from(list: Seq<InterfaceInfo>, from: int) -> Option<int>
    decreases list.len() - from,
{
    if from < 0 || from >= list.len() {
        None
    } else if qualifies(list[from]) {
        Some(from)
    } else {
        first_qualifying_from(list, from + 1)
    }
}

/// The index of the first interface, in enumeration order, that qualifies as
/// the default.
pub open spec fn first_qualifying(list: Seq<InterfaceInfo>) -> Option<int> {
    first_qualifying_from(list, 0)
}

/// What it means for `r` to be the first qualifying interface of `list`.
pub open spec fn is_first_qualifying(list: Seq<InterfaceInfo>, r: Option<int>) -> bool {
    match r {
        Some(i) => {
            &&& 0 <= i < list.len()
            &&& qualifies(list[i])
            &&& forall|j: int| 0 <= j < i ==> !qualifies(#[trigger] list[j])
        },
        None => forall|j: int| 0 <= j < list.len() ==> !qualifies(#[trigger] list[j]),
    }
}

proof fn lemma_first_qualifying_from_characterization(list: Seq<InterfaceInfo>, from: int)
    requires
        0 <= from <= list.len(),
    ensures
        match first_qualifying_from(list, from) {
            Some(i) => {
                &&& from <= i < list.len()
                &&& qualifies(list[i])
                &&& forall|j: int| from <= j < i ==> !qualifies(#[trigger] list[j])
            },
            None => forall|j: int| from <= j < list.len() ==> !qualifies(#[trigger] list[j]),
        },
    decreases list.len() - from,
{
    if from < list.len() && !qualifies(list[from]) {
        lemma_first_qualifying_from_characterization(list, from + 1);
    }
}

/// Selection returns exactly the first qualifying interface.
pub proof fn lemma_first_qualifying_characterization(list: Seq<InterfaceInfo>)
    ensures
        is_first_qualifying(list, first_qualifying(list)),
{
    lemma_first_qualifying_from_characterization(list, 0);
}

/// Any two selections over one snapshot of the interface list agree.
pub proof fn lemma_first_qualifying_unique(
    list: Seq<InterfaceInfo>,
    r1: Option<int>,
    r2: Option<int>,
)
    requires
        is_first_qualifying(list, r1),
        is_first_qualifying(list, r2),
    ensures
        r1 == r2,
{
    match (r1, r2) {
        (Some(i1), Some(i2)) => {
            if i1 < i2 {
                assert(!qualifies(list[i1]));
            }
            if i2 < i1 {
                assert(!qualifies(list[i2]));
            }
        },
        (Some(i1), None) => {
            assert(!qualifies(list[i1]));
        },
        (None, Some(i2)) => {
            assert(!qualifies(list[i2]));
        },
        (None, None) => {},
    }
}

/// Default-interface selection: returns the snapshot of the first interface,
/// in the subsystem's enumeration order, that is up, not loopback, and has at
/// least one address bound; NotFound exactly when no interface qualifies.
pub fn default_interface_of(list: &Vec<InterfaceInfo>) -> (r: Result<InterfaceDto, FwError>)
    ensures
        match first_qualifying(list@) {
            Some(i) => r matches Ok(d) && dto_of(list@[i], d),
            None => r matches Err(e) && e == FwError::NotFound,
        },
{
    let n = list.len();
    let mut i: usize = 0;
    while i < n
        invariant
            n == list@.len(),
            i <= n,
            forall|j: int| 0 <= j < i ==> !qualifies(#[trigger] list@[j]),
        decreases n - i,
    {
        let candidate = &list[i];
        if candidate.up && !candidate.loopback && candidate.ips.len() > 0 {
            proof {
                lemma_first_qualifying_characterization(list@);
                lemma_first_qualifying_unique(list@, first_qualifying(list@), Some(i as int));
            }
            return Ok(InterfaceDto::from_network_interface(candidate));
        }
        i = i + 1;
    }
    proof {
        lemma_first_qualifying_characterization(list@);
        lemma_first_qualifying_unique(list@, first_qualifying(list@), None);
    }
    Err(FwError::NotFound)
}

/// Normalizes every raw interface into its snapshot descriptor, preserving
/// the subsystem's enumeration order.
pub fn interfaces_to_dtos(list: &Vec<InterfaceInfo>) -> (r: Vec<InterfaceDto>)
    ensures
        r@.len() == list@.len(),
        forall|k: int| 0 <= k < list@.len() ==> dto_of(list@[k], #[trigger] r@[k]),
{
    let mut r: Vec<InterfaceDto> = Vec::new();
    let mut i: usize = 0;
    while i < list.len()
        invariant
            i <= list@.len(),
            r@.len() == i,
            forall|k: int| 0 <= k < i ==> dto_of(list@[k], #[trigger] r@[k]),
        decreases list@.len() - i,
    {
        r.push(InterfaceDto::from_network_interface(&list[i]));
        i = i + 1;
    }
    r
}

/// Relies on pnet::datalink::interfaces: one entry per host network
/// interface, in the subsystem's enumeration order, each reduced to plain
/// values (the hardware address and the bound addresses rendered in their
/// canonical display forms). What the host reports depends on the machine,
/// so nothing is assumed of the returned values.
#[verifier::external_body]
fn host_interfaces() -> (r: Vec<InterfaceInfo>) {
    pnet::datalink::interfaces()
        .iter()
        .map(|i| InterfaceInfo {
            name: i.name.clone(),
            description: i.description.clone(),
            mac: i.mac.map(|m| m.to_string()),
            ips: i.ips.iter().map(|ip| ip.to_string()).collect(),
            up: i.is_up(),
            loopback: i.is_loopback(),
            running: i.is_running(),
        })
        .collect()
}

/// Queries the host's interfaces and returns the normalized snapshot of each,
/// in enumeration order, wrapped in the uniform response envelope. What the
/// host reports depends on the machine, so no more is promised of the list.
pub fn get_interfaces() -> (r: DataMap<Vec<InterfaceDto>>) {
    let raw = host_interfaces();
    DataMap { data: interfaces_to_dtos(&raw) }
}

/// Queries the host's interfaces and returns the snapshot of the first that
/// qualifies as the default; whatever the host reports, a returned snapshot
/// is up, not loopback, and has an address bound. A host on which no
/// interface qualifies is a NotFound error, never a crash.
pub fn get_default_interface() -> (r: Result<InterfaceDto, FwError>)
    ensures
        r matches Err(e) ==> e == FwError::NotFound,
        r matches Ok(d) ==> (d.up && !d.loopback && d.ips@.len() > 0),
{
    let raw = host_interfaces();
    let r = default_interface_of(&raw);
    proof {
        lemma_first_qualifying_characterization(raw@);
        if first_qualifying(raw@) is Some {
            let i = first_qualifying(raw@)->0;
            assert(r matches Ok(d) ==> d.ips.deep_view().len() == raw@[i].ips.deep_view().len());
        }
    }
    r
}

} // verus!
