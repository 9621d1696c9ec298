//! The walk over buses, devices and functions that fills the registry of
//! discovered functions.

use crate::ahci::AhciDispatch;
use crate::capability::{
    header_after_walk, spec_walk, traverse_headers, walk_dispatches, CapabilityError,
    CapabilityWalk, MAX_CAPABILITY_HOPS,
};
use crate::config_space::{BusFunctionAddress, ConfigSpace};
use crate::pci::{
    conf_of, function_present, get_base_class, get_header_type, get_subclass, header_at,
    pci_config_read_byte, pci_get_vendor_id, spec_read_byte, PCICommonHeader, PciConf,
};
use vstd::prelude::*;

verus! {

/// Header-type bit 7: the device has more than one function.
pub const HEADER_MULTI_FUNCTION: u8 = 0x80;

pub const CLASS_BRIDGE: u8 = 0x06;

pub const SUBCLASS_PCI_TO_PCI: u8 = 0x04;

pub const HEADER_TYPE_PCI_TO_PCI: u8 = 0x01;

/// Offset of the byte that names the bus behind a bridge.
pub const SECONDARY_BUS_OFFSET: u8 = 0x15;

/// How many bridges behind bridges are followed at most.
pub const MAX_BRIDGE_DEPTH: u32 = 256;

/// A capability chain that could not be walked to its end.
#[derive(Clone, Copy, Debug, PartialEq, Eq)]
pub struct CapabilityFault {
    pub bus: u8,
    pub device: u8,
    pub function: u8,
    pub error: CapabilityError,
}

/// What a scan has found so far, as mathematical sequences.
pub ghost struct Discovery {
    /// One summary for each discovered function, in discovery order.
    pub registry: Seq<PciConf>,
    /// The controller bring-ups that were asked for.
    pub dispatches: Seq<AhciDispatch>,
    /// The capability chains that could not be walked to their end.
    pub faults: Seq<CapabilityFault>,
    /// For each bus number, whether the bus has been scanned.
    pub visited: Seq<bool>,
}

/// What a scan has found so far.
#[derive(Debug)]
pub struct Enumeration {
    pub registry: Vec<PciConf>,
    pub dispatches: Vec<AhciDispatch>,
    pub faults: Vec<CapabilityFault>,
    pub visited: Vec<bool>,
}

impl View for Enumeration {
    type V = Discovery;

    open spec fn view(&self) -> Discovery {
        Discovery {
            registry: self.registry@,
            dispatches: self.dispatches@,
            faults: self.faults@,
            visited: self.visited@,
        }
    }
}

impl Enumeration {
    /// The state has a scan mark for each of the 256 buses.
    pub open spec fn well_formed(&self) -> bool {
        self.visited@.len() == 256
    }
}

/// Whether the function at `tuple` is a PCI-to-PCI bridge.
pub open spec fn is_bridge(space: &ConfigSpace, tuple: BusFunctionAddress) -> bool {
    &&& spec_read_byte(space, tuple, 0x0B) == CLASS_BRIDGE
    &&& spec_read_byte(space, tuple, 0x0A) == SUBCLASS_PCI_TO_PCI
    &&& spec_read_byte(space, tuple, 0x0E) == HEADER_TYPE_PCI_TO_PCI
}

/// Whether function 0 of the device marks it as having several functions.
pub open spec fn is_multi_function(space: &ConfigSpace, bus: u8, device: u8) -> bool {
    spec_read_byte(space, (bus, device, 0u8), 0x0E) & HEADER_MULTI_FUNCTION != 0
}

/// The state once the present function at `tuple` is entered: its summary
/// joins the registry, the bring-ups of its capability walk join the
/// dispatches, and a walk that stopped early is noted as a fault.
pub open spec fn record_function(
    space: &ConfigSpace,
    tuple: BusFunctionAddress,
    found: Discovery,
) -> Discovery {
    let hdr = header_at(space, tuple);
    let walk = spec_walk(space, tuple, hdr.capabilities_pointer, MAX_CAPABILITY_HOPS as nat);
    Discovery {
        registry: found.registry.push(conf_of(hdr, tuple.0, tuple.1, tuple.2)),
        dispatches: found.dispatches + walk_dispatches(hdr, walk.0),
        faults: match walk.1 {
            Some(error) => found.faults.push(
                CapabilityFault { bus: tuple.0, device: tuple.1, function: tuple.2, error },
            ),
            None => found.faults,
        },
        visited: found.visited,
    }
}

/// The state after the function at `tuple` is looked at as a bridge: the
/// bus behind a PCI-to-PCI bridge is scanned, one level deeper, unless
/// `depth` is used up.
pub open spec fn scan_behind(
    space: &ConfigSpace,
    tuple: BusFunctionAddress,
    found: Discovery,
    depth: nat,
) -> Discovery
    decreases depth, 0nat, 0nat,
{
    if is_bridge(space, tuple) && depth > 0 {
        scan_bus(space, spec_read_byte(space, tuple, SECONDARY_BUS_OFFSET), found, (depth - 1) as nat)
    } else {
        found
    }
}

/// The state after functions `function..8` of a device are probed in
/// ascending order: each one that answers is entered and looked at as a
/// bridge, whatever the others did.
pub open spec fn scan_functions(
    space: &ConfigSpace,
    bus: u8,
    device: u8,
    function: nat,
    found: Discovery,
    depth: nat,
) -> Discovery
    decreases depth, 1nat, 8 - function,
{
    if function >= 8 {
        found
    } else {
        let tuple = (bus, device, function as u8);
        let next = if function_present(space, tuple) {
            scan_behind(space, tuple, record_function(space, tuple, found), depth)
        } else {
            found
        };
        scan_functions(space, bus, device, function + 1, next, depth)
    }
}

/// The state after a device is probed: nothing changes where function 0
/// does not answer; else function 0 is entered, and functions 1 to 7 are
/// probed where function 0 marks the device as multi-function.
pub open spec fn scan_device(
    space: &ConfigSpace,
    bus: u8,
    device: u8,
    found: Discovery,
    depth: nat,
) -> Discovery
    decreases depth, 2nat, 0nat,
{
    let tuple = (bus, device, 0u8);
    if !function_present(space, tuple) {
        found
    } else {
        let first = scan_behind(space, tuple, record_function(space, tuple, found), depth);
        if is_multi_function(space, bus, device) {
            scan_functions(space, bus, device, 1, first, depth)
        } else {
            first
        }
    }
}

/// The state after devices `device..32` of a bus are probed in ascending
/// order.
pub open spec fn scan_devices(
    space: &ConfigSpace,
    bus: u8,
    device: nat,
    found: Discovery,
    depth: nat,
) -> Discovery
    decreases depth, 3nat, 32 - device,
{
    if device >= 32 {
        found
    } else {
        scan_devices(
            space,
            bus,
            device + 1,
            scan_device(space, bus, device as u8, found, depth),
            depth,
        )
    }
}

/// The state after a bus is scanned. A bus is scanned once: a bus that
/// bears its mark is left alone. `depth` tells how many bridges behind
/// bridges are still followed from this bus on.
pub open spec fn scan_bus(space: &ConfigSpace, bus: u8, found: Discovery, depth: nat) -> Discovery
    decreases depth, 4nat, 0nat,
{
    if found.visited[bus as int] {
        found
    } else {
        let marked = Discovery { visited: found.visited.update(bus as int, true), ..found };
        scan_devices(space, bus, 0, marked, depth)
    }
}

/// The state after the buses that host functions `function..8` of device
/// 0 on bus 0 stand for are scanned in ascending order: function `f`
/// stands for bus `f`.
pub open spec fn scan_hosts(space: &ConfigSpace, function: nat, found: Discovery) -> Discovery
    decreases 8 - function,
{
    if function >= 8 {
        found
    } else {
        scan_hosts(
            space,
            function + 1,
            scan_bus(space, function as u8, found, MAX_BRIDGE_DEPTH as nat),
        )
    }
}

/// The state after everything that can be reached from the host is
/// scanned: bus 0 where function 0 of its device 0 is a single function,
/// else the bus of each of the eight host functions.
pub open spec fn scan_all(space: &ConfigSpace, found: Discovery) -> Discovery {
    if !is_multi_function(space, 0, 0) {
        scan_bus(space, 0, found, MAX_BRIDGE_DEPTH as nat)
    } else {
        scan_hosts(space, 0, found)
    }
}

/// Walks the capability chain of the function behind `hdr` from `offset`.
pub fn info_headers(
    space: &ConfigSpace,
    tuple: BusFunctionAddress,
    offset: u8,
    hdr: &mut PCICommonHeader,
) -> (walk: CapabilityWalk)
    ensures
        walk.capabilities@ == spec_walk(space, tuple, offset, MAX_CAPABILITY_HOPS as nat).0,
        walk.error == spec_walk(space, tuple, offset, MAX_CAPABILITY_HOPS as nat).1,
        walk.dispatches@ == walk_dispatches(*old(hdr), walk.capabilities@),
        *final(hdr) == header_after_walk(*old(hdr), walk.capabilities@),
{
    traverse_headers(space, tuple, offset, hdr)
}

/// Enters the function whose header `dev` is: walks its capabilities and
/// appends its summary to the registry.
fn enter_function(space: &ConfigSpace, dev: &mut PCICommonHeader, state: &mut Enumeration)
    requires
        *old(dev) == header_at(space, (old(dev).bus, old(dev).device, old(dev).function)),
        old(state).well_formed(),
    ensures
        final(state).well_formed(),
        final(state)@ == record_function(
            space,
            (old(dev).bus, old(dev).device, old(dev).function),
            old(state)@,
        ),
{
    let bus = dev.bus;
    let device = dev.device;
    let function = dev.function;
    let mut walk = info_headers(space, (bus, device, function), dev.capabilities_pointer, dev);
    state.dispatches.append(&mut walk.dispatches);
    if let Some(error) = walk.error {
        state.faults.push(CapabilityFault { bus, device, function, error });
    }
    state.registry.push(dev.as_pci_conf(bus, device, function));
}

/// Looks at the function at `tuple` as a bridge: scans the bus behind a
/// PCI-to-PCI bridge, unless `depth` is 0. Returns the function's base
/// class and subclass.
pub fn check_function(
    space: &ConfigSpace,
    tuple: BusFunctionAddress,
    state: &mut Enumeration,
    depth: u32,
) -> (classes: (u8, u8))
    requires
        old(state).well_formed(),
    ensures
        final(state).well_formed(),
        final(state)@ == scan_behind(space, tuple, old(state)@, depth as nat),
        classes == (spec_read_byte(space, tuple, 0x0B), spec_read_byte(space, tuple, 0x0A)),
    decreases depth, 0nat, 0nat,
{
    let base_class = get_base_class(space, tuple);
    let subclass = get_subclass(space, tuple);
    let header = get_header_type(space, tuple);
    if base_class == CLASS_BRIDGE && subclass == SUBCLASS_PCI_TO_PCI && header
        == HEADER_TYPE_PCI_TO_PCI && depth > 0 {
        let secondary_bus = pci_config_read_byte(space, tuple, SECONDARY_BUS_OFFSET);
        check_bus(space, secondary_bus, state, depth - 1);
    }
    (base_class, subclass)
}

/// Probes one function: where it answers, it is entered and looked at as
/// a bridge.
fn probe_function(
    space: &ConfigSpace,
    bus: u8,
    device: u8,
    function: u8,
    state: &mut Enumeration,
    depth: u32,
)
    requires
        old(state).well_formed(),
    ensures
        final(state).well_formed(),
        final(state)@ == if function_present(space, (bus, device, function)) {
            scan_behind(
                space,
                (bus, device, function),
                record_function(space, (bus, device, function), old(state)@),
                depth as nat,
            )
        } else {
            old(state)@
        },
    decreases depth, 1nat, 0nat,
{
    let dev = PCICommonHeader::from(space, bus, device, function);
    if let Some(mut dev) = dev {
        enter_function(space, &mut dev, state);
        check_function(space, (bus, device, function), state, depth);
    }
}

/// Probes a device: function 0, and functions 1 to 7 where function 0
/// marks the device as multi-function.
pub fn check_device(space: &ConfigSpace, bus: u8, device: u8, state: &mut Enumeration, depth: u32)
    requires
        old(state).well_formed(),
    ensures
        final(state).well_formed(),
        final(state)@ == scan_device(space, bus, device, old(state)@, depth as nat),
    decreases depth, 2nat, 0nat,
{
    let vendor_id = pci_get_vendor_id(space, (bus, device, 0));
    if vendor_id.is_none() {
        return ;
    }
    let header_type = get_header_type(space, (bus, device, 0));
    probe_function(space, bus, device, 0, state, depth);
    if (header_type & HEADER_MULTI_FUNCTION) != 0 {
        let ghost first = state@;
        let mut func: u8 = 1;
        while func < 8
            invariant
                1 <= func <= 8,
                state.well_formed(),
                scan_functions(space, bus, device, func as nat, state@, depth as nat)
                    == scan_functions(space, bus, device, 1, first, depth as nat),
            decreases 8 - func,
        {
            probe_function(space, bus, device, func, state, depth);
            func += 1;
        }
    }
}

/// Scans a bus that has not been scanned yet: marks it and probes its 32
/// devices in ascending order, following at most `depth` bridges behind
/// bridges.
pub fn check_bus(space: &ConfigSpace, bus: u8, state: &mut Enumeration, depth: u32)
    requires
        old(state).well_formed(),
    ensures
        final(state).well_formed(),
        final(state)@ == scan_bus(space, bus, old(state)@, depth as nat),
    decreases depth, 4nat, 0nat,
{
    if state.visited[bus as usize] {
        return ;
    }
    state.visited.set(bus as usize, true);
    let ghost marked = state@;
    let mut device: u8 = 0;
    while device < 32
        invariant
            device <= 32,
            state.well_formed(),
            scan_devices(space, bus, device as nat, state@, depth as nat) == scan_devices(
                space,
                bus,
                0,
                marked,
                depth as nat,
            ),
        decreases 32 - device,
    {
        check_device(space, bus, device, state, depth);
        device += 1;
    }
}

/// Scans everything that can be reached from bus 0.
pub fn check_all_buses(space: &ConfigSpace, state: &mut Enumeration)
    requires
        old(state).well_formed(),
    ensures
        final(state).well_formed(),
        final(state)@ == scan_all(space, old(state)@),
{
    let header_type = get_header_type(space, (0, 0, 0));
    if (header_type & HEADER_MULTI_FUNCTION) == 0 {
        check_bus(space, 0, state, MAX_BRIDGE_DEPTH);
    } else {
        let ghost start = state@;
        let mut function: u8 = 0;
        while function < 8
            invariant
                function <= 8,
                state.well_formed(),
                scan_hosts(space, function as nat, state@) == scan_hosts(space, 0, start),
            decreases 8 - function,
        {
            check_bus(space, function, state, MAX_BRIDGE_DEPTH);
            function += 1;
        }
    }
}

/// The state in which nothing is scanned yet and the registry holds
/// `registry`.
pub open spec fn fresh_discovery(registry: Seq<PciConf>) -> Discovery {
    Discovery {
        registry,
        dispatches: Seq::empty(),
        faults: Seq::empty(),
        visited: Seq::new(256, |bus: int| false),
    }
}

/// Discovers the functions that can be reached from bus 0 and appends
/// their summaries to `registry`, which is handed back with what else the
/// scan found.
pub fn pci_init(space: &ConfigSpace, registry: Vec<PciConf>) -> (found: Enumeration)
    ensures
        found.well_formed(),
        found@ == scan_all(space, fresh_discovery(registry@)),
{
    let visited: Vec<bool> = vec![false; 256];
    let mut state = Enumeration {
        registry,
        dispatches: Vec::new(),
        faults: Vec::new(),
        visited,
    };
    assert(state@.visited =~= fresh_discovery(registry@).visited);
    check_all_buses(space, &mut state);
    state
}

/// A copy of the registry's summaries, in discovery order.
pub fn pci_get_conf(registry: &Vec<PciConf>) -> (confs: Vec<PciConf>)
    ensures
        confs@ == registry@,
{
    let mut confs: Vec<PciConf> = Vec::new();
    let mut i: usize = 0;
    while i < registry.len()
        invariant
            i <= registry.len(),
            confs@ == registry@.subrange(0, i as int),
        decreases registry.len() - i,
    {
        confs.push(registry[i]);
        assert(confs@ =~= registry@.subrange(0, i + 1));
        i += 1;
    }
    assert(confs@ =~= registry@);
    confs
}

} // verus!
