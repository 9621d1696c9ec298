//! Laws of the scan over buses, devices and functions.

use crate::ahci::{dispatch_for, AhciDispatch};
use crate::capability::{
    is_ahci_controller, sata_records, spec_walk, walk_dispatches, Capability, CapabilityError,
    Sata, MAX_CAPABILITY_HOPS,
};
use crate::config_space::{BusFunctionAddress, ConfigSpace};
use crate::enumerator::{
    fresh_discovery, is_bridge, is_multi_function, record_function, scan_all, scan_behind,
    scan_bus, scan_device, scan_devices, scan_functions, scan_hosts, CapabilityFault, Discovery,
    MAX_BRIDGE_DEPTH, SECONDARY_BUS_OFFSET,
};
use crate::pci::{conf_of, function_present, header_at, spec_read_byte, PciConf};
use vstd::prelude::*;

verus! {

/// Whether the registry of `after` is that of `before` followed by
/// summaries of functions that answer in `space`, each filed under its
/// own bus, device and function.
pub open spec fn appends_present(space: &ConfigSpace, before: Discovery, after: Discovery) -> bool {
    &&& before.registry.len() <= after.registry.len()
    &&& forall|i: int|
        0 <= i < before.registry.len() ==> #[trigger] after.registry[i] == before.registry[i]
    &&& forall|i: int|
        before.registry.len() <= i < after.registry.len() ==> function_present(
            space,
            (
                (#[trigger] after.registry[i]).bus,
                after.registry[i].device,
                after.registry[i].function,
            ),
        )
}

proof fn lemma_scan_behind_appends(
    space: &ConfigSpace,
    tuple: BusFunctionAddress,
    found: Discovery,
    depth: nat,
)
    ensures
        appends_present(space, found, scan_behind(space, tuple, found, depth)),
    decreases depth, 0nat, 0nat,
{
    if is_bridge(space, tuple) && depth > 0 {
        lemma_scan_bus_appends(
            space,
            spec_read_byte(space, tuple, SECONDARY_BUS_OFFSET),
            found,
            (depth - 1) as nat,
        );
    }
}

proof fn lemma_probe_appends(
    space: &ConfigSpace,
    tuple: BusFunctionAddress,
    found: Discovery,
    depth: nat,
)
    requires
        function_present(space, tuple),
    ensures
        appends_present(
            space,
            found,
            scan_behind(space, tuple, record_function(space, tuple, found), depth),
        ),
        found.registry.len() < scan_behind(
            space,
            tuple,
            record_function(space, tuple, found),
            depth,
        ).registry.len(),
        scan_behind(
            space,
            tuple,
            record_function(space, tuple, found),
            depth,
        ).registry[found.registry.len() as int] == conf_of(
            header_at(space, tuple),
            tuple.0,
            tuple.1,
            tuple.2,
        ),
    decreases depth, 0nat, 1nat,
{
    let entered = record_function(space, tuple, found);
    lemma_scan_behind_appends(space, tuple, entered, depth);
}

proof fn lemma_scan_functions_appends(
    space: &ConfigSpace,
    bus: u8,
    device: u8,
    function: nat,
    found: Discovery,
    depth: nat,
)
    ensures
        appends_present(space, found, scan_functions(space, bus, device, function, found, depth)),
    decreases depth, 1nat, 8 - function,
{
    if function < 8 {
        let tuple = (bus, device, function as u8);
        let next = if function_present(space, tuple) {
            scan_behind(space, tuple, record_function(space, tuple, found), depth)
        } else {
            found
        };
        if function_present(space, tuple) {
            lemma_probe_appends(space, tuple, found, depth);
        }
        lemma_scan_functions_appends(space, bus, device, function + 1, next, depth);
    }
}

proof fn lemma_scan_device_appends(
    space: &ConfigSpace,
    bus: u8,
    device: u8,
    found: Discovery,
    depth: nat,
)
    ensures
        appends_present(space, found, scan_device(space, bus, device, found, depth)),
    decreases depth, 2nat, 0nat,
{
    let tuple = (bus, device, 0u8);
    if function_present(space, tuple) {
        lemma_probe_appends(space, tuple, found, depth);
        let first = scan_behind(space, tuple, record_function(space, tuple, found), depth);
        if is_multi_function(space, bus, device) {
            lemma_scan_functions_appends(space, bus, device, 1, first, depth);
        }
    }
}

proof fn lemma_scan_devices_appends(
    space: &ConfigSpace,
    bus: u8,
    device: nat,
    found: Discovery,
    depth: nat,
)
    ensures
        appends_present(space, found, scan_devices(space, bus, device, found, depth)),
    decreases depth, 3nat, 32 - device,
{
    if device < 32 {
        lemma_scan_device_appends(space, bus, device as u8, found, depth);
        lemma_scan_devices_appends(
            space,
            bus,
            device + 1,
            scan_device(space, bus, device as u8, found, depth),
            depth,
        );
    }
}

proof fn lemma_scan_bus_appends(space: &ConfigSpace, bus: u8, found: Discovery, depth: nat)
    ensures
        appends_present(space, found, scan_bus(space, bus, found, depth)),
    decreases depth, 4nat, 0nat,
{
    if !found.visited[bus as int] {
        let marked = Discovery { visited: found.visited.update(bus as int, true), ..found };
        lemma_scan_devices_appends(space, bus, 0, marked, depth);
    }
}

proof fn lemma_scan_hosts_appends(space: &ConfigSpace, function: nat, found: Discovery)
    ensures
        appends_present(space, found, scan_hosts(space, function, found)),
    decreases 8 - function,
{
    if function < 8 {
        lemma_scan_bus_appends(space, function as u8, found, MAX_BRIDGE_DEPTH as nat);
        lemma_scan_hosts_appends(
            space,
            function + 1,
            scan_bus(space, function as u8, found, MAX_BRIDGE_DEPTH as nat),
        );
    }
}

/// A scan keeps the registry that it was given and appends to it only
/// summaries of functions that answer: no entry is filed for a function
/// whose vendor id reads as all ones.
pub proof fn lemma_scan_registers_only_present(space: &ConfigSpace, found: Discovery)
    ensures
        appends_present(space, found, scan_all(space, found)),
{
    if !is_multi_function(space, 0, 0) {
        lemma_scan_bus_appends(space, 0, found, MAX_BRIDGE_DEPTH as nat);
    } else {
        lemma_scan_hosts_appends(space, 0, found);
    }
}

proof fn lemma_scan_functions_registers(
    space: &ConfigSpace,
    bus: u8,
    device: u8,
    from: nat,
    function: u8,
    found: Discovery,
    depth: nat,
)
    requires
        from <= function < 8,
        function_present(space, (bus, device, function)),
    ensures
        scan_functions(space, bus, device, from, found, depth).registry.contains(
            conf_of(header_at(space, (bus, device, function)), bus, device, function),
        ),
    decreases 8 - from,
{
    let tuple = (bus, device, from as u8);
    let next = if function_present(space, tuple) {
        scan_behind(space, tuple, record_function(space, tuple, found), depth)
    } else {
        found
    };
    let last = scan_functions(space, bus, device, from + 1, next, depth);
    if from == function {
        lemma_probe_appends(space, tuple, found, depth);
        lemma_scan_functions_appends(space, bus, device, from + 1, next, depth);
        assert(last.registry[found.registry.len() as int] == next.registry[found.registry.len() as int]);
    } else {
        lemma_scan_functions_registers(space, bus, device, from + 1, function, next, depth);
    }
}

/// On a device whose function 0 answers and sets the multi-function
/// bit, each of the functions 1 to 7 that answers is entered in the
/// registry, whatever function 0 or the other functions hold.
pub proof fn lemma_multi_function_probes_each(
    space: &ConfigSpace,
    bus: u8,
    device: u8,
    function: u8,
    found: Discovery,
    depth: nat,
)
    requires
        function_present(space, (bus, device, 0u8)),
        is_multi_function(space, bus, device),
        1 <= function < 8,
        function_present(space, (bus, device, function)),
    ensures
        scan_device(space, bus, device, found, depth).registry.contains(
            conf_of(header_at(space, (bus, device, function)), bus, device, function),
        ),
{
    let tuple = (bus, device, 0u8);
    let first = scan_behind(space, tuple, record_function(space, tuple, found), depth);
    lemma_scan_functions_registers(space, bus, device, 1, function, first, depth);
}

/// A device whose function 0 answers has that function registered
/// first: the entry that the scan of the device appends first is the
/// summary of function 0, whatever else the device holds and whatever
/// lies behind it.
pub proof fn lemma_function_zero_is_registered_first(
    space: &ConfigSpace,
    bus: u8,
    device: u8,
    found: Discovery,
    depth: nat,
)
    requires
        function_present(space, (bus, device, 0u8)),
    ensures
        appends_present(space, found, scan_device(space, bus, device, found, depth)),
        found.registry.len() < scan_device(space, bus, device, found, depth).registry.len(),
        scan_device(space, bus, device, found, depth).registry[found.registry.len() as int]
            == conf_of(header_at(space, (bus, device, 0u8)), bus, device, 0),
{
    let tuple = (bus, device, 0u8);
    lemma_probe_appends(space, tuple, found, depth);
    lemma_scan_device_appends(space, bus, device, found, depth);
    let first = scan_behind(space, tuple, record_function(space, tuple, found), depth);
    if is_multi_function(space, bus, device) {
        lemma_scan_functions_appends(space, bus, device, 1, first, depth);
    }
}

proof fn lemma_scan_devices_registers(
    space: &ConfigSpace,
    bus: u8,
    from: nat,
    device: u8,
    found: Discovery,
    depth: nat,
)
    requires
        from <= device < 32,
        function_present(space, (bus, device, 0u8)),
    ensures
        scan_devices(space, bus, from, found, depth).registry.contains(
            conf_of(header_at(space, (bus, device, 0u8)), bus, device, 0),
        ),
    decreases 32 - from,
{
    let next = scan_device(space, bus, from as u8, found, depth);
    let last = scan_devices(space, bus, from + 1, next, depth);
    if from == device {
        lemma_function_zero_is_registered_first(space, bus, device, found, depth);
        lemma_scan_devices_appends(space, bus, from + 1, next, depth);
        assert(last.registry[found.registry.len() as int] == next.registry[found.registry.len() as int]);
    } else {
        lemma_scan_devices_registers(space, bus, from + 1, device, next, depth);
    }
}

/// A scan of a bus that does not bear its mark yet registers function 0
/// of each of the bus's 32 devices that answers.
pub proof fn lemma_scanned_bus_registers_each_device(
    space: &ConfigSpace,
    bus: u8,
    device: u8,
    found: Discovery,
    depth: nat,
)
    requires
        !found.visited[bus as int],
        device < 32,
        function_present(space, (bus, device, 0u8)),
    ensures
        scan_bus(space, bus, found, depth).registry.contains(
            conf_of(header_at(space, (bus, device, 0u8)), bus, device, 0),
        ),
{
    let marked = Discovery { visited: found.visited.update(bus as int, true), ..found };
    lemma_scan_devices_registers(space, bus, 0, device, marked, depth);
}

/// How many buses do not bear a scan mark.
pub open spec fn unvisited(visited: Seq<bool>) -> nat
    decreases visited.len(),
{
    if visited.len() == 0 {
        0
    } else {
        unvisited(visited.drop_last()) + if visited.last() {
            0nat
        } else {
            1nat
        }
    }
}

proof fn lemma_unvisited_bound(visited: Seq<bool>)
    ensures
        unvisited(visited) <= visited.len(),
    decreases visited.len(),
{
    if visited.len() > 0 {
        lemma_unvisited_bound(visited.drop_last());
    }
}

proof fn lemma_mark_unvisited(visited: Seq<bool>, bus: int)
    requires
        0 <= bus < visited.len(),
        !visited[bus],
    ensures
        unvisited(visited.update(bus, true)) + 1 == unvisited(visited),
    decreases visited.len(),
{
    let marked = visited.update(bus, true);
    if bus == visited.len() - 1 {
        assert(marked.drop_last() =~= visited.drop_last());
    } else {
        lemma_mark_unvisited(visited.drop_last(), bus);
        assert(marked.drop_last() =~= visited.drop_last().update(bus, true));
    }
}

/// Whether two scans from `before`, at two depths, ended alike: in the
/// same state, with a mark for each of the 256 buses and no more buses
/// without a mark than before.
pub open spec fn scanned_alike(before: Discovery, first: Discovery, second: Discovery) -> bool {
    &&& first == second
    &&& first.visited.len() == 256
    &&& unvisited(first.visited) <= unvisited(before.visited)
}

proof fn lemma_scan_behind_depth(
    space: &ConfigSpace,
    tuple: BusFunctionAddress,
    found: Discovery,
    a: nat,
    b: nat,
)
    requires
        found.visited.len() == 256,
        a >= unvisited(found.visited),
        b >= unvisited(found.visited),
    ensures
        scanned_alike(
            found,
            scan_behind(space, tuple, found, a),
            scan_behind(space, tuple, found, b),
        ),
    decreases a, 0nat, 0nat,
{
    if is_bridge(space, tuple) {
        let secondary = spec_read_byte(space, tuple, SECONDARY_BUS_OFFSET);
        if a > 0 && b > 0 {
            lemma_scan_bus_depth(space, secondary, found, (a - 1) as nat, (b - 1) as nat);
        } else if !found.visited[secondary as int] {
            lemma_mark_unvisited(found.visited, secondary as int);
        }
    }
}

proof fn lemma_probe_depth(
    space: &ConfigSpace,
    tuple: BusFunctionAddress,
    found: Discovery,
    a: nat,
    b: nat,
)
    requires
        found.visited.len() == 256,
        a >= unvisited(found.visited),
        b >= unvisited(found.visited),
    ensures
        scanned_alike(
            found,
            scan_behind(space, tuple, record_function(space, tuple, found), a),
            scan_behind(space, tuple, record_function(space, tuple, found), b),
        ),
    decreases a, 0nat, 1nat,
{
    lemma_scan_behind_depth(space, tuple, record_function(space, tuple, found), a, b);
}

proof fn lemma_scan_functions_depth(
    space: &ConfigSpace,
    bus: u8,
    device: u8,
    function: nat,
    found: Discovery,
    a: nat,
    b: nat,
)
    requires
        found.visited.len() == 256,
        a >= unvisited(found.visited),
        b >= unvisited(found.visited),
    ensures
        scanned_alike(
            found,
            scan_functions(space, bus, device, function, found, a),
            scan_functions(space, bus, device, function, found, b),
        ),
    decreases a, 1nat, 8 - function,
{
    if function < 8 {
        let tuple = (bus, device, function as u8);
        let next = if function_present(space, tuple) {
            scan_behind(space, tuple, record_function(space, tuple, found), a)
        } else {
            found
        };
        if function_present(space, tuple) {
            lemma_probe_depth(space, tuple, found, a, b);
        }
        lemma_scan_functions_depth(space, bus, device, function + 1, next, a, b);
    }
}

proof fn lemma_scan_device_depth(
    space: &ConfigSpace,
    bus: u8,
    device: u8,
    found: Discovery,
    a: nat,
    b: nat,
)
    requires
        found.visited.len() == 256,
        a >= unvisited(found.visited),
        b >= unvisited(found.visited),
    ensures
        scanned_alike(
            found,
            scan_device(space, bus, device, found, a),
            scan_device(space, bus, device, found, b),
        ),
    decreases a, 2nat, 0nat,
{
    let tuple = (bus, device, 0u8);
    if function_present(space, tuple) {
        lemma_probe_depth(space, tuple, found, a, b);
        let first = scan_behind(space, tuple, record_function(space, tuple, found), a);
        if is_multi_function(space, bus, device) {
            lemma_scan_functions_depth(space, bus, device, 1, first, a, b);
        }
    }
}

proof fn lemma_scan_devices_depth(
    space: &ConfigSpace,
    bus: u8,
    device: nat,
    found: Discovery,
    a: nat,
    b: nat,
)
    requires
        found.visited.len() == 256,
        a >= unvisited(found.visited),
        b >= unvisited(found.visited),
    ensures
        scanned_alike(
            found,
            scan_devices(space, bus, device, found, a),
            scan_devices(space, bus, device, found, b),
        ),
    decreases a, 3nat, 32 - device,
{
    if device < 32 {
        lemma_scan_device_depth(space, bus, device as u8, found, a, b);
        lemma_scan_devices_depth(
            space,
            bus,
            device + 1,
            scan_device(space, bus, device as u8, found, a),
            a,
            b,
        );
    }
}

proof fn lemma_scan_bus_depth(space: &ConfigSpace, bus: u8, found: Discovery, a: nat, b: nat)
    requires
        found.visited.len() == 256,
        a + 1 >= unvisited(found.visited),
        b + 1 >= unvisited(found.visited),
    ensures
        scanned_alike(found, scan_bus(space, bus, found, a), scan_bus(space, bus, found, b)),
    decreases a, 4nat, 0nat,
{
    if !found.visited[bus as int] {
        lemma_mark_unvisited(found.visited, bus as int);
        let marked = Discovery { visited: found.visited.update(bus as int, true), ..found };
        lemma_scan_devices_depth(space, bus, 0, marked, a, b);
    }
}

/// The depth to which bridges are followed is never used up: a scan of
/// a bus from a state with a mark for each of the 256 buses ends alike at
/// every depth from 256 on, so no bus that lies behind bridges is left
/// out for want of depth.
pub proof fn lemma_bridge_depth_is_never_used_up(
    space: &ConfigSpace,
    bus: u8,
    found: Discovery,
    depth: nat,
)
    requires
        found.visited.len() == 256,
        depth >= MAX_BRIDGE_DEPTH,
    ensures
        scan_bus(space, bus, found, depth) == scan_bus(space, bus, found, MAX_BRIDGE_DEPTH as nat),
{
    lemma_unvisited_bound(found.visited);
    lemma_scan_bus_depth(space, bus, found, depth, MAX_BRIDGE_DEPTH as nat);
}

proof fn lemma_absent_devices(
    space: &ConfigSpace,
    bus: u8,
    device: nat,
    found: Discovery,
    depth: nat,
)
    requires
        forall|other: u8| device <= other < 32 ==> !function_present(space, (bus, other, 0u8)),
    ensures
        scan_devices(space, bus, device, found, depth) == found,
    decreases 32 - device,
{
    if device < 32 {
        assert(!function_present(space, (bus, device as u8, 0u8)));
        assert(scan_device(space, bus, device as u8, found, depth) == found);
        lemma_absent_devices(space, bus, device + 1, found, depth);
        assert(scan_devices(space, bus, device, found, depth) == scan_devices(
            space,
            bus,
            device + 1,
            found,
            depth,
        ));
    }
}

proof fn lemma_only_device(
    space: &ConfigSpace,
    bus: u8,
    from: nat,
    only: u8,
    found: Discovery,
    depth: nat,
)
    requires
        from <= only < 32,
        forall|other: u8|
            other < 32 && other != only ==> !function_present(space, (bus, other, 0u8)),
    ensures
        scan_devices(space, bus, from, found, depth) == scan_device(space, bus, only, found, depth),
    decreases only - from,
{
    if from < only {
        assert(!function_present(space, (bus, from as u8, 0u8)));
        assert(scan_device(space, bus, from as u8, found, depth) == found);
        lemma_only_device(space, bus, from + 1, only, found, depth);
        assert(scan_devices(space, bus, from, found, depth) == scan_devices(
            space,
            bus,
            from + 1,
            found,
            depth,
        ));
    } else {
        let after = scan_device(space, bus, only, found, depth);
        lemma_absent_devices(space, bus, (only + 1) as nat, after, depth);
        assert(scan_devices(space, bus, from, found, depth) == scan_devices(
            space,
            bus,
            from + 1,
            after,
            depth,
        ));
    }
}

/// On a bus system that holds nothing but a bridge at bus 0, device 0,
/// function 0 and, on the bus behind it, one function of the known SATA
/// controller whose capability chain is one SATA record, a scan from
/// nothing registers the bridge and then the controller, and asks for
/// one bring-up: that of the controller, at the address in its sixth base
/// address register.
pub proof fn lemma_controller_behind_bridge(
    space: &ConfigSpace,
    secondary: u8,
    device: u8,
    sata: Sata,
    registry: Seq<PciConf>,
)
    requires
        secondary != 0,
        device < 32,
        function_present(space, (0u8, 0u8, 0u8)),
        is_bridge(space, (0u8, 0u8, 0u8)),
        spec_read_byte(space, (0u8, 0u8, 0u8), SECONDARY_BUS_OFFSET) == secondary,
        spec_walk(
            space,
            (0u8, 0u8, 0u8),
            header_at(space, (0u8, 0u8, 0u8)).capabilities_pointer,
            MAX_CAPABILITY_HOPS as nat,
        ) == (Seq::<Capability>::empty(), None::<CapabilityError>),
        function_present(space, (secondary, device, 0u8)),
        is_ahci_controller(header_at(space, (secondary, device, 0u8))),
        !is_bridge(space, (secondary, device, 0u8)),
        !is_multi_function(space, secondary, device),
        spec_walk(
            space,
            (secondary, device, 0u8),
            header_at(space, (secondary, device, 0u8)).capabilities_pointer,
            MAX_CAPABILITY_HOPS as nat,
        ) == (seq![Capability::Sata(sata)], None::<CapabilityError>),
        forall|other: u8| 0 < other < 32 ==> !function_present(space, (0u8, other, 0u8)),
        forall|other: u8|
            other < 32 && other != device ==> !function_present(space, (secondary, other, 0u8)),
    ensures
        ({
            let bridge = header_at(space, (0u8, 0u8, 0u8));
            let controller = header_at(space, (secondary, device, 0u8));
            let found = scan_all(space, fresh_discovery(registry));
            &&& found.registry == registry.push(conf_of(bridge, 0, 0, 0)).push(
                conf_of(controller, secondary, device, 0),
            )
            &&& found.dispatches == seq![
                dispatch_for(controller, controller.base_address_registers[5]),
            ]
            &&& found.faults == Seq::<CapabilityFault>::empty()
        }),
{
    let host = (0u8, 0u8, 0u8);
    let target = (secondary, device, 0u8);
    let bridge = header_at(space, host);
    let controller = header_at(space, target);
    let depth = MAX_BRIDGE_DEPTH as nat;
    let start = fresh_discovery(registry);
    let header_type = spec_read_byte(space, host, 0x0E);
    assert(header_type == 0x01 ==> header_type & 0x80 == 0) by (bit_vector);
    assert(!is_multi_function(space, 0, 0));

    let marked = Discovery { visited: start.visited.update(0, true), ..start };
    let entered = record_function(space, host, marked);
    assert(walk_dispatches(bridge, Seq::<Capability>::empty()) =~= Seq::<AhciDispatch>::empty());
    assert(entered.dispatches =~= Seq::<AhciDispatch>::empty());

    let behind = Discovery {
        visited: entered.visited.update(secondary as int, true),
        ..entered
    };
    let chain = seq![Capability::Sata(sata)];
    assert(chain.drop_last() =~= Seq::<Capability>::empty());
    assert(sata_records(chain.drop_last()) == 0);
    assert(sata_records(chain) == 1);
    let asked = walk_dispatches(controller, chain);
    assert(asked =~= seq![dispatch_for(controller, controller.base_address_registers[5])]);
    let registered = record_function(space, target, behind);
    assert(registered.dispatches =~= seq![
        dispatch_for(controller, controller.base_address_registers[5]),
    ]);
    assert(scan_behind(space, target, registered, (depth - 1) as nat) == registered);
    assert(scan_device(space, secondary, device, behind, (depth - 1) as nat) == registered);
    lemma_only_device(space, secondary, 0, device, behind, (depth - 1) as nat);
    assert(scan_bus(space, secondary, entered, (depth - 1) as nat) == registered);
    assert(scan_behind(space, host, entered, depth) == registered);
    assert(scan_device(space, 0, 0, marked, depth) == registered);
    lemma_absent_devices(space, 0, 1, registered, depth);
    assert(scan_devices(space, 0, 0, marked, depth) == registered);
    assert(scan_bus(space, 0, start, depth) == registered);
}

/// A bridge that is followed has the bus behind it scanned: where that
/// bus does not bear its mark yet and the depth is not used up, function
/// 0 of each of its devices that answers is registered.
pub proof fn lemma_bridge_has_its_bus_scanned(
    space: &ConfigSpace,
    tuple: BusFunctionAddress,
    device: u8,
    found: Discovery,
    depth: nat,
)
    requires
        is_bridge(space, tuple),
        depth > 0,
        !found.visited[spec_read_byte(space, tuple, SECONDARY_BUS_OFFSET) as int],
        device < 32,
        function_present(
            space,
            (spec_read_byte(space, tuple, SECONDARY_BUS_OFFSET), device, 0u8),
        ),
    ensures
        scan_behind(space, tuple, found, depth).registry.contains(
            conf_of(
                header_at(
                    space,
                    (spec_read_byte(space, tuple, SECONDARY_BUS_OFFSET), device, 0u8),
                ),
                spec_read_byte(space, tuple, SECONDARY_BUS_OFFSET),
                device,
                0,
            ),
        ),
{
    lemma_scanned_bus_registers_each_device(
        space,
        spec_read_byte(space, tuple, SECONDARY_BUS_OFFSET),
        device,
        found,
        (depth - 1) as nat,
    );
}

/// The summaries of the functions `from..8` of a device that answer, in
/// ascending order.
pub open spec fn function_confs(space: &ConfigSpace, bus: u8, device: u8, from: nat) -> Seq<PciConf>
    decreases 8 - from,
{
    if from >= 8 {
        Seq::empty()
    } else {
        let tuple = (bus, device, from as u8);
        let own = if function_present(space, tuple) {
            seq![conf_of(header_at(space, tuple), bus, device, from as u8)]
        } else {
            Seq::empty()
        };
        own + function_confs(space, bus, device, from + 1)
    }
}

/// The summaries that a device stands for: none where function 0 does
/// not answer, that of function 0 alone for a single-function device,
/// and those of all functions that answer for a multi-function device.
pub open spec fn device_confs(space: &ConfigSpace, bus: u8, device: u8) -> Seq<PciConf> {
    let tuple = (bus, device, 0u8);
    if !function_present(space, tuple) {
        Seq::empty()
    } else if is_multi_function(space, bus, device) {
        seq![conf_of(header_at(space, tuple), bus, device, 0)] + function_confs(
            space,
            bus,
            device,
            1,
        )
    } else {
        seq![conf_of(header_at(space, tuple), bus, device, 0)]
    }
}

proof fn lemma_functions_without_bridges(
    space: &ConfigSpace,
    bus: u8,
    device: u8,
    from: nat,
    found: Discovery,
    depth: nat,
)
    requires
        forall|function: u8| function < 8 ==> !is_bridge(space, (bus, device, function)),
    ensures
        scan_functions(space, bus, device, from, found, depth).registry == found.registry
            + function_confs(space, bus, device, from),
    decreases 8 - from,
{
    if from < 8 {
        let tuple = (bus, device, from as u8);
        assert(!is_bridge(space, tuple));
        let next = if function_present(space, tuple) {
            scan_behind(space, tuple, record_function(space, tuple, found), depth)
        } else {
            found
        };
        lemma_functions_without_bridges(space, bus, device, from + 1, next, depth);
        assert(scan_functions(space, bus, device, from, found, depth).registry
            =~= found.registry + function_confs(space, bus, device, from));
    } else {
        assert(found.registry + function_confs(space, bus, device, from) =~= found.registry);
    }
}

/// A device none of whose functions is a bridge adds to the registry
/// exactly the summaries that it stands for, in ascending order of its
/// functions: one entry for a single-function device, one for each
/// function that answers for a multi-function device, and none where
/// function 0 does not answer.
pub proof fn lemma_device_without_bridges(
    space: &ConfigSpace,
    bus: u8,
    device: u8,
    found: Discovery,
    depth: nat,
)
    requires
        forall|function: u8| function < 8 ==> !is_bridge(space, (bus, device, function)),
    ensures
        scan_device(space, bus, device, found, depth).registry == found.registry + device_confs(
            space,
            bus,
            device,
        ),
{
    let tuple = (bus, device, 0u8);
    assert(!is_bridge(space, tuple));
    if function_present(space, tuple) {
        let first = scan_behind(space, tuple, record_function(space, tuple, found), depth);
        if is_multi_function(space, bus, device) {
            lemma_functions_without_bridges(space, bus, device, 1, first, depth);
        }
        assert(scan_device(space, bus, device, found, depth).registry =~= found.registry
            + device_confs(space, bus, device));
    } else {
        assert(found.registry + device_confs(space, bus, device) =~= found.registry);
    }
}

/// Whether the summary is filed under the bus, device and function of
/// `tuple`.
pub open spec fn filed_under(conf: PciConf, tuple: BusFunctionAddress) -> bool {
    conf.bus == tuple.0 && conf.device == tuple.1 && conf.function == tuple.2
}

/// How many entries of the registry are filed under `tuple`.
pub open spec fn entries_for(registry: Seq<PciConf>, tuple: BusFunctionAddress) -> nat
    decreases registry.len(),
{
    if registry.len() == 0 {
        0
    } else {
        entries_for(registry.drop_last(), tuple) + if filed_under(registry.last(), tuple) {
            1nat
        } else {
            0nat
        }
    }
}

proof fn lemma_entered_function(
    space: &ConfigSpace,
    entered: BusFunctionAddress,
    found: Discovery,
    tuple: BusFunctionAddress,
)
    ensures
        record_function(space, entered, found).visited == found.visited,
        entries_for(record_function(space, entered, found).registry, tuple) == entries_for(
            found.registry,
            tuple,
        ) + if entered == tuple {
            1nat
        } else {
            0nat
        },
{
    let after = record_function(space, entered, found).registry;
    assert(after.drop_last() =~= found.registry);
}

/// Whether a scan from `before` to `after` left the entries for `tuple`
/// as they were and the bus of `tuple` marked.
pub open spec fn keeps_entries(before: Discovery, after: Discovery, tuple: BusFunctionAddress) -> bool {
    &&& after.visited.len() == 256
    &&& after.visited[tuple.0 as int]
    &&& entries_for(after.registry, tuple) == entries_for(before.registry, tuple)
}

proof fn lemma_scan_behind_keeps(
    space: &ConfigSpace,
    bridge: BusFunctionAddress,
    found: Discovery,
    depth: nat,
    tuple: BusFunctionAddress,
)
    requires
        found.visited.len() == 256,
        found.visited[tuple.0 as int],
    ensures
        keeps_entries(found, scan_behind(space, bridge, found, depth), tuple),
    decreases depth, 0nat, 0nat,
{
    if is_bridge(space, bridge) && depth > 0 {
        lemma_scan_bus_keeps(
            space,
            spec_read_byte(space, bridge, SECONDARY_BUS_OFFSET),
            found,
            (depth - 1) as nat,
            tuple,
        );
    }
}

proof fn lemma_probe_keeps(
    space: &ConfigSpace,
    entered: BusFunctionAddress,
    found: Discovery,
    depth: nat,
    tuple: BusFunctionAddress,
)
    requires
        found.visited.len() == 256,
        found.visited[tuple.0 as int],
        entered.0 != tuple.0,
    ensures
        keeps_entries(
            found,
            scan_behind(space, entered, record_function(space, entered, found), depth),
            tuple,
        ),
    decreases depth, 0nat, 1nat,
{
    lemma_entered_function(space, entered, found, tuple);
    lemma_scan_behind_keeps(space, entered, record_function(space, entered, found), depth, tuple);
}

proof fn lemma_scan_functions_keeps(
    space: &ConfigSpace,
    bus: u8,
    device: u8,
    function: nat,
    found: Discovery,
    depth: nat,
    tuple: BusFunctionAddress,
)
    requires
        found.visited.len() == 256,
        found.visited[tuple.0 as int],
        bus != tuple.0,
    ensures
        keeps_entries(found, scan_functions(space, bus, device, function, found, depth), tuple),
    decreases depth, 1nat, 8 - function,
{
    if function < 8 {
        let entered = (bus, device, function as u8);
        let next = if function_present(space, entered) {
            scan_behind(space, entered, record_function(space, entered, found), depth)
        } else {
            found
        };
        if function_present(space, entered) {
            lemma_probe_keeps(space, entered, found, depth, tuple);
        }
        lemma_scan_functions_keeps(space, bus, device, function + 1, next, depth, tuple);
    }
}

proof fn lemma_scan_device_keeps(
    space: &ConfigSpace,
    bus: u8,
    device: u8,
    found: Discovery,
    depth: nat,
    tuple: BusFunctionAddress,
)
    requires
        found.visited.len() == 256,
        found.visited[tuple.0 as int],
        bus != tuple.0,
    ensures
        keeps_entries(found, scan_device(space, bus, device, found, depth), tuple),
    decreases depth, 2nat, 0nat,
{
    let entered = (bus, device, 0u8);
    if function_present(space, entered) {
        lemma_probe_keeps(space, entered, found, depth, tuple);
        let first = scan_behind(space, entered, record_function(space, entered, found), depth);
        if is_multi_function(space, bus, device) {
            lemma_scan_functions_keeps(space, bus, device, 1, first, depth, tuple);
        }
    }
}

proof fn lemma_scan_devices_keeps(
    space: &ConfigSpace,
    bus: u8,
    device: nat,
    found: Discovery,
    depth: nat,
    tuple: BusFunctionAddress,
)
    requires
        found.visited.len() == 256,
        found.visited[tuple.0 as int],
        bus != tuple.0,
    ensures
        keeps_entries(found, scan_devices(space, bus, device, found, depth), tuple),
    decreases depth, 3nat, 32 - device,
{
    if device < 32 {
        lemma_scan_device_keeps(space, bus, device as u8, found, depth, tuple);
        lemma_scan_devices_keeps(
            space,
            bus,
            device + 1,
            scan_device(space, bus, device as u8, found, depth),
            depth,
            tuple,
        );
    }
}

proof fn lemma_scan_bus_keeps(
    space: &ConfigSpace,
    bus: u8,
    found: Discovery,
    depth: nat,
    tuple: BusFunctionAddress,
)
    requires
        found.visited.len() == 256,
        found.visited[tuple.0 as int],
    ensures
        keeps_entries(found, scan_bus(space, bus, found, depth), tuple),
    decreases depth, 4nat, 0nat,
{
    if !found.visited[bus as int] {
        let marked = Discovery { visited: found.visited.update(bus as int, true), ..found };
        lemma_scan_devices_keeps(space, bus, 0, marked, depth, tuple);
    }
}

/// Whether the scan of a device whose function 0 answers is to register
/// function `function` of it: the function answers, and it is function 0
/// or function 0 marks the device as multi-function.
pub open spec fn is_registered(space: &ConfigSpace, bus: u8, device: u8, function: u8) -> bool {
    function_present(space, (bus, device, function)) && (function == 0 || is_multi_function(
        space,
        bus,
        device,
    ))
}

proof fn lemma_own_functions_once(
    space: &ConfigSpace,
    bus: u8,
    device: u8,
    from: nat,
    function: u8,
    found: Discovery,
    depth: nat,
)
    requires
        found.visited.len() == 256,
        found.visited[bus as int],
        function < 8,
    ensures
        ({
            let after = scan_functions(space, bus, device, from, found, depth);
            &&& after.visited.len() == 256
            &&& after.visited[bus as int]
            &&& entries_for(after.registry, (bus, device, function)) == entries_for(
                found.registry,
                (bus, device, function),
            ) + if from <= function && function_present(space, (bus, device, function)) {
                1nat
            } else {
                0nat
            }
        }),
    decreases 8 - from,
{
    if from < 8 {
        let entered = (bus, device, from as u8);
        let tuple = (bus, device, function);
        if function_present(space, entered) {
            let recorded = record_function(space, entered, found);
            lemma_entered_function(space, entered, found, tuple);
            lemma_scan_behind_keeps(space, entered, recorded, depth, tuple);
            let next = scan_behind(space, entered, recorded, depth);
            lemma_own_functions_once(space, bus, device, from + 1, function, next, depth);
        } else {
            lemma_own_functions_once(space, bus, device, from + 1, function, found, depth);
        }
    }
}

/// Within the scan of its bus, a device whose function 0 answers adds to
/// the registry exactly one entry for each of its functions that is to be
/// registered and none for any other of its functions, whatever its
/// functions hold and whatever lies behind them. The bus bears its mark,
/// as it does whenever a scan of the bus probes the device; without the
/// mark a bridge on the device could lead back to the device's own bus.
pub proof fn lemma_device_registers_each_function_once(
    space: &ConfigSpace,
    bus: u8,
    device: u8,
    function: u8,
    found: Discovery,
    depth: nat,
)
    requires
        found.visited.len() == 256,
        found.visited[bus as int],
        function_present(space, (bus, device, 0u8)),
        function < 8,
    ensures
        entries_for(
            scan_device(space, bus, device, found, depth).registry,
            (bus, device, function),
        ) == entries_for(found.registry, (bus, device, function)) + if is_registered(
            space,
            bus,
            device,
            function,
        ) {
            1nat
        } else {
            0nat
        },
{
    let entered = (bus, device, 0u8);
    let tuple = (bus, device, function);
    let recorded = record_function(space, entered, found);
    lemma_entered_function(space, entered, found, tuple);
    lemma_scan_behind_keeps(space, entered, recorded, depth, tuple);
    let first = scan_behind(space, entered, recorded, depth);
    if is_multi_function(space, bus, device) {
        lemma_own_functions_once(space, bus, device, 1, function, first, depth);
    }
}

} // verus!
