use rust_kernel::capability::{Capability, CapabilityError, Sata, CAPABILITY_SATA};
use rust_kernel::config_space::{config_address, ConfigSpace};
use rust_kernel::enumerator::{
    check_all_buses, check_bus, check_device, check_function, info_headers, pci_get_conf,
    pci_init, CapabilityFault, Enumeration, MAX_BRIDGE_DEPTH,
};
use rust_kernel::pci::{PCICommonHeader, PciConf};

fn device(bus: u8, device: u8, function: u8, device_id: u16) -> PCICommonHeader {
    PCICommonHeader {
        vendor_id: 0x1234,
        device_id,
        command: 0x0003,
        status: 0x0010,
        revision_id: 1,
        prog_if: 0,
        subclass: 0x80,
        base_class: 0x02,
        cacheline_size: 0,
        latency_timer: 0,
        header_type: 0,
        bist: 0,
        base_address_registers: [0, 0, 0, 0, 0, 0],
        cardbus_cis_pointer: 0,
        subsystem_vendor_id: 0,
        subsystem_id: 0,
        expansion_rom_base_address: 0,
        capabilities_pointer: 0,
        interrupt_line: 0,
        interrupt_pin: 0,
        min_gnt: 0,
        max_latency: 0,
        bus,
        device,
        function,
    }
}

fn bridge(bus: u8, dev: u8, function: u8, secondary: u8) -> PCICommonHeader {
    let mut header = device(bus, dev, function, 0xB001);
    header.base_class = 0x06;
    header.subclass = 0x04;
    header.header_type = 0x01;
    header.base_address_registers[1] = (secondary as u32) << 8;
    header
}

fn sata_controller(bus: u8, dev: u8, function: u8) -> PCICommonHeader {
    let mut header = device(bus, dev, function, 0x2922);
    header.vendor_id = 0x8086;
    header.subsystem_vendor_id = 0x1af4;
    header.subsystem_id = 0x1100;
    header.base_class = 0x01;
    header.subclass = 0x06;
    header.prog_if = 0x01;
    header.capabilities_pointer = 0x80;
    header.base_address_registers[5] = 0xFEBF_1000;
    header
}

fn fresh() -> Enumeration {
    Enumeration {
        registry: Vec::new(),
        dispatches: Vec::new(),
        faults: Vec::new(),
        visited: vec![false; 256],
    }
}

fn conf(header: &PCICommonHeader) -> PciConf {
    header.as_pci_conf(header.bus, header.device, header.function)
}

#[test]
fn empty_bus_registers_nothing() {
    let space = ConfigSpace::new();
    let found = pci_init(&space, Vec::new());
    assert!(found.registry.is_empty());
    assert!(found.dispatches.is_empty());
    assert!(found.faults.is_empty());
}

#[test]
fn function_with_vendor_all_ones_is_not_registered() {
    let mut space = ConfigSpace::new();
    let present = device(0, 3, 0, 0x0001);
    present.store(&mut space);
    let mut absent = device(0, 4, 0, 0x0002);
    absent.vendor_id = 0xFFFF;
    absent.store(&mut space);
    let found = pci_init(&space, Vec::new());
    assert_eq!(found.registry, vec![conf(&present)]);
}

#[test]
fn devices_are_registered_in_ascending_order() {
    let mut space = ConfigSpace::new();
    let last = device(0, 31, 0, 0x0003);
    let first = device(0, 0, 0, 0x0001);
    let middle = device(0, 17, 0, 0x0002);
    last.store(&mut space);
    first.store(&mut space);
    middle.store(&mut space);
    device(8, 0, 0, 0x0004).store(&mut space);
    let found = pci_init(&space, Vec::new());
    assert_eq!(found.registry, vec![conf(&first), conf(&middle), conf(&last)]);
}

#[test]
fn functions_one_to_seven_are_probed_each_on_its_own() {
    let mut space = ConfigSpace::new();
    let mut zero = device(0, 5, 0, 0x0010);
    zero.header_type = 0x80;
    zero.capabilities_pointer = 0xFC;
    zero.store(&mut space);
    space.store_data(config_address((0, 5, 0), 0xFC), 0x0000_0012);
    let two = device(0, 5, 2, 0x0012);
    let seven = device(0, 5, 7, 0x0017);
    two.store(&mut space);
    seven.store(&mut space);
    let found = pci_init(&space, Vec::new());
    assert_eq!(found.registry, vec![conf(&zero), conf(&two), conf(&seven)]);
    assert_eq!(
        found.faults,
        vec![CapabilityFault {
            bus: 0,
            device: 5,
            function: 0,
            error: CapabilityError::MalformedCapabilityChain,
        }]
    );
}

#[test]
fn all_eight_functions_of_a_multi_function_device_are_found() {
    let mut space = ConfigSpace::new();
    let mut expected = Vec::new();
    for function in 0..8 {
        let mut header = device(0, 9, function, 0x0100 + function as u16);
        if function == 0 {
            header.header_type = 0x80;
        }
        header.store(&mut space);
        expected.push(conf(&header));
    }
    let found = pci_init(&space, Vec::new());
    assert_eq!(found.registry, expected);
}

#[test]
fn functions_of_a_single_function_device_are_not_probed() {
    let mut space = ConfigSpace::new();
    let zero = device(0, 5, 0, 0x0010);
    zero.store(&mut space);
    device(0, 5, 3, 0x0013).store(&mut space);
    let found = pci_init(&space, Vec::new());
    assert_eq!(found.registry, vec![conf(&zero)]);
}

#[test]
fn device_without_function_zero_is_skipped() {
    let mut space = ConfigSpace::new();
    device(0, 5, 1, 0x0011).store(&mut space);
    let found = pci_init(&space, Vec::new());
    assert!(found.registry.is_empty());
}

#[test]
fn bridge_leads_to_the_sata_controller_which_is_dispatched_once() {
    let mut space = ConfigSpace::new();
    let host = bridge(0, 0, 0, 1);
    host.store(&mut space);
    let controller = sata_controller(1, 0, 0);
    controller.store(&mut space);
    Sata { cap_id: CAPABILITY_SATA, next_ptr: 0, minor0to4major4to7: 0x10, sata_r1: 0x48, offset: 0x80 }
        .store(&mut space, (1, 0, 0));
    let found = pci_init(&space, Vec::new());
    assert_eq!(found.registry, vec![conf(&host), conf(&controller)]);
    assert_eq!(found.dispatches.len(), 1);
    assert_eq!(found.dispatches[0].abar, 0xFEBF_1000);
    assert_eq!((found.dispatches[0].bus, found.dispatches[0].device, found.dispatches[0].function), (1, 0, 0));
    assert_eq!(found.dispatches[0].command, 0x0407);
    assert_eq!(found.dispatches[0].virt_abar, 0xFFFF_FFFF_41BF_1000);
    assert!(found.faults.is_empty());

    assert_eq!(found.dispatches[0].command_write(), (0x8001_0004, 0x0000_0407));
    found.dispatches[0].apply(&mut space);
    let mut enabled = controller;
    enabled.command = 0x0407;
    assert_eq!(PCICommonHeader::from(&space, 1, 0, 0), Some(enabled));
    assert_eq!(PCICommonHeader::from(&space, 0, 0, 0), Some(host));
}

#[test]
fn bus_behind_a_bridge_is_scanned_before_the_rest_of_the_bus() {
    let mut space = ConfigSpace::new();
    let before = device(0, 0, 0, 0x0001);
    let link = bridge(0, 2, 0, 7);
    let behind = device(7, 4, 0, 0x0002);
    let after = device(0, 3, 0, 0x0003);
    for header in [&before, &link, &behind, &after] {
        header.store(&mut space);
    }
    let found = pci_init(&space, Vec::new());
    assert_eq!(found.registry, vec![conf(&before), conf(&link), conf(&behind), conf(&after)]);
    assert!(found.visited[0] && found.visited[7]);
    assert_eq!(found.visited.iter().filter(|seen| **seen).count(), 2);
}

#[test]
fn bridges_in_a_ring_are_each_scanned_once() {
    let mut space = ConfigSpace::new();
    let out = bridge(0, 1, 0, 1);
    let back = bridge(1, 1, 0, 0);
    let own = bridge(1, 2, 0, 1);
    for header in [&out, &back, &own] {
        header.store(&mut space);
    }
    let found = pci_init(&space, Vec::new());
    assert_eq!(found.registry, vec![conf(&out), conf(&back), conf(&own)]);
}

#[test]
fn bridge_with_the_multi_function_bit_in_its_header_type_is_no_bridge() {
    let mut space = ConfigSpace::new();
    let host = device(0, 0, 0, 0x0001);
    host.store(&mut space);
    let mut link = bridge(0, 2, 0, 7);
    link.header_type = 0x81;
    link.store(&mut space);
    device(7, 4, 0, 0x0002).store(&mut space);
    let found = pci_init(&space, Vec::new());
    assert_eq!(found.registry, vec![conf(&host), conf(&link)]);
}

#[test]
fn each_host_function_stands_for_its_bus() {
    let mut space = ConfigSpace::new();
    let mut host0 = device(0, 0, 0, 0x0A00);
    host0.header_type = 0x80;
    let host2 = device(0, 0, 2, 0x0A02);
    let on_bus7 = device(7, 3, 0, 0x0B07);
    let on_bus2 = device(2, 3, 0, 0x0B02);
    let on_bus8 = device(8, 3, 0, 0x0B08);
    for header in [&host0, &host2, &on_bus7, &on_bus2, &on_bus8] {
        header.store(&mut space);
    }
    let found = pci_init(&space, Vec::new());
    assert_eq!(
        found.registry,
        vec![conf(&host0), conf(&host2), conf(&on_bus2), conf(&on_bus7)]
    );
}

#[test]
fn single_function_host_stands_for_bus_zero_alone() {
    let mut space = ConfigSpace::new();
    let host = device(0, 0, 0, 0x0A00);
    let on_bus0 = device(0, 3, 0, 0x0B00);
    let on_bus1 = device(1, 3, 0, 0x0B01);
    for header in [&host, &on_bus0, &on_bus1] {
        header.store(&mut space);
    }
    let found = pci_init(&space, Vec::new());
    assert_eq!(found.registry, vec![conf(&host), conf(&on_bus0)]);
}

#[test]
fn registry_is_appended_to_and_never_deduplicated() {
    let mut space = ConfigSpace::new();
    let only = device(0, 3, 0, 0x0001);
    only.store(&mut space);
    let first = pci_init(&space, Vec::new());
    assert_eq!(first.registry, vec![conf(&only)]);
    let second = pci_init(&space, first.registry);
    assert_eq!(second.registry, vec![conf(&only), conf(&only)]);
    assert_eq!(pci_get_conf(&second.registry), second.registry);
}

#[test]
fn scan_steps_can_be_driven_one_by_one() {
    let mut space = ConfigSpace::new();
    let link = bridge(0, 2, 0, 7);
    let behind = device(7, 4, 0, 0x0002);
    link.store(&mut space);
    behind.store(&mut space);

    let mut state = fresh();
    assert_eq!(check_function(&space, (0, 2, 0), &mut state, 0), (0x06, 0x04));
    assert!(state.registry.is_empty());
    assert!(!state.visited[7]);
    assert_eq!(check_function(&space, (0, 2, 0), &mut state, 1), (0x06, 0x04));
    assert_eq!(state.registry, vec![conf(&behind)]);
    assert!(state.visited[7]);
    assert_eq!(check_function(&space, (0, 2, 0), &mut state, 2), (0x06, 0x04));
    assert_eq!(state.registry, vec![conf(&behind)]);
    assert_eq!(check_function(&space, (7, 4, 0), &mut state, 5), (0x02, 0x80));
    assert_eq!(state.registry, vec![conf(&behind)]);

    let mut state = fresh();
    check_device(&space, 7, 4, &mut state, MAX_BRIDGE_DEPTH);
    check_device(&space, 7, 5, &mut state, MAX_BRIDGE_DEPTH);
    assert_eq!(state.registry, vec![conf(&behind)]);

    let mut state = fresh();
    check_bus(&space, 0, &mut state, MAX_BRIDGE_DEPTH);
    assert_eq!(state.registry, vec![conf(&link), conf(&behind)]);
    check_bus(&space, 0, &mut state, MAX_BRIDGE_DEPTH);
    check_bus(&space, 7, &mut state, MAX_BRIDGE_DEPTH);
    assert_eq!(state.registry.len(), 2);
    check_bus(&space, 9, &mut state, 0);
    assert!(state.visited[9]);
    assert_eq!(state.registry.len(), 2);

    let mut state = fresh();
    check_all_buses(&space, &mut state);
    assert_eq!(state.registry, vec![conf(&link), conf(&behind)]);
    assert_eq!(state.visited.iter().filter(|seen| **seen).count(), 8);
}

#[test]
fn floating_host_slot_has_buses_zero_to_seven_scanned() {
    let mut space = ConfigSpace::new();
    let on_bus0 = device(0, 3, 0, 0x0B00);
    let on_bus7 = device(7, 3, 0, 0x0B07);
    let on_bus8 = device(8, 3, 0, 0x0B08);
    for header in [&on_bus8, &on_bus7, &on_bus0] {
        header.store(&mut space);
    }
    let found = pci_init(&space, Vec::new());
    assert_eq!(found.registry, vec![conf(&on_bus0), conf(&on_bus7)]);
}

#[test]
fn capabilities_of_a_function_are_walked_from_its_pointer() {
    let mut space = ConfigSpace::new();
    let mut controller = sata_controller(0, 6, 0);
    controller.store(&mut space);
    let record =
        Sata { cap_id: CAPABILITY_SATA, next_ptr: 0, minor0to4major4to7: 0x10, sata_r1: 0x48, offset: 0x80 };
    record.store(&mut space, (0, 6, 0));
    let walk = info_headers(&space, (0, 6, 0), controller.capabilities_pointer, &mut controller);
    assert_eq!(walk.capabilities, vec![Capability::Sata(record)]);
    assert_eq!(walk.dispatches.len(), 1);
    assert_eq!(controller.command, 0x0407);
}

#[test]
fn depth_limits_the_bridges_that_are_followed() {
    let mut space = ConfigSpace::new();
    let first = bridge(0, 2, 0, 20);
    let second = bridge(20, 1, 0, 30);
    let third = bridge(30, 1, 0, 40);
    let last = device(40, 5, 0, 0x0040);
    for header in [&first, &second, &third, &last] {
        header.store(&mut space);
    }
    let mut state = fresh();
    check_bus(&space, 0, &mut state, 0);
    assert_eq!(state.registry, vec![conf(&first)]);
    let mut state = fresh();
    check_bus(&space, 0, &mut state, 1);
    assert_eq!(state.registry, vec![conf(&first), conf(&second)]);
    let mut state = fresh();
    check_bus(&space, 0, &mut state, 2);
    assert_eq!(state.registry, vec![conf(&first), conf(&second), conf(&third)]);
    let mut state = fresh();
    check_bus(&space, 0, &mut state, 3);
    assert_eq!(state.registry, vec![conf(&first), conf(&second), conf(&third), conf(&last)]);
    let host = device(0, 0, 0, 0x0001);
    host.store(&mut space);
    let found = pci_init(&space, Vec::new());
    assert_eq!(
        found.registry,
        vec![conf(&host), conf(&first), conf(&second), conf(&third), conf(&last)]
    );
}

#[test]
fn multi_function_device_registers_functions_zero_three_and_five_once_each() {
    let mut space = ConfigSpace::new();
    let host = device(0, 0, 0, 0x0001);
    host.store(&mut space);
    let mut zero = device(0, 4, 0, 0x0400);
    zero.header_type = 0x80;
    let three = device(0, 4, 3, 0x0403);
    let five = device(0, 4, 5, 0x0405);
    for header in [&five, &zero, &three] {
        header.store(&mut space);
    }
    let found = pci_init(&space, Vec::new());
    assert_eq!(found.registry, vec![conf(&host), conf(&zero), conf(&three), conf(&five)]);
    let mut state = fresh();
    check_device(&space, 0, 4, &mut state, MAX_BRIDGE_DEPTH);
    assert_eq!(state.registry, vec![conf(&zero), conf(&three), conf(&five)]);
}

#[test]
fn bridge_function_of_a_multi_function_device_does_not_repeat_its_own_bus() {
    let mut space = ConfigSpace::new();
    let host = device(0, 0, 0, 0x0001);
    host.store(&mut space);
    let mut zero = device(0, 4, 0, 0x0400);
    zero.header_type = 0x80;
    let back = bridge(0, 4, 2, 0);
    let out = bridge(0, 4, 6, 9);
    let behind = device(9, 1, 0, 0x0901);
    for header in [&zero, &back, &out, &behind] {
        header.store(&mut space);
    }
    let found = pci_init(&space, Vec::new());
    assert_eq!(
        found.registry,
        vec![conf(&host), conf(&zero), conf(&back), conf(&out), conf(&behind)]
    );
}

#[test]
fn single_function_device_adds_one_entry() {
    let mut space = ConfigSpace::new();
    let only = device(3, 7, 0, 0x0307);
    only.store(&mut space);
    device(3, 7, 1, 0x0308).store(&mut space);
    let mut state = fresh();
    check_device(&space, 3, 7, &mut state, MAX_BRIDGE_DEPTH);
    assert_eq!(state.registry, vec![conf(&only)]);
    check_device(&space, 3, 8, &mut state, MAX_BRIDGE_DEPTH);
    assert_eq!(state.registry, vec![conf(&only)]);
}
