//! Names for PCI vendors, devices, subsystems and classes, looked up in
//! the PCI ID database.

use crate::text::texts;
use vstd::prelude::*;
use vstd::string::StringExecFns;

verus! {

/// The names of the device `pid` of the vendor `vid` and of that vendor,
/// as the database has them; `None` where it has no such device.
pub uninterp spec fn known_device(vid: u16, pid: u16) -> Option<(Seq<char>, Seq<char>)>;

/// The subsystems that the database lists for the device `pid` of the
/// vendor `vid`, in its order: subvendor, subdevice and name of each;
/// `None` where it has no such device.
pub uninterp spec fn known_subsystems(vid: u16, pid: u16) -> Option<Seq<(u16, u16, Seq<char>)>>;

/// The name of the vendor `id` as the database has it.
pub uninterp spec fn known_vendor(id: u16) -> Option<Seq<char>>;

/// The name of the subclass `sid` of the class `cid` as the database has
/// it.
pub uninterp spec fn known_subclass(cid: u8, sid: u8) -> Option<Seq<char>>;

/// The programming interfaces that the database lists for the subclass
/// `sid` of the class `cid`, in its order: id and name of each; `None`
/// where it has no such subclass.
pub uninterp spec fn known_prog_ifs(cid: u8, sid: u8) -> Option<Seq<(u8, Seq<char>)>>;

/// A subsystem of a device as the database lists it.
#[derive(Debug, Clone, PartialEq, Eq)]
pub struct SubsystemEntry {
    pub subvendor: u16,
    pub subdevice: u16,
    pub name: String,
}

/// A programming interface of a subclass as the database lists it.
#[derive(Debug, Clone, PartialEq, Eq)]
pub struct ProgIfEntry {
    pub id: u8,
    pub name: String,
}

/// The subsystems as plain values.
pub open spec fn subsystem_views(entries: Seq<SubsystemEntry>) -> Seq<(u16, u16, Seq<char>)> {
    entries.map_values(|entry: SubsystemEntry| (entry.subvendor, entry.subdevice, entry.name@))
}

/// The programming interfaces as plain values.
pub open spec fn prog_if_views(entries: Seq<ProgIfEntry>) -> Seq<(u8, Seq<char>)> {
    entries.map_values(|entry: ProgIfEntry| (entry.id, entry.name@))
}

/// The views of an optional pair of strings.
pub open spec fn pair_view(pair: Option<(String, String)>) -> Option<(Seq<char>, Seq<char>)> {
    match pair {
        Some((first, second)) => Some((first@, second@)),
        None => None,
    }
}

/// The view of an optional string.
pub open spec fn option_view(text: Option<String>) -> Option<Seq<char>> {
    match text {
        Some(text) => Some(text@),
        None => None,
    }
}

/// Looks the device up with `pci_ids::Device::from_vid_pid` and reads its
/// name with `Device::name` and its vendor's name with `Device::vendor`
/// and `Vendor::name`. The lookup goes through tables that are fixed when
/// the database crate is built, so the result is a function of the two
/// ids; `known_device` names it.
#[verifier::external_body]
fn device_names(vid: u16, pid: u16) -> (names: Option<(String, String)>)
    ensures
        pair_view(names) == known_device(vid, pid),
{
    pci_ids::Device::from_vid_pid(vid, pid).map(
        |device| (device.name().to_string(), device.vendor().name().to_string()),
    )
}

/// The subsystems of an optional list as plain values.
pub open spec fn optional_subsystem_views(entries: Option<Vec<SubsystemEntry>>) -> Option<
    Seq<(u16, u16, Seq<char>)>,
> {
    match entries {
        Some(entries) => Some(subsystem_views(entries@)),
        None => None,
    }
}

/// The programming interfaces of an optional list as plain values.
pub open spec fn optional_prog_if_views(entries: Option<Vec<ProgIfEntry>>) -> Option<
    Seq<(u8, Seq<char>)>,
> {
    match entries {
        Some(entries) => Some(prog_if_views(entries@)),
        None => None,
    }
}

/// Looks the device up with `pci_ids::Device::from_vid_pid` and lists what
/// `Device::subsystems` yields, reading each entry with
/// `SubSystem::subvendor`, `SubSystem::subdevice` and `SubSystem::name`.
/// `known_subsystems` names the list.
#[verifier::external_body]
fn device_subsystems(vid: u16, pid: u16) -> (entries: Option<Vec<SubsystemEntry>>)
    ensures
        optional_subsystem_views(entries) == known_subsystems(vid, pid),
{
    pci_ids::Device::from_vid_pid(vid, pid).map(
        |device|
            device.subsystems().map(
                |subsystem|
                    SubsystemEntry {
                        subvendor: subsystem.subvendor(),
                        subdevice: subsystem.subdevice(),
                        name: subsystem.name().to_string(),
                    },
            ).collect(),
    )
}

/// Looks the vendor up with `pci_ids::Vendor::from_id` and reads its name
/// with `Vendor::name`. `known_vendor` names the result.
#[verifier::external_body]
fn vendor_name(id: u16) -> (name: Option<String>)
    ensures
        option_view(name) == known_vendor(id),
{
    <pci_ids::Vendor as pci_ids::FromId<u16>>::from_id(id).map(|vendor| vendor.name().to_string())
}

/// Looks the subclass up with `pci_ids::Subclass::from_cid_sid` and reads
/// its name with `Subclass::name`. `known_subclass` names the result.
#[verifier::external_body]
fn subclass_name(cid: u8, sid: u8) -> (name: Option<String>)
    ensures
        option_view(name) == known_subclass(cid, sid),
{
    pci_ids::Subclass::from_cid_sid(cid, sid).map(|subclass| subclass.name().to_string())
}

/// Looks the subclass up with `pci_ids::Subclass::from_cid_sid` and lists
/// what `Subclass::prog_ifs` yields, reading each entry with `ProgIf::id`
/// and `ProgIf::name`. `known_prog_ifs` names the list.
#[verifier::external_body]
fn subclass_prog_ifs(cid: u8, sid: u8) -> (entries: Option<Vec<ProgIfEntry>>)
    ensures
        optional_prog_if_views(entries) == known_prog_ifs(cid, sid),
{
    pci_ids::Subclass::from_cid_sid(cid, sid).map(
        |subclass|
            subclass.prog_ifs().map(
                |prog_if| ProgIfEntry { id: prog_if.id(), name: prog_if.name().to_string() },
            ).collect(),
    )
}

/// The entries of a list, or none where there is no list.
pub open spec fn entries_or_none<T>(entries: Option<Seq<T>>) -> Seq<T> {
    match entries {
        Some(entries) => entries,
        None => Seq::empty(),
    }
}

/// The name of the first subsystem in `entries` with the given subvendor
/// and subdevice.
pub open spec fn first_subsystem(
    entries: Seq<(u16, u16, Seq<char>)>,
    subvendor: u16,
    subdevice: u16,
) -> Option<Seq<char>>
    decreases entries.len(),
{
    if entries.len() == 0 {
        None
    } else if entries[0].0 == subvendor && entries[0].1 == subdevice {
        Some(entries[0].2)
    } else {
        first_subsystem(entries.subrange(1, entries.len() as int), subvendor, subdevice)
    }
}

/// The name of the first programming interface in `entries` with the
/// given id.
pub open spec fn first_prog_if(entries: Seq<(u8, Seq<char>)>, id: u8) -> Option<Seq<char>>
    decreases entries.len(),
{
    if entries.len() == 0 {
        None
    } else if entries[0].0 == id {
        Some(entries[0].1)
    } else {
        first_prog_if(entries.subrange(1, entries.len() as int), id)
    }
}

/// Finds the name of the first subsystem with the given subvendor and
/// subdevice.
pub fn find_subsystem(entries: &Vec<SubsystemEntry>, subvendor: u16, subdevice: u16) -> (name:
    Option<String>)
    ensures
        option_view(name) == first_subsystem(subsystem_views(entries@), subvendor, subdevice),
{
    let ghost all = subsystem_views(entries@);
    let mut i: usize = 0;
    assert(all.subrange(0, all.len() as int) =~= all);
    while i < entries.len()
        invariant
            i <= entries@.len(),
            all == subsystem_views(entries@),
            first_subsystem(all, subvendor, subdevice) == first_subsystem(
                all.subrange(i as int, all.len() as int),
                subvendor,
                subdevice,
            ),
        decreases entries@.len() - i,
    {
        let ghost rest = all.subrange(i as int, all.len() as int);
        assert(rest[0] == all[i as int]);
        assert(rest.subrange(1, rest.len() as int) =~= all.subrange(i + 1, all.len() as int));
        if entries[i].subvendor == subvendor && entries[i].subdevice == subdevice {
            return Some(entries[i].name.clone());
        }
        i += 1;
    }
    assert(all.subrange(i as int, all.len() as int).len() == 0);
    None
}

/// Finds the name of the first programming interface with the given id.
pub fn find_prog_if(entries: &Vec<ProgIfEntry>, id: u8) -> (name: Option<String>)
    ensures
        option_view(name) == first_prog_if(prog_if_views(entries@), id),
{
    let ghost all = prog_if_views(entries@);
    let mut i: usize = 0;
    assert(all.subrange(0, all.len() as int) =~= all);
    while i < entries.len()
        invariant
            i <= entries@.len(),
            all == prog_if_views(entries@),
            first_prog_if(all, id) == first_prog_if(all.subrange(i as int, all.len() as int), id),
        decreases entries@.len() - i,
    {
        let ghost rest = all.subrange(i as int, all.len() as int);
        assert(rest[0] == all[i as int]);
        assert(rest.subrange(1, rest.len() as int) =~= all.subrange(i + 1, all.len() as int));
        if entries[i].id == id {
            return Some(entries[i].name.clone());
        }
        i += 1;
    }
    assert(all.subrange(i as int, all.len() as int).len() == 0);
    None
}

/// The name that was found, or `fallback` where none was.
pub open spec fn name_or(found: Option<Seq<char>>, fallback: Seq<char>) -> Seq<char> {
    match found {
        Some(name) => name,
        None => fallback,
    }
}

/// The six names that describe a function: its vendor, its device, the
/// vendor of its subsystem, its subsystem, its subclass and its
/// programming interface, each with a stand-in where the database does
/// not know it. The subsystem's vendor is known only where the subsystem
/// is.
pub open spec fn device_info_names(
    device: Option<(Seq<char>, Seq<char>)>,
    subsystem: Option<Seq<char>>,
    subsystem_vendor: Option<Seq<char>>,
    subclass: Option<Seq<char>>,
    prog_if: Option<Seq<char>>,
) -> Seq<Seq<char>> {
    seq![
        match device {
            Some(names) => names.1,
            None => "Vendor"@,
        },
        match device {
            Some(names) => names.0,
            None => "Device"@,
        },
        if subsystem is Some {
            name_or(subsystem_vendor, "Subsystem Vendor"@)
        } else {
            "Subsystem Vendor"@
        },
        name_or(subsystem, "Subsystem Device"@),
        name_or(subclass, "Subclass"@),
        name_or(prog_if, ""@),
    ]
}

fn pick(found: Option<String>, fallback: &str) -> (name: String)
    ensures
        name@ == name_or(option_view(found), fallback@),
{
    match found {
        Some(name) => name,
        None => String::from_str(fallback),
    }
}

/// Puts the six names of a function together from what the lookups
/// found.
pub fn assemble_device_info(
    device: Option<(String, String)>,
    subsystem: Option<String>,
    subsystem_vendor: Option<String>,
    subclass: Option<String>,
    prog_if: Option<String>,
) -> (names: Vec<String>)
    ensures
        texts(names@) == device_info_names(
            pair_view(device),
            option_view(subsystem),
            option_view(subsystem_vendor),
            option_view(subclass),
            option_view(prog_if),
        ),
{
    let ghost expected = device_info_names(
        pair_view(device),
        option_view(subsystem),
        option_view(subsystem_vendor),
        option_view(subclass),
        option_view(prog_if),
    );
    let (device_name, device_vendor_name) = match device {
        Some((device_name, vendor_name)) => (device_name, vendor_name),
        None => (String::from_str("Device"), String::from_str("Vendor")),
    };
    let subsystem_vendor_name = if subsystem.is_some() {
        pick(subsystem_vendor, "Subsystem Vendor")
    } else {
        String::from_str("Subsystem Vendor")
    };
    let subsystem_name = pick(subsystem, "Subsystem Device");
    let subclass_name = pick(subclass, "Subclass");
    let prog_if_name = pick(prog_if, "");
    let mut names: Vec<String> = Vec::new();
    names.push(device_vendor_name);
    names.push(device_name);
    names.push(subsystem_vendor_name);
    names.push(subsystem_name);
    names.push(subclass_name);
    names.push(prog_if_name);
    assert(texts(names@) =~= expected);
    names
}

/// The six names of a function where no database is at hand: all empty.
pub fn internal_libpci_device_info_empty(
    _vendor_id: u16,
    _device_id: u16,
    _subsystem_vendor_id: u16,
    _subsystem_id: u16,
    _base_class: u8,
    _subclass: u8,
    _prog_if: u8,
) -> (names: Vec<String>)
    ensures
        texts(names@) == seq![""@, ""@, ""@, ""@, ""@, ""@],
{
    let mut names: Vec<String> = Vec::new();
    names.push(String::from_str(""));
    names.push(String::from_str(""));
    names.push(String::from_str(""));
    names.push(String::from_str(""));
    names.push(String::from_str(""));
    names.push(String::from_str(""));
    assert(texts(names@) =~= seq![""@, ""@, ""@, ""@, ""@, ""@]);
    names
}

/// The six names that the database gives a function with these ids.
pub open spec fn database_names(
    vendor_id: u16,
    device_id: u16,
    subsystem_vendor_id: u16,
    subsystem_id: u16,
    base_class: u8,
    subclass: u8,
    prog_if: u8,
) -> Seq<Seq<char>> {
    device_info_names(
        known_device(vendor_id, device_id),
        first_subsystem(
            entries_or_none(known_subsystems(vendor_id, device_id)),
            subsystem_vendor_id,
            subsystem_id,
        ),
        known_vendor(subsystem_vendor_id),
        known_subclass(base_class, subclass),
        first_prog_if(entries_or_none(known_prog_ifs(base_class, subclass)), prog_if),
    )
}

/// Looks up the six names of a function in the database.
pub fn internal_libpci_device_info_pci_ids(
    vendor_id: u16,
    device_id: u16,
    subsystem_vendor_id: u16,
    subsystem_id: u16,
    base_class: u8,
    subclass: u8,
    prog_if: u8,
) -> (names: Vec<String>)
    ensures
        texts(names@) == database_names(
            vendor_id,
            device_id,
            subsystem_vendor_id,
            subsystem_id,
            base_class,
            subclass,
            prog_if,
        ),
{
    let device = device_names(vendor_id, device_id);
    let subsys_device = match device_subsystems(vendor_id, device_id) {
        Some(subsystems) => find_subsystem(&subsystems, subsystem_vendor_id, subsystem_id),
        None => None,
    };
    let subsys_vendor = if subsys_device.is_some() {
        vendor_name(subsystem_vendor_id)
    } else {
        None
    };
    let subclass_string = subclass_name(base_class, subclass);
    let prog_if_string = match subclass_prog_ifs(base_class, subclass) {
        Some(prog_ifs) => find_prog_if(&prog_ifs, prog_if),
        None => None,
    };
    assemble_device_info(device, subsys_device, subsys_vendor, subclass_string, prog_if_string)
}

/// The six names of a function with these ids.
pub fn internal_libpci_device_info(
    vendor_id: u16,
    device_id: u16,
    subsystem_vendor_id: u16,
    subsystem_id: u16,
    base_class: u8,
    subclass: u8,
    prog_if: u8,
) -> (names: Vec<String>)
    ensures
        texts(names@) == database_names(
            vendor_id,
            device_id,
            subsystem_vendor_id,
            subsystem_id,
            base_class,
            subclass,
            prog_if,
        ),
{
    internal_libpci_device_info_pci_ids(
        vendor_id,
        device_id,
        subsystem_vendor_id,
        subsystem_id,
        base_class,
        subclass,
        prog_if,
    )
}

} // verus!
