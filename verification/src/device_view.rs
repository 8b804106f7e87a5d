//! The device panels: the list of devices and emulators, and the details of
//! the selected one.
use crate::daemon::device::Device;
use crate::daemon::emulator::Emulator;
use crate::text::{join, joined, pair_views};
use vstd::prelude::*;

verus! {

/// An entry of the device list: a connected device, or an emulator that can
/// be started.
#[derive(Debug, Clone, PartialEq)]
pub enum DeviceOrEmulator {
    Device(Device),
    Emulator(Emulator),
}

pub open spec fn entry_id(e: DeviceOrEmulator) -> Seq<char> {
    match e {
        DeviceOrEmulator::Device(d) => d.id@,
        DeviceOrEmulator::Emulator(e) => e.id@,
    }
}

/// The identifiers of the entries, in order.
pub fn entry_ids(entries: &Vec<DeviceOrEmulator>) -> (ids: Vec<String>)
    ensures
        ids@.len() == entries@.len(),
        forall|k: int| 0 <= k < ids@.len() ==> (#[trigger] ids@[k])@ == entry_id(entries@[k]),
{
    let mut ids: Vec<String> = Vec::new();
    let mut i: usize = 0;
    while i < entries.len()
        invariant
            i <= entries.len(),
            ids@.len() == i,
            forall|k: int| 0 <= k < i ==> (#[trigger] ids@[k])@ == entry_id(entries@[k]),
        decreases entries.len() - i,
    {
        let id = match &entries[i] {
            DeviceOrEmulator::Device(d) => d.id.clone(),
            DeviceOrEmulator::Emulator(e) => e.id.clone(),
        };
        ids.push(id);
        i += 1;
    }
    ids
}

/// The line of an entry in the device list: the device's name, or an offer
/// to start the emulator.
pub open spec fn entry_label_of(e: DeviceOrEmulator) -> Seq<char> {
    match e {
        DeviceOrEmulator::Device(d) => d.name@,
        DeviceOrEmulator::Emulator(e) => "▶ Start "@ + e.name@,
    }
}

pub fn entry_label(e: &DeviceOrEmulator) -> (s: String)
    ensures
        s@ == entry_label_of(*e),
{
    match e {
        DeviceOrEmulator::Device(d) => d.name.clone(),
        DeviceOrEmulator::Emulator(em) => String::from_str("▶ Start ").concat(em.name.as_str()),
    }
}

/// The platform whose flavors apply to the entry.
pub open spec fn entry_platform(e: DeviceOrEmulator) -> Seq<char> {
    match e {
        DeviceOrEmulator::Device(d) => d.platform@,
        DeviceOrEmulator::Emulator(e) => e.platform_type@,
    }
}

pub fn entry_platform_name(e: &DeviceOrEmulator) -> (s: String)
    ensures
        s@ == entry_platform(*e),
{
    match e {
        DeviceOrEmulator::Device(d) => d.platform.clone(),
        DeviceOrEmulator::Emulator(em) => em.platform_type.clone(),
    }
}

pub open spec fn bool_text(b: bool) -> Seq<char> {
    if b {
        "true"@
    } else {
        "false"@
    }
}

pub open spec fn row(label: Seq<char>, value: Seq<char>) -> (Seq<char>, Seq<char>) {
    (label, value)
}

/// The rows of the details table of an entry; `flavors` are the flavors of
/// its platform, shown when there are some.
pub open spec fn detail_rows_of(e: DeviceOrEmulator, flavors: Option<Seq<Seq<char>>>) -> Seq<
    (Seq<char>, Seq<char>),
> {
    let base = match e {
        DeviceOrEmulator::Device(d) => seq![
            row("ID"@, d.id@),
            row("Name"@, d.name@),
            row("Platform"@, d.platform@),
            row("Category"@, d.category@),
            row("Is emulator"@, bool_text(d.emulator)),
            row("Is ephemeral"@, bool_text(d.ephemeral)),
            row("SDK"@, d.sdk@),
        ],
        DeviceOrEmulator::Emulator(e) => seq![
            row("ID"@, e.id@),
            row("Name"@, e.name@),
            row("Platform"@, e.platform_type@),
            row("Category"@, e.category@),
        ],
    };
    match flavors {
        Some(f) => if f.len() > 0 {
            base.push(row("Flavors"@, joined(f, ", "@)))
        } else {
            base
        },
        None => base,
    }
}

fn bool_string(b: bool) -> (s: String)
    ensures
        s@ == bool_text(b),
{
    if b {
        String::from_str("true")
    } else {
        String::from_str("false")
    }
}

fn push_row(rows: &mut Vec<(String, String)>, label: &str, value: String)
    ensures
        pair_views(final(rows)@) == pair_views(old(rows)@).push((label@, value@)),
{
    let ghost before = rows@;
    rows.push((String::from_str(label), value));
    assert(pair_views(rows@) =~= pair_views(before).push((label@, value@)));
}

/// The details table of the selected entry.
pub fn detail_rows(e: &DeviceOrEmulator, flavors: Option<&Vec<String>>) -> (rows: Vec<(String, String)>)
    ensures
        pair_views(rows@) == detail_rows_of(
            *e,
            match flavors {
                Some(f) => Some(f@.map_values(|x: String| x@)),
                None => None,
            },
        ),
{
    let mut rows: Vec<(String, String)> = Vec::new();
    match e {
        DeviceOrEmulator::Device(d) => {
            push_row(&mut rows, "ID", d.id.clone());
            push_row(&mut rows, "Name", d.name.clone());
            push_row(&mut rows, "Platform", d.platform.clone());
            push_row(&mut rows, "Category", d.category.clone());
            push_row(&mut rows, "Is emulator", bool_string(d.emulator));
            push_row(&mut rows, "Is ephemeral", bool_string(d.ephemeral));
            push_row(&mut rows, "SDK", d.sdk.clone());
        },
        DeviceOrEmulator::Emulator(em) => {
            push_row(&mut rows, "ID", em.id.clone());
            push_row(&mut rows, "Name", em.name.clone());
            push_row(&mut rows, "Platform", em.platform_type.clone());
            push_row(&mut rows, "Category", em.category.clone());
        },
    }
    let ghost base = pair_views(rows@);
    proof {
        let expected = detail_rows_of(*e, None);
        assert(base =~= expected);
    }
    match flavors {
        Some(f) => {
            if f.len() > 0 {
                push_row(&mut rows, "Flavors", join(f, ", "));
            }
        },
        None => {},
    }
    rows
}


/// A device shows seven rows, an emulator four, each starting with its id
/// and name; a row of the platform's flavors, joined by commas, follows
/// exactly when the platform has some.
pub proof fn lemma_detail_rows(e: DeviceOrEmulator, flavors: Option<Seq<Seq<char>>>)
    ensures
        detail_rows_of(e, flavors).len() == (if e is Device {
            7int
        } else {
            4
        }) + (if flavors is Some && flavors->0.len() > 0 {
            1int
        } else {
            0
        }),
        detail_rows_of(e, flavors)[0] == ("ID"@, entry_id(e)),
        flavors is Some && flavors->0.len() > 0 ==> detail_rows_of(e, flavors).last() == (
            "Flavors"@,
            joined(flavors->0, ", "@),
        ),
        e matches DeviceOrEmulator::Emulator(em) ==> entry_label_of(e) == "▶ Start "@ + em.name@,
{
}

} // verus!
