//! The report of an inventory as lines of text.
//!
//! Each device has a block of its own: its identifier, the identifier of its
//! controller or the placeholder for it, its topology identifier where it has
//! one, and behind these one indented line for each of its properties.

use vstd::prelude::*;
use crate::record::{AudioDevice, DeviceProperty, DeviceView, PropertyView, device_views};

verus! {

/// The line that shows one property.
pub open spec fn property_line(property: PropertyView) -> Seq<char> {
    "\tProperty '"@ + property.name + "'\tValue '"@ + property.value + "'\tGUID '"@ + property.guid
        + "'\tDescription '"@ + property.description + "'"@
}

/// The lines that show the properties of a device, one for each.
pub open spec fn property_lines(properties: Seq<PropertyView>) -> Seq<Seq<char>> {
    properties.map_values(|property: PropertyView| property_line(property))
}

/// The lines at the head of a device's block.
pub open spec fn header_lines(device: DeviceView) -> Seq<Seq<char>> {
    let main = seq![
        "Device ID: "@ + device.id,
        "Audio Controller ID: "@ + device.audio_controller_id,
    ];
    match device.audio_topology_id {
        Some(topology) => main.push("Audio Intel Smart Sound USB device: "@ + topology),
        None => main,
    }
}

/// The block of one device.
pub open spec fn device_block(device: DeviceView) -> Seq<Seq<char>> {
    header_lines(device) + property_lines(device.properties)
}

/// The blocks of all devices, one after the other.
pub open spec fn report_lines(devices: Seq<DeviceView>) -> Seq<Seq<char>>
    decreases devices.len(),
{
    if devices.len() == 0 {
        Seq::empty()
    } else {
        report_lines(devices.drop_last()) + device_block(devices.last())
    }
}

/// The lines in `lines` as plain values.
pub open spec fn line_views(lines: Seq<String>) -> Seq<Seq<char>> {
    lines.map_values(|line: String| line@)
}

/// Writes the line that shows `property`.
pub fn render_property(property: &DeviceProperty) -> (line: String)
    ensures
        line@ == property_line(property@),
{
    let mut line: String = String::from_str("\tProperty '");
    line.append(property.name.as_str());
    line.append("'\tValue '");
    line.append(property.value.as_str());
    line.append("'\tGUID '");
    line.append(property.guid.as_str());
    line.append("'\tDescription '");
    line.append(property.description.as_str());
    line.append("'");
    line
}

/// Appends the block of `device` to `lines`.
pub fn render_device(lines: &mut Vec<String>, device: &AudioDevice)
    ensures
        line_views(final(lines)@) == line_views(old(lines)@) + device_block(device@),
{
    let ghost before = line_views(lines@);
    lines.push(String::from_str("Device ID: ").concat(device.id.as_str()));
    lines.push(String::from_str("Audio Controller ID: ").concat(device.audio_controller_id.as_str()));
    match &device.audio_topology_id {
        Some(topology) => {
            lines.push(
                String::from_str("Audio Intel Smart Sound USB device: ").concat(topology.as_str()),
            );
        },
        None => {},
    }
    assert(line_views(lines@) =~= before + header_lines(device@));
    let n: usize = device.properties.len();
    let mut i: usize = 0;
    while i < n
        invariant
            n == device.properties@.len(),
            i <= n,
            line_views(lines@) == before + header_lines(device@) + property_lines(
                device@.properties.subrange(0, i as int),
            ),
        decreases n - i,
    {
        let ghost shown = line_views(lines@);
        lines.push(render_property(&device.properties[i]));
        proof {
            let next = device@.properties.subrange(0, i + 1);
            assert(next[i as int] == device.properties@[i as int]@);
            assert(line_views(lines@) =~= shown.push(property_line(device.properties@[i as int]@)));
            assert(property_lines(next) =~= property_lines(
                device@.properties.subrange(0, i as int),
            ).push(property_line(device.properties@[i as int]@)));
            assert(line_views(lines@) =~= before + header_lines(device@) + property_lines(next));
        }
        i += 1;
    }
    proof {
        assert(device@.properties.subrange(0, n as int) =~= device@.properties);
        assert(before + header_lines(device@) + property_lines(device@.properties) =~= before
            + device_block(device@));
    }
}

/// Writes the report of `devices`: the block of each device, in the order
/// of the devices.
pub fn render_report(devices: &[AudioDevice]) -> (lines: Vec<String>)
    ensures
        line_views(lines@) == report_lines(device_views(devices@)),
{
    let mut lines: Vec<String> = Vec::new();
    let n: usize = devices.len();
    let mut i: usize = 0;
    assert(line_views(lines@) =~= report_lines(device_views(devices@).subrange(0, 0)));
    while i < n
        invariant
            n == devices@.len(),
            i <= n,
            line_views(lines@) == report_lines(device_views(devices@).subrange(0, i as int)),
        decreases n - i,
    {
        render_device(&mut lines, &devices[i]);
        proof {
            let next = device_views(devices@).subrange(0, i + 1);
            assert(next.drop_last() =~= device_views(devices@).subrange(0, i as int));
            assert(next.last() == devices@[i as int]@);
        }
        i += 1;
    }
    assert(device_views(devices@).subrange(0, n as int) =~= device_views(devices@));
    lines
}

/// The block of a device has two lines, one more where the device has a
/// topology identifier, and one for each property.
pub proof fn lemma_block_len(device: DeviceView)
    ensures
        device_block(device).len() == 2 + (if device.audio_topology_id is Some {
            1int
        } else {
            0int
        }) + device.properties.len(),
        header_lines(device)[0] == "Device ID: "@ + device.id,
        header_lines(device)[1] == "Audio Controller ID: "@ + device.audio_controller_id,
{
}

} // verus!
