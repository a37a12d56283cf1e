use audio_endpoints::record::{AudioDevice, DeviceProperty, PropertyKey};
use audio_endpoints::report::{render_device, render_property, render_report};

fn property(name: &str, value: &str, guid: &str, description: &str) -> DeviceProperty {
    DeviceProperty {
        key: PropertyKey { fmtid: 1, pid: 2 },
        name: String::from(name),
        value: String::from(value),
        guid: String::from(guid),
        description: String::from(description),
    }
}

#[test]
fn property_is_one_indented_line() {
    let line = render_property(&property("System.Name", "Mic", "{1} 2", "The name"));
    assert_eq!(line, "\tProperty 'System.Name'\tValue 'Mic'\tGUID '{1} 2'\tDescription 'The name'");
    assert!(!line.contains('\n'));
    let empty = render_property(&property("", "", "", ""));
    assert_eq!(empty, "\tProperty ''\tValue ''\tGUID ''\tDescription ''");
}

#[test]
fn block_is_appended_to_what_stands_before() {
    let device = AudioDevice {
        id: String::from("id-1"),
        audio_controller_id: String::from("ctl-1"),
        audio_topology_id: None,
        properties: vec![property("n", "v", "g", "d")],
    };
    let mut lines = vec![String::from("earlier")];
    render_device(&mut lines, &device);
    assert_eq!(
        lines,
        vec![
            "earlier",
            "Device ID: id-1",
            "Audio Controller ID: ctl-1",
            "\tProperty 'n'\tValue 'v'\tGUID 'g'\tDescription 'd'",
        ]
    );
}

#[test]
fn topology_line_stands_only_where_there_is_one() {
    let mut device = AudioDevice {
        id: String::from("id"),
        audio_controller_id: String::from("Error not found"),
        audio_topology_id: Some(String::from("topo")),
        properties: Vec::new(),
    };
    let mut with = Vec::new();
    render_device(&mut with, &device);
    assert_eq!(
        with,
        vec![
            "Device ID: id",
            "Audio Controller ID: Error not found",
            "Audio Intel Smart Sound USB device: topo",
        ]
    );
    device.audio_topology_id = None;
    let mut without = Vec::new();
    render_device(&mut without, &device);
    assert_eq!(without, vec!["Device ID: id", "Audio Controller ID: Error not found"]);
}

#[test]
fn blocks_follow_the_order_of_the_devices() {
    let devices: Vec<AudioDevice> = ["x", "y", "z"]
        .iter()
        .map(|id| AudioDevice {
            id: String::from(*id),
            audio_controller_id: format!("ctl-{}", id),
            audio_topology_id: None,
            properties: vec![property(id, "", "", ""), property("", id, "", "")],
        })
        .collect();
    let lines = render_report(&devices);
    assert_eq!(lines.len(), 12);
    assert_eq!(lines[0], "Device ID: x");
    assert_eq!(lines[4], "Device ID: y");
    assert_eq!(lines[5], "Audio Controller ID: ctl-y");
    assert_eq!(lines[6], "\tProperty 'y'\tValue ''\tGUID ''\tDescription ''");
    assert_eq!(lines[7], "\tProperty ''\tValue 'y'\tGUID ''\tDescription ''");
    assert_eq!(lines[8], "Device ID: z");
}
