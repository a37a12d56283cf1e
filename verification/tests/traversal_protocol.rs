use audio_endpoints::policy::{CutPoint, TruncationPolicy};
use audio_endpoints::record::{
    instance_id_key, usb_topology_key, AudioDevice, PropertyKey, PropertyReading,
};
use audio_endpoints::report::render_report;
use audio_endpoints::traversal::{unread, Phase, Reply, Request, Traversal, TraversalError};

/// What a platform stub knows of one device.
struct StubDevice {
    id: &'static str,
    readings: Vec<Option<PropertyReading>>,
    controllers: Vec<(&'static str, &'static str)>,
    topology: Result<Option<&'static str>, &'static str>,
}

fn wide(text: &str) -> Vec<u16> {
    let mut units: Vec<u16> = text.encode_utf16().collect();
    units.push(0);
    units
}

fn reading(pid: u32, value: Option<&str>, name: Option<&str>) -> PropertyReading {
    let mut key_text = vec![0u16; 200];
    for (i, unit) in format!("{{B3F8FA53-0004-438E-9003-51A46E139BFC}} {}", pid)
        .encode_utf16()
        .enumerate()
    {
        key_text[i] = unit;
    }
    PropertyReading {
        key: PropertyKey { fmtid: 0xB3F8FA53_0004_438E_9003_51A46E139BFC, pid },
        key_text,
        value: value.map(String::from),
        name: name.map(String::from),
        description: None,
    }
}

/// A driver over a stub: answers each request from what the stub knows, and
/// keeps the requests it was handed.
fn drive(
    policy: TruncationPolicy,
    service: Result<(), &'static str>,
    devices: &[StubDevice],
) -> (Result<Vec<AudioDevice>, TraversalError>, Vec<Request>) {
    let (mut traversal, mut request) = Traversal::begin(policy);
    let mut asked = Vec::new();
    for _ in 0..10_000 {
        asked.push(request.clone());
        let reply = match &request {
            Request::OpenService => match service {
                Ok(()) => Reply::ServiceOpened,
                Err(reason) => Reply::Failure(String::from(reason)),
            },
            Request::ListDevices => Reply::DeviceCount(devices.len() as u32),
            Request::OpenDevice { index } => {
                let device = &devices[*index as usize];
                Reply::DeviceOpened {
                    id: String::from(device.id),
                    property_count: device.readings.len() as u32,
                }
            }
            Request::ReadProperty { device, slot } => {
                match &devices[*device as usize].readings[*slot as usize] {
                    Some(reading) => Reply::Property(reading.clone()),
                    None => Reply::Failure(String::from("slot unreadable")),
                }
            }
            Request::FindController { device, query, key } => {
                assert_eq!(*key, instance_id_key());
                let known = &devices[*device as usize].controllers;
                match known.iter().find(|(name, _)| wide(name) == *query) {
                    Some((_, instance)) => Reply::Controller(String::from(*instance)),
                    None => Reply::Failure(String::from("Element not found.")),
                }
            }
            Request::ReadTopology { device, key } => {
                assert_eq!(*key, usb_topology_key());
                match devices[*device as usize].topology {
                    Ok(value) => Reply::Topology(value.map(String::from)),
                    Err(reason) => Reply::Failure(String::from(reason)),
                }
            }
            Request::Finished | Request::Failed => break,
        };
        let next = traversal.step(reply);
        traversal = next.0;
        request = next.1;
    }
    (traversal.into_report(), asked)
}

fn device_a() -> StubDevice {
    StubDevice {
        id: "{0.0.0.00000000}.{aaaa}/render",
        readings: vec![
            Some(reading(2, Some("Speakers"), Some("System.ItemNameDisplay"))),
            Some(reading(6, None, Some("System.Devices.DeviceInstanceId"))),
            Some(reading(14, Some("{1}.USB\\VID_1234"), None)),
        ],
        controllers: vec![("{0.0.0.00000000}.{aaaa}", "USB\\VID_1234&PID_5678\\6&1A2B3C")],
        topology: Ok(Some("usb-topology-7")),
    }
}

fn device_b() -> StubDevice {
    StubDevice {
        id: "{0.0.1.00000000}.{bbbb}/capture",
        readings: Vec::new(),
        controllers: Vec::new(),
        topology: Ok(None),
    }
}

#[test]
fn two_devices_one_unreadable_value_one_unresolved_controller() {
    let (report, _) =
        drive(TruncationPolicy::before_first_slash(), Ok(()), &[device_a(), device_b()]);
    let records = report.expect("the traversal finishes");
    assert_eq!(records.len(), 2);

    let a = &records[0];
    assert_eq!(a.id, "{0.0.0.00000000}.{aaaa}/render");
    assert_eq!(a.audio_controller_id, "USB\\VID_1234&PID_5678\\6&1A2B3C");
    assert_eq!(a.audio_topology_id.as_deref(), Some("usb-topology-7"));
    assert_eq!(a.properties.len(), 3);
    assert_eq!(a.properties[0].value, "Speakers");
    assert_eq!(a.properties[1].value, "");
    assert_eq!(a.properties[1].guid, "{B3F8FA53-0004-438E-9003-51A46E139BFC} 6");
    assert_eq!(a.properties[1].name, "System.Devices.DeviceInstanceId");
    assert_eq!(a.properties[2].value, "{1}.USB\\VID_1234");
    assert_eq!(a.properties[2].name, "");

    let b = &records[1];
    assert_eq!(b.id, "{0.0.1.00000000}.{bbbb}/capture");
    assert_eq!(b.audio_controller_id, "Error Element not found.");
    assert_eq!(b.audio_topology_id, None);
    assert!(b.properties.is_empty());

    let lines = render_report(&records);
    assert_eq!(
        lines,
        vec![
            "Device ID: {0.0.0.00000000}.{aaaa}/render",
            "Audio Controller ID: USB\\VID_1234&PID_5678\\6&1A2B3C",
            "Audio Intel Smart Sound USB device: usb-topology-7",
            "\tProperty 'System.ItemNameDisplay'\tValue 'Speakers'\tGUID '{B3F8FA53-0004-438E-9003-51A46E139BFC} 2'\tDescription ''",
            "\tProperty 'System.Devices.DeviceInstanceId'\tValue ''\tGUID '{B3F8FA53-0004-438E-9003-51A46E139BFC} 6'\tDescription ''",
            "\tProperty ''\tValue '{1}.USB\\VID_1234'\tGUID '{B3F8FA53-0004-438E-9003-51A46E139BFC} 14'\tDescription ''",
            "Device ID: {0.0.1.00000000}.{bbbb}/capture",
            "Audio Controller ID: Error Element not found.",
        ]
    );
    assert_eq!(lines.iter().filter(|line| line.starts_with("Device ID: ")).count(), 2);
    assert_eq!(lines.iter().filter(|line| line.starts_with('\t')).count(), 3);
}

#[test]
fn requests_come_in_the_order_of_the_platform() {
    let (_, asked) =
        drive(TruncationPolicy::before_first_slash(), Ok(()), &[device_a(), device_b()]);
    let shown: Vec<String> = asked.iter().map(|request| format!("{:?}", request)).collect();
    assert_eq!(shown.len(), 12);
    assert_eq!(shown[0], "OpenService");
    assert_eq!(shown[1], "ListDevices");
    assert_eq!(shown[2], "OpenDevice { index: 0 }");
    assert_eq!(shown[3], "ReadProperty { device: 0, slot: 0 }");
    assert_eq!(shown[4], "ReadProperty { device: 0, slot: 1 }");
    assert_eq!(shown[5], "ReadProperty { device: 0, slot: 2 }");
    assert!(matches!(&asked[6], Request::FindController { device: 0, query, .. }
        if *query == wide("{0.0.0.00000000}.{aaaa}")));
    assert!(matches!(&asked[7], Request::ReadTopology { device: 0, .. }));
    assert_eq!(shown[8], "OpenDevice { index: 1 }");
    assert!(matches!(&asked[9], Request::FindController { device: 1, query, .. }
        if *query == wide("{0.0.1.00000000}.{bbbb}")));
    assert!(matches!(&asked[10], Request::ReadTopology { device: 1, .. }));
    assert_eq!(shown[11], "Finished");
}

#[test]
fn records_keep_the_count_and_the_order_of_the_devices() {
    let ids = ["first/x", "second/x", "third/x", "fourth/x", "fifth/x"];
    let devices: Vec<StubDevice> = ids
        .iter()
        .map(|id| StubDevice {
            id,
            readings: Vec::new(),
            controllers: Vec::new(),
            topology: Ok(None),
        })
        .collect();
    let (report, _) = drive(TruncationPolicy::before_first_slash(), Ok(()), &devices);
    let records = report.expect("the traversal finishes");
    assert_eq!(records.len(), 5);
    for (record, id) in records.iter().zip(ids) {
        assert_eq!(record.id, id);
    }
}

#[test]
fn no_devices_is_no_error() {
    let (report, asked) = drive(TruncationPolicy::before_first_slash(), Ok(()), &[]);
    assert!(report.expect("the traversal finishes").is_empty());
    assert_eq!(asked.len(), 3);
    assert!(render_report(&[]).is_empty());
}

#[test]
fn service_that_does_not_open_is_fatal() {
    let (report, asked) = drive(
        TruncationPolicy::before_first_slash(),
        Err("CoInitializeEx failed"),
        &[device_a()],
    );
    match report {
        Err(TraversalError::ServiceUnavailable { reason }) => {
            assert_eq!(reason, "CoInitializeEx failed")
        }
        other => panic!("unexpected report {:?}", other),
    }
    assert_eq!(asked.len(), 2);
    assert!(matches!(asked[1], Request::Failed));
}

#[test]
fn device_list_that_cannot_be_counted_is_fatal() {
    let (traversal, _) = Traversal::begin(TruncationPolicy::before_first_slash());
    let (traversal, request) = traversal.step(Reply::ServiceOpened);
    assert!(matches!(request, Request::ListDevices));
    assert_eq!(traversal.phase(), Phase::AwaitCount);
    let (traversal, request) = traversal.step(Reply::Failure(String::from("no endpoints")));
    assert!(matches!(request, Request::Failed));
    assert_eq!(traversal.phase(), Phase::Failed);
    match traversal.into_report() {
        Err(TraversalError::ServiceUnavailable { reason }) => assert_eq!(reason, "no endpoints"),
        other => panic!("unexpected report {:?}", other),
    }
}

#[test]
fn device_that_does_not_open_is_fatal() {
    let (traversal, _) = Traversal::begin(TruncationPolicy::before_first_slash());
    let (traversal, _) = traversal.step(Reply::ServiceOpened);
    let (traversal, request) = traversal.step(Reply::DeviceCount(2));
    assert!(matches!(request, Request::OpenDevice { index: 0 }));
    let (traversal, request) = traversal.step(Reply::Failure(String::from("gone")));
    assert!(matches!(request, Request::Failed));
    assert_eq!(traversal.records_done(), 0);
    assert!(matches!(
        traversal.into_report(),
        Err(TraversalError::ServiceUnavailable { reason }) if reason == "gone"
    ));
}

#[test]
fn slot_that_cannot_be_read_gets_an_empty_property() {
    let mut device = device_a();
    device.readings[0] = None;
    let (report, _) = drive(TruncationPolicy::before_first_slash(), Ok(()), &[device]);
    let records = report.expect("the traversal finishes");
    assert_eq!(records[0].properties.len(), 3);
    let empty = &records[0].properties[0];
    assert_eq!(empty.key, PropertyKey { fmtid: 0, pid: 0 });
    assert_eq!(
        (empty.name.as_str(), empty.value.as_str(), empty.guid.as_str(), empty.description.as_str()),
        ("", "", "", "")
    );
    let blank = unread();
    assert_eq!(blank.key, empty.key);
    assert_eq!(blank.guid, "");
    assert_eq!(records[0].properties[2].value, "{1}.USB\\VID_1234");
    assert_eq!(records[0].audio_controller_id, "USB\\VID_1234&PID_5678\\6&1A2B3C");
}

#[test]
fn topology_that_cannot_be_read_is_absent() {
    let mut device = device_a();
    device.topology = Err("access denied");
    let (report, _) =
        drive(TruncationPolicy::before_first_slash(), Ok(()), &[device, device_b()]);
    let records = report.expect("the traversal finishes");
    assert_eq!(records.len(), 2);
    assert_eq!(records[0].audio_topology_id, None);
    assert_eq!(records[0].audio_controller_id, "USB\\VID_1234&PID_5678\\6&1A2B3C");
    assert_eq!(records[0].properties.len(), 3);
}

#[test]
fn policy_decides_what_the_service_is_asked() {
    let mut device = device_a();
    device.controllers = vec![("{0.0.0.00000000}.{aaaa}/", "ROOT\\MEDIA\\0000")];
    let behind = TruncationPolicy::new("/", CutPoint::AfterDelimiter);
    let (report, asked) = drive(behind, Ok(()), &[device]);
    let records = report.expect("the traversal finishes");
    assert_eq!(records[0].audio_controller_id, "ROOT\\MEDIA\\0000");
    assert!(matches!(&asked[6], Request::FindController { query, .. }
        if *query == wide("{0.0.0.00000000}.{aaaa}/")));

    let mut device = device_a();
    device.controllers = vec![("{0.0.0.00000000}.{aaaa}/", "ROOT\\MEDIA\\0000")];
    let (report, _) = drive(TruncationPolicy::before_first_slash(), Ok(()), &[device]);
    assert_eq!(
        report.expect("the traversal finishes")[0].audio_controller_id,
        "Error Element not found."
    );
}

#[test]
fn reply_that_was_not_asked_for_ends_the_traversal() {
    let (traversal, _) = Traversal::begin(TruncationPolicy::before_first_slash());
    let (traversal, request) = traversal.step(Reply::DeviceCount(3));
    assert!(matches!(request, Request::Failed));
    assert!(matches!(traversal.into_report(), Err(TraversalError::UnexpectedReply)));

    let (traversal, _) = Traversal::begin(TruncationPolicy::before_first_slash());
    let (traversal, _) = traversal.step(Reply::ServiceOpened);
    let (traversal, _) = traversal.step(Reply::DeviceCount(1));
    let (traversal, _) = traversal.step(Reply::DeviceOpened {
        id: String::from("a/b"),
        property_count: 1,
    });
    let (traversal, request) = traversal.step(Reply::Topology(None));
    assert!(matches!(request, Request::Failed));
    assert!(matches!(traversal.into_report(), Err(TraversalError::UnexpectedReply)));
}

#[test]
fn report_of_a_traversal_under_way_is_unfinished() {
    let (traversal, _) = Traversal::begin(TruncationPolicy::before_first_slash());
    assert_eq!(traversal.phase(), Phase::AwaitService);
    assert!(matches!(traversal.into_report(), Err(TraversalError::Unfinished)));

    let (traversal, _) = Traversal::begin(TruncationPolicy::before_first_slash());
    let (traversal, _) = traversal.step(Reply::ServiceOpened);
    let (traversal, _) = traversal.step(Reply::DeviceCount(1));
    assert_eq!(traversal.phase(), Phase::AwaitDevice);
    assert!(matches!(traversal.into_report(), Err(TraversalError::Unfinished)));
}

#[test]
fn ended_traversal_stays_as_it_is() {
    let (traversal, _) = Traversal::begin(TruncationPolicy::before_first_slash());
    let (traversal, _) = traversal.step(Reply::ServiceOpened);
    let (traversal, request) = traversal.step(Reply::DeviceCount(0));
    assert!(matches!(request, Request::Finished));
    let (traversal, request) = traversal.step(Reply::Failure(String::from("late")));
    assert!(matches!(request, Request::Finished));
    let (traversal, request) = traversal.step(Reply::DeviceCount(9));
    assert!(matches!(request, Request::Finished));
    assert_eq!(traversal.phase(), Phase::Finished);
    assert!(traversal.into_report().expect("finished").is_empty());

    let (traversal, _) = Traversal::begin(TruncationPolicy::before_first_slash());
    let (traversal, _) = traversal.step(Reply::Failure(String::from("first")));
    let (traversal, request) = traversal.step(Reply::Failure(String::from("second")));
    assert!(matches!(request, Request::Failed));
    assert!(matches!(
        traversal.into_report(),
        Err(TraversalError::ServiceUnavailable { reason }) if reason == "first"
    ));
}
