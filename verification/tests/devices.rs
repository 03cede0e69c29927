use mouse_devices::{
    create_mouse_device, describe_device, get_device_info, get_hardware_ids, get_mouse_guid,
    identify_device, DeviceEntry, EnumerationError, EnumerationRun, MouseDevice, PropertyKind,
    RunAction, RunEvent, RunPhase,
};
use windows::Win32::Devices::DeviceAndDriverInstallation::{
    SPDRP_DEVICEDESC, SPDRP_FRIENDLYNAME, SPDRP_HARDWAREID, SPDRP_MFG,
};

fn text(s: &str) -> Option<String> {
    Some(s.to_string())
}

fn sample(instance: u32) -> MouseDevice {
    create_mouse_device(text("HID\\VID_046D&PID_C52B\0\0"), None, None, None, instance).unwrap()
}

#[test]
fn mouse_class_guid_has_the_documented_value() {
    let guid = get_mouse_guid();
    assert_eq!(guid.data1, 0x4d36e96f);
    assert_eq!(guid.data2, 0xe325);
    assert_eq!(guid.data3, 0x11ce);
    assert_eq!(guid.data4, [0xbf, 0xc1, 0x08, 0x00, 0x2b, 0xe1, 0x03, 0x18]);
    assert!(guid == windows::core::GUID::from_u128(0x4d36e96f_e325_11ce_bfc1_08002be10318));
}

#[test]
fn property_codes_match_the_system_constants() {
    assert_eq!(PropertyKind::HardwareIdList.code(), SPDRP_HARDWAREID);
    assert_eq!(PropertyKind::DeviceDescription.code(), SPDRP_DEVICEDESC);
    assert_eq!(PropertyKind::FriendlyName.code(), SPDRP_FRIENDLYNAME);
    assert_eq!(PropertyKind::Manufacturer.code(), SPDRP_MFG);
    assert_eq!(PropertyKind::FriendlyName.code(), 0x0000000C);
    assert_eq!(PropertyKind::Manufacturer.code(), 0x0000000B);
}

#[test]
fn new_keeps_every_field() {
    let device = MouseDevice::new(
        "046D".to_string(),
        "C52B".to_string(),
        "desc".to_string(),
        "name".to_string(),
        "maker".to_string(),
        vec!["a".to_string(), "b".to_string()],
        77,
    );
    assert_eq!(device.vendor_id, "046D");
    assert_eq!(device.product_id, "C52B");
    assert_eq!(device.device_description, "desc");
    assert_eq!(device.friendly_name, "name");
    assert_eq!(device.manufacturer, "maker");
    assert_eq!(device.hardware_ids, vec!["a".to_string(), "b".to_string()]);
    assert_eq!(device.device_instance_id, 77);
}

#[test]
fn entry_is_present_exactly_when_found() {
    assert_eq!(get_device_info(true, 0, 3, 42), Some(DeviceEntry { index: 3, device_instance_id: 42 }));
    assert_eq!(get_device_info(false, 259, 3, 42), None);
    assert_eq!(get_device_info(false, 5, 3, 42), None);
}

#[test]
fn past_the_end_is_reported_again_and_again() {
    assert_eq!(get_device_info(false, 259, 7, 0), None);
    assert_eq!(get_device_info(false, 259, 7, 0), None);
    assert_eq!(get_device_info(false, 259, 8, 0), None);
}

#[test]
fn hardware_ids_follow_the_property() {
    assert_eq!(get_hardware_ids(None), None);
    assert_eq!(get_hardware_ids(text("")), Some(vec![]));
    assert_eq!(get_hardware_ids(text("x\0y\0\0")), Some(vec!["x".to_string(), "y".to_string()]));
}

#[test]
fn assembles_full_record() {
    let device = create_mouse_device(
        text("USB\\VID_046D&PID_C52B\\6&1234\0USB\\VID_046D&PID_C52B\0\0"),
        text("USB Input Device\0"),
        text("Logitech Receiver\0"),
        text("Logitech\0"),
        9,
    )
    .unwrap();
    assert_eq!(device.vendor_id, "046D");
    assert_eq!(device.product_id, "C52B");
    assert_eq!(device.device_description, "USB Input Device\0");
    assert_eq!(device.friendly_name, "Logitech Receiver\0");
    assert_eq!(device.manufacturer, "Logitech\0");
    assert_eq!(
        device.hardware_ids,
        vec!["USB\\VID_046D&PID_C52B\\6&1234".to_string(), "USB\\VID_046D&PID_C52B".to_string()]
    );
    assert_eq!(device.device_instance_id, 9);
}

#[test]
fn missing_descriptions_read_unknown() {
    let device = sample(1);
    assert_eq!(device.device_description, "Unknown");
    assert_eq!(device.friendly_name, "Unknown");
    assert_eq!(device.manufacturer, "Unknown");
    assert_eq!(device.vendor_id, "046D");
    assert_eq!(device.product_id, "C52B");
    assert_eq!(device.hardware_ids, vec!["HID\\VID_046D&PID_C52B".to_string()]);
}

#[test]
fn device_without_hardware_ids_is_skipped() {
    assert!(create_mouse_device(None, text("d"), text("f"), text("m"), 1).is_none());
    assert!(create_mouse_device(text(""), text("d"), text("f"), text("m"), 1).is_none());
    assert!(create_mouse_device(text("\0\0"), text("d"), text("f"), text("m"), 1).is_none());
}

#[test]
fn device_with_bogus_hardware_id_is_skipped() {
    assert!(create_mouse_device(text("BOGUS_NO_MARKERS\0\0"), text("d"), None, None, 1).is_none());
}

#[test]
fn only_the_first_hardware_id_is_parsed() {
    assert!(create_mouse_device(text("BOGUS\0USB\\VID_046D&PID_C52B\0\0"), None, None, None, 1).is_none());
    let device = create_mouse_device(text("\0VID_0001PID_0002\0BOGUS\0"), None, None, None, 1).unwrap();
    assert_eq!(device.vendor_id, "0001");
    assert_eq!(device.product_id, "0002");
    assert_eq!(device.hardware_ids.len(), 2);
}

#[test]
fn open_failure_is_fatal_and_gives_no_records() {
    let mut run = EnumerationRun::new();
    assert_eq!(run.next_action(), RunAction::OpenSet);
    assert_eq!(run.handle(RunEvent::OpenFailed), RunAction::ReportOpenFailure);
    assert_eq!(run.phase(), RunPhase::Failed);
    assert_eq!(run.handle(RunEvent::Entry(Some(sample(1)))), RunAction::ReportOpenFailure);
    match run.finish() {
        Err(error) => assert_eq!(error, EnumerationError::CannotOpenDeviceClass),
        Ok(_) => panic!("a failed run handed out records"),
    }
}

#[test]
fn empty_set_completes_with_no_records() {
    let mut run = EnumerationRun::new();
    assert_eq!(run.handle(RunEvent::SetOpened), RunAction::QueryEntry(0));
    assert_eq!(run.handle(RunEvent::EndOfSequence), RunAction::ReleaseSet);
    assert_eq!(run.handle(RunEvent::SetReleased), RunAction::Finish);
    assert_eq!(run.phase(), RunPhase::Completed);
    assert!(run.finish().unwrap().is_empty());
}

#[test]
fn entries_are_queried_by_successive_indices() {
    let mut run = EnumerationRun::new();
    assert_eq!(run.handle(RunEvent::SetOpened), RunAction::QueryEntry(0));
    assert_eq!(run.handle(RunEvent::Entry(Some(sample(10)))), RunAction::QueryEntry(1));
    assert_eq!(run.handle(RunEvent::Entry(None)), RunAction::QueryEntry(2));
    assert_eq!(run.handle(RunEvent::Entry(Some(sample(30)))), RunAction::QueryEntry(3));
    assert_eq!(run.handle(RunEvent::EndOfSequence), RunAction::ReleaseSet);
    assert_eq!(run.handle(RunEvent::EndOfSequence), RunAction::ReleaseSet);
    assert_eq!(run.handle(RunEvent::Entry(Some(sample(40)))), RunAction::ReleaseSet);
    assert_eq!(run.handle(RunEvent::SetReleased), RunAction::Finish);
    assert_eq!(run.handle(RunEvent::SetReleased), RunAction::Finish);
    let devices = run.finish().unwrap();
    assert_eq!(devices.len(), 2);
    assert_eq!(devices[0].device_instance_id, 10);
    assert_eq!(devices[1].device_instance_id, 30);
}

#[test]
fn unfinished_run_hands_out_nothing() {
    let run = EnumerationRun::new();
    assert!(matches!(run.finish(), Err(EnumerationError::Unfinished)));
    let mut run = EnumerationRun::new();
    run.handle(RunEvent::SetOpened);
    run.handle(RunEvent::Entry(Some(sample(1))));
    assert!(matches!(run.finish(), Err(EnumerationError::Unfinished)));
    let mut run = EnumerationRun::new();
    run.handle(RunEvent::SetOpened);
    run.handle(RunEvent::EndOfSequence);
    assert!(matches!(run.finish(), Err(EnumerationError::Unfinished)));
}

#[test]
fn events_out_of_turn_change_nothing() {
    let mut run = EnumerationRun::new();
    assert_eq!(run.handle(RunEvent::Entry(Some(sample(1)))), RunAction::OpenSet);
    assert_eq!(run.handle(RunEvent::EndOfSequence), RunAction::OpenSet);
    assert_eq!(run.handle(RunEvent::SetReleased), RunAction::OpenSet);
    assert_eq!(run.handle(RunEvent::SetOpened), RunAction::QueryEntry(0));
    assert_eq!(run.handle(RunEvent::SetOpened), RunAction::QueryEntry(0));
    assert_eq!(run.handle(RunEvent::OpenFailed), RunAction::QueryEntry(0));
    assert_eq!(run.handle(RunEvent::SetReleased), RunAction::QueryEntry(0));
}

#[test]
fn summary_lists_every_field() {
    let device = MouseDevice::new(
        "046D".to_string(),
        "C52B".to_string(),
        "USB Input Device".to_string(),
        "Unknown".to_string(),
        "Logitech".to_string(),
        vec!["USB\\VID_046D&PID_C52B&REV_1201".to_string(), "USB\\VID_046D&PID_C52B".to_string()],
        4026531840,
    );
    let expected = "Mouse Device Information:\n\
                    -------------------------\n\
                    Vendor ID: 046D\n\
                    Product ID: C52B\n\
                    Description: USB Input Device\n\
                    Friendly Name: Unknown\n\
                    Manufacturer: Logitech\n\
                    Hardware IDs:\n\
                    \x20 - USB\\VID_046D&PID_C52B&REV_1201\n\
                    \x20 - USB\\VID_046D&PID_C52B\n\
                    Device Instance ID: 4026531840\n\
                    -------------------------\n\n";
    assert_eq!(device.display(), expected);
}

#[test]
fn summary_of_device_without_hardware_ids() {
    let device = MouseDevice::new(
        String::new(),
        String::new(),
        String::new(),
        String::new(),
        String::new(),
        Vec::new(),
        0,
    );
    let expected = "Mouse Device Information:\n-------------------------\nVendor ID: \nProduct ID: \nDescription: \nFriendly Name: \nManufacturer: \nHardware IDs:\nDevice Instance ID: 0\n-------------------------\n\n";
    assert_eq!(device.display(), expected);
}

#[test]
fn decimal_notation_matches_the_standard_one() {
    for n in [0u32, 1, 9, 10, 11, 99, 100, 101, 12345, 1000000, 4294967295] {
        assert_eq!(mouse_devices::report::decimal(n), n.to_string());
    }
}

#[test]
fn last_index_ends_the_sequence() {
    let mut run = EnumerationRun::new();
    run.handle(RunEvent::SetOpened);
    let mut action = RunAction::QueryEntry(0);
    for index in 0..1000u32 {
        assert_eq!(action, RunAction::QueryEntry(index));
        action = run.handle(RunEvent::Entry(None));
    }
    assert_eq!(action, RunAction::QueryEntry(1000));
}

#[test]
fn identity_comes_from_the_first_hardware_id() {
    let identity = identify_device(text("HID\\VID_1532&PID_0084&MI_00\0HID\\VID_9999&PID_8888\0\0")).unwrap();
    assert_eq!(identity.vendor_id, "1532");
    assert_eq!(identity.product_id, "0084");
    assert_eq!(
        identity.hardware_ids,
        vec!["HID\\VID_1532&PID_0084&MI_00".to_string(), "HID\\VID_9999&PID_8888".to_string()]
    );
    assert!(identify_device(None).is_none());
    assert!(identify_device(text("\0")).is_none());
    assert!(identify_device(text("BOGUS_NO_MARKERS")).is_none());
    assert!(identify_device(text("VID_1234&PID_567\0VID_1234&PID_5678\0")).is_none());
}

#[test]
fn description_fills_each_missing_property_alone() {
    let identity = identify_device(text("VID_0001&PID_0002")).unwrap();
    let device = describe_device(identity, None, text("Pointer"), None, 5);
    assert_eq!(device.vendor_id, "0001");
    assert_eq!(device.product_id, "0002");
    assert_eq!(device.device_description, "Unknown");
    assert_eq!(device.friendly_name, "Pointer");
    assert_eq!(device.manufacturer, "Unknown");
    assert_eq!(device.hardware_ids, vec!["VID_0001&PID_0002".to_string()]);
    assert_eq!(device.device_instance_id, 5);
}
