use cameleon_u3v::device::{Device, DeviceHandle, DeviceInfo, IfaceKind};
use cameleon_u3v::gentl::{CompressionType, DeviceAccessFlag, DeviceAccessStatus, Endianness,
    GenTlError, ManifestEntry, ModuleType, PortAccess, TlType, U3VDeviceModule, U3VRemoteDevice,
    Version, XmlLocation, remote_port_info, remote_xml_infos,
    timestamp_frequency_from_increment, MEMORY_SIZE, XML_ADDRESS, XML_LENGTH};

fn device_info() -> DeviceInfo {
    DeviceInfo {
        guid: "cam0-guid".to_string(),
        vendor_name: "ExampleVendor".to_string(),
        model_name: "ExampleModel".to_string(),
        serial_number: "SN0001".to_string(),
    }
}

fn remote() -> U3VRemoteDevice {
    let port_info = remote_port_info(
        "SN0001".to_string(),
        "ExampleVendor".to_string(),
        "ExampleModel".to_string(),
        Version { major: 1, minor: 3, patch: 0 },
    );
    U3VRemoteDevice::new(port_info, Vec::new())
}

#[test]
fn test_device_channels() {
    let dev = Device::new(5, device_info());
    assert_eq!(dev.device_info().guid, "cam0-guid");
    let control = dev.control_channel().unwrap();
    assert_eq!(
        control.handle,
        DeviceHandle { device_id: 5, iface: IfaceKind::Control }
    );
    let event = dev.event_channel().unwrap().unwrap();
    assert_eq!(event.handle, DeviceHandle { device_id: 5, iface: IfaceKind::Event });
    let stream = dev.stream_channel().unwrap().unwrap();
    assert_eq!(stream.handle, DeviceHandle { device_id: 5, iface: IfaceKind::Stream });
}

// Open/close state machine: exclusive open succeeds once, a second open
// is refused, close returns the device to ReadWrite, and a non-exclusive
// flag is always refused.
#[test]
fn test_open_close_state_machine() {
    let mut module = U3VDeviceModule::new(device_info()).unwrap();
    module.force_access_status(DeviceAccessStatus::ReadWrite);
    assert!(!module.is_opened());

    assert_eq!(module.check_open_allowed(DeviceAccessFlag::Exclusive), Ok(()));
    assert_eq!(module.complete_open(Ok(()), remote()), Ok(()));
    assert!(module.is_opened());

    // The register reflects the new state only on demand.
    assert_eq!(module.access_status(), DeviceAccessStatus::ReadWrite);
    module.reflect_status();
    assert_eq!(module.access_status(), DeviceAccessStatus::OpenReadWrite);

    assert_eq!(
        module.check_open_allowed(DeviceAccessFlag::Exclusive),
        Err(GenTlError::ResourceInUse)
    );

    assert_eq!(module.complete_close(Ok(())), Ok(()));
    assert!(!module.is_opened());
    module.reflect_status();
    assert_eq!(module.access_status(), DeviceAccessStatus::ReadWrite);

    assert_eq!(
        module.check_open_allowed(DeviceAccessFlag::Control),
        Err(GenTlError::AccessDenied)
    );
    assert_eq!(
        module.check_open_allowed(DeviceAccessFlag::ReadOnly),
        Err(GenTlError::AccessDenied)
    );
}

#[test]
fn test_open_failure_statuses() {
    let mut module = U3VDeviceModule::new(device_info()).unwrap();
    module.force_access_status(DeviceAccessStatus::ReadWrite);

    // An access conflict marks the device busy without opening it.
    assert_eq!(
        module.complete_open(Err(GenTlError::AccessDenied), remote()),
        Err(GenTlError::AccessDenied)
    );
    assert!(!module.is_opened());
    module.reflect_status();
    assert_eq!(module.access_status(), DeviceAccessStatus::Busy);

    // A transport failure marks it inaccessible.
    assert_eq!(
        module.complete_open(Err(GenTlError::Io), remote()),
        Err(GenTlError::Io)
    );
    module.reflect_status();
    assert_eq!(module.access_status(), DeviceAccessStatus::NoAccess);

    // A failing close falls back to NoAccess as well, but reports success.
    assert_eq!(module.complete_close(Err(GenTlError::Io)), Ok(()));
    module.reflect_status();
    assert_eq!(module.access_status(), DeviceAccessStatus::NoAccess);
}

#[test]
fn test_port_gated_on_open() {
    let mut module = U3VDeviceModule::new(device_info()).unwrap();
    assert_eq!(module.read(4, 4), Err(GenTlError::NotInitialized));
    assert_eq!(module.write(196, &[1]), Err(GenTlError::NotInitialized));
    assert!(module.port_info().is_err());
    assert!(module.xml_infos().is_err());
    assert!(module.remote_device().is_err());

    module.complete_open(Ok(()), remote()).unwrap();
    assert!(module.read(4, 4).is_ok());
    assert!(module.port_info().is_ok());
    assert!(module.xml_infos().is_ok());
    assert!(module.remote_device().is_ok());
}

#[test]
fn test_port_read_write() {
    let mut module = U3VDeviceModule::new(device_info()).unwrap();
    module.complete_open(Ok(()), remote()).unwrap();

    // The identity registers hold the descriptor strings, nul-padded.
    let id = module.read(4, 64).unwrap();
    assert_eq!(&id[..9], b"cam0-guid");
    assert!(id[9..].iter().all(|&b| b == 0));
    let vendor = module.read(68, 64).unwrap();
    assert_eq!(&vendor[..13], b"ExampleVendor");

    // The user-defined-name region is writable; reads echo the write.
    assert_eq!(module.write(196, b"hall camera"), Ok(11));
    assert_eq!(module.read(196, 11).unwrap(), b"hall camera".to_vec());

    // The identity registers are read-only through the port.
    assert_eq!(module.write(4, b"x"), Err(GenTlError::AccessDenied));
    // Out-of-range accesses never truncate silently.
    assert_eq!(module.read(1020, 8), Err(GenTlError::InvalidAddress));
    assert_eq!(
        module.write(MEMORY_SIZE as u64, &[0]),
        Err(GenTlError::InvalidAddress)
    );
    // The gap between the registers and the XML region is inaccessible.
    assert_eq!(module.read(300, 4), Err(GenTlError::AccessDenied));
}

#[test]
fn test_module_metadata() {
    let mut module = U3VDeviceModule::new(device_info()).unwrap();
    assert_eq!(module.device_id(), "cam0-guid");
    assert_eq!(module.vendor_name().unwrap(), "ExampleVendor");
    assert_eq!(module.model_name().unwrap(), "ExampleModel");
    assert_eq!(module.serial_number().unwrap(), "SN0001");
    assert_eq!(
        module.display_name().unwrap(),
        "ExampleVendor ExampleModel (cam0-guid)"
    );
    assert_eq!(module.tl_type(), TlType::USB3Vision);
    assert_eq!(module.device_access_status(), DeviceAccessStatus::Unknown);

    module.complete_open(Ok(()), remote()).unwrap();
    let port_info = module.port_info().unwrap();
    assert_eq!(port_info.id, "cam0-guid");
    assert_eq!(port_info.vendor, "Cameleon");
    assert_eq!(port_info.model, "CameleonU3V");
    assert_eq!(port_info.module_type, ModuleType::Device);
    assert_eq!(port_info.endianness, Endianness::LE);
    assert_eq!(port_info.access, PortAccess::RW);
    assert_eq!(port_info.port_name, "DevicePort");

    let xml_infos = module.xml_infos().unwrap();
    assert_eq!(xml_infos.len(), 1);
    assert_eq!(
        xml_infos[0].location,
        XmlLocation::RegisterMap { address: XML_ADDRESS, size: XML_LENGTH }
    );
    assert_eq!(xml_infos[0].compressed, CompressionType::Uncompressed);
}

#[test]
fn test_module_new_rejects_oversized_strings() {
    let mut info = device_info();
    info.vendor_name = "v".repeat(65);
    match U3VDeviceModule::new(info) {
        Err(GenTlError::InvalidValue) => {}
        other => panic!("expected a rejected descriptor, got {:?}", other.is_ok()),
    }
}

#[test]
fn test_remote_device_port() {
    let entries = vec![
        ManifestEntry {
            file_address: 0x4000,
            file_size: 0x800,
            schema_version: Version { major: 1, minor: 1, patch: 0 },
            file_version: Version { major: 2, minor: 0, patch: 1 },
            sha1_hash: Some([7u8; 20]),
            compressed: CompressionType::Zip,
        },
        ManifestEntry {
            file_address: 0x8000,
            file_size: 0x1000,
            schema_version: Version { major: 1, minor: 0, patch: 0 },
            file_version: Version { major: 1, minor: 0, patch: 0 },
            sha1_hash: None,
            compressed: CompressionType::Uncompressed,
        },
    ];
    let xml_infos = remote_xml_infos(&entries);
    assert_eq!(xml_infos.len(), 2);
    assert_eq!(
        xml_infos[0].location,
        XmlLocation::RegisterMap { address: 0x4000, size: 0x800 }
    );
    assert_eq!(xml_infos[0].sha1_hash, Some([7u8; 20]));
    assert_eq!(xml_infos[0].compressed, CompressionType::Zip);
    assert_eq!(
        xml_infos[1].location,
        XmlLocation::RegisterMap { address: 0x8000, size: 0x1000 }
    );

    let port_info = remote_port_info(
        "SN0001".to_string(),
        "ExampleVendor".to_string(),
        "ExampleModel".to_string(),
        Version { major: 1, minor: 3, patch: 0 },
    );
    assert_eq!(port_info.module_type, ModuleType::RemoteDevice);
    assert_eq!(port_info.port_name, "Device");
    assert_eq!(port_info.version, Version { major: 1, minor: 3, patch: 0 });

    let remote = U3VRemoteDevice::new(port_info, xml_infos);
    assert_eq!(remote.port_info().id, "SN0001");
    assert_eq!(remote.xml_infos().len(), 2);
}

#[test]
fn test_timestamp_frequency() {
    // One tick per microsecond gives a one-megahertz clock.
    assert_eq!(timestamp_frequency_from_increment(1000), 1_000_000);
    assert_eq!(timestamp_frequency_from_increment(1), 1_000_000_000);
    assert_eq!(timestamp_frequency_from_increment(8), 125_000_000);
}

#[test]
fn test_access_status_encoding() {
    for status in [
        DeviceAccessStatus::Unknown,
        DeviceAccessStatus::ReadWrite,
        DeviceAccessStatus::ReadOnly,
        DeviceAccessStatus::NoAccess,
        DeviceAccessStatus::Busy,
        DeviceAccessStatus::OpenReadWrite,
        DeviceAccessStatus::OpenReadOnly,
    ] {
        assert_eq!(DeviceAccessStatus::from_num(status.as_num()), Some(status));
    }
    assert_eq!(DeviceAccessStatus::from_num(7), None);
    assert!(DeviceAccessStatus::OpenReadWrite.is_opened());
    assert!(DeviceAccessStatus::OpenReadOnly.is_opened());
    assert!(!DeviceAccessStatus::ReadWrite.is_opened());
    assert!(!DeviceAccessStatus::Busy.is_opened());
}
