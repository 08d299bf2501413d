use cameleon_u3v::ack::{AckPacket, AckScd, GenCpStatus, ProtocolError, ScdKind, Status,
    StatusKind, UsbSpecificStatus};

fn serialize_header(status_code: u16, command_id: u16, scd_len: u16, request_id: u16) -> Vec<u8> {
    let mut ccd = vec![];
    ccd.extend(0x4356_3355u32.to_le_bytes());
    ccd.extend(status_code.to_le_bytes());
    ccd.extend(command_id.to_le_bytes());
    ccd.extend(scd_len.to_le_bytes());
    ccd.extend(request_id.to_le_bytes());
    ccd
}

#[test]
fn test_read_mem_ack() {
    let scd = &[0x01, 0x02, 0x03, 0x04];
    let mut raw_packet = serialize_header(0x0000, 0x0801, scd.len() as u16, 1);
    raw_packet.extend(scd);

    let ack = AckPacket::parse(&raw_packet).unwrap();
    assert!(ack.status().is_success());
    assert!(!ack.status().is_fatal());
    assert_eq!(ack.request_id(), 1);
    assert!(ack.custom_command_id().is_none());

    match ack.scd {
        Some(AckScd::ReadMem { data }) => {
            assert_eq!(&raw_packet[data.offset..data.offset + data.len], scd);
        }
        other => panic!("unexpected scd, {:?}", other),
    }
}

#[test]
fn test_write_mem_ack() {
    let scd = &[0x00, 0x00, 0x0a, 0x00]; // Written length is 10.
    let mut raw_packet = serialize_header(0x0000, 0x0803, scd.len() as u16, 1);
    raw_packet.extend(scd);

    let ack = AckPacket::parse(&raw_packet).unwrap();
    assert_eq!(ack.status().code(), 0x0000);
    assert!(ack.status().is_success());
    assert!(!ack.status().is_fatal());
    assert_eq!(ack.request_id(), 1);
    assert!(ack.custom_command_id().is_none());

    match ack.scd {
        Some(AckScd::WriteMem { length }) => {
            assert_eq!(length, 0x0a);
        }
        other => panic!("unexpected scd, {:?}", other),
    }
}

#[test]
fn test_read_mem_stacked_ack() {
    let scd = &[0x01, 0x02, 0x03, 0x04];
    let mut raw_packet = serialize_header(0x0000, 0x0807, scd.len() as u16, 1);
    raw_packet.extend(scd);

    let ack = AckPacket::parse(&raw_packet).unwrap();
    assert_eq!(ack.status().code(), 0x0000);
    assert!(ack.status().is_success());
    assert!(!ack.status().is_fatal());
    assert_eq!(ack.request_id(), 1);
    assert!(ack.custom_command_id().is_none());

    match ack.scd {
        Some(AckScd::ReadMemStacked { data }) => {
            assert_eq!(&raw_packet[data.offset..data.offset + data.len], scd);
        }
        other => panic!("unexpected scd, {:?}", other),
    }
}

#[test]
fn test_write_mem_stacked_ack() {
    let mut scd = vec![0x00, 0x00, 0x03, 0x00]; // Written length 0: 3 bytes written.
    scd.extend(&[0x00, 0x00, 0x0a, 0x00]); // Written length 1: 10 bytes written.
    let mut raw_packet = serialize_header(0x0000, 0x0809, scd.len() as u16, 1);
    raw_packet.extend(&scd);

    let ack = AckPacket::parse(&raw_packet).unwrap();
    assert_eq!(ack.status().code(), 0x0000);
    assert!(ack.status().is_success());
    assert!(!ack.status().is_fatal());
    assert_eq!(ack.request_id(), 1);
    assert!(ack.custom_command_id().is_none());

    match ack.scd {
        Some(AckScd::WriteMemStacked { lengths }) => {
            assert_eq!(lengths, &[3, 10]);
        }
        other => panic!("unexpected scd, {:?}", other),
    }
}

#[test]
fn test_pending_ack() {
    let scd = &[0x00, 0x00, 0xbc, 0x02]; // Timeout is 700 ms.
    let mut raw_packet = serialize_header(0x0000, 0x0805, scd.len() as u16, 1);
    raw_packet.extend(scd);

    let ack = AckPacket::parse(&raw_packet).unwrap();
    assert_eq!(ack.status().code(), 0x0000);
    assert!(ack.status().is_success());
    assert!(!ack.status().is_fatal());
    assert_eq!(ack.request_id(), 1);
    assert!(ack.custom_command_id().is_none());

    match ack.scd {
        Some(AckScd::Pending { timeout_ms }) => {
            assert_eq!(timeout_ms, 700);
        }
        other => panic!("unexpected scd, {:?}", other),
    }
}

#[test]
fn test_gencp_error_status() {
    let code = u16::from_le_bytes([0x0F, 0x80]);
    let status = Status::parse(code).unwrap();
    assert!(!status.is_success());
    assert!(status.is_fatal());
}

#[test]
fn test_usb_error_status() {
    let code = u16::from_le_bytes([0x01, 0xA0]);
    let status = Status::parse(code).unwrap();
    assert!(!status.is_success());
    assert!(status.is_fatal());
    match status.kind() {
        StatusKind::UsbSpecific(..) => {}
        _ => panic!("must be USB specific error status"),
    }
}

// The status code and the request id of any well-formed ack echo the
// little-endian u16 fields at offsets 4 and 10 of the wire frame.
#[test]
fn test_header_fields_echoed() {
    let scd = &[0xAA, 0xBB];
    let mut raw_packet = serialize_header(0x0000, 0x0801, scd.len() as u16, 0x1234);
    raw_packet.extend(scd);

    let ack = AckPacket::parse(&raw_packet).unwrap();
    assert_eq!(
        ack.status().code(),
        u16::from_le_bytes([raw_packet[4], raw_packet[5]])
    );
    assert_eq!(
        ack.request_id(),
        u16::from_le_bytes([raw_packet[10], raw_packet[11]])
    );
}

// A non-success status still parses as a well-formed ack and carries no
// specific command descriptor.
#[test]
fn test_error_ack_has_no_scd() {
    let raw_packet = serialize_header(0x8001, 0x0801, 0, 7);
    let ack = AckPacket::parse(&raw_packet).unwrap();
    assert!(!ack.status().is_success());
    assert!(ack.status().is_fatal());
    assert_eq!(ack.request_id(), 7);
    assert!(ack.scd.is_none());
}

#[test]
fn test_success_ack_has_scd() {
    let scd = &[0x00, 0x00, 0x01, 0x00];
    let mut raw_packet = serialize_header(0x0000, 0x0803, scd.len() as u16, 2);
    raw_packet.extend(scd);
    let ack = AckPacket::parse(&raw_packet).unwrap();
    assert!(ack.status().is_success());
    assert!(ack.scd.is_some());
}

#[test]
fn test_invalid_prefix_magic() {
    let mut raw_packet = serialize_header(0x0000, 0x0801, 0, 1);
    raw_packet[0] = 0x56;
    assert_eq!(
        AckPacket::parse(&raw_packet),
        Err(ProtocolError::InvalidPacket)
    );
}

#[test]
fn test_short_buffer_rejected() {
    let raw_packet = serialize_header(0x0000, 0x0801, 0, 1);
    assert!(AckPacket::parse(&raw_packet[..11]).is_err());
    assert!(AckPacket::parse(&[]).is_err());
}

#[test]
fn test_truncated_scd_rejected() {
    // scd_len says four bytes but only two follow.
    let mut raw_packet = serialize_header(0x0000, 0x0801, 4, 1);
    raw_packet.extend(&[0x01, 0x02]);
    assert_eq!(
        AckPacket::parse(&raw_packet),
        Err(ProtocolError::InvalidPacket)
    );
}

#[test]
fn test_unknown_scd_kind_rejected() {
    // 0x0800 is not a known kind and not a vendor-custom id.
    let raw_packet = serialize_header(0x0000, 0x0800, 0, 1);
    assert_eq!(
        AckPacket::parse(&raw_packet),
        Err(ProtocolError::InvalidPacket)
    );
}

#[test]
fn test_custom_command_ack() {
    // Bit 15 and bit 0 set: a vendor-custom command id.
    let scd = &[0xDE, 0xAD];
    let mut raw_packet = serialize_header(0x0000, 0x8001, scd.len() as u16, 3);
    raw_packet.extend(scd);
    let ack = AckPacket::parse(&raw_packet).unwrap();
    assert_eq!(ack.custom_command_id(), Some(0x8001));
    match ack.scd {
        Some(AckScd::Custom { data }) => {
            assert_eq!(&raw_packet[data.offset..data.offset + data.len], scd);
        }
        other => panic!("unexpected scd, {:?}", other),
    }
}

#[test]
fn test_write_mem_reserved_must_be_zero() {
    let scd = &[0x01, 0x00, 0x0a, 0x00];
    let mut raw_packet = serialize_header(0x0000, 0x0803, scd.len() as u16, 1);
    raw_packet.extend(scd);
    assert_eq!(
        AckPacket::parse(&raw_packet),
        Err(ProtocolError::InvalidPacket)
    );
}

#[test]
fn test_write_mem_stacked_reserved_must_be_zero() {
    let mut scd = vec![0x00, 0x00, 0x03, 0x00];
    scd.extend(&[0x01, 0x00, 0x0a, 0x00]);
    let mut raw_packet = serialize_header(0x0000, 0x0809, scd.len() as u16, 1);
    raw_packet.extend(&scd);
    assert_eq!(
        AckPacket::parse(&raw_packet),
        Err(ProtocolError::InvalidPacket)
    );
}

// A stacked-write length that is not a multiple of four is consumed
// leniently: the budget saturates and the parser still takes whole
// entries.
#[test]
fn test_write_mem_stacked_lenient_length() {
    let mut scd = vec![0x00, 0x00, 0x03, 0x00];
    scd.extend(&[0x00, 0x00, 0x0a, 0x00]);
    let mut raw_packet = serialize_header(0x0000, 0x0809, 6, 1);
    raw_packet.extend(&scd);
    let ack = AckPacket::parse(&raw_packet).unwrap();
    match ack.scd {
        Some(AckScd::WriteMemStacked { lengths }) => {
            assert_eq!(lengths, &[3, 10]);
        }
        other => panic!("unexpected scd, {:?}", other),
    }
}

#[test]
fn test_device_specific_status() {
    // Namespace bits 14..13 are 0b10: a device-specific code, kept raw.
    let status = Status::parse(0x4123).unwrap();
    assert_eq!(status.code(), 0x4123);
    assert!(!status.is_success());
    assert!(!status.is_fatal());
    assert_eq!(status.kind(), StatusKind::DeviceSpecific);
}

#[test]
fn test_invalid_namespace_rejected() {
    // Namespace bits 14..13 are 0b11: always invalid.
    assert_eq!(Status::parse(0x6000), Err(ProtocolError::InvalidPacket));
    assert_eq!(Status::parse(0xE000), Err(ProtocolError::InvalidPacket));
}

#[test]
fn test_unknown_gencp_code_rejected() {
    assert_eq!(Status::parse(0x8008), Err(ProtocolError::InvalidPacket));
    assert_eq!(Status::parse(0xA006), Err(ProtocolError::InvalidPacket));
}

#[test]
fn test_status_tables() {
    let s = Status::parse(0x0000).unwrap();
    assert!(s.is_success());
    assert!(!s.is_fatal());
    assert_eq!(s.kind(), StatusKind::GenCp(GenCpStatus::Success));

    let s = Status::parse(0x800F).unwrap();
    assert_eq!(s.kind(), StatusKind::GenCp(GenCpStatus::WrongConfig));
    assert!(s.is_fatal());

    let s = Status::parse(0xA001).unwrap();
    assert_eq!(
        s.kind(),
        StatusKind::UsbSpecific(UsbSpecificStatus::ResendNotSupported)
    );
    assert!(s.is_fatal());
}

#[test]
fn test_scd_kind_table() {
    assert_eq!(ScdKind::parse(0x0801), Ok(ScdKind::ReadMem));
    assert_eq!(ScdKind::parse(0x0803), Ok(ScdKind::WriteMem));
    assert_eq!(ScdKind::parse(0x0805), Ok(ScdKind::Pending));
    assert_eq!(ScdKind::parse(0x0807), Ok(ScdKind::ReadMemStacked));
    assert_eq!(ScdKind::parse(0x0809), Ok(ScdKind::WriteMemStacked));
    assert_eq!(ScdKind::parse(0x8003), Ok(ScdKind::Custom(0x8003)));
    assert_eq!(ScdKind::parse(0x8002), Err(ProtocolError::InvalidPacket));
}
