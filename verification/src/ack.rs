//! GenCP acknowledge packet codec.
//!
//! An acknowledge packet is a little-endian frame: a four-byte prefix
//! magic, a common command descriptor (status, SCD kind, SCD length,
//! request id, two bytes each), and, only when the status is Success, a
//! specific command descriptor whose shape depends on the SCD kind.
//!
//! Parsing never copies data-bearing payloads: they are returned as
//! offset/length spans into the caller's buffer.

use vstd::bytes::{spec_u16_from_le_bytes, spec_u32_from_le_bytes, u16_from_le_bytes,
    u32_from_le_bytes};
use vstd::prelude::*;
use vstd::slice::slice_subrange;

verus! {

broadcast use vstd::slice::axiom_spec_len;

/// Prefix magic of every acknowledge packet ("U3VC" read little-endian).
pub const ACK_PREFIX_MAGIC: u32 = 0x43563355;

/// Error of the codec: the buffer does not hold a well-formed packet.
#[derive(Debug, Clone, Copy, PartialEq, Eq, Structural)]
pub enum ProtocolError {
    InvalidPacket,
}

/// The little-endian u16 at offset `i` of `s`.
pub open spec fn spec_le16(s: Seq<u8>, i: int) -> u16 {
    spec_u16_from_le_bytes(s.subrange(i, i + 2))
}

/// The little-endian u32 at offset `i` of `s`.
pub open spec fn spec_le32(s: Seq<u8>, i: int) -> u32 {
    spec_u32_from_le_bytes(s.subrange(i, i + 4))
}

/// Status code of a GenCP acknowledge, split by namespace.
#[derive(Debug, Clone, Copy, PartialEq, Eq, Structural)]
pub enum GenCpStatus {
    /// Success.
    Success,
    /// Command not implemented in the device.
    NotImplemented,
    /// Command parameter of CCD or SCD is invalid.
    InvalidParameter,
    /// Attempt to access an address that doesn't exist.
    InvalidAddress,
    /// Attempt to write to a read only address.
    WriteProtect,
    /// Attempt to access an address with bad alignment.
    BadAlignment,
    /// Attempt to read an unreadable address or write to an unwritable one.
    AccessDenied,
    /// The command receiver is busy.
    Busy,
    /// Timeout waiting for an acknowledge.
    Timeout,
    /// Header is inconsistent with data.
    InvalidHeader,
    /// The receiver configuration does not allow execution of the command.
    WrongConfig,
    /// Generic error.
    GenericError,
}

/// USB3 Vision specific status codes.
#[derive(Debug, Clone, Copy, PartialEq, Eq, Structural)]
pub enum UsbSpecificStatus {
    /// Resend command is not supported by the USB device.
    ResendNotSupported,
    /// Stream endpoint is halted while the stream flag is set.
    StreamEndpointHalted,
    /// Payload size setting is invalid because of bad alignment.
    PayloadSizeNotAligned,
    /// Streaming interface is in an invalid state.
    InvalidSiState,
    /// Event endpoint is halted while the event enable flag is set.
    EventEndpointHalted,
}

/// Namespace of a status code, given by bits 14..13.
#[derive(Debug, Clone, Copy, PartialEq, Eq, Structural)]
pub enum StatusKind {
    GenCp(GenCpStatus),
    UsbSpecific(UsbSpecificStatus),
    DeviceSpecific,
}

/// GenCP-namespace table. Any other code of that namespace is an error.
pub open spec fn spec_gencp_status(code: u16) -> Option<GenCpStatus> {
    if code == 0x0000 {
        Some(GenCpStatus::Success)
    } else if code == 0x8001 {
        Some(GenCpStatus::NotImplemented)
    } else if code == 0x8002 {
        Some(GenCpStatus::InvalidParameter)
    } else if code == 0x8003 {
        Some(GenCpStatus::InvalidAddress)
    } else if code == 0x8004 {
        Some(GenCpStatus::WriteProtect)
    } else if code == 0x8005 {
        Some(GenCpStatus::BadAlignment)
    } else if code == 0x8006 {
        Some(GenCpStatus::AccessDenied)
    } else if code == 0x8007 {
        Some(GenCpStatus::Busy)
    } else if code == 0x800B {
        Some(GenCpStatus::Timeout)
    } else if code == 0x800E {
        Some(GenCpStatus::InvalidHeader)
    } else if code == 0x800F {
        Some(GenCpStatus::WrongConfig)
    } else if code == 0x8FFF {
        Some(GenCpStatus::GenericError)
    } else {
        None
    }
}

/// USB-specific-namespace table.
pub open spec fn spec_usb_status(code: u16) -> Option<UsbSpecificStatus> {
    if code == 0xA001 {
        Some(UsbSpecificStatus::ResendNotSupported)
    } else if code == 0xA002 {
        Some(UsbSpecificStatus::StreamEndpointHalted)
    } else if code == 0xA003 {
        Some(UsbSpecificStatus::PayloadSizeNotAligned)
    } else if code == 0xA004 {
        Some(UsbSpecificStatus::InvalidSiState)
    } else if code == 0xA005 {
        Some(UsbSpecificStatus::EventEndpointHalted)
    } else {
        None
    }
}

/// Status parse: bits 14..13 select the namespace, namespace three is
/// rejected outright.
pub open spec fn spec_status_kind(code: u16) -> Option<StatusKind> {
    let namespace = (code >> 13) & 0b11;
    if namespace == 0b00 {
        match spec_gencp_status(code) {
            Some(s) => Some(StatusKind::GenCp(s)),
            None => None,
        }
    } else if namespace == 0b01 {
        match spec_usb_status(code) {
            Some(s) => Some(StatusKind::UsbSpecific(s)),
            None => None,
        }
    } else if namespace == 0b10 {
        Some(StatusKind::DeviceSpecific)
    } else {
        None
    }
}

/// A parsed status: the raw code and its decoded kind.
#[derive(Debug, Clone, Copy, PartialEq, Eq, Structural)]
pub struct Status {
    code: u16,
    kind: StatusKind,
}

impl Status {
    pub closed spec fn spec_code(&self) -> u16 {
        self.code
    }

    pub closed spec fn spec_kind(&self) -> StatusKind {
        self.kind
    }

    pub open spec fn spec_is_success(&self) -> bool {
        self.spec_kind() == StatusKind::GenCp(GenCpStatus::Success)
    }

    /// True exactly of the GenCP Success status.
    pub fn is_success(&self) -> (r: bool)
        ensures
            r == self.spec_is_success(),
    {
        match self.kind {
            StatusKind::GenCp(GenCpStatus::Success) => true,
            _ => false,
        }
    }

    /// The fatal flag is bit 15 of the raw code.
    pub fn is_fatal(&self) -> (r: bool)
        ensures
            r == (self.spec_code() >> 15 == 1),
    {
        self.code >> 15 == 1
    }

    pub fn code(&self) -> (r: u16)
        ensures
            r == self.spec_code(),
    {
        self.code
    }

    pub fn kind(&self) -> (r: StatusKind)
        ensures
            r == self.spec_kind(),
    {
        self.kind
    }

    /// Decodes a raw status code; errors on an unknown table entry or on
    /// namespace three.
    pub fn parse(code: u16) -> (r: Result<Status, ProtocolError>)
        ensures
            r matches Ok(s) ==> spec_status_kind(code) == Some(s.spec_kind())
                && s.spec_code() == code,
            r is Err <==> spec_status_kind(code) is None,
    {
        let namespace = (code >> 13) & 0b11;
        if namespace == 0b00 {
            match Self::parse_gencp_status(code) {
                Ok(s) => Ok(Status { code, kind: StatusKind::GenCp(s) }),
                Err(e) => Err(e),
            }
        } else if namespace == 0b01 {
            match Self::parse_usb_status(code) {
                Ok(s) => Ok(Status { code, kind: StatusKind::UsbSpecific(s) }),
                Err(e) => Err(e),
            }
        } else if namespace == 0b10 {
            Ok(Status { code, kind: StatusKind::DeviceSpecific })
        } else {
            Err(ProtocolError::InvalidPacket)
        }
    }

    fn parse_gencp_status(code: u16) -> (r: Result<GenCpStatus, ProtocolError>)
        ensures
            r matches Ok(s) ==> spec_gencp_status(code) == Some(s),
            r is Err <==> spec_gencp_status(code) is None,
    {
        if code == 0x0000 {
            Ok(GenCpStatus::Success)
        } else if code == 0x8001 {
            Ok(GenCpStatus::NotImplemented)
        } else if code == 0x8002 {
            Ok(GenCpStatus::InvalidParameter)
        } else if code == 0x8003 {
            Ok(GenCpStatus::InvalidAddress)
        } else if code == 0x8004 {
            Ok(GenCpStatus::WriteProtect)
        } else if code == 0x8005 {
            Ok(GenCpStatus::BadAlignment)
        } else if code == 0x8006 {
            Ok(GenCpStatus::AccessDenied)
        } else if code == 0x8007 {
            Ok(GenCpStatus::Busy)
        } else if code == 0x800B {
            Ok(GenCpStatus::Timeout)
        } else if code == 0x800E {
            Ok(GenCpStatus::InvalidHeader)
        } else if code == 0x800F {
            Ok(GenCpStatus::WrongConfig)
        } else if code == 0x8FFF {
            Ok(GenCpStatus::GenericError)
        } else {
            Err(ProtocolError::InvalidPacket)
        }
    }

    fn parse_usb_status(code: u16) -> (r: Result<UsbSpecificStatus, ProtocolError>)
        ensures
            r matches Ok(s) ==> spec_usb_status(code) == Some(s),
            r is Err <==> spec_usb_status(code) is None,
    {
        if code == 0xA001 {
            Ok(UsbSpecificStatus::ResendNotSupported)
        } else if code == 0xA002 {
            Ok(UsbSpecificStatus::StreamEndpointHalted)
        } else if code == 0xA003 {
            Ok(UsbSpecificStatus::PayloadSizeNotAligned)
        } else if code == 0xA004 {
            Ok(UsbSpecificStatus::InvalidSiState)
        } else if code == 0xA005 {
            Ok(UsbSpecificStatus::EventEndpointHalted)
        } else {
            Err(ProtocolError::InvalidPacket)
        }
    }
}

/// Kind of the specific command descriptor.
#[derive(Debug, Clone, Copy, PartialEq, Eq, Structural)]
pub enum ScdKind {
    ReadMem,
    WriteMem,
    ReadMemStacked,
    WriteMemStacked,
    Pending,
    Custom(u16),
}

/// SCD kind decode: five fixed ids, and a vendor-custom id whenever both
/// bit 15 and bit 0 are set.
pub open spec fn spec_scd_kind(id: u16) -> Option<ScdKind> {
    if id == 0x0801 {
        Some(ScdKind::ReadMem)
    } else if id == 0x0803 {
        Some(ScdKind::WriteMem)
    } else if id == 0x0805 {
        Some(ScdKind::Pending)
    } else if id == 0x0807 {
        Some(ScdKind::ReadMemStacked)
    } else if id == 0x0809 {
        Some(ScdKind::WriteMemStacked)
    } else if id >> 15 == 1 && id & 1 == 1 {
        Some(ScdKind::Custom(id))
    } else {
        None
    }
}

impl ScdKind {
    pub fn parse(id: u16) -> (r: Result<ScdKind, ProtocolError>)
        ensures
            r matches Ok(k) ==> spec_scd_kind(id) == Some(k),
            r is Err <==> spec_scd_kind(id) is None,
    {
        if id == 0x0801 {
            Ok(ScdKind::ReadMem)
        } else if id == 0x0803 {
            Ok(ScdKind::WriteMem)
        } else if id == 0x0805 {
            Ok(ScdKind::Pending)
        } else if id == 0x0807 {
            Ok(ScdKind::ReadMemStacked)
        } else if id == 0x0809 {
            Ok(ScdKind::WriteMemStacked)
        } else if id >> 15 == 1 && id & 1 == 1 {
            Ok(ScdKind::Custom(id))
        } else {
            Err(ProtocolError::InvalidPacket)
        }
    }
}

/// An offset/length window into the buffer that was parsed; data-bearing
/// payloads are returned this way instead of being copied.
#[derive(Debug, Clone, Copy, PartialEq, Eq, Structural)]
pub struct ByteSpan {
    pub offset: usize,
    pub len: usize,
}

/// Specific command descriptor of an acknowledge.
#[derive(Debug, Clone, PartialEq, Eq)]
pub enum AckScd {
    /// Bytes read from the device; a window into the receive buffer.
    ReadMem { data: ByteSpan },
    /// Number of bytes the device wrote.
    WriteMem { length: u16 },
    /// Bytes of a stacked read; a window into the receive buffer.
    ReadMemStacked { data: ByteSpan },
    /// Written byte counts of a stacked write, one per entry.
    WriteMemStacked { lengths: Vec<u16> },
    /// Hint for the client's retry deadline, in milliseconds.
    Pending { timeout_ms: u16 },
    /// Payload of a vendor-custom acknowledge; a window into the buffer.
    Custom { data: ByteSpan },
}

/// Spec-level shape of a parsed SCD.
pub enum SpecAckScd {
    ReadMem { data: ByteSpan },
    WriteMem { length: u16 },
    ReadMemStacked { data: ByteSpan },
    WriteMemStacked { lengths: Seq<u16> },
    Pending { timeout_ms: u16 },
    Custom { data: ByteSpan },
}

impl View for AckScd {
    type V = SpecAckScd;

    open spec fn view(&self) -> SpecAckScd {
        match self {
            AckScd::ReadMem { data } => SpecAckScd::ReadMem { data: *data },
            AckScd::WriteMem { length } => SpecAckScd::WriteMem { length: *length },
            AckScd::ReadMemStacked { data } => SpecAckScd::ReadMemStacked { data: *data },
            AckScd::WriteMemStacked { lengths } => SpecAckScd::WriteMemStacked {
                lengths: lengths@,
            },
            AckScd::Pending { timeout_ms } => SpecAckScd::Pending { timeout_ms: *timeout_ms },
            AckScd::Custom { data } => SpecAckScd::Custom { data: *data },
        }
    }
}

/// Entries of a stacked-write SCD starting at `pos` with `budget` bytes
/// left to account for. Each entry is a reserved zero u16 followed by a
/// length u16; the budget falls by four per entry, saturating, so a
/// budget not divisible by four still terminates after the last whole
/// entry.
pub open spec fn spec_stacked_entries(s: Seq<u8>, pos: int, budget: u16) -> Option<Seq<u16>>
    decreases budget,
{
    if budget == 0 {
        Some(Seq::empty())
    } else if pos + 4 <= s.len() && spec_le16(s, pos) == 0 {
        let rest_budget: u16 = if budget >= 4 { (budget - 4) as u16 } else { 0 };
        match spec_stacked_entries(s, pos + 4, rest_budget) {
            Some(rest) => Some(seq![spec_le16(s, pos + 2)] + rest),
            None => None,
        }
    } else {
        None
    }
}

/// SCD parse for a given kind: the payload starts at offset 12 and
/// `scd_len` gives its declared length.
pub open spec fn spec_parse_scd(s: Seq<u8>, kind: ScdKind, scd_len: u16) -> Option<SpecAckScd> {
    match kind {
        ScdKind::ReadMem => if 12 + scd_len <= s.len() {
            Some(SpecAckScd::ReadMem { data: ByteSpan { offset: 12, len: scd_len as usize } })
        } else {
            None
        },
        ScdKind::WriteMem => if 16 <= s.len() && spec_le16(s, 12) == 0 {
            Some(SpecAckScd::WriteMem { length: spec_le16(s, 14) })
        } else {
            None
        },
        ScdKind::ReadMemStacked => if 12 + scd_len <= s.len() {
            Some(
                SpecAckScd::ReadMemStacked {
                    data: ByteSpan { offset: 12, len: scd_len as usize },
                },
            )
        } else {
            None
        },
        ScdKind::WriteMemStacked => match spec_stacked_entries(s, 12, scd_len) {
            Some(lengths) => Some(SpecAckScd::WriteMemStacked { lengths }),
            None => None,
        },
        ScdKind::Pending => if 16 <= s.len() && spec_le16(s, 12) == 0 {
            Some(SpecAckScd::Pending { timeout_ms: spec_le16(s, 14) })
        } else {
            None
        },
        ScdKind::Custom(_) => if 12 + scd_len <= s.len() {
            Some(SpecAckScd::Custom { data: ByteSpan { offset: 12, len: scd_len as usize } })
        } else {
            None
        },
    }
}

/// Spec-level shape of a parsed acknowledge packet.
pub struct SpecAckPacket {
    pub code: u16,
    pub kind: StatusKind,
    pub scd_kind: ScdKind,
    pub scd_len: u16,
    pub request_id: u16,
    pub scd: Option<SpecAckScd>,
}

/// The packet, if any, that a buffer holds: prefix magic, then the
/// common descriptor, then — only on Success — the specific descriptor.
/// The SCD kind field is validated whatever the status is.
pub open spec fn spec_parse_ack(s: Seq<u8>) -> Option<SpecAckPacket> {
    if s.len() < 12 {
        None
    } else if spec_le32(s, 0) != ACK_PREFIX_MAGIC {
        None
    } else {
        let code = spec_le16(s, 4);
        let scd_kind_id = spec_le16(s, 6);
        let scd_len = spec_le16(s, 8);
        let request_id = spec_le16(s, 10);
        match spec_status_kind(code) {
            None => None,
            Some(kind) => match spec_scd_kind(scd_kind_id) {
                None => None,
                Some(scd_kind) => if kind == StatusKind::GenCp(GenCpStatus::Success) {
                    match spec_parse_scd(s, scd_kind, scd_len) {
                        None => None,
                        Some(scd) => Some(
                            SpecAckPacket {
                                code,
                                kind,
                                scd_kind,
                                scd_len,
                                request_id,
                                scd: Some(scd),
                            },
                        ),
                    }
                } else {
                    Some(
                        SpecAckPacket { code, kind, scd_kind, scd_len, request_id, scd: None },
                    )
                },
            },
        }
    }
}

/// A parsed acknowledge packet.
#[derive(Debug, Clone, PartialEq, Eq)]
pub struct AckPacket {
    status: Status,
    scd_kind: ScdKind,
    scd_len: u16,
    request_id: u16,
    pub scd: Option<AckScd>,
}

impl View for AckPacket {
    type V = SpecAckPacket;

    closed spec fn view(&self) -> SpecAckPacket {
        SpecAckPacket {
            code: self.status.spec_code(),
            kind: self.status.spec_kind(),
            scd_kind: self.scd_kind,
            scd_len: self.scd_len,
            request_id: self.request_id,
            scd: match &self.scd {
                Some(scd) => Some(scd@),
                None => None,
            },
        }
    }
}

/// Reads the little-endian u16 at `pos`.
fn read_u16_at(buf: &[u8], pos: usize) -> (r: u16)
    requires
        pos + 2 <= buf@.len(),
    ensures
        r == spec_le16(buf@, pos as int),
{
    proof {
        assert(vstd::slice::spec_slice_len(buf) == buf@.len());
    }
    let sub = slice_subrange(buf, pos, pos + 2);
    u16_from_le_bytes(sub)
}

/// Reads the little-endian u32 at `pos`.
fn read_u32_at(buf: &[u8], pos: usize) -> (r: u32)
    requires
        pos + 4 <= buf@.len(),
    ensures
        r == spec_le32(buf@, pos as int),
{
    proof {
        assert(vstd::slice::spec_slice_len(buf) == buf@.len());
    }
    let sub = slice_subrange(buf, pos, pos + 4);
    u32_from_le_bytes(sub)
}

impl AckPacket {
    /// Parses an acknowledge packet from a receive buffer. Returns the
    /// packet exactly when the buffer holds a well-formed acknowledge,
    /// and `InvalidPacket` otherwise.
    pub fn parse(buf: &[u8]) -> (r: Result<AckPacket, ProtocolError>)
        ensures
            r matches Ok(p) ==> spec_parse_ack(buf@) == Some(p@),
            r is Err <==> spec_parse_ack(buf@) is None,
            r matches Ok(p) ==> p@.code == spec_le16(buf@, 4) && p@.request_id == spec_le16(
                buf@,
                10,
            ),
            r matches Ok(p) ==> (p@.scd is Some <==> p@.kind == StatusKind::GenCp(
                GenCpStatus::Success,
            )),
    {
        if buf.len() < 12 {
            return Err(ProtocolError::InvalidPacket);
        }
        let magic = read_u32_at(buf, 0);
        if magic != ACK_PREFIX_MAGIC {
            return Err(ProtocolError::InvalidPacket);
        }
        let code = read_u16_at(buf, 4);
        let scd_kind_id = read_u16_at(buf, 6);
        let scd_len = read_u16_at(buf, 8);
        let request_id = read_u16_at(buf, 10);

        let status = match Status::parse(code) {
            Ok(s) => s,
            Err(e) => {
                return Err(e);
            },
        };
        let scd_kind = match ScdKind::parse(scd_kind_id) {
            Ok(k) => k,
            Err(e) => {
                return Err(e);
            },
        };

        let scd = if status.is_success() {
            match parse_scd(buf, scd_kind, scd_len) {
                Ok(scd) => Some(scd),
                Err(e) => {
                    return Err(e);
                },
            }
        } else {
            None
        };

        Ok(AckPacket { status, scd_kind, scd_len, request_id, scd })
    }

    pub fn status(&self) -> (r: &Status)
        ensures
            r.spec_code() == self@.code,
            r.spec_kind() == self@.kind,
    {
        &self.status
    }

    pub fn request_id(&self) -> (r: u16)
        ensures
            r == self@.request_id,
    {
        self.request_id
    }

    /// The vendor-custom command id, exactly when the SCD kind is Custom.
    pub fn custom_command_id(&self) -> (r: Option<u16>)
        ensures
            r == (match self@.scd_kind {
                ScdKind::Custom(id) => Some(id),
                _ => None,
            }),
    {
        match self.scd_kind {
            ScdKind::Custom(id) => Some(id),
            _ => None,
        }
    }
}

/// Parses the specific command descriptor at offset 12.
fn parse_scd(buf: &[u8], kind: ScdKind, scd_len: u16) -> (r: Result<AckScd, ProtocolError>)
    requires
        buf@.len() >= 12,
    ensures
        r matches Ok(scd) ==> spec_parse_scd(buf@, kind, scd_len) == Some(scd@),
        r is Err <==> spec_parse_scd(buf@, kind, scd_len) is None,
{
    match kind {
        ScdKind::ReadMem => {
            match take_span(buf, scd_len) {
                Ok(data) => Ok(AckScd::ReadMem { data }),
                Err(e) => Err(e),
            }
        },
        ScdKind::WriteMem => {
            match parse_reserved_and_u16(buf) {
                Ok(length) => Ok(AckScd::WriteMem { length }),
                Err(e) => Err(e),
            }
        },
        ScdKind::ReadMemStacked => {
            match take_span(buf, scd_len) {
                Ok(data) => Ok(AckScd::ReadMemStacked { data }),
                Err(e) => Err(e),
            }
        },
        ScdKind::WriteMemStacked => {
            match parse_stacked_entries(buf, scd_len) {
                Ok(lengths) => Ok(AckScd::WriteMemStacked { lengths }),
                Err(e) => Err(e),
            }
        },
        ScdKind::Pending => {
            match parse_reserved_and_u16(buf) {
                Ok(timeout_ms) => Ok(AckScd::Pending { timeout_ms }),
                Err(e) => Err(e),
            }
        },
        ScdKind::Custom(_) => {
            match take_span(buf, scd_len) {
                Ok(data) => Ok(AckScd::Custom { data }),
                Err(e) => Err(e),
            }
        },
    }
}

/// A window of `len` bytes at offset 12, if the buffer is long enough.
fn take_span(buf: &[u8], len: u16) -> (r: Result<ByteSpan, ProtocolError>)
    requires
        buf@.len() >= 12,
    ensures
        r matches Ok(span) ==> 12 + len <= buf@.len() && span == (ByteSpan {
            offset: 12usize,
            len: len as usize,
        }),
        r is Err <==> 12 + len > buf@.len(),
{
    if buf.len() - 12 >= len as usize {
        Ok(ByteSpan { offset: 12, len: len as usize })
    } else {
        Err(ProtocolError::InvalidPacket)
    }
}

/// A reserved zero u16 at offset 12 followed by a value u16 at 14.
fn parse_reserved_and_u16(buf: &[u8]) -> (r: Result<u16, ProtocolError>)
    requires
        buf@.len() >= 12,
    ensures
        r matches Ok(v) ==> 16 <= buf@.len() && spec_le16(buf@, 12) == 0 && v == spec_le16(
            buf@,
            14,
        ),
        r is Err <==> !(16 <= buf@.len() && spec_le16(buf@, 12) == 0),
{
    if buf.len() < 16 {
        return Err(ProtocolError::InvalidPacket);
    }
    let reserved = read_u16_at(buf, 12);
    if reserved != 0 {
        return Err(ProtocolError::InvalidPacket);
    }
    Ok(read_u16_at(buf, 14))
}

/// Consumes stacked-write entries until the `scd_len` budget is spent.
fn parse_stacked_entries(buf: &[u8], scd_len: u16) -> (r: Result<Vec<u16>, ProtocolError>)
    requires
        buf@.len() >= 12,
    ensures
        r matches Ok(lengths) ==> spec_stacked_entries(buf@, 12, scd_len) == Some(lengths@),
        r is Err <==> spec_stacked_entries(buf@, 12, scd_len) is None,
{
    let mut lengths: Vec<u16> = Vec::new();
    let mut pos: usize = 12;
    let mut budget: u16 = scd_len;

    loop
        invariant
            12 <= pos <= buf@.len(),
            (match spec_stacked_entries(buf@, pos as int, budget) {
                Some(rest) => spec_stacked_entries(buf@, 12, scd_len) == Some(lengths@ + rest),
                None => spec_stacked_entries(buf@, 12, scd_len) is None,
            }),
        decreases budget,
    {
        if budget == 0 {
            proof {
                assert(lengths@ + Seq::<u16>::empty() =~= lengths@);
            }
            return Ok(lengths);
        }
        if buf.len() - pos < 4 {
            return Err(ProtocolError::InvalidPacket);
        }
        let reserved = read_u16_at(buf, pos);
        if reserved != 0 {
            return Err(ProtocolError::InvalidPacket);
        }
        let length = read_u16_at(buf, pos + 2);
        proof {
            let rest_budget: u16 = if budget >= 4 { (budget - 4) as u16 } else { 0 };
            match spec_stacked_entries(buf@, pos + 4, rest_budget) {
                Some(rest) => {
                    assert(lengths@ + (seq![spec_le16(buf@, pos + 2)] + rest) =~= (lengths@.push(
                        length,
                    ) + rest));
                },
                None => {},
            }
        }
        lengths.push(length);
        pos = pos + 4;
        budget = if budget >= 4 {
            budget - 4
        } else {
            0
        };
    }
}

/// For every buffer that parses as an acknowledge, the status code is
/// the little-endian u16 at offset 4 and the request id is the one at
/// offset 10.
pub proof fn lemma_parse_pins_header_fields(s: Seq<u8>)
    requires
        spec_parse_ack(s) is Some,
    ensures
        spec_parse_ack(s).unwrap().code == spec_le16(s, 4),
        spec_parse_ack(s).unwrap().request_id == spec_le16(s, 10),
{
}

/// A parsed acknowledge carries a specific command descriptor exactly
/// when its status is Success.
pub proof fn lemma_scd_present_iff_success(s: Seq<u8>)
    requires
        spec_parse_ack(s) is Some,
    ensures
        spec_parse_ack(s).unwrap().scd is Some <==> spec_parse_ack(s).unwrap().kind
            == StatusKind::GenCp(GenCpStatus::Success),
{
}

} // verus!
