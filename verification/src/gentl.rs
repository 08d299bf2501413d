//! GenTL device module: exposes one camera as a Device of the GenTL
//! Producer model — a port backed by the emulated register memory, an
//! open/close state machine with exclusive access, a lazily reflected
//! access-status register, and the remote-device port indirection.

use crate::device::DeviceInfo;
use crate::memory::{AccessRight, Memory, MemoryError, MemoryObserver, MemoryResult, RawRegister,
    Register, spec_splice};
use vstd::bytes::{lemma_auto_spec_u32_to_from_le_bytes, spec_u32_from_le_bytes,
    spec_u32_to_le_bytes, u32_from_le_bytes, u32_to_le_bytes};
use vstd::prelude::*;
use vstd::slice::{slice_index_get, slice_subrange, slice_to_vec};
use vstd::string::StrSliceExecFns;

verus! {

/// Error of the GenTL layer.
#[derive(Debug, Clone, Copy, PartialEq, Eq, Structural)]
pub enum GenTlError {
    /// A port was used while the device is not opened.
    NotInitialized,
    /// The requested access is not allowed.
    AccessDenied,
    /// The device is already in use.
    ResourceInUse,
    /// The address does not exist in the port's memory.
    InvalidAddress,
    /// A value was rejected.
    InvalidValue,
    /// Input/output failure of the transport.
    Io,
    /// The information asked for is not provided by the device.
    NotAvailable,
}

pub type GenTlResult<T> = Result<T, GenTlError>;

/// The GenTL error a memory failure surfaces as through a port.
pub open spec fn spec_gentl_of_memory_error(e: MemoryError) -> GenTlError {
    match e {
        MemoryError::InvalidAddress => GenTlError::InvalidAddress,
        MemoryError::AddressNotReadable => GenTlError::AccessDenied,
        MemoryError::AddressNotWritable => GenTlError::AccessDenied,
        MemoryError::InvalidRegisterData => GenTlError::InvalidValue,
    }
}

/// Maps a memory failure to the GenTL error it surfaces as.
pub fn gentl_of_memory_error(e: MemoryError) -> (r: GenTlError)
    ensures
        r == spec_gentl_of_memory_error(e),
{
    match e {
        MemoryError::InvalidAddress => GenTlError::InvalidAddress,
        MemoryError::AddressNotReadable => GenTlError::AccessDenied,
        MemoryError::AddressNotWritable => GenTlError::AccessDenied,
        MemoryError::InvalidRegisterData => GenTlError::InvalidValue,
    }
}

/// Access status of a device as the GenTL consumer sees it.
#[derive(Debug, Clone, Copy, PartialEq, Eq, Structural)]
pub enum DeviceAccessStatus {
    /// Not known to this producer.
    Unknown,
    /// Available for read/write access.
    ReadWrite,
    /// Available for read access only.
    ReadOnly,
    /// Not accessible.
    NoAccess,
    /// Already opened by another entity.
    Busy,
    /// Opened by this producer for read/write.
    OpenReadWrite,
    /// Opened by this producer for reading.
    OpenReadOnly,
}

impl DeviceAccessStatus {
    /// Numeric encoding stored in the access-status register.
    pub open spec fn spec_as_num(self) -> u32 {
        match self {
            DeviceAccessStatus::Unknown => 0,
            DeviceAccessStatus::ReadWrite => 1,
            DeviceAccessStatus::ReadOnly => 2,
            DeviceAccessStatus::NoAccess => 3,
            DeviceAccessStatus::Busy => 4,
            DeviceAccessStatus::OpenReadWrite => 5,
            DeviceAccessStatus::OpenReadOnly => 6,
        }
    }

    pub open spec fn spec_from_num(num: u32) -> Option<DeviceAccessStatus> {
        if num == 0 {
            Some(DeviceAccessStatus::Unknown)
        } else if num == 1 {
            Some(DeviceAccessStatus::ReadWrite)
        } else if num == 2 {
            Some(DeviceAccessStatus::ReadOnly)
        } else if num == 3 {
            Some(DeviceAccessStatus::NoAccess)
        } else if num == 4 {
            Some(DeviceAccessStatus::Busy)
        } else if num == 5 {
            Some(DeviceAccessStatus::OpenReadWrite)
        } else if num == 6 {
            Some(DeviceAccessStatus::OpenReadOnly)
        } else {
            None
        }
    }

    /// A status counts as opened exactly when this producer holds the
    /// device open.
    pub open spec fn spec_is_opened(self) -> bool {
        self == DeviceAccessStatus::OpenReadWrite || self == DeviceAccessStatus::OpenReadOnly
    }

    pub fn as_num(self) -> (r: u32)
        ensures
            r == self.spec_as_num(),
    {
        match self {
            DeviceAccessStatus::Unknown => 0,
            DeviceAccessStatus::ReadWrite => 1,
            DeviceAccessStatus::ReadOnly => 2,
            DeviceAccessStatus::NoAccess => 3,
            DeviceAccessStatus::Busy => 4,
            DeviceAccessStatus::OpenReadWrite => 5,
            DeviceAccessStatus::OpenReadOnly => 6,
        }
    }

    pub fn from_num(num: u32) -> (r: Option<DeviceAccessStatus>)
        ensures
            r == DeviceAccessStatus::spec_from_num(num),
    {
        if num == 0 {
            Some(DeviceAccessStatus::Unknown)
        } else if num == 1 {
            Some(DeviceAccessStatus::ReadWrite)
        } else if num == 2 {
            Some(DeviceAccessStatus::ReadOnly)
        } else if num == 3 {
            Some(DeviceAccessStatus::NoAccess)
        } else if num == 4 {
            Some(DeviceAccessStatus::Busy)
        } else if num == 5 {
            Some(DeviceAccessStatus::OpenReadWrite)
        } else if num == 6 {
            Some(DeviceAccessStatus::OpenReadOnly)
        } else {
            None
        }
    }

    pub fn is_opened(self) -> (r: bool)
        ensures
            r == self.spec_is_opened(),
    {
        match self {
            DeviceAccessStatus::OpenReadWrite => true,
            DeviceAccessStatus::OpenReadOnly => true,
            _ => false,
        }
    }
}

/// The access requested when opening a device; only exclusive access is
/// granted.
#[derive(Debug, Clone, Copy, PartialEq, Eq, Structural)]
pub enum DeviceAccessFlag {
    /// Read access only.
    ReadOnly,
    /// Control access, shared with other readers.
    Control,
    /// Exclusive control access.
    Exclusive,
}

/// A three-part version number.
#[derive(Debug, Clone, Copy, PartialEq, Eq, Structural)]
pub struct Version {
    pub major: u64,
    pub minor: u64,
    pub patch: u64,
}

/// Compression of an XML description on the device.
#[derive(Debug, Clone, Copy, PartialEq, Eq, Structural)]
pub enum CompressionType {
    Uncompressed,
    Zip,
}

/// Transport layer type of a module.
#[derive(Debug, Clone, Copy, PartialEq, Eq, Structural)]
pub enum TlType {
    USB3Vision,
}

/// Kind of a GenTL module.
#[derive(Debug, Clone, Copy, PartialEq, Eq, Structural)]
pub enum ModuleType {
    System,
    Interface,
    Device,
    DataStream,
    RemoteDevice,
}

/// Byte order of a port.
#[derive(Debug, Clone, Copy, PartialEq, Eq, Structural)]
pub enum Endianness {
    LE,
    BE,
}

/// Access the consumer has to a port.
#[derive(Debug, Clone, Copy, PartialEq, Eq, Structural)]
pub enum PortAccess {
    RO,
    WO,
    RW,
    NA,
}

/// Static description of a port.
#[derive(Debug, Clone, PartialEq, Eq)]
pub struct PortInfo {
    pub id: String,
    pub vendor: String,
    pub model: String,
    pub tl_type: TlType,
    pub module_type: ModuleType,
    pub endianness: Endianness,
    pub access: PortAccess,
    pub version: Version,
    pub port_name: String,
}

/// Where an XML GenApi description lives.
#[derive(Debug, Clone, Copy, PartialEq, Eq, Structural)]
pub enum XmlLocation {
    /// Inside the device's register map.
    RegisterMap { address: u64, size: usize },
}

/// One XML GenApi description available on the device.
#[derive(Debug, Clone, PartialEq, Eq)]
pub struct XmlInfo {
    pub location: XmlLocation,
    pub schema_version: Version,
    pub file_version: Version,
    pub sha1_hash: Option<[u8; 20]>,
    pub compressed: CompressionType,
}

// ------------------------------------------------------------------
// The local register map of the device module's emulated memory.

/// Size of the emulated memory backing the device port.
pub const MEMORY_SIZE: usize = 1024;

/// Address of the XML GenApi description inside the emulated memory.
pub const XML_ADDRESS: u64 = 512;

/// Length of the XML region.
pub const XML_LENGTH: usize = 512;

/// A register of four little-endian bytes read and written as a u32.
pub struct U32Reg<const OFFSET: usize>;

impl<const OFFSET: usize> Register for U32Reg<OFFSET> {
    type Ty = u32;

    open spec fn spec_raw() -> RawRegister {
        RawRegister { offset: OFFSET, len: 4 }
    }

    open spec fn spec_parse(data: Seq<u8>) -> Option<u32> {
        if data.len() == 4 {
            Some(spec_u32_from_le_bytes(data))
        } else {
            None
        }
    }

    open spec fn spec_serialize(v: u32) -> Option<Seq<u8>> {
        Some(spec_u32_to_le_bytes(v))
    }

    proof fn lemma_serialize_wf(v: u32) {
        lemma_auto_spec_u32_to_from_le_bytes();
    }

    fn raw() -> (r: RawRegister) {
        RawRegister::new(OFFSET, 4)
    }

    fn parse(data: &[u8]) -> (r: MemoryResult<u32>) {
        Ok(u32_from_le_bytes(data))
    }

    fn serialize(data: u32) -> (r: MemoryResult<Vec<u8>>) {
        proof {
            lemma_auto_spec_u32_to_from_le_bytes();
        }
        Ok(u32_to_le_bytes(data))
    }
}

/// Index of the first nul byte, or the length when none occurs.
pub open spec fn spec_nul_pos(data: Seq<u8>) -> int
    decreases data.len(),
{
    if data.len() == 0 {
        0
    } else if data[0] == 0 {
        0
    } else {
        1 + spec_nul_pos(data.drop_first())
    }
}

/// The first nul is where the scan says it is: if everything below `pos`
/// is non-nul and `pos` is the end or a nul, the first nul sits at `pos`.
proof fn lemma_nul_pos(data: Seq<u8>, pos: int)
    requires
        0 <= pos <= data.len(),
        forall|j: int| 0 <= j < pos ==> data[j] != 0,
        pos == data.len() || data[pos] == 0,
    ensures
        spec_nul_pos(data) == pos,
    decreases data.len(),
{
    if data.len() == 0 {
    } else if data[0] == 0 {
        assert(pos == 0);
    } else {
        assert(forall|j: int| 0 <= j < pos - 1 ==> data.drop_first()[j] == data[j + 1]);
        lemma_nul_pos(data.drop_first(), pos - 1);
    }
}

/// The first nul never lies beyond the end.
proof fn lemma_nul_pos_bounds(data: Seq<u8>)
    ensures
        0 <= spec_nul_pos(data) <= data.len(),
    decreases data.len(),
{
    if data.len() > 0 && data[0] != 0 {
        lemma_nul_pos_bounds(data.drop_first());
    }
}

/// A fixed-length string register: the stored form is the value padded
/// with nul bytes to `LEN`, the parsed value is everything before the
/// first nul. Values holding a nul byte or longer than `LEN` are
/// rejected at serialization.
pub struct StringReg<const OFFSET: usize, const LEN: usize>;

impl<const OFFSET: usize, const LEN: usize> Register for StringReg<OFFSET, LEN> {
    type Ty = Vec<u8>;

    open spec fn spec_raw() -> RawRegister {
        RawRegister { offset: OFFSET, len: LEN }
    }

    open spec fn spec_parse(data: Seq<u8>) -> Option<Seq<u8>> {
        if data.len() == LEN {
            Some(data.take(spec_nul_pos(data)))
        } else {
            None
        }
    }

    open spec fn spec_serialize(v: Seq<u8>) -> Option<Seq<u8>> {
        if v.len() <= LEN && (forall|i: int| 0 <= i < v.len() ==> v[i] != 0) {
            Some(v + Seq::new((LEN - v.len()) as nat, |i: int| 0u8))
        } else {
            None
        }
    }

    proof fn lemma_serialize_wf(v: Seq<u8>) {
        if v.len() <= LEN && (forall|i: int| 0 <= i < v.len() ==> v[i] != 0) {
            let padded = v + Seq::new((LEN - v.len()) as nat, |i: int| 0u8);
            lemma_nul_pos(padded, v.len() as int);
            assert(padded.take(v.len() as int) =~= v);
        }
    }

    fn raw() -> (r: RawRegister) {
        RawRegister::new(OFFSET, LEN)
    }

    fn parse(data: &[u8]) -> (r: MemoryResult<Vec<u8>>) {
        let mut pos: usize = 0;
        let len = data.len();
        while pos < len && *slice_index_get(data, pos) != 0
            invariant
                0 <= pos <= len,
                len == data@.len(),
                forall|j: int| 0 <= j < pos ==> data@[j] != 0,
            decreases len - pos,
        {
            pos = pos + 1;
        }
        proof {
            lemma_nul_pos(data@, pos as int);
        }
        let head = slice_subrange(data, 0, pos);
        let out = slice_to_vec(head);
        proof {
            assert(out@ =~= data@.take(spec_nul_pos(data@)));
        }
        Ok(out)
    }

    fn serialize(data: Vec<u8>) -> (r: MemoryResult<Vec<u8>>) {
        let len = data.len();
        if len > LEN {
            return Err(MemoryError::InvalidRegisterData);
        }
        let mut out: Vec<u8> = Vec::new();
        let mut i: usize = 0;
        while i < len
            invariant
                0 <= i <= len,
                len == data@.len(),
                out@.len() == i,
                forall|j: int| 0 <= j < i ==> out@[j] == data@[j],
                forall|j: int| 0 <= j < i ==> data@[j] != 0,
            decreases len - i,
        {
            let b = data[i];
            if b == 0 {
                return Err(MemoryError::InvalidRegisterData);
            }
            out.push(b);
            i = i + 1;
        }
        while i < LEN
            invariant
                len <= i <= LEN,
                len == data@.len(),
                out@.len() == i,
                forall|j: int| 0 <= j < len ==> out@[j] == data@[j] && data@[j] != 0,
                forall|j: int| len <= j < i ==> out@[j] == 0u8,
            decreases LEN - i,
        {
            out.push(0);
            i = i + 1;
        }
        proof {
            assert(out@ =~= data@ + Seq::new((LEN - data@.len()) as nat, |k: int| 0u8));
        }
        Ok(out)
    }
}

/// Reflection of the device module's access status, read by the GenTL
/// consumer.
pub type DeviceAccessStatusReg = U32Reg<0>;

/// Globally unique id of the device.
pub type DeviceIDReg = StringReg<4, 64>;

/// Vendor name of the device.
pub type DeviceVendorNameReg = StringReg<68, 64>;

/// Model name of the device.
pub type DeviceModelNameReg = StringReg<132, 64>;

/// Name the user may assign to the device; the one writable register.
pub type UserDefinedNameReg = StringReg<196, 64>;

/// Observer type of a memory on which nothing is watched.
pub struct NullObserver;

impl MemoryObserver for NullObserver {
    fn update(&mut self) {
    }
}

/// Vendor name this producer reports for the local device port.
pub fn genapi_vendor_name() -> (r: &'static str)
    ensures
        r@ == spec_genapi_vendor_name(),
{
    "Cameleon"
}

pub open spec fn spec_genapi_vendor_name() -> Seq<char> {
    "Cameleon"@
}

/// Model name this producer reports for the local device port.
pub fn genapi_model_name() -> (r: &'static str)
    ensures
        r@ == spec_genapi_model_name(),
{
    "CameleonU3V"
}

pub open spec fn spec_genapi_model_name() -> Seq<char> {
    "CameleonU3V"@
}

/// Name of the local device port.
pub fn genapi_port_name() -> (r: &'static str)
    ensures
        r@ == spec_genapi_port_name(),
{
    "DevicePort"
}

pub open spec fn spec_genapi_port_name() -> Seq<char> {
    "DevicePort"@
}

/// GenApi version of the local register description.
pub fn genapi_version() -> (r: Version)
    ensures
        r == (Version { major: 1, minor: 0, patch: 0 }),
{
    Version { major: 1, minor: 0, patch: 0 }
}

/// Schema version of the local register description.
pub fn genapi_schema_version() -> (r: Version)
    ensures
        r == (Version { major: 1, minor: 1, patch: 0 }),
{
    Version { major: 1, minor: 1, patch: 0 }
}

/// The description of the XML GenApi file in the local register map.
pub open spec fn spec_local_xml_info() -> XmlInfo {
    XmlInfo {
        location: XmlLocation::RegisterMap { address: XML_ADDRESS, size: XML_LENGTH },
        schema_version: Version { major: 1, minor: 1, patch: 0 },
        file_version: Version { major: 1, minor: 0, patch: 0 },
        sha1_hash: None,
        compressed: CompressionType::Uncompressed,
    }
}

/// A value fits a 64-byte string register: at most 64 bytes, no nul.
pub open spec fn spec_reg_value_fits(bytes: Seq<u8>) -> bool {
    bytes.len() <= 64 && (forall|i: int| 0 <= i < bytes.len() ==> bytes[i] != 0)
}

/// Access right of each byte of the fresh local memory: the identity
/// registers are read-only, the user-defined name is read/write, the XML
/// region is read-only, everything else is inaccessible.
pub open spec fn spec_initial_right(i: int) -> AccessRight {
    if 0 <= i < 196 {
        AccessRight::RO
    } else if 196 <= i < 260 {
        AccessRight::RW
    } else if 512 <= i < 1024 {
        AccessRight::RO
    } else {
        AccessRight::NA
    }
}

/// The remote-device port: its description and XML manifest are read
/// from the device's bootstrap registers when the device is opened; the
/// register traffic itself runs over the control channel outside this
/// module.
#[derive(Debug, Clone, PartialEq, Eq)]
pub struct U3VRemoteDevice {
    port_info: PortInfo,
    xml_infos: Vec<XmlInfo>,
}

impl U3VRemoteDevice {
    pub closed spec fn spec_port_info(&self) -> PortInfo {
        self.port_info
    }

    pub closed spec fn spec_xml_infos(&self) -> Seq<XmlInfo> {
        self.xml_infos@
    }

    pub fn new(port_info: PortInfo, xml_infos: Vec<XmlInfo>) -> (r: U3VRemoteDevice)
        ensures
            r.spec_port_info() == port_info,
            r.spec_xml_infos() == xml_infos@,
    {
        U3VRemoteDevice { port_info, xml_infos }
    }

    pub fn port_info(&self) -> (r: &PortInfo)
        ensures
            r == self.spec_port_info(),
    {
        &self.port_info
    }

    pub fn xml_infos(&self) -> (r: &Vec<XmlInfo>)
        ensures
            r@ == self.spec_xml_infos(),
    {
        &self.xml_infos
    }
}

/// One entry of the device's manifest table, already read from the
/// bootstrap registers: where one XML description lives and how it is
/// stored.
#[derive(Debug, Clone, Copy, PartialEq, Eq)]
pub struct ManifestEntry {
    pub file_address: u64,
    pub file_size: u64,
    pub schema_version: Version,
    pub file_version: Version,
    pub sha1_hash: Option<[u8; 20]>,
    pub compressed: CompressionType,
}

/// The XML description named by one manifest entry.
pub open spec fn spec_xml_info_of(e: ManifestEntry) -> XmlInfo {
    XmlInfo {
        location: XmlLocation::RegisterMap {
            address: e.file_address,
            size: e.file_size as usize,
        },
        schema_version: e.schema_version,
        file_version: e.file_version,
        sha1_hash: e.sha1_hash,
        compressed: e.compressed,
    }
}

/// The port description of the remote device, assembled from the values
/// read out of its bootstrap registers.
pub fn remote_port_info(id: String, vendor: String, model: String, gencp_version: Version)
    -> (r: PortInfo)
    ensures
        r.id@ == id@,
        r.vendor@ == vendor@,
        r.model@ == model@,
        r.tl_type == TlType::USB3Vision,
        r.module_type == ModuleType::RemoteDevice,
        r.endianness == Endianness::LE,
        r.access == PortAccess::RW,
        r.version == gencp_version,
        r.port_name@ == "Device"@,
{
    PortInfo {
        id,
        vendor,
        model,
        tl_type: TlType::USB3Vision,
        module_type: ModuleType::RemoteDevice,
        endianness: Endianness::LE,
        access: PortAccess::RW,
        version: gencp_version,
        port_name: String::from_str("Device"),
    }
}

/// The XML descriptions of the remote device, one per manifest entry, in
/// table order.
pub fn remote_xml_infos(entries: &Vec<ManifestEntry>) -> (r: Vec<XmlInfo>)
    requires
        forall|i: int| 0 <= i < entries@.len() ==> entries@[i].file_size <= usize::MAX,
    ensures
        r@.len() == entries@.len(),
        forall|i: int| 0 <= i < entries@.len() ==> r@[i] == spec_xml_info_of(entries@[i]),
{
    let mut out: Vec<XmlInfo> = Vec::new();
    let mut i: usize = 0;
    let n = entries.len();
    while i < n
        invariant
            i <= n,
            n == entries@.len(),
            out@.len() == i,
            forall|k: int| 0 <= k < entries@.len() ==> entries@[k].file_size <= usize::MAX,
            forall|k: int| 0 <= k < i ==> out@[k] == spec_xml_info_of(entries@[k]),
        decreases n - i,
    {
        let ent = &entries[i];
        let info = XmlInfo {
            location: XmlLocation::RegisterMap {
                address: ent.file_address,
                size: ent.file_size as usize,
            },
            schema_version: ent.schema_version,
            file_version: ent.file_version,
            sha1_hash: ent.sha1_hash,
            compressed: ent.compressed,
        };
        out.push(info);
        i = i + 1;
    }
    out
}

/// Ticks of the device clock are `timestamp_increment` nanoseconds
/// apart; the clock frequency in hertz follows.
pub fn timestamp_frequency_from_increment(timestamp_increment: u64) -> (r: u64)
    requires
        timestamp_increment >= 1,
    ensures
        r == 1_000_000_000u64 / timestamp_increment,
{
    1_000_000_000u64 / timestamp_increment
}

/// Encoding and decoding of the access status round-trip.
proof fn lemma_status_num_roundtrip(s: DeviceAccessStatus)
    ensures
        DeviceAccessStatus::spec_from_num(s.spec_as_num()) == Some(s),
{
}

/// The status a finished open attempt leaves the device in: an access
/// conflict marks it busy, a transport failure unreachable, anything
/// else unknown.
pub open spec fn spec_status_after_open(outcome: GenTlResult<()>) -> DeviceAccessStatus {
    match outcome {
        Ok(_) => DeviceAccessStatus::OpenReadWrite,
        Err(GenTlError::AccessDenied) => DeviceAccessStatus::Busy,
        Err(GenTlError::Io) => DeviceAccessStatus::NoAccess,
        Err(_) => DeviceAccessStatus::Unknown,
    }
}

/// The status a finished close attempt leaves the device in.
pub open spec fn spec_status_after_close(outcome: GenTlResult<()>) -> DeviceAccessStatus {
    match outcome {
        Ok(_) => DeviceAccessStatus::ReadWrite,
        Err(GenTlError::Io) => DeviceAccessStatus::NoAccess,
        Err(_) => DeviceAccessStatus::Unknown,
    }
}

/// One camera exposed as a GenTL Device: the local register memory, the
/// port description, the open/close state machine and, while opened, the
/// remote-device port.
pub struct U3VDeviceModule {
    vm: Memory<NullObserver>,
    port_info: PortInfo,
    xml_infos: Vec<XmlInfo>,
    device_info: DeviceInfo,
    remote: Option<U3VRemoteDevice>,
    current_status: DeviceAccessStatus,
}

impl U3VDeviceModule {
    pub closed spec fn spec_vm_data(&self) -> Seq<u8> {
        self.vm.spec_data()
    }

    pub closed spec fn spec_vm_rights(&self) -> Seq<AccessRight> {
        self.vm.spec_rights()
    }

    /// The true current status; the register reflects it only lazily.
    pub closed spec fn spec_current_status(&self) -> DeviceAccessStatus {
        self.current_status
    }

    pub open spec fn spec_is_opened(&self) -> bool {
        self.spec_current_status().spec_is_opened()
    }

    pub closed spec fn spec_has_remote(&self) -> bool {
        self.remote is Some
    }

    pub closed spec fn spec_remote(&self) -> U3VRemoteDevice {
        self.remote.unwrap()
    }

    pub closed spec fn spec_port_info(&self) -> PortInfo {
        self.port_info
    }

    pub closed spec fn spec_xml_infos(&self) -> Seq<XmlInfo> {
        self.xml_infos@
    }

    pub closed spec fn spec_device_info(&self) -> DeviceInfo {
        self.device_info
    }

    /// The raw value of the access-status register.
    pub open spec fn spec_reg_status_num(&self) -> u32 {
        spec_u32_from_le_bytes(self.spec_vm_data().subrange(0, 4))
    }

    /// The decoded access-status register.
    pub open spec fn spec_reg_status(&self) -> DeviceAccessStatus {
        DeviceAccessStatus::spec_from_num(self.spec_reg_status_num()).unwrap()
    }

    pub closed spec fn wf(&self) -> bool {
        &&& self.vm.wf()
        &&& self.vm.spec_size() == MEMORY_SIZE
        &&& self.vm.spec_rights().len() == MEMORY_SIZE
        &&& (forall|i: int|
            0 <= i < MEMORY_SIZE ==> #[trigger] self.vm.spec_rights()[i]
                == spec_initial_right(i))
        &&& DeviceAccessStatus::spec_from_num(self.spec_reg_status_num()) is Some
        &&& (self.spec_is_opened() ==> self.remote is Some)
    }

    /// Builds the module for one enumerated device: sets up the local
    /// memory and its access rights, stores the identity registers and
    /// reflects the fresh Unknown status. Fails exactly when one of the
    /// device's identity strings does not fit its register.
    pub fn new(device_info: DeviceInfo) -> (r: GenTlResult<U3VDeviceModule>)
        ensures
            r is Ok <==> (spec_reg_value_fits(vstd::utf8::encode_utf8(device_info.guid@))
                && spec_reg_value_fits(vstd::utf8::encode_utf8(device_info.vendor_name@))
                && spec_reg_value_fits(vstd::utf8::encode_utf8(device_info.model_name@))),
            r matches Ok(m) ==> {
                &&& m.wf()
                &&& m.spec_current_status() == DeviceAccessStatus::Unknown
                &&& m.spec_reg_status() == DeviceAccessStatus::Unknown
                &&& !m.spec_has_remote()
                &&& m.spec_device_info() == device_info
                &&& m.spec_port_info().id@ == device_info.guid@
                &&& m.spec_port_info().vendor@ == spec_genapi_vendor_name()
                &&& m.spec_port_info().model@ == spec_genapi_model_name()
                &&& m.spec_port_info().tl_type == TlType::USB3Vision
                &&& m.spec_port_info().module_type == ModuleType::Device
                &&& m.spec_port_info().endianness == Endianness::LE
                &&& m.spec_port_info().access == PortAccess::RW
                &&& m.spec_port_info().port_name@ == spec_genapi_port_name()
                &&& m.spec_xml_infos() =~= seq![spec_local_xml_info()]
                &&& crate::memory::spec_typed_read::<DeviceIDReg>(m.spec_vm_data()) == Some(
                    vstd::utf8::encode_utf8(device_info.guid@),
                )
                &&& crate::memory::spec_typed_read::<DeviceVendorNameReg>(m.spec_vm_data())
                    == Some(vstd::utf8::encode_utf8(device_info.vendor_name@))
                &&& crate::memory::spec_typed_read::<DeviceModelNameReg>(m.spec_vm_data())
                    == Some(vstd::utf8::encode_utf8(device_info.model_name@))
            },
    {
        let mut vm: Memory<NullObserver> = Memory::new(MEMORY_SIZE);
        vm.set_access_right::<DeviceAccessStatusReg>(AccessRight::RO);
        vm.set_access_right::<DeviceIDReg>(AccessRight::RO);
        vm.set_access_right::<DeviceVendorNameReg>(AccessRight::RO);
        vm.set_access_right::<DeviceModelNameReg>(AccessRight::RO);
        vm.set_access_right::<UserDefinedNameReg>(AccessRight::RW);
        vm.set_access_right_with_range(512..1024, AccessRight::RO);

        let port_info = PortInfo {
            id: device_info.guid.clone(),
            vendor: String::from_str(genapi_vendor_name()),
            model: String::from_str(genapi_model_name()),
            tl_type: TlType::USB3Vision,
            module_type: ModuleType::Device,
            endianness: Endianness::LE,
            access: PortAccess::RW,
            version: genapi_version(),
            port_name: String::from_str(genapi_port_name()),
        };

        let xml_info = XmlInfo {
            location: XmlLocation::RegisterMap { address: XML_ADDRESS, size: XML_LENGTH },
            schema_version: genapi_schema_version(),
            file_version: genapi_version(),
            sha1_hash: None,
            compressed: CompressionType::Uncompressed,
        };
        let mut xml_infos: Vec<XmlInfo> = Vec::new();
        xml_infos.push(xml_info);

        let ghost m0 = vm.spec_data();
        match vm.write::<DeviceAccessStatusReg>(DeviceAccessStatus::Unknown.as_num()) {
            Ok(_) => {},
            Err(_) => {
                proof {
                    assert(false);
                }
            },
        }
        proof {
            lemma_auto_spec_u32_to_from_le_bytes();
            crate::memory::lemma_typed_write_then_read::<DeviceAccessStatusReg>(
                m0,
                DeviceAccessStatus::Unknown.spec_as_num(),
            );
            lemma_status_num_roundtrip(DeviceAccessStatus::Unknown);
            let bytes = spec_u32_to_le_bytes(DeviceAccessStatus::Unknown.spec_as_num());
            assert(vm.spec_data() == spec_splice(m0, 0, bytes));
            assert(vm.spec_data().subrange(0, 4) =~= bytes);
        }

        let mut dev = U3VDeviceModule {
            vm,
            port_info,
            xml_infos,
            device_info,
            remote: None,
            current_status: DeviceAccessStatus::Unknown,
        };

        match dev.initialize_vm() {
            Ok(_) => Ok(dev),
            Err(e) => Err(e),
        }
    }

    /// Stores the identity registers from the descriptor and reflects
    /// the current status; fails exactly when one string does not fit.
    fn initialize_vm(&mut self) -> (r: GenTlResult<()>)
        requires
            old(self).wf(),
        ensures
            final(self).wf(),
            r is Ok <==> (spec_reg_value_fits(
                vstd::utf8::encode_utf8(old(self).spec_device_info().guid@),
            ) && spec_reg_value_fits(
                vstd::utf8::encode_utf8(old(self).spec_device_info().vendor_name@),
            ) && spec_reg_value_fits(
                vstd::utf8::encode_utf8(old(self).spec_device_info().model_name@),
            )),
            final(self).spec_current_status() == old(self).spec_current_status(),
            final(self).spec_device_info() == old(self).spec_device_info(),
            final(self).spec_port_info() == old(self).spec_port_info(),
            final(self).spec_xml_infos() == old(self).spec_xml_infos(),
            final(self).spec_has_remote() == old(self).spec_has_remote(),
            final(self).spec_remote() == old(self).spec_remote(),
            final(self).spec_vm_rights() == old(self).spec_vm_rights(),
            r is Ok ==> {
                &&& final(self).spec_reg_status() == old(self).spec_current_status()
                &&& crate::memory::spec_typed_read::<DeviceIDReg>(final(self).spec_vm_data())
                    == Some(vstd::utf8::encode_utf8(old(self).spec_device_info().guid@))
                &&& crate::memory::spec_typed_read::<DeviceVendorNameReg>(
                    final(self).spec_vm_data(),
                ) == Some(
                    vstd::utf8::encode_utf8(old(self).spec_device_info().vendor_name@),
                )
                &&& crate::memory::spec_typed_read::<DeviceModelNameReg>(
                    final(self).spec_vm_data(),
                ) == Some(
                    vstd::utf8::encode_utf8(old(self).spec_device_info().model_name@),
                )
            },
    {
        let id_bytes = self.device_info.guid.as_str().as_bytes_vec();
        match self.vm.write::<DeviceIDReg>(id_bytes) {
            Ok(_) => {},
            Err(e) => {
                return Err(gentl_of_memory_error(e));
            },
        }
        let ghost m1 = self.vm.spec_data();
        proof {
            crate::memory::lemma_typed_write_then_read::<DeviceIDReg>(
                old(self).spec_vm_data(),
                vstd::utf8::encode_utf8(old(self).spec_device_info().guid@),
            );
            assert(m1.subrange(0, 4) =~= old(self).spec_vm_data().subrange(0, 4));
        }

        let vendor_bytes = self.device_info.vendor_name.as_str().as_bytes_vec();
        match self.vm.write::<DeviceVendorNameReg>(vendor_bytes) {
            Ok(_) => {},
            Err(e) => {
                return Err(gentl_of_memory_error(e));
            },
        }
        let ghost m2 = self.vm.spec_data();
        proof {
            crate::memory::lemma_typed_write_then_read::<DeviceVendorNameReg>(
                m1,
                vstd::utf8::encode_utf8(old(self).spec_device_info().vendor_name@),
            );
            assert(m2.subrange(0, 4) =~= m1.subrange(0, 4));
            assert(m2.subrange(4, 68) =~= m1.subrange(4, 68));
        }

        let model_bytes = self.device_info.model_name.as_str().as_bytes_vec();
        match self.vm.write::<DeviceModelNameReg>(model_bytes) {
            Ok(_) => {},
            Err(e) => {
                return Err(gentl_of_memory_error(e));
            },
        }
        let ghost m3 = self.vm.spec_data();
        proof {
            crate::memory::lemma_typed_write_then_read::<DeviceModelNameReg>(
                m2,
                vstd::utf8::encode_utf8(old(self).spec_device_info().model_name@),
            );
            assert(m3.subrange(0, 4) =~= m2.subrange(0, 4));
            assert(m3.subrange(4, 68) =~= m2.subrange(4, 68));
            assert(m3.subrange(68, 132) =~= m2.subrange(68, 132));
        }

        self.reflect_status();
        proof {
            let m4 = self.vm.spec_data();
            assert(m4.subrange(4, 68) =~= m3.subrange(4, 68));
            assert(m4.subrange(68, 132) =~= m3.subrange(68, 132));
            assert(m4.subrange(132, 196) =~= m3.subrange(132, 196));
        }
        Ok(())
    }

    /// Writes the current status into the access-status register. The
    /// register is updated only here: between calls it keeps the stale
    /// snapshot the GenTL consumer expects.
    pub fn reflect_status(&mut self)
        requires
            old(self).wf(),
        ensures
            final(self).wf(),
            final(self).spec_reg_status() == old(self).spec_current_status(),
            final(self).spec_current_status() == old(self).spec_current_status(),
            final(self).spec_device_info() == old(self).spec_device_info(),
            final(self).spec_port_info() == old(self).spec_port_info(),
            final(self).spec_xml_infos() == old(self).spec_xml_infos(),
            final(self).spec_has_remote() == old(self).spec_has_remote(),
            final(self).spec_remote() == old(self).spec_remote(),
            final(self).spec_vm_rights() == old(self).spec_vm_rights(),
            final(self).spec_vm_data().len() == old(self).spec_vm_data().len(),
            forall|i: int|
                4 <= i < old(self).spec_vm_data().len() ==> final(self).spec_vm_data()[i]
                    == old(self).spec_vm_data()[i],
    {
        let num = self.current_status.as_num();
        let ghost m0 = self.vm.spec_data();
        match self.vm.write::<DeviceAccessStatusReg>(num) {
            Ok(_) => {},
            Err(_) => {
                proof {
                    assert(false);
                }
            },
        }
        proof {
            lemma_auto_spec_u32_to_from_le_bytes();
            crate::memory::lemma_typed_write_then_read::<DeviceAccessStatusReg>(
                m0,
                old(self).spec_current_status().spec_as_num(),
            );
            lemma_status_num_roundtrip(old(self).spec_current_status());
            let bytes = spec_u32_to_le_bytes(old(self).spec_current_status().spec_as_num());
            assert(self.vm.spec_data() == spec_splice(m0, 0, bytes));
            assert(self.vm.spec_data().subrange(0, 4) =~= bytes);
            assert(self.vm.spec_data().len() == m0.len());
            assert(forall|i: int|
                4 <= i < m0.len() ==> self.vm.spec_data()[i] == m0[i]);
        }
    }

    /// The decoded value of the access-status register. Call
    /// `reflect_status` first to observe a fresh value.
    pub fn access_status(&self) -> (r: DeviceAccessStatus)
        requires
            self.wf(),
        ensures
            r == self.spec_reg_status(),
    {
        let raw = match self.vm.read::<DeviceAccessStatusReg>() {
            Ok(v) => v,
            Err(_) => {
                proof {
                    assert(false);
                }
                0
            },
        };
        match DeviceAccessStatus::from_num(raw) {
            Some(s) => s,
            None => {
                proof {
                    assert(false);
                }
                DeviceAccessStatus::Unknown
            },
        }
    }

    /// Same as `access_status`: the status as the register reports it.
    pub fn device_access_status(&self) -> (r: DeviceAccessStatus)
        requires
            self.wf(),
        ensures
            r == self.spec_reg_status(),
    {
        self.access_status()
    }

    /// Sets the status outright and reflects it at once; used by the
    /// enumerator. A status that counts as opened needs the remote port
    /// in place, or later port use would fail.
    pub fn force_access_status(&mut self, status: DeviceAccessStatus)
        requires
            old(self).wf(),
            status.spec_is_opened() ==> old(self).spec_has_remote(),
        ensures
            final(self).wf(),
            final(self).spec_current_status() == status,
            final(self).spec_reg_status() == status,
            final(self).spec_device_info() == old(self).spec_device_info(),
            final(self).spec_port_info() == old(self).spec_port_info(),
            final(self).spec_xml_infos() == old(self).spec_xml_infos(),
            final(self).spec_has_remote() == old(self).spec_has_remote(),
            final(self).spec_vm_rights() == old(self).spec_vm_rights(),
    {
        self.current_status = status;
        self.reflect_status();
    }

    pub fn is_opened(&self) -> (r: bool)
        ensures
            r == self.spec_is_opened(),
    {
        self.current_status.is_opened()
    }

    fn assert_open(&self) -> (r: GenTlResult<()>)
        ensures
            r is Ok <==> self.spec_is_opened(),
            r matches Err(e) ==> e == GenTlError::NotInitialized,
    {
        if self.is_opened() {
            Ok(())
        } else {
            Err(GenTlError::NotInitialized)
        }
    }

    pub fn device_id(&self) -> (r: &str)
        ensures
            r@ == self.spec_device_info().guid@,
    {
        self.device_info.guid.as_str()
    }

    pub fn device_info(&self) -> (r: &DeviceInfo)
        ensures
            r == self.spec_device_info(),
    {
        &self.device_info
    }

    /// Port read, gated on the device being opened: returns `count`
    /// bytes of the local memory starting at `address`, exactly when the
    /// range exists and every byte of it is readable.
    pub fn read(&self, address: u64, count: usize) -> (r: GenTlResult<Vec<u8>>)
        requires
            self.wf(),
        ensures
            !self.spec_is_opened() ==> r == GenTlResult::<Vec<u8>>::Err(
                GenTlError::NotInitialized,
            ),
            self.spec_is_opened() ==> {
                &&& (r is Ok <==> (address + count <= MEMORY_SIZE && (forall|i: int|
                    address <= i < address + count ==> spec_initial_right(
                        i,
                    ).spec_is_readable())))
                &&& (r matches Ok(bytes) ==> bytes@ == self.spec_vm_data().subrange(
                    address as int,
                    address + count,
                ))
                &&& (address + count > MEMORY_SIZE ==> r == GenTlResult::<Vec<u8>>::Err(
                    GenTlError::InvalidAddress,
                ))
                &&& (r is Err && address + count <= MEMORY_SIZE ==> r == GenTlResult::<
                    Vec<u8>,
                >::Err(GenTlError::AccessDenied))
            },
    {
        if let Err(e) = self.assert_open() {
            return Err(e);
        }
        if address > MEMORY_SIZE as u64 || count > MEMORY_SIZE {
            return Err(GenTlError::InvalidAddress);
        }
        let start = address as usize;
        let out = match self.vm.read_raw(start..start + count) {
            Ok(bytes) => Ok(bytes),
            Err(e) => Err(gentl_of_memory_error(e)),
        };
        proof {
            if address + count <= MEMORY_SIZE {
                assert forall|i: int|
                    start <= i < start + count implies (#[trigger] self.vm.spec_rights()[i]
                    == spec_initial_right(i)) by {}
                if forall|i: int|
                    address <= i < address + count ==> spec_initial_right(
                        i,
                    ).spec_is_readable() {
                    assert forall|i: int|
                        start <= i < start + count implies #[trigger] self.vm.spec_rights()[
                        i
                    ].spec_is_readable() by {
                        assert(spec_initial_right(i).spec_is_readable());
                    }
                }
                if forall|i: int|
                    start <= i < start + count ==> #[trigger] self.vm.spec_rights()[i]
                    .spec_is_readable() {
                    assert forall|i: int|
                        address <= i < address + count implies spec_initial_right(
                        i,
                    ).spec_is_readable() by {
                        assert(self.vm.spec_rights()[i].spec_is_readable());
                    }
                }
            }
        }
        out
    }

    /// Port write, gated on the device being opened: stores `data` at
    /// `address`, exactly when the range exists and every byte of it is
    /// writable; returns how many bytes were written.
    pub fn write(&mut self, address: u64, data: &[u8]) -> (r: GenTlResult<usize>)
        requires
            old(self).wf(),
        ensures
            final(self).wf(),
            !old(self).spec_is_opened() ==> r == GenTlResult::<usize>::Err(
                GenTlError::NotInitialized,
            ) && *final(self) == *old(self),
            old(self).spec_is_opened() ==> {
                &&& (r is Ok <==> (address + data@.len() <= MEMORY_SIZE && (forall|i: int|
                    address <= i < address + data@.len() ==> spec_initial_right(
                        i,
                    ).spec_is_writable())))
                &&& (r matches Ok(n) ==> n == data@.len() && final(self).spec_vm_data()
                    == spec_splice(old(self).spec_vm_data(), address as int, data@))
                &&& (address + data@.len() > MEMORY_SIZE ==> r == GenTlResult::<
                    usize,
                >::Err(GenTlError::InvalidAddress))
                &&& (r is Err && address + data@.len() <= MEMORY_SIZE ==> r == GenTlResult::<
                    usize,
                >::Err(GenTlError::AccessDenied))
                &&& (r is Err ==> final(self).spec_vm_data() == old(self).spec_vm_data())
            },
            final(self).spec_current_status() == old(self).spec_current_status(),
            final(self).spec_vm_rights() == old(self).spec_vm_rights(),
            final(self).spec_device_info() == old(self).spec_device_info(),
            final(self).spec_port_info() == old(self).spec_port_info(),
            final(self).spec_xml_infos() == old(self).spec_xml_infos(),
            final(self).spec_has_remote() == old(self).spec_has_remote(),
    {
        if let Err(e) = self.assert_open() {
            return Err(e);
        }
        if address > MEMORY_SIZE as u64 || data.len() > MEMORY_SIZE {
            return Err(GenTlError::InvalidAddress);
        }
        let start = address as usize;
        let ghost m0 = self.vm.spec_data();
        let out = match self.vm.write_raw(start, data) {
            Ok(_) => Ok(data.len()),
            Err(e) => Err(gentl_of_memory_error(e)),
        };
        proof {
            let rights = old(self).vm.spec_rights();
            if out is Ok {
                assert forall|i: int| 0 <= i < 4 implies #[trigger] self.vm.spec_data()[i]
                    == m0[i] by {
                    assert(rights[i] == spec_initial_right(i));
                    assert(!spec_initial_right(i).spec_is_writable());
                    if start <= i < start + data@.len() {
                        assert(rights[i].spec_is_writable());
                    }
                }
                assert(self.vm.spec_data().subrange(0, 4) =~= m0.subrange(0, 4));
                assert forall|i: int|
                    address <= i < address + data@.len() implies spec_initial_right(
                    i,
                ).spec_is_writable() by {
                    assert(rights[i].spec_is_writable());
                }
            } else {
                if address + data@.len() <= MEMORY_SIZE && (forall|i: int|
                    address <= i < address + data@.len() ==> spec_initial_right(
                        i,
                    ).spec_is_writable()) {
                    assert forall|i: int|
                        start <= i < start + data@.len() implies #[trigger] rights[i]
                        .spec_is_writable() by {
                        assert(rights[i] == spec_initial_right(i));
                        assert(spec_initial_right(i).spec_is_writable());
                    }
                }
            }
        }
        out
    }

    /// The port description; available only while the device is opened.
    pub fn port_info(&self) -> (r: GenTlResult<&PortInfo>)
        ensures
            r is Ok <==> self.spec_is_opened(),
            r matches Ok(p) ==> p == self.spec_port_info(),
            r matches Err(e) ==> e == GenTlError::NotInitialized,
    {
        if let Err(e) = self.assert_open() {
            return Err(e);
        }
        Ok(&self.port_info)
    }

    /// The XML descriptions of the local register map; available only
    /// while the device is opened.
    pub fn xml_infos(&self) -> (r: GenTlResult<&Vec<XmlInfo>>)
        ensures
            r is Ok <==> self.spec_is_opened(),
            r matches Ok(x) ==> x@ == self.spec_xml_infos(),
            r matches Err(e) ==> e == GenTlError::NotInitialized,
    {
        if let Err(e) = self.assert_open() {
            return Err(e);
        }
        Ok(&self.xml_infos)
    }

    /// Whether an open attempt may proceed: only exclusive access is
    /// granted, and only while the device is not already opened.
    pub fn check_open_allowed(&self, access_flag: DeviceAccessFlag) -> (r: GenTlResult<()>)
        ensures
            r is Ok <==> (access_flag == DeviceAccessFlag::Exclusive
                && !self.spec_is_opened()),
            access_flag != DeviceAccessFlag::Exclusive ==> r == GenTlResult::<()>::Err(
                GenTlError::AccessDenied,
            ),
            access_flag == DeviceAccessFlag::Exclusive && self.spec_is_opened() ==> r
                == GenTlResult::<()>::Err(GenTlError::ResourceInUse),
    {
        if access_flag != DeviceAccessFlag::Exclusive {
            return Err(GenTlError::AccessDenied);
        }
        if self.is_opened() {
            return Err(GenTlError::ResourceInUse);
        }
        Ok(())
    }

    /// Finishes an open attempt whose transport work happened outside:
    /// installs the remote-device port read during the attempt, moves the
    /// state machine as the outcome dictates — open on success, busy on
    /// an access conflict, no access on a transport failure — and hands
    /// the outcome back. The status register is not touched: it updates
    /// only on `reflect_status`.
    pub fn complete_open(&mut self, outcome: GenTlResult<()>, remote: U3VRemoteDevice) -> (r:
        GenTlResult<()>)
        requires
            old(self).wf(),
            !old(self).spec_is_opened(),
        ensures
            final(self).wf(),
            r == outcome,
            final(self).spec_current_status() == spec_status_after_open(outcome),
            final(self).spec_has_remote(),
            final(self).spec_remote() == remote,
            final(self).spec_reg_status() == old(self).spec_reg_status(),
            final(self).spec_vm_data() == old(self).spec_vm_data(),
            final(self).spec_vm_rights() == old(self).spec_vm_rights(),
            final(self).spec_device_info() == old(self).spec_device_info(),
            final(self).spec_port_info() == old(self).spec_port_info(),
            final(self).spec_xml_infos() == old(self).spec_xml_infos(),
    {
        self.remote = Some(remote);
        self.current_status = match &outcome {
            Ok(_) => DeviceAccessStatus::OpenReadWrite,
            Err(GenTlError::AccessDenied) => DeviceAccessStatus::Busy,
            Err(GenTlError::Io) => DeviceAccessStatus::NoAccess,
            Err(_) => DeviceAccessStatus::Unknown,
        };
        outcome
    }

    /// Finishes a close attempt: drops the remote-device port, moves the
    /// state machine as the outcome dictates and reports success, as
    /// closing is idempotent. The status register is not touched.
    pub fn complete_close(&mut self, outcome: GenTlResult<()>) -> (r: GenTlResult<()>)
        requires
            old(self).wf(),
        ensures
            final(self).wf(),
            r is Ok,
            final(self).spec_current_status() == spec_status_after_close(outcome),
            !final(self).spec_has_remote(),
            final(self).spec_reg_status() == old(self).spec_reg_status(),
            final(self).spec_vm_data() == old(self).spec_vm_data(),
            final(self).spec_vm_rights() == old(self).spec_vm_rights(),
            final(self).spec_device_info() == old(self).spec_device_info(),
            final(self).spec_port_info() == old(self).spec_port_info(),
            final(self).spec_xml_infos() == old(self).spec_xml_infos(),
    {
        self.current_status = match &outcome {
            Ok(_) => DeviceAccessStatus::ReadWrite,
            Err(GenTlError::Io) => DeviceAccessStatus::NoAccess,
            Err(_) => DeviceAccessStatus::Unknown,
        };
        self.remote = None;
        Ok(())
    }

    /// The remote-device port; available only while the device is opened.
    pub fn remote_device(&self) -> (r: GenTlResult<&U3VRemoteDevice>)
        requires
            self.wf(),
        ensures
            r is Ok <==> self.spec_is_opened(),
            r matches Ok(d) ==> d == self.spec_remote(),
            r matches Err(e) ==> e == GenTlError::NotInitialized,
    {
        if let Err(e) = self.assert_open() {
            return Err(e);
        }
        match &self.remote {
            Some(d) => Ok(d),
            None => {
                proof {
                    assert(false);
                }
                Err(GenTlError::NotInitialized)
            },
        }
    }

    pub fn vendor_name(&self) -> (r: GenTlResult<String>)
        ensures
            r matches Ok(s) && s@ == self.spec_device_info().vendor_name@,
    {
        Ok(self.device_info.vendor_name.clone())
    }

    pub fn model_name(&self) -> (r: GenTlResult<String>)
        ensures
            r matches Ok(s) && s@ == self.spec_device_info().model_name@,
    {
        Ok(self.device_info.model_name.clone())
    }

    pub fn serial_number(&self) -> (r: GenTlResult<String>)
        ensures
            r matches Ok(s) && s@ == self.spec_device_info().serial_number@,
    {
        Ok(self.device_info.serial_number.clone())
    }

    /// Vendor, model and id of the device in one display string.
    pub fn display_name(&self) -> (r: GenTlResult<String>)
        ensures
            r matches Ok(s) && s@ == self.spec_device_info().vendor_name@ + " "@
                + self.spec_device_info().model_name@ + " ("@
                + self.spec_device_info().guid@ + ")"@,
    {
        let mut s = self.device_info.vendor_name.clone();
        s.append(" ");
        s.append(self.device_info.model_name.as_str());
        s.append(" (");
        s.append(self.device_info.guid.as_str());
        s.append(")");
        Ok(s)
    }

    pub fn tl_type(&self) -> (r: TlType)
        ensures
            r == TlType::USB3Vision,
    {
        TlType::USB3Vision
    }
}

} // verus!
