//! Device and channel layer: binds a device id and an interface kind to
//! the channel handles that the control, event and stream paths use.

use vstd::prelude::*;

verus! {

/// Immutable description of an enumerated device.
#[derive(Debug, Clone, PartialEq, Eq)]
pub struct DeviceInfo {
    /// Globally unique id of the device.
    pub guid: String,
    pub vendor_name: String,
    pub model_name: String,
    pub serial_number: String,
}

/// Kind of a device interface; each kind owns one bulk-IN endpoint, and
/// Control also owns one bulk-OUT endpoint.
#[derive(Debug, Clone, Copy, PartialEq, Eq, Structural)]
pub enum IfaceKind {
    Control,
    Event,
    Stream,
}

/// Error of the device layer.
#[derive(Debug, Clone, Copy, PartialEq, Eq, Structural)]
pub enum DeviceError {
    /// The device is gone or was never usable.
    InvalidDevice,
}

/// The pair that names one interface of one device.
#[derive(Debug, Clone, Copy, PartialEq, Eq, Structural)]
pub struct DeviceHandle {
    pub device_id: u32,
    pub iface: IfaceKind,
}

impl DeviceHandle {
    pub fn new(device_id: u32, iface: IfaceKind) -> (r: DeviceHandle)
        ensures
            r == (DeviceHandle { device_id, iface }),
    {
        DeviceHandle { device_id, iface }
    }
}

/// Synchronous request/response channel over bulk OUT and IN.
#[derive(Debug, Clone, PartialEq, Eq)]
pub struct ControlChannel {
    pub handle: DeviceHandle,
}

impl ControlChannel {
    pub fn new(handle: DeviceHandle) -> (r: ControlChannel)
        ensures
            r.handle == handle,
    {
        ControlChannel { handle }
    }
}

/// Receive-only channel over one bulk-IN endpoint, for the event and
/// stream interfaces.
#[derive(Debug, Clone, PartialEq, Eq)]
pub struct ReceiveChannel {
    pub handle: DeviceHandle,
}

impl ReceiveChannel {
    pub fn new(handle: DeviceHandle) -> (r: ReceiveChannel)
        ensures
            r.handle == handle,
    {
        ReceiveChannel { handle }
    }
}

/// An enumerated device: an opaque id plus its descriptor.
#[derive(Debug, Clone, PartialEq, Eq)]
pub struct Device {
    device_id: u32,
    device_info: DeviceInfo,
}

impl Device {
    pub closed spec fn spec_device_id(&self) -> u32 {
        self.device_id
    }

    pub closed spec fn spec_device_info(&self) -> DeviceInfo {
        self.device_info
    }

    pub fn new(device_id: u32, device_info: DeviceInfo) -> (r: Device)
        ensures
            r.spec_device_id() == device_id,
            r.spec_device_info() == device_info,
    {
        Device { device_id, device_info }
    }

    /// The mandatory control channel of the device.
    pub fn control_channel(&self) -> (r: Result<ControlChannel, DeviceError>)
        ensures
            r matches Ok(c) ==> c.handle == (DeviceHandle {
                device_id: self.spec_device_id(),
                iface: IfaceKind::Control,
            }),
            r is Ok,
    {
        let handle = DeviceHandle::new(self.device_id, IfaceKind::Control);
        Ok(ControlChannel::new(handle))
    }

    /// The event channel; absent on devices without an event interface.
    pub fn event_channel(&self) -> (r: Result<Option<ReceiveChannel>, DeviceError>)
        ensures
            r matches Ok(c) ==> c matches Some(c) && c.handle == (DeviceHandle {
                device_id: self.spec_device_id(),
                iface: IfaceKind::Event,
            }),
            r is Ok,
    {
        let handle = DeviceHandle::new(self.device_id, IfaceKind::Event);
        Ok(Some(ReceiveChannel::new(handle)))
    }

    /// The stream channel; absent on devices without a stream interface.
    pub fn stream_channel(&self) -> (r: Result<Option<ReceiveChannel>, DeviceError>)
        ensures
            r matches Ok(c) ==> c matches Some(c) && c.handle == (DeviceHandle {
                device_id: self.spec_device_id(),
                iface: IfaceKind::Stream,
            }),
            r is Ok,
    {
        let handle = DeviceHandle::new(self.device_id, IfaceKind::Stream);
        Ok(Some(ReceiveChannel::new(handle)))
    }

    pub fn device_info(&self) -> (r: &DeviceInfo)
        ensures
            r == self.spec_device_info(),
    {
        &self.device_info
    }
}

} // verus!
