//! USB control requests and descriptors, as the bytes on the wire.
use vstd::prelude::*;

verus! {

/// Standard USB control requests.
#[derive(Clone, Copy, Debug, PartialEq, Eq, Structural)]
pub enum StandardRequest {
    GetStatus,
    ClearFeature,
    SetFeature,
    SetAddress,
    GetDescriptor,
    SetDescriptor,
    GetConfiguration,
    SetConfiguration,
    GetInterface,
    SetInterface,
    Unknown,
}

/// The request that code `b` names.
pub open spec fn standard_request_of(b: u8) -> StandardRequest {
    if b == 0 {
        StandardRequest::GetStatus
    } else if b == 1 {
        StandardRequest::ClearFeature
    } else if b == 3 {
        StandardRequest::SetFeature
    } else if b == 5 {
        StandardRequest::SetAddress
    } else if b == 6 {
        StandardRequest::GetDescriptor
    } else if b == 7 {
        StandardRequest::SetDescriptor
    } else if b == 8 {
        StandardRequest::GetConfiguration
    } else if b == 9 {
        StandardRequest::SetConfiguration
    } else if b == 10 {
        StandardRequest::GetInterface
    } else if b == 11 {
        StandardRequest::SetInterface
    } else {
        StandardRequest::Unknown
    }
}

impl StandardRequest {
    /// The request code on the wire; 0xff for an unknown request.
    pub fn code(&self) -> (r: u8)
        ensures
            *self != StandardRequest::Unknown ==> standard_request_of(r) == *self,
            *self == StandardRequest::Unknown ==> r == 0xff,
    {
        match self {
            StandardRequest::GetStatus => 0,
            StandardRequest::ClearFeature => 1,
            StandardRequest::SetFeature => 3,
            StandardRequest::SetAddress => 5,
            StandardRequest::GetDescriptor => 6,
            StandardRequest::SetDescriptor => 7,
            StandardRequest::GetConfiguration => 8,
            StandardRequest::SetConfiguration => 9,
            StandardRequest::GetInterface => 10,
            StandardRequest::SetInterface => 11,
            StandardRequest::Unknown => 0xff,
        }
    }
}

impl From<u8> for StandardRequest {
    fn from(b: u8) -> (r: StandardRequest)
        ensures
            r == standard_request_of(b),
    {
        match b {
            0 => StandardRequest::GetStatus,
            1 => StandardRequest::ClearFeature,
            3 => StandardRequest::SetFeature,
            5 => StandardRequest::SetAddress,
            6 => StandardRequest::GetDescriptor,
            7 => StandardRequest::SetDescriptor,
            8 => StandardRequest::GetConfiguration,
            9 => StandardRequest::SetConfiguration,
            10 => StandardRequest::GetInterface,
            11 => StandardRequest::SetInterface,
            _ => StandardRequest::Unknown,
        }
    }
}

impl vstd::std_specs::convert::FromSpecImpl<u8> for StandardRequest {
    open spec fn obeys_from_spec() -> bool {
        true
    }

    open spec fn from_spec(b: u8) -> StandardRequest {
        standard_request_of(b)
    }
}

/// Configuration attribute: powered by the bus.
pub const USB_CONFIG_BUS_POWERED: u8 = 0x80;
/// Configuration attribute: supports remote wakeup.
pub const USB_CONFIG_REMOTE_WAKEUP: u8 = 0x20;
/// Power drawn from the bus, in milliamperes.
pub const USB_CONFIG_POWER: u16 = 500;
/// USB version in binary-coded decimal (2.0).
pub const USB_VERSION: u16 = 0x200;
/// Descriptor type of a device descriptor.
pub const USB_DEVICE_DESCRIPTOR_TYPE: u8 = 1;
/// Descriptor type of a configuration descriptor.
pub const USB_CONFIGURATION_DESCRIPTOR_TYPE: u8 = 2;

/// The 16-bit value of two little-endian bytes.
pub open spec fn le16(lo: u8, hi: u8) -> u16 {
    (hi as int * 256 + lo as int) as u16
}

fn le16_exec(lo: u8, hi: u8) -> (r: u16)
    ensures
        r == le16(lo, hi),
{
    hi as u16 * 256 + lo as u16
}

/// The maximum-power field for a draw of `ma` milliamperes (2 mA units).
pub fn usb_config_power_ma(ma: u16) -> (r: u16)
    ensures
        r == ma / 2,
{
    ma / 2
}

/// The eight bytes of a control request.
#[derive(Clone, Copy, Debug, PartialEq, Eq)]
pub struct USBSetup {
    inner: [u8; 8],
}

impl USBSetup {
    pub closed spec fn bytes(&self) -> Seq<u8> {
        self.inner@
    }

    /// All bytes zero.
    pub fn new() -> (r: USBSetup)
        ensures
            r.bytes() == seq![0u8, 0, 0, 0, 0, 0, 0, 0],
    {
        let r = USBSetup { inner: [0u8; 8] };
        assert(r.bytes() =~= seq![0u8, 0, 0, 0, 0, 0, 0, 0]);
        r
    }

    /// The request with the given bytes.
    pub fn from_array(inner: [u8; 8]) -> (r: USBSetup)
        ensures
            r.bytes() == inner@,
    {
        USBSetup { inner }
    }

    /// The request from the first eight bytes of `bytes`, zero-padded.
    pub fn from_bytes(bytes: &[u8]) -> (r: USBSetup)
        ensures
            r.bytes().len() == 8,
            forall|i: int| 0 <= i < 8 ==> #[trigger] r.bytes()[i] == (if i < bytes@.len() {
                bytes@[i]
            } else {
                0u8
            }),
    {
        let mut inner = [0u8; 8];
        let mut i: usize = 0;
        while i < 8 && i < bytes.len()
            invariant
                i <= 8,
                forall|j: int| 0 <= j < 8 ==> #[trigger] inner@[j] == (if j < i && j < bytes@.len() {
                    bytes@[j]
                } else {
                    0u8
                }),
            decreases 8 - i,
        {
            inner[i] = bytes[i];
            i = i + 1;
        }
        USBSetup { inner }
    }

    pub fn request_type(&self) -> (r: u8)
        ensures
            r == self.bytes()[0],
    {
        self.inner[0]
    }

    pub fn request(&self) -> (r: u8)
        ensures
            r == self.bytes()[1],
    {
        self.inner[1]
    }

    pub fn value_l(&self) -> (r: u8)
        ensures
            r == self.bytes()[2],
    {
        self.inner[2]
    }

    pub fn value_h(&self) -> (r: u8)
        ensures
            r == self.bytes()[3],
    {
        self.inner[3]
    }

    pub fn value(&self) -> (r: u16)
        ensures
            r == le16(self.bytes()[2], self.bytes()[3]),
    {
        le16_exec(self.inner[2], self.inner[3])
    }

    pub fn index(&self) -> (r: u16)
        ensures
            r == le16(self.bytes()[4], self.bytes()[5]),
    {
        le16_exec(self.inner[4], self.inner[5])
    }

    pub fn length(&self) -> (r: u16)
        ensures
            r == le16(self.bytes()[6], self.bytes()[7]),
    {
        le16_exec(self.inner[6], self.inner[7])
    }

    pub fn as_bytes(&self) -> (r: &[u8])
        ensures
            r@ == self.bytes(),
    {
        self.inner.as_slice()
    }

    pub fn as_bytes_mut(&mut self) -> (r: &mut [u8])
        ensures
            r@ == old(self).bytes(),
            final(r)@ == final(self).bytes(),
    {
        &mut self.inner
    }
}

/// The nine bytes of a configuration descriptor.
pub struct ConfigDescriptor {
    inner: [u8; 9],
}

impl ConfigDescriptor {
    pub closed spec fn bytes(&self) -> Seq<u8> {
        self.inner@
    }

    /// The descriptor of a bus-powered configuration with remote wakeup,
    /// total length `clen` and `num_interfaces` interfaces.
    pub fn new(clen: u16, num_interfaces: u8) -> (r: ConfigDescriptor)
        ensures
            r.bytes() == seq![
                9u8,
                USB_CONFIGURATION_DESCRIPTOR_TYPE,
                (clen % 256) as u8,
                (clen / 256) as u8,
                num_interfaces,
                1,
                0,
                USB_CONFIG_BUS_POWERED | USB_CONFIG_REMOTE_WAKEUP,
                (USB_CONFIG_POWER / 2) as u8,
            ],
    {
        let power = usb_config_power_ma(USB_CONFIG_POWER) as u8;
        let r = ConfigDescriptor {
            inner: [
                9,
                USB_CONFIGURATION_DESCRIPTOR_TYPE,
                (clen % 256) as u8,
                (clen / 256) as u8,
                num_interfaces,
                1,
                0,
                USB_CONFIG_BUS_POWERED | USB_CONFIG_REMOTE_WAKEUP,
                power,
            ],
        };
        assert(r.bytes() =~= seq![
            9u8,
            USB_CONFIGURATION_DESCRIPTOR_TYPE,
            (clen % 256) as u8,
            (clen / 256) as u8,
            num_interfaces,
            1,
            0,
            USB_CONFIG_BUS_POWERED | USB_CONFIG_REMOTE_WAKEUP,
            (USB_CONFIG_POWER / 2) as u8,
        ]);
        r
    }

    /// The descriptor from the first nine bytes of `bytes`, zero-padded.
    pub fn from_bytes(bytes: &[u8]) -> (r: ConfigDescriptor)
        ensures
            r.bytes().len() == 9,
            forall|i: int| 0 <= i < 9 ==> #[trigger] r.bytes()[i] == (if i < bytes@.len() {
                bytes@[i]
            } else {
                0u8
            }),
    {
        let mut inner = [0u8; 9];
        let mut i: usize = 0;
        while i < 9 && i < bytes.len()
            invariant
                i <= 9,
                forall|j: int| 0 <= j < 9 ==> #[trigger] inner@[j] == (if j < i && j < bytes@.len() {
                    bytes@[j]
                } else {
                    0u8
                }),
            decreases 9 - i,
        {
            inner[i] = bytes[i];
            i = i + 1;
        }
        ConfigDescriptor { inner }
    }

    pub fn length(&self) -> (r: u8)
        ensures
            r == self.bytes()[0],
    {
        self.inner[0]
    }

    pub fn device_type(&self) -> (r: u8)
        ensures
            r == self.bytes()[1],
    {
        self.inner[1]
    }

    pub fn clen_l(&self) -> (r: u8)
        ensures
            r == self.bytes()[2],
    {
        self.inner[2]
    }

    pub fn clen_h(&self) -> (r: u8)
        ensures
            r == self.bytes()[3],
    {
        self.inner[3]
    }

    pub fn clen(&self) -> (r: u16)
        ensures
            r == le16(self.bytes()[2], self.bytes()[3]),
    {
        le16_exec(self.inner[2], self.inner[3])
    }

    pub fn num_interfaces(&self) -> (r: u8)
        ensures
            r == self.bytes()[4],
    {
        self.inner[4]
    }

    pub fn config(&self) -> (r: u8)
        ensures
            r == self.bytes()[5],
    {
        self.inner[5]
    }

    pub fn interface_config(&self) -> (r: u8)
        ensures
            r == self.bytes()[6],
    {
        self.inner[6]
    }

    pub fn attributes(&self) -> (r: u8)
        ensures
            r == self.bytes()[7],
    {
        self.inner[7]
    }

    pub fn max_power(&self) -> (r: u8)
        ensures
            r == self.bytes()[8],
    {
        self.inner[8]
    }

    pub fn as_bytes(&self) -> (r: &[u8])
        ensures
            r@ == self.bytes(),
    {
        self.inner.as_slice()
    }

    pub fn as_bytes_mut(&mut self) -> (r: &mut [u8])
        ensures
            r@ == old(self).bytes(),
            final(r)@ == final(self).bytes(),
    {
        &mut self.inner
    }
}

/// The eighteen bytes of a device descriptor.
pub struct DeviceDescriptor {
    inner: [u8; 18],
}

impl DeviceDescriptor {
    pub closed spec fn bytes(&self) -> Seq<u8> {
        self.inner@
    }

    /// The descriptor of a USB 2.0 device with the given fields; 16-bit
    /// fields are stored little-endian.
    pub fn new(
        dev_class: u8,
        dev_sub_class: u8,
        dev_protocol: u8,
        packet_size0: u8,
        id_vendor: u16,
        id_product: u16,
        version: u16,
        manufacturer: u8,
        product: u8,
        serial_number: u8,
        num_configs: u8,
    ) -> (r: DeviceDescriptor)
        ensures
            r.bytes() == seq![
                18u8,
                USB_DEVICE_DESCRIPTOR_TYPE,
                (USB_VERSION % 256) as u8,
                (USB_VERSION / 256) as u8,
                dev_class,
                dev_sub_class,
                dev_protocol,
                packet_size0,
                (id_vendor % 256) as u8,
                (id_vendor / 256) as u8,
                (id_product % 256) as u8,
                (id_product / 256) as u8,
                (version % 256) as u8,
                (version / 256) as u8,
                manufacturer,
                product,
                serial_number,
                num_configs,
            ],
    {
        let r = DeviceDescriptor {
            inner: [
                18,
                USB_DEVICE_DESCRIPTOR_TYPE,
                (USB_VERSION % 256) as u8,
                (USB_VERSION / 256) as u8,
                dev_class,
                dev_sub_class,
                dev_protocol,
                packet_size0,
                (id_vendor % 256) as u8,
                (id_vendor / 256) as u8,
                (id_product % 256) as u8,
                (id_product / 256) as u8,
                (version % 256) as u8,
                (version / 256) as u8,
                manufacturer,
                product,
                serial_number,
                num_configs,
            ],
        };
        assert(r.bytes() =~= seq![
            18u8,
            USB_DEVICE_DESCRIPTOR_TYPE,
            (USB_VERSION % 256) as u8,
            (USB_VERSION / 256) as u8,
            dev_class,
            dev_sub_class,
            dev_protocol,
            packet_size0,
            (id_vendor % 256) as u8,
            (id_vendor / 256) as u8,
            (id_product % 256) as u8,
            (id_product / 256) as u8,
            (version % 256) as u8,
            (version / 256) as u8,
            manufacturer,
            product,
            serial_number,
            num_configs,
        ]);
        r
    }

    pub fn len(&self) -> (r: u8)
        ensures
            r == self.bytes()[0],
    {
        self.inner[0]
    }

    pub fn device_type(&self) -> (r: u8)
        ensures
            r == self.bytes()[1],
    {
        self.inner[1]
    }

    pub fn usb_version(&self) -> (r: u16)
        ensures
            r == le16(self.bytes()[2], self.bytes()[3]),
    {
        le16_exec(self.inner[2], self.inner[3])
    }

    pub fn device_class(&self) -> (r: u8)
        ensures
            r == self.bytes()[4],
    {
        self.inner[4]
    }

    pub fn device_sub_class(&self) -> (r: u8)
        ensures
            r == self.bytes()[5],
    {
        self.inner[5]
    }

    pub fn device_protocol(&self) -> (r: u8)
        ensures
            r == self.bytes()[6],
    {
        self.inner[6]
    }

    pub fn packet_size0(&self) -> (r: u8)
        ensures
            r == self.bytes()[7],
    {
        self.inner[7]
    }

    pub fn id_vendor(&self) -> (r: u16)
        ensures
            r == le16(self.bytes()[8], self.bytes()[9]),
    {
        le16_exec(self.inner[8], self.inner[9])
    }

    pub fn id_product(&self) -> (r: u16)
        ensures
            r == le16(self.bytes()[10], self.bytes()[11]),
    {
        le16_exec(self.inner[10], self.inner[11])
    }

    pub fn device_version(&self) -> (r: u16)
        ensures
            r == le16(self.bytes()[12], self.bytes()[13]),
    {
        le16_exec(self.inner[12], self.inner[13])
    }

    pub fn manufacturer(&self) -> (r: u8)
        ensures
            r == self.bytes()[14],
    {
        self.inner[14]
    }

    pub fn product(&self) -> (r: u8)
        ensures
            r == self.bytes()[15],
    {
        self.inner[15]
    }

    pub fn serial_number(&self) -> (r: u8)
        ensures
            r == self.bytes()[16],
    {
        self.inner[16]
    }

    pub fn num_configurations(&self) -> (r: u8)
        ensures
            r == self.bytes()[17],
    {
        self.inner[17]
    }

    pub fn as_bytes(&self) -> (r: &[u8])
        ensures
            r@ == self.bytes(),
    {
        self.inner.as_slice()
    }
}

} // verus!
