//! Provider of tunnel devices: opens a device through the `tun` crate,
//! assigns its addresses and brings the link up.

use vstd::prelude::*;
use tun::AbstractDevice;
use crate::types::IpAddress;

verus! {

#[verifier::external_type_specification]
#[verifier::external_body]
pub struct ExTunConfiguration(tun::Configuration);

#[verifier::external_type_specification]
#[verifier::external_body]
pub struct ExTunDevice(tun::Device);

#[verifier::external_type_specification]
#[verifier::external_body]
pub struct ExTunError(tun::Error);

#[verifier::external_type_specification]
#[verifier::external_body]
pub struct ExIoError(std::io::Error);

/// Relies on tun::Configuration::default: a configuration with nothing set.
#[verifier::external_body]
fn new_tun_configuration() -> tun::Configuration {
    tun::Configuration::default()
}

/// Relies on tun::Configuration::tun_name: records the requested interface
/// name in the configuration.
#[verifier::external_body]
fn config_set_name(config: &mut tun::Configuration, name: &str) {
    config.tun_name(name);
}

/// Relies on tun::create: opens a tunnel device for the configuration.
#[verifier::external_body]
fn tun_create(config: &tun::Configuration) -> Result<tun::Device, tun::Error> {
    tun::create(config)
}

/// Relies on tun::AbstractDevice::set_address on the platform device; the
/// address is handed over as the bits of an IPv4 address.
#[verifier::external_body]
fn device_set_address_v4(dev: &mut tun::Device, addr: u32) -> Result<(), tun::Error> {
    dev.set_address(core::net::IpAddr::V4(core::net::Ipv4Addr::from(addr)))
}

/// Relies on tun::AbstractDevice::enabled: turns the link on or off.
#[verifier::external_body]
fn device_enabled(dev: &mut tun::Device, up: bool) -> Result<(), tun::Error> {
    dev.enabled(up)
}

/// Relies on tun::AbstractDevice::tun_name: returns the device's name.
#[verifier::external_body]
fn device_tun_name(dev: &tun::Device) -> Result<String, tun::Error> {
    dev.tun_name()
}

/// Errors that can occur while setting up a tunnel device.
#[derive(Debug)]
pub enum DeviceError {
    /// Failed to set an IPv4 address.
    SetIpv4(tun::Error),
    /// Failed to set an IPv6 address.
    SetIpv6(std::io::Error),
    /// Unable to open a tunnel device.
    CreateDevice(tun::Error),
    /// Failed to enable or disable the link device.
    ToggleDevice(tun::Error),
    /// Failed to get the tunnel device name.
    GetDeviceName(tun::Error),
    /// Input/output error.
    Io(std::io::Error),
}

/// Configuration a tunnel device is opened with.
#[derive(Clone, Debug, PartialEq, Eq)]
pub struct TunConfig {
    /// Requested interface name, if any.
    pub name: Option<String>,
    /// Addresses to assign to the device.
    pub addresses: Vec<IpAddress>,
}

/// Model of [`TunConfig`].
#[verifier::ext_equal]
pub struct TunConfigV {
    pub name: Option<Seq<char>>,
    pub addresses: Seq<IpAddress>,
}

impl View for TunConfig {
    type V = TunConfigV;

    open spec fn view(&self) -> TunConfigV {
        TunConfigV {
            name: match self.name {
                Some(ref s) => Some(s@),
                None => None,
            },
            addresses: self.addresses@,
        }
    }
}

/// Factory of tunnel devices.
pub struct WindowsTunProvider {
    config: TunConfig,
}

impl View for WindowsTunProvider {
    type V = TunConfigV;

    closed spec fn view(&self) -> TunConfigV {
        self.config@
    }
}

impl WindowsTunProvider {
    pub fn new(config: TunConfig) -> (r: Self)
        ensures
            r@ == config@,
    {
        WindowsTunProvider { config }
    }

    /// Get the current tunnel config. Note that the tunnel must be
    /// recreated for any changes to take effect.
    pub fn config_mut(&mut self) -> (r: &mut TunConfig)
        ensures
            (*r)@ == old(self)@,
            final(self)@ == (*final(r))@,
    {
        &mut self.config
    }

    /// Open a tunnel using the current tunnel config. Only IPv4 addresses
    /// can be assigned.
    pub fn open_tun(&mut self) -> (r: Result<WindowsTun, DeviceError>)
        requires
            forall|i: int|
                0 <= i < old(self)@.addresses.len() ==> old(self)@.addresses[i] is V4,
        ensures
            final(self)@ == old(self)@,
            r matches Err(e) ==> (e is CreateDevice || e is SetIpv4 || e is ToggleDevice),
    {
        let builder = {
            let mut builder = TunnelDeviceBuilder::default();
            if let Some(name) = &self.config.name {
                builder.name(name.as_str());
            }
            builder
        };
        let mut tunnel_device = match builder.create() {
            Ok(d) => d,
            Err(e) => {
                return Err(e);
            },
        };
        let mut i: usize = 0;
        while i < self.config.addresses.len()
            invariant
                i <= self.config.addresses.len(),
                self@ == old(self)@,
                forall|k: int| 0 <= k < self@.addresses.len() ==> self@.addresses[k] is V4,
            decreases self.config.addresses.len() - i,
        {
            let ip = self.config.addresses[i];
            proof {
                assert(self@.addresses == self.config.addresses@);
                assert(self@.addresses[i as int] is V4);
            }
            match tunnel_device.set_ip(ip) {
                Ok(()) => {},
                Err(e) => {
                    return Err(e);
                },
            }
            i = i + 1;
        }
        match tunnel_device.set_up(true) {
            Ok(()) => {},
            Err(e) => {
                return Err(e);
            },
        }
        Ok(WindowsTun(tunnel_device))
    }
}

/// Generic tunnel device, opened and configured.
pub struct WindowsTun(TunnelDevice);

impl WindowsTun {
    /// Retrieve the tunnel interface name.
    pub fn interface_name(&self) -> (r: Result<String, DeviceError>)
        ensures
            r matches Err(e) ==> e is GetDeviceName,
    {
        self.0.get_name()
    }

    /// Borrow the underlying device.
    pub fn device(&self) -> &TunnelDevice {
        &self.0
    }

    /// Give up the underlying device, for callers that wrap it further.
    pub fn into_device(self) -> TunnelDevice {
        self.0
    }
}

/// A tunnel device, holding the platform device it stands for.
pub struct TunnelDevice {
    dev: tun::Device,
}

/// A tunnel device builder.
///
/// Call [`Self::create`] to create a [`TunnelDevice`] from the config.
pub struct TunnelDeviceBuilder {
    config: tun::Configuration,
}

impl Default for TunnelDeviceBuilder {
    fn default() -> Self {
        let config = new_tun_configuration();
        TunnelDeviceBuilder { config }
    }
}

impl TunnelDeviceBuilder {
    /// Request an interface name for the device.
    pub fn name(&mut self, name: &str) {
        config_set_name(&mut self.config, name);
    }

    /// Create a [`TunnelDevice`] from this builder.
    pub fn create(self) -> (r: Result<TunnelDevice, DeviceError>)
        ensures
            r matches Err(e) ==> e is CreateDevice,
    {
        match tun_create(&self.config) {
            Ok(dev) => Ok(TunnelDevice { dev }),
            Err(e) => Err(DeviceError::CreateDevice(e)),
        }
    }
}

impl TunnelDevice {
    /// Give up the platform device, for callers that wrap it further
    /// (for instance for asynchronous use).
    pub fn into_dev(self) -> tun::Device {
        self.dev
    }

    fn set_ip(&mut self, ip: IpAddress) -> (r: Result<(), DeviceError>)
        requires
            ip is V4,
        ensures
            r matches Err(e) ==> e is SetIpv4,
    {
        match ip {
            IpAddress::V4(bits) => match device_set_address_v4(&mut self.dev, bits) {
                Ok(()) => Ok(()),
                Err(e) => Err(DeviceError::SetIpv4(e)),
            },
            IpAddress::V6(_) => Ok(()),
        }
    }

    fn set_up(&mut self, up: bool) -> (r: Result<(), DeviceError>)
        ensures
            r matches Err(e) ==> e is ToggleDevice,
    {
        match device_enabled(&mut self.dev, up) {
            Ok(()) => Ok(()),
            Err(e) => Err(DeviceError::ToggleDevice(e)),
        }
    }

    fn get_name(&self) -> (r: Result<String, DeviceError>)
        ensures
            r matches Err(e) ==> e is GetDeviceName,
    {
        match device_tun_name(&self.dev) {
            Ok(name) => Ok(name),
            Err(e) => Err(DeviceError::GetDeviceName(e)),
        }
    }
}

} // verus!
