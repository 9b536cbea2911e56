//! Opening the serial link to a device: the client profile that is
//! registered, and what to do with each thing that happens while waiting for
//! the device to connect.
use vstd::prelude::*;

use crate::address::DeviceAddress;

verus! {

/// Milliseconds to wait after a connection attempt before the next one.
pub const RETRY_DELAY_MS: u64 = 3000;

/// The local role of a profile.
#[derive(Clone, Copy, Debug, PartialEq, Eq, Structural)]
pub enum ProfileRole {
    Client,
    Server,
}

/// The UUID of the serial port service class: the short UUID 0x1101 on the
/// Bluetooth base UUID.
pub open spec fn serial_port_class_uuid() -> u128 {
    0x0000_1101_0000_1000_8000_0080_5f9b_34fb
}

/// The UUID of `bluer::id::ServiceClass::SerialPort` (through bluer's
/// `From<ServiceClass> for Uuid`) as a number (`Uuid::as_u128`). The
/// conversion that bluer generates from its assigned-numbers list maps the
/// serial port class to the short UUID 0x1101 on the Bluetooth base UUID.
#[verifier::external_body]
fn serial_port_uuid() -> (uuid: u128)
    ensures
        uuid == serial_port_class_uuid(),
{
    bluer::Uuid::from(bluer::id::ServiceClass::SerialPort).as_u128()
}

/// The settings of the serial-port profile registered with the Bluetooth
/// daemon.
#[derive(Debug)]
pub struct ProfileSettings {
    pub uuid: u128,
    pub name: Option<String>,
    pub role: Option<ProfileRole>,
    pub require_authentication: Option<bool>,
    pub require_authorization: Option<bool>,
    pub auto_connect: Option<bool>,
}

/// The name under which the serial client profile is registered.
pub open spec fn client_profile_name() -> Seq<char> {
    "rfcat client"@
}

/// The serial client profile: a client of the serial port service class that
/// needs neither pairing nor authorization and connects its channel as soon
/// as the device is connected.
pub fn serial_client_profile() -> (p: ProfileSettings)
    ensures
        p.uuid == serial_port_class_uuid(),
        p.name matches Some(n) && n@ == client_profile_name(),
        p.role == Some(ProfileRole::Client),
        p.require_authentication == Some(false),
        p.require_authorization == Some(false),
        p.auto_connect == Some(true),
{
    ProfileSettings {
        uuid: serial_port_uuid(),
        name: Some(String::from_str("rfcat client")),
        role: Some(ProfileRole::Client),
        require_authentication: Some(false),
        require_authorization: Some(false),
        auto_connect: Some(true),
    }
}

/// What happens while waiting for the device to connect.
pub enum ConnectEvent {
    /// A try to connect the device's serial profile ended.
    AttemptFinished { succeeded: bool },
    /// A device asks to open a serial connection to us.
    Request { device: DeviceAddress },
}

/// What to do about an event.
#[derive(Clone, Copy, Debug, PartialEq, Eq, Structural)]
pub enum ConnectAction {
    /// Wait, then try again; report the failure of the last try if it failed.
    Retry { report_failure: bool, delay_ms: u64 },
    /// Accept the request: the connection is established and waiting ends.
    Accept,
    /// Turn the request down and keep waiting.
    Reject,
}

/// The decision for one event while waiting for `target` to connect: only a
/// request from the target itself is accepted; every other request is
/// rejected, and after each connection attempt the next one follows after a
/// delay.
pub fn connect_step(target: &DeviceAddress, event: &ConnectEvent) -> (action: ConnectAction)
    ensures
        action == (match *event {
            ConnectEvent::AttemptFinished { succeeded } => ConnectAction::Retry {
                report_failure: !succeeded,
                delay_ms: RETRY_DELAY_MS,
            },
            ConnectEvent::Request { device } => if device == *target {
                ConnectAction::Accept
            } else {
                ConnectAction::Reject
            },
        }),
        action == ConnectAction::Accept <==> (*event matches ConnectEvent::Request { device }
            && device == *target),
{
    match event {
        ConnectEvent::AttemptFinished { succeeded } => ConnectAction::Retry {
            report_failure: !*succeeded,
            delay_ms: RETRY_DELAY_MS,
        },
        ConnectEvent::Request { device } => {
            if device.same_as(target) {
                ConnectAction::Accept
            } else {
                ConnectAction::Reject
            }
        },
    }
}

} // verus!
