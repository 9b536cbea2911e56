//! The script-facing side of the bridge: how a serial port object answers the
//! methods a script calls on it, the checks on script arguments, and the
//! names under which the bridge's objects show in scripts.
use vstd::prelude::*;

use crate::address::{ADDRESS_LEN, DeviceAddress, lemma_bytes_roundtrip};
use crate::discovery::{DeviceEntry, DiscoveredDevice};

verus! {

/// How a port object answers a method call.
#[derive(Debug)]
pub enum PortCall {
    /// Write the call's single argument to the link.
    Send,
    /// Raise an error in the script with this message.
    Fail(String),
}

/// The one method a serial port object offers.
pub open spec fn send_method() -> Seq<char> {
    "send"@
}

/// The message of a `send` call with the wrong number of arguments.
pub open spec fn send_arity_message() -> Seq<char> {
    "send method expects 1 argument"@
}

/// The message of a call of a method the port object does not have.
pub open spec fn unknown_method_message(key: Seq<char>) -> Seq<char> {
    "unknown method called: "@ + key
}

/// Answers the call of method `key` with `argc` arguments on a serial port
/// object: `send` with exactly one argument writes it; `send` with another
/// number of arguments and every other method fail.
pub fn port_method(key: &str, argc: usize) -> (call: PortCall)
    ensures
        key@ == send_method() && argc == 1 ==> call is Send,
        key@ == send_method() && argc != 1 ==> (call matches PortCall::Fail(m) && m@
            == send_arity_message()),
        key@ != send_method() ==> (call matches PortCall::Fail(m) && m@
            == unknown_method_message(key@)),
{
    let name = String::from_str(key);
    let send = String::from_str("send");
    if name == send {
        if argc != 1 {
            PortCall::Fail(String::from_str("send method expects 1 argument"))
        } else {
            PortCall::Send
        }
    } else {
        PortCall::Fail(String::from_str("unknown method called: ").concat(key))
    }
}

/// The message when the address given to `spawn_port_for_address` (shown as
/// `shown`) is not six bytes long.
pub open spec fn address_length_message(shown: Seq<char>) -> Seq<char> {
    "blue:spawn_port_for_address address argument needs to be 6 bytes long, got: '"@ + shown
        + "'"@
}

/// Checks the address argument of `spawn_port_for_address`: its bytes must
/// form a device address; otherwise the error names the argument as the
/// script shows it (`shown`).
pub fn address_argument(bytes: &[u8], shown: &str) -> (addr: Result<DeviceAddress, String>)
    ensures
        addr is Ok <==> bytes@.len() == ADDRESS_LEN,
        addr matches Ok(a) ==> a.bytes() == bytes@,
        addr matches Err(m) ==> m@ == address_length_message(shown@),
{
    match DeviceAddress::from_bytes(bytes) {
        Some(a) => Ok(a),
        None => Err(
            String::from_str(
                "blue:spawn_port_for_address address argument needs to be 6 bytes long, got: '",
            ).concat(shown).concat("'"),
        ),
    }
}

/// An address that the device list hands to a script, given back as the
/// address argument of `spawn_port_for_address`, is accepted and names the
/// very device it was listed for.
pub proof fn lemma_listed_address_accepted(device: DiscoveredDevice, entry: DeviceEntry)
    requires
        entry.addr@ == device.address.bytes(),
    ensures
        entry.addr@.len() == ADDRESS_LEN,
        forall|a: DeviceAddress| #[trigger] a.bytes() == entry.addr@ ==> a == device.address,
{
    lemma_bytes_roundtrip(device.address);
}

/// How an adapter object shows in scripts.
pub fn adapter_label() -> (label: String)
    ensures
        label@ == "$<BluetoothAdapter>"@,
{
    String::from_str("$<BluetoothAdapter>")
}

/// How a serial port object shows in scripts.
pub fn port_label() -> (label: String)
    ensures
        label@ == "$<BluetoothSerialPort>"@,
{
    String::from_str("$<BluetoothSerialPort>")
}

/// The script run when none is named on the command line.
pub open spec fn default_script() -> Seq<char> {
    "main.wl"@
}

/// The script to run: the one named on the command line, else the default.
pub fn script_path(arg: Option<String>) -> (path: String)
    ensures
        match arg {
            Some(a) => path == a,
            None => path@ == default_script(),
        },
{
    match arg {
        Some(a) => a,
        None => String::from_str("main.wl"),
    }
}

} // verus!
