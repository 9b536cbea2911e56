//! The receiving side of a serial link: what is done with each read from the
//! device.
use vstd::prelude::*;
use vstd::utf8::{decode_utf8, encode_utf8, valid_utf8};

use crate::address::DeviceAddress;

verus! {

broadcast use {vstd::utf8::encode_utf8_decode_utf8, vstd::utf8::decode_utf8_encode_utf8};

/// Size of the buffer one read fills at most.
pub const READ_BUFFER_SIZE: usize = 256;

/// Milliseconds to pause after each read before the next one.
pub const READ_PAUSE_MS: u64 = 100;

/// Decodes bytes as UTF-8 text, with `std::str::from_utf8`: it succeeds
/// exactly on valid UTF-8, and the text it gives has exactly the given bytes.
#[verifier::external_body]
fn utf8_text<'a>(bytes: &'a [u8]) -> (text: Option<&'a str>)
    ensures
        text is Some <==> valid_utf8(bytes@),
        text matches Some(t) ==> encode_utf8(t@) == bytes@,
{
    match std::str::from_utf8(bytes) {
        Ok(t) => Some(t),
        Err(_) => None,
    }
}

/// The symbol that tags data received from a device.
pub open spec fn data_tag() -> Seq<char> {
    "bt_data"@
}

/// Data received from a device, as handed to the script's channel: the tag,
/// the device's address as a byte string, and the text.
#[derive(Debug)]
pub struct ReceivedData {
    pub tag: String,
    pub address: Vec<u8>,
    pub text: String,
}

/// The result of one read from the link.
pub enum ReadOutcome {
    /// The read failed; the error's description.
    Failed(String),
    /// The bytes that were read.
    Received(Vec<u8>),
}

/// What to do with one read.
#[derive(Debug)]
pub enum ReadAction {
    /// Report the read error and go on reading.
    ReportError(String),
    /// The bytes are text: report it, and hand `data` to the script when it
    /// listens.
    Deliver { text: String, data: Option<ReceivedData> },
    /// The bytes are no UTF-8 text; they are dropped.
    Discard,
}

/// Decides what happens with one read from the device at `address`; a
/// script listens when `has_listener` holds. Text handed to the script is
/// exactly what was received: encoded again, it gives the bytes read.
pub fn read_step(address: &DeviceAddress, outcome: ReadOutcome, has_listener: bool) -> (action:
    ReadAction)
    ensures
        match outcome {
            ReadOutcome::Failed(e) => action matches ReadAction::ReportError(m) && m == e,
            ReadOutcome::Received(bytes) => if valid_utf8(bytes@) {
                &&& action matches ReadAction::Deliver { text, data }
                &&& text@ == decode_utf8(bytes@)
                &&& data is Some <==> has_listener
                &&& data matches Some(d) ==> {
                    &&& d.tag@ == data_tag()
                    &&& d.address@ == address.bytes()
                    &&& d.text@ == decode_utf8(bytes@)
                    // the text handed on is exactly the bytes received
                    &&& encode_utf8(d.text@) == bytes@
                }
            } else {
                action is Discard
            },
        },
{
    match outcome {
        ReadOutcome::Failed(e) => ReadAction::ReportError(e),
        ReadOutcome::Received(bytes) => {
            match utf8_text(bytes.as_slice()) {
                Some(t) => {
                    let text = t.to_owned();
                    let data = if has_listener {
                        Some(
                            ReceivedData {
                                tag: String::from_str("bt_data"),
                                address: address.to_bytes(),
                                text: t.to_owned(),
                            },
                        )
                    } else {
                        None
                    };
                    ReadAction::Deliver { text, data }
                },
                None => ReadAction::Discard,
            }
        },
    }
}

} // verus!
