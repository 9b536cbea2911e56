//! Bluetooth serial-port bridge for the WLambda scripting language: the
//! decisions the bridge takes between the Bluetooth stack, the serial link and
//! the script, each with a contract.
pub mod address;
pub mod connect;
pub mod discovery;
pub mod reader;
pub mod script;
