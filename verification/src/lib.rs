//! Decoding of IPv4 and IPv6 addresses, CIDR specifications and netmasks.
//!
//! An input is a bare prefix length such as `/24`, a CIDR specification such
//! as `10.0.0.0/8`, or a plain address. `report::decode` reads an input and
//! gives the lines that tell what it denotes: the netmask of a prefix length,
//! and the facts of an address (its family, the special-use range that holds
//! it, the well-known resolver that has it, its class).
//!
//! - `address`: address values and their range predicates
//! - `dotted`, `colon_hex`, `notation`: reading and writing addresses as text
//! - `netmask`: the netmask of a prefix length
//! - `table`, `classify`: tables of address ranges and the facts of an address
//! - `input`, `error`: what an input asks to decode, and why it is refused
//! - `report`: the lines of the report
//! - `digits`, `text`: numbers as text, splitting and joining of text

pub mod address;
pub mod classify;
pub mod colon_hex;
pub mod digits;
pub mod dotted;
pub mod error;
pub mod input;
pub mod netmask;
pub mod notation;
pub mod report;
pub mod table;
pub mod text;
