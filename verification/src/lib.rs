//! Clients of Copland attestation managers: the protocol terms they build,
//! the arguments they fill in, the requests and reports they exchange, and
//! how messages are framed on the wire, with their contracts proved by Verus.
#![allow(non_camel_case_types, non_snake_case)]

pub mod am_client;
pub mod am_protocol;
pub mod client_args;
pub mod copland;
pub mod framing;
pub mod hamr;
pub mod hex;
pub mod json_value;
pub mod resolute;
pub mod rodeo;
pub mod str_map;
pub mod test_client_args;
