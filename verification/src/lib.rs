//! Codec for the wire format of AWDL (Apple Wireless Direct Link) action
//! frames: a fixed 12-byte header followed by a sequence of type-length-value
//! records, each with its own binary sub-format.
//!
//! Every decoder is specified against a functional parsing specification and
//! every encoder against a functional serialization specification, and the
//! round-trip theorem between the two is proved for each record type except
//! the data path state, whose round trip is carried by its well-formedness
//! predicate.
use vstd::prelude::*;

pub mod action_frame;
pub mod arpa;
pub mod awdl_str;
pub mod awdl_version;
pub mod bytes;
pub mod channel;
pub mod channel_sequence;
pub mod container;
pub mod data_path_flags;
pub mod data_path_misc;
pub mod data_path_state;
pub mod dns_compression;
pub mod dns_name;
pub mod dns_record;
pub mod election_parameters;
pub mod ht_capabilities;
pub mod parser;
pub mod service_parameters;
pub mod service_response;
pub mod sync_parameters;
pub mod sync_tree;
pub mod tlv;
pub mod tlvs;
pub mod version;

verus! {

} // verus!
