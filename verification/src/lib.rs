//! Stable storage for canister state.
//!
//! A saved region is laid out as
//!
//! * V2: a fixed binary header followed by the content, encoded as MessagePack or bincode;
//! * V1: the content alone, encoded as MessagePack.
//!
//! The modules below hold the header codec, the two content codecs, the schema-migration
//! helpers, both layouts, the canister-side storage operations and the planning of chunked
//! backup and restore transfers. Beside them stands the configuration of the canisters: on
//! which networks they run, which instances they have there, and which identities control
//! them.

pub mod agent_impl;
pub mod canister_agent;
pub mod canister_init_arguments;
pub mod data_format;
pub mod dscvr_canister_context;
pub mod dscvr_canister_exports;
pub mod dscvr_interface;
pub mod header;
pub mod ic_identity_util;
pub mod interface;
pub mod migration;
pub mod movable_io;
pub mod schema;
pub mod scoped_instruction_counter;
pub mod stable_storage_restore_backup;
pub mod string_map;
pub mod text;
pub mod transient;
pub mod v1;
pub mod v2;
pub mod windows;

use crate::header::HeaderError;
use crate::movable_io::IoError;
use vstd::prelude::*;
use vstd::string::StringExecFns;

verus! {

/// Size of a stable storage page in bytes (64 KiB).
pub const WASM_PAGE_SIZE_IN_BYTES: usize = 65536;

#[verifier::external_type_specification]
#[verifier::external_body]
pub struct ExMsgPackDecodeError(rmp_serde::decode::Error);

#[verifier::external_type_specification]
#[verifier::external_body]
pub struct ExMsgPackEncodeError(rmp_serde::encode::Error);

#[verifier::external_type_specification]
#[verifier::external_body]
pub struct ExBincodeErrorKind(bincode::ErrorKind);

/// Stable storage error
#[derive(Debug)]
pub enum StorageError {
    /// MessagePack could not decode the content.
    MsgPackDecodeError(rmp_serde::decode::Error),
    /// MessagePack could not encode the value.
    MsgPackEncodeError(rmp_serde::encode::Error),
    /// bincode could not encode the value or decode the content.
    BincodeError(Box<bincode::ErrorKind>),
    /// The region could not be read or written.
    Io(IoError),
    /// The header is not one that this version reads or writes.
    Header(HeaderError),
}

/// The text of a MessagePack decoding error.
///
/// Calls `to_string`, which writes the error as its `Display` impl does. Nothing is claimed
/// of the text.
#[verifier::external_body]
fn msgpack_decode_error_text(error: &rmp_serde::decode::Error) -> String {
    error.to_string()
}

/// The text of a MessagePack encoding error.
///
/// Calls `to_string`, which writes the error as its `Display` impl does. Nothing is claimed
/// of the text.
#[verifier::external_body]
fn msgpack_encode_error_text(error: &rmp_serde::encode::Error) -> String {
    error.to_string()
}

/// The text of a bincode error.
///
/// Calls `to_string`, which writes the error as its `Display` impl does. Nothing is claimed
/// of the text.
#[verifier::external_body]
fn bincode_error_text(error: &Box<bincode::ErrorKind>) -> String {
    error.to_string()
}

impl StorageError {
    /// The text of this error: the kind of the error and, for an error of a codec, what
    /// the codec says of it.
    pub fn to_string(&self) -> (text: String)
        ensures
            *self is Io ==> text@ == "io"@,
            *self is Header ==> text@ == "header"@,
            *self is MsgPackDecodeError ==> "msgpack decode "@.is_prefix_of(text@),
            *self is MsgPackEncodeError ==> "msgpack encode "@.is_prefix_of(text@),
            *self is BincodeError ==> "bincode "@.is_prefix_of(text@),
    {
        match self {
            StorageError::MsgPackDecodeError(e) => {
                let mut text = String::from_str("msgpack decode ");
                text.append(msgpack_decode_error_text(e).as_str());
                assert(text@.subrange(0, "msgpack decode "@.len() as int) =~= "msgpack decode "@);
                text
            },
            StorageError::MsgPackEncodeError(e) => {
                let mut text = String::from_str("msgpack encode ");
                text.append(msgpack_encode_error_text(e).as_str());
                assert(text@.subrange(0, "msgpack encode "@.len() as int) =~= "msgpack encode "@);
                text
            },
            StorageError::BincodeError(e) => {
                let mut text = String::from_str("bincode ");
                text.append(bincode_error_text(e).as_str());
                assert(text@.subrange(0, "bincode "@.len() as int) =~= "bincode "@);
                text
            },
            StorageError::Io(_) => String::from_str("io"),
            StorageError::Header(_) => String::from_str("header"),
        }
    }
}

} // verus!
