//! A command-line toolbox whose main tool serves a directory tree over HTTP:
//! request paths are resolved under a root that they can never leave,
//! directories are shown as HTML listings and files are sent as they are.
//! Beside it stand base64 coding, text signing, password generation and the
//! shape of CSV conversion.
use vstd::prelude::*;

pub mod bytes;
pub mod codec;
pub mod formats;
pub mod inputs;
pub mod listing;
pub mod opts;
pub mod password;
pub mod path;
pub mod router;
pub mod table;
pub mod text;
pub mod utf8;

pub use bytes::trim_whitespace;
pub use codec::{process_base64_decode, process_base64_encode, Base64Error};
pub use formats::{
    parse_base64_format, parse_format, value_parser, Base64Format, FormatError, OutputFormat,
    TextSignFormat,
};
pub use inputs::{verify_file, verify_input_file, verify_path};
pub use opts::{
    Base64DecodeOpts, Base64EncodeOpts, Base64SubCommand, CsvOpts, GenPassOpts, HttpServerOpts,
    HttpSubCommand, Opts, SubCommand, TextKeyGenerateOpts, TextSignOpts, TextSubCommand,
    TextVerifyOpts,
};
pub use password::{gen_pass, PasswordError};
pub use table::Record;
pub use text::{
    process_text_key_generate, process_text_sign, process_text_verify, Blake3, Ed25519Signer,
    Ed25519Verifier, KeyFile, TextError,
};

verus! {

} // verus!
