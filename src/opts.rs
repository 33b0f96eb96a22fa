//! The commands and options of the command line, as plain values.
use vstd::prelude::*;

use crate::formats::{Base64Format, OutputFormat, TextSignFormat};

verus! {

/// The whole command line.
pub struct Opts {
    pub sub: SubCommand,
}

/// The tools the program offers.
pub enum SubCommand {
    /// Show a CSV file, or convert it to other formats.
    Csv(CsvOpts),
    /// Generate a password.
    GenPass(GenPassOpts),
    Base64(Base64SubCommand),
    Text(TextSubCommand),
    Http(HttpSubCommand),
}

pub struct CsvOpts {
    pub input: String,
    pub output: Option<String>,
    pub format: OutputFormat,
    pub delimiter: char,
    pub header: bool,
}

impl CsvOpts {
    /// Where the converted file goes: the path given, else `output.` with
    /// the format's extension.
    pub fn output_path(&self) -> (r: String)
        ensures
            self.output matches Some(o) ==> r@ == o@,
            self.output is None ==> r@ == "output."@ + self.format.name(),
    {
        match &self.output {
            Some(o) => o.clone(),
            None => {
                let mut r = String::from_str("output.");
                r.append(self.format.as_str());
                r
            },
        }
    }
}

pub struct GenPassOpts {
    pub length: u8,
    pub upper_case: bool,
    pub lower_case: bool,
    pub number: bool,
    pub symbol: bool,
}

pub enum Base64SubCommand {
    EnCode(Base64EncodeOpts),
    DeCode(Base64DecodeOpts),
}

pub struct Base64EncodeOpts {
    pub input: String,
    pub format: Base64Format,
}

pub struct Base64DecodeOpts {
    pub input: String,
    pub format: Base64Format,
}

pub enum TextSubCommand {
    /// Sign a message with a private or shared key.
    Sign(TextSignOpts),
    /// Verify a message with a public or shared key.
    Verify(TextVerifyOpts),
    /// Generate a new key or key pair.
    Generate(TextKeyGenerateOpts),
}

pub struct TextSignOpts {
    pub input: String,
    pub key: String,
    pub format: TextSignFormat,
}

pub struct TextVerifyOpts {
    pub input: String,
    pub key: String,
    pub sig: String,
    pub format: TextSignFormat,
}

pub struct TextKeyGenerateOpts {
    pub format: TextSignFormat,
    pub output_path: String,
}

pub enum HttpSubCommand {
    /// Serve a directory over HTTP.
    Serve(HttpServerOpts),
}

/// What the directory server is started with: the root of the tree it
/// serves and the port it listens on. It is never changed afterwards.
pub struct HttpServerOpts {
    pub dir: String,
    pub port: u16,
}

} // verus!
