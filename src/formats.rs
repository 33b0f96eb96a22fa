//! The names of the formats that the command line accepts.
use vstd::prelude::*;

verus! {

/// The two base64 alphabets.
#[derive(Clone, Copy, PartialEq, Eq, Debug, Structural)]
pub enum Base64Format {
    /// The standard alphabet, padded with `=`.
    Standard,
    /// The URL-safe alphabet, without padding.
    UrlSafe,
}

/// The formats a CSV file can be turned into.
#[derive(Clone, Copy, PartialEq, Eq, Debug, Structural)]
pub enum OutputFormat {
    Json,
    Yaml,
    Csv,
}

/// The two ways to sign a text.
#[derive(Clone, Copy, PartialEq, Eq, Debug, Structural)]
pub enum TextSignFormat {
    /// A keyed BLAKE3 hash with a shared key.
    Blake3,
    /// An Ed25519 signature with a key pair.
    Ed25519,
}

/// A format name that is not known.
#[derive(PartialEq, Eq, Debug)]
pub enum FormatError {
    InvalidBase64Format,
    UnsupportedOutputFormat(String),
    InvalidTextSignFormat,
}

/// The text `str::to_lowercase` makes of `s`.
pub uninterp spec fn lowercase_of(s: Seq<char>) -> Seq<char>;

/// Relies on `str::to_lowercase`, whose result depends on the characters of
/// its argument alone.
#[verifier::external_body]
fn to_lowercase(s: &str) -> (r: String)
    ensures
        r@ == lowercase_of(s@),
{
    s.to_lowercase()
}

/// Whether two texts hold the same characters.
pub fn same_text(a: &str, b: &str) -> (r: bool)
    ensures
        r == (a@ == b@),
{
    let n = a.unicode_len();
    if n != b.unicode_len() {
        return false;
    }
    let mut i: usize = 0;
    while i < n
        invariant
            n == a@.len() == b@.len(),
            i <= n,
            forall|k: int| 0 <= k < i ==> a@[k] == b@[k],
        decreases n - i,
    {
        if a.get_char(i) != b.get_char(i) {
            return false;
        }
        i = i + 1;
    }
    assert(a@ =~= b@);
    true
}

impl Base64Format {
    pub open spec fn name(self) -> Seq<char> {
        match self {
            Base64Format::Standard => "standard"@,
            Base64Format::UrlSafe => "urlsafe"@,
        }
    }

    /// The name the command line uses for this alphabet.
    pub fn as_str(&self) -> (r: &'static str)
        ensures
            r@ == self.name(),
    {
        match self {
            Base64Format::Standard => "standard",
            Base64Format::UrlSafe => "urlsafe",
        }
    }

    pub fn to_string(&self) -> (r: String)
        ensures
            r@ == self.name(),
    {
        String::from_str(self.as_str())
    }
}

/// The alphabet named by `lower`, a name already in lower case.
pub fn base64_format_of_lowercase(lower: &str) -> (r: Result<Base64Format, FormatError>)
    ensures
        r == Ok::<Base64Format, FormatError>(Base64Format::Standard) <==> lower@ == "standard"@,
        r == Ok::<Base64Format, FormatError>(Base64Format::UrlSafe) <==> lower@ == "urlsafe"@,
        r is Err ==> r == Err::<Base64Format, FormatError>(FormatError::InvalidBase64Format),
{
    proof {
        reveal_strlit("standard");
        reveal_strlit("urlsafe");
        assert("standard"@[0] != "urlsafe"@[0]);
    }
    if same_text(lower, "standard") {
        Ok(Base64Format::Standard)
    } else if same_text(lower, "urlsafe") {
        Ok(Base64Format::UrlSafe)
    } else {
        Err(FormatError::InvalidBase64Format)
    }
}

/// The alphabet named by `s`, in any case.
pub fn parse_base64_format(s: &str) -> (r: Result<Base64Format, FormatError>)
    ensures
        r == Ok::<Base64Format, FormatError>(Base64Format::Standard) <==> lowercase_of(s@)
            == "standard"@,
        r == Ok::<Base64Format, FormatError>(Base64Format::UrlSafe) <==> lowercase_of(s@)
            == "urlsafe"@,
        r is Err ==> r == Err::<Base64Format, FormatError>(FormatError::InvalidBase64Format),
{
    let lower = to_lowercase(s);
    base64_format_of_lowercase(lower.as_str())
}

impl OutputFormat {
    pub open spec fn name(self) -> Seq<char> {
        match self {
            OutputFormat::Json => "json"@,
            OutputFormat::Yaml => "yaml"@,
            OutputFormat::Csv => "csv"@,
        }
    }

    /// The name of the format, which is also the extension of its files.
    pub fn as_str(&self) -> (r: &'static str)
        ensures
            r@ == self.name(),
    {
        match self {
            OutputFormat::Json => "json",
            OutputFormat::Yaml => "yaml",
            OutputFormat::Csv => "csv",
        }
    }

    pub fn to_string(&self) -> (r: String)
        ensures
            r@ == self.name(),
    {
        String::from_str(self.as_str())
    }
}

/// The output format named by `format`, which must be written in lower case.
pub fn parse_format(format: &str) -> (r: Result<OutputFormat, FormatError>)
    ensures
        r == Ok::<OutputFormat, FormatError>(OutputFormat::Json) <==> format@ == "json"@,
        r == Ok::<OutputFormat, FormatError>(OutputFormat::Yaml) <==> format@ == "yaml"@,
        r == Ok::<OutputFormat, FormatError>(OutputFormat::Csv) <==> format@ == "csv"@,
        r is Err <==> (format@ != "json"@ && format@ != "yaml"@ && format@ != "csv"@),
        r matches Err(e) ==> e matches FormatError::UnsupportedOutputFormat(given) && given@
            == format@,
{
    proof {
        reveal_strlit("json");
        reveal_strlit("yaml");
        reveal_strlit("csv");
        assert("json"@[0] != "yaml"@[0]);
    }
    if same_text(format, "json") {
        Ok(OutputFormat::Json)
    } else if same_text(format, "yaml") {
        Ok(OutputFormat::Yaml)
    } else if same_text(format, "csv") {
        Ok(OutputFormat::Csv)
    } else {
        Err(FormatError::UnsupportedOutputFormat(String::from_str(format)))
    }
}

impl TextSignFormat {
    pub open spec fn name(self) -> Seq<char> {
        match self {
            TextSignFormat::Blake3 => "blake3"@,
            TextSignFormat::Ed25519 => "ed25519"@,
        }
    }

    pub fn as_str(&self) -> (r: &'static str)
        ensures
            r@ == self.name(),
    {
        match self {
            TextSignFormat::Blake3 => "blake3",
            TextSignFormat::Ed25519 => "ed25519",
        }
    }

    /// The name of the format in lower case.
    pub fn to_string(&self) -> (r: String)
        ensures
            r@ == self.name(),
    {
        String::from_str(self.as_str())
    }
}

/// The signing format named by `s`, which must be written in lower case.
pub fn value_parser(s: &str) -> (r: Result<TextSignFormat, FormatError>)
    ensures
        r == Ok::<TextSignFormat, FormatError>(TextSignFormat::Blake3) <==> s@ == "blake3"@,
        r == Ok::<TextSignFormat, FormatError>(TextSignFormat::Ed25519) <==> s@ == "ed25519"@,
        r is Err <==> (s@ != "blake3"@ && s@ != "ed25519"@),
        r is Err ==> r == Err::<TextSignFormat, FormatError>(FormatError::InvalidTextSignFormat),
{
    proof {
        reveal_strlit("blake3");
        reveal_strlit("ed25519");
        assert("blake3"@.len() != "ed25519"@.len());
    }
    if same_text(s, "blake3") {
        Ok(TextSignFormat::Blake3)
    } else if same_text(s, "ed25519") {
        Ok(TextSignFormat::Ed25519)
    } else {
        Err(FormatError::InvalidTextSignFormat)
    }
}

impl FormatError {
    /// The message that tells the user what went wrong.
    pub fn message(&self) -> (r: String)
        ensures
            self matches FormatError::UnsupportedOutputFormat(given) ==> r@
                == "Unsupported output format: "@ + given@,
            self is InvalidBase64Format ==> r@ == "Invalid base64 format"@,
            self is InvalidTextSignFormat ==> r@ == "Invalid text sign format: Matching variant not found"@,
    {
        match self {
            FormatError::InvalidBase64Format => String::from_str("Invalid base64 format"),
            FormatError::UnsupportedOutputFormat(given) => {
                let mut r = String::from_str("Unsupported output format: ");
                r.append(given.as_str());
                r
            },
            FormatError::InvalidTextSignFormat => String::from_str(
                "Invalid text sign format: Matching variant not found",
            ),
        }
    }
}

} // verus!
