//! Configuration values for the monitor: the message-kind filter, the output
//! format, the per-field display toggles, and the functions that parse each of
//! them from its command-line spelling.

use vstd::prelude::*;
use vstd::string::StrSliceExecFns;

verus! {

/// The two kinds of DNS message, told apart by the header's QR bit.
#[derive(Clone, Copy, PartialEq, Eq, Structural, Debug)]
pub enum PacketType {
    Query,
    Response,
}

/// The output renderer to use.
#[derive(Clone, Copy, PartialEq, Eq, Structural, Debug)]
pub enum OutputFormat {
    Text,
    Table,
    Csv,
}

/// Which optional record fields a renderer shows.
#[derive(Clone, Copy, PartialEq, Eq, Structural, Debug)]
pub struct FormatOptions {
    pub port: bool,
    pub service_name: bool,
    pub packet_type: bool,
}

/// A configuration value that could not be parsed.
#[derive(Clone, Copy, PartialEq, Eq, Structural, Debug)]
pub enum ConfigError {
    UnknownFilter,
    UnknownOption,
    UnknownFormat,
}

/// The settled configuration the pipeline runs under, immutable once built.
#[derive(Debug, Clone)]
pub struct Config {
    pub device: Option<String>,
    pub filter: Option<PacketType>,
    pub options: FormatOptions,
    pub format: OutputFormat,
}

/// Character-wise equality of two string slices.
fn str_eq(a: &str, b: &str) -> (r: bool)
    ensures
        r == (a@ == b@),
{
    let alen = a.unicode_len();
    if alen != b.unicode_len() {
        return false;
    }
    let mut i: usize = 0;
    while i < alen
        invariant
            i <= alen,
            alen == a@.len(),
            alen == b@.len(),
            forall|j: int| 0 <= j < i ==> a@[j] == b@[j],
        decreases alen - i,
    {
        if a.get_char(i) != b.get_char(i) {
            return false;
        }
        i += 1;
    }
    proof {
        assert(a@ =~= b@);
    }
    true
}

pub open spec fn spec_packet_type_from(s: Seq<char>) -> Result<PacketType, ConfigError> {
    if s == "q"@ {
        Ok(PacketType::Query)
    } else if s == "r"@ {
        Ok(PacketType::Response)
    } else {
        Err(ConfigError::UnknownFilter)
    }
}

impl PacketType {
    /// Parses the filter flag: `q` names queries, `r` names responses.
    pub fn from_str(s: &str) -> (r: Result<PacketType, ConfigError>)
        ensures
            r == spec_packet_type_from(s@),
    {
        if str_eq(s, "q") {
            Ok(PacketType::Query)
        } else if str_eq(s, "r") {
            Ok(PacketType::Response)
        } else {
            Err(ConfigError::UnknownFilter)
        }
    }
}

pub open spec fn spec_output_format_from(s: Seq<char>) -> Result<OutputFormat, ConfigError> {
    if s == "text"@ {
        Ok(OutputFormat::Text)
    } else if s == "table"@ {
        Ok(OutputFormat::Table)
    } else if s == "csv"@ {
        Ok(OutputFormat::Csv)
    } else {
        Err(ConfigError::UnknownFormat)
    }
}

impl OutputFormat {
    /// Parses the output-format selector: one of `text`, `table`, `csv`.
    pub fn from_str(s: &str) -> (r: Result<OutputFormat, ConfigError>)
        ensures
            r == spec_output_format_from(s@),
    {
        if str_eq(s, "text") {
            Ok(OutputFormat::Text)
        } else if str_eq(s, "table") {
            Ok(OutputFormat::Table)
        } else if str_eq(s, "csv") {
            Ok(OutputFormat::Csv)
        } else {
            Err(ConfigError::UnknownFormat)
        }
    }
}

/// Whether some position of `s` holds the character `c`.
pub open spec fn has_option(s: Seq<char>, c: char) -> bool {
    exists|i: int| 0 <= i < s.len() && s[i] == c
}

/// Whether every character of `s` is one of the known display-toggle letters.
pub open spec fn all_known_options(s: Seq<char>) -> bool {
    forall|i: int| 0 <= i < s.len() ==> (s[i] == 'p' || s[i] == 's' || s[i] == 't')
}

pub open spec fn spec_format_options_from(s: Seq<char>) -> Result<FormatOptions, ConfigError> {
    if all_known_options(s) {
        Ok(FormatOptions {
            port: has_option(s, 'p'),
            service_name: has_option(s, 's'),
            packet_type: has_option(s, 't'),
        })
    } else {
        Err(ConfigError::UnknownOption)
    }
}

impl FormatOptions {
    /// All toggles off: no optional field is displayed.
    pub open spec fn spec_default() -> FormatOptions {
        FormatOptions { port: false, service_name: false, packet_type: false }
    }

    /// Parses the display-toggle letters: `p` for port, `s` for service name,
    /// `t` for message kind; any other letter is rejected.
    pub fn from_str(s: &str) -> (r: Result<FormatOptions, ConfigError>)
        ensures
            r == spec_format_options_from(s@),
    {
        let n = s.unicode_len();
        let mut port = false;
        let mut service_name = false;
        let mut packet_type = false;
        let mut i: usize = 0;
        while i < n
            invariant
                i <= n,
                n == s@.len(),
                forall|j: int| 0 <= j < i ==> (s@[j] == 'p' || s@[j] == 's' || s@[j] == 't'),
                port == (exists|j: int| 0 <= j < i && s@[j] == 'p'),
                service_name == (exists|j: int| 0 <= j < i && s@[j] == 's'),
                packet_type == (exists|j: int| 0 <= j < i && s@[j] == 't'),
            decreases n - i,
        {
            let c = s.get_char(i);
            if c == 'p' {
                port = true;
            } else if c == 's' {
                service_name = true;
            } else if c == 't' {
                packet_type = true;
            } else {
                assert(!all_known_options(s@));
                return Err(ConfigError::UnknownOption);
            }
            i += 1;
        }
        Ok(FormatOptions { port, service_name, packet_type })
    }
}

impl Default for FormatOptions {
    fn default() -> (r: FormatOptions)
        ensures
            r == FormatOptions::spec_default(),
    {
        FormatOptions { port: false, service_name: false, packet_type: false }
    }
}

impl Config {
    /// Settles a configuration from the optional command-line values: a
    /// missing toggle set means every toggle off, and a missing format means
    /// plain text.
    pub fn parse(
        device: Option<String>,
        filter: Option<PacketType>,
        options: Option<FormatOptions>,
        format: Option<OutputFormat>,
    ) -> (c: Config)
        ensures
            c.device == device,
            c.filter == filter,
            c.options == (match options {
                Some(o) => o,
                None => FormatOptions::spec_default(),
            }),
            c.format == (match format {
                Some(f) => f,
                None => OutputFormat::Text,
            }),
    {
        let options = match options {
            Some(o) => o,
            None => FormatOptions { port: false, service_name: false, packet_type: false },
        };
        let format = match format {
            Some(f) => f,
            None => OutputFormat::Text,
        };
        Config { device, filter, options, format }
    }
}

} // verus!
