//! The region size that a log was produced with.
//!
//! G1 prints its command-line flags on the fourth line of a log. The region
//! size is read from there, in bytes, and given in whole megabytes. It is
//! told to the operator for each log and decides nothing else: the bucket
//! boundaries are the same for every log.

use crate::numeral::{numeral_value, parse_u32};
use crate::search::{contains, cut, includes, split_once};
use vstd::prelude::*;
use vstd::string::StringExecFns;
use vstd::utf8::encode_utf8;

verus! {

/// The index of the line that holds the command-line flags.
pub const HEADER_LINE: usize = 3;

/// The flag without which G1 does not print allocation sizes.
pub const DIAGNOSTICS_FLAG: &'static str = "PrintAdaptiveSizePolicy";

/// What stands before each flag on the header line.
pub const FLAG_PREFIX: &'static str = " -XX:";

/// The name of the flag that sets the region size.
pub const REGION_SIZE_FLAG: &'static str = "G1HeapRegionSize";

/// What stands between a flag's name and its value.
pub const ASSIGNMENT: &'static str = "=";

/// The number of bytes in a megabyte.
pub const BYTES_PER_MB: u32 = 1048576;

/// Why a log has no region size.
#[derive(Clone, Copy, Debug, PartialEq, Eq, Structural)]
pub enum RegionSizeError {
    /// The log has fewer than four lines.
    TooShortLog,
    /// The header line lacks the flag that makes G1 print allocation sizes.
    MissingDiagnosticsFlag,
    /// No flag on the header line names the region size.
    MissingRegionSize,
    /// The flag that names the region size has no value that is a number of
    /// 32 bits.
    MalformedRegionSize,
}

/// The bytes of [`DIAGNOSTICS_FLAG`].
pub open spec fn diagnostics_flag() -> Seq<u8> {
    encode_utf8(DIAGNOSTICS_FLAG@)
}

/// The bytes of [`FLAG_PREFIX`].
pub open spec fn flag_prefix() -> Seq<u8> {
    encode_utf8(FLAG_PREFIX@)
}

/// The bytes of [`REGION_SIZE_FLAG`].
pub open spec fn region_size_flag() -> Seq<u8> {
    encode_utf8(REGION_SIZE_FLAG@)
}

/// The bytes of [`ASSIGNMENT`].
pub open spec fn assignment() -> Seq<u8> {
    encode_utf8(ASSIGNMENT@)
}

/// The first of the parts into which `sep` divides `line` that holds `name`.
/// The parts are what lies between one occurrence of `sep` and the next,
/// found from left to right.
pub open spec fn first_part_with(line: Seq<u8>, sep: Seq<u8>, name: Seq<u8>) -> Option<Seq<u8>>
    decreases line.len(),
{
    match split_once(line, sep) {
        Some((head, tail)) => if contains(head, name) {
            Some(head)
        } else if tail.len() < line.len() {
            first_part_with(tail, sep, name)
        } else {
            None
        },
        None => if contains(line, name) {
            Some(line)
        } else {
            None
        },
    }
}

/// The region size in megabytes that the header line `header` gives.
pub open spec fn header_region_size(header: Seq<u8>) -> Result<u32, RegionSizeError> {
    if !contains(header, diagnostics_flag()) {
        Err(RegionSizeError::MissingDiagnosticsFlag)
    } else {
        match first_part_with(header, flag_prefix(), region_size_flag()) {
            Some(flag) => match split_once(flag, assignment()) {
                Some((_, value)) => match numeral_value(value, u32::MAX as u64) {
                    Some(bytes) => Ok((bytes / (BYTES_PER_MB as u64)) as u32),
                    None => Err(RegionSizeError::MalformedRegionSize),
                },
                None => Err(RegionSizeError::MalformedRegionSize),
            },
            None => Err(RegionSizeError::MissingRegionSize),
        }
    }
}

/// The region size in megabytes that a log of the lines `lines` gives.
pub open spec fn log_region_size(lines: Seq<Seq<char>>) -> Result<u32, RegionSizeError> {
    if lines.len() <= HEADER_LINE {
        Err(RegionSizeError::TooShortLog)
    } else {
        header_region_size(encode_utf8(lines[HEADER_LINE as int]))
    }
}

/// Finds the first of the parts into which `sep` divides `line` that holds
/// `name`.
pub fn find_part<'a>(line: &'a [u8], sep: &[u8], name: &[u8]) -> (r: Option<&'a [u8]>)
    ensures
        match r {
            Some(part) => first_part_with(line@, sep@, name@) == Some(part@),
            None => first_part_with(line@, sep@, name@) is None,
        },
{
    let mut rest: &[u8] = line;
    loop
        invariant
            first_part_with(line@, sep@, name@) == first_part_with(rest@, sep@, name@),
        decreases rest@.len(),
    {
        match cut(rest, sep) {
            Some((head, tail)) => {
                if includes(head, name) {
                    return Some(head);
                }
                if tail.len() >= rest.len() {
                    return None;
                }
                rest = tail;
            },
            None => {
                if includes(rest, name) {
                    return Some(rest);
                }
                return None;
            },
        }
    }
}

/// Reads the region size in megabytes from the header line of a log.
pub fn region_size_of_header(header: &[u8]) -> (r: Result<u32, RegionSizeError>)
    ensures
        r == header_region_size(header@),
{
    if !includes(header, DIAGNOSTICS_FLAG.as_bytes()) {
        return Err(RegionSizeError::MissingDiagnosticsFlag);
    }
    match find_part(header, FLAG_PREFIX.as_bytes(), REGION_SIZE_FLAG.as_bytes()) {
        Some(flag) => match cut(flag, ASSIGNMENT.as_bytes()) {
            Some((_, value)) => match parse_u32(value) {
                Some(bytes) => Ok(bytes / BYTES_PER_MB),
                None => Err(RegionSizeError::MalformedRegionSize),
            },
            None => Err(RegionSizeError::MalformedRegionSize),
        },
        None => Err(RegionSizeError::MissingRegionSize),
    }
}

/// Reads the region size in megabytes from the lines of a log.
pub fn extract_region_size(lines: &Vec<String>) -> (r: Result<u32, RegionSizeError>)
    ensures
        r == log_region_size(lines.deep_view()),
{
    if lines.len() <= HEADER_LINE {
        return Err(RegionSizeError::TooShortLog);
    }
    region_size_of_header(lines[HEADER_LINE].as_str().as_bytes())
}

impl RegionSizeError {
    /// What the operator is told of this error on the log named `file`.
    pub open spec fn text(self, file: Seq<char>) -> Seq<char> {
        match self {
            RegionSizeError::TooShortLog => "ERROR: File "@ + file
                + " did not contain 3+ lines, does not appear to be a valid gc log"@,
            RegionSizeError::MissingDiagnosticsFlag =>
                "ERROR: Humongous allocation sizes are not being printed in the provided gc log. Please add -XX:PrintAdaptiveSizePolicy in order to print out humongous allocation sizes"@,
            RegionSizeError::MissingRegionSize => "ERROR: File "@ + file
                + " does not name its region size, -XX:G1HeapRegionSize is not among its flags"@,
            RegionSizeError::MalformedRegionSize => "ERROR: File "@ + file
                + " gives a region size with -XX:G1HeapRegionSize that is not a number of bytes"@,
        }
    }

    /// Words this error for the operator. `file` names the log.
    pub fn message(&self, file: &str) -> (r: String)
        ensures
            r@ == self.text(file@),
    {
        match self {
            RegionSizeError::TooShortLog => {
                let mut text = String::from_str("ERROR: File ");
                text.append(file);
                text.append(" did not contain 3+ lines, does not appear to be a valid gc log");
                text
            },
            RegionSizeError::MissingDiagnosticsFlag => String::from_str(
                "ERROR: Humongous allocation sizes are not being printed in the provided gc log. Please add -XX:PrintAdaptiveSizePolicy in order to print out humongous allocation sizes",
            ),
            RegionSizeError::MissingRegionSize => {
                let mut text = String::from_str("ERROR: File ");
                text.append(file);
                text.append(
                    " does not name its region size, -XX:G1HeapRegionSize is not among its flags",
                );
                text
            },
            RegionSizeError::MalformedRegionSize => {
                let mut text = String::from_str("ERROR: File ");
                text.append(file);
                text.append(
                    " gives a region size with -XX:G1HeapRegionSize that is not a number of bytes",
                );
                text
            },
        }
    }
}

} // verus!
