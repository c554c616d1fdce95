//! Loading the primary executable section of a payload or stub object file.
//!
//! The container format is parsed by the `object` crate; what it finds is
//! named by uninterpreted spec functions so every later decision about the
//! section is verified against those names.

use vstd::prelude::*;
use object::{Object, ObjectSection};

verus! {

/// Whether `file` is an object-file container that parses and exposes a
/// `.text` section whose data can be read.
pub uninterp spec fn text_section_found(file: Seq<u8>) -> bool;

/// The bytes of the `.text` section of `file`.
pub uninterp spec fn text_section_data(file: Seq<u8>) -> Seq<u8>;

/// The virtual address of the `.text` section of `file`.
pub uninterp spec fn text_section_addr(file: Seq<u8>) -> u64;

/// The size in memory of the `.text` section of `file`.
pub uninterp spec fn text_section_size(file: Seq<u8>) -> u64;

/// The entry address recorded in `file`.
pub uninterp spec fn file_entry(file: Seq<u8>) -> u64;

/// Relies on `object::File::parse`, `object::Object::{section_by_name, entry}`
/// and `object::ObjectSection::{data, address, size}`: parses the container,
/// looks the section named ".text" up and hands back its data, virtual
/// address and size together with the file's entry address. Every result is a
/// function of the file bytes alone.
#[verifier::external_body]
fn extract_text_section(file: &[u8]) -> (r: Option<(Vec<u8>, u64, u64, u64)>)
    ensures
        r is Some <==> text_section_found(file@),
        r matches Some(t) ==> t.0@ == text_section_data(file@)
            && t.1 == text_section_addr(file@)
            && t.2 == text_section_size(file@)
            && t.3 == file_entry(file@),
{
    let obj = match object::File::parse(file) {
        Ok(o) => o,
        Err(_) => return None,
    };
    let section = match obj.section_by_name(".text") {
        Some(s) => s,
        None => return None,
    };
    let data = match section.data() {
        Ok(d) => d.to_vec(),
        Err(_) => return None,
    };
    Some((data, section.address(), section.size(), obj.entry()))
}

/// A configuration problem detected while loading an object file. It is fatal
/// and surfaces before any guest memory is touched.
#[derive(Copy, Clone, Debug, PartialEq, Eq, Structural)]
pub enum ConfigError {
    /// The container does not parse, or it has no readable `.text` section.
    MissingSection,
    /// The entry address lies above the executable section, so the section's
    /// offset from the entry is not representable.
    EntryAboveSection,
    /// A stub that must begin right at the file's entry has its section at a
    /// nonzero offset from it.
    NonzeroOffset,
}

/// The primary executable section of an object file.
pub struct ParsedSection {
    /// The section's bytes.
    pub data: Vec<u8>,
    /// Section address minus the file's entry address.
    pub offset: u64,
    /// The section's size in memory.
    pub size: u64,
}

/// Whether `parse_file_data` accepts `file`: the `.text` section is found and
/// its address does not lie below the entry address.
pub open spec fn parses(file: Seq<u8>) -> bool {
    &&& text_section_found(file)
    &&& text_section_addr(file) >= file_entry(file)
}

/// Extract the primary executable section of an object file as
/// (bytes, offset, size), where offset = section address − entry address.
pub fn parse_file_data(file_bytes: &[u8]) -> (r: Result<ParsedSection, ConfigError>)
    ensures
        r is Ok <==> parses(file_bytes@),
        r matches Ok(s) ==> s.data@ == text_section_data(file_bytes@)
            && s.offset == text_section_addr(file_bytes@) - file_entry(file_bytes@)
            && s.size == text_section_size(file_bytes@),
        !text_section_found(file_bytes@) ==> r == Err::<ParsedSection, ConfigError>(
            ConfigError::MissingSection,
        ),
        text_section_found(file_bytes@) && text_section_addr(file_bytes@) < file_entry(
            file_bytes@,
        ) ==> r == Err::<ParsedSection, ConfigError>(ConfigError::EntryAboveSection),
{
    match extract_text_section(file_bytes) {
        None => Err(ConfigError::MissingSection),
        Some((data, addr, size, entry)) => {
            if addr < entry {
                Err(ConfigError::EntryAboveSection)
            } else {
                Ok(ParsedSection { data, offset: addr - entry, size })
            }
        },
    }
}

} // verus!
