//! Where the memory of the remote node begins, read from the kernel's zone report.

use vstd::prelude::*;
use crate::text::{
    fields, find_line, find_line_containing, first_containing, first_equal, lines, parse_usize,
    parsed_usize, split_fields, split_lines, texts, to_chars, trim, trimmed,
};

verus! {

/// The size of a page frame in bytes.
pub const PAGE_SIZE: usize = 4096;

/// Why the start of the remote memory is not known.
#[derive(Debug, Clone, Copy, PartialEq, Eq)]
pub enum ZoneError {
    /// The report has no normal zone of the remote node, or that zone names no first
    /// page frame.
    NotFound,
    /// What stands for the first page frame is no number, or its address does not fit.
    Malformed,
}

/// The line that opens the normal zone of the remote node.
pub open spec fn zone_header() -> Seq<char> {
    "Node 1, zone   Normal"@
}

/// What marks the line that names a zone's first page frame.
pub open spec fn pfn_label() -> Seq<char> {
    "start_pfn:"@
}

/// The first line behind the header of the remote node's normal zone in which the
/// label of the first page frame stands.
pub open spec fn pfn_line(ls: Seq<Seq<char>>) -> Option<Seq<char>> {
    let h = first_equal(ls, zone_header());
    if h >= ls.len() {
        None
    } else {
        let rest = ls.skip(h + 1);
        let p = first_containing(rest, pfn_label());
        if p >= rest.len() {
            None
        } else {
            Some(rest[p])
        }
    }
}

/// The address that the line `l` names: what stands between its first and its second
/// colon, without the white space around it, is the number of a page frame.
pub open spec fn frame_address(l: Seq<char>) -> Option<usize> {
    let f = fields(trimmed(l), ':');
    if f.len() < 2 {
        None
    } else {
        match parsed_usize(trimmed(f[1])) {
            Some(pfn) => if pfn * PAGE_SIZE <= usize::MAX {
                Some((pfn * PAGE_SIZE) as usize)
            } else {
                None
            },
            None => None,
        }
    }
}

/// The byte address at which the remote node's normal zone begins, as the zone report
/// `text` gives it.
pub open spec fn remote_start(text: Seq<char>) -> Result<usize, ZoneError> {
    match pfn_line(lines(text)) {
        None => Err(ZoneError::NotFound),
        Some(l) => match frame_address(l) {
            Some(a) => Ok(a),
            None => Err(ZoneError::Malformed),
        },
    }
}

/// Reads from the zone report the byte address at which the memory of the remote node
/// begins.
pub fn remote_start_addr(zoneinfo: &str) -> (r: Result<usize, ZoneError>)
    ensures
        r == remote_start(zoneinfo@),
{
    let chars = to_chars(zoneinfo);
    let ls = split_lines(&chars);
    let header = to_chars("Node 1, zone   Normal");
    let label = to_chars("start_pfn:");
    let n = ls.len();
    assert(texts(ls@).skip(0) == texts(ls@));
    let h = find_line(&ls, 0, &header);
    if h >= n {
        return Err(ZoneError::NotFound);
    }
    let p = find_line_containing(&ls, h + 1, &label);
    if p >= n {
        return Err(ZoneError::NotFound);
    }
    let line = trim(&ls[p]);
    let parts = split_fields(&line, ':');
    if parts.len() < 2 {
        return Err(ZoneError::Malformed);
    }
    let number = trim(&parts[1]);
    match parse_usize(&number) {
        Some(pfn) => match pfn.checked_mul(PAGE_SIZE) {
            Some(a) => Ok(a),
            None => Err(ZoneError::Malformed),
        },
        None => Err(ZoneError::Malformed),
    }
}

} // verus!
