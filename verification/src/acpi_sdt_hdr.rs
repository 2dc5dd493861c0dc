//! The header that every system description table begins with.

use crate::layout::{read_u32_le, spec_u32_le};
use vstd::prelude::*;

verus! {

/// The number of bytes that the header takes at the start of a table.
pub const HEADER_SIZE: usize = 36;

/// The common header of a system description table.
///
/// All integers are stored least significant byte first; the two
/// identifiers are fixed-width byte strings without a terminator.
#[derive(Clone, Copy, Debug, PartialEq, Eq)]
pub struct EfiAcpiSdtHeader {
    /// The four-byte code that tells what kind of table this is.
    pub signature: u32,
    /// The length of the whole table in bytes, header included.
    pub length: u32,
    /// The revision of the table's layout.
    pub revision: u8,
    /// The byte that makes all bytes of the table sum to zero modulo 256.
    pub checksum: u8,
    /// Who supplied the table.
    pub oem_id: [u8; 6],
    /// The supplier's name for this table.
    pub oem_table_id: [u8; 8],
    /// The supplier's revision of this table.
    pub oem_revision: u32,
    /// The vendor of the tool that made the table.
    pub creator_id: u32,
    /// The revision of that tool.
    pub creator_revision: u32,
}

impl EfiAcpiSdtHeader {
    /// A header is well formed when the table it describes is at least as
    /// long as the header itself.
    pub open spec fn wf(&self) -> bool {
        self.length >= HEADER_SIZE
    }

    /// The header that the first bytes of `bytes` spell out, whatever the
    /// length it claims.
    pub open spec fn spec_fields(bytes: Seq<u8>) -> EfiAcpiSdtHeader
        recommends
            bytes.len() >= HEADER_SIZE,
    {
        EfiAcpiSdtHeader {
            signature: spec_u32_le(bytes, 0) as u32,
            length: spec_u32_le(bytes, 4) as u32,
            revision: bytes[8],
            checksum: bytes[9],
            oem_id: [bytes[10], bytes[11], bytes[12], bytes[13], bytes[14], bytes[15]],
            oem_table_id: [
                bytes[16],
                bytes[17],
                bytes[18],
                bytes[19],
                bytes[20],
                bytes[21],
                bytes[22],
                bytes[23],
            ],
            oem_revision: spec_u32_le(bytes, 24) as u32,
            creator_id: spec_u32_le(bytes, 28) as u32,
            creator_revision: spec_u32_le(bytes, 32) as u32,
        }
    }

    /// The header at the start of `bytes`: there is one when the span holds
    /// a whole header and that header is well formed.
    pub open spec fn spec_decode(bytes: Seq<u8>) -> Option<EfiAcpiSdtHeader> {
        if bytes.len() >= HEADER_SIZE && Self::spec_fields(bytes).wf() {
            Some(Self::spec_fields(bytes))
        } else {
            None
        }
    }

    /// Reads the header at the start of `bytes`.
    pub fn decode(bytes: &[u8]) -> (r: Option<EfiAcpiSdtHeader>)
        ensures
            r == Self::spec_decode(bytes@),
            r matches Some(h) ==> h.wf(),
    {
        if bytes.len() < HEADER_SIZE {
            return None;
        }
        let length: u32 = read_u32_le(bytes, 4);
        if length < HEADER_SIZE as u32 {
            return None;
        }
        let header = EfiAcpiSdtHeader {
            signature: read_u32_le(bytes, 0),
            length,
            revision: bytes[8],
            checksum: bytes[9],
            oem_id: [bytes[10], bytes[11], bytes[12], bytes[13], bytes[14], bytes[15]],
            oem_table_id: [
                bytes[16],
                bytes[17],
                bytes[18],
                bytes[19],
                bytes[20],
                bytes[21],
                bytes[22],
                bytes[23],
            ],
            oem_revision: read_u32_le(bytes, 24),
            creator_id: read_u32_le(bytes, 28),
            creator_revision: read_u32_le(bytes, 32),
        };
        Some(header)
    }

    /// The number of bytes that the table beginning with `head` takes: the
    /// length that its header states or, where `head` holds no well-formed
    /// header, no more than the bytes at hand.
    pub open spec fn spec_table_span(head: Seq<u8>) -> nat {
        match Self::spec_decode(head) {
            Some(header) => header.length as nat,
            None => head.len(),
        }
    }

    /// Tells how many bytes the table beginning with `head` takes.
    pub fn table_span(head: &[u8]) -> (span: usize)
        ensures
            span == Self::spec_table_span(head@),
    {
        match Self::decode(head) {
            Some(header) => header.length as usize,
            None => head.len(),
        }
    }

    /// The table's signature.
    pub fn signature(&self) -> (sig: u32)
        ensures
            sig == self.signature,
    {
        self.signature
    }

    /// The length of the whole table in bytes.
    pub fn length(&self) -> (length: u32)
        ensures
            length == self.length,
    {
        self.length
    }
}

} // verus!
