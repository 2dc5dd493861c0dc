//! The boot graphics resource table and the image that it refers to.

use crate::acpi_sdt_hdr::EfiAcpiSdtHeader;
use crate::layout::{read_u16_le, read_u32_le, read_u64_le, spec_u16_le, spec_u32_le, spec_u64_le};
use crate::signature::spec_signature_32;
use crate::status::AcpiError;
use crate::table_view::{spec_decode_table, AcpiHeadeds};
use vstd::prelude::*;

verus! {

/// The signature of the boot graphics resource table: the letters `BGRT`,
/// the first of them in the least significant byte.
pub const BGRT_SIGNATURE: u32 = 0x5452_4742;

/// The number of bytes that a boot graphics resource table takes.
pub const BGRT_SIZE: usize = 56;

/// The boot graphics resource table: where in memory the firmware left the
/// image that it showed during boot, and where on screen it drew it.
#[derive(Clone, Copy, Debug, PartialEq, Eq)]
pub struct EfiAcpiBootGraphicsResourceTable {
    /// The common table header.
    pub header: EfiAcpiSdtHeader,
    /// The version of this table's format.
    pub version: u16,
    /// Whether the image is on display, and how it is turned.
    pub status: u8,
    /// The encoding of the image.
    pub image_type: u8,
    /// The physical address of the image; zero when there is none.
    pub image_address: u64,
    /// The horizontal offset of the image, in pixels.
    pub image_offset_x: u32,
    /// The vertical offset of the image, in pixels.
    pub image_offset_y: u32,
}

/// A stretch of memory: where it starts and how many bytes it holds.
#[derive(Clone, Copy, Debug, PartialEq, Eq, Structural)]
pub struct ImageRegion {
    /// The address of the first byte.
    pub address: u64,
    /// The number of bytes.
    pub length: u64,
}

/// `BGRT_SIGNATURE` is what packing the letters B, G, R and T gives.
pub proof fn lemma_bgrt_signature_packs_its_letters()
    ensures
        BGRT_SIGNATURE == spec_signature_32('B' as u8, 'G' as u8, 'R' as u8, 'T' as u8),
{
}

impl ImageRegion {
    /// Whether the region holds no byte at all.
    pub fn is_empty(&self) -> (empty: bool)
        ensures
            empty == (self.length == 0),
    {
        self.length == 0
    }
}

impl EfiAcpiBootGraphicsResourceTable {
    /// The table is well formed when its header is and its signature is the
    /// one of this kind of table.
    pub open spec fn wf(&self) -> bool {
        self.header.wf() && self.header.signature == BGRT_SIGNATURE
    }

    /// The memory that holds the image: it starts at the image address and
    /// is as many bytes long as the product of the two offsets. The product
    /// is the size of the image only where the image is stored without
    /// compression, one byte to the pixel; the table itself does not say
    /// so. A table whose image address is zero has no image.
    pub open spec fn spec_image_region(&self) -> Result<ImageRegion, AcpiError> {
        if self.image_address == 0 {
            Err(AcpiError::NoImage)
        } else {
            Ok(
                ImageRegion {
                    address: self.image_address,
                    length: (self.image_offset_x * self.image_offset_y) as u64,
                },
            )
        }
    }

    /// The address of the image.
    pub fn address(&self) -> (address: u64)
        ensures
            address == self.image_address,
    {
        self.image_address
    }

    /// The horizontal and the vertical offset of the image.
    pub fn offset(&self) -> (offset: (u32, u32))
        ensures
            offset == (self.image_offset_x, self.image_offset_y),
    {
        (self.image_offset_x, self.image_offset_y)
    }

    /// Finds the memory that holds the image.
    ///
    /// The region is empty when either offset is zero; that is an image
    /// without data and no failure. The only failure is a table without an
    /// image address.
    pub fn image_region(&self) -> (region: Result<ImageRegion, AcpiError>)
        ensures
            region == self.spec_image_region(),
            self.image_address == 0 <==> region == Err::<ImageRegion, AcpiError>(
                AcpiError::NoImage,
            ),
            region matches Ok(found) ==> found.address == self.image_address && found.length
                == self.image_offset_x * self.image_offset_y,
    {
        if self.image_address == 0 {
            return Err(AcpiError::NoImage);
        }
        let width: u64 = self.image_offset_x as u64;
        let height: u64 = self.image_offset_y as u64;
        assert(width * height <= u64::MAX) by (nonlinear_arith)
            requires
                width <= 0xffff_ffff,
                height <= 0xffff_ffff,
        ;
        Ok(ImageRegion { address: self.image_address, length: width * height })
    }
}

/// What a lookup of the boot graphics resource table yields in the end: the
/// memory of the image where the table was found and has one, "no image"
/// where it has none, and "not found" where the lookup failed, whatever the
/// reason.
pub open spec fn spec_bgrt_image_region(
    located: Result<EfiAcpiBootGraphicsResourceTable, AcpiError>,
) -> Result<ImageRegion, AcpiError> {
    match located {
        Ok(table) => table.spec_image_region(),
        Err(_) => Err(AcpiError::NotFound),
    }
}

/// Turns the outcome of a lookup of the boot graphics resource table into
/// the memory of the image.
pub fn bgrt_image_region(located: Result<EfiAcpiBootGraphicsResourceTable, AcpiError>) -> (region:
    Result<ImageRegion, AcpiError>)
    ensures
        region == spec_bgrt_image_region(located),
{
    match located {
        Ok(table) => table.image_region(),
        Err(_) => Err(AcpiError::NotFound),
    }
}

impl AcpiHeadeds for EfiAcpiBootGraphicsResourceTable {
    open spec fn bound_signature() -> Option<u32> {
        Some(BGRT_SIGNATURE)
    }

    open spec fn spec_get_header(&self) -> EfiAcpiSdtHeader {
        self.header
    }

    open spec fn spec_from_bytes(bytes: Seq<u8>) -> Option<Self> {
        if bytes.len() >= BGRT_SIZE {
            match EfiAcpiSdtHeader::spec_decode(bytes) {
                Some(header) => Some(
                    EfiAcpiBootGraphicsResourceTable {
                        header,
                        version: spec_u16_le(bytes, 36) as u16,
                        status: bytes[38],
                        image_type: bytes[39],
                        image_address: spec_u64_le(bytes, 40) as u64,
                        image_offset_x: spec_u32_le(bytes, 48) as u32,
                        image_offset_y: spec_u32_le(bytes, 52) as u32,
                    },
                ),
                None => None,
            }
        } else {
            None
        }
    }

    fn expected_signature() -> (sig: Option<u32>) {
        Some(BGRT_SIGNATURE)
    }

    fn get_header(&self) -> (header: EfiAcpiSdtHeader) {
        self.header
    }

    fn from_bytes(bytes: &[u8]) -> (view: Option<Self>) {
        if bytes.len() < BGRT_SIZE {
            return None;
        }
        match EfiAcpiSdtHeader::decode(bytes) {
            Some(header) => Some(
                EfiAcpiBootGraphicsResourceTable {
                    header,
                    version: read_u16_le(bytes, 36),
                    status: bytes[38],
                    image_type: bytes[39],
                    image_address: read_u64_le(bytes, 40),
                    image_offset_x: read_u32_le(bytes, 48),
                    image_offset_y: read_u32_le(bytes, 52),
                },
            ),
            None => None,
        }
    }

    proof fn lemma_header_comes_first(bytes: Seq<u8>) {
    }
}

/// A boot graphics resource table that
/// [`decode_table`](crate::table_view::decode_table) accepts is well formed.
pub proof fn lemma_decoded_bgrt_is_well_formed(bytes: Seq<u8>)
    ensures
        spec_decode_table::<EfiAcpiBootGraphicsResourceTable>(bytes) matches Some(table)
            ==> table.wf(),
{
}

} // verus!
