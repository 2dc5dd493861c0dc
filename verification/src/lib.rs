//! Locating ACPI system description tables through an index-driven
//! enumeration service, and sizing the image that a boot graphics resource
//! table refers to.
//!
//! The service hands out one table per index and reports a failure for an
//! index past its last table. [`AcpiSdt::locate_table_by_signature`] scans
//! the indices from 0 for the first table that carries the signature of a
//! requested view; [`EnumerationCursor::advance`] is the single step of that
//! scan, for a caller that puts the questions to the firmware itself.
//! [`EfiAcpiBootGraphicsResourceTable::image_region`] tells where the boot
//! image lies and how long it is.

pub mod acpi_sdt_hdr;
pub mod bgrt;
pub mod layout;
pub mod locator;
pub mod signature;
pub mod status;
pub mod table_view;

pub use acpi_sdt_hdr::EfiAcpiSdtHeader;
pub use bgrt::{bgrt_image_region, EfiAcpiBootGraphicsResourceTable, ImageRegion, BGRT_SIGNATURE};
pub use locator::{AcpiSdt, EnumerationCursor, QueryReply, ScanStep};
pub use signature::{signature_16, signature_32, signature_bytes};
pub use status::AcpiError;
pub use table_view::{decode_table, AcpiHeadeds};
