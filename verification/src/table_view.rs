//! Typed views of a table and the signature that each view is bound to.

use crate::acpi_sdt_hdr::EfiAcpiSdtHeader;
use vstd::prelude::*;

verus! {

/// A typed view of a system description table: the common header followed
/// by the fields of one kind of table.
///
/// Each view names the signature that a table must carry to be read as that
/// view. The binding is stated here, once, and consulted by
/// [`decode_table`]; no caller passes a signature beside the type.
pub trait AcpiHeadeds: Sized {
    /// The signature that the view is bound to, or `None` for the untyped
    /// view, which any table satisfies.
    spec fn bound_signature() -> Option<u32>;

    /// The header that the view begins with.
    spec fn spec_get_header(&self) -> EfiAcpiSdtHeader;

    /// The view that the bytes of a table spell out, by layout alone: the
    /// signature is not looked at.
    spec fn spec_from_bytes(bytes: Seq<u8>) -> Option<Self>;

    /// The signature that the view is bound to.
    fn expected_signature() -> (sig: Option<u32>)
        ensures
            sig == Self::bound_signature(),
    ;

    /// A copy of the view's header.
    fn get_header(&self) -> (header: EfiAcpiSdtHeader)
        ensures
            header == self.spec_get_header(),
    ;

    /// Reads the bytes of a table as this view, by layout alone.
    fn from_bytes(bytes: &[u8]) -> (view: Option<Self>)
        ensures
            view == Self::spec_from_bytes(bytes@),
    ;

    /// A view can be read only from bytes that begin with a well-formed
    /// header, and that header is the view's own.
    proof fn lemma_header_comes_first(bytes: Seq<u8>)
        ensures
            Self::spec_from_bytes(bytes) matches Some(view) ==> EfiAcpiSdtHeader::spec_decode(bytes)
                == Some(view.spec_get_header()),
    ;
}

/// Whether a table with signature `sig` may be read as the view `T`.
pub open spec fn spec_signature_accepted<T: AcpiHeadeds>(sig: u32) -> bool {
    match T::bound_signature() {
        Some(bound) => sig == bound,
        None => true,
    }
}

/// The view `T` of the table held in `bytes`: there is one when the bytes
/// cover the layout of `T` and the table carries the signature that `T` is
/// bound to.
pub open spec fn spec_decode_table<T: AcpiHeadeds>(bytes: Seq<u8>) -> Option<T> {
    match T::spec_from_bytes(bytes) {
        Some(view) => if spec_signature_accepted::<T>(view.spec_get_header().signature) {
            Some(view)
        } else {
            None
        },
        None => None,
    }
}

/// Whether a table with signature `sig` may be read as the view `T`.
pub fn signature_accepted<T: AcpiHeadeds>(sig: u32) -> (accepted: bool)
    ensures
        accepted == spec_signature_accepted::<T>(sig),
{
    match T::expected_signature() {
        Some(bound) => sig == bound,
        None => true,
    }
}

/// Reads the table held in `bytes` as the view `T`, and refuses it unless
/// its signature is the one that `T` is bound to.
pub fn decode_table<T: AcpiHeadeds>(bytes: &[u8]) -> (table: Option<T>)
    ensures
        table == spec_decode_table::<T>(bytes@),
{
    match T::from_bytes(bytes) {
        Some(view) => {
            let header = view.get_header();
            if signature_accepted::<T>(header.signature()) {
                Some(view)
            } else {
                None
            }
        },
        None => None,
    }
}

/// A table that [`decode_table`] accepts begins with a well-formed header
/// whose signature the view accepts.
pub proof fn lemma_decoded_table_has_bound_signature<T: AcpiHeadeds>(bytes: Seq<u8>)
    ensures
        spec_decode_table::<T>(bytes) matches Some(view) ==> {
            &&& EfiAcpiSdtHeader::spec_decode(bytes) == Some(view.spec_get_header())
            &&& view.spec_get_header().wf()
            &&& T::bound_signature() matches Some(bound) ==> view.spec_get_header().signature
                == bound
        },
{
    T::lemma_header_comes_first(bytes);
}

impl AcpiHeadeds for EfiAcpiSdtHeader {
    open spec fn bound_signature() -> Option<u32> {
        None
    }

    open spec fn spec_get_header(&self) -> EfiAcpiSdtHeader {
        *self
    }

    open spec fn spec_from_bytes(bytes: Seq<u8>) -> Option<Self> {
        EfiAcpiSdtHeader::spec_decode(bytes)
    }

    fn expected_signature() -> (sig: Option<u32>) {
        None
    }

    fn get_header(&self) -> (header: EfiAcpiSdtHeader) {
        *self
    }

    fn from_bytes(bytes: &[u8]) -> (view: Option<Self>) {
        EfiAcpiSdtHeader::decode(bytes)
    }

    proof fn lemma_header_comes_first(bytes: Seq<u8>) {
    }
}

} // verus!
