use acpi_sdt::acpi_sdt_hdr::EfiAcpiSdtHeader;
use acpi_sdt::status::check_status;
use acpi_sdt::{
    bgrt_image_region, AcpiError, AcpiSdt, EfiAcpiBootGraphicsResourceTable, EnumerationCursor,
    ImageRegion, QueryReply, ScanStep, BGRT_SIGNATURE,
};
use uefi::Status;

fn table_bytes(signature: &[u8; 4], image_address: u64, x: u32, y: u32) -> Vec<u8> {
    let mut bytes = Vec::new();
    bytes.extend_from_slice(signature);
    bytes.extend_from_slice(&56u32.to_le_bytes());
    bytes.push(1);
    bytes.push(0);
    bytes.extend_from_slice(b"VENDOR");
    bytes.extend_from_slice(b"BOOTLOGO");
    bytes.extend_from_slice(&1u32.to_le_bytes());
    bytes.extend_from_slice(&2u32.to_le_bytes());
    bytes.extend_from_slice(&3u32.to_le_bytes());
    bytes.extend_from_slice(&1u16.to_le_bytes());
    bytes.push(1);
    bytes.push(0);
    bytes.extend_from_slice(&image_address.to_le_bytes());
    bytes.extend_from_slice(&x.to_le_bytes());
    bytes.extend_from_slice(&y.to_le_bytes());
    bytes
}

fn found(table: Vec<u8>, table_key: usize) -> QueryReply {
    QueryReply { status: Status::SUCCESS.0, table, version: 2, table_key }
}

fn failed(status: Status) -> QueryReply {
    QueryReply { status: status.0, table: Vec::new(), version: 0, table_key: 0 }
}

fn bgrt_at(image_address: u64, x: u32, y: u32) -> EfiAcpiBootGraphicsResourceTable {
    EfiAcpiBootGraphicsResourceTable {
        header: EfiAcpiSdtHeader {
            signature: BGRT_SIGNATURE,
            length: 56,
            revision: 1,
            checksum: 0,
            oem_id: *b"VENDOR",
            oem_table_id: *b"BOOTLOGO",
            oem_revision: 1,
            creator_id: 2,
            creator_revision: 3,
        },
        version: 1,
        status: 1,
        image_type: 0,
        image_address,
        image_offset_x: x,
        image_offset_y: y,
    }
}

#[test]
fn success_status_is_no_failure() {
    assert_eq!(check_status(Status::SUCCESS.0), Ok(()));
    assert_eq!(check_status(0), Ok(()));
}

#[test]
fn not_found_status_is_not_found() {
    assert_eq!(check_status(Status::NOT_FOUND.0), Err(AcpiError::NotFound));
    assert_eq!(check_status((1usize << (usize::BITS - 1)) | 14), Err(AcpiError::NotFound));
    assert_eq!(check_status(usize::MAX / 2 + 1 + 14), Err(AcpiError::NotFound));
}

#[test]
fn other_statuses_are_failed_queries() {
    assert_eq!(
        check_status(Status::DEVICE_ERROR.0),
        Err(AcpiError::QueryFailed(Status::DEVICE_ERROR.0))
    );
    assert_eq!(
        check_status(Status::INVALID_PARAMETER.0),
        Err(AcpiError::QueryFailed(Status::INVALID_PARAMETER.0))
    );
    assert_eq!(
        check_status(Status::WARN_STALE_DATA.0),
        Err(AcpiError::QueryFailed(Status::WARN_STALE_DATA.0))
    );
    assert_eq!(check_status(14), Err(AcpiError::QueryFailed(14)));
    assert_eq!(check_status(1), Err(AcpiError::QueryFailed(1)));
    assert_eq!(check_status(usize::MAX), Err(AcpiError::QueryFailed(usize::MAX)));
}

#[test]
fn unrelated_table_then_bgrt_then_failure() {
    let replies = vec![
        found(table_bytes(b"FACP", 0x9000, 1, 1), 10),
        found(table_bytes(b"BGRT", 0x1000, 4, 2), 11),
        failed(Status::NOT_FOUND),
    ];
    let sdt = AcpiSdt::new(replies);
    let located = sdt.locate_table_by_signature::<EfiAcpiBootGraphicsResourceTable>();
    assert_eq!(located, Ok(bgrt_at(0x1000, 4, 2)));
}

#[test]
fn scan_never_reaches_what_follows_the_match() {
    let head = vec![
        found(table_bytes(b"FACP", 0x9000, 1, 1), 10),
        found(table_bytes(b"BGRT", 0x1000, 4, 2), 11),
    ];
    let tails: Vec<Vec<QueryReply>> = vec![
        vec![],
        vec![failed(Status::NOT_FOUND)],
        vec![failed(Status::DEVICE_ERROR)],
        vec![found(table_bytes(b"BGRT", 0x2000, 8, 8), 12)],
        vec![found(vec![1, 2, 3], 12), failed(Status::ABORTED)],
    ];
    for tail in tails {
        let mut replies = head.clone();
        replies.extend(tail);
        let sdt = AcpiSdt::new(replies);
        assert_eq!(
            sdt.locate_table_by_signature::<EfiAcpiBootGraphicsResourceTable>(),
            Ok(bgrt_at(0x1000, 4, 2))
        );
    }

    let mut cursor = EnumerationCursor::new();
    let mut asked = Vec::new();
    let mut outcome = None;
    for reply in &head {
        asked.push(cursor.index());
        match cursor.advance::<EfiAcpiBootGraphicsResourceTable>(reply) {
            ScanStep::Query(next) => cursor = next,
            ScanStep::Found(table) => {
                outcome = Some(table);
                break;
            }
            ScanStep::Failed(error) => panic!("scan failed with {:?}", error),
        }
    }
    assert_eq!(asked, vec![0, 1]);
    assert_eq!(outcome, Some(bgrt_at(0x1000, 4, 2)));
}

#[test]
fn failure_at_index_0() {
    let sdt = AcpiSdt::new(vec![failed(Status::NOT_FOUND)]);
    assert_eq!(
        sdt.locate_table_by_signature::<EfiAcpiBootGraphicsResourceTable>(),
        Err(AcpiError::NotFound)
    );
    let sdt = AcpiSdt::new(vec![failed(Status::DEVICE_ERROR)]);
    assert_eq!(
        sdt.locate_table_by_signature::<EfiAcpiBootGraphicsResourceTable>(),
        Err(AcpiError::QueryFailed(Status::DEVICE_ERROR.0))
    );
    assert_eq!(
        sdt.locate_table_by_signature::<EfiAcpiSdtHeader>(),
        Err(AcpiError::QueryFailed(Status::DEVICE_ERROR.0))
    );
}

#[test]
fn failure_at_index_0_inspects_no_table() {
    let reply = QueryReply {
        status: Status::DEVICE_ERROR.0,
        table: table_bytes(b"BGRT", 0x1000, 4, 2),
        version: 2,
        table_key: 5,
    };
    assert_eq!(
        EnumerationCursor::new().advance::<EfiAcpiBootGraphicsResourceTable>(&reply),
        ScanStep::Failed(AcpiError::QueryFailed(Status::DEVICE_ERROR.0))
    );
    let sdt = AcpiSdt::new(vec![reply]);
    assert_eq!(
        sdt.locate_table_by_signature::<EfiAcpiBootGraphicsResourceTable>(),
        Err(AcpiError::QueryFailed(Status::DEVICE_ERROR.0))
    );
}

#[test]
fn matched_view_gives_8_bytes_at_0x1000() {
    let sdt = AcpiSdt::new(vec![found(table_bytes(b"BGRT", 0x1000, 4, 2), 1)]);
    let located = sdt.locate_table_by_signature::<EfiAcpiBootGraphicsResourceTable>();
    assert_eq!(
        located.unwrap().image_region(),
        Ok(ImageRegion { address: 0x1000, length: 8 })
    );
}

#[test]
fn matched_view_without_address_has_no_image() {
    for (x, y) in [(0u32, 0u32), (4, 2), (u32::MAX, 1), (0, 9)] {
        let sdt = AcpiSdt::new(vec![found(table_bytes(b"BGRT", 0, x, y), 1)]);
        let located = sdt.locate_table_by_signature::<EfiAcpiBootGraphicsResourceTable>();
        assert_eq!(located, Ok(bgrt_at(0, x, y)));
        assert_eq!(bgrt_image_region(located), Err(AcpiError::NoImage));
    }
}

#[test]
fn two_bgrt_tables_first_one_wins() {
    let sdt = AcpiSdt::new(vec![
        found(table_bytes(b"BGRT", 0x1000, 4, 2), 1),
        found(table_bytes(b"BGRT", 0x2000, 8, 8), 2),
    ]);
    assert_eq!(
        sdt.locate_table_by_signature::<EfiAcpiBootGraphicsResourceTable>(),
        Ok(bgrt_at(0x1000, 4, 2))
    );
    let sdt = AcpiSdt::new(vec![
        found(table_bytes(b"APIC", 0x3000, 1, 1), 1),
        found(table_bytes(b"BGRT", 0x2000, 8, 8), 2),
        found(table_bytes(b"FACP", 0x3000, 1, 1), 3),
        found(table_bytes(b"BGRT", 0x1000, 4, 2), 4),
        failed(Status::NOT_FOUND),
    ]);
    assert_eq!(
        sdt.locate_table_by_signature::<EfiAcpiBootGraphicsResourceTable>(),
        Ok(bgrt_at(0x2000, 8, 8))
    );
}

#[test]
fn replies_ending_in_failure_without_a_match_give_an_error() {
    let statuses = [
        Status::NOT_FOUND,
        Status::DEVICE_ERROR,
        Status::INVALID_PARAMETER,
        Status::WARN_STALE_DATA,
    ];
    for status in statuses {
        let sdt = AcpiSdt::new(vec![
            found(table_bytes(b"FACP", 0x9000, 1, 1), 1),
            found(table_bytes(b"APIC", 0x9000, 1, 1), 2),
            found(table_bytes(b"TRGB", 0x9000, 1, 1), 3),
            failed(status),
        ]);
        let located = sdt.locate_table_by_signature::<EfiAcpiBootGraphicsResourceTable>();
        let expected = if status == Status::NOT_FOUND {
            AcpiError::NotFound
        } else {
            AcpiError::QueryFailed(status.0)
        };
        assert_eq!(located, Err(expected));
    }
}

#[test]
fn failure_before_a_match_ends_the_scan() {
    let sdt = AcpiSdt::new(vec![
        found(table_bytes(b"FACP", 0x9000, 1, 1), 1),
        failed(Status::DEVICE_ERROR),
        found(table_bytes(b"BGRT", 0x1000, 4, 2), 2),
        failed(Status::NOT_FOUND),
    ]);
    assert_eq!(
        sdt.locate_table_by_signature::<EfiAcpiBootGraphicsResourceTable>(),
        Err(AcpiError::QueryFailed(Status::DEVICE_ERROR.0))
    );
}

#[test]
fn replies_that_run_out_give_not_found() {
    let sdt = AcpiSdt::new(Vec::new());
    assert_eq!(
        sdt.locate_table_by_signature::<EfiAcpiBootGraphicsResourceTable>(),
        Err(AcpiError::NotFound)
    );
    assert_eq!(sdt.locate_table_by_signature::<EfiAcpiSdtHeader>(), Err(AcpiError::NotFound));
    let sdt = AcpiSdt::new(vec![
        found(table_bytes(b"FACP", 0x9000, 1, 1), 1),
        found(table_bytes(b"APIC", 0x9000, 1, 1), 2),
    ]);
    assert_eq!(
        sdt.locate_table_by_signature::<EfiAcpiBootGraphicsResourceTable>(),
        Err(AcpiError::NotFound)
    );
}

#[test]
fn truncated_bgrt_is_passed_over() {
    let whole = table_bytes(b"BGRT", 0x1000, 4, 2);
    let sdt = AcpiSdt::new(vec![
        found(whole[..40].to_vec(), 1),
        found(Vec::new(), 2),
        found(table_bytes(b"BGRT", 0x2000, 8, 8), 3),
    ]);
    assert_eq!(
        sdt.locate_table_by_signature::<EfiAcpiBootGraphicsResourceTable>(),
        Ok(bgrt_at(0x2000, 8, 8))
    );
}

#[test]
fn untyped_view_takes_the_first_table() {
    let facp = table_bytes(b"FACP", 0x9000, 1, 1);
    let sdt = AcpiSdt::new(vec![
        found(facp.clone(), 1),
        found(table_bytes(b"BGRT", 0x1000, 4, 2), 2),
    ]);
    let located = sdt.locate_table_by_signature::<EfiAcpiSdtHeader>().unwrap();
    assert_eq!(Some(located), EfiAcpiSdtHeader::decode(&facp));
    assert_eq!(located.signature(), u32::from_le_bytes(*b"FACP"));
}

#[test]
fn cursor_starts_at_index_0() {
    let cursor = EnumerationCursor::new();
    assert_eq!(cursor, EnumerationCursor { index: 0, version: 0, table_key: 0 });
    assert_eq!(cursor.index(), 0);
}

#[test]
fn cursor_moves_on_after_a_table_that_does_not_match() {
    let reply = QueryReply {
        status: Status::SUCCESS.0,
        table: table_bytes(b"FACP", 0x9000, 1, 1),
        version: 0x20,
        table_key: 77,
    };
    let cursor = EnumerationCursor { index: 4, version: 1, table_key: 2 };
    assert_eq!(
        cursor.advance::<EfiAcpiBootGraphicsResourceTable>(&reply),
        ScanStep::Query(EnumerationCursor { index: 5, version: 0x20, table_key: 77 })
    );
}

#[test]
fn cursor_stops_at_a_table_that_matches() {
    let reply = found(table_bytes(b"BGRT", 0x1000, 4, 2), 9);
    let cursor = EnumerationCursor { index: 4, version: 1, table_key: 2 };
    assert_eq!(
        cursor.advance::<EfiAcpiBootGraphicsResourceTable>(&reply),
        ScanStep::Found(bgrt_at(0x1000, 4, 2))
    );
}

#[test]
fn cursor_stops_at_a_failure() {
    let cursor = EnumerationCursor { index: 4, version: 1, table_key: 2 };
    assert_eq!(
        cursor.advance::<EfiAcpiBootGraphicsResourceTable>(&failed(Status::NOT_FOUND)),
        ScanStep::Failed(AcpiError::NotFound)
    );
    assert_eq!(
        cursor.advance::<EfiAcpiBootGraphicsResourceTable>(&failed(Status::ABORTED)),
        ScanStep::Failed(AcpiError::QueryFailed(Status::ABORTED.0))
    );
}

#[test]
fn cursor_runs_out_at_the_last_index() {
    let reply = found(table_bytes(b"FACP", 0x9000, 1, 1), 9);
    let cursor = EnumerationCursor { index: usize::MAX, version: 1, table_key: 2 };
    assert_eq!(
        cursor.advance::<EfiAcpiBootGraphicsResourceTable>(&reply),
        ScanStep::Failed(AcpiError::NotFound)
    );
    let cursor = EnumerationCursor { index: usize::MAX - 1, version: 1, table_key: 2 };
    assert_eq!(
        cursor.advance::<EfiAcpiBootGraphicsResourceTable>(&reply),
        ScanStep::Query(EnumerationCursor { index: usize::MAX, version: 2, table_key: 9 })
    );
}

#[test]
fn stepping_by_hand_agrees_with_the_scan() {
    let replies = vec![
        found(table_bytes(b"FACP", 0x9000, 1, 1), 1),
        found(table_bytes(b"APIC", 0x9000, 1, 1), 2),
        found(table_bytes(b"BGRT", 0x1000, 4, 2), 3),
        failed(Status::NOT_FOUND),
    ];
    let mut cursor = EnumerationCursor::new();
    let by_hand = loop {
        match cursor.advance::<EfiAcpiBootGraphicsResourceTable>(&replies[cursor.index()]) {
            ScanStep::Query(next) => cursor = next,
            ScanStep::Found(table) => break Ok(table),
            ScanStep::Failed(error) => break Err(error),
        }
    };
    assert_eq!(cursor.index(), 2);
    let sdt = AcpiSdt::new(replies);
    assert_eq!(sdt.locate_table_by_signature::<EfiAcpiBootGraphicsResourceTable>(), by_hand);
}

#[test]
fn each_scan_starts_again_at_index_0() {
    let sdt = AcpiSdt::new(vec![
        found(table_bytes(b"FACP", 0x9000, 1, 1), 1),
        found(table_bytes(b"BGRT", 0x1000, 4, 2), 2),
    ]);
    let first = sdt.locate_table_by_signature::<EfiAcpiBootGraphicsResourceTable>();
    let second = sdt.locate_table_by_signature::<EfiAcpiBootGraphicsResourceTable>();
    assert_eq!(first, second);
    assert_eq!(first, Ok(bgrt_at(0x1000, 4, 2)));
}

#[test]
fn cloned_reply_equals_the_reply() {
    let reply = found(table_bytes(b"BGRT", 0x1000, 4, 2), 3);
    let copy = reply.clone();
    assert_eq!(copy, reply);
    assert_eq!(copy.table, table_bytes(b"BGRT", 0x1000, 4, 2));
    assert_eq!(copy.table_key, 3);
}

#[test]
fn not_found_reply_at_the_end_changes_nothing() {
    let heads: Vec<Vec<QueryReply>> = vec![
        vec![],
        vec![found(table_bytes(b"FACP", 0x9000, 1, 1), 1)],
        vec![
            found(table_bytes(b"FACP", 0x9000, 1, 1), 1),
            found(table_bytes(b"BGRT", 0x1000, 4, 2), 2),
        ],
        vec![found(table_bytes(b"APIC", 0x9000, 1, 1), 1), failed(Status::DEVICE_ERROR)],
    ];
    for head in heads {
        let mut longer = head.clone();
        longer.push(failed(Status::NOT_FOUND));
        assert_eq!(
            AcpiSdt::new(head).locate_table_by_signature::<EfiAcpiBootGraphicsResourceTable>(),
            AcpiSdt::new(longer).locate_table_by_signature::<EfiAcpiBootGraphicsResourceTable>()
        );
    }
}
