use putioarr::arr::{
    page_has_import, record_matches, ArrHistoryRecord, ArrHistoryResponse, ImportScan, ScanStep,
};

fn import_record(path: &str) -> ArrHistoryRecord {
    ArrHistoryRecord {
        event_type: "downloadFolderImported".to_string(),
        data: vec![
            ("indexer".to_string(), Some("x".to_string())),
            ("droppedPath".to_string(), Some(path.to_string())),
        ],
    }
}

#[test]
fn record_matches_exact_path_only() {
    let target = "Show/Season 01".to_string();
    assert!(record_matches(&import_record("Show/Season 01"), &target));
    assert!(!record_matches(&import_record("Show/Season 02"), &target));
    assert!(!record_matches(&import_record("Show/Season 01/ep.mkv"), &target));

    let grabbed = ArrHistoryRecord {
        event_type: "grabbed".to_string(),
        data: vec![("droppedPath".to_string(), Some("Show/Season 01".to_string()))],
    };
    assert!(!record_matches(&grabbed, &target));

    let no_path = ArrHistoryRecord {
        event_type: "downloadFolderImported".to_string(),
        data: vec![("droppedPath".to_string(), None)],
    };
    assert!(!record_matches(&no_path, &target));
}

#[test]
fn page_scan_finds_a_match_anywhere() {
    let target = "Show/Season 01".to_string();
    let records = vec![
        import_record("Other"),
        import_record("Show/Season 01"),
        import_record("Else"),
    ];
    assert!(page_has_import(&records, &target));
    let records = vec![import_record("Other"), import_record("Else")];
    assert!(!page_has_import(&records, &target));
}

#[test]
fn scan_stops_on_found() {
    let target = "Show/Season 01".to_string();
    let mut scan = ImportScan::new();
    let page = ArrHistoryResponse {
        page: 0,
        page_size: 1000,
        total_records: 1,
        records: vec![import_record("Show/Season 01")],
    };
    assert_eq!(scan.on_page(&page, &target), ScanStep::Found);
    assert_eq!(scan.page, 0);
    assert_eq!(scan.inspected, 0);
}

#[test]
fn scan_pages_while_more_records_remain() {
    let target = "Show/Season 01".to_string();
    let mut scan = ImportScan::new();
    let first = ArrHistoryResponse {
        page: 0,
        page_size: 2,
        total_records: 5,
        records: vec![import_record("a"), import_record("b")],
    };
    // 2 of 5 records inspected: the scan asks for the next page.
    assert_eq!(scan.on_page(&first, &target), ScanStep::NextPage(1));
    assert_eq!(scan.inspected, 2);

    let second = ArrHistoryResponse {
        page: 1,
        page_size: 2,
        total_records: 5,
        records: vec![import_record("c"), import_record("d")],
    };
    // 4 of 5: still more history to consult.
    assert_eq!(scan.on_page(&second, &target), ScanStep::NextPage(2));
    assert_eq!(scan.inspected, 4);

    let third = ArrHistoryResponse {
        page: 2,
        page_size: 2,
        total_records: 5,
        records: vec![import_record("e")],
    };
    // All 5 inspected: only now is the negative answer given.
    assert_eq!(scan.on_page(&third, &target), ScanStep::NotFound);
    assert_eq!(scan.inspected, 5);
    assert_eq!(scan.page, 2);
}

#[test]
fn match_beyond_the_first_page_is_found() {
    let target = "Show/Season 01".to_string();
    let mut scan = ImportScan::new();
    let first = ArrHistoryResponse {
        page: 0,
        page_size: 2,
        total_records: 3,
        records: vec![import_record("a"), import_record("b")],
    };
    assert_eq!(scan.on_page(&first, &target), ScanStep::NextPage(1));
    let second = ArrHistoryResponse {
        page: 1,
        page_size: 2,
        total_records: 3,
        records: vec![import_record("Show/Season 01")],
    };
    assert_eq!(scan.on_page(&second, &target), ScanStep::Found);
}
