use sheets_gateway::encode::{encode_rows, encoded_or_error};
use sheets_gateway::error::GatewayError;
use sheets_gateway::range::{is_valid_sheet_name, sheet_range};
use sheets_gateway::session::{error_text, Action, Operation, Reply, Request, Session, Stage};
use sheets_gateway::titles::sheet_titles;

fn rows(v: &[&[&str]]) -> Vec<Vec<String>> {
    v.iter().map(|r| r.iter().map(|c| c.to_string()).collect()).collect()
}

fn expect_call(a: Action) -> Request {
    match a {
        Action::Call(r) => r,
        Action::Finish(f) => panic!("expected a call, got {:?}", f),
    }
}

fn expect_error(a: Action) -> GatewayError {
    match a {
        Action::Finish(Err(e)) => e,
        other => panic!("expected an error, got {:?}", other),
    }
}

/// Runs a session up to its first call to the spreadsheet service.
fn authorized(mut s: Session, a: Action) -> (Session, Request) {
    match expect_call(a) {
        Request::ReadKey { path } => assert_eq!(path, "key.json"),
        other => panic!("expected ReadKey, got {:?}", other),
    }
    assert!(matches!(expect_call(s.key_read(Ok(()))), Request::Authorize));
    let r = expect_call(s.authorized(Ok(())));
    (s, r)
}

#[test]
fn range_covers_columns_a_to_z() {
    assert_eq!(sheet_range("Sheet1").unwrap(), "Sheet1!A:Z");
    assert_eq!(sheet_range("My Data").unwrap(), "My Data!A:Z");
}

#[test]
fn sheet_name_with_separator_is_rejected() {
    assert!(!is_valid_sheet_name("a!b"));
    assert!(is_valid_sheet_name("Sheet1"));
    assert_eq!(
        sheet_range("a!b"),
        Err(GatewayError::InvalidSheetName("a!b".to_string()))
    );
    let (s, a) = Session::read_range("key.json".to_string(), "id".to_string(), "x!A1");
    assert_eq!(s.stage(), Stage::Finished);
    assert_eq!(expect_error(a), GatewayError::InvalidSheetName("x!A1".to_string()));
}

#[test]
fn write_clears_then_updates_sheet1() {
    let values = rows(&[&["a", "b"], &["1", "2"]]);
    let (s, a) = Session::write_range("key.json".to_string(), "sheet-id".to_string(), "Sheet1", values.clone());
    let (mut s, r) = authorized(s, a);
    match r {
        Request::ClearValues { spreadsheet_id, range } => {
            assert_eq!(spreadsheet_id, "sheet-id");
            assert_eq!(range, "Sheet1!A:Z");
        }
        other => panic!("expected ClearValues, got {:?}", other),
    }
    match expect_call(s.cleared(Ok(()))) {
        Request::UpdateValues { spreadsheet_id, range, major_dimension, value_input_option, values: v } => {
            assert_eq!(spreadsheet_id, "sheet-id");
            assert_eq!(range, "Sheet1!A:Z");
            assert_eq!(major_dimension, "ROWS");
            assert_eq!(value_input_option, "USER_ENTERED");
            assert_eq!(v, values);
        }
        other => panic!("expected UpdateValues, got {:?}", other),
    }
    match s.updated(Ok(())) {
        Action::Finish(Ok(Reply::Updated(m))) => assert_eq!(m, "Worksheet updated successfully."),
        other => panic!("expected a confirmation, got {:?}", other),
    }
    assert_eq!(s.stage(), Stage::Finished);
}

#[test]
fn read_returns_the_rows_written() {
    let (s, a) = Session::read_range("key.json".to_string(), "sheet-id".to_string(), "Sheet1");
    let (mut s, r) = authorized(s, a);
    match r {
        Request::GetValues { spreadsheet_id, range } => {
            assert_eq!(spreadsheet_id, "sheet-id");
            assert_eq!(range, "Sheet1!A:Z");
        }
        other => panic!("expected GetValues, got {:?}", other),
    }
    match s.values_fetched(Ok(Some(rows(&[&["a", "b"], &["1", "2"]])))) {
        Action::Finish(Ok(Reply::Values(j))) => {
            let back: Vec<Vec<String>> = serde_json::from_str(&j).unwrap();
            assert!(back.contains(&vec!["a".to_string(), "b".to_string()]));
            assert_eq!(back.len(), 2);
        }
        other => panic!("expected values, got {:?}", other),
    }
}

#[test]
fn write_of_empty_matrix_clears_and_writes_no_rows() {
    let (s, a) = Session::write_range("key.json".to_string(), "id".to_string(), "Sheet1", Vec::new());
    let (mut s, r) = authorized(s, a);
    assert!(matches!(r, Request::ClearValues { .. }));
    match expect_call(s.cleared(Ok(()))) {
        Request::UpdateValues { range, values, .. } => {
            assert_eq!(range, "Sheet1!A:Z");
            assert!(values.is_empty());
        }
        other => panic!("expected UpdateValues, got {:?}", other),
    }
}

#[test]
fn read_of_empty_range_gives_empty_matrix() {
    let (s, a) = Session::read_range("key.json".to_string(), "id".to_string(), "Sheet1");
    let (mut s, _) = authorized(s, a);
    match s.values_fetched(Ok(None)) {
        Action::Finish(Ok(Reply::Values(j))) => assert_eq!(j, "[]"),
        other => panic!("expected values, got {:?}", other),
    }
}

#[test]
fn rows_encode_as_json_text() {
    assert_eq!(
        encode_rows(Some(rows(&[&["a", "b"], &["1", "2"]]))).unwrap(),
        "[[\"a\",\"b\"],[\"1\",\"2\"]]"
    );
    assert_eq!(encode_rows(Some(rows(&[&[], &["x"]]))).unwrap(), "[[],[\"x\"]]");
    assert_eq!(encode_rows(None).unwrap(), "[]");
}

#[test]
fn encoder_failure_is_serialization_error() {
    let e = serde_json::from_str::<u8>("not json").unwrap_err();
    assert!(matches!(encoded_or_error(Err(e)), Err(GatewayError::Serialization(_))));
    assert_eq!(encoded_or_error(Ok("[]".to_string())), Ok("[]".to_string()));
}

#[test]
fn zero_tabs_is_no_sheets_found() {
    assert_eq!(sheet_titles(Some(Vec::new())), Err(GatewayError::NoSheetsFound));
    assert_eq!(sheet_titles(None), Err(GatewayError::NoSheetsFound));
    let (s, a) = Session::list_sheet_titles("key.json".to_string(), "id".to_string());
    let (mut s, r) = authorized(s, a);
    match r {
        Request::GetMetadata { spreadsheet_id } => assert_eq!(spreadsheet_id, "id"),
        other => panic!("expected GetMetadata, got {:?}", other),
    }
    assert_eq!(expect_error(s.metadata_fetched(Ok(Some(Vec::new())))), GatewayError::NoSheetsFound);
}

#[test]
fn titles_keep_order_and_skip_untitled_tabs() {
    let tabs = vec![Some("First".to_string()), None, Some("Third".to_string())];
    assert_eq!(sheet_titles(Some(tabs.clone())).unwrap(), vec!["First".to_string(), "Third".to_string()]);
    assert_eq!(sheet_titles(Some(vec![None])).unwrap(), Vec::<String>::new());
    let (s, a) = Session::list_sheet_titles("key.json".to_string(), "id".to_string());
    let (mut s, _) = authorized(s, a);
    match s.metadata_fetched(Ok(Some(tabs))) {
        Action::Finish(Ok(Reply::Titles(t))) => assert_eq!(t, vec!["First".to_string(), "Third".to_string()]),
        other => panic!("expected titles, got {:?}", other),
    }
}

#[test]
fn unreadable_key_stops_before_any_remote_call() {
    for op in [Operation::ReadRange, Operation::WriteRange, Operation::ListSheetTitles] {
        let (mut s, a) = match op {
            Operation::ReadRange => Session::read_range("missing.json".to_string(), "id".to_string(), "S"),
            Operation::WriteRange => {
                Session::write_range("missing.json".to_string(), "id".to_string(), "S", rows(&[&["v"]]))
            }
            Operation::ListSheetTitles => Session::list_sheet_titles("missing.json".to_string(), "id".to_string()),
        };
        assert!(matches!(a, Action::Call(Request::ReadKey { .. })));
        let e = expect_error(s.key_read(Err("no such file".to_string())));
        assert_eq!(e, GatewayError::CredentialRead("no such file".to_string()));
        assert_eq!(s.stage(), Stage::Finished);
    }
}

#[test]
fn refused_key_stops_before_any_remote_call() {
    let (mut s, _) = Session::write_range("key.json".to_string(), "id".to_string(), "S", rows(&[&["v"]]));
    assert!(matches!(expect_call(s.key_read(Ok(()))), Request::Authorize));
    let e = expect_error(s.authorized(Err("invalid_grant".to_string())));
    assert_eq!(e, GatewayError::Authentication("invalid_grant".to_string()));
    assert_eq!(s.stage(), Stage::Finished);
}

#[test]
fn failed_update_after_clear_is_update_error() {
    let (s, a) = Session::write_range("key.json".to_string(), "id".to_string(), "Sheet1", rows(&[&["a"]]));
    let (mut s, _) = authorized(s, a);
    assert!(matches!(expect_call(s.cleared(Ok(()))), Request::UpdateValues { .. }));
    let e = expect_error(s.updated(Err("503".to_string())));
    assert_eq!(e, GatewayError::Update("503".to_string()));
    assert_eq!(s.stage(), Stage::Finished);
}

#[test]
fn failed_clear_writes_nothing() {
    let (s, a) = Session::write_range("key.json".to_string(), "id".to_string(), "Sheet1", rows(&[&["a"]]));
    let (mut s, _) = authorized(s, a);
    assert_eq!(expect_error(s.cleared(Err("403".to_string()))), GatewayError::Clear("403".to_string()));
    assert_eq!(s.stage(), Stage::Finished);
}

#[test]
fn failed_fetch_and_metadata_are_reported() {
    let (s, a) = Session::read_range("key.json".to_string(), "id".to_string(), "Sheet1");
    let (mut s, _) = authorized(s, a);
    assert_eq!(expect_error(s.values_fetched(Err("404".to_string()))), GatewayError::Fetch("404".to_string()));
    let (s, a) = Session::list_sheet_titles("key.json".to_string(), "id".to_string());
    let (mut s, _) = authorized(s, a);
    assert_eq!(
        expect_error(s.metadata_fetched(Err("404".to_string()))),
        GatewayError::Metadata("404".to_string())
    );
}

#[test]
fn error_messages() {
    let d = || "boom".to_string();
    assert_eq!(GatewayError::CredentialRead(d()).message(), "Failed to read service account key: boom");
    assert_eq!(GatewayError::Authentication(d()).message(), "Failed to create authenticator: boom");
    assert_eq!(GatewayError::Fetch(d()).message(), "Error fetching data from Google Sheets");
    assert_eq!(GatewayError::Clear(d()).message(), "Failed to clear sheet: boom");
    assert_eq!(GatewayError::Update(d()).message(), "Failed to update sheet: boom");
    assert_eq!(GatewayError::Metadata(d()).message(), "Failed to retrieve spreadsheet details: boom");
    assert_eq!(GatewayError::NoSheetsFound.message(), "No sheets found in the spreadsheet.");
    assert_eq!(GatewayError::Serialization(d()).message(), "boom");
    assert_eq!(
        GatewayError::InvalidSheetName("a!b".to_string()).message(),
        "Sheet name may not contain '!': a!b"
    );
}

#[test]
fn each_operation_reports_auth_failures_its_own_way() {
    let cred = GatewayError::CredentialRead("no such file".to_string());
    let auth = GatewayError::Authentication("invalid_grant".to_string());
    assert_eq!(
        error_text(Operation::ReadRange, &cred),
        "Failed to authenticate: Failed to read service account key: no such file"
    );
    assert_eq!(
        error_text(Operation::ReadRange, &auth),
        "Failed to authenticate: Failed to create authenticator: invalid_grant"
    );
    assert_ne!(error_text(Operation::ReadRange, &cred), error_text(Operation::ReadRange, &auth));
    assert_eq!(
        error_text(Operation::WriteRange, &cred),
        "Failed to read service account key: no such file"
    );
    assert_eq!(error_text(Operation::WriteRange, &auth), "Failed to create authenticator: invalid_grant");
    assert_eq!(
        error_text(Operation::ListSheetTitles, &cred),
        "Authentication failed: Failed to read service account key: no such file"
    );
    assert_eq!(
        error_text(Operation::ListSheetTitles, &auth),
        "Authentication failed: Failed to create authenticator: invalid_grant"
    );
}

#[test]
fn other_errors_read_the_same_for_every_operation() {
    let fetch = GatewayError::Fetch("404".to_string());
    assert_eq!(error_text(Operation::ReadRange, &fetch), "Error fetching data from Google Sheets");
    assert_eq!(
        error_text(Operation::ListSheetTitles, &GatewayError::NoSheetsFound),
        "No sheets found in the spreadsheet."
    );
    assert_eq!(
        error_text(Operation::WriteRange, &GatewayError::Update("503".to_string())),
        "Failed to update sheet: 503"
    );
}

#[test]
fn session_knows_its_operation() {
    let (s, _) = Session::list_sheet_titles("key.json".to_string(), "id".to_string());
    assert_eq!(s.operation(), Operation::ListSheetTitles);
    let (s, _) = Session::write_range("key.json".to_string(), "id".to_string(), "S", Vec::new());
    assert_eq!(s.operation(), Operation::WriteRange);
}
