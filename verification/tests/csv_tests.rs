use fastclient::csv_data::{
    customer_row, export_csv, export_rows, import_summary, is_csv_filename, plan_columns,
    prepare_row, read_upload, row_error, status_update, classify_record, ImportProgress, RowOutcome, ImportColumns, ImportError,
};
use fastclient::models::Customer;

fn customer(name: &str, email: Option<&str>, status: &str) -> Customer {
    Customer {
        id: 1,
        name: name.to_string(),
        email: email.map(|s| s.to_string()),
        phone: Some("555-0100".to_string()),
        website: None,
        city: Some("Austin".to_string()),
        state: Some("TX".to_string()),
        industry: Some("Retail, Online".to_string()),
        status: status.to_string(),
        needs_review: false,
        review_reason: None,
        created_at: 0,
        updated_at: 0,
    }
}

fn strings(v: &[&str]) -> Vec<String> {
    v.iter().map(|s| s.to_string()).collect()
}

fn columns(headers: &[&str]) -> ImportColumns {
    match plan_columns(&strings(headers)) {
        Ok(c) => c,
        Err(_) => panic!("columns refused"),
    }
}

#[test]
fn export_writes_header_then_rows() {
    let cs = vec![customer("Acme", Some("a@acme.io"), "new"), customer("Bob", None, "callback")];
    let bytes = export_csv(&cs).ok().expect("csv");
    let text = String::from_utf8(bytes).unwrap();
    assert_eq!(
        text,
        "name,email,phone,website,city,state,industry,status\n\
         Acme,a@acme.io,555-0100,,Austin,TX,\"Retail, Online\",new\n\
         Bob,,555-0100,,Austin,TX,\"Retail, Online\",callback\n"
    );
}

#[test]
fn export_of_nobody_is_empty() {
    assert_eq!(export_csv(&vec![]).ok(), Some(vec![]));
    assert!(export_rows(&vec![]).is_empty());
}

#[test]
fn exported_row_fields() {
    let row = customer_row(&customer("Acme", None, "new"));
    assert_eq!(row, strings(&["Acme", "", "555-0100", "", "Austin", "TX", "Retail, Online", "new"]));
}

#[test]
fn columns_are_found_case_aside() {
    let c = columns(&["Name", "PHONE", "City", "State", "Email"]);
    assert_eq!((c.name, c.phone, c.city, c.state), (0, 1, 2, 3));
    assert_eq!(c.email, Some(4));
    assert_eq!(c.website, None);
    assert_eq!(c.status, None);
}

#[test]
fn later_column_of_the_same_name_wins() {
    let c = columns(&["name", "phone", "city", "state", "NAME"]);
    assert_eq!(c.name, 4);
}

#[test]
fn first_missing_required_column_is_named() {
    match plan_columns(&strings(&["name", "phone", "email"])) {
        Err(ImportError::MissingColumn(c)) => assert_eq!(c, "city"),
        _ => panic!("expected a missing column"),
    }
    match plan_columns(&strings(&[])) {
        Err(e) => assert_eq!(e.message(), "Missing required column: name"),
        _ => panic!("expected a missing column"),
    }
}

#[test]
fn import_error_messages() {
    assert_eq!(ImportError::InvalidFileType.message(), "Invalid file type. Please upload a CSV file.");
    assert_eq!(ImportError::NoFile.message(), "No file uploaded");
    assert_eq!(ImportError::InvalidCsv.message(), "Invalid CSV format");
}

#[test]
fn csv_file_names() {
    assert!(is_csv_filename("customers.csv"));
    assert!(!is_csv_filename("customers.CSV"));
    assert!(!is_csv_filename("customers.xlsx"));
    assert!(!is_csv_filename(""));
}

#[test]
fn upload_is_read_record_by_record() {
    let (headers, records) = match read_upload("name,phone\nA,1\nB\nC,3\n") {
        Ok(t) => t,
        Err(_) => panic!("unreadable"),
    };
    assert_eq!(headers, strings(&["name", "phone"]));
    assert_eq!(records.len(), 3);
    assert_eq!(records[0], Some(strings(&["A", "1"])));
    assert_eq!(records[1], None);
    assert_eq!(records[2], Some(strings(&["C", "3"])));
}

#[test]
fn row_fields_are_trimmed_and_blank_optionals_dropped() {
    let c = columns(&["name", "phone", "city", "state", "email", "website", "industry", "status"]);
    let row = prepare_row(&strings(&[" Acme ", " 555 ", "Austin", " TX", "  ", "acme.io", "", " contacted "]), &c)
        .expect("accepted");
    assert_eq!(row.customer.name, "Acme");
    assert_eq!(row.customer.phone.as_deref(), Some("555"));
    assert_eq!(row.customer.state.as_deref(), Some("TX"));
    assert_eq!(row.customer.email, None);
    assert_eq!(row.customer.website.as_deref(), Some("acme.io"));
    assert_eq!(row.customer.industry, None);
    assert_eq!(row.status, "contacted");
}

#[test]
fn unknown_or_missing_status_becomes_new() {
    let with_status = columns(&["name", "phone", "city", "state", "status"]);
    let r = prepare_row(&strings(&["A", "1", "C", "S", "Callback"]), &with_status).unwrap();
    assert_eq!(r.status, "new");
    let r = prepare_row(&strings(&["A", "1", "C", "S", ""]), &with_status).unwrap();
    assert_eq!(r.status, "new");
    let without = columns(&["name", "phone", "city", "state"]);
    let r = prepare_row(&strings(&["A", "1", "C", "S"]), &without).unwrap();
    assert_eq!(r.status, "new");
}

#[test]
fn blank_required_field_rejects_the_row() {
    let c = columns(&["name", "phone", "city", "state"]);
    assert!(prepare_row(&strings(&["A", "1", "C", "  "]), &c).is_none());
    assert!(prepare_row(&strings(&["", "1", "C", "S"]), &c).is_none());
    assert!(prepare_row(&strings(&["A", "1"]), &c).is_none());
}

#[test]
fn imported_rows_get_their_status_set_afterwards() {
    let c = columns(&["name", "phone", "city", "state", "status"]);
    let row = prepare_row(&strings(&["A", "1", "C", "S", "follow_up"]), &c).unwrap();
    let u = status_update(&row).expect("update");
    assert_eq!(u.status.as_deref(), Some("follow_up"));
    assert!(u.name.is_none() && u.email.is_none() && u.city.is_none());
    let plain = prepare_row(&strings(&["A", "1", "C", "S", "new"]), &c).unwrap();
    assert!(status_update(&plain).is_none());
    let unknown = prepare_row(&strings(&["A", "1", "C", "S", "vip"]), &c).unwrap();
    assert!(status_update(&unknown).is_none());
    let without = columns(&["name", "phone", "city", "state"]);
    let bare = prepare_row(&strings(&["A", "1", "C", "S"]), &without).unwrap();
    assert!(status_update(&bare).is_none());
}

#[test]
fn summary_and_row_notes() {
    assert_eq!(import_summary(0), "No customers were imported.");
    assert_eq!(import_summary(3), "Successfully imported 3 customer(s).");
    assert_eq!(row_error(0, "Invalid format"), "Row 2: Invalid format");
    assert_eq!(row_error(10, "Missing required fields"), "Row 12: Missing required fields");
}

#[test]
fn exported_file_imports_back() {
    let original = customer("Acme", Some("a@acme.io"), "callback");
    let bytes = export_csv(&vec![original]).ok().unwrap();
    let text = String::from_utf8(bytes).unwrap();
    let (headers, records) = match read_upload(&text) {
        Ok(t) => t,
        Err(_) => panic!("unreadable"),
    };
    let cols = match plan_columns(&headers) {
        Ok(c) => c,
        Err(_) => panic!("columns"),
    };
    let row = prepare_row(records[0].as_ref().unwrap(), &cols).unwrap();
    assert_eq!(row.customer.name, "Acme");
    assert_eq!(row.customer.email.as_deref(), Some("a@acme.io"));
    assert_eq!(row.customer.industry.as_deref(), Some("Retail, Online"));
    assert_eq!(row.customer.website, None);
    assert_eq!(row.status, "callback");
    let u = status_update(&row).expect("status kept");
    assert_eq!(u.status.as_deref(), Some("callback"));
}

#[test]
fn exported_customer_without_email_keeps_its_status() {
    let original = customer("Acme", None, "contacted");
    let bytes = export_csv(&vec![original]).ok().unwrap();
    let text = String::from_utf8(bytes).unwrap();
    let (headers, records) = match read_upload(&text) {
        Ok(t) => t,
        Err(_) => panic!("unreadable"),
    };
    let cols = match plan_columns(&headers) {
        Ok(c) => c,
        Err(_) => panic!("columns"),
    };
    let row = prepare_row(records[0].as_ref().unwrap(), &cols).unwrap();
    assert_eq!(row.customer.email, None);
    let u = status_update(&row).expect("status kept");
    assert_eq!(u.status.as_deref(), Some("contacted"));
}

#[test]
fn import_progress_counts_and_notes() {
    let c = columns(&["name", "phone", "city", "state"]);
    let mut progress = ImportProgress::new();
    let records = vec![
        Some(strings(&["A", "1", "C", "S"])),
        None,
        Some(strings(&["A", "", "C", "S"])),
        Some(strings(&["B", "2", "D", "T"])),
    ];
    for (i, record) in records.iter().enumerate() {
        match classify_record(record, &c) {
            Ok(row) => {
                if row.customer.name == "B" {
                    progress.record(i, RowOutcome::CreateFailed("duplicate key".to_string()));
                } else {
                    progress.record(i, RowOutcome::Created);
                }
            }
            Err(outcome) => progress.record(i, outcome),
        }
    }
    assert_eq!(progress.imported, 1);
    assert_eq!(
        progress.errors,
        vec![
            "Row 3: Invalid format".to_string(),
            "Row 4: Missing required fields".to_string(),
            "Row 5: duplicate key".to_string(),
        ]
    );
    assert_eq!(progress.summary(), "Successfully imported 1 customer(s).");
    assert_eq!(ImportProgress::new().summary(), "No customers were imported.");
}
