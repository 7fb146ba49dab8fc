use client_gateway::api_types::{Client, CreateFormData, CreateResponse, GetClientResponse};
use client_gateway::client_commands::{attachment_list, build_create_form, conclude_create_client,
    create_client_begin, create_client_request, Slot};
use client_gateway::errors::{error_message, CommandError, OpKind};
use client_gateway::file_commands::{add_file_begin, add_file_request, build_add_file_form};
use client_gateway::request::{get_file_part, ReadOutcome};
use client_gateway::text::{percent_encode, u32_to_string};

fn base() -> Option<String> {
    Some(String::from("http://api.example.com"))
}

fn scalars() -> CreateFormData {
    CreateFormData {
        company_name: String::from("Acme"),
        client_name: String::from("Ada"),
        email: String::from("ada@acme.test"),
        phone: String::from("555-0100"),
        segment: String::from("industrial"),
        state: String::from("SP"),
        city: String::from("Campinas"),
        purchase_order: None,
        invoice: None,
        handing_over_report: None,
        pms_report: None,
    }
}

#[test]
fn begin_resolves_collection_endpoint() {
    let prep = create_client_begin(&base(), &scalars()).unwrap();
    assert_eq!(prep.endpoint.as_str(), "http://api.example.com/clients");
    assert!(prep.attachments.is_empty());
}

#[test]
fn form_without_attachments_has_exactly_seven_fields() {
    let d = scalars();
    let form = build_create_form(&d, Vec::new()).unwrap();
    assert_eq!(form.parts.len(), 0);
    assert_eq!(form.fields.len(), 7);
    let names: Vec<&str> = form.fields.iter().map(|f| f.name.as_str()).collect();
    assert_eq!(
        names,
        vec!["company_name", "client_name", "email", "phone", "state", "city", "segment"]
    );
    assert_eq!(form.fields[0].value.as_str(), "Acme");
    assert_eq!(form.fields[6].value.as_str(), "industrial");
}

#[test]
fn invoice_parts_keep_count_and_order() {
    let mut d = scalars();
    d.invoice = Some(vec![
        String::from("a/first.pdf"),
        String::from("b/second.pdf"),
        String::from("c/third.pdf"),
    ]);
    let atts = attachment_list(&d);
    assert_eq!(atts.len(), 3);
    assert!(atts.iter().all(|a| matches!(a.slot, Slot::Invoice)));
    let reads = vec![
        ReadOutcome::Content(vec![1]),
        ReadOutcome::Content(vec![2, 2]),
        ReadOutcome::Content(vec![3, 3, 3]),
    ];
    let form = build_create_form(&d, reads).unwrap();
    assert_eq!(form.parts.len(), 3);
    for part in &form.parts {
        assert_eq!(part.field.as_str(), "invoice");
    }
    assert_eq!(form.parts[0].part.file_name.as_str(), "first.pdf");
    assert_eq!(form.parts[1].part.file_name.as_str(), "second.pdf");
    assert_eq!(form.parts[2].part.file_name.as_str(), "third.pdf");
    assert_eq!(form.parts[0].part.bytes, vec![1]);
    assert_eq!(form.parts[1].part.bytes, vec![2, 2]);
    assert_eq!(form.parts[2].part.bytes, vec![3, 3, 3]);
}

#[test]
fn all_slots_in_form_order() {
    let mut d = scalars();
    d.purchase_order = Some(String::from("po/order.pdf"));
    d.invoice = Some(vec![String::from("i/one.pdf"), String::from("i/two.pdf")]);
    d.handing_over_report = Some(String::from("h/report.pdf"));
    d.pms_report = Some(vec![String::from("p/pms.pdf")]);
    let atts = attachment_list(&d);
    let slots: Vec<Slot> = atts.iter().map(|a| a.slot).collect();
    assert_eq!(
        slots,
        vec![
            Slot::PurchaseOrder,
            Slot::Invoice,
            Slot::Invoice,
            Slot::HandingOverReport,
            Slot::PmsReport
        ]
    );
    let reads: Vec<ReadOutcome> = (0..5).map(|i| ReadOutcome::Content(vec![i as u8])).collect();
    let form = build_create_form(&d, reads).unwrap();
    let fields: Vec<&str> = form.parts.iter().map(|p| p.field.as_str()).collect();
    assert_eq!(
        fields,
        vec!["purchase_order", "invoice", "invoice", "handing_over_report", "pms_report"]
    );
}

#[test]
fn open_failure_aborts_before_any_request() {
    let mut d = scalars();
    d.purchase_order = Some(String::from("po/order.pdf"));
    d.invoice = Some(vec![String::from("i/one.pdf")]);
    let reads = vec![
        ReadOutcome::OpenFailed(String::from("No such file or directory")),
        ReadOutcome::Content(vec![1]),
    ];
    let err = build_create_form(&d, reads).unwrap_err();
    match err {
        CommandError::FileOpen { detail } => {
            assert_eq!(detail.as_str(), "No such file or directory");
        },
        other => panic!("expected FileOpen, got {:?}", other),
    }
}

#[test]
fn read_failure_aborts_with_read_error() {
    let mut d = scalars();
    d.invoice = Some(vec![String::from("i/one.pdf")]);
    let reads = vec![ReadOutcome::ReadFailed(String::from("interrupted"))];
    assert!(matches!(build_create_form(&d, reads), Err(CommandError::FileRead { .. })));
}

#[test]
fn pathless_attachment_aborts_with_name_error() {
    let mut d = scalars();
    d.invoice = Some(vec![String::from("dir/")]);
    let reads = vec![ReadOutcome::Content(vec![1])];
    assert!(matches!(build_create_form(&d, reads), Err(CommandError::FileName)));
}

#[test]
fn create_request_wraps_form_as_post() {
    let d = scalars();
    let prep = create_client_begin(&base(), &d).unwrap();
    let form = build_create_form(&d, Vec::new()).unwrap();
    let plan = create_client_request(prep.endpoint, form);
    assert_eq!(plan.endpoint.as_str(), "http://api.example.com/clients");
}

#[test]
fn create_fetch_round_trip_scalars() {
    let d = scalars();
    let form = build_create_form(&d, Vec::new()).unwrap();
    let stored = Client {
        id: 41,
        company_name: form.fields[0].value.clone(),
        client_name: form.fields[1].value.clone(),
        email: form.fields[2].value.clone(),
        phone: form.fields[3].value.clone(),
        state: form.fields[4].value.clone(),
        city: form.fields[5].value.clone(),
        segment: form.fields[6].value.clone(),
        files: None,
    };
    let created = conclude_create_client(201, Some(Ok(CreateResponse {
        client: stored.clone(),
    })), None)
        .unwrap();
    let fetched = GetClientResponse { client: created.client.clone(), files: None };
    assert_eq!(fetched.client.company_name, d.company_name);
    assert_eq!(fetched.client.client_name, d.client_name);
    assert_eq!(fetched.client.email, d.email);
    assert_eq!(fetched.client.phone, d.phone);
    assert_eq!(fetched.client.segment, d.segment);
    assert_eq!(fetched.client.state, d.state);
    assert_eq!(fetched.client.city, d.city);
    assert_eq!(fetched.client.id, 41);
}

#[test]
fn attach_form_holds_category_and_one_part() {
    let endpoint = add_file_begin(&base(), 7).unwrap();
    assert_eq!(endpoint.as_str(), "http://api.example.com/clients/7/files");
    let form = build_add_file_form(
        String::from("invoice"),
        &String::from("docs/bill.pdf"),
        ReadOutcome::Content(vec![9, 9]),
    )
    .unwrap();
    assert_eq!(form.fields.len(), 1);
    assert_eq!(form.fields[0].name.as_str(), "category");
    assert_eq!(form.fields[0].value.as_str(), "invoice");
    assert_eq!(form.parts.len(), 1);
    assert_eq!(form.parts[0].field.as_str(), "file");
    assert_eq!(form.parts[0].part.file_name.as_str(), "bill.pdf");
    assert_eq!(form.parts[0].part.bytes, vec![9, 9]);
    let plan = add_file_request(endpoint, form);
    assert_eq!(plan.endpoint.as_str(), "http://api.example.com/clients/7/files");
}

#[test]
fn attach_missing_file_fails_before_any_request() {
    let err = build_add_file_form(
        String::from("invoice"),
        &String::from("/no/such/file.pdf"),
        ReadOutcome::OpenFailed(String::from("No such file or directory (os error 2)")),
    )
    .unwrap_err();
    assert!(matches!(err, CommandError::FileOpen { .. }));
    let msg = error_message(&OpKind::AddFile, &err);
    assert!(msg.starts_with("Failed to open file:"));
}

#[test]
fn file_part_derives_name_from_final_segment() {
    let part = get_file_part(&String::from("dir/sub/report.pdf"), vec![1, 2, 3]).unwrap();
    assert_eq!(part.file_name.as_str(), "report.pdf");
    assert_eq!(part.bytes, vec![1, 2, 3]);
    let windows = get_file_part(&String::from("C:\\docs\\a.pdf"), Vec::new()).unwrap();
    assert_eq!(windows.file_name.as_str(), "a.pdf");
    let plain = get_file_part(&String::from("file.txt"), Vec::new()).unwrap();
    assert_eq!(plain.file_name.as_str(), "file.txt");
    assert!(matches!(get_file_part(&String::from("dir/"), Vec::new()), Err(CommandError::FileName)));
    assert!(matches!(get_file_part(&String::from(""), Vec::new()), Err(CommandError::FileName)));
}

#[test]
fn decimal_rendering_exact() {
    assert_eq!(u32_to_string(0).as_str(), "0");
    assert_eq!(u32_to_string(7).as_str(), "7");
    assert_eq!(u32_to_string(45).as_str(), "45");
    assert_eq!(u32_to_string(1000).as_str(), "1000");
    assert_eq!(u32_to_string(u32::MAX).as_str(), "4294967295");
}

#[test]
fn percent_encoding_exact() {
    assert_eq!(percent_encode(&String::from("invoice")).as_str(), "invoice");
    assert_eq!(percent_encode(&String::from("a b/c")).as_str(), "a%20b%2Fc");
    assert_eq!(percent_encode(&String::from("A-Z_0.9~")).as_str(), "A-Z_0.9~");
    assert_eq!(percent_encode(&String::from("\u{e9}")).as_str(), "%C3%A9");
    assert_eq!(percent_encode(&String::from("caf\u{e9} files")).as_str(), "caf%C3%A9%20files");
    assert_eq!(percent_encode(&String::from("")).as_str(), "");
}
