use client_gateway::api_types::{Client, FetchClientsResponse, File, GetClientResponse, Metadata,
    UpdateClientRequest};
use client_gateway::client_commands::{conclude_fetch_client, conclude_fetch_clients,
    delete_client_plan, fetch_client_plan, fetch_clients_plan, update_client_plan};
use client_gateway::email_commands::{send_category_files_email_plan, send_file_email_plan};
use client_gateway::errors::{error_message, CommandError, OpKind};
use client_gateway::executor::{conclude_ack, status_is_success};
use client_gateway::file_commands::{add_file_begin, delete_file_plan};
use client_gateway::request::{Method, RequestBody};

fn base() -> Option<String> {
    Some(String::from("http://api.example.com"))
}

fn sample_client(id: u32) -> Client {
    Client {
        id,
        company_name: String::from("Acme"),
        client_name: String::from("Ada"),
        email: String::from("ada@acme.test"),
        phone: String::from("555-0100"),
        segment: String::from("industrial"),
        state: String::from("SP"),
        city: String::from("Campinas"),
        files: None,
    }
}

#[test]
fn missing_base_address_is_config_error() {
    let none: Option<String> = None;
    assert!(matches!(fetch_clients_plan(&none, &None), Err(CommandError::Config)));
    assert!(matches!(fetch_client_plan(&none, 1), Err(CommandError::Config)));
    assert!(matches!(delete_client_plan(&none, 1), Err(CommandError::Config)));
    assert!(matches!(add_file_begin(&none, 1), Err(CommandError::Config)));
    assert!(matches!(delete_file_plan(&none, 1, 2), Err(CommandError::Config)));
    assert!(matches!(send_file_email_plan(&none, 1, 2), Err(CommandError::Config)));
    assert!(matches!(
        send_category_files_email_plan(&none, &String::from("invoice"), 2),
        Err(CommandError::Config)
    ));
}

#[test]
fn list_plan_appends_raw_query() {
    let plan = fetch_clients_plan(&base(), &Some(String::from("page=2&pageSize=10"))).unwrap();
    assert_eq!(plan.endpoint.as_str(), "http://api.example.com/clients?page=2&pageSize=10");
    assert!(matches!(plan.method, Method::Get));
    assert!(matches!(plan.body, RequestBody::Empty));
}

#[test]
fn list_plan_without_query() {
    let plan = fetch_clients_plan(&base(), &None).unwrap();
    assert_eq!(plan.endpoint.as_str(), "http://api.example.com/clients?");
}

#[test]
fn list_conclusion_returns_envelope_unchanged() {
    let envelope = FetchClientsResponse {
        clients: vec![sample_client(1), sample_client(2), sample_client(3)],
        metadata: Metadata {
            current_page: 2,
            page_size: 10,
            first_page: 1,
            last_page: 5,
            total_records: 45,
        },
    };
    let got = conclude_fetch_clients(200, Some(Ok(envelope.clone())), None).unwrap();
    assert_eq!(got, envelope);
}

#[test]
fn list_conclusion_rejects_incoherent_window() {
    let envelope = FetchClientsResponse {
        clients: vec![sample_client(1)],
        metadata: Metadata {
            current_page: 7,
            page_size: 10,
            first_page: 1,
            last_page: 5,
            total_records: 45,
        },
    };
    assert!(matches!(
        conclude_fetch_clients(200, Some(Ok(envelope)), None),
        Err(CommandError::Decode { .. })
    ));
}

#[test]
fn list_conclusion_rejects_overfull_page() {
    let envelope = FetchClientsResponse {
        clients: vec![sample_client(1), sample_client(2)],
        metadata: Metadata {
            current_page: 1,
            page_size: 1,
            first_page: 1,
            last_page: 1,
            total_records: 2,
        },
    };
    assert!(matches!(
        conclude_fetch_clients(200, Some(Ok(envelope)), None),
        Err(CommandError::Decode { .. })
    ));
}

#[test]
fn list_conclusion_classifies_api_error() {
    let err = conclude_fetch_clients(500, None, Some(String::from("boom"))).unwrap_err();
    match err {
        CommandError::Api { status, body } => {
            assert_eq!(status, 500);
            assert_eq!(body.as_str(), "boom");
        },
        other => panic!("expected Api error, got {:?}", other),
    }
}

#[test]
fn list_conclusion_unreadable_body_placeholder() {
    let err = conclude_fetch_clients(502, None, None).unwrap_err();
    match err {
        CommandError::Api { status, body } => {
            assert_eq!(status, 502);
            assert_eq!(body.as_str(), "Unknown error");
        },
        other => panic!("expected Api error, got {:?}", other),
    }
}

#[test]
fn list_conclusion_decode_failure() {
    let err =
        conclude_fetch_clients(200, Some(Err(String::from("missing field `metadata`"))), None)
            .unwrap_err();
    match err {
        CommandError::Decode { detail } => {
            assert_eq!(detail.as_str(), "missing field `metadata`");
        },
        other => panic!("expected Decode error, got {:?}", other),
    }
}

#[test]
fn fetch_plan_uses_resource_endpoint() {
    let plan = fetch_client_plan(&base(), 5).unwrap();
    assert_eq!(plan.endpoint.as_str(), "http://api.example.com/clients/5");
    assert!(matches!(plan.method, Method::Get));
    assert!(matches!(plan.body, RequestBody::Empty));
}

#[test]
fn fetch_conclusion_checks_file_ownership() {
    let stray = File {
        id: 9,
        created_at: String::from("2024-01-01"),
        original_file_name: String::from("a.pdf"),
        file_name: String::from("stored-a.pdf"),
        file_path: String::from("/store/a.pdf"),
        category: String::from("invoice"),
        client_id: 99,
    };
    let record = GetClientResponse { client: sample_client(5), files: Some(vec![stray]) };
    assert!(matches!(
        conclude_fetch_client(200, Some(Ok(record)), None),
        Err(CommandError::Decode { .. })
    ));
}

#[test]
fn fetch_conclusion_returns_record_unchanged() {
    let owned = File {
        id: 9,
        created_at: String::from("2024-01-01"),
        original_file_name: String::from("a.pdf"),
        file_name: String::from("stored-a.pdf"),
        file_path: String::from("/store/a.pdf"),
        category: String::from("invoice"),
        client_id: 5,
    };
    let record = GetClientResponse { client: sample_client(5), files: Some(vec![owned]) };
    let got = conclude_fetch_client(200, Some(Ok(record.clone())), None).unwrap();
    assert_eq!(got, record);
}

#[test]
fn update_plan_carries_full_payload() {
    let payload = UpdateClientRequest {
        id: 5,
        company_name: String::from("Acme"),
        client_name: String::from("Ada"),
        email: String::from("ada@acme.test"),
        phone: String::from("555-0100"),
        segment: String::from("industrial"),
        state: String::from("SP"),
        city: String::from("Campinas"),
    };
    let plan = update_client_plan(&base(), payload.clone()).unwrap();
    assert_eq!(plan.endpoint.as_str(), "http://api.example.com/clients/5");
    assert!(matches!(plan.method, Method::Put));
    match plan.body {
        RequestBody::Json(d) => assert_eq!(d, payload),
        other => panic!("expected JSON body, got {:?}", other),
    }
}

#[test]
fn update_failure_message_names_body_and_status() {
    let err = conclude_ack(404, Some(String::from("client not found"))).unwrap_err();
    let msg = error_message(&OpKind::UpdateClient, &err);
    assert!(msg.contains("client not found"));
    assert!(msg.contains("404"));
}

#[test]
fn delete_plan_uses_resource_endpoint() {
    let plan = delete_client_plan(&base(), 8).unwrap();
    assert_eq!(plan.endpoint.as_str(), "http://api.example.com/clients/8");
    assert!(matches!(plan.method, Method::Delete));
}

#[test]
fn delete_file_plan_uses_nested_endpoint() {
    let plan = delete_file_plan(&base(), 9, 3).unwrap();
    assert_eq!(plan.endpoint.as_str(), "http://api.example.com/clients/3/files/9");
    assert!(matches!(plan.method, Method::Delete));
    assert!(matches!(plan.body, RequestBody::Empty));
}

#[test]
fn send_file_plan_uses_send_endpoint() {
    let plan = send_file_email_plan(&base(), 9, 3).unwrap();
    assert_eq!(plan.endpoint.as_str(), "http://api.example.com/clients/3/files/9/send");
    assert!(matches!(plan.method, Method::Post));
    assert!(matches!(plan.body, RequestBody::Empty));
}

#[test]
fn send_category_plan_encodes_segment() {
    let plan = send_category_files_email_plan(&base(), &String::from("my invoices"), 3).unwrap();
    assert_eq!(plan.endpoint.as_str(), "http://api.example.com/clients/3/files/send/my%20invoices");
    assert!(matches!(plan.method, Method::Post));
}

#[test]
fn success_range_bounds() {
    assert!(!status_is_success(199));
    assert!(status_is_success(200));
    assert!(status_is_success(204));
    assert!(status_is_success(299));
    assert!(!status_is_success(300));
    assert!(!status_is_success(404));
    assert!(!status_is_success(500));
}

#[test]
fn acknowledgment_follows_success_range() {
    assert!(conclude_ack(204, None).is_ok());
    assert!(conclude_ack(200, None).is_ok());
    assert!(matches!(conclude_ack(500, None), Err(CommandError::Api { .. })));
}

#[test]
fn error_messages_per_class() {
    assert_eq!(
        error_message(&OpKind::FetchClients, &CommandError::Config).as_str(),
        "API base address is not configured"
    );
    assert_eq!(
        error_message(
            &OpKind::FetchClients,
            &CommandError::Transport { detail: String::from("connection refused") }
        )
        .as_str(),
        "Failed to fetch clients: connection refused"
    );
    assert_eq!(
        error_message(
            &OpKind::DeleteClient,
            &CommandError::Api { status: 404, body: String::from("gone") }
        )
        .as_str(),
        "Error trying to delete client: gone with status code 404"
    );
    assert_eq!(
        error_message(
            &OpKind::CreateClient,
            &CommandError::Decode { detail: String::from("bad json") }
        )
        .as_str(),
        "Failed to parse JSON: bad json"
    );
    assert_eq!(
        error_message(
            &OpKind::AddFile,
            &CommandError::FileOpen { detail: String::from("no such file") }
        )
        .as_str(),
        "Failed to open file: no such file"
    );
    assert_eq!(
        error_message(
            &OpKind::AddFile,
            &CommandError::FileRead { detail: String::from("interrupted") }
        )
        .as_str(),
        "Failed to read file: interrupted"
    );
    assert_eq!(
        error_message(&OpKind::AddFile, &CommandError::FileName).as_str(),
        "File path has no usable file name"
    );
}
