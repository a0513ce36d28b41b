use neocities::error::{is_failed_status, NeocitiesError, TransportError};
use neocities::info::Info;
use neocities::json::Json;
use neocities::listing::ListEntry;
use neocities::reply::{
    delete_reply, ends_on_status, info_reply, info_result, key_reply, list_reply, list_result,
    reply_payload, text_result, upload_reply,
};
use neocities::request::Operation;

const ERROR_BODY: &[u8] =
    b"{\"result\":\"error\",\"error_type\":\"invalid_auth\",\"message\":\"Invalid login\"}";

fn invalid_login() -> NeocitiesError {
    NeocitiesError::ApiErr("invalid_auth".to_string(), "Invalid login".to_string())
}

fn decode() -> NeocitiesError {
    NeocitiesError::TransportErr(TransportError::Decode)
}

fn status(code: u16) -> NeocitiesError {
    NeocitiesError::TransportErr(TransportError::Status(code))
}

#[test]
fn list_reply_reads_a_file_entry() {
    let body = b"{\"result\":\"success\",\"files\":[{\"path\":\"index.html\",\"size\":100,\"updated_at\":\"Mon, 01 Jan 2024 00:00:00 -0000\",\"sha1_hash\":\"abc\"}]}";
    assert_eq!(
        list_reply(200, body),
        Ok(vec![ListEntry::File {
            path: "index.html".to_string(),
            size: 100,
            updated_at: "Mon, 01 Jan 2024 00:00:00 -0000".to_string(),
            sha1_hash: "abc".to_string(),
        }])
    );
}

#[test]
fn list_reply_reads_files_and_directories_in_order() {
    let body = b"{\"result\":\"success\",\"files\":[{\"path\":\"sub\",\"is_directory\":true,\"updated_at\":\"d1\"},{\"path\":\"sub/b.txt\",\"is_directory\":false,\"size\":3,\"updated_at\":\"d2\",\"sha1_hash\":\"ff\"}]}";
    assert_eq!(
        list_reply(200, body),
        Ok(vec![
            ListEntry::Directory {
                path: "sub".to_string(),
                updated_at: "d1".to_string(),
            },
            ListEntry::File {
                path: "sub/b.txt".to_string(),
                size: 3,
                updated_at: "d2".to_string(),
                sha1_hash: "ff".to_string(),
            },
        ])
    );
}

#[test]
fn info_reply_reads_the_site_info() {
    let body = b"{\"result\":\"success\",\"info\":{\"sitename\":\"youpi\",\"hits\":5072,\"created_at\":\"c\",\"last_updated\":\"u\",\"domain\":null,\"tags\":[\"anime\"]}}";
    assert_eq!(
        info_reply(200, body),
        Ok(Info {
            site_name: "youpi".to_string(),
            hits: 5072,
            created_at: "c".to_string(),
            last_updated: "u".to_string(),
            domain: None,
            tags: vec!["anime".to_string()],
        })
    );
}

#[test]
fn key_reply_reads_the_key() {
    let body = b"{\"result\":\"success\",\"api_key\":\"da77c3530c30593663bf7b797323e48c\"}";
    assert_eq!(
        key_reply(200, body),
        Ok("da77c3530c30593663bf7b797323e48c".to_string())
    );
}

#[test]
fn upload_and_delete_replies_read_the_message() {
    let body = b"{\"result\":\"success\",\"message\":\"your file(s) have been successfully uploaded\"}";
    assert_eq!(
        upload_reply(200, body),
        Ok("your file(s) have been successfully uploaded".to_string())
    );
    let body = b"{\"result\":\"success\",\"message\":\"file(s) have been deleted\"}";
    assert_eq!(
        delete_reply(200, body),
        Ok("file(s) have been deleted".to_string())
    );
}

#[test]
fn every_operation_returns_the_error_that_the_service_reports() {
    assert_eq!(list_reply(200, ERROR_BODY), Err(invalid_login()));
    assert_eq!(info_reply(200, ERROR_BODY), Err(invalid_login()));
    assert_eq!(key_reply(200, ERROR_BODY), Err(invalid_login()));
    assert_eq!(upload_reply(200, ERROR_BODY), Err(invalid_login()));
    assert_eq!(delete_reply(200, ERROR_BODY), Err(invalid_login()));
}

#[test]
fn reading_operations_give_up_on_a_failed_status() {
    assert_eq!(list_reply(403, ERROR_BODY), Err(status(403)));
    assert_eq!(info_reply(404, ERROR_BODY), Err(status(404)));
    assert_eq!(key_reply(500, ERROR_BODY), Err(status(500)));
    assert_eq!(list_reply(599, b"not json"), Err(status(599)));
    assert_eq!(list_reply(500, b"oops"), Err(status(500)));
}

#[test]
fn changing_operations_hear_an_error_under_a_failed_status() {
    assert_eq!(upload_reply(403, ERROR_BODY), Err(invalid_login()));
    assert_eq!(delete_reply(400, ERROR_BODY), Err(invalid_login()));
    assert_eq!(upload_reply(500, b"<html>"), Err(status(500)));
    assert_eq!(delete_reply(502, b""), Err(status(502)));
    assert_eq!(
        upload_reply(500, b"{\"result\":\"maybe\"}"),
        Err(status(500))
    );
}

#[test]
fn a_failed_status_is_never_a_success() {
    let text = b"{\"result\":\"success\",\"message\":\"ok\"}";
    let files = b"{\"result\":\"success\",\"files\":[]}";
    let info = b"{\"result\":\"success\",\"info\":{\"sitename\":\"s\",\"hits\":1,\"created_at\":\"c\",\"last_updated\":\"u\",\"tags\":[]}}";
    for code in [0, 100, 199, 300, 302, 399, 400, 404, 500, 599, 600, 999, u16::MAX] {
        assert_eq!(upload_reply(code, text), Err(status(code)), "status {}", code);
        assert_eq!(delete_reply(code, text), Err(status(code)), "status {}", code);
        assert_eq!(key_reply(code, text), Err(status(code)), "status {}", code);
        assert_eq!(list_reply(code, files), Err(status(code)), "status {}", code);
        assert_eq!(info_reply(code, info), Err(status(code)), "status {}", code);
    }
}

#[test]
fn every_status_of_success_lets_the_body_decide() {
    let body = b"{\"result\":\"success\",\"api_key\":\"k\"}";
    for code in [200, 201, 204, 250, 299] {
        assert_eq!(key_reply(code, body), Ok("k".to_string()), "status {}", code);
        assert_eq!(upload_reply(code, body), Ok("k".to_string()), "status {}", code);
        assert_eq!(key_reply(code, ERROR_BODY), Err(invalid_login()));
        assert_eq!(key_reply(code, b"<html>"), Err(decode()));
    }
}

#[test]
fn failed_statuses_are_all_but_those_of_success() {
    assert!(is_failed_status(0));
    assert!(is_failed_status(100));
    assert!(is_failed_status(199));
    assert!(!is_failed_status(200));
    assert!(!is_failed_status(204));
    assert!(!is_failed_status(299));
    assert!(is_failed_status(300));
    assert!(is_failed_status(302));
    assert!(is_failed_status(400));
    assert!(is_failed_status(599));
    assert!(is_failed_status(600));
    assert!(is_failed_status(u16::MAX));
}

#[test]
fn ends_on_status_tells_when_the_body_goes_unread() {
    for operation in [Operation::List, Operation::Info, Operation::Key] {
        assert!(ends_on_status(operation, 404));
        assert!(ends_on_status(operation, 302));
        assert!(!ends_on_status(operation, 200));
    }
    for operation in [Operation::Upload, Operation::Delete] {
        assert!(!ends_on_status(operation, 404));
        assert!(!ends_on_status(operation, 200));
    }
}

#[test]
fn body_without_result_is_a_transport_error() {
    let body = b"{\"files\":[]}";
    assert_eq!(list_reply(200, body), Err(decode()));
    let body = b"{\"result\":\"ok\",\"api_key\":\"k\"}";
    assert_eq!(key_reply(200, body), Err(decode()));
    let body = b"{\"result\":null,\"message\":\"m\"}";
    assert_eq!(upload_reply(200, body), Err(decode()));
    assert_eq!(delete_reply(200, body), Err(decode()));
    assert_eq!(info_reply(200, b"[]"), Err(decode()));
}

#[test]
fn body_that_is_no_json_is_a_transport_error() {
    assert_eq!(list_reply(200, b""), Err(decode()));
    assert_eq!(info_reply(200, b"<html>"), Err(decode()));
    assert_eq!(key_reply(200, b"{\"result\":\"success\""), Err(decode()));
}

#[test]
fn payload_of_the_wrong_shape_is_a_transport_error() {
    assert_eq!(
        key_reply(200, b"{\"result\":\"success\",\"api_key\":5}"),
        Err(decode())
    );
    assert_eq!(
        list_reply(200, b"{\"result\":\"success\",\"files\":\"none\"}"),
        Err(decode())
    );
    assert_eq!(
        info_reply(200, b"{\"result\":\"success\",\"info\":{\"sitename\":\"x\"}}"),
        Err(decode())
    );
}

#[test]
fn error_reply_without_details_has_empty_kind_and_message() {
    assert_eq!(
        delete_reply(200, b"{\"result\":\"error\"}"),
        Err(NeocitiesError::ApiErr(String::new(), String::new()))
    );
}

#[test]
fn results_from_a_document_agree_with_those_from_the_body() {
    let json = Json::Object(vec![
        ("result".to_string(), Json::Text("success".to_string())),
        ("message".to_string(), Json::Text("done".to_string())),
    ]);
    assert_eq!(
        reply_payload(Operation::Upload, 200, Some(&json)),
        Ok(&Json::Text("done".to_string()))
    );
    assert_eq!(
        text_result(Operation::Delete, 200, Some(&json)),
        Ok("done".to_string())
    );
    assert_eq!(text_result(Operation::Key, 401, Some(&json)), Err(status(401)));
    assert_eq!(
        text_result(Operation::Upload, 500, Some(&json)),
        Err(status(500))
    );
    assert_eq!(
        reply_payload(Operation::Delete, 302, Some(&json)),
        Err(status(302))
    );
    assert_eq!(text_result(Operation::Upload, 500, None), Err(status(500)));
    assert_eq!(text_result(Operation::Key, 200, None), Err(decode()));
    assert_eq!(list_result(200, Some(&json)), Err(decode()));
    assert_eq!(info_result(200, Some(&json)), Err(decode()));
    assert_eq!(list_result(404, None), Err(status(404)));
    assert_eq!(info_result(200, None), Err(decode()));
}
