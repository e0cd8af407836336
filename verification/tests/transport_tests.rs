use freebox_exporter::transport::{
    checked_result, client_expired, expect_result, list_result, managed_client_action, result_or, success_result,
    ClientAction, FreeboxResponse, FreeboxResponseError, ManagedHttpClient, ManagedHttpClientError,
};

fn resp(msg: Option<&str>, success: Option<bool>, result: Option<i32>) -> FreeboxResponse<i32> {
    FreeboxResponse { msg: msg.map(|m| m.to_string()), success, uid: None, error_code: None, result }
}

#[test]
fn answers_are_unwrapped_on_success_only() {
    assert_eq!(expect_result(resp(None, Some(true), Some(4)), "empty".to_string()).unwrap(), 4);
    assert_eq!(expect_result(resp(Some("bad"), Some(false), Some(4)), "empty".to_string()).err().unwrap().reason, "bad");
    assert_eq!(expect_result(resp(None, None, Some(4)), "empty".to_string()).err().unwrap().reason, "");
    assert_eq!(expect_result(resp(None, Some(true), None), "empty".to_string()).err().unwrap().reason, "empty");
    assert_eq!(checked_result(resp(Some("bad"), Some(false), None), "f".to_string(), "e".to_string()).err().unwrap().reason, "f");
    assert_eq!(result_or(resp(None, Some(false), Some(1)), "e".to_string()).unwrap(), 1);
    assert_eq!(success_result(resp(Some("m"), None, None)).err().unwrap().reason, "m");
    let l: FreeboxResponse<Vec<i32>> = FreeboxResponse { msg: None, success: Some(true), uid: None, error_code: None, result: None };
    assert!(list_result(l, "missing").unwrap().is_empty());
    let l: FreeboxResponse<Vec<i32>> = FreeboxResponse { msg: None, success: Some(false), uid: None, error_code: None, result: None };
    assert_eq!(list_result(l, "missing").err().unwrap().reason, "missing");
}

#[test]
fn managed_clients_expire() {
    assert!(!client_expired(10, 10));
    assert!(client_expired(10, 11));
    assert_eq!(managed_client_action(None, 0), ClientAction::Create);
    assert_eq!(managed_client_action(Some(5), 5), ClientAction::Reuse);
    assert_eq!(managed_client_action(Some(5), 6), ClientAction::Renew);
    assert_eq!(ManagedHttpClientError::new("HTTP Client expired".to_string()).describe(), "ManagedHttpClientError: HTTP Client expired");
}

#[test]
fn response_error_is_displayed_as_its_reason() {
    let e = FreeboxResponseError::new("boom".to_string());
    assert_eq!(e.reason, "boom");
    assert_eq!(e.describe(), "boom");
}

#[test]
fn managed_client_is_refused_after_its_expiry() {
    let c = ManagedHttpClient::new("client".to_string(), 1_000, 500);
    assert_eq!(c.expiry, 1_500);
    assert_eq!(c.get(1_000).unwrap(), "client");
    assert_eq!(c.get(1_500).unwrap(), "client");
    let e = c.get(1_501).unwrap_err();
    assert_eq!(e.error, "HTTP Client expired");
    assert_eq!(e.describe(), "ManagedHttpClientError: HTTP Client expired");
    assert_eq!(c.get(1_200).unwrap(), "client");
}
