use oanda_rs::dispatch::{classify, complete, Error, StatusClass};
use oanda_rs::operation::Operation;

fn decode(body: &[u8]) -> Result<serde_json::Value, String> {
    serde_json::from_slice(body).map_err(|e| e.to_string())
}

#[test]
fn list_orders_status_table() {
    assert_eq!(classify(Operation::ListOrders, 200), StatusClass::Success);
    assert_eq!(classify(Operation::ListOrders, 400), StatusClass::ExpectedError);
    assert_eq!(classify(Operation::ListOrders, 404), StatusClass::ExpectedError);
    assert_eq!(classify(Operation::ListOrders, 405), StatusClass::ExpectedError);
    assert_eq!(classify(Operation::ListOrders, 401), StatusClass::Unexpected);
    assert_eq!(classify(Operation::ListOrders, 418), StatusClass::Unexpected);
    assert_eq!(classify(Operation::ListOrders, 201), StatusClass::Unexpected);
}

#[test]
fn tables_differ_per_operation() {
    assert_eq!(classify(Operation::CreateOrder, 201), StatusClass::Success);
    assert_eq!(classify(Operation::CreateOrder, 200), StatusClass::Unexpected);
    assert_eq!(classify(Operation::CreateOrder, 403), StatusClass::ExpectedError);
    assert_eq!(classify(Operation::GetAccountChanges, 416), StatusClass::ExpectedError);
    assert_eq!(classify(Operation::ListAccounts, 404), StatusClass::Unexpected);
    assert_eq!(classify(Operation::ClosePosition, 400), StatusClass::ExpectedError);
}

#[test]
fn list_orders_success_decodes() {
    let body = br#"{"orders":[],"lastTransactionID":"6"}"#.to_vec();
    let r = complete(Operation::ListOrders, 200, decode(&body), body.clone()).unwrap();
    assert_eq!(r.status(), 200);
    assert_eq!(r.into_inner()["lastTransactionID"], "6");
}

#[test]
fn list_orders_not_found_is_expected_error() {
    let body = br#"{"errorMessage":"no such account"}"#.to_vec();
    match complete(Operation::ListOrders, 404, decode(&body), body.clone()) {
        Err(Error::ErrorResponse(v)) => {
            assert_eq!(v.status, 404);
            assert_eq!(v.inner["errorMessage"], "no such account");
        }
        other => panic!("unexpected outcome: {:?}", other),
    }
}

#[test]
fn list_orders_teapot_is_unexpected() {
    let body = b"short and stout".to_vec();
    match complete(Operation::ListOrders, 418, decode(&body), body.clone()) {
        Err(Error::UnexpectedResponse { status, body: raw }) => {
            assert_eq!(status, 418);
            assert_eq!(raw, body);
        }
        other => panic!("unexpected outcome: {:?}", other),
    }
}

#[test]
fn malformed_success_payload_is_not_success() {
    let body = b"{not json".to_vec();
    match complete(Operation::ListOrders, 200, decode(&body), body.clone()) {
        Err(Error::InvalidResponsePayload(m)) => assert!(!m.is_empty()),
        other => panic!("unexpected outcome: {:?}", other),
    }
    let r = complete::<u8>(Operation::GetOrder, 200, Err("bad".to_string()), vec![]);
    assert!(matches!(r, Err(Error::InvalidResponsePayload(ref m)) if m == "bad"));
}

#[test]
fn close_position_bad_request_is_expected_error() {
    let r = complete(Operation::ClosePosition, 400, Ok(7u8), vec![]);
    assert!(matches!(r, Err(Error::ErrorResponse(ref v)) if v.inner == 7 && v.status == 400));
    let r = complete(Operation::ClosePosition, 400, Err::<u8, String>("x".to_string()), vec![]);
    assert!(matches!(r, Err(Error::InvalidResponsePayload(_))));
}
