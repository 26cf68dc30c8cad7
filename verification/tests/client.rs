use historical_client::{block_from_parts, decode_block, decode_block_response, decode_transaction,
    decode_transaction_response, ClientError, HistoricalClient};

#[test]
fn block_url_is_exact() {
    let c = HistoricalClient::new("http://host".to_string());
    assert_eq!(
        c.block_url(100, "finalized"),
        "http://host/block/100?commitment=finalized"
    );
}

#[test]
fn transaction_url_is_exact() {
    let c = HistoricalClient::new("http://host".to_string());
    assert_eq!(
        c.transaction_url("sigXYZ", "confirmed"),
        "http://host/tx/sigXYZ?commitment=confirmed"
    );
}

#[test]
fn block_url_smallest_and_largest_slot() {
    let c = HistoricalClient::new("http://host".to_string());
    assert_eq!(c.block_url(0, "p"), "http://host/block/0?commitment=p");
    assert_eq!(
        c.block_url(u64::MAX, "p"),
        "http://host/block/18446744073709551615?commitment=p"
    );
}

#[test]
fn base_url_is_stored_verbatim() {
    let c = HistoricalClient::new("https://example.org/api".to_string());
    assert_eq!(c.base(), "https://example.org/api");
}

#[test]
fn one_client_serves_independent_requests() {
    let c = HistoricalClient::new("http://host".to_string());
    let a = c.block_url(1, "finalized");
    let b = c.transaction_url("s", "processed");
    assert_eq!(a, "http://host/block/1?commitment=finalized");
    assert_eq!(b, "http://host/tx/s?commitment=processed");
    assert_eq!(c.base(), "http://host");
}

#[test]
fn decode_block_fixture_round_trip() {
    let body = "{\"slot\":100,\"blockhash\":\"abc\",\"parent_slot\":99,\
                \"block_time\":1690000000,\"height\":95}";
    let b = match decode_block(body) {
        Ok(b) => b,
        Err(_) => panic!("fixture should decode"),
    };
    assert_eq!(b.slot, 100);
    assert_eq!(b.blockhash, "abc");
    assert_eq!(b.parent_slot, 99);
    assert_eq!(b.block_time, 1690000000);
    assert_eq!(b.height, 95);
}

#[test]
fn decode_block_negative_block_time() {
    let body = "{\"slot\":1,\"blockhash\":\"h\",\"parent_slot\":0,\
                \"block_time\":-5,\"height\":1}";
    let b = match decode_block(body) {
        Ok(b) => b,
        Err(_) => panic!("fixture should decode"),
    };
    assert_eq!(b.block_time, -5);
}

#[test]
fn decode_block_missing_height_fails() {
    let body = "{\"slot\":100,\"blockhash\":\"abc\",\"parent_slot\":99,\
                \"block_time\":1690000000}";
    match decode_block(body) {
        Err(ClientError::Schema(f)) => assert_eq!(f, "height"),
        _ => panic!("missing height must fail with the schema error"),
    }
}

#[test]
fn decode_block_mistyped_slot_fails() {
    let body = "{\"slot\":\"abc\",\"blockhash\":\"abc\",\"parent_slot\":99,\
                \"block_time\":1690000000,\"height\":95}";
    match decode_block(body) {
        Err(ClientError::Schema(f)) => assert_eq!(f, "slot"),
        _ => panic!("mistyped slot must fail with the schema error"),
    }
}

#[test]
fn decode_block_empty_body_fails() {
    match decode_block("") {
        Err(ClientError::Json(_)) => {}
        _ => panic!("empty body must fail with the JSON error"),
    }
}

#[test]
fn decode_block_non_json_body_fails() {
    match decode_block("<html>502 Bad Gateway</html>") {
        Err(ClientError::Json(_)) => {}
        _ => panic!("non-JSON body must fail with the JSON error"),
    }
}

#[test]
fn decode_transaction_passes_body_through() {
    let body = "{\"signatures\":[\"s1\"],\"meta\":{\"fee\":5},\"version\":0}";
    let got = match decode_transaction(body) {
        Ok(v) => v,
        Err(_) => panic!("valid JSON should decode"),
    };
    let expected: serde_json::Value = serde_json::from_str(body).unwrap();
    assert_eq!(got, expected);
}

#[test]
fn decode_transaction_scalar_body() {
    let got = match decode_transaction("null") {
        Ok(v) => v,
        Err(_) => panic!("null is valid JSON"),
    };
    assert!(got.is_null());
}

#[test]
fn decode_transaction_empty_body_fails() {
    match decode_transaction("") {
        Err(ClientError::Json(_)) => {}
        _ => panic!("empty body must fail with the JSON error"),
    }
}

#[test]
fn block_from_parts_all_present() {
    let r = block_from_parts(Some(7), Some("hash".to_string()), Some(6), Some(-1), Some(4));
    let b = match r {
        Ok(b) => b,
        Err(_) => panic!("all parts present must succeed"),
    };
    assert_eq!(b.slot, 7);
    assert_eq!(b.blockhash, "hash");
    assert_eq!(b.parent_slot, 6);
    assert_eq!(b.block_time, -1);
    assert_eq!(b.height, 4);
}

#[test]
fn block_from_parts_reports_first_missing_field() {
    match block_from_parts(None, None, None, None, None) {
        Err(ClientError::Schema(f)) => assert_eq!(f, "slot"),
        _ => panic!("missing slot must fail with the schema error"),
    }
    match block_from_parts(Some(1), Some("h".to_string()), None, Some(2), Some(3)) {
        Err(ClientError::Schema(f)) => assert_eq!(f, "parent_slot"),
        _ => panic!("missing parent_slot must fail with the schema error"),
    }
}

#[test]
fn decode_block_non_object_body_fails() {
    match decode_block("[1,2,3]") {
        Err(ClientError::Schema(f)) => assert_eq!(f, "slot"),
        _ => panic!("a non-object body must fail with the schema error"),
    }
}

#[test]
fn block_response_rejects_non_2xx_status() {
    let body = "{\"slot\":100,\"blockhash\":\"abc\",\"parent_slot\":99,\
                \"block_time\":1690000000,\"height\":95}";
    match decode_block_response(404, body) {
        Err(ClientError::Status(sc)) => assert_eq!(sc, 404),
        _ => panic!("a non-2xx reply must fail with the status error"),
    }
}

#[test]
fn block_response_accepts_2xx_status() {
    let body = "{\"slot\":100,\"blockhash\":\"abc\",\"parent_slot\":99,\
                \"block_time\":1690000000,\"height\":95}";
    let b = match decode_block_response(200, body) {
        Ok(b) => b,
        Err(_) => panic!("a 2xx reply with a full body should decode"),
    };
    assert_eq!(b.slot, 100);
    assert_eq!(b.height, 95);
}

#[test]
fn block_response_checks_status_before_body() {
    match decode_block_response(500, "") {
        Err(ClientError::Status(sc)) => assert_eq!(sc, 500),
        _ => panic!("the status must be rejected before the body is read"),
    }
}

#[test]
fn transaction_response_rejects_non_2xx_status() {
    match decode_transaction_response(503, "{\"a\":1}") {
        Err(ClientError::Status(sc)) => assert_eq!(sc, 503),
        _ => panic!("a non-2xx reply must fail with the status error"),
    }
}

#[test]
fn transaction_response_accepts_2xx_status() {
    let got = match decode_transaction_response(201, "{\"a\":1}") {
        Ok(v) => v,
        Err(_) => panic!("a 2xx reply with valid JSON should decode"),
    };
    let expected: serde_json::Value = serde_json::from_str("{\"a\":1}").unwrap();
    assert_eq!(got, expected);
}
