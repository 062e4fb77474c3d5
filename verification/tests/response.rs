use cdpay::{
    check_http_status, initial_body_capacity, should_retry, wait_step, WaitStep, strip_debug_dump, APIError, CryptoCurrency,
    InitResponse, PaymentError, PaymentInfoInternal, StatusResponse,
};

fn internal(address: &str, iframe_id: &str) -> PaymentInfoInternal {
    PaymentInfoInternal {
        address: address.to_string(),
        amount: "0.0012".to_string(),
        iframe_id: iframe_id.to_string(),
        currency_id: CryptoCurrency::LTC,
        currency: "LTC".to_string(),
        msg: "ok".to_string(),
    }
}

fn status(error: u64, status_id: u64) -> StatusResponse {
    StatusResponse {
        error,
        error_msg: "failure".to_string(),
        status_msg: Some("message".to_string()),
        status_id,
    }
}

#[test]
fn status_paid_is_success() {
    assert!(matches!(status(0, 1).into_result(), Ok(())));
}

#[test]
fn status_incorrect_amount() {
    assert!(matches!(status(0, 2).into_result(), Err(Some(PaymentError::IncorrectAmount))));
}

#[test]
fn status_pending_is_retried() {
    let outcome = status(0, 4).into_result();
    assert!(matches!(outcome, Err(None)));
    if let Err(e) = outcome {
        assert!(should_retry(&e));
    }
}

#[test]
fn status_not_received() {
    assert!(matches!(status(0, 5).into_result(), Err(Some(PaymentError::NotReceived))));
}

#[test]
fn status_other() {
    match status(0, 3).into_result() {
        Err(Some(PaymentError::Other { status_id, status_message })) => {
            assert_eq!(status_id, 3);
            assert_eq!(status_message.as_deref(), Some("message"));
        }
        _ => panic!("expected Other"),
    }
}

#[test]
fn status_server_error() {
    match status(7, 1).into_result() {
        Err(Some(PaymentError::Communication(APIError::Error { code, message }))) => {
            assert_eq!(code, 7);
            assert_eq!(message, "failure");
        }
        _ => panic!("expected a server error"),
    }
}

#[test]
fn failures_are_not_retried() {
    let e: Option<PaymentError> = Some(PaymentError::NotReceived);
    assert!(!should_retry(&e));
    let none: Option<PaymentError> = None;
    assert!(should_retry(&none));
}

#[test]
fn init_response_takes_last_address() {
    let response = InitResponse {
        address: vec![internal("first", "1"), internal("second", "2")],
        error: 0,
        error_msg: String::new(),
    };
    let info = response.into_payment_info(true).unwrap();
    assert_eq!(info.address, "second");
    assert_eq!(info.amount, "0.0012");
    assert_eq!(info.currency_id, CryptoCurrency::LTC);
    assert_eq!(info.currency, "LTC");
    assert_eq!(info.msg, "ok");
    assert_eq!(info.handle.get_iframe_id(), "2");
    assert!(info.handle.testnet());
}

#[test]
fn init_response_without_address_is_missing_data() {
    let response = InitResponse { address: vec![], error: 0, error_msg: String::new() };
    assert!(matches!(response.into_payment_info(false), Err(APIError::MissingData)));
}

#[test]
fn init_response_error() {
    let response = InitResponse {
        address: vec![internal("first", "1")],
        error: 12,
        error_msg: "bad key".to_string(),
    };
    match response.into_payment_info(false) {
        Err(APIError::Error { code, message }) => {
            assert_eq!(code, 12);
            assert_eq!(message, "bad key");
        }
        _ => panic!("expected a server error"),
    }
}

#[test]
fn status_url_encodes_iframe_id() {
    let response = InitResponse {
        address: vec![internal("addr", "ab/c d")],
        error: 0,
        error_msg: String::new(),
    };
    let info = response.into_payment_info(false).unwrap();
    assert!(!info.handle.testnet());
    assert_eq!(
        info.handle.status_url(),
        "https://www.cryptodiggers.eu/api/api.php?iframe=ab%2Fc%20d&a=get_iframe_status"
    );
}

#[test]
fn status_url_on_testnet() {
    let response = InitResponse {
        address: vec![internal("addr", "XyZ-1.2~_")],
        error: 0,
        error_msg: String::new(),
    };
    let info = response.into_payment_info(true).unwrap();
    assert_eq!(
        info.handle.status_url(),
        "https://www.cryptodiggerstest.eu/api/api.php?iframe=XyZ-1.2~_&a=get_iframe_status"
    );
}

#[test]
fn debug_dump_is_stripped() {
    let body = b"Array\n(\n [x] => 1\n)\n{\"error\":0}";
    assert_eq!(strip_debug_dump(body), b"{\"error\":0}");
}

#[test]
fn debug_dump_without_json_leaves_nothing() {
    assert_eq!(strip_debug_dump(b"Array ()"), b"");
}

#[test]
fn body_without_dump_is_unchanged() {
    assert_eq!(strip_debug_dump(b"{\"error\":0}"), b"{\"error\":0}");
    assert_eq!(strip_debug_dump(b"Array"), b"Array");
    assert_eq!(strip_debug_dump(b"array {}"), b"array {}");
    assert_eq!(strip_debug_dump(b""), b"");
}

#[test]
fn body_capacity() {
    assert_eq!(initial_body_capacity(None), 0);
    assert_eq!(initial_body_capacity(Some(512)), 512);
    assert_eq!(initial_body_capacity(Some(999_999)), 999_999);
    assert_eq!(initial_body_capacity(Some(1_000_000)), 0);
    assert_eq!(initial_body_capacity(Some(u64::MAX)), 0);
}

#[test]
fn api_error_becomes_communication_failure() {
    let e = PaymentError::from(APIError::UnexpectedStatus(500));
    assert!(matches!(e, PaymentError::Communication(APIError::UnexpectedStatus(500))));
}

#[test]
fn only_status_200_is_read() {
    assert!(check_http_status(200).is_ok());
    assert!(matches!(check_http_status(404), Err(APIError::UnexpectedStatus(404))));
    assert!(matches!(check_http_status(500), Err(APIError::UnexpectedStatus(500))));
    assert!(matches!(check_http_status(201), Err(APIError::UnexpectedStatus(201))));
}

#[test]
fn status_response_converts_into_result() {
    let paid: Result<(), Option<PaymentError>> = Result::from(status(0, 1));
    assert!(paid.is_ok());
    let pending: Result<(), Option<PaymentError>> = status(0, 4).into();
    assert!(matches!(pending, Err(None)));
}

#[test]
fn wait_step_retries_only_while_pending() {
    assert!(matches!(wait_step(status(0, 4).into_result()), WaitStep::Retry));
    assert!(matches!(wait_step(status(0, 1).into_result()), WaitStep::Finish(Ok(()))));
    assert!(matches!(
        wait_step(status(0, 5).into_result()),
        WaitStep::Finish(Err(PaymentError::NotReceived))
    ));
    assert!(matches!(
        wait_step(status(9, 4).into_result()),
        WaitStep::Finish(Err(PaymentError::Communication(APIError::Error { code: 9, .. })))
    ));
}

#[test]
fn wait_ends_at_first_answer_that_is_not_pending() {
    let answers = vec![status(0, 4), status(0, 4), status(0, 2), status(0, 1)];
    let mut queries = 0;
    let mut result = None;
    for answer in answers {
        queries += 1;
        match wait_step(answer.into_result()) {
            WaitStep::Retry => continue,
            WaitStep::Finish(r) => {
                result = Some(r);
                break;
            }
        }
    }
    assert_eq!(queries, 3);
    assert!(matches!(result, Some(Err(PaymentError::IncorrectAmount))));
}
