use registrar::{
    error_reply, outcome_reply, BadRequest, DripRequest, FaucetEmpty, RegisterRequest, RejectionKind, TooManyRequests, TransactionOutcome,
};

#[test]
fn drip_request_description() {
    let r = DripRequest {
        address: "0xabc".to_string(),
        ts_response: "tok".to_string(),
        wait: None,
    };
    assert_eq!(r.describe(), "address: 0xabc, ts_response: tok, wait: true");
    assert!(r.wait_for_receipt());
    let r = DripRequest {
        wait: Some(false),
        ..r
    };
    assert_eq!(r.describe(), "address: 0xabc, ts_response: tok, wait: false");
    assert!(!r.wait_for_receipt());
}

#[test]
fn register_request_description() {
    let r = RegisterRequest {
        address: "0x01".to_string(),
        wait: Some(true),
    };
    assert_eq!(r.describe(), "address: 0x01, wait: true");
    let r = RegisterRequest {
        address: "0x01".to_string(),
        wait: Some(false),
    };
    assert_eq!(r.describe(), "address: 0x01, wait: false");
}

#[test]
fn rejection_replies() {
    let cases = vec![
        (RejectionKind::NotFound, 404, "not found"),
        (
            RejectionKind::BadRequest(BadRequest {
                message: "bad address".to_string(),
            }),
            400,
            "bad address",
        ),
        (RejectionKind::TooManyRequests(TooManyRequests {}), 429, "too many requests"),
        (RejectionKind::FaucetEmpty(FaucetEmpty {}), 503, "faucet empty"),
        (
            RejectionKind::InvalidBody {
                detail: "missing field".to_string(),
            },
            400,
            "invalid request body: missing field",
        ),
        (RejectionKind::InvalidHeader, 400, "invalid header value"),
        (RejectionKind::MethodNotAllowed, 405, "method not allowed"),
        (RejectionKind::Other, 500, "internal server error"),
    ];
    for (kind, code, message) in cases {
        let r = error_reply(kind);
        assert_eq!(r.code, code);
        assert_eq!(r.message, message);
    }
}

#[test]
fn outcome_replies() {
    let h = [3u8; 32];
    assert!(matches!(outcome_reply(TransactionOutcome::Success { hash: h }), Ok(x) if x == h));
    assert!(matches!(outcome_reply(TransactionOutcome::Pending { hash: h }), Ok(x) if x == h));
    assert!(matches!(
        outcome_reply(TransactionOutcome::RateLimited),
        Err(RejectionKind::TooManyRequests(_))
    ));
    assert!(matches!(
        outcome_reply(TransactionOutcome::ResourceExhausted),
        Err(RejectionKind::FaucetEmpty(_))
    ));
    assert!(matches!(
        outcome_reply(TransactionOutcome::Failure { message: "m".to_string() }),
        Err(RejectionKind::BadRequest(ref e)) if e.message == "m"
    ));
}
