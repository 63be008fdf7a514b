use cielo_rs_sdk::api::CieloApi;
use cielo_rs_sdk::api::classify_final_outcome;
use cielo_rs_sdk::api::feed::{Filters, TxType, query_pairs};
use cielo_rs_sdk::error::Error;
use cielo_rs_sdk::json::{JsonNumber, JsonValue};
use cielo_rs_sdk::models::feed::Item;
use cielo_rs_sdk::response::decode_response;
use cielo_rs_sdk::retry::{HttpResponse, TransportError, run_retries};

fn s(v: &str) -> JsonValue {
    JsonValue::Str(v.to_string())
}

fn f(v: f64) -> JsonValue {
    JsonValue::Num(JsonNumber::Float(v.to_bits()))
}

fn u(v: u64) -> JsonValue {
    JsonValue::Num(JsonNumber::PosInt(v))
}

fn obj(members: Vec<(&str, JsonValue)>) -> JsonValue {
    JsonValue::Obj(members.into_iter().map(|(k, v)| (k.to_string(), v)).collect())
}

fn swap_item() -> JsonValue {
    obj(vec![
        ("wallet", s("0xwallet")),
        ("wallet_label", s("whale")),
        ("tx_hash", s("0xhash")),
        ("tx_type", s("swap")),
        ("chain", s("solana")),
        ("index", u(0)),
        ("timestamp", u(1700000000)),
        ("block", u(18000000)),
        ("dex", s("orca")),
        ("from", s("0xfrom")),
        ("to", s("0xto")),
        ("token0_address", s("0xtoken0")),
        ("token0_amount", f(1.5)),
        ("token0_amount_usd", f(3000.0)),
        ("token0_name", s("Sol")),
        ("token0_price_usd", f(2000.0)),
        ("token0_symbol", s("SOL")),
        ("token0_icon_link", s("http://icons/sol")),
        ("token1_address", s("0xtoken1")),
        ("token1_amount", f(3000.0)),
        ("token1_amount_usd", f(3000.0)),
        ("token1_name", s("USD Coin")),
        ("token1_price_usd", f(1.0)),
        ("token1_symbol", s("USDC")),
        ("token1_icon_link", s("http://icons/usdc")),
        ("first_interaction", JsonValue::Bool(false)),
    ])
}

fn response(status: u16, body: &str) -> Result<HttpResponse, TransportError> {
    Ok(HttpResponse { status, body: body.to_string() })
}

#[test]
fn one_swap_page_end_to_end() {
    // The request side: the filters of the scenario map to their pairs.
    let api = CieloApi::new("stub-key", None, None, None).expect("key is a valid header value");
    let mut filters = Filters::default();
    filters.limit = Some(10);
    filters.chains = Some(vec!["solana".to_string()]);
    filters.tx_types = Some(vec![TxType::Swap]);
    filters.min_usd = Some(100);
    let pairs = query_pairs(&filters);
    assert_eq!(
        pairs,
        vec![
            ("limit".to_string(), "10".to_string()),
            ("chains".to_string(), "solana".to_string()),
            ("txTypes".to_string(), "swap".to_string()),
            ("minUSD".to_string(), "100".to_string()),
        ]
    );

    // The transport side: a stub server answers the first attempt with the
    // page; the retry run ends after that one attempt.
    let outcomes = vec![response(200, "the page")];
    let (attempts, last) = run_retries(&api.policy, outcomes);
    assert_eq!(attempts, 1);
    let body_text = classify_final_outcome(last).expect("a 200 response yields its body");
    assert_eq!(body_text, "the page");

    // The decoding side: the page holds one swap and no further page.
    let body = obj(vec![
        ("status", s("ok")),
        (
            "data",
            obj(vec![
                ("items", JsonValue::Arr(vec![swap_item()])),
                (
                    "paging",
                    obj(vec![
                        ("total_rows_in_page", u(1)),
                        ("has_next_page", JsonValue::Bool(false)),
                    ]),
                ),
            ]),
        ),
    ]);
    let decoded = decode_response(&body).expect("the page should decode");
    assert_eq!(decoded.data.items.len(), 1);
    assert!(matches!(decoded.data.items[0], Item::Swap(_)));
    assert_eq!(decoded.data.paging.has_next_page, false);
    assert_eq!(decoded.data.paging.next_object, None);
}

#[test]
fn exhausted_retries_surface_the_final_body_text() {
    let api = CieloApi::new("stub-key", None, None, Some(3)).expect("valid key");
    let outcomes = vec![
        response(500, "internal error 1"),
        response(500, "internal error 2"),
        response(500, "internal error 3"),
        response(500, "internal error 4"),
    ];
    let (attempts, last) = run_retries(&api.policy, outcomes);
    assert_eq!(attempts, 4);
    match classify_final_outcome(last) {
        Err(Error::StatusNot200(text)) => assert_eq!(text, "internal error 4"),
        other => panic!("expected the final non-success body, got {:?}", other),
    }
}

#[test]
fn initialization_accepts_a_plain_key() {
    let api = CieloApi::new("test-api-key", None, None, None);
    assert!(api.is_ok(), "failed to initialize the client: {:?}", api.err());
    let api = api.unwrap();
    assert_eq!(api.policy.min_retry_interval, 500);
    assert_eq!(api.policy.max_retry_interval, 1000);
    assert_eq!(api.policy.max_retries, 3);
}

#[test]
fn initialization_rejects_a_control_character_key() {
    let api = CieloApi::new("bad\nkey", None, None, None);
    assert_eq!(api, Err(Error::InvalidApiKey));
}

#[test]
fn initialization_takes_retry_overrides() {
    let api = CieloApi::new("stub-key", Some(100), Some(2000), Some(5)).expect("valid key");
    assert_eq!(api.policy.min_retry_interval, 100);
    assert_eq!(api.policy.max_retry_interval, 2000);
    assert_eq!(api.policy.max_retries, 5);
}

#[test]
fn transport_failure_surfaces_its_description() {
    let outcome: Result<HttpResponse, TransportError> =
        Err(TransportError { retryable: true, message: "connection reset".to_string() });
    match classify_final_outcome(outcome) {
        Err(Error::Transport(text)) => assert_eq!(text, "connection reset"),
        other => panic!("expected a transport error, got {:?}", other),
    }
}
