use bunqledger::error::ApiError;
use bunqledger::handshake::BunqConfigReady;
use bunqledger::resources::payments_on_page;

fn ready() -> BunqConfigReady {
    BunqConfigReady {
        token: String::from("S1"),
        keypair_pem: String::new(),
        user_id: 42,
    }
}

fn payment_json(id: i64) -> String {
    format!(
        "{{\"Payment\":{{\
         \"alias\":{{\"iban\":null,\"display_name\":\"me\",\"merchant_category_code\":null}},\
         \"counterparty_alias\":{{\"iban\":\"NL00BANK\",\"display_name\":\"shop\",\"merchant_category_code\":\"5411\"}},\
         \"amount\":{{\"value\":\"-1.50\",\"currency\":\"EUR\"}},\
         \"balance_after_mutation\":{{\"value\":\"8.50\",\"currency\":\"EUR\"}},\
         \"created\":\"2020-01-01\",\"updated\":\"2020-01-02\",\"description\":\"coffee\",\
         \"id\":{},\"monetary_account_id\":7,\"type\":\"MASTERCARD\",\"sub_type\":\"PAYMENT\"}}}}",
        id
    )
}

fn page_json(ids: &[i64], older: Option<&str>) -> String {
    let items: Vec<String> = ids.iter().map(|id| payment_json(*id)).collect();
    let pagination = match older {
        Some(u) => format!("{{\"older_url\":\"{}\",\"newer_url\":null,\"future_url\":null}}", u),
        None => String::from("null"),
    };
    format!("{{\"Response\":[{}],\"Pagination\":{}}}", items.join(","), pagination)
}

#[test]
fn pagination_follows_older_cursors_and_concatenates_in_request_order() {
    let r = ready();
    let (mut st, g0) = r.payments_begin(7);
    assert_eq!(g0.url, "https://api.bunq.com/v1/user/42/monetary-account/7/payment");
    assert_eq!(g0.auth, "S1");

    let mut requests: usize = 1;
    let next = payments_on_page(&mut st, 200, &page_json(&[1, 2], Some("/p2"))).unwrap();
    let g = next.expect("the first page carries an older cursor");
    assert_eq!(g.url, "https://api.bunq.com/p2");
    assert_eq!(g.auth, "S1");
    requests += 1;

    let next = payments_on_page(&mut st, 200, &page_json(&[3], Some("/p3"))).unwrap();
    let g = next.expect("the second page carries an older cursor");
    assert_eq!(g.url, "https://api.bunq.com/p3");
    requests += 1;

    let next = payments_on_page(&mut st, 200, &page_json(&[4, 5], None)).unwrap();
    assert!(next.is_none());

    assert_eq!(requests, 3);
    let ids: Vec<i64> = st.collected.iter().map(|p| p.id).collect();
    assert_eq!(ids, vec![1, 2, 3, 4, 5]);
}

#[test]
fn payment_fields_decode_exactly() {
    let r = ready();
    let (mut st, _g) = r.payments_begin(7);
    payments_on_page(&mut st, 200, &page_json(&[11], None)).unwrap();
    assert_eq!(st.collected.len(), 1);
    let p = &st.collected[0];
    assert_eq!(p.alias.iban, None);
    assert_eq!(p.alias.display_name, "me");
    assert_eq!(p.alias.merchant_category_code, None);
    assert_eq!(p.counterparty_alias.iban, Some(String::from("NL00BANK")));
    assert_eq!(p.counterparty_alias.display_name, "shop");
    assert_eq!(p.counterparty_alias.merchant_category_code, Some(String::from("5411")));
    assert_eq!(p.amount.value, "-1.50");
    assert_eq!(p.amount.currency, "EUR");
    assert_eq!(p.balance_after_mutation.value, "8.50");
    assert_eq!(p.balance_after_mutation.currency, "EUR");
    assert_eq!(p.created, "2020-01-01");
    assert_eq!(p.updated, "2020-01-02");
    assert_eq!(p.description, "coffee");
    assert_eq!(p.id, 11);
    assert_eq!(p.monetary_account_id, 7);
    assert_eq!(p.type_, "MASTERCARD");
    assert_eq!(p.sub_type, "PAYMENT");
}

#[test]
fn a_failing_page_aborts_the_fetch_and_keeps_nothing_new() {
    let r = ready();
    let (mut st, _g) = r.payments_begin(7);
    payments_on_page(&mut st, 200, &page_json(&[1], Some("/p2"))).unwrap();
    assert_eq!(st.collected.len(), 1);

    let e = payments_on_page(&mut st, 200, "garbage").unwrap_err();
    assert_eq!(e, ApiError::Decode);
    assert_eq!(st.collected.len(), 1);

    let e = payments_on_page(&mut st, 502, &page_json(&[2], None)).unwrap_err();
    assert_eq!(e, ApiError::HttpStatus(502));
    assert_eq!(st.collected.len(), 1);
}

#[test]
fn a_page_with_a_malformed_wrapper_is_rejected() {
    let r = ready();
    let (mut st, _g) = r.payments_begin(7);
    let body = "{\"Response\":[{\"NotAPayment\":{}}],\"Pagination\":null}";
    assert_eq!(payments_on_page(&mut st, 200, body).unwrap_err(), ApiError::Decode);
}

#[test]
fn only_the_older_cursor_is_followed() {
    let r = ready();
    let (mut st, _g) = r.payments_begin(7);
    let body = format!(
        "{{\"Response\":[{}],\"Pagination\":{{\"older_url\":null,\"newer_url\":\"/newer\",\"future_url\":\"/future\"}}}}",
        payment_json(1)
    );
    let next = payments_on_page(&mut st, 200, &body).unwrap();
    assert!(next.is_none());
    assert_eq!(st.collected.len(), 1);
}

#[test]
fn negative_identifiers_format_into_urls() {
    let r = BunqConfigReady {
        token: String::from("S1"),
        keypair_pem: String::new(),
        user_id: -3,
    };
    let g = r.accounts_request();
    assert_eq!(g.url, "https://api.bunq.com/v1/user/-3/monetary-account");
    assert_eq!(g.auth, "S1");
}
