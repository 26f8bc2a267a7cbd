use bunqledger::envelope::{decode_flattened, decode_pagination, key};
use bunqledger::error::ApiError;
use bunqledger::handshake::{decode_install_token, decode_session};
use bunqledger::json::{obj_find, JsonVal};
use bunqledger::requests::{device_body, i64_to_string, installation_body, session_body};
use bunqledger::resources::accounts_of_response;

#[test]
fn flattened_decode_merges_all_pairs_in_any_order() {
    let forward = "{\"Response\":[{\"Token\":{\"token\":\"S1\"}},{\"UserPerson\":{\"id\":42}}]}";
    let backward = "{\"Response\":[{\"UserPerson\":{\"id\":42}},{\"Token\":{\"token\":\"S1\"}}]}";
    let (t1, id1) = decode_session(forward).unwrap();
    let (t2, id2) = decode_session(backward).unwrap();
    assert_eq!(t1, "S1");
    assert_eq!(id1, 42);
    assert_eq!(t2, "S1");
    assert_eq!(id2, 42);
}

#[test]
fn flattened_decode_rejects_multi_key_object() {
    let body = "{\"Response\":[{\"Token\":{\"token\":\"T1\"},\"Extra\":1}]}";
    assert_eq!(decode_install_token(body), Err(ApiError::Decode));
}

#[test]
fn flattened_decode_rejects_zero_key_object() {
    let body = "{\"Response\":[{}]}";
    assert_eq!(decode_install_token(body), Err(ApiError::Decode));
}

#[test]
fn flattened_decode_rejects_empty_array() {
    let body = "{\"Response\":[]}";
    assert_eq!(decode_install_token(body), Err(ApiError::Decode));
}

#[test]
fn flattened_decode_rejects_non_object_element() {
    let body = "{\"Response\":[5]}";
    assert_eq!(decode_install_token(body), Err(ApiError::Decode));
}

#[test]
fn flattened_decode_rejects_invalid_json() {
    assert_eq!(decode_install_token("not json"), Err(ApiError::Decode));
}

#[test]
fn flattened_merge_lets_the_later_element_win() {
    let body = "{\"Response\":[{\"Token\":{\"token\":\"OLD\"}},{\"Token\":{\"token\":\"NEW\"}}]}";
    assert_eq!(decode_install_token(body), Ok(String::from("NEW")));
}

#[test]
fn flattened_decoding_hands_the_pagination_cursor_through() {
    let body = "{\"Response\":[{\"Token\":{\"token\":\"T1\"}}],\
        \"Pagination\":{\"older_url\":\"/p2\",\"newer_url\":null,\"future_url\":null}}";
    let env = decode_flattened(body).unwrap();
    assert_eq!(env.items.len(), 1);
    let p = env.pagination.expect("the cursor block is present");
    assert_eq!(p.older_url, Some(String::from("/p2")));
    assert_eq!(p.newer_url, None);
    assert_eq!(p.future_url, None);
}

#[test]
fn install_token_is_extracted() {
    let body = "{\"Response\":[{\"Token\":{\"token\":\"T1\"}}]}";
    assert_eq!(decode_install_token(body), Ok(String::from("T1")));
}

#[test]
fn normal_decode_passes_every_element_through_in_order() {
    let body = "{\"Response\":[\
        {\"MonetaryAccountBank\":{\"id\":7,\"description\":\"main\"}},\
        {\"MonetaryAccountBank\":{\"id\":9,\"description\":\"savings\"}}\
        ],\"Pagination\":null}";
    let accounts = accounts_of_response(200, body).unwrap();
    assert_eq!(accounts.len(), 2);
    assert_eq!(accounts[0].id, 7);
    assert_eq!(accounts[0].description, "main");
    assert_eq!(accounts[1].id, 9);
    assert_eq!(accounts[1].description, "savings");
}

#[test]
fn normal_decode_rejects_malformed_element() {
    let body = "{\"Response\":[{\"MonetaryAccountBank\":{\"id\":\"seven\",\"description\":\"main\"}}]}";
    assert_eq!(accounts_of_response(200, body).unwrap_err(), ApiError::Decode);
}

#[test]
fn non_success_status_is_reported_as_http_error() {
    let body = "{\"Response\":[]}";
    assert_eq!(accounts_of_response(500, body).unwrap_err(), ApiError::HttpStatus(500));
    assert_eq!(accounts_of_response(199, body).unwrap_err(), ApiError::HttpStatus(199));
}

#[test]
fn pagination_block_decodes_absent_null_and_string_fields() {
    let v = JsonVal::Obj(vec![
        (String::from("older_url"), JsonVal::Str(String::from("/page2"))),
        (String::from("newer_url"), JsonVal::Null),
    ]);
    let p = decode_pagination(&v).unwrap();
    assert_eq!(p.older_url, Some(String::from("/page2")));
    assert_eq!(p.newer_url, None);
    assert_eq!(p.future_url, None);
}

#[test]
fn pagination_block_rejects_wrongly_typed_field() {
    let v = JsonVal::Obj(vec![(String::from("older_url"), JsonVal::Int(5))]);
    assert!(decode_pagination(&v).is_err());
}

#[test]
fn object_lookup_takes_the_first_match() {
    let fields = vec![
        (String::from("a"), JsonVal::Int(1)),
        (String::from("a"), JsonVal::Int(2)),
    ];
    match obj_find(&fields, &key("a")) {
        Some(JsonVal::Int(n)) => assert_eq!(*n, 1),
        _ => panic!("expected the first field"),
    }
}

#[test]
fn request_bodies_are_exact() {
    assert_eq!(session_body("k"), "{\"secret\":\"k\"}");
    assert_eq!(
        device_body("k"),
        "{\"description\":\"awesome\",\"secret\":\"k\",\"permitted_ips\":[\"31.21.118.143\",\"*\"]}"
    );
    assert_eq!(
        installation_body("a\nb\"c\\"),
        "{\"client_public_key\":\"a\\nb\\\"c\\\\\"}"
    );
    assert_eq!(
        installation_body("\u{1}"),
        "{\"client_public_key\":\"\\u0001\"}"
    );
}

#[test]
fn integers_format_in_decimal() {
    assert_eq!(i64_to_string(0), "0");
    assert_eq!(i64_to_string(9070), "9070");
    assert_eq!(i64_to_string(-42), "-42");
    assert_eq!(i64_to_string(i64::MAX), "9223372036854775807");
    assert_eq!(i64_to_string(i64::MIN), "-9223372036854775808");
}
