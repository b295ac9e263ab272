use structured_note::utils::{
    get_amount_from_asset_as_string, get_amount_from_response_asset_as_string_attr,
    get_amount_from_response_raw_attr, parse_uint, Attribute, Event,
};
use structured_note::{Error, SubmsgIds};

fn event(pairs: &[(&str, &str)]) -> Event {
    let mut attributes = Vec::new();
    for (k, v) in pairs {
        attributes.push(Attribute { key: k.to_string(), value: v.to_string() });
    }
    Event { attributes }
}

#[test]
fn asset_string_splits_on_contract_address() {
    let r = get_amount_from_asset_as_string("0123terra1abcd");
    assert_eq!(r.unwrap(), "0123");
}

#[test]
fn asset_string_splits_on_native_denom() {
    let r = get_amount_from_asset_as_string("0123uusd");
    assert_eq!(r.unwrap(), "0123");
}

#[test]
fn asset_string_splits_on_first_marker() {
    // the first 't' or 'u' ends the amount, even mid-name
    let r = get_amount_from_asset_as_string("99u123t");
    assert_eq!(r.unwrap(), "99");
}

#[test]
fn asset_string_without_marker_is_rejected() {
    assert_eq!(get_amount_from_asset_as_string("0123"), None);
    assert_eq!(get_amount_from_asset_as_string(""), None);
}

#[test]
fn raw_attr_takes_first_match() {
    let events = vec![
        event(&[("action", "mint"), ("mint_amount", "77")]),
        event(&[("mint_amount", "88")]),
    ];
    let r = get_amount_from_response_raw_attr(&events, &"mint_amount".to_string()).unwrap();
    assert_eq!(r, "77");
}

#[test]
fn raw_attr_missing_is_reported() {
    let events = vec![event(&[("action", "mint")])];
    let r = get_amount_from_response_raw_attr(&events, &"mint_amount".to_string());
    assert_eq!(r, Err(Error::MissingAttribute));
}

#[test]
fn asset_attr_reads_amount_prefix() {
    let events = vec![event(&[("collateral_amount", "1000uusd")])];
    let r =
        get_amount_from_response_asset_as_string_attr(&events, &"collateral_amount".to_string());
    assert_eq!(r.unwrap(), "1000");
}

#[test]
fn asset_attr_without_marker_is_invalid() {
    let events = vec![event(&[("collateral_amount", "1000")])];
    let r =
        get_amount_from_response_asset_as_string_attr(&events, &"collateral_amount".to_string());
    assert_eq!(r, Err(Error::InvalidAttribute));
}

#[test]
fn parse_uint_reads_decimal() {
    assert_eq!(parse_uint("0").unwrap(), 0);
    assert_eq!(parse_uint("1000").unwrap(), 1000);
    assert_eq!(parse_uint("18446744073709551615").unwrap(), u64::MAX);
}

#[test]
fn parse_uint_rejects_bad_input() {
    assert_eq!(parse_uint(""), Err(Error::InvalidAttribute));
    assert_eq!(parse_uint("12a4"), Err(Error::InvalidAttribute));
    assert_eq!(parse_uint("-5"), Err(Error::InvalidAttribute));
    // one past the machine range
    assert_eq!(parse_uint("18446744073709551616"), Err(Error::InvalidAttribute));
}

#[test]
fn submsg_ids_roundtrip() {
    for v in 0u64..10u64 {
        let s = SubmsgIds::try_from(v).unwrap();
        assert_eq!(s.id(), v);
    }
    assert_eq!(SubmsgIds::try_from(10), Err(Error::UnexpectedCompletion));
    assert_eq!(SubmsgIds::try_from(u64::MAX), Err(Error::UnexpectedCompletion));
}

#[test]
fn concat_joins_namespace_and_key() {
    let r = structured_note::concat(b"positions", b"alice");
    assert_eq!(r, b"positionsalice".to_vec());
}
