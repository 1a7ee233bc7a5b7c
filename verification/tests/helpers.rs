use std::collections::HashMap;

use rhaki_cw_plus::deploy::NetType;
use rhaki_cw_plus::errors::TokenFactoryError;
use rhaki_cw_plus::helper::{assert_with_tollerance, UnwrapError};
use rhaki_cw_plus::storage::{StateStore, StorageOrder, StrMap};
use rhaki_cw_plus::token_factory::{TokenFactoryMsgUrls, TokenFactoryQueryUrls};
use rhaki_cw_plus::traits::{MapMin, Unclone, Wrapper};
use rhaki_cw_plus::utils::{parse_u128, str_contains, vec_to_i_hashmap, UpdateOption};

/// Two amounts of an eighteen-decimals asset, ten and
/// ten point one, lie within a tolerance of two.
#[test]
fn helper_test() {
    let a: u128 = 10_000_000_000_000_000_000;
    let b: u128 = 10_100_000_000_000_000_000;
    assert_with_tollerance(a, b, 2_000_000_000_000_000_000);
}

/// A vector becomes a map keyed by element index.
#[test]
fn test_utils_main() {
    let vec = vec![
        "first".to_string(),
        "second".to_string(),
        "third".to_string(),
    ];

    let res = vec_to_i_hashmap(vec);

    let mut map: HashMap<usize, String> = HashMap::new();

    map.insert(0, "first".to_string());
    map.insert(1, "second".to_string());
    map.insert(2, "third".to_string());

    assert_eq!(res, map);
}

#[test]
fn functions_vec_to_i_hashmap() {
    let res = rhaki_cw_plus::functions::vec_to_i_hashmap(vec![10u64, 20, 30]);
    assert_eq!(res.len(), 3);
    assert_eq!(res[&0], 10);
    assert_eq!(res[&2], 30);
}

#[test]
fn parse_u128_exact_values() {
    assert_eq!(parse_u128("0"), Some(0));
    assert_eq!(parse_u128("100"), Some(100));
    assert_eq!(parse_u128("340282366920938463463374607431768211455"), Some(u128::MAX));
    assert_eq!(parse_u128("340282366920938463463374607431768211456"), None);
    assert_eq!(parse_u128(""), None);
    assert_eq!(parse_u128("12x"), None);
    assert_eq!(parse_u128("-1"), None);
}

#[test]
fn update_option_helpers() {
    let u: UpdateOption<u64> = UpdateOption::ToSome(7);
    assert_eq!(u.into_option(), Some(7));
    assert_eq!(u.unwrap(), 7);

    let n: UpdateOption<u64> = UpdateOption::ToNone;
    assert_eq!(n.into_option(), None);
}

#[test]
fn wrapper_helpers() {
    let ok: Result<u64, String> = 5u64.wrap_ok();
    assert_eq!(ok, Ok(5));
    assert_eq!(5u64.wrap_some(), Some(5));
}

#[test]
fn map_min_bounds_above() {
    let v: Option<u128> = Some(10);
    assert_eq!(v.map_min(3), Some(3));
    assert_eq!(v.map_min(30), Some(10));
    assert_eq!(None::<u128>.map_min(3), None);
}

#[test]
fn unclone_takes_a_copy() {
    let v: Option<String> = Some("asd".to_string());
    assert_eq!(v.unclone(), "asd".to_string());
    assert!(v.is_some());
}

#[test]
fn storage_order_direction() {
    assert!(StorageOrder::Ascending.is_ascending());
    assert!(!StorageOrder::Descending.is_ascending());
}

#[test]
fn net_type_text() {
    assert_eq!(NetType::Mainnet.as_text(), "mainnet");
    assert_eq!(NetType::Testnet.as_text(), "testnet");
}

#[test]
fn str_map_insert_get() {
    let mut m: StrMap<u128> = StrMap::new();
    assert!(m.get(&"a".to_string()).is_none());
    m.insert("a".to_string(), 1);
    m.insert("b".to_string(), 2);
    m.insert("a".to_string(), 3);
    assert_eq!(m.get(&"a".to_string()), Some(&3));
    assert_eq!(m.get(&"b".to_string()), Some(&2));
    assert!(m.contains_key(&"a".to_string()));
    assert!(!m.contains_key(&"c".to_string()));

    let d = m.duplicate();
    assert_eq!(d.get(&"a".to_string()), Some(&3));
}

#[test]
fn state_store_load_save() {
    let mut s: StateStore<u128> = StateStore::new();
    assert!(s.load(&"ns".to_string()).is_none());
    s.save("ns".to_string(), 41);
    s.save("ns".to_string(), 42);
    assert_eq!(s.load(&"ns".to_string()), Some(&42));
}

#[test]
fn token_factory_urls_round_trip() {
    let all = [
        TokenFactoryMsgUrls::MsgMint,
        TokenFactoryMsgUrls::MsgCreateDenom,
        TokenFactoryMsgUrls::MsgBurn,
        TokenFactoryMsgUrls::MsgSetDenomMetadata,
        TokenFactoryMsgUrls::MsgChangeAdmin,
    ];
    for u in all {
        let s = u.as_type_url().to_string();
        assert_eq!(TokenFactoryMsgUrls::from_type_url(&s), Some(u));
    }
    assert_eq!(
        TokenFactoryMsgUrls::MsgMint.as_type_url(),
        "/osmosis.tokenfactory.v1beta1.MsgMint"
    );
    assert_eq!(TokenFactoryMsgUrls::from_type_url(&"/other.Msg".to_string()), None);

    let q = TokenFactoryQueryUrls::Params;
    assert_eq!(q.as_type_url(), "/osmosis.tokenfactory.v1beta1.Query/Params");
    assert_eq!(
        TokenFactoryQueryUrls::from_type_url(&q.as_type_url().to_string()),
        Some(TokenFactoryQueryUrls::Params)
    );
}

#[test]
fn error_texts() {
    let e = TokenFactoryError::InvalidOwner {
        owner: "alice".to_string(),
        sender: "mallory".to_string(),
        denom: "factory/alice/foo".to_string(),
    };
    assert_eq!(e.text(), "Invalid owner: alice != mallory for factory/alice/foo");

    let e = TokenFactoryError::DenomNotExisting { denom: "d".to_string() };
    assert_eq!(e.text(), "Denom not existing: d is not existing");

    let e = TokenFactoryError::DenomAlredyExisting { denom: "d".to_string() };
    assert_eq!(e.text(), "Denom alredy existing: d alredy existing");

    let e = TokenFactoryError::FeeCollection { reason: "no funds".to_string() };
    assert_eq!(e.text(), "Error on gather fee for denom creation: no funds");

    let e = TokenFactoryError::SenderMismatch {
        sender: "a".to_string(),
        msg_sender: "b".to_string(),
    };
    assert_eq!(e.text(), "Sender is not the same as the sender in the message");

    let e = TokenFactoryError::InsufficientSupply { denom: "d".to_string() };
    assert_eq!(e.text(), "Insufficient supply for denom: d");

    let e = TokenFactoryError::SupplyOverflow { denom: "d".to_string() };
    assert_eq!(e.text(), "Supply overflow for denom: d");

    let e = TokenFactoryError::InvalidMsg { type_url: "/x".to_string() };
    assert_eq!(e.text(), "Invalid message for type_url: /x");

    let e = TokenFactoryError::InvalidAddress {
        address: "z".to_string(),
        reason: "bad".to_string(),
    };
    assert_eq!(e.text(), "Invalid address z: bad");

    let e = TokenFactoryError::SubCallFailed { reason: "boom".to_string() };
    assert_eq!(e.text(), "boom");
}

#[test]
fn str_contains_exact_cases() {
    assert!(str_contains("Error on gather fee for denom creation: no funds", "gather fee"));
    assert!(str_contains("abc", ""));
    assert!(str_contains("abc", "abc"));
    assert!(!str_contains("abc", "abcd"));
    assert!(!str_contains("abab", "aba_"));
    assert!(str_contains("aaab", "aab"));
}

#[test]
fn unwrap_err_contains_returns_error() {
    let r: Result<(), TokenFactoryError> =
        Err(TokenFactoryError::DenomNotExisting { denom: "d".to_string() });
    let e = r.unwrap_err_contains("not existing");
    assert!(matches!(e, TokenFactoryError::DenomNotExisting { .. }));
}
