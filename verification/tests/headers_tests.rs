use axum_session::aead::{decrypt, encrypt, SealKey};
use axum_session::headers::{
    cookie_fields, create_cookie, emission, field_key, field_value, get_cookie, get_cookie_key_id,
    get_cookies_and_key, get_headers, get_headers_and_key, get_key_id, header_field,
    header_fields, inbound_value, parse_fields, put_header, remove_cookie, set_headers,
    wire_text, Emission, HeaderField, NameType, SameSite, SecurityMode, SessionConfig,
};
use axum_session::keys::SessionKey;

const SID: u128 = 0x3f29c1a2_5b7e_4c1d_9a8f_0123456789ab;
const SID_TEXT: &str = "3f29c1a2-5b7e-4c1d-9a8f-0123456789ab";
const KID: u128 = 0x11111111_2222_4333_8444_555555555555;
const KID_TEXT: &str = "11111111-2222-4333-8444-555555555555";

fn master() -> SealKey {
    SealKey { signing: [1u8; 32], encryption: [2u8; 32] }
}

fn own_key() -> SessionKey {
    SessionKey { id: KID, key: SealKey { signing: [3u8; 32], encryption: [4u8; 32] } }
}

fn config(mode: SecurityMode, opt_in: bool, key: Option<SealKey>) -> SessionConfig {
    SessionConfig {
        session_name: "sid".to_string(),
        store_name: "store".to_string(),
        key_name: "kid".to_string(),
        prefix_with_host: false,
        security_mode: mode,
        opt_in,
        key,
        cookie_path: "/".to_string(),
        cookie_domain: Some("example.org".to_string()),
        cookie_secure: true,
        cookie_http_only: true,
        cookie_same_site: SameSite::Strict,
        cookie_max_age: Some(3600),
    }
}

#[test]
fn get_name_gives_the_configured_names() {
    let c = config(SecurityMode::Simple, false, None);
    assert_eq!(NameType::Data.get_name(&c), "sid");
    assert_eq!(NameType::Store.get_name(&c), "store");
    assert_eq!(NameType::Key.get_name(&c), "kid");
}

#[test]
fn get_name_puts_the_host_marker_first() {
    let mut c = config(SecurityMode::Simple, false, None);
    c.prefix_with_host = true;
    assert_eq!(NameType::Data.get_name(&c), "__Host-sid");
    assert_eq!(NameType::Store.get_name(&c), "__Host-store");
    assert_eq!(NameType::Key.get_name(&c), "__Host-kid");
}

#[test]
fn emission_follows_the_table() {
    for mode in [SecurityMode::PerSession, SecurityMode::Simple] {
        for destroy in [false, true] {
            for opt_in in [false, true] {
                for storable in [false, true] {
                    let (data, store) = if destroy {
                        (Emission::Remove, Emission::Remove)
                    } else if !opt_in {
                        (Emission::Create, Emission::Remove)
                    } else if storable {
                        (Emission::Create, Emission::Create)
                    } else {
                        (Emission::Remove, Emission::Remove)
                    };
                    let key = if mode == SecurityMode::PerSession { data } else { Emission::Remove };
                    assert_eq!(emission(NameType::Data, mode, destroy, opt_in, storable), data);
                    assert_eq!(emission(NameType::Store, mode, destroy, opt_in, storable), store);
                    assert_eq!(emission(NameType::Key, mode, destroy, opt_in, storable), key);
                }
            }
        }
    }
}

#[test]
fn field_values_are_identifier_text_and_true() {
    assert_eq!(field_value(NameType::Data, SID, &own_key()), SID_TEXT);
    assert_eq!(field_value(NameType::Key, SID, &own_key()), KID_TEXT);
    assert_eq!(field_value(NameType::Store, SID, &own_key()), "true");
}

#[test]
fn field_keys_follow_the_security_mode() {
    let per = config(SecurityMode::PerSession, true, Some(master()));
    let simple = config(SecurityMode::Simple, true, Some(master()));
    let bare = config(SecurityMode::Simple, true, None);
    let sk = own_key();
    assert_eq!(field_key(NameType::Key, &per, &sk).map(|k| k.encryption), Some([2u8; 32]));
    assert_eq!(field_key(NameType::Data, &per, &sk).map(|k| k.encryption), Some([4u8; 32]));
    assert_eq!(field_key(NameType::Store, &per, &sk).map(|k| k.encryption), Some([4u8; 32]));
    assert_eq!(field_key(NameType::Data, &simple, &sk).map(|k| k.encryption), Some([2u8; 32]));
    assert_eq!(field_key(NameType::Key, &simple, &sk).map(|k| k.encryption), Some([2u8; 32]));
    assert!(field_key(NameType::Data, &bare, &sk).is_none());
}

#[test]
fn per_session_opt_in_storable_creates_every_header() {
    let c = config(SecurityMode::PerSession, true, Some(master()));
    let sk = own_key();
    let out = header_fields(&c, SID, &sk, false, true);
    assert_eq!(out.len(), 3);
    assert_eq!(out[0].name, "kid");
    assert_eq!(out[1].name, "sid");
    assert_eq!(out[2].name, "store");
    let kid = out[0].value.clone().expect("the key header");
    let sid = out[1].value.clone().expect("the session header");
    let store = out[2].value.clone().expect("the storable header");
    assert_eq!(decrypt("kid", &kid, &master()), Ok(KID_TEXT.to_string()));
    assert_eq!(decrypt("sid", &sid, &sk.key), Ok(SID_TEXT.to_string()));
    assert_eq!(decrypt("store", &store, &sk.key), Ok("true".to_string()));
    assert!(decrypt("sid", &sid, &master()).is_err());
    assert!(decrypt("sid", &store, &sk.key).is_err());
}

#[test]
fn opt_in_without_storable_removes_every_header() {
    for mode in [SecurityMode::PerSession, SecurityMode::Simple] {
        let c = config(mode, true, Some(master()));
        let out = header_fields(&c, SID, &own_key(), false, false);
        assert_eq!(out.len(), 3);
        assert!(out.iter().all(|h| h.value.is_none()));
        assert_eq!(out[0].name, "kid");
        assert_eq!(out[1].name, "sid");
        assert_eq!(out[2].name, "store");
    }
}

#[test]
fn destroy_removes_every_header() {
    let c = config(SecurityMode::PerSession, false, None);
    let out = header_fields(&c, SID, &own_key(), true, true);
    assert!(out.iter().all(|h| h.value.is_none()));
}

#[test]
fn headers_without_a_key_travel_in_clear() {
    let c = config(SecurityMode::Simple, true, None);
    let out = header_fields(&c, SID, &own_key(), false, true);
    assert_eq!(out[0].value, None);
    assert_eq!(out[1].value, Some(SID_TEXT.to_string()));
    assert_eq!(out[2].value, Some("true".to_string()));
    let c = config(SecurityMode::Simple, false, None);
    let out = header_fields(&c, SID, &own_key(), false, true);
    assert_eq!(out[1].value, Some(SID_TEXT.to_string()));
    assert_eq!(out[2].value, None);
}

#[test]
fn header_field_seals_under_the_given_key() {
    let h = header_field("sid".to_string(), "v".to_string(), &Some(master()), Emission::Create);
    assert_eq!(decrypt("sid", &h.value.expect("a value"), &master()), Ok("v".to_string()));
    let h = header_field("sid".to_string(), "v".to_string(), &None, Emission::Create);
    assert_eq!(h.value, Some("v".to_string()));
    let h = header_field("sid".to_string(), "v".to_string(), &None, Emission::Remove);
    assert_eq!(h.name, "sid");
    assert_eq!(h.value, None);
    assert_eq!(wire_text("sid", "v".to_string(), &None), Some("v".to_string()));
}

#[test]
fn per_session_opt_in_storable_creates_every_cookie() {
    let c = config(SecurityMode::PerSession, true, Some(master()));
    let sk = own_key();
    let out = cookie_fields(&c, SID, &sk, false, true);
    assert_eq!(out.len(), 3);
    let names: Vec<&str> = out.iter().map(|p| p.name.as_str()).collect();
    assert_eq!(names, vec!["kid", "sid", "store"]);
    let values: Vec<&str> = out.iter().map(|p| p.value.as_str()).collect();
    assert_eq!(values, vec![KID_TEXT, SID_TEXT, "true"]);
    for p in &out {
        assert!(!p.removal);
        assert_eq!(p.path, "/");
        assert_eq!(p.domain, Some("example.org".to_string()));
        assert_eq!(p.secure, Some(true));
        assert!(p.http_only);
        assert_eq!(p.same_site, SameSite::Strict);
        assert_eq!(p.max_age, Some(3600));
    }
    assert_eq!(out[0].key.map(|k| k.encryption), Some([2u8; 32]));
    assert_eq!(out[1].key.map(|k| k.encryption), Some([4u8; 32]));
    assert_eq!(out[2].key.map(|k| k.encryption), Some([4u8; 32]));
}

#[test]
fn opt_in_without_storable_sends_tombstones() {
    let c = config(SecurityMode::PerSession, true, Some(master()));
    let out = cookie_fields(&c, SID, &own_key(), false, false);
    assert_eq!(out.len(), 3);
    for p in &out {
        assert!(p.removal);
        assert_eq!(p.value, "");
        assert_eq!(p.same_site, SameSite::AnySite);
        assert_eq!(p.domain, Some("example.org".to_string()));
        assert_eq!(p.path, "/");
        assert_eq!(p.secure, None);
        assert_eq!(p.max_age, None);
    }
}

#[test]
fn simple_mode_always_takes_the_key_cookie_back() {
    let c = config(SecurityMode::Simple, false, Some(master()));
    let out = cookie_fields(&c, SID, &own_key(), false, false);
    assert!(out[0].removal);
    assert!(!out[1].removal);
    assert_eq!(out[1].value, SID_TEXT);
    assert!(out[2].removal);
    assert_eq!(out[1].key.map(|k| k.encryption), Some([2u8; 32]));
}

#[test]
fn cookies_are_built_from_the_configuration() {
    let mut c = config(SecurityMode::Simple, false, None);
    c.cookie_domain = None;
    c.cookie_max_age = None;
    c.cookie_secure = false;
    c.cookie_same_site = SameSite::Lax;
    let made = create_cookie(&c, "v".to_string(), NameType::Data, None);
    assert_eq!(made.name, "sid");
    assert_eq!(made.value, "v");
    assert_eq!(made.domain, None);
    assert_eq!(made.max_age, None);
    assert_eq!(made.secure, Some(false));
    assert_eq!(made.same_site, SameSite::Lax);
    assert!(!made.removal && made.key.is_none());
    let gone = remove_cookie(&c, NameType::Store, Some(master()));
    assert_eq!(gone.name, "store");
    assert_eq!(gone.value, "");
    assert!(gone.removal && gone.key.is_some());
    assert_eq!(gone.same_site, SameSite::AnySite);
}

#[test]
fn parse_fields_reads_identifier_and_flag() {
    assert_eq!(parse_fields(Some(SID_TEXT.to_string()), Some("true".to_string())), (Some(SID), true));
    assert_eq!(parse_fields(Some(SID_TEXT.to_string()), Some("false".to_string())), (Some(SID), false));
    assert_eq!(parse_fields(Some("nonsense".to_string()), Some("TRUE".to_string())), (None, false));
    assert_eq!(parse_fields(Some("true".to_string()), Some(SID_TEXT.to_string())), (None, false));
    assert_eq!(parse_fields(None, None), (None, false));
}

#[test]
fn inbound_value_treats_a_broken_seal_as_absent() {
    let sealed = encrypt("sid", SID_TEXT, &master()).expect("an envelope");
    assert_eq!(inbound_value("sid", Some(&sealed), &Some(master())), Some(SID_TEXT.to_string()));
    assert_eq!(inbound_value("store", Some(&sealed), &Some(master())), None);
    assert_eq!(inbound_value("sid", Some(SID_TEXT), &Some(master())), None);
    assert_eq!(inbound_value("sid", Some(SID_TEXT), &None), Some(SID_TEXT.to_string()));
    assert_eq!(inbound_value("sid", None, &None), None);
    assert_eq!(inbound_value("sid", None, &Some(master())), None);
}

#[test]
fn a_response_resolves_again_on_the_next_request() {
    for mode in [SecurityMode::PerSession, SecurityMode::Simple] {
        for key in [None, Some(master())] {
            for prefix in [false, true] {
                let mut c = config(mode, true, key);
                c.prefix_with_host = prefix;
                let sk = own_key();
                let out = header_fields(&c, SID, &sk, false, true);
                if mode == SecurityMode::PerSession {
                    assert_eq!(get_key_id(&c, out[0].value.as_deref()), Some(KID));
                } else {
                    assert_eq!(get_key_id(&c, out[0].value.as_deref()), None);
                }
                let got = get_headers_and_key(&c, sk, out[1].value.as_deref(), out[2].value.as_deref());
                assert_eq!(got.0.id, KID);
                assert_eq!(got.1, Some(SID));
                assert!(got.2);
            }
        }
    }
}

#[test]
fn forged_or_missing_fields_resolve_to_nothing() {
    let c = config(SecurityMode::PerSession, true, Some(master()));
    let sk = own_key();
    let got = get_headers_and_key(&c, sk, Some(SID_TEXT), Some("true"));
    assert_eq!((got.1, got.2), (None, false));
    let got = get_headers_and_key(&c, sk, None, None);
    assert_eq!((got.1, got.2), (None, false));
    let under_master = encrypt("sid", SID_TEXT, &master()).expect("an envelope");
    let got = get_headers_and_key(&c, sk, Some(&under_master), None);
    assert_eq!(got.1, None);
    assert_eq!(get_key_id(&c, Some(KID_TEXT)), None);
    assert_eq!(get_key_id(&c, None), None);
    let bare = config(SecurityMode::Simple, false, None);
    assert_eq!(get_key_id(&bare, Some(KID_TEXT)), Some(KID));
    assert_eq!(get_key_id(&bare, Some("zz")), None);
}

#[test]
fn set_headers_writes_what_get_headers_reads() {
    for mode in [SecurityMode::PerSession, SecurityMode::Simple] {
        for key in [None, Some(master())] {
            let c = config(mode, true, key);
            let sk = own_key();
            let mut headers = http::HeaderMap::new();
            let made = set_headers(&c, SID, &sk, &mut headers, false, true);
            assert_eq!(made.len(), 3);
            let read = get_headers(&c, &headers);
            assert_eq!(read.key, made[0].value);
            assert_eq!(read.data, made[1].value);
            assert_eq!(read.store, made[2].value);
            assert_eq!(headers.len(), if mode == SecurityMode::PerSession { 3 } else { 2 });
            let kid = get_key_id(&c, read.key.as_deref());
            assert_eq!(kid, if mode == SecurityMode::PerSession { Some(KID) } else { None });
            let got = get_headers_and_key(&c, sk, read.data.as_deref(), read.store.as_deref());
            assert_eq!((got.1, got.2), (Some(SID), true));
        }
    }
}

#[test]
fn set_headers_writes_in_clear_where_no_key_applies() {
    let c = config(SecurityMode::PerSession, true, None);
    let mut headers = http::HeaderMap::new();
    set_headers(&c, SID, &own_key(), &mut headers, false, true);
    assert_eq!(headers.get("kid").map(|v| v.to_str().unwrap()), Some(KID_TEXT));
    assert_eq!(headers.get("store").map(|v| v.as_bytes().len()), Some(44));
    let c = config(SecurityMode::Simple, false, None);
    let mut headers = http::HeaderMap::new();
    set_headers(&c, SID, &own_key(), &mut headers, false, false);
    assert_eq!(headers.len(), 1);
    assert_eq!(headers.get("sid").map(|v| v.to_str().unwrap()), Some(SID_TEXT));
}

#[test]
fn set_headers_leaves_removed_fields_out() {
    let c = config(SecurityMode::PerSession, true, Some(master()));
    let mut headers = http::HeaderMap::new();
    headers.insert("other", http::HeaderValue::from_static("kept"));
    let made = set_headers(&c, SID, &own_key(), &mut headers, false, false);
    assert!(made.iter().all(|h| h.value.is_none()));
    assert_eq!(headers.len(), 1);
    let made = set_headers(&c, SID, &own_key(), &mut headers, true, true);
    assert!(made.iter().all(|h| h.value.is_none()));
    assert_eq!(headers.len(), 1);
    assert_eq!(headers.get("other").map(|v| v.to_str().unwrap()), Some("kept"));
    let read = get_headers(&c, &headers);
    assert!(read.key.is_none() && read.data.is_none() && read.store.is_none());
}

#[test]
fn put_header_replaces_and_normalises() {
    let mut headers = http::HeaderMap::new();
    headers.append("sid", http::HeaderValue::from_static("one"));
    headers.append("sid", http::HeaderValue::from_static("two"));
    let field = HeaderField { name: "SID".to_string(), value: Some("three".to_string()) };
    assert!(put_header(&mut headers, &field));
    assert_eq!(headers.len(), 1);
    assert_eq!(headers.get("sid").map(|v| v.to_str().unwrap()), Some("three"));
    let mut c = config(SecurityMode::Simple, false, None);
    c.session_name = "Sid".to_string();
    assert_eq!(get_headers(&c, &headers).data, Some("three".to_string()));
}

#[test]
fn put_header_refuses_what_the_headers_cannot_hold() {
    let mut headers = http::HeaderMap::new();
    let bad_name = HeaderField { name: "bad name".to_string(), value: Some("v".to_string()) };
    assert!(!put_header(&mut headers, &bad_name));
    let bad_value = HeaderField { name: "sid".to_string(), value: Some("line\nbreak".to_string()) };
    assert!(!put_header(&mut headers, &bad_value));
    let absent = HeaderField { name: "sid".to_string(), value: None };
    assert!(!put_header(&mut headers, &absent));
    assert!(headers.is_empty());
    let mut c = config(SecurityMode::Simple, false, None);
    c.session_name = "bad name".to_string();
    assert_eq!(get_headers(&c, &headers).data, None);
}

#[test]
fn get_headers_skips_values_that_are_no_text() {
    let c = config(SecurityMode::Simple, false, None);
    let mut headers = http::HeaderMap::new();
    headers.insert("sid", http::HeaderValue::from_bytes(&[0xe9, 0x20]).unwrap());
    headers.insert("store", http::HeaderValue::from_static("true"));
    let read = get_headers(&c, &headers);
    assert_eq!(read.data, None);
    assert_eq!(read.store, Some("true".to_string()));
    assert_eq!(read.key, None);
}

fn jar_key(key: &SealKey) -> cookie::Key {
    cookie::Key::from(&[key.signing, key.encryption].concat())
}

#[test]
fn cookies_are_unsealed_with_the_key_that_applies() {
    let mut jar = cookie::CookieJar::new();
    jar.private_mut(&jar_key(&master())).add(cookie::Cookie::new("sid", SID_TEXT));
    jar.private_mut(&jar_key(&master())).add(cookie::Cookie::new("store", "true"));
    jar.private_mut(&jar_key(&master())).add(cookie::Cookie::new("kid", KID_TEXT));
    let sealed = config(SecurityMode::Simple, true, Some(master()));
    let got = get_cookies_and_key(&sealed, own_key(), &jar);
    assert_eq!((got.1, got.2), (Some(SID), true));
    assert_eq!(get_cookie_key_id(&sealed, &jar), Some(KID));
    let clear = config(SecurityMode::Simple, true, None);
    let got = get_cookies_and_key(&clear, own_key(), &jar);
    assert_eq!((got.1, got.2), (None, false));
    assert_eq!(get_cookie_key_id(&clear, &jar), None);
    let other = config(SecurityMode::PerSession, true, Some(master()));
    let got = get_cookies_and_key(&other, own_key(), &jar);
    assert_eq!((got.1, got.2), (None, false));
    let mut swapped = config(SecurityMode::Simple, true, Some(master()));
    swapped.session_name = "kid".to_string();
    swapped.key_name = "sid".to_string();
    let got = get_cookies_and_key(&swapped, own_key(), &jar);
    assert_eq!(got.1, Some(KID));
    let empty = cookie::CookieJar::new();
    let got = get_cookies_and_key(&sealed, own_key(), &empty);
    assert_eq!((got.1, got.2), (None, false));
}

#[test]
fn cookies_resolve_to_key_identifier_and_flag() {
    let c = config(SecurityMode::PerSession, true, Some(master()));
    let sk = own_key();
    let mut jar = cookie::CookieJar::new();
    jar.private_mut(&jar_key(&master())).add(cookie::Cookie::new("kid", KID_TEXT));
    jar.private_mut(&jar_key(&sk.key)).add(cookie::Cookie::new("sid", SID_TEXT));
    jar.private_mut(&jar_key(&sk.key)).add(cookie::Cookie::new("store", "true"));
    assert_eq!(get_cookie_key_id(&c, &jar), Some(KID));
    let got = get_cookies_and_key(&c, sk, &jar);
    assert_eq!((got.0.id, got.1, got.2), (KID, Some(SID), true));
    let simple = config(SecurityMode::Simple, true, Some(master()));
    let got = get_cookies_and_key(&simple, sk, &jar);
    assert_eq!((got.1, got.2), (None, false));
    let bare = config(SecurityMode::Simple, false, None);
    let mut jar = cookie::CookieJar::new();
    jar.add(cookie::Cookie::new("sid", SID_TEXT));
    jar.add(cookie::Cookie::new("store", "yes"));
    jar.add(cookie::Cookie::new("kid", "not an identifier"));
    assert_eq!(get_cookie_key_id(&bare, &jar), None);
    let got = get_cookies_and_key(&bare, sk, &jar);
    assert_eq!((got.1, got.2), (Some(SID), false));
}

#[test]
fn get_cookie_unseals_where_a_key_applies() {
    let mut jar = cookie::CookieJar::new();
    jar.private_mut(&jar_key(&master())).add(cookie::Cookie::new("sid", SID_TEXT));
    jar.add(cookie::Cookie::new("plain", "value"));
    assert_eq!(get_cookie(&jar, "sid", &Some(master())), Some(SID_TEXT.to_string()));
    let raw = get_cookie(&jar, "sid", &None).expect("the sealed value");
    assert_ne!(raw, SID_TEXT);
    assert_ne!(raw, "sid");
    assert_eq!(get_cookie(&jar, "sid", &Some(own_key().key)), None);
    assert_eq!(get_cookie(&jar, "plain", &None), Some("value".to_string()));
    assert_eq!(get_cookie(&jar, "plain", &Some(master())), None);
    assert_eq!(get_cookie(&jar, "absent", &None), None);
    assert_eq!(get_cookie(&jar, "absent", &Some(master())), None);
}

#[test]
fn every_field_that_is_sent_has_a_value() {
    for mode in [SecurityMode::PerSession, SecurityMode::Simple] {
        for key in [None, Some(master())] {
            let c = config(mode, true, key);
            let out = header_fields(&c, SID, &own_key(), false, true);
            assert_eq!(out[0].value.is_some(), mode == SecurityMode::PerSession);
            assert!(out[1].value.is_some());
            assert!(out[2].value.is_some());
            assert_eq!(wire_text("sid", "v".to_string(), &key).is_some(), true);
        }
    }
}

#[test]
fn identifier_text_is_thirty_six_hex_digits_and_hyphens() {
    for id in [0u128, u128::MAX, SID, KID] {
        let text = field_value(NameType::Data, id, &own_key());
        assert_eq!(text.len(), 36);
        assert!(text.chars().all(|c| c.is_ascii_digit() || ('a'..='f').contains(&c) || c == '-'));
        assert_eq!(parse_fields(Some(text), None).0, Some(id));
    }
}

#[test]
fn a_fresh_map_takes_every_field_that_is_sent() {
    let c = config(SecurityMode::PerSession, true, Some(master()));
    let mut headers = http::HeaderMap::new();
    let made = set_headers(&c, SID, &own_key(), &mut headers, false, true);
    for field in &made {
        let text = field.value.clone().expect("a value");
        assert_eq!(headers.get(field.name.as_str()).map(|v| v.to_str().unwrap()), Some(text.as_str()));
    }
    assert_eq!(headers.len(), 3);
}
