//! The transport fields of a session: their names, what a response emits for
//! each, and what a request's fields resolve to.

use crate::aead::{decrypt, encrypt, fits_seal, is_base64_char, is_envelope, opened, SealKey, SessionError, NONCE_LEN};
use crate::keys::SessionKey;
use cookie::{CookieJar, Key};
use http::header::{HeaderMap, HeaderName, HeaderValue};
use crate::ids::{is_uuid_char, parsed_uuid, uuid_parse, uuid_string, uuid_text};
use vstd::prelude::*;
use vstd::string::*;
use vstd::utf8::*;

verus! {

/// Which key seals the transport fields.
#[derive(Debug, Clone, Copy, PartialEq, Eq, Structural)]
pub enum SecurityMode {
    /// Each session has a key of its own, and the key's identifier travels
    /// too.
    PerSession,
    /// One configured key, or none, for every session.
    Simple,
}

/// The same-site attribute of a cookie.
#[derive(Debug, Clone, Copy, PartialEq, Eq, Structural)]
pub enum SameSite {
    Strict,
    Lax,
    /// Sent with requests from any site.
    AnySite,
}

/// The logical fields that travel with a request and its response.
#[derive(Debug, Clone, Copy, PartialEq, Eq, Structural)]
pub enum NameType {
    /// Whether the session may be kept.
    Store,
    /// The session's identifier.
    Data,
    /// The identifier of the session's key.
    Key,
}

/// What a response does with a field.
#[derive(Debug, Clone, Copy, PartialEq, Eq, Structural)]
pub enum Emission {
    /// The field is sent with its current value.
    Create,
    /// The field is taken back: a tombstone as a cookie, left out as a header.
    Remove,
}

/// The configured names, attributes and policy of the transport.
pub struct SessionConfig {
    pub session_name: String,
    pub store_name: String,
    pub key_name: String,
    pub prefix_with_host: bool,
    pub security_mode: SecurityMode,
    /// Whether a session is kept only once it was marked storable.
    pub opt_in: bool,
    pub key: Option<SealKey>,
    pub cookie_path: String,
    pub cookie_domain: Option<String>,
    pub cookie_secure: bool,
    pub cookie_http_only: bool,
    pub cookie_same_site: SameSite,
    /// Seconds that a cookie lives, if it expires at all.
    pub cookie_max_age: Option<i64>,
}

/// The text of an optional string.
pub open spec fn opt_text(s: Option<String>) -> Option<Seq<char>> {
    match s {
        Some(t) => Some(t@),
        None => None,
    }
}

/// The text of an optional string slice.
pub open spec fn opt_str(s: Option<&str>) -> Option<Seq<char>> {
    match s {
        Some(t) => Some(t@),
        None => None,
    }
}

impl NameType {
    /// The name under which the field travels: the configured one, behind
    /// the host-locking marker where that is switched on.
    pub open spec fn name_of(self, config: &SessionConfig) -> Seq<char> {
        let name = match self {
            NameType::Data => config.session_name@,
            NameType::Store => config.store_name@,
            NameType::Key => config.key_name@,
        };
        if config.prefix_with_host {
            "__Host-"@ + name
        } else {
            name
        }
    }

    /// The name under which the field travels.
    pub fn get_name(&self, config: &SessionConfig) -> (r: String)
        ensures
            r@ == self.name_of(config),
    {
        let name = match self {
            NameType::Data => config.session_name.clone(),
            NameType::Store => config.store_name.clone(),
            NameType::Key => config.key_name.clone(),
        };
        if config.prefix_with_host {
            let mut prefixed = "__Host-".to_owned();
            prefixed.append(name.as_str());
            prefixed
        } else {
            name
        }
    }
}

/// The decision for one field: the identifier and the key's identifier are
/// sent unless the session is being destroyed or, under the opt-in policy,
/// was not marked storable; the key's identifier only where each session has
/// its own key; the storable flag only under the opt-in policy, and only
/// when it is set.
pub open spec fn emission_of(field: NameType, mode: SecurityMode, destroy: bool, opt_in: bool, storable: bool) -> Emission {
    let kept = (storable || !opt_in) && !destroy;
    let sent = match field {
        NameType::Data => kept,
        NameType::Key => kept && mode == SecurityMode::PerSession,
        NameType::Store => opt_in && storable && !destroy,
    };
    if sent {
        Emission::Create
    } else {
        Emission::Remove
    }
}

/// Decides what a response does with a field.
pub fn emission(field: NameType, mode: SecurityMode, destroy: bool, opt_in: bool, storable: bool) -> (r: Emission)
    ensures
        r == emission_of(field, mode, destroy, opt_in, storable),
{
    let kept = (storable || !opt_in) && !destroy;
    let sent = match field {
        NameType::Data => kept,
        NameType::Key => kept && mode == SecurityMode::PerSession,
        NameType::Store => opt_in && storable && !destroy,
    };
    if sent {
        Emission::Create
    } else {
        Emission::Remove
    }
}

/// The decision table, row by row: a session that is being destroyed takes
/// every field back; without the opt-in policy the identifier is sent and
/// the storable flag taken back; under the policy a storable session sends
/// both and any other takes both back. The key's identifier goes with the
/// session's where each session has its own key, and is taken back otherwise.
pub proof fn law_emission_table(mode: SecurityMode, destroy: bool, opt_in: bool, storable: bool)
    ensures
        destroy ==> emission_of(NameType::Data, mode, destroy, opt_in, storable) == Emission::Remove
            && emission_of(NameType::Store, mode, destroy, opt_in, storable) == Emission::Remove,
        !destroy && !opt_in ==> emission_of(NameType::Data, mode, destroy, opt_in, storable)
            == Emission::Create && emission_of(NameType::Store, mode, destroy, opt_in, storable)
            == Emission::Remove,
        !destroy && opt_in && storable ==> emission_of(NameType::Data, mode, destroy, opt_in, storable)
            == Emission::Create && emission_of(NameType::Store, mode, destroy, opt_in, storable)
            == Emission::Create,
        !destroy && opt_in && !storable ==> emission_of(NameType::Data, mode, destroy, opt_in, storable)
            == Emission::Remove && emission_of(NameType::Store, mode, destroy, opt_in, storable)
            == Emission::Remove,
        mode == SecurityMode::PerSession ==> emission_of(NameType::Key, mode, destroy, opt_in, storable)
            == emission_of(NameType::Data, mode, destroy, opt_in, storable),
        mode == SecurityMode::Simple ==> emission_of(NameType::Key, mode, destroy, opt_in, storable)
            == Emission::Remove,
{
}

/// The key that seals a field: the identifier of a session's key goes under
/// the configured key; the other fields under the session's own key where
/// there is one, else under the configured key.
pub open spec fn key_of(field: NameType, config: &SessionConfig, session_key: &SessionKey) -> Option<SealKey> {
    match field {
        NameType::Key => config.key,
        _ => match config.security_mode {
            SecurityMode::PerSession => Some(session_key.key),
            SecurityMode::Simple => config.key,
        },
    }
}

/// The key that seals a field, if any does.
pub fn field_key(field: NameType, config: &SessionConfig, session_key: &SessionKey) -> (r: Option<SealKey>)
    ensures
        r == key_of(field, config, session_key),
{
    match field {
        NameType::Key => config.key,
        _ => match config.security_mode {
            SecurityMode::PerSession => Some(session_key.key),
            SecurityMode::Simple => config.key,
        },
    }
}

/// The value that a field carries when it is sent.
pub open spec fn value_of(field: NameType, session_id: u128, session_key: &SessionKey) -> Seq<char> {
    match field {
        NameType::Data => uuid_text(session_id),
        NameType::Key => uuid_text(session_key.id),
        NameType::Store => "true"@,
    }
}

/// The value that a field carries when it is sent. An identifier's text
/// reads back as the identifier; every value is accepted as a header's.
pub fn field_value(field: NameType, session_id: u128, session_key: &SessionKey) -> (r: String)
    ensures
        r@ == value_of(field, session_id, session_key),
        field == NameType::Data ==> parsed_uuid(r@) == Some(session_id),
        field == NameType::Key ==> parsed_uuid(r@) == Some(session_key.id),
        accepted_value(r@),
{
    match field {
        NameType::Data => uuid_string(session_id),
        NameType::Key => uuid_string(session_key.id),
        NameType::Store => {
            proof {
                reveal_strlit("true");
            }
            "true".to_owned()
        },
    }
}

/// Whether `text` carries `value` in the field `name`: as it is where no key
/// applies, else as an envelope that opens to it.
pub open spec fn carries(text: Seq<char>, name: Seq<char>, value: Seq<char>, key: Option<SealKey>) -> bool {
    match key {
        None => text == value,
        Some(k) => exists|nonce: Seq<u8>|
            nonce.len() == NONCE_LEN && #[trigger] is_envelope(text, k.encryption@, nonce, name, value),
    }
}

/// Whether a value can go on the wire in the field `name`: always where no
/// key applies, else where it fits the cipher.
pub open spec fn fits_field(name: Seq<char>, value: Seq<char>, key: Option<SealKey>) -> bool {
    key is None || fits_seal(encode_utf8(name).len(), encode_utf8(value).len())
}

/// The text that goes on the wire for `value` in the field `name`. Without a
/// key it is the value; with one it is a fresh envelope, or nothing where the
/// value does not fit the cipher.
pub fn wire_text(name: &str, value: String, key: &Option<SealKey>) -> (r: Option<String>)
    ensures
        r is Some <==> fits_field(name@, value@, *key),
        r matches Some(t) ==> carries(t@, name@, value@, *key),
{
    match key {
        None => Some(value),
        Some(k) => encrypt(name, value.as_str(), k),
    }
}

/// One header of a response, or the place of one that is left out.
pub struct HeaderField {
    pub name: String,
    pub value: Option<String>,
}

/// Whether `out` is what a response does with a field under `action`: a
/// field that is taken back has no value; one that is sent carries `value`,
/// and is left out only where a key applies and the value does not fit the
/// cipher.
pub open spec fn emits(out: HeaderField, name: Seq<char>, value: Seq<char>, key: Option<SealKey>, action: Emission) -> bool {
    &&& out.name@ == name
    &&& match out.value {
        Some(t) => action == Emission::Create && fits_field(name, value, key) && carries(t@, name, value, key),
        None => action == Emission::Remove || !fits_field(name, value, key),
    }
}

/// The header of one field.
pub fn header_field(name: String, value: String, key: &Option<SealKey>, action: Emission) -> (r: HeaderField)
    ensures
        emits(r, name@, value@, *key, action),
{
    match action {
        Emission::Remove => HeaderField { name, value: None },
        Emission::Create => {
            let text = wire_text(name.as_str(), value, key);
            HeaderField { name, value: text }
        },
    }
}

/// Whether `out` is the header of `field` in a response for the session
/// `session_id`.
pub open spec fn header_of(
    out: HeaderField,
    field: NameType,
    config: &SessionConfig,
    session_id: u128,
    session_key: &SessionKey,
    destroy: bool,
    storable: bool,
) -> bool {
    &&& emits(
        out,
        field.name_of(config),
        value_of(field, session_id, session_key),
        key_of(field, config, session_key),
        emission_of(field, config.security_mode, destroy, config.opt_in, storable),
    )
    &&& field == NameType::Data ==> parsed_uuid(value_of(field, session_id, session_key)) == Some(session_id)
    &&& field == NameType::Key ==> parsed_uuid(value_of(field, session_id, session_key)) == Some(
        session_key.id,
    )
    &&& out.value matches Some(t) ==> accepted_value(t@)
}

/// A session's header, fed back as the field of the next request, gives the
/// session's identifier; the header of the storable flag gives `true`.
pub proof fn law_header_round_trip(
    out: HeaderField,
    field: NameType,
    config: &SessionConfig,
    session_id: u128,
    session_key: &SessionKey,
    destroy: bool,
    storable: bool,
)
    requires
        header_of(out, field, config, session_id, session_key, destroy, storable),
        out.value is Some,
    ensures
        field == NameType::Data ==> id_of(
            inbound_text(field.name_of(config), opt_text(out.value), key_of(field, config, session_key)),
        ) == Some(session_id),
        field == NameType::Key ==> id_of(
            inbound_text(field.name_of(config), opt_text(out.value), key_of(field, config, session_key)),
        ) == Some(session_key.id),
        field == NameType::Store ==> flag_of(
            inbound_text(field.name_of(config), opt_text(out.value), key_of(field, config, session_key)),
        ),
{
}

/// The headers of a response, in the order key, session, storable flag.
pub fn header_fields(
    config: &SessionConfig,
    session_id: u128,
    session_key: &SessionKey,
    destroy: bool,
    storable: bool,
) -> (r: Vec<HeaderField>)
    ensures
        r@.len() == 3,
        header_of(r@[0], NameType::Key, config, session_id, session_key, destroy, storable),
        header_of(r@[1], NameType::Data, config, session_id, session_key, destroy, storable),
        header_of(r@[2], NameType::Store, config, session_id, session_key, destroy, storable),
{
    let mut out: Vec<HeaderField> = Vec::new();
    let order = [NameType::Key, NameType::Data, NameType::Store];
    let mut i: usize = 0;
    while i < 3
        invariant
            i <= 3,
            out@.len() == i,
            order@ =~= seq![NameType::Key, NameType::Data, NameType::Store],
            forall|j: int|
                0 <= j < i ==> header_of(#[trigger] out@[j], order@[j], config, session_id, session_key, destroy, storable),
        decreases 3 - i,
    {
        let field = order[i];
        let action = emission(field, config.security_mode, destroy, config.opt_in, storable);
        let key = field_key(field, config, session_key);
        let value = field_value(field, session_id, session_key);
        let ghost plain = value@;
        let one = header_field(field.get_name(config), value, &key, action);
        proof {
            if one.value is Some {
                let t: Seq<char> = one.value.unwrap()@;
                if key is Some {
                    let k: Seq<u8> = key.unwrap().encryption@;
                    let nonce = choose|nonce: Seq<u8>|
                        nonce.len() == NONCE_LEN && #[trigger] is_envelope(t, k, nonce, field.name_of(config), plain);
                    assert(is_envelope(t, k, nonce, field.name_of(config), plain));
                    assert forall|i: int| 0 <= i < t.len() implies is_base64_char(#[trigger] t[i]) by {}
                }
                assert(accepted_value(t));
            }
        }
        out.push(one);
        i = i + 1;
    }
    out
}

#[verifier::external_type_specification]
#[verifier::external_body]
#[verifier::reject_recursive_types(T)]
pub struct ExHeaderMap<T>(HeaderMap<T>);

#[verifier::external_type_specification]
#[verifier::external_body]
pub struct ExHeaderValue(HeaderValue);

/// The text of the first value under each header name, by the name in its
/// normal form. A name whose first value is no visible ASCII text is not in
/// it.
pub uninterp spec fn header_texts(headers: HeaderMap) -> Map<Seq<char>, Seq<char>>;

/// The normal form of a header name, in lower case, if the name is valid.
pub uninterp spec fn header_key(name: Seq<char>) -> Option<Seq<char>>;

/// Whether a text is made of visible ASCII characters, blanks and tabs alone.
pub open spec fn visible_text(text: Seq<char>) -> bool {
    forall|i: int|
        0 <= i < text.len() ==> (32 <= (#[trigger] text[i]) as u32 && (text[i] as u32) < 127) || text[i]
            == '\t'
}

/// The texts after `value` became the one value under `key`.
pub open spec fn stored(texts: Map<Seq<char>, Seq<char>>, key: Seq<char>, value: Seq<char>) -> Map<
    Seq<char>,
    Seq<char>,
> {
    if visible_text(value) {
        texts.insert(key, value)
    } else {
        texts.remove(key)
    }
}

/// The text under a name, where the name is valid and has one.
pub open spec fn looked_up(texts: Map<Seq<char>, Seq<char>>, key: Option<Seq<char>>) -> Option<Seq<char>> {
    match key {
        Some(k) => if texts.contains_key(k) {
            Some(texts[k])
        } else {
            None
        },
        None => None,
    }
}

/// Calls `HeaderMap::get` with the name as text and reads the value by
/// `HeaderValue::to_str`: the text of the first value under the name's normal
/// form; nothing for a name that is not valid or not there, or a value that
/// is no visible ASCII text.
#[verifier::external_body]
fn header_get(headers: &HeaderMap, name: &str) -> (r: Option<String>)
    ensures
        opt_text(r) == looked_up(header_texts(*headers), header_key(name@)),
{
    match headers.get(name) {
        Some(v) => match v.to_str() {
            Ok(s) => Some(s.to_owned()),
            Err(_) => None,
        },
        None => None,
    }
}

/// Whether a text is accepted as a header's value: it holds no control
/// character but the tab.
pub open spec fn accepted_value(text: Seq<char>) -> bool {
    forall|i: int|
        0 <= i < text.len() ==> (32 <= (#[trigger] text[i]) as u32 && text[i] as u32 != 127) || text[i]
            == '\t'
}

/// Whether a map has reached its size limit, so that it can refuse an entry.
pub uninterp spec fn header_full(headers: HeaderMap) -> bool;

/// Calls `HeaderName::from_bytes`, `HeaderValue::from_str` and
/// `HeaderMap::try_insert`. Where all three succeed the value is the one
/// value under the name's normal form; where one fails the map is as before.
/// They succeed only for a valid name and an accepted value, and for those
/// whenever the map has not reached its size limit.
#[verifier::external_body]
fn header_put(headers: &mut HeaderMap, name: &str, value: &str) -> (r: bool)
    ensures
        r ==> header_key(name@) is Some,
        r ==> accepted_value(value@),
        header_key(name@) is Some && accepted_value(value@) && !header_full(*old(headers)) ==> r,
        header_texts(*final(headers)) == (if r {
            stored(header_texts(*old(headers)), header_key(name@).unwrap(), value@)
        } else {
            header_texts(*old(headers))
        }),
{
    match (HeaderName::from_bytes(name.as_bytes()), HeaderValue::from_str(value)) {
        (Ok(n), Ok(v)) => headers.try_insert(n, v).is_ok(),
        _ => false,
    }
}

/// The raw contents of the three fields of a request.
pub struct InboundFields {
    pub key: Option<String>,
    pub data: Option<String>,
    pub store: Option<String>,
}

/// Reads the three fields from the headers of a request.
pub fn get_headers(config: &SessionConfig, headers: &HeaderMap) -> (r: InboundFields)
    ensures
        opt_text(r.key) == looked_up(header_texts(*headers), header_key(NameType::Key.name_of(config))),
        opt_text(r.data) == looked_up(header_texts(*headers), header_key(NameType::Data.name_of(config))),
        opt_text(r.store) == looked_up(
            header_texts(*headers),
            header_key(NameType::Store.name_of(config)),
        ),
{
    let key_name = NameType::Key.get_name(config);
    let data_name = NameType::Data.get_name(config);
    let store_name = NameType::Store.get_name(config);
    InboundFields {
        key: header_get(headers, key_name.as_str()),
        data: header_get(headers, data_name.as_str()),
        store: header_get(headers, store_name.as_str()),
    }
}

/// Whether a map takes a field for certain: the field has a value that is
/// accepted, its name is valid, and the map has not reached its size limit.
pub open spec fn takes(before: HeaderMap, field: HeaderField) -> bool {
    &&& field.value matches Some(t) && accepted_value(t@)
    &&& header_key(field.name@) is Some
    &&& !header_full(before)
}

/// Whether the texts of `after` are those of `before` with the field's value
/// under its name.
pub open spec fn holds_now(before: HeaderMap, after: HeaderMap, field: HeaderField) -> bool {
    &&& field.value is Some
    &&& header_key(field.name@) is Some
    &&& header_texts(after) == stored(header_texts(before), header_key(field.name@).unwrap(), field.value.unwrap()@)
}

/// Whether `after` is what writing `field` leaves of the map `before`: the
/// field's value under its name where the map took it, as it does wherever
/// it `takes` the field; else the texts of `before`, and the very map where
/// the field has no value.
pub open spec fn written(before: HeaderMap, after: HeaderMap, field: HeaderField) -> bool {
    &&& holds_now(before, after, field) || header_texts(after) == header_texts(before)
    &&& takes(before, field) ==> holds_now(before, after, field)
    &&& field.value is None ==> after == before
}

/// Writes one field into the headers of a response and says whether it is
/// there now. A field without a value is not written.
pub fn put_header(headers: &mut HeaderMap, field: &HeaderField) -> (r: bool)
    ensures
        r ==> field.value is Some && header_key(field.name@) is Some,
        header_texts(*final(headers)) == (if r {
            stored(header_texts(*old(headers)), header_key(field.name@).unwrap(), field.value.unwrap()@)
        } else {
            header_texts(*old(headers))
        }),
        takes(*old(headers), *field) ==> r,
        written(*old(headers), *final(headers), *field),
{
    match &field.value {
        Some(text) => header_put(headers, field.name.as_str(), text.as_str()),
        None => false,
    }
}

/// Writes the fields of a response into its headers, in the order key,
/// session, storable flag, and returns them as they were made. A field that
/// is taken back is not written, nor one for which no envelope could be made
/// or that the headers did not take.
pub fn set_headers(
    config: &SessionConfig,
    session_id: u128,
    session_key: &SessionKey,
    headers: &mut HeaderMap,
    destroy: bool,
    storable: bool,
) -> (r: Vec<HeaderField>)
    ensures
        r@.len() == 3,
        header_of(r@[0], NameType::Key, config, session_id, session_key, destroy, storable),
        header_of(r@[1], NameType::Data, config, session_id, session_key, destroy, storable),
        header_of(r@[2], NameType::Store, config, session_id, session_key, destroy, storable),
        exists|m1: HeaderMap, m2: HeaderMap|
            {
                &&& written(*old(headers), m1, r@[0])
                &&& #[trigger] written(m1, m2, r@[1])
                &&& written(m2, *final(headers), r@[2])
            },
{
    let fields = header_fields(config, session_id, session_key, destroy, storable);
    put_header(headers, &fields[0]);
    let ghost m1 = *headers;
    put_header(headers, &fields[1]);
    let ghost m2 = *headers;
    put_header(headers, &fields[2]);
    assert(written(m1, m2, fields@[1]));
    fields
}

/// A cookie of a response, for the caller to build and to seal under `key`
/// where there is one.
pub struct CookiePlan {
    pub name: String,
    pub value: String,
    pub path: String,
    pub domain: Option<String>,
    /// The secure attribute, where it is set at all.
    pub secure: Option<bool>,
    pub http_only: bool,
    pub same_site: SameSite,
    /// Seconds from now at which the cookie expires, if it does.
    pub max_age: Option<i64>,
    /// Whether the cookie is a tombstone: it expires at once.
    pub removal: bool,
    pub key: Option<SealKey>,
}

/// Whether `c` is the cookie of a field named `name` under `action`: sent,
/// it has `value` and the configured attributes; taken back, it is a
/// tombstone with an empty value and the relaxed same-site attribute, domain
/// and path kept.
pub open spec fn plans(c: CookiePlan, config: &SessionConfig, name: Seq<char>, value: Seq<char>, key: Option<SealKey>, action: Emission) -> bool {
    &&& c.name@ == name
    &&& c.path@ == config.cookie_path@
    &&& opt_text(c.domain) == opt_text(config.cookie_domain)
    &&& c.http_only == config.cookie_http_only
    &&& c.key == key
    &&& match action {
        Emission::Create => {
            &&& c.value@ == value
            &&& c.secure == Some(config.cookie_secure)
            &&& c.same_site == config.cookie_same_site
            &&& c.max_age == config.cookie_max_age
            &&& !c.removal
        },
        Emission::Remove => {
            &&& c.value@ == Seq::<char>::empty()
            &&& c.secure is None
            &&& c.same_site == SameSite::AnySite
            &&& c.max_age is None
            &&& c.removal
        },
    }
}

fn domain_of(config: &SessionConfig) -> (r: Option<String>)
    ensures
        opt_text(r) == opt_text(config.cookie_domain),
{
    match &config.cookie_domain {
        Some(d) => Some(d.clone()),
        None => None,
    }
}

/// The cookie that sends `value` in `field`.
pub fn create_cookie(config: &SessionConfig, value: String, field: NameType, key: Option<SealKey>) -> (r: CookiePlan)
    requires
        config.cookie_max_age matches Some(d) ==> d >= 0,
    ensures
        plans(r, config, field.name_of(config), value@, key, Emission::Create),
{
    CookiePlan {
        name: field.get_name(config),
        value,
        path: config.cookie_path.clone(),
        domain: domain_of(config),
        secure: Some(config.cookie_secure),
        http_only: config.cookie_http_only,
        same_site: config.cookie_same_site,
        max_age: config.cookie_max_age,
        removal: false,
        key,
    }
}

/// The tombstone that takes `field` back.
pub fn remove_cookie(config: &SessionConfig, field: NameType, key: Option<SealKey>) -> (r: CookiePlan)
    ensures
        forall|value: Seq<char>| plans(r, config, field.name_of(config), value, key, Emission::Remove),
{
    CookiePlan {
        name: field.get_name(config),
        value: String::new(),
        path: config.cookie_path.clone(),
        domain: domain_of(config),
        secure: None,
        http_only: config.cookie_http_only,
        same_site: SameSite::AnySite,
        max_age: None,
        removal: true,
        key,
    }
}

/// Whether `c` is the cookie of `field` in a response for the session
/// `session_id`.
pub open spec fn cookie_of(
    c: CookiePlan,
    field: NameType,
    config: &SessionConfig,
    session_id: u128,
    session_key: &SessionKey,
    destroy: bool,
    storable: bool,
) -> bool {
    plans(
        c,
        config,
        field.name_of(config),
        value_of(field, session_id, session_key),
        key_of(field, config, session_key),
        emission_of(field, config.security_mode, destroy, config.opt_in, storable),
    )
}

/// The cookies of a response, in the order key, session, storable flag.
pub fn cookie_fields(
    config: &SessionConfig,
    session_id: u128,
    session_key: &SessionKey,
    destroy: bool,
    storable: bool,
) -> (r: Vec<CookiePlan>)
    requires
        config.cookie_max_age matches Some(d) ==> d >= 0,
    ensures
        r@.len() == 3,
        cookie_of(r@[0], NameType::Key, config, session_id, session_key, destroy, storable),
        cookie_of(r@[1], NameType::Data, config, session_id, session_key, destroy, storable),
        cookie_of(r@[2], NameType::Store, config, session_id, session_key, destroy, storable),
{
    let mut out: Vec<CookiePlan> = Vec::new();
    let order = [NameType::Key, NameType::Data, NameType::Store];
    let mut i: usize = 0;
    while i < 3
        invariant
            i <= 3,
            out@.len() == i,
            order@ =~= seq![NameType::Key, NameType::Data, NameType::Store],
            config.cookie_max_age matches Some(d) ==> d >= 0,
            forall|j: int|
                0 <= j < i ==> cookie_of(#[trigger] out@[j], order@[j], config, session_id, session_key, destroy, storable),
        decreases 3 - i,
    {
        let field = order[i];
        let key = field_key(field, config, session_key);
        let one = match emission(field, config.security_mode, destroy, config.opt_in, storable) {
            Emission::Create => create_cookie(config, field_value(field, session_id, session_key), field, key),
            Emission::Remove => remove_cookie(config, field, key),
        };
        out.push(one);
        i = i + 1;
    }
    out
}

/// What an inbound field holds: nothing where it is absent, its text where
/// no key applies, else what its envelope opens to. An envelope that does
/// not open counts as absent.
pub open spec fn inbound_text(name: Seq<char>, raw: Option<Seq<char>>, key: Option<SealKey>) -> Option<Seq<char>> {
    match raw {
        None => None,
        Some(t) => match key {
            None => Some(t),
            Some(k) => match opened(name, t, k.encryption@) {
                Ok(v) => Some(v),
                Err(_) => None,
            },
        },
    }
}

/// Reads what an inbound field holds from its raw content.
pub fn inbound_value(name: &str, raw: Option<&str>, key: &Option<SealKey>) -> (r: Option<String>)
    ensures
        opt_text(r) == inbound_text(name@, opt_str(raw), *key),
{
    match raw {
        None => None,
        Some(t) => match key {
            None => Some(t.to_owned()),
            Some(k) => match decrypt(name, t, k) {
                Ok(v) => Some(v),
                Err(_) => None,
            },
        },
    }
}

/// What a response sent in a field is what the next request's field holds:
/// text that carries a value reads back as that value, under the same name
/// and key.
pub proof fn law_field_round_trip(text: Seq<char>, name: Seq<char>, value: Seq<char>, key: Option<SealKey>)
    requires
        carries(text, name, value, key),
    ensures
        inbound_text(name, Some(text), key) == Some(value),
{
}

/// A field whose seal does not verify is an absent field: it gives no
/// identifier and no flag.
pub proof fn law_broken_seal_is_absent(name: Seq<char>, text: Seq<char>, key: SealKey)
    requires
        opened(name, text, key.encryption@) is Err,
    ensures
        inbound_text(name, Some(text), Some(key)) is None,
        id_of(inbound_text(name, Some(text), Some(key))) is None,
        !flag_of(inbound_text(name, Some(text), Some(key))),
{
}

/// The identifier that a field's content stands for.
pub open spec fn id_of(text: Option<Seq<char>>) -> Option<u128> {
    match text {
        Some(t) => parsed_uuid(t),
        None => None,
    }
}

/// Whether a field's content says that the session may be kept.
pub open spec fn flag_of(text: Option<Seq<char>>) -> bool {
    text == Some("true"@)
}

/// Reads the identifier and the storable flag from the contents of their
/// fields. Content that is no identifier counts as absent; any content but
/// `true` as `false`.
pub fn parse_fields(data: Option<String>, store: Option<String>) -> (r: (Option<u128>, bool))
    ensures
        r.0 == id_of(opt_text(data)),
        r.1 == flag_of(opt_text(store)),
{
    let id = match data {
        Some(t) => uuid_parse(t.as_str()),
        None => None,
    };
    let storable = match store {
        Some(t) => t == "true".to_owned(),
        None => false,
    };
    (id, storable)
}

#[verifier::external_type_specification]
#[verifier::external_body]
pub struct ExCookieJar(CookieJar);

/// The value of each cookie that a jar holds, by the cookie's name.
pub uninterp spec fn jar_cookies(jar: CookieJar) -> Map<Seq<char>, Seq<char>>;

/// What the sealed value `raw` of the cookie `name` opens to under the
/// encrypting half `key`, if its seal verifies.
pub uninterp spec fn cookie_unsealed(key: Seq<u8>, name: Seq<char>, raw: Seq<char>) -> Option<Seq<char>>;

/// What a jar gives for a cookie: nothing where it holds none of that name,
/// the value where no key applies, else what the value opens to.
pub open spec fn cookie_text(cookies: Map<Seq<char>, Seq<char>>, name: Seq<char>, key: Option<SealKey>) -> Option<Seq<char>> {
    if cookies.contains_key(name) {
        match key {
            None => Some(cookies[name]),
            Some(k) => cookie_unsealed(k.encryption@, name, cookies[name]),
        }
    } else {
        None
    }
}

/// Calls `CookieJar::get` and takes the value by `Cookie::value`: the value
/// of the cookie that the jar holds under the name.
#[verifier::external_body]
fn jar_plain(jar: &CookieJar, name: &str) -> (r: Option<String>)
    ensures
        opt_text(r) == (if jar_cookies(*jar).contains_key(name@) {
            Some(jar_cookies(*jar)[name@])
        } else {
            None::<Seq<char>>
        }),
{
    match jar.get(name) {
        Some(c) => Some(c.value().to_owned()),
        None => None,
    }
}

/// Calls `PrivateJar::get` on `CookieJar::private`, with the key that
/// `Key::from` makes of the two halves, and takes the value by
/// `Cookie::value`. The private jar opens the value that the jar holds under
/// the name, with the key's encrypting half and the name; what it opens to
/// is named `cookie_unsealed`.
#[verifier::external_body]
fn jar_private(jar: &CookieJar, name: &str, key: &SealKey) -> (r: Option<String>)
    ensures
        opt_text(r) == (if jar_cookies(*jar).contains_key(name@) {
            cookie_unsealed(key.encryption@, name@, jar_cookies(*jar)[name@])
        } else {
            None::<Seq<char>>
        }),
{
    match jar.private(&Key::from(&[key.signing, key.encryption].concat())).get(name) {
        Some(c) => Some(c.value().to_owned()),
        None => None,
    }
}

/// The content of a cookie: unsealed with the key where one applies, as the
/// jar holds it where none does. A cookie whose seal does not verify counts
/// as absent.
pub fn get_cookie(jar: &CookieJar, name: &str, key: &Option<SealKey>) -> (r: Option<String>)
    ensures
        opt_text(r) == cookie_text(jar_cookies(*jar), name@, *key),
{
    match key {
        Some(k) => jar_private(jar, name, k),
        None => jar_plain(jar, name),
    }
}

/// The identifier of the session's key that a request came with, from its
/// cookies.
pub fn get_cookie_key_id(config: &SessionConfig, jar: &CookieJar) -> (r: Option<u128>)
    ensures
        r == id_of(cookie_text(jar_cookies(*jar), NameType::Key.name_of(config), config.key)),
{
    let name = NameType::Key.get_name(config);
    match get_cookie(jar, name.as_str(), &config.key) {
        Some(t) => uuid_parse(t.as_str()),
        None => None,
    }
}

/// What a request's cookies resolve to, once the session's key is known: the
/// key, the session's identifier if a valid one came, and the storable flag.
pub fn get_cookies_and_key(config: &SessionConfig, session_key: SessionKey, jar: &CookieJar) -> (r: (
    SessionKey,
    Option<u128>,
    bool,
))
    ensures
        r.0 == session_key,
        r.1 == id_of(
            cookie_text(jar_cookies(*jar), NameType::Data.name_of(config), key_of(NameType::Data, config, &session_key)),
        ),
        r.2 == flag_of(
            cookie_text(
                jar_cookies(*jar),
                NameType::Store.name_of(config),
                key_of(NameType::Store, config, &session_key),
            ),
        ),
{
    let key = field_key(NameType::Data, config, &session_key);
    let data_name = NameType::Data.get_name(config);
    let store_name = NameType::Store.get_name(config);
    let data_text = get_cookie(jar, data_name.as_str(), &key);
    let store_text = get_cookie(jar, store_name.as_str(), &key);
    let parsed = parse_fields(data_text, store_text);
    (session_key, parsed.0, parsed.1)
}

/// The identifier of the session's key that a request came with, from the
/// raw content of its key field.
pub fn get_key_id(config: &SessionConfig, raw: Option<&str>) -> (r: Option<u128>)
    ensures
        r == id_of(inbound_text(NameType::Key.name_of(config), opt_str(raw), config.key)),
{
    let name = NameType::Key.get_name(config);
    match inbound_value(name.as_str(), raw, &config.key) {
        Some(t) => uuid_parse(t.as_str()),
        None => None,
    }
}

/// What a request's fields resolve to, once the session's key is known: the
/// key, the session's identifier if a valid one came, and the storable flag.
pub fn get_headers_and_key(
    config: &SessionConfig,
    session_key: SessionKey,
    data: Option<&str>,
    store: Option<&str>,
) -> (r: (SessionKey, Option<u128>, bool))
    ensures
        r.0 == session_key,
        r.1 == id_of(
            inbound_text(NameType::Data.name_of(config), opt_str(data), key_of(NameType::Data, config, &session_key)),
        ),
        r.2 == flag_of(
            inbound_text(NameType::Store.name_of(config), opt_str(store), key_of(NameType::Store, config, &session_key)),
        ),
{
    let key = field_key(NameType::Data, config, &session_key);
    let data_name = NameType::Data.get_name(config);
    let store_name = NameType::Store.get_name(config);
    let data_text = inbound_value(data_name.as_str(), data, &key);
    let store_text = inbound_value(store_name.as_str(), store, &key);
    let parsed = parse_fields(data_text, store_text);
    (session_key, parsed.0, parsed.1)
}

} // verus!
