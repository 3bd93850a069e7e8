//! The request context: who is calling, under which correlation id, with
//! what kind of device, and over which protocol and host.
//!
//! A context is derived from the inbound headers and the peer address,
//! and is handed on to downstream services as a fixed set of headers.

use vstd::prelude::*;
use vstd::utf8::encode_utf8;
use axum::http::HeaderMap;
use crate::device::{classify, detect_device_type, DeviceType};
use crate::header_map::{
    ascii_text, empty_headers, get_value, header_entries, header_name_count, is_text,
    lemma_text_is_visible, lemma_visible_is_storable, name_count, set_value, storable, text_value,
    value_text, Entries, MAX_NAMES,
};
use crate::headers::{
    forwarding_names, is_header_name, lemma_forwarding_names_differ,
    lemma_names_are_header_names, ACCEPT_LANGUAGE, HOST, USER_AGENT, X_ACCEPT_LANGUAGE,
    X_DEVICE_TYPE, X_FORWARDED_FOR, X_FORWARDED_HOST, X_FORWARDED_PROTO, X_GATEWAY_TIMESTAMP,
    X_REAL_IP, X_REQUEST_ID, X_USER_AGENT,
};
use crate::number::{decimal, decimal_i64, lemma_decimal_is_visible};
use crate::system::{is_uuid_v4, lemma_uuid_is_visible, now_millis, random_request_id};
use crate::text::{
    ascii_lower, before_comma, chars_of, first_member, is_visible, lemma_visible_parts, lowercase,
    owned_text, text_of, trimmed, trimmed_string,
};

verus! {

/// The text filed under a header name: present if the map holds the name
/// and the first value under it reads as text.
pub open spec fn header_text(entries: Entries, name: Seq<char>) -> Option<Seq<char>> {
    if entries.contains_key(name) && is_text(entries[name]) {
        Some(ascii_text(entries[name]))
    } else {
        None
    }
}

/// A text, unless it is empty.
pub open spec fn non_empty(text: Seq<char>) -> Option<Seq<char>> {
    if text.len() > 0 {
        Some(text)
    } else {
        None
    }
}

/// The client address that `X-Forwarded-For` names: the first element of
/// its comma-separated list, trimmed, unless that is empty.
pub open spec fn forwarded_for_ip(entries: Entries) -> Option<Seq<char>> {
    match header_text(entries, X_FORWARDED_FOR@) {
        Some(list) => non_empty(trimmed(before_comma(list))),
        None => None,
    }
}

/// The client address that `X-Real-IP` names: its value, trimmed, unless
/// that is empty.
pub open spec fn real_ip(entries: Entries) -> Option<Seq<char>> {
    match header_text(entries, X_REAL_IP@) {
        Some(value) => non_empty(trimmed(value)),
        None => None,
    }
}

/// The client address of a request: what `X-Forwarded-For` names, else
/// what `X-Real-IP` names, else the peer's address, else `unknown`.
pub open spec fn resolved_client_ip(entries: Entries, peer_ip: Option<Seq<char>>) -> Seq<char> {
    match forwarded_for_ip(entries) {
        Some(ip) => ip,
        None => match real_ip(entries) {
            Some(ip) => ip,
            None => match peer_ip {
                Some(ip) => ip,
                None => "unknown"@,
            },
        },
    }
}

/// The correlation id that came with the request: the value of
/// `X-Request-Id`, unless it is empty.
pub open spec fn inbound_request_id(entries: Entries) -> Option<Seq<char>> {
    match header_text(entries, X_REQUEST_ID@) {
        Some(id) => non_empty(id),
        None => None,
    }
}

/// `id` can be the correlation id of a request with these headers: it
/// is the id that came with the request, or, where none came, the text
/// of a random UUID.
pub open spec fn is_request_id_for(entries: Entries, id: Seq<char>) -> bool {
    match inbound_request_id(entries) {
        Some(inbound) => id == inbound,
        None => is_uuid_v4(id),
    }
}

/// The protocol of a request: the value of `X-Forwarded-Proto` in lower
/// case, or `https` where the header is missing or empty.
pub open spec fn resolved_protocol(entries: Entries) -> Seq<char> {
    match header_text(entries, X_FORWARDED_PROTO@) {
        Some(proto) => if proto.len() > 0 {
            ascii_lower(proto)
        } else {
            "https"@
        },
        None => "https"@,
    }
}

/// The text of a header, borrowed from the map.
fn header_str<'a>(headers: &'a HeaderMap, name: &str) -> (text: Option<&'a str>)
    requires
        is_header_name(name@),
    ensures
        text_of(text) == header_text(header_entries(*headers), name@),
{
    match get_value(headers, name) {
        Some(value) => value_text(value),
        None => None,
    }
}

/// The text of a header as an owned string.
pub(crate) fn extract_header_string(headers: &HeaderMap, name: &str) -> (text: Option<String>)
    requires
        is_header_name(name@),
    ensures
        owned_text(text) == header_text(header_entries(*headers), name@),
{
    match header_str(headers, name) {
        Some(s) => Some(s.to_owned()),
        None => None,
    }
}

/// Resolves the client address.
///
/// `peer_ip` is the address part of the peer's socket address, as text.
pub fn extract_client_ip(headers: &HeaderMap, peer_ip: Option<&str>) -> (ip: String)
    ensures
        ip@ == resolved_client_ip(header_entries(*headers), text_of(peer_ip)),
{
    proof {
        lemma_names_are_header_names();
    }
    if let Some(list) = header_str(headers, X_FORWARDED_FOR) {
        let list = chars_of(list);
        let ip = trimmed_string(first_member(list.as_slice()));
        if !ip.as_str().is_empty() {
            return ip;
        }
    }
    if let Some(value) = header_str(headers, X_REAL_IP) {
        let value = chars_of(value);
        let ip = trimmed_string(value.as_slice());
        if !ip.as_str().is_empty() {
            return ip;
        }
    }
    match peer_ip {
        Some(ip) => ip.to_owned(),
        None => "unknown".to_owned(),
    }
}

/// The correlation id of a request: the one that came with it, or a
/// fresh random one.
pub fn extract_or_generate_request_id(headers: &HeaderMap) -> (id: String)
    ensures
        is_request_id_for(header_entries(*headers), id@),
{
    proof {
        lemma_names_are_header_names();
    }
    if let Some(existing) = header_str(headers, X_REQUEST_ID) {
        if !existing.is_empty() {
            return existing.to_owned();
        }
    }
    random_request_id()
}

/// Resolves the protocol.
pub fn extract_protocol(headers: &HeaderMap) -> (protocol: String)
    ensures
        protocol@ == resolved_protocol(header_entries(*headers)),
{
    proof {
        lemma_names_are_header_names();
    }
    if let Some(proto) = header_str(headers, X_FORWARDED_PROTO) {
        if !proto.is_empty() {
            return lowercase(proto);
        }
    }
    "https".to_owned()
}

/// What is known of one inbound request.
#[derive(Debug, Clone)]
pub struct RequestContext {
    /// Client address, from the forwarding headers or the connection.
    pub client_ip: String,
    /// Correlation id, unique to the request.
    pub request_id: String,
    /// The `User-Agent` header as it came.
    pub user_agent: Option<String>,
    /// Category of the client's device.
    pub device_type: DeviceType,
    /// The `Accept-Language` header as it came.
    pub accept_language: Option<String>,
    /// The `Host` header as it came.
    pub host: Option<String>,
    /// Protocol, in lower case.
    pub protocol: String,
    /// When the gateway took the request, in milliseconds since the Unix
    /// epoch.
    pub timestamp: i64,
}

/// A request context as plain values.
pub ghost struct ContextView {
    pub client_ip: Seq<char>,
    pub request_id: Seq<char>,
    pub user_agent: Option<Seq<char>>,
    pub device_type: DeviceType,
    pub accept_language: Option<Seq<char>>,
    pub host: Option<Seq<char>>,
    pub protocol: Seq<char>,
    pub timestamp: int,
}

impl View for RequestContext {
    type V = ContextView;

    open spec fn view(&self) -> ContextView {
        ContextView {
            client_ip: self.client_ip@,
            request_id: self.request_id@,
            user_agent: owned_text(self.user_agent),
            device_type: self.device_type,
            accept_language: owned_text(self.accept_language),
            host: owned_text(self.host),
            protocol: self.protocol@,
            timestamp: self.timestamp as int,
        }
    }
}

/// The context of a request with the given headers and peer address,
/// under the given correlation id and time stamp.
pub open spec fn built_context(
    entries: Entries,
    peer_ip: Option<Seq<char>>,
    request_id: Seq<char>,
    timestamp: int,
) -> ContextView {
    ContextView {
        client_ip: resolved_client_ip(entries, peer_ip),
        request_id,
        user_agent: header_text(entries, USER_AGENT@),
        device_type: classify(header_text(entries, USER_AGENT@)),
        accept_language: header_text(entries, ACCEPT_LANGUAGE@),
        host: header_text(entries, HOST@),
        protocol: resolved_protocol(entries),
        timestamp,
    }
}

/// The entries of a header map after `text` has been set under `name`.
/// A text that cannot be stored as a header value leaves the entries as
/// they are.
pub open spec fn with_header(entries: Entries, name: Seq<char>, text: Seq<char>) -> Entries {
    if storable(text) {
        entries.insert(name, encode_utf8(text))
    } else {
        entries
    }
}

/// As `with_header`, for a text that may be absent.
pub open spec fn with_optional_header(
    entries: Entries,
    name: Seq<char>,
    text: Option<Seq<char>>,
) -> Entries {
    match text {
        Some(text) => with_header(entries, name, text),
        None => entries,
    }
}

/// The entries of a header map after a context has been written into
/// it: each of the nine forwarding headers that has a storable value
/// replaces what the map held under its name, and nothing else changes.
pub open spec fn forwarded(base: Entries, ctx: ContextView) -> Entries {
    let e = with_header(base, X_FORWARDED_FOR@, ctx.client_ip);
    let e = with_header(e, X_REAL_IP@, ctx.client_ip);
    let e = with_header(e, X_REQUEST_ID@, ctx.request_id);
    let e = with_header(e, X_DEVICE_TYPE@, ctx.device_type.name());
    let e = with_optional_header(e, X_USER_AGENT@, ctx.user_agent);
    let e = with_optional_header(e, X_ACCEPT_LANGUAGE@, ctx.accept_language);
    let e = with_optional_header(e, X_FORWARDED_HOST@, ctx.host);
    let e = with_header(e, X_FORWARDED_PROTO@, ctx.protocol);
    with_header(e, X_GATEWAY_TIMESTAMP@, decimal(ctx.timestamp))
}

/// The number of headers that a context is written as, at most.
pub const FORWARDING_HEADERS: usize = 9;

/// Sets one header, if the text can be stored as a header value.
fn put(headers: &mut HeaderMap, name: &'static str, text: &str)
    requires
        is_header_name(name@),
        header_name_count(*old(headers)) <= MAX_NAMES,
    ensures
        header_entries(*final(headers)) == with_header(header_entries(*old(headers)), name@, text@),
        header_name_count(*final(headers)) <= header_name_count(*old(headers)) + 1,
{
    if let Some(value) = text_value(text) {
        set_value(headers, name, value);
    }
}

/// Sets one header, if there is a text and it can be stored.
fn put_optional(headers: &mut HeaderMap, name: &'static str, text: &Option<String>)
    requires
        is_header_name(name@),
        header_name_count(*old(headers)) <= MAX_NAMES,
    ensures
        header_entries(*final(headers)) == with_optional_header(
            header_entries(*old(headers)),
            name@,
            owned_text(*text),
        ),
        header_name_count(*final(headers)) <= header_name_count(*old(headers)) + 1,
{
    if let Some(text) = text {
        put(headers, name, text.as_str());
    }
}

impl RequestContext {
    /// Derives the context of a request from its headers and the
    /// address of its peer, taking a fresh correlation id where the
    /// request brought none, and the time from the system clock.
    ///
    /// `peer_ip` is the address part of the peer's socket address, as
    /// text.
    pub fn from_request(headers: &HeaderMap, peer_ip: Option<&str>) -> (ctx: RequestContext)
        ensures
            is_request_id_for(header_entries(*headers), ctx@.request_id),
            ctx@.timestamp >= 0,
            ctx@ == built_context(
                header_entries(*headers),
                text_of(peer_ip),
                ctx@.request_id,
                ctx@.timestamp,
            ),
    {
        let request_id = extract_or_generate_request_id(headers);
        let timestamp = now_millis();
        RequestContext::assemble(headers, peer_ip, request_id, timestamp)
    }

    /// Derives the context of a request from its headers and the
    /// address of its peer, under a correlation id and a time stamp
    /// that the caller has settled.
    pub fn assemble(
        headers: &HeaderMap,
        peer_ip: Option<&str>,
        request_id: String,
        timestamp: i64,
    ) -> (ctx: RequestContext)
        ensures
            ctx@ == built_context(
                header_entries(*headers),
                text_of(peer_ip),
                request_id@,
                timestamp as int,
            ),
    {
        proof {
            lemma_names_are_header_names();
        }
        let client_ip = extract_client_ip(headers, peer_ip);
        let user_agent = extract_header_string(headers, USER_AGENT);
        let device_type = match &user_agent {
            Some(ua) => detect_device_type(Some(ua.as_str())),
            None => detect_device_type(None),
        };
        let accept_language = extract_header_string(headers, ACCEPT_LANGUAGE);
        let host = extract_header_string(headers, HOST);
        let protocol = extract_protocol(headers);
        RequestContext {
            client_ip,
            request_id,
            user_agent,
            device_type,
            accept_language,
            host,
            protocol,
            timestamp,
        }
    }

    /// Writes the context into a header map, as the forwarding headers.
    /// A header of the same name that the map already holds is
    /// replaced. A field that cannot be stored as a header value is
    /// left out, and the others are written all the same.
    ///
    /// The map needs room for nine more names.
    pub fn apply_forwarding_headers(&self, target: &mut HeaderMap)
        requires
            header_name_count(*old(target)) + FORWARDING_HEADERS <= MAX_NAMES + 1,
        ensures
            header_entries(*final(target)) == forwarded(header_entries(*old(target)), self@),
            header_name_count(*final(target)) <= header_name_count(*old(target))
                + FORWARDING_HEADERS,
    {
        proof {
            lemma_names_are_header_names();
        }
        put(target, X_FORWARDED_FOR, self.client_ip.as_str());
        put(target, X_REAL_IP, self.client_ip.as_str());
        put(target, X_REQUEST_ID, self.request_id.as_str());
        put(target, X_DEVICE_TYPE, self.device_type.as_str());
        put_optional(target, X_USER_AGENT, &self.user_agent);
        put_optional(target, X_ACCEPT_LANGUAGE, &self.accept_language);
        put_optional(target, X_FORWARDED_HOST, &self.host);
        put(target, X_FORWARDED_PROTO, self.protocol.as_str());
        let stamp = decimal_i64(self.timestamp);
        put(target, X_GATEWAY_TIMESTAMP, stamp.as_str());
    }

    /// As `apply_forwarding_headers`, for a map of any size: a map
    /// without room for nine more names is left as it is, and the
    /// result says so.
    pub fn try_apply_forwarding_headers(&self, target: &mut HeaderMap) -> (written: bool)
        ensures
            written <==> header_name_count(*old(target)) + FORWARDING_HEADERS <= MAX_NAMES + 1,
            written ==> header_entries(*final(target)) == forwarded(
                header_entries(*old(target)),
                self@,
            ),
            !written ==> *final(target) == *old(target),
    {
        if name_count(target) > MAX_NAMES + 1 - FORWARDING_HEADERS {
            return false;
        }
        self.apply_forwarding_headers(target);
        true
    }

    /// The forwarding headers of the context, in a map of their own.
    pub fn to_forwarding_headers(&self) -> (headers: HeaderMap)
        ensures
            header_entries(headers) == forwarded(Entries::empty(), self@),
    {
        let mut headers = empty_headers();
        self.apply_forwarding_headers(&mut headers);
        headers
    }
}

/// `X-Forwarded-For` comes first: where its list starts with an
/// address, that address, trimmed, is the client address, whatever
/// `X-Real-IP` and the peer address say.
pub proof fn forwarded_for_comes_first(entries: Entries, peer_ip: Option<Seq<char>>)
    requires
        header_text(entries, X_FORWARDED_FOR@) is Some,
        trimmed(before_comma(header_text(entries, X_FORWARDED_FOR@)->0)).len() > 0,
    ensures
        resolved_client_ip(entries, peer_ip) == trimmed(
            before_comma(header_text(entries, X_FORWARDED_FOR@)->0),
        ),
{
}

/// `X-Real-IP` comes second: where `X-Forwarded-For` names no address,
/// as when the header is missing, and `X-Real-IP` holds one, that
/// address, trimmed, is the client address, whatever the peer address
/// says.
pub proof fn real_ip_comes_second(entries: Entries, peer_ip: Option<Seq<char>>)
    requires
        forwarded_for_ip(entries) is None,
        header_text(entries, X_REAL_IP@) is Some,
        trimmed(header_text(entries, X_REAL_IP@)->0).len() > 0,
    ensures
        resolved_client_ip(entries, peer_ip) == trimmed(header_text(entries, X_REAL_IP@)->0),
{
}

/// The peer address comes last: where neither header names an address,
/// as when both are missing, the client address is the peer's, and
/// `unknown` where there is no peer address either.
pub proof fn peer_address_comes_last(entries: Entries, peer_ip: Option<Seq<char>>)
    requires
        forwarded_for_ip(entries) is None,
        real_ip(entries) is None,
    ensures
        peer_ip is Some ==> resolved_client_ip(entries, peer_ip) == peer_ip->0,
        peer_ip is None ==> resolved_client_ip(entries, peer_ip) == "unknown"@,
{
}

/// A header that the map does not hold names nothing.
pub proof fn missing_headers_name_nothing(entries: Entries)
    ensures
        !entries.contains_key(X_FORWARDED_FOR@) ==> forwarded_for_ip(entries) is None,
        !entries.contains_key(X_REAL_IP@) ==> real_ip(entries) is None,
        !entries.contains_key(X_REQUEST_ID@) ==> inbound_request_id(entries) is None,
        !entries.contains_key(X_FORWARDED_PROTO@) ==> resolved_protocol(entries) == "https"@,
{
}

/// A correlation id that came with the request is kept as it is, and
/// one that did not come is the text of a random UUID.
pub proof fn request_id_is_reused_or_fresh(entries: Entries, id: Seq<char>)
    requires
        is_request_id_for(entries, id),
    ensures
        inbound_request_id(entries) is Some ==> id == header_text(entries, X_REQUEST_ID@)->0,
        inbound_request_id(entries) is None ==> is_uuid_v4(id),
        id.len() > 0,
{
    if inbound_request_id(entries) is None {
        lemma_uuid_is_visible(id);
    }
}

impl ContextView {
    /// What holds of every context of a real request: it names a
    /// client address and a correlation id, and its protocol is not
    /// empty and in lower case.
    pub open spec fn is_well_formed(self) -> bool {
        &&& self.client_ip.len() > 0
        &&& self.request_id.len() > 0
        &&& self.protocol.len() > 0
        &&& ascii_lower(self.protocol) == self.protocol
    }
}

/// A context that was derived from headers is well formed, given that
/// the peer address, where there is one, is not empty.
pub proof fn built_context_is_well_formed(
    entries: Entries,
    peer_ip: Option<Seq<char>>,
    request_id: Seq<char>,
    timestamp: int,
)
    requires
        peer_ip is Some ==> peer_ip->0.len() > 0,
        is_request_id_for(entries, request_id),
    ensures
        built_context(entries, peer_ip, request_id, timestamp).is_well_formed(),
{
    reveal_strlit("unknown");
    reveal_strlit("https");
    request_id_is_reused_or_fresh(entries, request_id);
    let protocol = resolved_protocol(entries);
    assert(ascii_lower(protocol) =~= protocol);
}

/// The text under `name` in a header map is `text`.
pub open spec fn carries(entries: Entries, name: Seq<char>, text: Seq<char>) -> bool {
    entries.contains_key(name) && entries[name] == encode_utf8(text)
}

/// The text under `name` in a header map is `text`, and the name is
/// missing where the text is.
pub open spec fn carries_if_present(
    entries: Entries,
    name: Seq<char>,
    text: Option<Seq<char>>,
) -> bool {
    match text {
        Some(text) => carries(entries, name, text),
        None => !entries.contains_key(name),
    }
}

/// Every field of a context that was derived from headers can be stored
/// as a header value, given that the peer address can.
pub proof fn built_context_is_storable(
    entries: Entries,
    peer_ip: Option<Seq<char>>,
    request_id: Seq<char>,
    timestamp: int,
)
    requires
        peer_ip is Some ==> storable(peer_ip->0),
        is_request_id_for(entries, request_id),
    ensures
        ({
            let ctx = built_context(entries, peer_ip, request_id, timestamp);
            &&& storable(ctx.client_ip)
            &&& storable(ctx.request_id)
            &&& storable(ctx.device_type.name())
            &&& ctx.user_agent is Some ==> storable(ctx.user_agent->0)
            &&& ctx.accept_language is Some ==> storable(ctx.accept_language->0)
            &&& ctx.host is Some ==> storable(ctx.host->0)
            &&& storable(ctx.protocol)
            &&& storable(decimal(ctx.timestamp))
        }),
{
    let ctx = built_context(entries, peer_ip, request_id, timestamp);
    lemma_header_text_is_storable(entries, X_FORWARDED_FOR@);
    lemma_header_text_is_storable(entries, X_REAL_IP@);
    lemma_header_text_is_storable(entries, X_REQUEST_ID@);
    lemma_header_text_is_storable(entries, X_FORWARDED_PROTO@);
    lemma_header_text_is_storable(entries, USER_AGENT@);
    lemma_header_text_is_storable(entries, ACCEPT_LANGUAGE@);
    lemma_header_text_is_storable(entries, HOST@);
    assert(storable(ctx.client_ip)) by {
        reveal_strlit("unknown");
        if let Some(list) = header_text(entries, X_FORWARDED_FOR@) {
            lemma_visible_parts(list);
            lemma_visible_parts(before_comma(list));
            lemma_visible_is_storable(trimmed(before_comma(list)));
        }
        if let Some(value) = header_text(entries, X_REAL_IP@) {
            lemma_visible_parts(value);
            lemma_visible_is_storable(trimmed(value));
        }
        assert(is_visible("unknown"@));
        lemma_visible_is_storable("unknown"@);
    }
    assert(storable(ctx.request_id)) by {
        if inbound_request_id(entries) is None {
            lemma_uuid_is_visible(request_id);
            lemma_visible_is_storable(request_id);
        }
    }
    lemma_device_names_are_storable();
    assert(storable(ctx.protocol)) by {
        reveal_strlit("https");
        assert(is_visible("https"@));
        lemma_visible_is_storable("https"@);
        if let Some(proto) = header_text(entries, X_FORWARDED_PROTO@) {
            lemma_visible_parts(proto);
            lemma_visible_is_storable(ascii_lower(proto));
        }
    }
    lemma_decimal_is_visible(timestamp);
    lemma_visible_is_storable(decimal(timestamp));
}

proof fn lemma_header_text_is_storable(entries: Entries, name: Seq<char>)
    ensures
        header_text(entries, name) matches Some(text) ==> is_visible(text) && storable(text),
{
    if let Some(text) = header_text(entries, name) {
        lemma_text_is_visible(entries[name]);
        lemma_visible_is_storable(text);
    }
}

/// The name of every device category can be stored as a header value.
pub proof fn lemma_device_names_are_storable()
    ensures
        forall|device: DeviceType| storable(#[trigger] device.name()),
{
    reveal_strlit("desktop");
    reveal_strlit("mobile");
    reveal_strlit("tablet");
    reveal_strlit("bot");
    reveal_strlit("unknown");
    assert forall|device: DeviceType| storable(#[trigger] device.name()) by {
        assert(is_visible(device.name()));
        lemma_visible_is_storable(device.name());
    }
}

/// Forwarding drops nothing that can be stored: each field of a
/// context that can be stored as a header value stands under its name
/// in the map that the context was written into, whatever the map held
/// before.
pub proof fn forwarding_writes_what_can_be_stored(base: Entries, ctx: ContextView)
    ensures
        ({
            let out = forwarded(base, ctx);
            &&& storable(ctx.client_ip) ==> carries(out, X_FORWARDED_FOR@, ctx.client_ip)
                && carries(out, X_REAL_IP@, ctx.client_ip)
            &&& storable(ctx.request_id) ==> carries(out, X_REQUEST_ID@, ctx.request_id)
            &&& storable(ctx.device_type.name()) ==> carries(
                out,
                X_DEVICE_TYPE@,
                ctx.device_type.name(),
            )
            &&& ctx.user_agent is Some && storable(ctx.user_agent->0) ==> carries(
                out,
                X_USER_AGENT@,
                ctx.user_agent->0,
            )
            &&& ctx.accept_language is Some && storable(ctx.accept_language->0) ==> carries(
                out,
                X_ACCEPT_LANGUAGE@,
                ctx.accept_language->0,
            )
            &&& ctx.host is Some && storable(ctx.host->0) ==> carries(
                out,
                X_FORWARDED_HOST@,
                ctx.host->0,
            )
            &&& storable(ctx.protocol) ==> carries(out, X_FORWARDED_PROTO@, ctx.protocol)
            &&& storable(decimal(ctx.timestamp)) ==> carries(
                out,
                X_GATEWAY_TIMESTAMP@,
                decimal(ctx.timestamp),
            )
        }),
{
    lemma_forwarding_names_differ();
    let names = forwarding_names();
    assert(names[0] == X_FORWARDED_FOR@ && names[1] == X_REAL_IP@ && names[2] == X_REQUEST_ID@
        && names[3] == X_DEVICE_TYPE@ && names[4] == X_USER_AGENT@ && names[5]
        == X_ACCEPT_LANGUAGE@ && names[6] == X_FORWARDED_HOST@ && names[7] == X_FORWARDED_PROTO@
        && names[8] == X_GATEWAY_TIMESTAMP@);
}

/// Forwarding touches the nine forwarding headers only: under every
/// other name the map holds what it held before.
pub proof fn forwarding_leaves_other_headers(base: Entries, ctx: ContextView, name: Seq<char>)
    requires
        !forwarding_names().contains(name),
    ensures
        forwarded(base, ctx).contains_key(name) == base.contains_key(name),
        base.contains_key(name) ==> forwarded(base, ctx)[name] == base[name],
{
    let names = forwarding_names();
    assert(names[0] == X_FORWARDED_FOR@ && names[1] == X_REAL_IP@ && names[2] == X_REQUEST_ID@
        && names[3] == X_DEVICE_TYPE@ && names[4] == X_USER_AGENT@ && names[5]
        == X_ACCEPT_LANGUAGE@ && names[6] == X_FORWARDED_HOST@ && names[7] == X_FORWARDED_PROTO@
        && names[8] == X_GATEWAY_TIMESTAMP@);
}

/// A context that was derived from headers survives forwarding: the
/// forwarding headers carry its client address (twice), correlation
/// id, device category, protocol and time stamp in every case, and its
/// user agent, language and host exactly where the context has them.
pub proof fn context_survives_forwarding(
    entries: Entries,
    peer_ip: Option<Seq<char>>,
    request_id: Seq<char>,
    timestamp: int,
)
    requires
        peer_ip is Some ==> storable(peer_ip->0),
        is_request_id_for(entries, request_id),
    ensures
        ({
            let ctx = built_context(entries, peer_ip, request_id, timestamp);
            let out = forwarded(Entries::empty(), ctx);
            &&& carries(out, X_FORWARDED_FOR@, ctx.client_ip)
            &&& carries(out, X_REAL_IP@, ctx.client_ip)
            &&& carries(out, X_REQUEST_ID@, ctx.request_id)
            &&& carries(out, X_DEVICE_TYPE@, ctx.device_type.name())
            &&& carries_if_present(out, X_USER_AGENT@, ctx.user_agent)
            &&& carries_if_present(out, X_ACCEPT_LANGUAGE@, ctx.accept_language)
            &&& carries_if_present(out, X_FORWARDED_HOST@, ctx.host)
            &&& carries(out, X_FORWARDED_PROTO@, ctx.protocol)
            &&& carries(out, X_GATEWAY_TIMESTAMP@, decimal(ctx.timestamp))
        }),
{
    let ctx = built_context(entries, peer_ip, request_id, timestamp);
    built_context_is_storable(entries, peer_ip, request_id, timestamp);
    forwarding_writes_what_can_be_stored(Entries::empty(), ctx);
    lemma_forwarding_names_differ();
    let names = forwarding_names();
    assert(names[0] == X_FORWARDED_FOR@ && names[1] == X_REAL_IP@ && names[2] == X_REQUEST_ID@
        && names[3] == X_DEVICE_TYPE@ && names[4] == X_USER_AGENT@ && names[5]
        == X_ACCEPT_LANGUAGE@ && names[6] == X_FORWARDED_HOST@ && names[7] == X_FORWARDED_PROTO@
        && names[8] == X_GATEWAY_TIMESTAMP@);
}

} // verus!
