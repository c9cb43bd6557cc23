use vstd::prelude::*;
use vstd::string::*;
use vstd::pervasive::VecAdditionalExecFns;
use crate::json::{JsonV, JsonValue, view_obj, render, encode};
use crate::types::ClientIdentifier;
use crate::client::{CustomClient, CustomV, enc_custom};
use crate::schema::{push_member, opt_member, enc_map_ss, enc_map_sl, enc_str_list, j_str, j_str_list, j_map_ss, j_map_sl};

verus! {

/// Transport tuning knobs, always written in full when present, under their
/// exact snake_case wire keys.
#[derive(Debug, Clone, Copy)]
pub struct TransportOptions {
    pub disable_keep_alives: bool,
    pub disable_compression: bool,
    pub max_idle_conns: u32,
    pub max_idle_conns_per_host: u32,
    pub max_conns_per_host: u32,
    pub max_response_header_bytes: u32,
    pub write_buffer_size: u32,
    pub read_buffer_size: u32,
    pub idle_conn_timeout: u32,
}

impl View for TransportOptions {
    type V = TransportOptions;

    open spec fn view(&self) -> TransportOptions {
        *self
    }
}

/// The member list of the transport options object, in declaration order.
pub open spec fn transport_members(t: TransportOptions) -> Seq<(Seq<char>, JsonV)> {
    seq![
        ("disable_keep_alives"@, JsonV::Bool(t.disable_keep_alives)),
        ("disable_compression"@, JsonV::Bool(t.disable_compression)),
        ("max_idle_conns"@, JsonV::UInt(t.max_idle_conns as nat)),
        ("max_idle_conns_per_host"@, JsonV::UInt(t.max_idle_conns_per_host as nat)),
        ("max_conns_per_host"@, JsonV::UInt(t.max_conns_per_host as nat)),
        ("max_response_header_bytes"@, JsonV::UInt(t.max_response_header_bytes as nat)),
        ("write_buffer_size"@, JsonV::UInt(t.write_buffer_size as nat)),
        ("read_buffer_size"@, JsonV::UInt(t.read_buffer_size as nat)),
        ("idle_conn_timeout"@, JsonV::UInt(t.idle_conn_timeout as nat)),
    ]
}

pub open spec fn enc_transport(t: TransportOptions) -> JsonV {
    JsonV::Obj(transport_members(t))
}

impl TransportOptions {
    /// The exact wire object for these transport options.
    pub fn to_json(&self) -> (r: JsonValue)
        ensures
            r@ == enc_transport(*self),
    {
        let mut members: Vec<(String, JsonValue)> = Vec::new();
        push_member(&mut members, "disable_keep_alives", JsonValue::Bool(self.disable_keep_alives));
        push_member(&mut members, "disable_compression", JsonValue::Bool(self.disable_compression));
        push_member(&mut members, "max_idle_conns", JsonValue::UInt(self.max_idle_conns as u64));
        push_member(&mut members, "max_idle_conns_per_host", JsonValue::UInt(self.max_idle_conns_per_host as u64));
        push_member(&mut members, "max_conns_per_host", JsonValue::UInt(self.max_conns_per_host as u64));
        push_member(&mut members, "max_response_header_bytes", JsonValue::UInt(self.max_response_header_bytes as u64));
        push_member(&mut members, "write_buffer_size", JsonValue::UInt(self.write_buffer_size as u64));
        push_member(&mut members, "read_buffer_size", JsonValue::UInt(self.read_buffer_size as u64));
        push_member(&mut members, "idle_conn_timeout", JsonValue::UInt(self.idle_conn_timeout as u64));
        proof {
            assert(view_obj(members@) =~= transport_members(*self));
        }
        JsonValue::Obj(members)
    }
}

impl Default for TransportOptions {
    /// All knobs at their zero values.
    fn default() -> (r: Self)
        ensures
            r.disable_keep_alives == false,
            r.disable_compression == false,
            r.max_idle_conns == 0,
            r.max_idle_conns_per_host == 0,
            r.max_conns_per_host == 0,
            r.max_response_header_bytes == 0,
            r.write_buffer_size == 0,
            r.read_buffer_size == 0,
            r.idle_conn_timeout == 0,
    {
        TransportOptions {
            disable_keep_alives: false,
            disable_compression: false,
            max_idle_conns: 0,
            max_idle_conns_per_host: 0,
            max_conns_per_host: 0,
            max_response_header_bytes: 0,
            write_buffer_size: 0,
            read_buffer_size: 0,
            idle_conn_timeout: 0,
        }
    }
}

/// One HTTP call as handed to the native engine: a flat record of optional
/// fields; absent fields are left off the wire entirely.
#[derive(Debug)]
pub struct RequestPayload {
    pub(crate) catch_panics: Option<bool>,
    pub(crate) certificate_pinning_hosts: Option<Vec<(String, String)>>,
    pub(crate) custom_tls_client: Option<CustomClient>,
    pub(crate) transport_options: Option<TransportOptions>,
    pub(crate) follow_redirects: Option<bool>,
    pub(crate) force_http_1: Option<bool>,
    pub(crate) header_order: Option<Vec<String>>,
    pub(crate) headers: Option<Vec<(String, String)>>,
    pub(crate) insecure_skip_verify: Option<bool>,
    pub(crate) is_byte_request: Option<bool>,
    pub(crate) is_byte_response: Option<bool>,
    pub(crate) is_rotating_proxy: Option<bool>,
    pub(crate) proxy_url: Option<String>,
    pub(crate) request_body: Option<String>,
    pub(crate) request_cookies: Option<Vec<String>>,
    pub(crate) default_headers: Option<Vec<(String, Vec<String>)>>,
    pub(crate) request_method: Option<String>,
    pub(crate) request_url: Option<String>,
    pub(crate) disable_ipv6: Option<bool>,
    pub(crate) local_address: Option<String>,
    pub(crate) session_id: Option<String>,
    pub(crate) server_name_overwrite: Option<String>,
    pub(crate) stream_output_block_size: Option<u32>,
    pub(crate) stream_output_e_o_f_symbol: Option<String>,
    pub(crate) stream_output_path: Option<String>,
    pub(crate) timeout_milliseconds: Option<u32>,
    pub(crate) timeout_seconds: Option<u32>,
    pub(crate) tls_client_identifier: Option<ClientIdentifier>,
    pub(crate) with_debug: Option<bool>,
    pub(crate) with_default_cookie_jar: Option<bool>,
    pub(crate) without_cookie_jar: Option<bool>,
    pub(crate) with_random_tls_extension_order: Option<bool>,
}

/// Mathematical view of a request descriptor.
pub ghost struct PayloadV {
    pub catch_panics: Option<bool>,
    pub certificate_pinning_hosts: Option<Seq<(Seq<char>, Seq<char>)>>,
    pub custom_tls_client: Option<CustomV>,
    pub transport_options: Option<TransportOptions>,
    pub follow_redirects: Option<bool>,
    pub force_http_1: Option<bool>,
    pub header_order: Option<Seq<Seq<char>>>,
    pub headers: Option<Seq<(Seq<char>, Seq<char>)>>,
    pub insecure_skip_verify: Option<bool>,
    pub is_byte_request: Option<bool>,
    pub is_byte_response: Option<bool>,
    pub is_rotating_proxy: Option<bool>,
    pub proxy_url: Option<Seq<char>>,
    pub request_body: Option<Seq<char>>,
    pub request_cookies: Option<Seq<Seq<char>>>,
    pub default_headers: Option<Seq<(Seq<char>, Seq<Seq<char>>)>>,
    pub request_method: Option<Seq<char>>,
    pub request_url: Option<Seq<char>>,
    pub disable_ipv6: Option<bool>,
    pub local_address: Option<Seq<char>>,
    pub session_id: Option<Seq<char>>,
    pub server_name_overwrite: Option<Seq<char>>,
    pub stream_output_block_size: Option<u32>,
    pub stream_output_e_o_f_symbol: Option<Seq<char>>,
    pub stream_output_path: Option<Seq<char>>,
    pub timeout_milliseconds: Option<u32>,
    pub timeout_seconds: Option<u32>,
    pub tls_client_identifier: Option<ClientIdentifier>,
    pub with_debug: Option<bool>,
    pub with_default_cookie_jar: Option<bool>,
    pub without_cookie_jar: Option<bool>,
    pub with_random_tls_extension_order: Option<bool>,
}

impl View for RequestPayload {
    type V = PayloadV;

    closed spec fn view(&self) -> PayloadV {
        PayloadV {
            catch_panics: self.catch_panics,
            certificate_pinning_hosts: self.certificate_pinning_hosts.deep_view(),
            custom_tls_client: (match self.custom_tls_client { Option::Some(c) => Option::Some(c@), Option::None => Option::None }),
            transport_options: self.transport_options,
            follow_redirects: self.follow_redirects,
            force_http_1: self.force_http_1,
            header_order: self.header_order.deep_view(),
            headers: self.headers.deep_view(),
            insecure_skip_verify: self.insecure_skip_verify,
            is_byte_request: self.is_byte_request,
            is_byte_response: self.is_byte_response,
            is_rotating_proxy: self.is_rotating_proxy,
            proxy_url: self.proxy_url.deep_view(),
            request_body: self.request_body.deep_view(),
            request_cookies: self.request_cookies.deep_view(),
            default_headers: self.default_headers.deep_view(),
            request_method: self.request_method.deep_view(),
            request_url: self.request_url.deep_view(),
            disable_ipv6: self.disable_ipv6,
            local_address: self.local_address.deep_view(),
            session_id: self.session_id.deep_view(),
            server_name_overwrite: self.server_name_overwrite.deep_view(),
            stream_output_block_size: self.stream_output_block_size,
            stream_output_e_o_f_symbol: self.stream_output_e_o_f_symbol.deep_view(),
            stream_output_path: self.stream_output_path.deep_view(),
            timeout_milliseconds: self.timeout_milliseconds,
            timeout_seconds: self.timeout_seconds,
            tls_client_identifier: self.tls_client_identifier,
            with_debug: self.with_debug,
            with_default_cookie_jar: self.with_default_cookie_jar,
            without_cookie_jar: self.without_cookie_jar,
            with_random_tls_extension_order: self.with_random_tls_extension_order,
        }
    }
}

pub open spec fn seg_rp_catch_panics(p: PayloadV) -> Seq<(Seq<char>, JsonV)> {
    opt_member("catchPanics"@, match p.catch_panics { Option::Some(x) => Option::Some(JsonV::Bool(x)), Option::None => Option::None })
}

pub open spec fn seg_rp_certificate_pinning_hosts(p: PayloadV) -> Seq<(Seq<char>, JsonV)> {
    opt_member("certificatePinningHosts"@, match p.certificate_pinning_hosts { Option::Some(x) => Option::Some(enc_map_ss(x)), Option::None => Option::None })
}

pub open spec fn seg_rp_custom_tls_client(p: PayloadV) -> Seq<(Seq<char>, JsonV)> {
    opt_member("customTlsClient"@, match p.custom_tls_client { Option::Some(x) => Option::Some(enc_custom(x)), Option::None => Option::None })
}

pub open spec fn seg_rp_transport_options(p: PayloadV) -> Seq<(Seq<char>, JsonV)> {
    opt_member("transportOptions"@, match p.transport_options { Option::Some(x) => Option::Some(enc_transport(x)), Option::None => Option::None })
}

pub open spec fn seg_rp_follow_redirects(p: PayloadV) -> Seq<(Seq<char>, JsonV)> {
    opt_member("followRedirects"@, match p.follow_redirects { Option::Some(x) => Option::Some(JsonV::Bool(x)), Option::None => Option::None })
}

pub open spec fn seg_rp_force_http_1(p: PayloadV) -> Seq<(Seq<char>, JsonV)> {
    opt_member("forceHttp1"@, match p.force_http_1 { Option::Some(x) => Option::Some(JsonV::Bool(x)), Option::None => Option::None })
}

pub open spec fn seg_rp_header_order(p: PayloadV) -> Seq<(Seq<char>, JsonV)> {
    opt_member("headerOrder"@, match p.header_order { Option::Some(x) => Option::Some(enc_str_list(x)), Option::None => Option::None })
}

pub open spec fn seg_rp_headers(p: PayloadV) -> Seq<(Seq<char>, JsonV)> {
    opt_member("headers"@, match p.headers { Option::Some(x) => Option::Some(enc_map_ss(x)), Option::None => Option::None })
}

pub open spec fn seg_rp_insecure_skip_verify(p: PayloadV) -> Seq<(Seq<char>, JsonV)> {
    opt_member("insecureSkipVerify"@, match p.insecure_skip_verify { Option::Some(x) => Option::Some(JsonV::Bool(x)), Option::None => Option::None })
}

pub open spec fn seg_rp_is_byte_request(p: PayloadV) -> Seq<(Seq<char>, JsonV)> {
    opt_member("isByteRequest"@, match p.is_byte_request { Option::Some(x) => Option::Some(JsonV::Bool(x)), Option::None => Option::None })
}

pub open spec fn seg_rp_is_byte_response(p: PayloadV) -> Seq<(Seq<char>, JsonV)> {
    opt_member("isByteResponse"@, match p.is_byte_response { Option::Some(x) => Option::Some(JsonV::Bool(x)), Option::None => Option::None })
}

pub open spec fn seg_rp_is_rotating_proxy(p: PayloadV) -> Seq<(Seq<char>, JsonV)> {
    opt_member("isRotatingProxy"@, match p.is_rotating_proxy { Option::Some(x) => Option::Some(JsonV::Bool(x)), Option::None => Option::None })
}

pub open spec fn seg_rp_proxy_url(p: PayloadV) -> Seq<(Seq<char>, JsonV)> {
    opt_member("proxyUrl"@, match p.proxy_url { Option::Some(x) => Option::Some(JsonV::Str(x)), Option::None => Option::None })
}

pub open spec fn seg_rp_request_body(p: PayloadV) -> Seq<(Seq<char>, JsonV)> {
    opt_member("requestBody"@, match p.request_body { Option::Some(x) => Option::Some(JsonV::Str(x)), Option::None => Option::None })
}

pub open spec fn seg_rp_request_cookies(p: PayloadV) -> Seq<(Seq<char>, JsonV)> {
    opt_member("requestCookies"@, match p.request_cookies { Option::Some(x) => Option::Some(enc_str_list(x)), Option::None => Option::None })
}

pub open spec fn seg_rp_default_headers(p: PayloadV) -> Seq<(Seq<char>, JsonV)> {
    opt_member("defaultHeaders"@, match p.default_headers { Option::Some(x) => Option::Some(enc_map_sl(x)), Option::None => Option::None })
}

pub open spec fn seg_rp_request_method(p: PayloadV) -> Seq<(Seq<char>, JsonV)> {
    opt_member("requestMethod"@, match p.request_method { Option::Some(x) => Option::Some(JsonV::Str(x)), Option::None => Option::None })
}

pub open spec fn seg_rp_request_url(p: PayloadV) -> Seq<(Seq<char>, JsonV)> {
    opt_member("requestUrl"@, match p.request_url { Option::Some(x) => Option::Some(JsonV::Str(x)), Option::None => Option::None })
}

pub open spec fn seg_rp_disable_ipv6(p: PayloadV) -> Seq<(Seq<char>, JsonV)> {
    opt_member("disableIPV6"@, match p.disable_ipv6 { Option::Some(x) => Option::Some(JsonV::Bool(x)), Option::None => Option::None })
}

pub open spec fn seg_rp_local_address(p: PayloadV) -> Seq<(Seq<char>, JsonV)> {
    opt_member("localAddress"@, match p.local_address { Option::Some(x) => Option::Some(JsonV::Str(x)), Option::None => Option::None })
}

pub open spec fn seg_rp_session_id(p: PayloadV) -> Seq<(Seq<char>, JsonV)> {
    opt_member("sessionId"@, match p.session_id { Option::Some(x) => Option::Some(JsonV::Str(x)), Option::None => Option::None })
}

pub open spec fn seg_rp_server_name_overwrite(p: PayloadV) -> Seq<(Seq<char>, JsonV)> {
    opt_member("serverNameOverwrite"@, match p.server_name_overwrite { Option::Some(x) => Option::Some(JsonV::Str(x)), Option::None => Option::None })
}

pub open spec fn seg_rp_stream_output_block_size(p: PayloadV) -> Seq<(Seq<char>, JsonV)> {
    opt_member("streamOutputBlockSize"@, match p.stream_output_block_size { Option::Some(x) => Option::Some(JsonV::UInt(x as nat)), Option::None => Option::None })
}

pub open spec fn seg_rp_stream_output_e_o_f_symbol(p: PayloadV) -> Seq<(Seq<char>, JsonV)> {
    opt_member("streamOutputEOFSymbol"@, match p.stream_output_e_o_f_symbol { Option::Some(x) => Option::Some(JsonV::Str(x)), Option::None => Option::None })
}

pub open spec fn seg_rp_stream_output_path(p: PayloadV) -> Seq<(Seq<char>, JsonV)> {
    opt_member("streamOutputPath"@, match p.stream_output_path { Option::Some(x) => Option::Some(JsonV::Str(x)), Option::None => Option::None })
}

pub open spec fn seg_rp_timeout_milliseconds(p: PayloadV) -> Seq<(Seq<char>, JsonV)> {
    opt_member("timeoutMilliseconds"@, match p.timeout_milliseconds { Option::Some(x) => Option::Some(JsonV::UInt(x as nat)), Option::None => Option::None })
}

pub open spec fn seg_rp_timeout_seconds(p: PayloadV) -> Seq<(Seq<char>, JsonV)> {
    opt_member("timeoutSeconds"@, match p.timeout_seconds { Option::Some(x) => Option::Some(JsonV::UInt(x as nat)), Option::None => Option::None })
}

pub open spec fn seg_rp_tls_client_identifier(p: PayloadV) -> Seq<(Seq<char>, JsonV)> {
    opt_member("tlsClientIdentifier"@, match p.tls_client_identifier { Option::Some(x) => Option::Some(JsonV::Str(x.wire_spec())), Option::None => Option::None })
}

pub open spec fn seg_rp_with_debug(p: PayloadV) -> Seq<(Seq<char>, JsonV)> {
    opt_member("withDebug"@, match p.with_debug { Option::Some(x) => Option::Some(JsonV::Bool(x)), Option::None => Option::None })
}

pub open spec fn seg_rp_with_default_cookie_jar(p: PayloadV) -> Seq<(Seq<char>, JsonV)> {
    opt_member("withDefaultCookieJar"@, match p.with_default_cookie_jar { Option::Some(x) => Option::Some(JsonV::Bool(x)), Option::None => Option::None })
}

pub open spec fn seg_rp_without_cookie_jar(p: PayloadV) -> Seq<(Seq<char>, JsonV)> {
    opt_member("withoutCookieJar"@, match p.without_cookie_jar { Option::Some(x) => Option::Some(JsonV::Bool(x)), Option::None => Option::None })
}

pub open spec fn seg_rp_with_random_tls_extension_order(p: PayloadV) -> Seq<(Seq<char>, JsonV)> {
    opt_member("withRandomTLSExtensionOrder"@, match p.with_random_tls_extension_order { Option::Some(x) => Option::Some(JsonV::Bool(x)), Option::None => Option::None })
}

/// The member list of a request descriptor on the wire: present fields only,
/// in declaration order, under the exact wire keys.
#[verifier::opaque]
pub open spec fn payload_members(p: PayloadV) -> Seq<(Seq<char>, JsonV)> {
    seg_rp_catch_panics(p)
        + seg_rp_certificate_pinning_hosts(p)
        + seg_rp_custom_tls_client(p)
        + seg_rp_transport_options(p)
        + seg_rp_follow_redirects(p)
        + seg_rp_force_http_1(p)
        + seg_rp_header_order(p)
        + seg_rp_headers(p)
        + seg_rp_insecure_skip_verify(p)
        + seg_rp_is_byte_request(p)
        + seg_rp_is_byte_response(p)
        + seg_rp_is_rotating_proxy(p)
        + seg_rp_proxy_url(p)
        + seg_rp_request_body(p)
        + seg_rp_request_cookies(p)
        + seg_rp_default_headers(p)
        + seg_rp_request_method(p)
        + seg_rp_request_url(p)
        + seg_rp_disable_ipv6(p)
        + seg_rp_local_address(p)
        + seg_rp_session_id(p)
        + seg_rp_server_name_overwrite(p)
        + seg_rp_stream_output_block_size(p)
        + seg_rp_stream_output_e_o_f_symbol(p)
        + seg_rp_stream_output_path(p)
        + seg_rp_timeout_milliseconds(p)
        + seg_rp_timeout_seconds(p)
        + seg_rp_tls_client_identifier(p)
        + seg_rp_with_debug(p)
        + seg_rp_with_default_cookie_jar(p)
        + seg_rp_without_cookie_jar(p)
        + seg_rp_with_random_tls_extension_order(p)
}


/// The all-absent descriptor view.
pub open spec fn payload_none_v() -> PayloadV {
    PayloadV {
        catch_panics: None,
        certificate_pinning_hosts: None,
        custom_tls_client: None,
        transport_options: None,
        follow_redirects: None,
        force_http_1: None,
        header_order: None,
        headers: None,
        insecure_skip_verify: None,
        is_byte_request: None,
        is_byte_response: None,
        is_rotating_proxy: None,
        proxy_url: None,
        request_body: None,
        request_cookies: None,
        default_headers: None,
        request_method: None,
        request_url: None,
        disable_ipv6: None,
        local_address: None,
        session_id: None,
        server_name_overwrite: None,
        stream_output_block_size: None,
        stream_output_e_o_f_symbol: None,
        stream_output_path: None,
        timeout_milliseconds: None,
        timeout_seconds: None,
        tls_client_identifier: None,
        with_debug: None,
        with_default_cookie_jar: None,
        without_cookie_jar: None,
        with_random_tls_extension_order: None,
    }
}

pub open spec fn enc_payload(p: PayloadV) -> JsonV {
    JsonV::Obj(payload_members(p))
}

fn enc_payload_part1(p: &RequestPayload, members: &mut Vec<(String, JsonValue)>)
    ensures
        view_obj(final(members)@) == view_obj(old(members)@) + seg_rp_catch_panics(p@) + seg_rp_certificate_pinning_hosts(p@) + seg_rp_custom_tls_client(p@) + seg_rp_transport_options(p@),
{
    match &p.catch_panics {
        Some(v) => { push_member(members, "catchPanics", JsonValue::Bool(*v)); },
        None => {},
    }
    assert(view_obj(members@) =~= view_obj(old(members)@) + seg_rp_catch_panics(p@));
    match &p.certificate_pinning_hosts {
        Some(v) => { push_member(members, "certificatePinningHosts", j_map_ss(v)); },
        None => {},
    }
    assert(view_obj(members@) =~= view_obj(old(members)@) + seg_rp_catch_panics(p@) + seg_rp_certificate_pinning_hosts(p@));
    match &p.custom_tls_client {
        Some(v) => { push_member(members, "customTlsClient", v.to_json()); },
        None => {},
    }
    assert(view_obj(members@) =~= view_obj(old(members)@) + seg_rp_catch_panics(p@) + seg_rp_certificate_pinning_hosts(p@) + seg_rp_custom_tls_client(p@));
    match &p.transport_options {
        Some(v) => { push_member(members, "transportOptions", v.to_json()); },
        None => {},
    }
    assert(view_obj(members@) =~= view_obj(old(members)@) + seg_rp_catch_panics(p@) + seg_rp_certificate_pinning_hosts(p@) + seg_rp_custom_tls_client(p@) + seg_rp_transport_options(p@));
}

fn enc_payload_part2(p: &RequestPayload, members: &mut Vec<(String, JsonValue)>)
    ensures
        view_obj(final(members)@) == view_obj(old(members)@) + seg_rp_follow_redirects(p@) + seg_rp_force_http_1(p@) + seg_rp_header_order(p@) + seg_rp_headers(p@),
{
    match &p.follow_redirects {
        Some(v) => { push_member(members, "followRedirects", JsonValue::Bool(*v)); },
        None => {},
    }
    assert(view_obj(members@) =~= view_obj(old(members)@) + seg_rp_follow_redirects(p@));
    match &p.force_http_1 {
        Some(v) => { push_member(members, "forceHttp1", JsonValue::Bool(*v)); },
        None => {},
    }
    assert(view_obj(members@) =~= view_obj(old(members)@) + seg_rp_follow_redirects(p@) + seg_rp_force_http_1(p@));
    match &p.header_order {
        Some(v) => { push_member(members, "headerOrder", j_str_list(v)); },
        None => {},
    }
    assert(view_obj(members@) =~= view_obj(old(members)@) + seg_rp_follow_redirects(p@) + seg_rp_force_http_1(p@) + seg_rp_header_order(p@));
    match &p.headers {
        Some(v) => { push_member(members, "headers", j_map_ss(v)); },
        None => {},
    }
    assert(view_obj(members@) =~= view_obj(old(members)@) + seg_rp_follow_redirects(p@) + seg_rp_force_http_1(p@) + seg_rp_header_order(p@) + seg_rp_headers(p@));
}

fn enc_payload_part3(p: &RequestPayload, members: &mut Vec<(String, JsonValue)>)
    ensures
        view_obj(final(members)@) == view_obj(old(members)@) + seg_rp_insecure_skip_verify(p@) + seg_rp_is_byte_request(p@) + seg_rp_is_byte_response(p@) + seg_rp_is_rotating_proxy(p@),
{
    match &p.insecure_skip_verify {
        Some(v) => { push_member(members, "insecureSkipVerify", JsonValue::Bool(*v)); },
        None => {},
    }
    assert(view_obj(members@) =~= view_obj(old(members)@) + seg_rp_insecure_skip_verify(p@));
    match &p.is_byte_request {
        Some(v) => { push_member(members, "isByteRequest", JsonValue::Bool(*v)); },
        None => {},
    }
    assert(view_obj(members@) =~= view_obj(old(members)@) + seg_rp_insecure_skip_verify(p@) + seg_rp_is_byte_request(p@));
    match &p.is_byte_response {
        Some(v) => { push_member(members, "isByteResponse", JsonValue::Bool(*v)); },
        None => {},
    }
    assert(view_obj(members@) =~= view_obj(old(members)@) + seg_rp_insecure_skip_verify(p@) + seg_rp_is_byte_request(p@) + seg_rp_is_byte_response(p@));
    match &p.is_rotating_proxy {
        Some(v) => { push_member(members, "isRotatingProxy", JsonValue::Bool(*v)); },
        None => {},
    }
    assert(view_obj(members@) =~= view_obj(old(members)@) + seg_rp_insecure_skip_verify(p@) + seg_rp_is_byte_request(p@) + seg_rp_is_byte_response(p@) + seg_rp_is_rotating_proxy(p@));
}

fn enc_payload_part4(p: &RequestPayload, members: &mut Vec<(String, JsonValue)>)
    ensures
        view_obj(final(members)@) == view_obj(old(members)@) + seg_rp_proxy_url(p@) + seg_rp_request_body(p@) + seg_rp_request_cookies(p@) + seg_rp_default_headers(p@),
{
    match &p.proxy_url {
        Some(v) => { push_member(members, "proxyUrl", j_str(v)); },
        None => {},
    }
    assert(view_obj(members@) =~= view_obj(old(members)@) + seg_rp_proxy_url(p@));
    match &p.request_body {
        Some(v) => { push_member(members, "requestBody", j_str(v)); },
        None => {},
    }
    assert(view_obj(members@) =~= view_obj(old(members)@) + seg_rp_proxy_url(p@) + seg_rp_request_body(p@));
    match &p.request_cookies {
        Some(v) => { push_member(members, "requestCookies", j_str_list(v)); },
        None => {},
    }
    assert(view_obj(members@) =~= view_obj(old(members)@) + seg_rp_proxy_url(p@) + seg_rp_request_body(p@) + seg_rp_request_cookies(p@));
    match &p.default_headers {
        Some(v) => { push_member(members, "defaultHeaders", j_map_sl(v)); },
        None => {},
    }
    assert(view_obj(members@) =~= view_obj(old(members)@) + seg_rp_proxy_url(p@) + seg_rp_request_body(p@) + seg_rp_request_cookies(p@) + seg_rp_default_headers(p@));
}

fn enc_payload_part5(p: &RequestPayload, members: &mut Vec<(String, JsonValue)>)
    ensures
        view_obj(final(members)@) == view_obj(old(members)@) + seg_rp_request_method(p@) + seg_rp_request_url(p@) + seg_rp_disable_ipv6(p@) + seg_rp_local_address(p@),
{
    match &p.request_method {
        Some(v) => { push_member(members, "requestMethod", j_str(v)); },
        None => {},
    }
    assert(view_obj(members@) =~= view_obj(old(members)@) + seg_rp_request_method(p@));
    match &p.request_url {
        Some(v) => { push_member(members, "requestUrl", j_str(v)); },
        None => {},
    }
    assert(view_obj(members@) =~= view_obj(old(members)@) + seg_rp_request_method(p@) + seg_rp_request_url(p@));
    match &p.disable_ipv6 {
        Some(v) => { push_member(members, "disableIPV6", JsonValue::Bool(*v)); },
        None => {},
    }
    assert(view_obj(members@) =~= view_obj(old(members)@) + seg_rp_request_method(p@) + seg_rp_request_url(p@) + seg_rp_disable_ipv6(p@));
    match &p.local_address {
        Some(v) => { push_member(members, "localAddress", j_str(v)); },
        None => {},
    }
    assert(view_obj(members@) =~= view_obj(old(members)@) + seg_rp_request_method(p@) + seg_rp_request_url(p@) + seg_rp_disable_ipv6(p@) + seg_rp_local_address(p@));
}

fn enc_payload_part6(p: &RequestPayload, members: &mut Vec<(String, JsonValue)>)
    ensures
        view_obj(final(members)@) == view_obj(old(members)@) + seg_rp_session_id(p@) + seg_rp_server_name_overwrite(p@) + seg_rp_stream_output_block_size(p@) + seg_rp_stream_output_e_o_f_symbol(p@),
{
    match &p.session_id {
        Some(v) => { push_member(members, "sessionId", j_str(v)); },
        None => {},
    }
    assert(view_obj(members@) =~= view_obj(old(members)@) + seg_rp_session_id(p@));
    match &p.server_name_overwrite {
        Some(v) => { push_member(members, "serverNameOverwrite", j_str(v)); },
        None => {},
    }
    assert(view_obj(members@) =~= view_obj(old(members)@) + seg_rp_session_id(p@) + seg_rp_server_name_overwrite(p@));
    match &p.stream_output_block_size {
        Some(v) => { push_member(members, "streamOutputBlockSize", JsonValue::UInt(*v as u64)); },
        None => {},
    }
    assert(view_obj(members@) =~= view_obj(old(members)@) + seg_rp_session_id(p@) + seg_rp_server_name_overwrite(p@) + seg_rp_stream_output_block_size(p@));
    match &p.stream_output_e_o_f_symbol {
        Some(v) => { push_member(members, "streamOutputEOFSymbol", j_str(v)); },
        None => {},
    }
    assert(view_obj(members@) =~= view_obj(old(members)@) + seg_rp_session_id(p@) + seg_rp_server_name_overwrite(p@) + seg_rp_stream_output_block_size(p@) + seg_rp_stream_output_e_o_f_symbol(p@));
}

fn enc_payload_part7(p: &RequestPayload, members: &mut Vec<(String, JsonValue)>)
    ensures
        view_obj(final(members)@) == view_obj(old(members)@) + seg_rp_stream_output_path(p@) + seg_rp_timeout_milliseconds(p@) + seg_rp_timeout_seconds(p@) + seg_rp_tls_client_identifier(p@),
{
    match &p.stream_output_path {
        Some(v) => { push_member(members, "streamOutputPath", j_str(v)); },
        None => {},
    }
    assert(view_obj(members@) =~= view_obj(old(members)@) + seg_rp_stream_output_path(p@));
    match &p.timeout_milliseconds {
        Some(v) => { push_member(members, "timeoutMilliseconds", JsonValue::UInt(*v as u64)); },
        None => {},
    }
    assert(view_obj(members@) =~= view_obj(old(members)@) + seg_rp_stream_output_path(p@) + seg_rp_timeout_milliseconds(p@));
    match &p.timeout_seconds {
        Some(v) => { push_member(members, "timeoutSeconds", JsonValue::UInt(*v as u64)); },
        None => {},
    }
    assert(view_obj(members@) =~= view_obj(old(members)@) + seg_rp_stream_output_path(p@) + seg_rp_timeout_milliseconds(p@) + seg_rp_timeout_seconds(p@));
    match &p.tls_client_identifier {
        Some(v) => { push_member(members, "tlsClientIdentifier", JsonValue::Str(v.wire_name().to_owned())); },
        None => {},
    }
    assert(view_obj(members@) =~= view_obj(old(members)@) + seg_rp_stream_output_path(p@) + seg_rp_timeout_milliseconds(p@) + seg_rp_timeout_seconds(p@) + seg_rp_tls_client_identifier(p@));
}

fn enc_payload_part8(p: &RequestPayload, members: &mut Vec<(String, JsonValue)>)
    ensures
        view_obj(final(members)@) == view_obj(old(members)@) + seg_rp_with_debug(p@) + seg_rp_with_default_cookie_jar(p@) + seg_rp_without_cookie_jar(p@) + seg_rp_with_random_tls_extension_order(p@),
{
    match &p.with_debug {
        Some(v) => { push_member(members, "withDebug", JsonValue::Bool(*v)); },
        None => {},
    }
    assert(view_obj(members@) =~= view_obj(old(members)@) + seg_rp_with_debug(p@));
    match &p.with_default_cookie_jar {
        Some(v) => { push_member(members, "withDefaultCookieJar", JsonValue::Bool(*v)); },
        None => {},
    }
    assert(view_obj(members@) =~= view_obj(old(members)@) + seg_rp_with_debug(p@) + seg_rp_with_default_cookie_jar(p@));
    match &p.without_cookie_jar {
        Some(v) => { push_member(members, "withoutCookieJar", JsonValue::Bool(*v)); },
        None => {},
    }
    assert(view_obj(members@) =~= view_obj(old(members)@) + seg_rp_with_debug(p@) + seg_rp_with_default_cookie_jar(p@) + seg_rp_without_cookie_jar(p@));
    match &p.with_random_tls_extension_order {
        Some(v) => { push_member(members, "withRandomTLSExtensionOrder", JsonValue::Bool(*v)); },
        None => {},
    }
    assert(view_obj(members@) =~= view_obj(old(members)@) + seg_rp_with_debug(p@) + seg_rp_with_default_cookie_jar(p@) + seg_rp_without_cookie_jar(p@) + seg_rp_with_random_tls_extension_order(p@));
}


/// The position of the first pair under the key, if any.
pub open spec fn first_key_at(ps: Seq<(Seq<char>, Seq<char>)>, k: Seq<char>, i: int) -> bool {
    0 <= i < ps.len() && ps[i].0 == k && (forall|j: int| 0 <= j < i ==> ps[j].0 != k)
}

/// The pair list with the key bound to the value: the first pair under the
/// key replaced, or a new pair appended when the key is absent.
pub open spec fn put_pair(ps: Seq<(Seq<char>, Seq<char>)>, k: Seq<char>, v: Seq<char>) -> Seq<(Seq<char>, Seq<char>)> {
    if exists|i: int| first_key_at(ps, k, i) {
        ps.update(choose|i: int| first_key_at(ps, k, i), (k, v))
    } else {
        ps.push((k, v))
    }
}

proof fn lemma_first_key_unique(ps: Seq<(Seq<char>, Seq<char>)>, k: Seq<char>, i1: int, i2: int)
    requires
        first_key_at(ps, k, i1),
        first_key_at(ps, k, i2),
    ensures
        i1 == i2,
{
}

#[verifier::loop_isolation(false)]
fn upsert_pair(ps: &mut Vec<(String, String)>, key: &str, value: &str)
    ensures
        final(ps).deep_view() == put_pair(old(ps).deep_view(), key@, value@),
{
    let n: usize = ps.len();
    let mut i: usize = 0;
    while i < n
        invariant
            n == ps@.len(),
            *ps == *old(ps),
            0 <= i <= n,
            forall|j: int| 0 <= j < i ==> ps.deep_view()[j].0 != key@,
        decreases n - i,
    {
        if crate::json::str_eq(ps[i].0.as_str(), key) {
            let ghost gd = ps.deep_view();
            proof {
                assert(first_key_at(gd, key@, i as int));
            }
            ps.set(i, (key.to_owned(), value.to_owned()));
            proof {
                let c = choose|t: int| first_key_at(gd, key@, t);
                lemma_first_key_unique(gd, key@, c, i as int);
                assert(ps.deep_view() =~= gd.update(i as int, (key@, value@)));
            }
            return;
        }
        i = i + 1;
    }
    let ghost gd = ps.deep_view();
    proof {
        assert(forall|t: int| !first_key_at(gd, key@, t));
    }
    ps.push((key.to_owned(), value.to_owned()));
    proof {
        assert(ps.deep_view() =~= gd.push((key@, value@)));
    }
}

impl RequestPayload {

    /// The descriptor a client configuration hands to one call.
    pub(crate) fn for_call(
        custom_tls_client: Option<CustomClient>,
        follow_redirects: bool,
        insecure_skip_verify: bool,
        proxy_url: Option<String>,
        request_method: String,
        request_url: String,
        session_id: String,
        timeout_seconds: u32,
        tls_client_identifier: Option<ClientIdentifier>,
        with_random_tls_extension_order: Option<bool>,
    ) -> (r: RequestPayload)
        ensures
            r@ == (PayloadV {
                custom_tls_client: match custom_tls_client {
                    Option::Some(c) => Option::Some(c@),
                    Option::None => Option::None,
                },
                follow_redirects: Some(follow_redirects),
                insecure_skip_verify: Some(insecure_skip_verify),
                proxy_url: proxy_url.deep_view(),
                request_method: Some(request_method@),
                request_url: Some(request_url@),
                session_id: Some(session_id@),
                timeout_seconds: Some(timeout_seconds),
                tls_client_identifier: tls_client_identifier,
                with_random_tls_extension_order: with_random_tls_extension_order,
                ..payload_none_v()
            }),
    {
        let d = RequestPayload::default();
        RequestPayload {
            custom_tls_client,
            follow_redirects: Some(follow_redirects),
            insecure_skip_verify: Some(insecure_skip_verify),
            proxy_url,
            request_method: Some(request_method),
            request_url: Some(request_url),
            session_id: Some(session_id),
            timeout_seconds: Some(timeout_seconds),
            tls_client_identifier,
            with_random_tls_extension_order,
            ..d
        }
    }

    /// The exact wire object for this descriptor.
    pub fn to_json(&self) -> (r: JsonValue)
        ensures
            r@ == enc_payload(self@),
    {
        let mut members: Vec<(String, JsonValue)> = Vec::new();
        enc_payload_part1(self, &mut members);
        enc_payload_part2(self, &mut members);
        enc_payload_part3(self, &mut members);
        enc_payload_part4(self, &mut members);
        enc_payload_part5(self, &mut members);
        enc_payload_part6(self, &mut members);
        enc_payload_part7(self, &mut members);
        enc_payload_part8(self, &mut members);
        proof {
            reveal(payload_members);
            assert(view_obj(members@) =~= payload_members(self@));
        }
        JsonValue::Obj(members)
    }

    /// The exact byte-for-byte wire string for this descriptor.
    pub fn to_wire(&self) -> (r: String)
        ensures
            r@ == render(enc_payload(self@)),
    {
        let j = self.to_json();
        encode(&j)
    }


    /// Sets a wire-value body and marks the content type accordingly: the
    /// first content-type header is replaced, or one is added.
    pub fn json(self, v: &JsonValue) -> (r: Self)
        ensures
            r@ == (PayloadV {
                headers: Some(put_pair(
                    match self@.headers {
                        Some(h) => h,
                        None => Seq::empty(),
                    },
                    "Content-Type"@,
                    "application/json"@,
                )),
                request_body: Some(render(v@)),
                ..self@
            }),
    {
        let mut s = self;
        let hs_opt = s.headers.take();
        let mut hs: Vec<(String, String)> = match hs_opt {
            Some(h) => h,
            None => Vec::new(),
        };
        proof {
            assert(hs.deep_view() =~= (match self@.headers {
                Some(h) => h,
                None => Seq::empty(),
            }));
        }
        upsert_pair(&mut hs, "Content-Type", "application/json");
        s.headers = Some(hs);
        s.request_body = Some(crate::json::encode(v));
        s
    }

    /// Marks the response body as byte-encoded.
    pub fn byte_response(self) -> (r: Self)
        ensures
            r@ == (PayloadV { is_byte_response: Some(true), ..self@ }),
    {
        RequestPayload { is_byte_response: Some(true), ..self }
    }

    /// Marks the request body as byte-encoded.
    pub fn byte_request(self) -> (r: Self)
        ensures
            r@ == (PayloadV { is_byte_request: Some(true), ..self@ }),
    {
        RequestPayload { is_byte_request: Some(true), ..self }
    }

    /// Replaces the unordered header set. The pairs are written to the wire
    /// exactly as given, in order; a duplicate key reaches the wire twice, so
    /// a caller wanting plain-map behaviour supplies unique keys
    /// (`crate::schema::unique_keys`).
    pub fn headers(self, header_pairs: Vec<(String, String)>) -> (r: Self)
        ensures
            r@ == (PayloadV { headers: Some(header_pairs.deep_view()), ..self@ }),
    {
        RequestPayload { headers: Some(header_pairs), ..self }
    }

    /// Sets the request body.
    pub fn body(self, body: String) -> (r: Self)
        ensures
            r@ == (PayloadV { request_body: Some(body@), ..self@ }),
    {
        RequestPayload { request_body: Some(body), ..self }
    }
}

impl Default for RequestPayload {
    /// The empty descriptor: every field unset.
    fn default() -> (r: Self)
        ensures
            r@ == payload_none_v(),
            r@.catch_panics is None,
            r@.certificate_pinning_hosts is None,
            r@.custom_tls_client is None,
            r@.transport_options is None,
            r@.follow_redirects is None,
            r@.force_http_1 is None,
            r@.header_order is None,
            r@.headers is None,
            r@.insecure_skip_verify is None,
            r@.is_byte_request is None,
            r@.is_byte_response is None,
            r@.is_rotating_proxy is None,
            r@.proxy_url is None,
            r@.request_body is None,
            r@.request_cookies is None,
            r@.default_headers is None,
            r@.request_method is None,
            r@.request_url is None,
            r@.disable_ipv6 is None,
            r@.local_address is None,
            r@.session_id is None,
            r@.server_name_overwrite is None,
            r@.stream_output_block_size is None,
            r@.stream_output_e_o_f_symbol is None,
            r@.stream_output_path is None,
            r@.timeout_milliseconds is None,
            r@.timeout_seconds is None,
            r@.tls_client_identifier is None,
            r@.with_debug is None,
            r@.with_default_cookie_jar is None,
            r@.without_cookie_jar is None,
            r@.with_random_tls_extension_order is None,
    {
        RequestPayload {
            catch_panics: None,
            certificate_pinning_hosts: None,
            custom_tls_client: None,
            transport_options: None,
            follow_redirects: None,
            force_http_1: None,
            header_order: None,
            headers: None,
            insecure_skip_verify: None,
            is_byte_request: None,
            is_byte_response: None,
            is_rotating_proxy: None,
            proxy_url: None,
            request_body: None,
            request_cookies: None,
            default_headers: None,
            request_method: None,
            request_url: None,
            disable_ipv6: None,
            local_address: None,
            session_id: None,
            server_name_overwrite: None,
            stream_output_block_size: None,
            stream_output_e_o_f_symbol: None,
            stream_output_path: None,
            timeout_milliseconds: None,
            timeout_seconds: None,
            tls_client_identifier: None,
            with_debug: None,
            with_default_cookie_jar: None,
            without_cookie_jar: None,
            with_random_tls_extension_order: None,
        }
    }
}

} // verus!
