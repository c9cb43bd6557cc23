use vstd::prelude::*;
use vstd::string::*;
use crate::json::{JsonV, JsonValue, view_obj, view_arr, render, encode, parse_json, trim_spec, json_of};
use crate::response::{RequestResponse, response_of_json, response_from_json};
use crate::schema::push_member;
use crate::TlsClientError;

verus! {

/// Decodes one reply payload from the native side and plans the memory
/// release owed for it. The outcome is the payload grammar's reading of the
/// trimmed payload, both ways: a payload that reads as a well-shaped reply
/// must and does give exactly that reply, and any other payload must and
/// does fail with a protocol violation. On success the second component
/// holds the one identifier the free entry point must be handed — exactly
/// the identifier of the decoded reply; on failure nothing is released,
/// since no identifier was read.
pub fn plan_request_outcome(raw: &str) -> (r: (Result<RequestResponse, TlsClientError>, Option<String>))
    ensures
        r.0 matches Ok(resp) ==> json_of(trim_spec(raw@)) matches Some(j) && response_of_json(j)
            == Some(resp@),
        json_of(trim_spec(raw@)) matches Some(j) ==> response_of_json(j) matches Some(rv) ==> (
        r.0 is Ok && r.0->Ok_0@ == rv),
        r.0 matches Ok(resp) ==> r.1 matches Some(fid) && fid@ == resp@.id,
        r.0 is Err ==> r.1 is None,
        r.0 matches Err(e) ==> e == TlsClientError::ProtocolViolation,
{
    match parse_json(raw) {
        Some(v) => {
            match response_from_json(&v) {
                Some(resp) => {
                    proof {
                        assert(json_of(trim_spec(raw@)) == Some(v@) && response_of_json(v@)
                            == Some(resp@));
                    }
                    let fid = resp.get_id();
                    (Ok(resp), Some(fid))
                },
                None => {
                    proof {
                        assert(json_of(trim_spec(raw@)) == Some(v@));
                        assert(response_of_json(v@) is None);
                    }
                    (Err(TlsClientError::ProtocolViolation), None)
                },
            }
        },
        None => {
            proof {
                assert(json_of(trim_spec(raw@)) is None);
            }
            (Err(TlsClientError::ProtocolViolation), None)
        },
    }
}

/// The payload of a cookie-export call: the session and the target.
pub open spec fn session_url_payload_v(session_id: Seq<char>, url: Seq<char>) -> JsonV {
    JsonV::Obj(
        seq![
            ("sessionId"@, JsonV::Str(session_id)),
            ("url"@, JsonV::Str(url)),
        ],
    )
}

/// The exact byte string handed to the cookie-export entry point.
pub fn export_cookies_payload(session_id: &str, url: &str) -> (r: String)
    ensures
        r@ == render(session_url_payload_v(session_id@, url@)),
{
    let mut members: Vec<(String, JsonValue)> = Vec::new();
    push_member(&mut members, "sessionId", JsonValue::Str(session_id.to_owned()));
    push_member(&mut members, "url", JsonValue::Str(url.to_owned()));
    let v = JsonValue::Obj(members);
    proof {
        assert(view_obj(members@) =~= session_url_payload_v(session_id@, url@)->Obj_0);
    }
    encode(&v)
}

pub open spec fn cookie_items(cookies: Seq<(Seq<char>, Seq<char>)>) -> Seq<JsonV> {
    cookies.map(
        |i: int, c: (Seq<char>, Seq<char>)| JsonV::Obj(
            seq![("name"@, JsonV::Str(c.0)), ("value"@, JsonV::Str(c.1))],
        ),
    )
}

/// The payload of a cookie-import call: the session, the target, and the
/// cookies as name and value pairs, in the given order.
pub open spec fn import_cookies_payload_v(
    session_id: Seq<char>,
    url: Seq<char>,
    cookies: Seq<(Seq<char>, Seq<char>)>,
) -> JsonV {
    JsonV::Obj(
        seq![
            ("sessionId"@, JsonV::Str(session_id)),
            ("url"@, JsonV::Str(url)),
            ("cookies"@, JsonV::Arr(cookie_items(cookies))),
        ],
    )
}

/// The exact byte string handed to the cookie-import entry point.
pub fn import_cookies_payload(session_id: &str, url: &str, cookies: &Vec<(String, String)>) -> (r:
    String)
    ensures
        r@ == render(import_cookies_payload_v(session_id@, url@, cookies.deep_view())),
{
    let mut items: Vec<JsonValue> = Vec::new();
    let n: usize = cookies.len();
    let mut i: usize = 0;
    while i < n
        invariant
            n == cookies@.len(),
            0 <= i <= n,
            view_arr(items@) =~= cookie_items(cookies.deep_view().take(i as int)),
        decreases n - i,
    {
        let mut members: Vec<(String, JsonValue)> = Vec::new();
        push_member(&mut members, "name", JsonValue::Str(cookies[i].0.clone()));
        push_member(&mut members, "value", JsonValue::Str(cookies[i].1.clone()));
        let ghost snap = items@;
        let ghost gm = view_obj(members@);
        let jv = JsonValue::Obj(members);
        let ghost gjv = jv@;
        items.push(jv);
        proof {
            assert(gjv == JsonV::Obj(gm));
            assert(gm =~= seq![
                ("name"@, JsonV::Str(cookies@[i as int].0@)),
                ("value"@, JsonV::Str(cookies@[i as int].1@)),
            ]);
            assert(items@.drop_last() =~= snap);
            assert(view_arr(items@) =~= view_arr(snap).push(gjv));
            assert(cookies.deep_view().take(i + 1) =~= cookies.deep_view().take(i as int).push(
                (cookies@[i as int].0@, cookies@[i as int].1@)));
            assert(cookie_items(cookies.deep_view().take(i + 1)) =~= cookie_items(
                cookies.deep_view().take(i as int)).push(JsonV::Obj(seq![
                ("name"@, JsonV::Str(cookies@[i as int].0@)),
                ("value"@, JsonV::Str(cookies@[i as int].1@)),
            ])));
        }
        i = i + 1;
    }
    proof {
        assert(cookies.deep_view().take(n as int) =~= cookies.deep_view());
    }
    let mut members: Vec<(String, JsonValue)> = Vec::new();
    push_member(&mut members, "sessionId", JsonValue::Str(session_id.to_owned()));
    push_member(&mut members, "url", JsonValue::Str(url.to_owned()));
    push_member(&mut members, "cookies", JsonValue::Arr(items));
    let v = JsonValue::Obj(members);
    proof {
        assert(view_obj(members@) =~= import_cookies_payload_v(
            session_id@, url@, cookies.deep_view())->Obj_0);
    }
    encode(&v)
}

/// The payload of a session-destroy call: the session alone.
pub open spec fn destroy_session_payload_v(session_id: Seq<char>) -> JsonV {
    JsonV::Obj(seq![("sessionId"@, JsonV::Str(session_id))])
}

/// The exact byte string handed to the session-destroy entry point. The bridge
/// places no restriction on reusing the identifier afterwards: a later request
/// under the same identifier is built and sent like any other.
pub fn destroy_session_payload(session_id: &str) -> (r: String)
    ensures
        r@ == render(destroy_session_payload_v(session_id@)),
{
    let mut members: Vec<(String, JsonValue)> = Vec::new();
    push_member(&mut members, "sessionId", JsonValue::Str(session_id.to_owned()));
    let v = JsonValue::Obj(members);
    proof {
        assert(view_obj(members@) =~= destroy_session_payload_v(session_id@)->Obj_0);
    }
    encode(&v)
}

} // verus!
