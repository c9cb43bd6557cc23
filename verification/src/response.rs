use vstd::prelude::*;
use vstd::string::*;
use crate::json::{JsonV, JsonValue, view_obj, view_arr, str_eq};

verus! {

broadcast use vstd::std_specs::vec::axiom_vec_decreases_to_view, vstd::seq::axiom_seq_index_decreases;

/// The structured reply to one request: the native side's own copy of the
/// data, independent of the memory the identifier points at.
#[derive(Debug)]
pub struct RequestResponse {
    pub id: String,
    pub session_id: String,
    pub status: u32,
    pub target: String,
    pub used_protocol: Option<String>,
    pub body: Option<String>,
    pub headers: Option<Vec<(String, Vec<String>)>>,
    pub cookies: Option<Vec<(String, String)>>,
}

/// Mathematical view of a response.
pub ghost struct RespV {
    pub id: Seq<char>,
    pub session_id: Seq<char>,
    pub status: u32,
    pub target: Seq<char>,
    pub used_protocol: Option<Seq<char>>,
    pub body: Option<Seq<char>>,
    pub headers: Option<Seq<(Seq<char>, Seq<Seq<char>>)>>,
    pub cookies: Option<Seq<(Seq<char>, Seq<char>)>>,
}

impl View for RequestResponse {
    type V = RespV;

    open spec fn view(&self) -> RespV {
        RespV {
            id: self.id@,
            session_id: self.session_id@,
            status: self.status,
            target: self.target@,
            used_protocol: self.used_protocol.deep_view(),
            body: self.body.deep_view(),
            headers: self.headers.deep_view(),
            cookies: self.cookies.deep_view(),
        }
    }
}

/// The first member under the given key, if any.
pub open spec fn get_field(ms: Seq<(Seq<char>, JsonV)>, key: Seq<char>) -> Option<JsonV>
    decreases ms,
{
    if ms.len() == 0 {
        None
    } else if ms[0].0 == key {
        Some(ms[0].1)
    } else {
        get_field(ms.drop_first(), key)
    }
}

pub proof fn lemma_get_field_step(ms: Seq<(Seq<char>, JsonV)>, key: Seq<char>, i: int)
    requires
        0 <= i < ms.len(),
        ms[i].0 != key,
    ensures
        get_field(ms.skip(i), key) == get_field(ms.skip(i + 1), key),
{
    assert(ms.skip(i).len() > 0);
    assert(ms.skip(i)[0] == ms[i]);
    assert(ms.skip(i).drop_first() =~= ms.skip(i + 1));
}

/// The first member under the key, read off the executable object.
pub fn get_member<'a>(members: &'a Vec<(String, JsonValue)>, key: &str) -> (r: Option<&'a JsonValue>)
    ensures
        match r {
            Some(v) => get_field(view_obj(members@), key@) == Some(v@),
            None => get_field(view_obj(members@), key@) is None,
        },
{
    proof {
        crate::json::lemma_view_obj_index(members@);
    }
    let n: usize = members.len();
    let mut i: usize = 0;
    proof {
        assert(view_obj(members@).skip(0) =~= view_obj(members@));
    }
    while i < n
        invariant
            n == members@.len(),
            0 <= i <= n,
            view_obj(members@).len() == n,
            forall|k: int| 0 <= k < n ==>
                #[trigger] view_obj(members@)[k] == (members@[k].0@, members@[k].1.view_rec()),
            get_field(view_obj(members@), key@) == get_field(view_obj(members@).skip(i as int), key@),
        decreases n - i,
    {
        if str_eq(members[i].0.as_str(), key) {
            proof {
                assert(view_obj(members@).skip(i as int)[0] == view_obj(members@)[i as int]);
            }
            return Some(&members[i].1);
        }
        proof {
            lemma_get_field_step(view_obj(members@), key@, i as int);
        }
        i = i + 1;
    }
    proof {
        assert(view_obj(members@).skip(n as int) =~= Seq::empty());
    }
    None
}

/// Whether every element is a plain string.
pub open spec fn all_str(items: Seq<JsonV>) -> bool {
    forall|i: int| 0 <= i < items.len() ==> items[i] is Str
}

pub open spec fn str_items_val(items: Seq<JsonV>) -> Seq<Seq<char>> {
    items.map(|i: int, v: JsonV| v->Str_0)
}

/// A string list value, if the shape fits.
pub open spec fn dec_str_list(v: JsonV) -> Option<Seq<Seq<char>>> {
    match v {
        JsonV::Arr(items) => if all_str(items) {
            Some(str_items_val(items))
        } else {
            None
        },
        _ => None,
    }
}

/// A string-to-string mapping, if the shape fits.
pub open spec fn dec_map_ss(v: JsonV) -> Option<Seq<(Seq<char>, Seq<char>)>> {
    match v {
        JsonV::Obj(ms) => if forall|i: int| 0 <= i < ms.len() ==> (#[trigger] ms[i]).1 is Str {
            Some(ms.map(|i: int, m: (Seq<char>, JsonV)| (m.0, m.1->Str_0)))
        } else {
            None
        },
        _ => None,
    }
}

/// A string-to-string-list mapping, if the shape fits.
pub open spec fn dec_map_sl(v: JsonV) -> Option<Seq<(Seq<char>, Seq<Seq<char>>)>> {
    match v {
        JsonV::Obj(ms) => if forall|i: int| 0 <= i < ms.len() ==> dec_str_list((#[trigger] ms[i]).1) is Some {
            Some(ms.map(|i: int, m: (Seq<char>, JsonV)| (m.0, dec_str_list(m.1)->0)))
        } else {
            None
        },
        _ => None,
    }
}

#[verifier::loop_isolation(false)]
fn dec_str_list_x(v: &JsonValue) -> (r: Option<Vec<String>>)
    ensures
        match r {
            Some(xs) => dec_str_list(v@) == Some(xs.deep_view()),
            None => dec_str_list(v@) is None,
        },
{
    match v {
        JsonValue::Arr(items) => {
            proof {
                crate::json::lemma_view_arr_index(items@);
            }
            let mut out: Vec<String> = Vec::new();
            let n: usize = items.len();
            let mut i: usize = 0;
            while i < n
                invariant
                    n == items@.len(),
                    view_arr(items@).len() == n,
                    forall|k: int| 0 <= k < n ==>
                        #[trigger] view_arr(items@)[k] == items@[k].view_rec(),
                    0 <= i <= n,
                    forall|k: int| 0 <= k < i ==> view_arr(items@)[k] is Str,
                    out.deep_view() =~= str_items_val(view_arr(items@).take(i as int)),
                decreases n - i,
            {
                match &items[i] {
                    JsonValue::Str(s) => {
                        let ghost prev = out.deep_view();
                        let ghost tv = view_arr(items@);
                        out.push(s.clone());
                        proof {
                            assert(out.deep_view() =~= prev.push(s@));
                            assert(tv.take(i + 1) =~= tv.take(i as int).push(tv[i as int]));
                            assert(tv[i as int] == JsonV::Str(s@));
                            assert(str_items_val(tv.take(i + 1)) =~=
                                str_items_val(tv.take(i as int)).push(s@));
                        }
                    },
                    _ => {
                        proof {
                            assert(!(view_arr(items@)[i as int] is Str));
                        }
                        return None;
                    },
                }
                i = i + 1;
            }
            proof {
                assert(view_arr(items@).take(n as int) =~= view_arr(items@));
                assert(all_str(view_arr(items@)));
            }
            Some(out)
        },
        _ => None,
    }
}

#[verifier::loop_isolation(false)]
fn dec_map_ss_x(v: &JsonValue) -> (r: Option<Vec<(String, String)>>)
    ensures
        match r {
            Some(ps) => dec_map_ss(v@) == Some(ps.deep_view()),
            None => dec_map_ss(v@) is None,
        },
{
    match v {
        JsonValue::Obj(members) => {
            proof {
                crate::json::lemma_view_obj_index(members@);
            }
            let mut out: Vec<(String, String)> = Vec::new();
            let n: usize = members.len();
            let mut i: usize = 0;
            while i < n
                invariant
                    n == members@.len(),
                    view_obj(members@).len() == n,
                    forall|k: int| 0 <= k < n ==>
                        #[trigger] view_obj(members@)[k] == (members@[k].0@, members@[k].1.view_rec()),
                    0 <= i <= n,
                    forall|k: int| 0 <= k < i ==> (#[trigger] view_obj(members@)[k]).1 is Str,
                    out.deep_view() =~= view_obj(members@).take(i as int).map(
                        |j: int, m: (Seq<char>, JsonV)| (m.0, m.1->Str_0)),
                decreases n - i,
            {
                match &members[i].1 {
                    JsonValue::Str(s) => {
                        let ghost prev = out.deep_view();
                        let ghost tv = view_obj(members@);
                        out.push((members[i].0.clone(), s.clone()));
                        proof {
                            assert(out.deep_view() =~= prev.push((members@[i as int].0@, s@)));
                            assert(tv.take(i + 1) =~= tv.take(i as int).push(tv[i as int]));
                            assert(tv[i as int] == (members@[i as int].0@, JsonV::Str(s@)));
                            assert(tv.take(i + 1).map(
                                |j: int, m: (Seq<char>, JsonV)| (m.0, m.1->Str_0)) =~= tv.take(i as int).map(
                                |j: int, m: (Seq<char>, JsonV)| (m.0, m.1->Str_0)).push((members@[i as int].0@, s@)));
                        }
                    },
                    _ => {
                        proof {
                            assert(!((view_obj(members@)[i as int]).1 is Str));
                        }
                        return None;
                    },
                }
                i = i + 1;
            }
            proof {
                assert(view_obj(members@).take(n as int) =~= view_obj(members@));
            }
            Some(out)
        },
        _ => None,
    }
}

#[verifier::loop_isolation(false)]
fn dec_map_sl_x(v: &JsonValue) -> (r: Option<Vec<(String, Vec<String>)>>)
    ensures
        match r {
            Some(ps) => dec_map_sl(v@) == Some(ps.deep_view()),
            None => dec_map_sl(v@) is None,
        },
{
    match v {
        JsonValue::Obj(members) => {
            proof {
                crate::json::lemma_view_obj_index(members@);
            }
            let mut out: Vec<(String, Vec<String>)> = Vec::new();
            let n: usize = members.len();
            let mut i: usize = 0;
            while i < n
                invariant
                    n == members@.len(),
                    view_obj(members@).len() == n,
                    forall|k: int| 0 <= k < n ==>
                        #[trigger] view_obj(members@)[k] == (members@[k].0@, members@[k].1.view_rec()),
                    0 <= i <= n,
                    forall|k: int| 0 <= k < i ==>
                        dec_str_list((#[trigger] view_obj(members@)[k]).1) is Some,
                    out.deep_view() =~= view_obj(members@).take(i as int).map(
                        |j: int, m: (Seq<char>, JsonV)| (m.0, dec_str_list(m.1)->0)),
                decreases n - i,
            {
                let dv = dec_str_list_x(&members[i].1);
                match dv {
                    Some(xs) => {
                        let ghost prev = out.deep_view();
                        let ghost tv = view_obj(members@);
                        let ghost gx = xs.deep_view();
                        out.push((members[i].0.clone(), xs));
                        proof {
                            assert(out.deep_view() =~= prev.push((members@[i as int].0@, gx)));
                            assert(tv.take(i + 1) =~= tv.take(i as int).push(tv[i as int]));
                            assert(dec_str_list(tv[i as int].1) == Some(gx));
                            assert(tv.take(i + 1).map(
                                |j: int, m: (Seq<char>, JsonV)| (m.0, dec_str_list(m.1)->0)) =~= tv.take(i as int).map(
                                |j: int, m: (Seq<char>, JsonV)| (m.0, dec_str_list(m.1)->0)).push((members@[i as int].0@, gx)));
                        }
                    },
                    None => {
                        proof {
                            assert(dec_str_list((view_obj(members@)[i as int]).1) is None);
                        }
                        return None;
                    },
                }
                i = i + 1;
            }
            proof {
                assert(view_obj(members@).take(n as int) =~= view_obj(members@));
            }
            Some(out)
        },
        _ => None,
    }
}

/// A required string member.
pub open spec fn req_str(o: Option<JsonV>) -> Option<Seq<char>> {
    match o {
        Some(JsonV::Str(s)) => Some(s),
        _ => None,
    }
}

/// An optional string member: absent and null both mean unset.
pub open spec fn opt_str(o: Option<JsonV>) -> Option<Option<Seq<char>>> {
    match o {
        None => Some(None),
        Some(JsonV::Null) => Some(None),
        Some(JsonV::Str(s)) => Some(Some(s)),
        Some(_) => None,
    }
}

/// What a reply object means, if it has the expected shape: the required
/// identifier, session, status and target, and the optional protocol, body,
/// headers and cookies.
pub open spec fn response_of_json(j: JsonV) -> Option<RespV> {
    match j {
        JsonV::Obj(ms) => {
            match (req_str(get_field(ms, "id"@)), req_str(get_field(ms, "sessionId"@)),
                   get_field(ms, "status"@), req_str(get_field(ms, "target"@)),
                   opt_str(get_field(ms, "usedProtocol"@)), opt_str(get_field(ms, "body"@))) {
                (Some(id), Some(sid), Some(JsonV::UInt(st)), Some(tg), Some(up), Some(bd)) => {
                    if st <= u32::MAX {
                        let hs = match get_field(ms, "headers"@) {
                            None => Some(None),
                            Some(JsonV::Null) => Some(None),
                            Some(hv) => match dec_map_sl(hv) {
                                Some(m) => Some(Some(m)),
                                None => None,
                            },
                        };
                        let cs = match get_field(ms, "cookies"@) {
                            None => Some(None),
                            Some(JsonV::Null) => Some(None),
                            Some(cv) => match dec_map_ss(cv) {
                                Some(m) => Some(Some(m)),
                                None => None,
                            },
                        };
                        match (hs, cs) {
                            (Some(h), Some(c)) => Some(RespV {
                                id: id,
                                session_id: sid,
                                status: st as u32,
                                target: tg,
                                used_protocol: up,
                                body: bd,
                                headers: h,
                                cookies: c,
                            }),
                            _ => None,
                        }
                    } else {
                        None
                    }
                },
                _ => None,
            }
        },
        _ => None,
    }
}

fn req_str_x(o: Option<&JsonValue>) -> (r: Option<String>)
    ensures
        match r {
            Some(s) => req_str(match o {
                Some(v) => Some(v@),
                None => None,
            }) == Some(s@),
            None => req_str(match o {
                Some(v) => Some(v@),
                None => None,
            }) is None,
        },
{
    match o {
        Some(JsonValue::Str(s)) => Some(s.clone()),
        _ => None,
    }
}

fn opt_str_x(o: Option<&JsonValue>) -> (r: Option<Option<String>>)
    ensures
        match r {
            Some(s) => opt_str(match o {
                Some(v) => Some(v@),
                None => None,
            }) == Some(s.deep_view()),
            None => opt_str(match o {
                Some(v) => Some(v@),
                None => None,
            }) is None,
        },
{
    match o {
        None => Some(None),
        Some(JsonValue::Null) => Some(None),
        Some(JsonValue::Str(s)) => Some(Some(s.clone())),
        Some(_) => None,
    }
}

/// Reads a structured reply off a parsed wire value; `None` is the shape
/// mismatch that the bridge reports as a protocol violation.
pub fn response_from_json(v: &JsonValue) -> (r: Option<RequestResponse>)
    ensures
        match r {
            Some(resp) => response_of_json(v@) == Some(resp@),
            None => response_of_json(v@) is None,
        },
{
    let members = match v {
        JsonValue::Obj(ms) => ms,
        _ => {
            return None;
        },
    };
    let id = match req_str_x(get_member(members, "id")) {
        Some(s) => s,
        None => {
            return None;
        },
    };
    let session_id = match req_str_x(get_member(members, "sessionId")) {
        Some(s) => s,
        None => {
            return None;
        },
    };
    let status: u32 = match get_member(members, "status") {
        Some(JsonValue::UInt(n)) => {
            if *n <= 0xFFFF_FFFFu64 {
                *n as u32
            } else {
                return None;
            }
        },
        _ => {
            return None;
        },
    };
    let target = match req_str_x(get_member(members, "target")) {
        Some(s) => s,
        None => {
            return None;
        },
    };
    let used_protocol = match opt_str_x(get_member(members, "usedProtocol")) {
        Some(s) => s,
        None => {
            return None;
        },
    };
    let body = match opt_str_x(get_member(members, "body")) {
        Some(s) => s,
        None => {
            return None;
        },
    };
    let headers = match get_member(members, "headers") {
        None => None,
        Some(JsonValue::Null) => None,
        Some(hv) => match dec_map_sl_x(hv) {
            Some(m) => Some(m),
            None => {
                return None;
            },
        },
    };
    let cookies = match get_member(members, "cookies") {
        None => None,
        Some(JsonValue::Null) => None,
        Some(cv) => match dec_map_ss_x(cv) {
            Some(m) => Some(m),
            None => {
                return None;
            },
        },
    };
    Some(RequestResponse {
        id,
        session_id,
        status,
        target,
        used_protocol,
        body,
        headers,
        cookies,
    })
}

impl RequestResponse {
    /// The response identifier: the token the free call takes.
    pub fn get_id(&self) -> (r: String)
        ensures
            r@ == self@.id,
    {
        self.id.clone()
    }

    pub fn get_status(&self) -> (r: u32)
        ensures
            r == self@.status,
    {
        self.status
    }

    pub fn get_content(&self) -> (r: Option<String>)
        ensures
            r.deep_view() == self@.body,
    {
        match &self.body {
            Some(b) => Some(b.clone()),
            None => None,
        }
    }

    pub fn get_headers(&self) -> (r: Option<Vec<(String, Vec<String>)>>)
        ensures
            r.deep_view() == self@.headers,
    {
        match &self.headers {
            Some(h) => Some(crate::schema::dup_pairlist_vec(h)),
            None => None,
        }
    }

    pub fn get_cookies(&self) -> (r: Option<Vec<(String, String)>>)
        ensures
            r.deep_view() == self@.cookies,
    {
        match &self.cookies {
            Some(c) => Some(crate::schema::dup_pair_vec(c)),
            None => None,
        }
    }
}

} // verus!
