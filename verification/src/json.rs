use vstd::prelude::*;
use vstd::string::*;

verus! {

broadcast use vstd::std_specs::vec::axiom_vec_decreases_to_view, vstd::seq::axiom_seq_index_decreases;

/// Mathematical model of a wire value: what the codec's contracts speak of.
pub enum JsonV {
    Null,
    Bool(bool),
    UInt(nat),
    Str(Seq<char>),
    Arr(Seq<JsonV>),
    Obj(Seq<(Seq<char>, JsonV)>),
}

/// Executable wire value: the flat JSON-like shape that crosses the
/// foreign-function boundary, with object members kept in order.
pub enum JsonValue {
    Null,
    Bool(bool),
    UInt(u64),
    Str(String),
    Arr(Vec<JsonValue>),
    Obj(Vec<(String, JsonValue)>),
}

pub open spec fn view_arr(items: Seq<JsonValue>) -> Seq<JsonV>
    decreases items,
{
    if items.len() == 0 {
        Seq::empty()
    } else {
        view_arr(items.drop_last()).push(items.last().view_rec())
    }
}

pub open spec fn view_obj(members: Seq<(String, JsonValue)>) -> Seq<(Seq<char>, JsonV)>
    decreases members,
{
    if members.len() == 0 {
        Seq::empty()
    } else {
        view_obj(members.drop_last()).push(
            (members.last().0@, members.last().1.view_rec()),
        )
    }
}

impl JsonValue {
    pub open spec fn view_rec(self) -> JsonV
        decreases self,
    {
        match self {
            JsonValue::Null => JsonV::Null,
            JsonValue::Bool(b) => JsonV::Bool(b),
            JsonValue::UInt(n) => JsonV::UInt(n as nat),
            JsonValue::Str(s) => JsonV::Str(s@),
            JsonValue::Arr(items) => JsonV::Arr(view_arr(items@)),
            JsonValue::Obj(members) => JsonV::Obj(view_obj(members@)),
        }
    }
}

impl View for JsonValue {
    type V = JsonV;

    open spec fn view(&self) -> JsonV {
        self.view_rec()
    }
}

pub proof fn lemma_view_arr_index(items: Seq<JsonValue>)
    ensures
        view_arr(items).len() == items.len(),
        forall|i: int| 0 <= i < items.len() ==>
            #[trigger] view_arr(items)[i] == items[i].view_rec(),
    decreases items,
{
    if items.len() > 0 {
        lemma_view_arr_index(items.drop_last());
    }
}

pub proof fn lemma_view_obj_index(members: Seq<(String, JsonValue)>)
    ensures
        view_obj(members).len() == members.len(),
        forall|i: int| 0 <= i < members.len() ==>
            #[trigger] view_obj(members)[i] == (members[i].0@, members[i].1.view_rec()),
    decreases members,
{
    if members.len() > 0 {
        lemma_view_obj_index(members.drop_last());
    }
}

/// The character standing for a value below sixteen, in decimal or hex.
pub open spec fn digit_char_s(d: nat) -> char {
    if d == 0 { '0' } else if d == 1 { '1' } else if d == 2 { '2' }
    else if d == 3 { '3' } else if d == 4 { '4' } else if d == 5 { '5' }
    else if d == 6 { '6' } else if d == 7 { '7' } else if d == 8 { '8' }
    else if d == 9 { '9' } else if d == 10 { 'a' } else if d == 11 { 'b' }
    else if d == 12 { 'c' } else if d == 13 { 'd' } else if d == 14 { 'e' }
    else { 'f' }
}

/// How one character of a string is written on the wire.
pub open spec fn escape_char(c: char) -> Seq<char> {
    if c == '"' { "\\\""@ }
    else if c == '\\' { "\\\\"@ }
    else if c == '\n' { "\\n"@ }
    else if c == '\r' { "\\r"@ }
    else if c == '\t' { "\\t"@ }
    else if (c as nat) < 0x20 {
        "\\u00"@ + seq![digit_char_s((c as nat) / 16), digit_char_s((c as nat) % 16)]
    } else {
        seq![c]
    }
}

pub open spec fn render_string_body(s: Seq<char>) -> Seq<char>
    decreases s.len(),
{
    if s.len() == 0 {
        Seq::empty()
    } else {
        render_string_body(s.drop_last()) + escape_char(s.last())
    }
}

/// A string on the wire: quoted, with its characters escaped.
pub open spec fn render_string(s: Seq<char>) -> Seq<char> {
    "\""@ + render_string_body(s) + "\""@
}

/// An unsigned number on the wire: its decimal digits, no sign, no leading zero.
pub open spec fn render_uint(n: nat) -> Seq<char>
    decreases n,
{
    if n < 10 {
        seq![digit_char_s(n)]
    } else {
        render_uint(n / 10).push(digit_char_s(n % 10))
    }
}

/// The exact character sequence a value takes on the wire: compact, ordered,
/// with no whitespace between tokens.
pub open spec fn render(v: JsonV) -> Seq<char>
    decreases v,
{
    match v {
        JsonV::Null => "null"@,
        JsonV::Bool(b) => if b { "true"@ } else { "false"@ },
        JsonV::UInt(n) => render_uint(n),
        JsonV::Str(s) => render_string(s),
        JsonV::Arr(items) => "["@ + render_items(items) + "]"@,
        JsonV::Obj(members) => "{"@ + render_members(members) + "}"@,
    }
}

pub open spec fn render_items(items: Seq<JsonV>) -> Seq<char>
    decreases items,
{
    if items.len() == 0 {
        Seq::empty()
    } else if items.len() == 1 {
        render(items[0])
    } else {
        render_items(items.drop_last()) + ","@ + render(items.last())
    }
}

pub open spec fn render_member(m: (Seq<char>, JsonV)) -> Seq<char>
    decreases m,
{
    render_string(m.0) + ":"@ + render(m.1)
}

pub open spec fn render_members(members: Seq<(Seq<char>, JsonV)>) -> Seq<char>
    decreases members,
{
    if members.len() == 0 {
        Seq::empty()
    } else if members.len() == 1 {
        render_member(members[0])
    } else {
        render_members(members.drop_last()) + ","@ + render_member(members.last())
    }
}

/// Relies on String::push: appends the given character to the end of the string.
#[verifier::external_body]
fn push_char(out: &mut String, c: char)
    ensures
        final(out)@ == old(out)@.push(c),
{
    out.push(c)
}

fn digit_char(d: u32) -> (r: char)
    requires
        d < 16,
    ensures
        r == digit_char_s(d as nat),
{
    if d == 0 { '0' } else if d == 1 { '1' } else if d == 2 { '2' }
    else if d == 3 { '3' } else if d == 4 { '4' } else if d == 5 { '5' }
    else if d == 6 { '6' } else if d == 7 { '7' } else if d == 8 { '8' }
    else if d == 9 { '9' } else if d == 10 { 'a' } else if d == 11 { 'b' }
    else if d == 12 { 'c' } else if d == 13 { 'd' } else if d == 14 { 'e' }
    else { 'f' }
}

fn encode_uint(n: u64, out: &mut String)
    ensures
        final(out)@ == old(out)@ + render_uint(n as nat),
    decreases n,
{
    if n < 10 {
        push_char(out, digit_char(n as u32));
        assert(final(out)@ =~= old(out)@ + render_uint(n as nat));
    } else {
        encode_uint(n / 10, out);
        push_char(out, digit_char((n % 10) as u32));
        assert(final(out)@ =~= old(out)@ + render_uint(n as nat));
    }
}

fn encode_escaped(c: char, out: &mut String)
    ensures
        final(out)@ == old(out)@ + escape_char(c),
{
    if c == '"' {
        out.append("\\\"");
    } else if c == '\\' {
        out.append("\\\\");
    } else if c == '\n' {
        out.append("\\n");
    } else if c == '\r' {
        out.append("\\r");
    } else if c == '\t' {
        out.append("\\t");
    } else if (c as u32) < 0x20 {
        out.append("\\u00");
        push_char(out, digit_char((c as u32) / 16));
        push_char(out, digit_char((c as u32) % 16));
        assert(final(out)@ =~= old(out)@ + escape_char(c));
    } else {
        push_char(out, c);
        assert(final(out)@ =~= old(out)@ + escape_char(c));
    }
}

proof fn lemma_body_step(s: Seq<char>, i: int)
    requires
        0 <= i < s.len(),
    ensures
        render_string_body(s.take(i + 1)) == render_string_body(s.take(i)) + escape_char(s[i]),
{
    assert(s.take(i + 1).drop_last() =~= s.take(i));
    assert(s.take(i + 1).last() == s[i]);
}

fn encode_string(s: &str, out: &mut String)
    ensures
        final(out)@ == old(out)@ + render_string(s@),
{
    out.append("\"");
    let n: usize = s.unicode_len();
    let mut i: usize = 0;
    while i < n
        invariant
            n == s@.len(),
            0 <= i <= n,
            out@ == old(out)@ + "\""@ + render_string_body(s@.take(i as int)),
        decreases n - i,
    {
        let c = s.get_char(i);
        proof {
            lemma_body_step(s@, i as int);
        }
        encode_escaped(c, out);
        i = i + 1;
    }
    assert(s@.take(n as int) =~= s@);
    out.append("\"");
    assert(final(out)@ =~= old(out)@ + render_string(s@));
}

proof fn lemma_items_step(items: Seq<JsonV>, i: int)
    requires
        0 <= i < items.len(),
    ensures
        render_items(items.take(i + 1)) == if i == 0 {
            render(items[0])
        } else {
            render_items(items.take(i)) + ","@ + render(items[i])
        },
{
    assert(items.take(i + 1).drop_last() =~= items.take(i));
    assert(items.take(i + 1).last() == items[i]);
    assert(items.take(i + 1)[0] == items[0]);
}

proof fn lemma_members_step(members: Seq<(Seq<char>, JsonV)>, i: int)
    requires
        0 <= i < members.len(),
    ensures
        render_members(members.take(i + 1)) == if i == 0 {
            render_member(members[0])
        } else {
            render_members(members.take(i)) + ","@ + render_member(members[i])
        },
{
    assert(members.take(i + 1).drop_last() =~= members.take(i));
    assert(members.take(i + 1).last() == members[i]);
    assert(members.take(i + 1)[0] == members[0]);
}

/// Appends the exact wire form of `v` to `out`.
pub fn encode_value(v: &JsonValue, out: &mut String)
    ensures
        final(out)@ == old(out)@ + render(v@),
    decreases v,
{
    match v {
        JsonValue::Null => {
            out.append("null");
        },
        JsonValue::Bool(b) => {
            if *b {
                out.append("true");
            } else {
                out.append("false");
            }
        },
        JsonValue::UInt(n) => {
            encode_uint(*n, out);
        },
        JsonValue::Str(s) => {
            encode_string(s.as_str(), out);
        },
        JsonValue::Arr(items) => {
            proof {
                lemma_view_arr_index(items@);
            }
            out.append("[");
            let n: usize = items.len();
            let mut i: usize = 0;
            while i < n
                invariant
                    n == items@.len(),
                    0 <= i <= n,
                    view_arr(items@).len() == n,
                    forall|k: int| 0 <= k < n ==>
                        #[trigger] view_arr(items@)[k] == items@[k].view_rec(),
                    out@ == old(out)@ + "["@ + render_items(view_arr(items@).take(i as int)),
                    *v == JsonValue::Arr(*items),
                decreases n - i,
            {
                if i > 0 {
                    out.append(",");
                }
                proof {
                    lemma_items_step(view_arr(items@), i as int);
                    assert(decreases_to!(*v => v->Arr_0));
                    assert(decreases_to!(*items => items@));
                    assert(decreases_to!(items@ => items@[i as int]));
                    assert(decreases_to!(*v => items@[i as int]));
                }
                encode_value(&items[i], out);
                i = i + 1;
            }
            assert(view_arr(items@).take(n as int) =~= view_arr(items@));
            out.append("]");
            assert(final(out)@ =~= old(out)@ + render(v@));
        },
        JsonValue::Obj(members) => {
            proof {
                lemma_view_obj_index(members@);
            }
            out.append("{");
            let n: usize = members.len();
            let mut i: usize = 0;
            while i < n
                invariant
                    n == members@.len(),
                    0 <= i <= n,
                    view_obj(members@).len() == n,
                    forall|k: int| 0 <= k < n ==>
                        #[trigger] view_obj(members@)[k] == (members@[k].0@, members@[k].1.view_rec()),
                    out@ == old(out)@ + "{"@ + render_members(view_obj(members@).take(i as int)),
                    *v == JsonValue::Obj(*members),
                decreases n - i,
            {
                if i > 0 {
                    out.append(",");
                }
                proof {
                    lemma_members_step(view_obj(members@), i as int);
                    assert(decreases_to!(*v => v->Obj_0));
                    assert(decreases_to!(*members => members@));
                    assert(decreases_to!(members@ => members@[i as int]));
                    assert(decreases_to!(members@[i as int] => members@[i as int].1));
                    assert(decreases_to!(*v => members@[i as int].1));
                }
                encode_string(members[i].0.as_str(), out);
                out.append(":");
                encode_value(&members[i].1, out);
                i = i + 1;
            }
            assert(view_obj(members@).take(n as int) =~= view_obj(members@));
            out.append("}");
            assert(final(out)@ =~= old(out)@ + render(v@));
        },
    }
}

/// The wire form of `v` as a fresh string.
pub fn encode(v: &JsonValue) -> (r: String)
    ensures
        r@ == render(v@),
{
    let mut out = String::new();
    encode_value(v, &mut out);
    out
}


/// Character-for-character equality of two string slices.
pub fn str_eq(a: &str, b: &str) -> (r: bool)
    ensures
        r == (a@ == b@),
{
    let na: usize = a.unicode_len();
    let nb: usize = b.unicode_len();
    if na != nb {
        assert(a@ != b@);
        return false;
    }
    let mut i: usize = 0;
    while i < na
        invariant
            na == a@.len(),
            na == b@.len(),
            0 <= i <= na,
            forall|k: int| 0 <= k < i ==> a@[k] == b@[k],
        decreases na - i,
    {
        if a.get_char(i) != b.get_char(i) {
            return false;
        }
        i = i + 1;
    }
    assert(a@ =~= b@);
    true
}

/// Relies on char::from_u32: every value that is a Unicode scalar — below
/// the surrogate range, or past it up to the highest code point — is valid
/// and maps to the character with that code.
#[verifier::external_body]
fn char_from_code(x: u32) -> (c: char)
    requires
        x < 0xD800 || (0xE000 <= x && x <= 0x10FFFF),
    ensures
        c as u32 == x,
{
    char::from_u32(x).unwrap()
}

/// The value of a hexadecimal digit, either case.
pub open spec fn hex_val_s(c: char) -> Option<u32> {
    let x = c as u32;
    if 0x30 <= x && x <= 0x39 {
        Some((x - 0x30) as u32)
    } else if 0x61 <= x && x <= 0x66 {
        Some((x - 0x61 + 10) as u32)
    } else if 0x41 <= x && x <= 0x46 {
        Some((x - 0x41 + 10) as u32)
    } else {
        None
    }
}

fn hex_val(c: char) -> (r: Option<u32>)
    ensures
        r == hex_val_s(c),
        r matches Some(v) ==> v < 16,
{
    let x = c as u32;
    if x >= 0x30 && x <= 0x39 {
        Some(x - 0x30)
    } else if x >= 0x61 && x <= 0x66 {
        Some(x - 0x61 + 10)
    } else if x >= 0x41 && x <= 0x46 {
        Some(x - 0x41 + 10)
    } else {
        None
    }
}

pub open spec fn is_digit(c: char) -> bool {
    0x30 <= (c as u32) && (c as u32) <= 0x39
}

/// The first position at or after `i` that holds no whitespace.
pub open spec fn skip_ws_s(s: Seq<char>, i: int) -> int
    decreases s.len() - i,
{
    if 0 <= i < s.len() && is_ws(s[i]) {
        skip_ws_s(s, i + 1)
    } else {
        i
    }
}

fn skip_ws_x(s: &str, n: usize, i: usize) -> (r: usize)
    requires
        n == s@.len(),
        i <= n,
    ensures
        i <= r <= n,
        r as int == skip_ws_s(s@, i as int),
{
    let mut cur = i;
    while cur < n
        invariant
            n == s@.len(),
            i <= cur <= n,
            skip_ws_s(s@, i as int) == skip_ws_s(s@, cur as int),
        decreases n - cur,
    {
        let c = s.get_char(cur);
        if c == ' ' || c == '\n' || c == '\r' || c == '\t' {
            proof {
                assert(is_ws(s@[cur as int]));
            }
            cur = cur + 1;
        } else {
            proof {
                assert(!is_ws(s@[cur as int]));
                assert(skip_ws_s(s@, cur as int) == cur as int);
            }
            return cur;
        }
    }
    proof {
        assert(skip_ws_s(s@, cur as int) == cur as int);
    }
    cur
}

/// One string body read from just after the opening quote: the canonical
/// escapes, the solidus escape, and any four-digit hex escape of a scalar
/// value are all admitted, either hex case.
pub open spec fn sparse_str_body(s: Seq<char>, j: int, acc: Seq<char>) -> Option<(Seq<char>, int)>
    decreases s.len() - j,
{
    if !(0 <= j < s.len()) {
        None
    } else {
        let c = s[j];
        if c == '"' {
            Some((acc, j + 1))
        } else if c == '\\' {
            if j + 1 >= s.len() {
                None
            } else {
                let e = s[j + 1];
                if e == '"' {
                    sparse_str_body(s, j + 2, acc.push('"'))
                } else if e == '\\' {
                    sparse_str_body(s, j + 2, acc.push('\\'))
                } else if e == '/' {
                    sparse_str_body(s, j + 2, acc.push('/'))
                } else if e == 'n' {
                    sparse_str_body(s, j + 2, acc.push('\n'))
                } else if e == 'r' {
                    sparse_str_body(s, j + 2, acc.push('\r'))
                } else if e == 't' {
                    sparse_str_body(s, j + 2, acc.push('\t'))
                } else if e == 'u' {
                    if s.len() - j <= 5 {
                        None
                    } else {
                        match (hex_val_s(s[j + 2]), hex_val_s(s[j + 3]), hex_val_s(s[j + 4]),
                            hex_val_s(s[j + 5])) {
                            (Some(a), Some(b), Some(c2), Some(d)) => {
                                let code = a * 4096 + b * 256 + c2 * 16 + d;
                                if 0xD800 <= code && code <= 0xDFFF {
                                    None
                                } else {
                                    sparse_str_body(s, j + 6, acc.push(((code) as u32) as char))
                                }
                            },
                            _ => None,
                        }
                    }
                } else {
                    None
                }
            }
        } else if (c as u32) < 0x20 {
            None
        } else {
            sparse_str_body(s, j + 1, acc.push(c))
        }
    }
}

/// A run of decimal digits folded into a number, refused past the largest
/// value the executable type holds.
pub open spec fn sparse_uint(s: Seq<char>, i: int, acc: u64) -> Option<(u64, int)>
    decreases s.len() - i,
{
    if 0 <= i < s.len() && is_digit(s[i]) {
        let d = ((s[i] as u32) - 0x30) as u64;
        if acc > 1844674407370955161u64 || (acc == 1844674407370955161u64 && d > 5) {
            None
        } else {
            sparse_uint(s, i + 1, (acc * 10 + d) as u64)
        }
    } else {
        Some((acc, i))
    }
}

proof fn lemma_sparse_uint_pos(s: Seq<char>, i: int, acc: u64)
    ensures
        sparse_uint(s, i, acc) matches Some(p) ==> p.1 >= i,
    decreases s.len() - i,
{
    if 0 <= i < s.len() && is_digit(s[i]) {
        let d = ((s[i] as u32) - 0x30) as u64;
        if !(acc > 1844674407370955161u64 || (acc == 1844674407370955161u64 && d > 5)) {
            lemma_sparse_uint_pos(s, i + 1, (acc * 10 + d) as u64);
        }
    }
}

/// One wire value starting at `i`, whitespace between tokens admitted: the
/// meaning a payload text carries, as a function of the text.
pub open spec fn sparse_value(s: Seq<char>, i: int) -> Option<(JsonV, int)>
    decreases s.len() - i, 2int,
{
    let i1 = skip_ws_s(s, i);
    if i1 < i || i1 >= s.len() {
        None
    } else {
        let c = s[i1];
        if c == 'n' {
            if i1 + 4 <= s.len() && s.subrange(i1, i1 + 4) == "null"@ {
                Some((JsonV::Null, i1 + 4))
            } else {
                None
            }
        } else if c == 't' {
            if i1 + 4 <= s.len() && s.subrange(i1, i1 + 4) == "true"@ {
                Some((JsonV::Bool(true), i1 + 4))
            } else {
                None
            }
        } else if c == 'f' {
            if i1 + 5 <= s.len() && s.subrange(i1, i1 + 5) == "false"@ {
                Some((JsonV::Bool(false), i1 + 5))
            } else {
                None
            }
        } else if c == '"' {
            match sparse_str_body(s, i1 + 1, Seq::empty()) {
                Some((cs, j)) => Some((JsonV::Str(cs), j)),
                None => None,
            }
        } else if c == '[' {
            let i2 = skip_ws_s(s, i1 + 1);
            if i2 < i1 + 1 || i2 > s.len() {
                None
            } else if i2 < s.len() && s[i2] == ']' {
                Some((JsonV::Arr(Seq::empty()), i2 + 1))
            } else {
                sparse_items(s, i1 + 1, Seq::empty())
            }
        } else if c == '{' {
            let i2 = skip_ws_s(s, i1 + 1);
            if i2 < i1 + 1 || i2 > s.len() {
                None
            } else if i2 < s.len() && s[i2] == '}' {
                Some((JsonV::Obj(Seq::empty()), i2 + 1))
            } else {
                sparse_members(s, i1 + 1, Seq::empty())
            }
        } else if is_digit(c) {
            match sparse_uint(s, i1, 0u64) {
                Some((u, j)) => Some((JsonV::UInt(u as nat), j)),
                None => None,
            }
        } else {
            None
        }
    }
}

pub open spec fn sparse_items(s: Seq<char>, i: int, acc: Seq<JsonV>) -> Option<(JsonV, int)>
    decreases s.len() - i, 3int,
{
    match sparse_value(s, i) {
        Some((v, j)) => {
            if j <= i || j > s.len() {
                None
            } else {
                let j1 = skip_ws_s(s, j);
                if j1 < j || j1 >= s.len() {
                    None
                } else if s[j1] == ',' {
                    sparse_items(s, j1 + 1, acc.push(v))
                } else if s[j1] == ']' {
                    Some((JsonV::Arr(acc.push(v)), j1 + 1))
                } else {
                    None
                }
            }
        },
        None => None,
    }
}

pub open spec fn sparse_members(s: Seq<char>, i: int, acc: Seq<(Seq<char>, JsonV)>) -> Option<(JsonV, int)>
    decreases s.len() - i, 3int,
{
    let i1 = skip_ws_s(s, i);
    if i1 < i || i1 >= s.len() {
        None
    } else if s[i1] != '"' {
        None
    } else {
        match sparse_str_body(s, i1 + 1, Seq::empty()) {
            Some((k, j)) => {
                if j <= i || j > s.len() {
                    None
                } else {
                    let j1 = skip_ws_s(s, j);
                    if j1 < j || j1 >= s.len() || s[j1] != ':' {
                        None
                    } else {
                        match sparse_value(s, j1 + 1) {
                            Some((v, j2)) => {
                                if j2 <= i || j2 > s.len() {
                                    None
                                } else {
                                    let j3 = skip_ws_s(s, j2);
                                    if j3 < j2 || j3 >= s.len() {
                                        None
                                    } else if s[j3] == ',' {
                                        sparse_members(s, j3 + 1, acc.push((k, v)))
                                    } else if s[j3] == '}' {
                                        Some((JsonV::Obj(acc.push((k, v))), j3 + 1))
                                    } else {
                                        None
                                    }
                                }
                            },
                            None => None,
                        }
                    }
                }
            },
            None => None,
        }
    }
}

/// The meaning of a whole payload: one wire value with nothing but
/// whitespace around it.
pub open spec fn json_of(s: Seq<char>) -> Option<JsonV> {
    match sparse_value(s, 0) {
        Some((v, j)) => {
            if 0 <= j <= s.len() && skip_ws_s(s, j) == s.len() {
                Some(v)
            } else {
                None
            }
        },
        None => None,
    }
}

#[verifier::loop_isolation(false)]
fn parse_str_body_at(s: &str, n: usize, start: usize) -> (r: Option<(String, usize)>)
    requires
        n == s@.len(),
        start <= n,
    ensures
        r matches Some(p) ==> start < p.1 <= n && sparse_str_body(s@, start as int, Seq::empty())
            == Some((p.0@, p.1 as int)),
        r is None ==> sparse_str_body(s@, start as int, Seq::empty()) is None,
{
    let mut out = String::new();
    let mut j: usize = start;
    loop
        invariant
            start <= j <= n,
            sparse_str_body(s@, start as int, Seq::empty()) == sparse_str_body(s@, j as int, out@),
        decreases n - j,
    {
        if j >= n {
            return None;
        }
        let c = s.get_char(j);
        if c == '"' {
            proof {
                assert(sparse_str_body(s@, j as int, out@) == Some((out@, j + 1)));
            }
            return Some((out, j + 1));
        } else if c == '\\' {
            if j + 1 >= n {
                return None;
            }
            let e = s.get_char(j + 1);
            if e == '"' {
                push_char(&mut out, '"');
                j = j + 2;
            } else if e == '\\' {
                push_char(&mut out, '\\');
                j = j + 2;
            } else if e == '/' {
                push_char(&mut out, '/');
                j = j + 2;
            } else if e == 'n' {
                push_char(&mut out, '\n');
                j = j + 2;
            } else if e == 'r' {
                push_char(&mut out, '\r');
                j = j + 2;
            } else if e == 't' {
                push_char(&mut out, '\t');
                j = j + 2;
            } else if e == 'u' {
                if n - j <= 5 {
                    return None;
                }
                let h1 = hex_val(s.get_char(j + 2));
                let h2 = hex_val(s.get_char(j + 3));
                let h3 = hex_val(s.get_char(j + 4));
                let h4 = hex_val(s.get_char(j + 5));
                match (h1, h2, h3, h4) {
                    (Some(a), Some(b), Some(c2), Some(d)) => {
                        let code = a * 4096 + b * 256 + c2 * 16 + d;
                        if code >= 0xD800 && code <= 0xDFFF {
                            return None;
                        }
                        let ch = char_from_code(code);
                        proof {
                            vstd::utf8::char_u32_cast(ch, code);
                        }
                        push_char(&mut out, ch);
                        j = j + 6;
                    },
                    _ => {
                        return None;
                    },
                }
            } else {
                return None;
            }
        } else if (c as u32) < 0x20 {
            return None;
        } else {
            push_char(&mut out, c);
            j = j + 1;
        }
    }
}

#[verifier::loop_isolation(false)]
fn parse_uint_cont(s: &str, n: usize, i: usize) -> (r: Option<(u64, usize)>)
    requires
        n == s@.len(),
        i <= n,
    ensures
        r matches Some(p) ==> i <= p.1 <= n && sparse_uint(s@, i as int, 0u64) == Some((p.0,
            p.1 as int)),
        r is None ==> sparse_uint(s@, i as int, 0u64) is None,
{
    let mut acc: u64 = 0;
    let mut j: usize = i;
    loop
        invariant
            i <= j <= n,
            sparse_uint(s@, i as int, 0u64) == sparse_uint(s@, j as int, acc),
        decreases n - j,
    {
        if j >= n {
            proof {
                assert(sparse_uint(s@, j as int, acc) == Some((acc, j as int)));
            }
            return Some((acc, j));
        }
        let c = s.get_char(j);
        let d = c as u32;
        if d >= 0x30 && d <= 0x39 {
            let dv = (d - 0x30) as u64;
            if acc > 1844674407370955161u64 || (acc == 1844674407370955161u64 && dv > 5) {
                return None;
            }
            acc = acc * 10 + dv;
            j = j + 1;
        } else {
            proof {
                assert(!is_digit(s@[j as int]));
                assert(sparse_uint(s@, j as int, acc) == Some((acc, j as int)));
            }
            return Some((acc, j));
        }
    }
}

fn match_lit(s: &str, n: usize, i: usize, lit: &str) -> (r: bool)
    requires
        n == s@.len(),
        i <= n,
    ensures
        r == (i + lit@.len() <= n && s@.subrange(i as int, i + lit@.len()) == lit@),
{
    let m: usize = lit.unicode_len();
    if n - i < m {
        return false;
    }
    let mut k: usize = 0;
    while k < m
        invariant
            n == s@.len(),
            m == lit@.len(),
            i + m <= n,
            0 <= k <= m,
            forall|t: int| 0 <= t < k ==> s@[i + t] == lit@[t],
        decreases m - k,
    {
        if s.get_char(i + k) != lit.get_char(k) {
            proof {
                assert(s@.subrange(i as int, i + m)[k as int] == s@[i + k]);
            }
            return false;
        }
        k = k + 1;
    }
    proof {
        assert(s@.subrange(i as int, i + m) =~= lit@);
    }
    true
}

/// Reads one wire value starting at `i`: exactly the values and positions the
/// payload grammar gives, nothing more and nothing less.
#[verifier::loop_isolation(false)]
pub fn parse_value_at(s: &str, n: usize, i: usize) -> (r: Option<(JsonValue, usize)>)
    requires
        n == s@.len(),
        i <= n,
    ensures
        r matches Some(p) ==> i < p.1 <= n && sparse_value(s@, i as int) == Some((p.0@,
            p.1 as int)),
        r is None ==> sparse_value(s@, i as int) is None,
    decreases n - i,
{
    proof {
        reveal_strlit("null");
        reveal_strlit("true");
        reveal_strlit("false");
    }
    let i1 = skip_ws_x(s, n, i);
    if i1 >= n {
        return None;
    }
    let c = s.get_char(i1);
    if c == 'n' {
        if match_lit(s, n, i1, "null") {
            Some((JsonValue::Null, i1 + 4))
        } else {
            None
        }
    } else if c == 't' {
        if match_lit(s, n, i1, "true") {
            Some((JsonValue::Bool(true), i1 + 4))
        } else {
            None
        }
    } else if c == 'f' {
        if match_lit(s, n, i1, "false") {
            Some((JsonValue::Bool(false), i1 + 5))
        } else {
            None
        }
    } else if c == '"' {
        match parse_str_body_at(s, n, i1 + 1) {
            Some((st, j)) => Some((JsonValue::Str(st), j)),
            None => None,
        }
    } else if c == '[' {
        let i2 = skip_ws_x(s, n, i1 + 1);
        if i2 < n && s.get_char(i2) == ']' {
            let items: Vec<JsonValue> = Vec::new();
            proof {
                assert(view_arr(items@) =~= Seq::<JsonV>::empty());
            }
            return Some((JsonValue::Arr(items), i2 + 1));
        }
        let ghost start = (i1 + 1) as int;
        let mut items: Vec<JsonValue> = Vec::new();
        let mut cur: usize = i1 + 1;
        proof {
            assert(view_arr(items@) =~= Seq::<JsonV>::empty());
        }
        loop
            invariant
                i1 + 1 <= cur <= n,
                sparse_items(s@, start, Seq::empty()) == sparse_items(s@, cur as int,
                    view_arr(items@)),
            decreases n - cur,
        {
            let ele = parse_value_at(s, n, cur);
            match ele {
                Some((v, j)) => {
                    let j1 = skip_ws_x(s, n, j);
                    if j1 >= n {
                        return None;
                    }
                    let cc = s.get_char(j1);
                    let ghost snap = items@;
                    let ghost gv = v@;
                    if cc == ',' {
                        items.push(v);
                        proof {
                            assert(items@.drop_last() =~= snap);
                            assert(view_arr(items@) =~= view_arr(snap).push(gv));
                        }
                        cur = j1 + 1;
                    } else if cc == ']' {
                        items.push(v);
                        proof {
                            assert(items@.drop_last() =~= snap);
                            assert(view_arr(items@) =~= view_arr(snap).push(gv));
                            assert(sparse_items(s@, cur as int, view_arr(snap)) == Some((
                                JsonV::Arr(view_arr(items@)), j1 + 1)));
                        }
                        return Some((JsonValue::Arr(items), j1 + 1));
                    } else {
                        return None;
                    }
                },
                None => {
                    return None;
                },
            }
        }
    } else if c == '{' {
        let i2 = skip_ws_x(s, n, i1 + 1);
        if i2 < n && s.get_char(i2) == '}' {
            let members: Vec<(String, JsonValue)> = Vec::new();
            proof {
                assert(view_obj(members@) =~= Seq::<(Seq<char>, JsonV)>::empty());
            }
            return Some((JsonValue::Obj(members), i2 + 1));
        }
        let ghost start = (i1 + 1) as int;
        let mut members: Vec<(String, JsonValue)> = Vec::new();
        let mut cur: usize = i1 + 1;
        proof {
            assert(view_obj(members@) =~= Seq::<(Seq<char>, JsonV)>::empty());
        }
        loop
            invariant
                i1 + 1 <= cur <= n,
                sparse_members(s@, start, Seq::empty()) == sparse_members(s@, cur as int,
                    view_obj(members@)),
            decreases n - cur,
        {
            let k1 = skip_ws_x(s, n, cur);
            if k1 >= n {
                return None;
            }
            if s.get_char(k1) != '"' {
                return None;
            }
            let key = match parse_str_body_at(s, n, k1 + 1) {
                Some(p) => p,
                None => {
                    return None;
                },
            };
            let j1 = skip_ws_x(s, n, key.1);
            if j1 >= n {
                return None;
            }
            if s.get_char(j1) != ':' {
                return None;
            }
            let ele = parse_value_at(s, n, j1 + 1);
            match ele {
                Some((v, j2)) => {
                    let j3 = skip_ws_x(s, n, j2);
                    if j3 >= n {
                        return None;
                    }
                    let cc = s.get_char(j3);
                    let ghost snap = members@;
                    let ghost gk = key.0@;
                    let ghost gv = v@;
                    if cc == ',' {
                        members.push((key.0, v));
                        proof {
                            assert(members@.drop_last() =~= snap);
                            assert(view_obj(members@) =~= view_obj(snap).push((gk, gv)));
                        }
                        cur = j3 + 1;
                    } else if cc == '}' {
                        members.push((key.0, v));
                        proof {
                            assert(members@.drop_last() =~= snap);
                            assert(view_obj(members@) =~= view_obj(snap).push((gk, gv)));
                            assert(sparse_members(s@, cur as int, view_obj(snap)) == Some((
                                JsonV::Obj(view_obj(members@)), j3 + 1)));
                        }
                        return Some((JsonValue::Obj(members), j3 + 1));
                    } else {
                        return None;
                    }
                },
                None => {
                    return None;
                },
            }
        }
    } else {
        let d = c as u32;
        if d >= 0x30 && d <= 0x39 {
            match parse_uint_cont(s, n, i1) {
                Some((u, j)) => {
                    proof {
                        assert(is_digit(s@[i1 as int]));
                        let d0 = ((s@[i1 as int] as u32) - 0x30) as u64;
                        assert(sparse_uint(s@, i1 as int, 0u64) == sparse_uint(s@, i1 + 1, d0));
                        lemma_sparse_uint_pos(s@, i1 + 1, d0);
                    }
                    Some((JsonValue::UInt(u), j))
                },
                None => None,
            }
        } else {
            None
        }
    }
}

pub open spec fn is_ws(c: char) -> bool {
    c == ' ' || c == '\n' || c == '\r' || c == '\t'
}

pub open spec fn trim_start_spec(s: Seq<char>) -> Seq<char>
    decreases s.len(),
{
    if s.len() > 0 && is_ws(s[0]) {
        trim_start_spec(s.drop_first())
    } else {
        s
    }
}

pub open spec fn trim_end_spec(s: Seq<char>) -> Seq<char>
    decreases s.len(),
{
    if s.len() > 0 && is_ws(s.last()) {
        trim_end_spec(s.drop_last())
    } else {
        s
    }
}

/// The string with every leading and trailing whitespace character dropped.
pub open spec fn trim_spec(s: Seq<char>) -> Seq<char> {
    trim_end_spec(trim_start_spec(s))
}

proof fn lemma_trim_start_step(s: Seq<char>, a: int)
    requires
        0 <= a < s.len(),
        is_ws(s[a]),
    ensures
        trim_start_spec(s.skip(a)) == trim_start_spec(s.skip(a + 1)),
{
    assert(s.skip(a)[0] == s[a]);
    assert(s.skip(a).drop_first() =~= s.skip(a + 1));
}

proof fn lemma_trim_end_step(t: Seq<char>, b: int)
    requires
        0 < b <= t.len(),
        is_ws(t[b - 1]),
    ensures
        trim_end_spec(t.take(b)) == trim_end_spec(t.take(b - 1)),
{
    assert(t.take(b).last() == t[b - 1]);
    assert(t.take(b).drop_last() =~= t.take(b - 1));
}

/// Strips leading and trailing whitespace characters.
#[verifier::loop_isolation(false)]
pub fn trim_ws(s: &str) -> (r: &str)
    ensures
        r@ == trim_spec(s@),
{
    let n: usize = s.unicode_len();
    let mut a: usize = 0;
    proof {
        assert(s@.skip(0) =~= s@);
    }
    while a < n
        invariant
            0 <= a <= n,
            trim_start_spec(s@) == trim_start_spec(s@.skip(a as int)),
        decreases n - a,
    {
        let c = s.get_char(a);
        if c == ' ' || c == '\n' || c == '\r' || c == '\t' {
            proof {
                lemma_trim_start_step(s@, a as int);
            }
            a = a + 1;
        } else {
            break;
        }
    }
    proof {
        if a < n {
            assert(s@.skip(a as int)[0] == s@[a as int]);
        }
        assert(trim_start_spec(s@.skip(a as int)) == s@.skip(a as int));
    }
    let ghost t = s@.skip(a as int);
    let mut b: usize = n;
    proof {
        assert(t.take(n - a) =~= t);
    }
    while b > a
        invariant
            a <= b <= n,
            trim_end_spec(t) == trim_end_spec(t.take(b - a)),
        decreases b,
    {
        let c = s.get_char(b - 1);
        if c == ' ' || c == '\n' || c == '\r' || c == '\t' {
            proof {
                assert(t.take(b - a)[b - a - 1] == s@[b - 1]);
                lemma_trim_end_step(t, b - a);
            }
            b = b - 1;
        } else {
            break;
        }
    }
    proof {
        if b > a {
            assert(t.take(b - a).last() == t[b - a - 1]);
            assert(t[b - a - 1] == s@[b - 1]);
        }
        assert(trim_end_spec(t.take(b - a)) == t.take(b - a));
        assert(t.take(b - a) =~= s@.subrange(a as int, b as int));
    }
    s.substring_char(a, b)
}


/// Whether every character is whitespace.
pub open spec fn all_ws(w: Seq<char>) -> bool {
    forall|i: int| 0 <= i < w.len() ==> is_ws(w[i])
}

proof fn lemma_trim_end_app(x: Seq<char>, w: Seq<char>)
    requires
        all_ws(w),
    ensures
        trim_end_spec(x + w) == trim_end_spec(x),
    decreases w.len(),
{
    if w.len() == 0 {
        assert(x + w =~= x);
    } else {
        assert((x + w).last() == w.last());
        assert((x + w).drop_last() =~= x + w.drop_last());
        assert(all_ws(w.drop_last()));
        lemma_trim_end_app(x, w.drop_last());
    }
}

proof fn lemma_trim_all_ws(w: Seq<char>)
    requires
        all_ws(w),
    ensures
        trim_start_spec(w) == Seq::<char>::empty(),
    decreases w.len(),
{
    if w.len() > 0 {
        assert(is_ws(w[0]));
        assert(all_ws(w.drop_first()));
        lemma_trim_all_ws(w.drop_first());
    } else {
        assert(w =~= Seq::<char>::empty());
    }
}

/// Whitespace around a payload is insignificant: appending any whitespace
/// leaves the trimmed payload, and so everything stated of it, unchanged.
pub proof fn lemma_trim_trailing_ws(s: Seq<char>, w: Seq<char>)
    requires
        all_ws(w),
    ensures
        trim_spec(s + w) == trim_spec(s),
    decreases s.len(),
{
    if s.len() == 0 {
        assert(s + w =~= w);
        lemma_trim_all_ws(w);
        assert(s =~= Seq::<char>::empty());
    } else if is_ws(s[0]) {
        assert((s + w)[0] == s[0]);
        assert((s + w).drop_first() =~= s.drop_first() + w);
        lemma_trim_trailing_ws(s.drop_first(), w);
    } else {
        assert((s + w).len() > 0);
        assert((s + w)[0] == s[0]);
        assert(trim_start_spec(s + w) == s + w);
        assert(trim_start_spec(s) == s);
        lemma_trim_end_app(s, w);
    }
}

/// Reads a whole payload: exactly the value the payload grammar gives the
/// trimmed input, and nothing when the grammar gives none — acceptance is
/// owed, not optional.
pub fn parse_json(s: &str) -> (r: Option<JsonValue>)
    ensures
        r matches Some(v) ==> json_of(trim_spec(s@)) == Some(v@),
        r is None ==> json_of(trim_spec(s@)) is None,
{
    let t = trim_ws(s);
    let n: usize = t.unicode_len();
    match parse_value_at(t, n, 0) {
        Some((v, j)) => {
            let j2 = skip_ws_x(t, n, j);
            if j2 == n {
                Some(v)
            } else {
                None
            }
        },
        None => None,
    }
}

} // verus!
