//! A model of JSON values.
//!
//! [`Json`] is the executable representation; its mathematical counterpart
//! is [`JsonView`], in which strings are sequences of characters and
//! objects are sequences of key/value pairs.  A number is carried as the
//! text of its JSON literal, so that values survive the trip through this
//! type unchanged.

use vstd::prelude::*;

verus! {

/// The mathematical value of a [`Json`] tree: object keys and text are
/// `Seq<char>`, arrays and objects are `Seq`s.
pub enum JsonView {
    Null,
    Bool(bool),
    Num(Seq<char>),
    Text(Seq<char>),
    Array(Seq<JsonView>),
    Object(Seq<(Seq<char>, JsonView)>),
}

/// A JSON value.  `Num` carries the text of the number literal; an object
/// is a sequence of key/value pairs in the order the fields stand in the
/// document.
#[derive(Debug, PartialEq, Eq)]
pub enum Json {
    Null,
    Bool(bool),
    Num(String),
    Text(String),
    Array(Vec<Json>),
    Object(Vec<(String, Json)>),
}

/// The mathematical value of a [`Json`] tree.
pub open spec fn json_view(j: Json) -> JsonView
    decreases j,
{
    match j {
        Json::Null => JsonView::Null,
        Json::Bool(b) => JsonView::Bool(b),
        Json::Num(s) => JsonView::Num(s@),
        Json::Text(s) => JsonView::Text(s@),
        Json::Array(a) => JsonView::Array(json_view_seq(a@)),
        Json::Object(o) => JsonView::Object(json_view_entries(o@)),
    }
}

/// The views of the elements of an array, in order.
pub open spec fn json_view_seq(s: Seq<Json>) -> Seq<JsonView>
    decreases s,
{
    if s.len() == 0 {
        Seq::empty()
    } else {
        json_view_seq(s.subrange(0, s.len() - 1)).push(json_view(s[s.len() - 1]))
    }
}

/// The views of the key/value pairs of an object, in order.
pub open spec fn json_view_entries(s: Seq<(String, Json)>) -> Seq<(Seq<char>, JsonView)>
    decreases s,
{
    if s.len() == 0 {
        Seq::empty()
    } else {
        json_view_entries(s.subrange(0, s.len() - 1)).push(
            (s[s.len() - 1].0@, json_view(s[s.len() - 1].1)),
        )
    }
}

impl DeepView for Json {
    type V = JsonView;

    open spec fn deep_view(&self) -> JsonView {
        json_view(*self)
    }
}

/// The decimal digit character for a value below ten.
pub open spec fn decimal_digit(d: nat) -> char {
    if d == 0 {
        '0'
    } else if d == 1 {
        '1'
    } else if d == 2 {
        '2'
    } else if d == 3 {
        '3'
    } else if d == 4 {
        '4'
    } else if d == 5 {
        '5'
    } else if d == 6 {
        '6'
    } else if d == 7 {
        '7'
    } else if d == 8 {
        '8'
    } else {
        '9'
    }
}

/// The decimal digits of a natural number, most significant first, with
/// no leading zero except for zero itself.
pub open spec fn decimal(n: nat) -> Seq<char>
    decreases n,
{
    if n < 10 {
        seq![decimal_digit(n)]
    } else {
        decimal(n / 10).push(decimal_digit(n % 10))
    }
}

/// The value a decimal digit character denotes.
pub open spec fn digit_value(c: char) -> nat {
    if c == '0' {
        0
    } else if c == '1' {
        1
    } else if c == '2' {
        2
    } else if c == '3' {
        3
    } else if c == '4' {
        4
    } else if c == '5' {
        5
    } else if c == '6' {
        6
    } else if c == '7' {
        7
    } else if c == '8' {
        8
    } else {
        9
    }
}

/// The number a sequence of decimal digits denotes, most significant
/// first.
pub open spec fn digits_value(s: Seq<char>) -> nat
    decreases s.len(),
{
    if s.len() == 0 {
        0
    } else {
        10 * digits_value(s.drop_last()) + digit_value(s.last())
    }
}

/// Reading the decimal digits of a number back gives the number: the
/// decimal text loses nothing.
pub proof fn lemma_decimal_value(n: nat)
    ensures
        digits_value(decimal(n)) == n,
    decreases n,
{
    if n < 10 {
        assert(decimal(n).drop_last() =~= Seq::<char>::empty());
        assert(decimal(n).last() == decimal_digit(n));
        assert(digit_value(decimal_digit(n)) == n);
        assert(digits_value(decimal(n)) == 10 * digits_value(Seq::<char>::empty()) + digit_value(
            decimal_digit(n),
        ));
        assert(digits_value(Seq::<char>::empty()) == 0);
    } else {
        lemma_decimal_value(n / 10);
        assert(decimal(n).drop_last() =~= decimal(n / 10));
        assert(decimal(n).last() == decimal_digit(n % 10));
        assert(digit_value(decimal_digit(n % 10)) == n % 10);
        assert(digits_value(decimal(n)) == 10 * (n / 10) + n % 10);
        vstd::arithmetic::div_mod::lemma_fundamental_div_mod(n as int, 10);
        assert(10 * (n / 10) + n % 10 == n);
    }
}

/// The decimal digits of an integer: a minus sign before the digits of
/// the magnitude when it is negative.
pub open spec fn decimal_int(n: int) -> Seq<char> {
    if n < 0 {
        seq!['-'] + decimal((-n) as nat)
    } else {
        decimal(n as nat)
    }
}

fn decimal_digit_str(d: u64) -> (r: &'static str)
    requires
        d < 10,
    ensures
        r@ == seq![decimal_digit(d as nat)],
{
    let r: &'static str = match d {
        0 => "0",
        1 => "1",
        2 => "2",
        3 => "3",
        4 => "4",
        5 => "5",
        6 => "6",
        7 => "7",
        8 => "8",
        _ => "9",
    };
    proof {
        reveal_strlit("0");
        reveal_strlit("1");
        reveal_strlit("2");
        reveal_strlit("3");
        reveal_strlit("4");
        reveal_strlit("5");
        reveal_strlit("6");
        reveal_strlit("7");
        reveal_strlit("8");
        reveal_strlit("9");
        assert(r@ =~= seq![decimal_digit(d as nat)]);
    }
    r
}

/// The decimal text of a number, as it stands in a JSON document.
pub fn u64_to_decimal(n: u64) -> (s: String)
    ensures
        s@ == decimal(n as nat),
    decreases n,
{
    if n < 10 {
        String::from_str(decimal_digit_str(n))
    } else {
        let prefix = u64_to_decimal(n / 10);
        let s = prefix.concat(decimal_digit_str(n % 10));
        proof {
            assert(s@ =~= decimal((n / 10) as nat).push(decimal_digit((n % 10) as nat)));
        }
        s
    }
}

/// The decimal text of a signed number, as it stands in a JSON document.
pub fn i64_to_decimal(n: i64) -> (s: String)
    ensures
        s@ == decimal_int(n as int),
{
    if n >= 0 {
        u64_to_decimal(n as u64)
    } else {
        // The magnitude is computed as -(n + 1) + 1 so that the smallest
        // value, whose direct negation does not fit in i64, is handled too.
        let magnitude: u64 = ((-(n + 1)) as u64) + 1;
        assert(magnitude == -(n as int));
        let s = String::from_str("-").concat(u64_to_decimal(magnitude).as_str());
        proof {
            reveal_strlit("-");
            assert(s@ =~= decimal_int(n as int));
        }
        s
    }
}

/// The hexadecimal digit character for a value below sixteen, lower
/// case.
pub open spec fn hex_digit(d: nat) -> char {
    if d == 0 {
        '0'
    } else if d == 1 {
        '1'
    } else if d == 2 {
        '2'
    } else if d == 3 {
        '3'
    } else if d == 4 {
        '4'
    } else if d == 5 {
        '5'
    } else if d == 6 {
        '6'
    } else if d == 7 {
        '7'
    } else if d == 8 {
        '8'
    } else if d == 9 {
        '9'
    } else if d == 10 {
        'a'
    } else if d == 11 {
        'b'
    } else if d == 12 {
        'c'
    } else if d == 13 {
        'd'
    } else if d == 14 {
        'e'
    } else {
        'f'
    }
}

/// How one character stands inside a JSON string literal: the quote, the
/// backslash and the common control characters get their two-character
/// escapes, any other control character gets a `\u00..` escape, and
/// everything else stands as itself.
pub open spec fn escape_char(c: char) -> Seq<char> {
    if c == '"' {
        seq!['\\', '"']
    } else if c == '\\' {
        seq!['\\', '\\']
    } else if c == '\n' {
        seq!['\\', 'n']
    } else if c == '\r' {
        seq!['\\', 'r']
    } else if c == '\t' {
        seq!['\\', 't']
    } else if (c as nat) < 32 {
        seq!['\\', 'u', '0', '0', hex_digit((c as nat) / 16), hex_digit((c as nat) % 16)]
    } else {
        seq![c]
    }
}

/// The body of a JSON string literal: each character escaped, in order.
pub open spec fn escape_text(s: Seq<char>) -> Seq<char>
    decreases s.len(),
{
    if s.len() == 0 {
        Seq::empty()
    } else {
        escape_text(s.drop_last()) + escape_char(s.last())
    }
}

/// A JSON string literal: the escaped text between double quotes.
pub open spec fn quoted(s: Seq<char>) -> Seq<char> {
    seq!['"'] + escape_text(s) + seq!['"']
}

/// The serialized text of a JSON value: literals for null and booleans,
/// a number's own literal text, quoted and escaped strings, and arrays
/// and objects between brackets with commas — no added whitespace.
pub open spec fn json_text(v: JsonView) -> Seq<char>
    decreases v,
{
    match v {
        JsonView::Null => "null"@,
        JsonView::Bool(b) => if b {
            "true"@
        } else {
            "false"@
        },
        JsonView::Num(s) => s,
        JsonView::Text(s) => quoted(s),
        JsonView::Array(elems) => seq!['['] + json_text_elems(elems) + seq![']'],
        JsonView::Object(entries) => seq!['{'] + json_text_entries(entries) + seq!['}'],
    }
}

/// The serialized elements of an array, separated by commas.
pub open spec fn json_text_elems(elems: Seq<JsonView>) -> Seq<char>
    decreases elems,
{
    if elems.len() == 0 {
        Seq::empty()
    } else if elems.len() == 1 {
        json_text(elems[0])
    } else {
        json_text_elems(elems.subrange(0, elems.len() - 1)) + seq![','] + json_text(
            elems[elems.len() - 1],
        )
    }
}

/// The serialized pairs of an object: quoted key, colon, value,
/// separated by commas.
pub open spec fn json_text_entries(entries: Seq<(Seq<char>, JsonView)>) -> Seq<char>
    decreases entries,
{
    if entries.len() == 0 {
        Seq::empty()
    } else if entries.len() == 1 {
        quoted(entries[0].0) + seq![':'] + json_text(entries[0].1)
    } else {
        json_text_entries(entries.subrange(0, entries.len() - 1)) + seq![','] + quoted(
            entries[entries.len() - 1].0,
        ) + seq![':'] + json_text(entries[entries.len() - 1].1)
    }
}

/// The JSON array of the decimal texts of unsigned numbers.
pub open spec fn u64_array_view(xs: Seq<u64>) -> JsonView {
    JsonView::Array(Seq::new(xs.len(), |i: int| JsonView::Num(decimal(xs[i] as nat))))
}

/// Build the JSON array of unsigned numbers.
pub fn u64_array_json(xs: &Vec<u64>) -> (r: Json)
    ensures
        json_view(r) == u64_array_view(xs@),
{
    let mut elems: Vec<Json> = Vec::new();
    let mut i: usize = 0;
    while i < xs.len()
        invariant
            i <= xs.len(),
            elems@.len() == i,
            forall|k: int| 0 <= k < i ==> #[trigger] json_view(elems@[k]) == JsonView::Num(
                decimal(xs@[k] as nat),
            ),
        decreases xs.len() - i,
    {
        elems.push(Json::Num(u64_to_decimal(xs[i])));
        i = i + 1;
    }
    proof {
        lemma_json_view_seq(elems@);
        assert(json_view_seq(elems@) =~= u64_array_view(xs@)->Array_0);
    }
    Json::Array(elems)
}

/// The JSON array of text values.
pub open spec fn text_array_view(xs: Seq<Seq<char>>) -> JsonView {
    JsonView::Array(Seq::new(xs.len(), |i: int| JsonView::Text(xs[i])))
}

/// Build the JSON array of strings.
pub fn text_array_json(xs: &Vec<String>) -> (r: Json)
    ensures
        json_view(r) == text_array_view(xs.deep_view()),
{
    let mut elems: Vec<Json> = Vec::new();
    let mut i: usize = 0;
    while i < xs.len()
        invariant
            i <= xs.len(),
            elems@.len() == i,
            forall|k: int| 0 <= k < i ==> #[trigger] json_view(elems@[k]) == JsonView::Text(
                xs@[k]@,
            ),
        decreases xs.len() - i,
    {
        elems.push(Json::Text(xs[i].clone()));
        i = i + 1;
    }
    proof {
        lemma_json_view_seq(elems@);
        assert(json_view_seq(elems@) =~= text_array_view(xs.deep_view())->Array_0);
    }
    Json::Array(elems)
}

impl Json {
    /// Build the object of one field.
    pub fn object1(k: &'static str, v: Json) -> (r: Json)
        ensures
            json_view(r) == JsonView::Object(seq![(k@, json_view(v))]),
    {
        let ghost vv = json_view(v);
        let mut fields: Vec<(String, Json)> = Vec::new();
        fields.push((String::from_str(k), v));
        proof {
            lemma_json_view_entries(fields@);
            assert(json_view_entries(fields@) =~= seq![(k@, vv)]);
        }
        Json::Object(fields)
    }

    /// Build the object of two fields, in order.
    pub fn object2(k1: &'static str, v1: Json, k2: &'static str, v2: Json) -> (r: Json)
        ensures
            json_view(r) == JsonView::Object(seq![(k1@, json_view(v1)), (k2@, json_view(v2))]),
    {
        let ghost vv1 = json_view(v1);
        let ghost vv2 = json_view(v2);
        let mut fields: Vec<(String, Json)> = Vec::new();
        fields.push((String::from_str(k1), v1));
        fields.push((String::from_str(k2), v2));
        proof {
            lemma_json_view_entries(fields@);
            assert(json_view_entries(fields@) =~= seq![(k1@, vv1), (k2@, vv2)]);
        }
        Json::Object(fields)
    }
}

/// Whether an object's pairs hold the given key at all.
pub open spec fn has_field(entries: Seq<(Seq<char>, JsonView)>, key: Seq<char>) -> bool {
    exists|i: int| 0 <= i < entries.len() && entries[i].0 == key
}

/// The value under the first occurrence of the given key, if any.
pub open spec fn first_field_value(
    entries: Seq<(Seq<char>, JsonView)>,
    key: Seq<char>,
) -> Option<JsonView>
    decreases entries.len(),
{
    if entries.len() == 0 {
        None
    } else if entries[0].0 == key {
        Some(entries[0].1)
    } else {
        first_field_value(entries.drop_first(), key)
    }
}

/// Relies on String::push: it appends exactly the one character to the
/// end of the string.
#[verifier::external_body]
fn push_char(out: &mut String, c: char)
    ensures
        final (out)@ == old(out)@ + seq![c],
{
    out.push(c);
}

fn hex_digit_str(d: u32) -> (r: &'static str)
    requires
        d < 16,
    ensures
        r@ == seq![hex_digit(d as nat)],
{
    let r: &'static str = match d {
        0 => "0",
        1 => "1",
        2 => "2",
        3 => "3",
        4 => "4",
        5 => "5",
        6 => "6",
        7 => "7",
        8 => "8",
        9 => "9",
        10 => "a",
        11 => "b",
        12 => "c",
        13 => "d",
        14 => "e",
        _ => "f",
    };
    proof {
        reveal_strlit("0");
        reveal_strlit("1");
        reveal_strlit("2");
        reveal_strlit("3");
        reveal_strlit("4");
        reveal_strlit("5");
        reveal_strlit("6");
        reveal_strlit("7");
        reveal_strlit("8");
        reveal_strlit("9");
        reveal_strlit("a");
        reveal_strlit("b");
        reveal_strlit("c");
        reveal_strlit("d");
        reveal_strlit("e");
        reveal_strlit("f");
        assert(r@ =~= seq![hex_digit(d as nat)]);
    }
    r
}

/// Append one character's escape to the output.
fn append_escaped_char(out: &mut String, c: char)
    ensures
        final (out)@ == old(out)@ + escape_char(c),
{
    let ghost base = out@;
    if c == '"' {
        out.append("\\\"");
        proof {
            reveal_strlit("\\\"");
            assert(out@ =~= base + escape_char(c));
        }
    } else if c == '\\' {
        out.append("\\\\");
        proof {
            reveal_strlit("\\\\");
            assert(out@ =~= base + escape_char(c));
        }
    } else if c == '\n' {
        out.append("\\n");
        proof {
            reveal_strlit("\\n");
            assert(out@ =~= base + escape_char(c));
        }
    } else if c == '\r' {
        out.append("\\r");
        proof {
            reveal_strlit("\\r");
            assert(out@ =~= base + escape_char(c));
        }
    } else if c == '\t' {
        out.append("\\t");
        proof {
            reveal_strlit("\\t");
            assert(out@ =~= base + escape_char(c));
        }
    } else if (c as u32) < 32 {
        out.append("\\u00");
        out.append(hex_digit_str((c as u32) / 16));
        out.append(hex_digit_str((c as u32) % 16));
        proof {
            reveal_strlit("\\u00");
            assert(out@ =~= base + escape_char(c));
        }
    } else {
        push_char(out, c);
        proof {
            assert(out@ =~= base + escape_char(c));
        }
    }
}

/// Append a JSON string literal — the text escaped, between double
/// quotes — to the output.
fn append_quoted(out: &mut String, s: &str)
    ensures
        final (out)@ == old(out)@ + quoted(s@),
{
    let ghost base = out@;
    proof {
        reveal_strlit("\"");
    }
    out.append("\"");
    let n = s.unicode_len();
    let mut i: usize = 0;
    proof {
        assert(out@ =~= base + seq!['"'] + escape_text(s@.subrange(0, 0)));
    }
    while i < n
        invariant
            n == s@.len(),
            i <= n,
            "\""@ == seq!['"'],
            out@ == base + seq!['"'] + escape_text(s@.subrange(0, i as int)),
        decreases n - i,
    {
        let c = s.get_char(i);
        append_escaped_char(out, c);
        proof {
            let prefix = s@.subrange(0, i + 1);
            assert(prefix.drop_last() =~= s@.subrange(0, i as int));
            assert(prefix.last() == c);
            assert(out@ =~= base + seq!['"'] + escape_text(prefix));
        }
        i = i + 1;
    }
    out.append("\"");
    proof {
        assert(s@.subrange(0, s@.len() as int) =~= s@);
        assert(out@ =~= base + quoted(s@));
    }
}

impl Json {
    /// Serialize this value as JSON text, with no added whitespace.
    pub fn to_text(&self) -> (s: String)
        ensures
            s@ == json_text(json_view(*self)),
        decreases *self,
    {
        match self {
            Json::Null => {
                let s = String::from_str("null");
                proof {
                    reveal_strlit("null");
                }
                s
            },
            Json::Bool(b) => {
                if *b {
                    String::from_str("true")
                } else {
                    String::from_str("false")
                }
            },
            Json::Num(n) => n.clone(),
            Json::Text(t) => {
                let mut out = String::new();
                append_quoted(&mut out, t.as_str());
                proof {
                    assert(out@ =~= quoted(t@));
                }
                out
            },
            Json::Array(a) => {
                let ghost views = json_view_seq(a@);
                proof {
                    lemma_json_view_seq(a@);
                    reveal_strlit("[");
                    reveal_strlit("]");
                    reveal_strlit(",");
                }
                let mut out = String::from_str("[");
                let mut i: usize = 0;
                proof {
                    assert(out@ =~= seq!['['] + json_text_elems(views.subrange(0, 0)));
                }
                while i < a.len()
                    invariant
                        i <= a.len(),
                        views == json_view_seq(a@),
                        views.len() == a@.len(),
                        forall|k: int| 0 <= k < a@.len() ==> views[k] == json_view(a@[k]),
                        "["@ == seq!['['],
                        ","@ == seq![','],
                        *self == Json::Array(*a),
                        out@ == seq!['['] + json_text_elems(views.subrange(0, i as int)),
                    decreases a.len() - i,
                {
                    if i > 0 {
                        out.append(",");
                    }
                    proof {
                        assert(decreases_to!(*self => (*self)->Array_0));
                        assert((*self)->Array_0 == *a);
                        assert(decreases_to!(*a => a@));
                        assert(decreases_to!(a@ => a@[i as int]));
                    }
                    let piece = a[i].to_text();
                    out.append(piece.as_str());
                    proof {
                        let prefix = views.subrange(0, i + 1);
                        assert(prefix.subrange(0, i as int) =~= views.subrange(0, i as int));
                        assert(prefix[i as int] == json_view(a@[i as int]));
                        assert(out@ =~= seq!['['] + json_text_elems(prefix));
                    }
                    i = i + 1;
                }
                out.append("]");
                proof {
                    assert(views.subrange(0, views.len() as int) =~= views);
                    assert(out@ =~= json_text(json_view(*self)));
                }
                out
            },
            Json::Object(o) => {
                let ghost views = json_view_entries(o@);
                proof {
                    lemma_json_view_entries(o@);
                    reveal_strlit("{");
                    reveal_strlit("}");
                    reveal_strlit(",");
                    reveal_strlit(":");
                }
                let mut out = String::from_str("{");
                let mut i: usize = 0;
                proof {
                    assert(out@ =~= seq!['{'] + json_text_entries(views.subrange(0, 0)));
                }
                while i < o.len()
                    invariant
                        i <= o.len(),
                        views == json_view_entries(o@),
                        views.len() == o@.len(),
                        forall|k: int| 0 <= k < o@.len() ==> views[k] == (
                            o@[k].0@,
                            json_view(o@[k].1),
                        ),
                        "{"@ == seq!['{'],
                        ","@ == seq![','],
                        ":"@ == seq![':'],
                        *self == Json::Object(*o),
                        out@ == seq!['{'] + json_text_entries(views.subrange(0, i as int)),
                    decreases o.len() - i,
                {
                    if i > 0 {
                        out.append(",");
                    }
                    append_quoted(&mut out, o[i].0.as_str());
                    out.append(":");
                    proof {
                        assert(decreases_to!(*self => (*self)->Object_0));
                        assert((*self)->Object_0 == *o);
                        assert(decreases_to!(*o => o@));
                        assert(decreases_to!(o@ => o@[i as int]));
                        assert(decreases_to!(o@[i as int] => o@[i as int].1));
                    }
                    let piece = o[i].1.to_text();
                    out.append(piece.as_str());
                    proof {
                        let prefix = views.subrange(0, i + 1);
                        assert(prefix.subrange(0, i as int) =~= views.subrange(0, i as int));
                        assert(prefix[i as int] == (o@[i as int].0@, json_view(o@[i as int].1)));
                        assert(out@ =~= seq!['{'] + json_text_entries(prefix));
                    }
                    i = i + 1;
                }
                out.append("}");
                proof {
                    assert(views.subrange(0, views.len() as int) =~= views);
                    assert(out@ =~= json_text(json_view(*self)));
                }
                out
            },
        }
    }
}

/// `json_view_seq` maps `json_view` over the elements, pointwise.
pub proof fn lemma_json_view_seq(s: Seq<Json>)
    ensures
        json_view_seq(s).len() == s.len(),
        forall|i: int| 0 <= i < s.len() ==> #[trigger] json_view_seq(s)[i] == json_view(s[i]),
    decreases s.len(),
{
    if s.len() > 0 {
        lemma_json_view_seq(s.subrange(0, s.len() - 1));
    }
}

/// `json_view_entries` maps key and value views over the pairs, pointwise.
pub proof fn lemma_json_view_entries(s: Seq<(String, Json)>)
    ensures
        json_view_entries(s).len() == s.len(),
        forall|i: int| 0 <= i < s.len() ==> #[trigger] json_view_entries(s)[i] == (
            s[i].0@,
            json_view(s[i].1),
        ),
    decreases s.len(),
{
    if s.len() > 0 {
        lemma_json_view_entries(s.subrange(0, s.len() - 1));
    }
}

impl View for Json {
    type V = JsonView;

    open spec fn view(&self) -> JsonView {
        self.deep_view()
    }
}

} // verus!
