//! The response envelope and its decoder.
//!
//! Every reply from the server is a JSON object with exactly two keys,
//! `error` and `result`, in either order.  [`decode`] scans such an
//! object once, in document order, and produces either a success or
//! failure [`ResponseBody`] or the [`StructuralError`] describing the
//! first way the envelope broke the contract.

use vstd::prelude::*;
use crate::error::{StructuralError, StructuralErrorView};
use crate::json::{
    has_field, json_view, json_view_entries, lemma_json_view_entries, Json, JsonView,
};

verus! {

/// The decoded outcome of a structurally valid envelope.
///
/// It looks similar to a `Result`, but it is kept as a separate type so
/// that a semantic failure reported by the server stays distinct from the
/// errors of the decoding machinery itself.
#[derive(Debug, PartialEq, Eq)]
pub enum ResponseBody<R> {
    /// The server replied with a non-null `error` key; the server's
    /// message is carried.
    Failure(String),
    /// The server replied with a null `error` key; the value under
    /// `result` is carried untouched.
    Success(R),
}

/// The mathematical value of a [`ResponseBody`].
pub enum ResponseBodyView<RV> {
    Failure(Seq<char>),
    Success(RV),
}

impl<R: DeepView> DeepView for ResponseBody<R> {
    type V = ResponseBodyView<R::V>;

    open spec fn deep_view(&self) -> ResponseBodyView<R::V> {
        match self {
            ResponseBody::Failure(m) => ResponseBodyView::Failure(m@),
            ResponseBody::Success(x) => ResponseBodyView::Success(x.deep_view()),
        }
    }
}

impl<R> ResponseBody<R> {
    /// The outcome as a plain `Result`: the success payload, or the
    /// server's failure message.
    pub fn into_result(self) -> (r: Result<R, String>)
        ensures
            match self {
                ResponseBody::Failure(m) => r == Err::<R, String>(m),
                ResponseBody::Success(x) => r == Ok::<R, String>(x),
            },
    {
        match self {
            ResponseBody::Failure(m) => Err(m),
            ResponseBody::Success(x) => Ok(x),
        }
    }
}

/// One pass over the key/value pairs of the envelope object, in document
/// order, carrying what has been recorded so far for `error` (absent,
/// present and null, or present with a message) and for `result` (absent
/// or present).  The scan stops at the first unknown key and at the first
/// `error` value that is neither null nor a string; a repeated key
/// overwrites what was recorded before it.
pub open spec fn scan_entries(
    entries: Seq<(Seq<char>, JsonView)>,
    err: Option<Option<Seq<char>>>,
    res: Option<JsonView>,
) -> Result<(Option<Option<Seq<char>>>, Option<JsonView>), StructuralErrorView>
    decreases entries.len(),
{
    if entries.len() == 0 {
        Ok((err, res))
    } else {
        let key = entries[0].0;
        let value = entries[0].1;
        if key == "error"@ {
            match value {
                JsonView::Null => scan_entries(entries.drop_first(), Some(None), res),
                JsonView::Text(m) => scan_entries(entries.drop_first(), Some(Some(m)), res),
                _ => Err(StructuralErrorView::InvalidErrorValue),
            }
        } else if key == "result"@ {
            scan_entries(entries.drop_first(), err, Some(value))
        } else {
            Err(StructuralErrorView::UnknownField(key))
        }
    }
}

/// What decoding an envelope object's pairs yields: the scan of
/// [`scan_entries`], then the two presence checks, then the choice of
/// outcome by the nullness of `error` alone.
pub open spec fn decode_entries(
    entries: Seq<(Seq<char>, JsonView)>,
) -> Result<ResponseBodyView<JsonView>, StructuralErrorView> {
    match scan_entries(entries, None, None) {
        Err(e) => Err(e),
        Ok((err, res)) => {
            if err is None {
                Err(StructuralErrorView::MissingField("error"@))
            } else if res is None {
                Err(StructuralErrorView::MissingField("result"@))
            } else {
                match err->0 {
                    Some(m) => Ok(ResponseBodyView::Failure(m)),
                    None => Ok(ResponseBodyView::Success(res->0)),
                }
            }
        },
    }
}

/// What decoding a JSON value as a response envelope yields.
pub open spec fn decode_view(v: JsonView) -> Result<
    ResponseBodyView<JsonView>,
    StructuralErrorView,
> {
    match v {
        JsonView::Object(entries) => decode_entries(entries),
        _ => Err(StructuralErrorView::NotAnObject),
    }
}

/// Whether every key of the object is one of the envelope's two.
pub open spec fn keys_known(entries: Seq<(Seq<char>, JsonView)>) -> bool {
    forall|i: int| 0 <= i < entries.len() ==> entries[i].0 == "error"@ || entries[i].0
        == "result"@
}

/// Whether every value under an `error` key is null or a string.
pub open spec fn error_values_ok(entries: Seq<(Seq<char>, JsonView)>) -> bool {
    forall|i: int| 0 <= i < entries.len() && entries[i].0 == "error"@ ==> (entries[i].1 is Null
        || entries[i].1 is Text)
}

proof fn lemma_scan_characterization(
    entries: Seq<(Seq<char>, JsonView)>,
    err: Option<Option<Seq<char>>>,
    res: Option<JsonView>,
)
    ensures
        scan_entries(entries, err, res) is Ok <==> keys_known(entries) && error_values_ok(
            entries,
        ),
        scan_entries(entries, err, res) matches Ok((err2, res2)) ==> {
            &&& (err2 is Some <==> err is Some || has_field(entries, "error"@))
            &&& (res2 is Some <==> res is Some || has_field(entries, "result"@))
        },
    decreases entries.len(),
{
    if entries.len() == 0 {
        assert(!has_field(entries, "error"@));
        assert(!has_field(entries, "result"@));
    } else {
        reveal_strlit("error");
        reveal_strlit("result");
        assert("error"@.len() == 5);
        assert("result"@.len() == 6);
        assert("error"@ != "result"@);
        let tail = entries.drop_first();
        assert(forall|i: int| 0 <= i < tail.len() ==> tail[i] == entries[i + 1]);
        assert(keys_known(entries) <==> (entries[0].0 == "error"@ || entries[0].0 == "result"@)
            && keys_known(tail)) by {
            if (entries[0].0 == "error"@ || entries[0].0 == "result"@) && keys_known(tail) {
                assert forall|i: int| 0 <= i < entries.len() implies entries[i].0 == "error"@
                    || entries[i].0 == "result"@ by {
                    if i > 0 {
                        assert(tail[i - 1] == entries[i]);
                    }
                }
            }
        }
        assert(error_values_ok(entries) <==> (entries[0].0 == "error"@ ==> (entries[0].1 is Null
            || entries[0].1 is Text)) && error_values_ok(tail)) by {
            if (entries[0].0 == "error"@ ==> (entries[0].1 is Null || entries[0].1 is Text))
                && error_values_ok(tail) {
                assert forall|i: int|
                    0 <= i < entries.len() && entries[i].0 == "error"@ implies (entries[i].1
                    is Null || entries[i].1 is Text) by {
                    if i > 0 {
                        assert(tail[i - 1] == entries[i]);
                    }
                }
            }
        }
        assert(has_field(entries, "error"@) <==> entries[0].0 == "error"@ || has_field(
            tail,
            "error"@,
        )) by {
            lemma_has_field_unfold(entries, "error"@);
        }
        assert(has_field(entries, "result"@) <==> entries[0].0 == "result"@ || has_field(
            tail,
            "result"@,
        )) by {
            lemma_has_field_unfold(entries, "result"@);
        }
        if entries[0].0 == "error"@ {
            match entries[0].1 {
                JsonView::Null => lemma_scan_characterization(tail, Some(None), res),
                JsonView::Text(m) => lemma_scan_characterization(tail, Some(Some(m)), res),
                _ => {},
            }
        } else if entries[0].0 == "result"@ {
            lemma_scan_characterization(tail, err, Some(entries[0].1));
        }
    }
}

proof fn lemma_has_field_unfold(entries: Seq<(Seq<char>, JsonView)>, key: Seq<char>)
    requires
        entries.len() > 0,
    ensures
        has_field(entries, key) <==> entries[0].0 == key || has_field(entries.drop_first(), key),
{
    let tail = entries.drop_first();
    assert(forall|i: int| 0 <= i < tail.len() ==> tail[i] == entries[i + 1]);
    if has_field(entries, key) {
        let i = choose|i: int| 0 <= i < entries.len() && entries[i].0 == key;
        if i > 0 {
            assert(tail[i - 1] == entries[i]);
            assert(has_field(tail, key));
        }
    }
    if has_field(tail, key) {
        let i = choose|i: int| 0 <= i < tail.len() && tail[i].0 == key;
        assert(entries[i + 1] == tail[i]);
        assert(has_field(entries, key));
    }
}

/// When decoding an envelope object succeeds, exactly: every key is
/// `error` or `result`, both keys are present, and every value under
/// `error` is null or a string.
pub proof fn lemma_decode_ok_iff(entries: Seq<(Seq<char>, JsonView)>)
    ensures
        decode_entries(entries) is Ok <==> {
            &&& keys_known(entries)
            &&& error_values_ok(entries)
            &&& has_field(entries, "error"@)
            &&& has_field(entries, "result"@)
        },
{
    lemma_scan_characterization(entries, None, None);
}

/// A value other than an object is always rejected as not being an
/// envelope, whatever it holds.
pub proof fn lemma_non_object_rejected(v: JsonView)
    requires
        !(v is Object),
    ensures
        decode_view(v) == Err::<ResponseBodyView<JsonView>, StructuralErrorView>(
            StructuralErrorView::NotAnObject,
        ),
{
}

/// An envelope whose `error` is null is a success carrying the `result`
/// value untouched, whatever that value is — null included.
pub proof fn lemma_success_carries_payload(payload: JsonView)
    ensures
        decode_view(
            JsonView::Object(seq![("error"@, JsonView::Null), ("result"@, payload)]),
        ) == Ok::<ResponseBodyView<JsonView>, StructuralErrorView>(
            ResponseBodyView::Success(payload),
        ),
{
    reveal_strlit("error");
    reveal_strlit("result");
    reveal_with_fuel(scan_entries, 3);
    let entries = seq![("error"@, JsonView::Null), ("result"@, payload)];
    let e1 = entries.drop_first();
    assert(entries[0].0 == "error"@);
    assert(e1.len() == 1);
    assert(e1[0] == ("result"@, payload));
    assert("result"@ != "error"@);
    assert(e1.drop_first() =~= Seq::<(Seq<char>, JsonView)>::empty());
    assert(scan_entries(e1.drop_first(), Some(None), Some(payload)) == Ok::<
        (Option<Option<Seq<char>>>, Option<JsonView>),
        StructuralErrorView,
    >((Some(None), Some(payload))));
    assert(scan_entries(e1, Some(None), None) == scan_entries(
        e1.drop_first(),
        Some(None),
        Some(payload),
    ));
    assert(scan_entries(entries, None, None) == scan_entries(e1, Some(None), None));
}

/// An envelope whose `error` is a string is a failure carrying exactly
/// that string, whatever stands under `result`.
pub proof fn lemma_failure_carries_message(message: Seq<char>, payload: JsonView)
    ensures
        decode_view(
            JsonView::Object(seq![("error"@, JsonView::Text(message)), ("result"@, payload)]),
        ) == Ok::<ResponseBodyView<JsonView>, StructuralErrorView>(
            ResponseBodyView::Failure(message),
        ),
{
    reveal_strlit("error");
    reveal_strlit("result");
    reveal_with_fuel(scan_entries, 3);
    let entries = seq![("error"@, JsonView::Text(message)), ("result"@, payload)];
    let e1 = entries.drop_first();
    assert(entries[0].0 == "error"@);
    assert(e1.len() == 1);
    assert(e1[0] == ("result"@, payload));
    assert("result"@ != "error"@);
    assert(e1.drop_first() =~= Seq::<(Seq<char>, JsonView)>::empty());
    assert(scan_entries(e1.drop_first(), Some(Some(message)), Some(payload)) == Ok::<
        (Option<Option<Seq<char>>>, Option<JsonView>),
        StructuralErrorView,
    >((Some(Some(message)), Some(payload))));
    assert(scan_entries(e1, Some(Some(message)), None) == scan_entries(
        e1.drop_first(),
        Some(Some(message)),
        Some(payload),
    ));
    assert(scan_entries(entries, None, None) == scan_entries(e1, Some(Some(message)), None));
}

/// The two keys may stand in either order: decoding does not depend on
/// which of `error` and `result` comes first.
pub proof fn lemma_key_order_independent(error_value: JsonView, result_value: JsonView)
    ensures
        decode_view(
            JsonView::Object(seq![("error"@, error_value), ("result"@, result_value)]),
        ) == decode_view(
            JsonView::Object(seq![("result"@, result_value), ("error"@, error_value)]),
        ),
{
    reveal_strlit("error");
    reveal_strlit("result");
    reveal_with_fuel(scan_entries, 3);
    let fwd = seq![("error"@, error_value), ("result"@, result_value)];
    let rev = seq![("result"@, result_value), ("error"@, error_value)];
    assert(fwd.drop_first().drop_first() =~= Seq::<(Seq<char>, JsonView)>::empty());
    assert(rev.drop_first().drop_first() =~= Seq::<(Seq<char>, JsonView)>::empty());
    assert(decode_entries(fwd) == decode_entries(rev));
}

/// Decode a JSON value as a response envelope.
///
/// The value must be an object holding exactly the keys `error` and
/// `result`; the outcome is a failure carrying the string under `error`
/// when that value is non-null, and otherwise a success carrying the
/// value under `result` untouched.  Every other shape is rejected with
/// the [`StructuralError`] describing the first violation in document
/// order.
pub fn decode(v: Json) -> (r: Result<ResponseBody<Json>, StructuralError>)
    ensures
        match r {
            Ok(b) => decode_view(json_view(v)) == Ok::<
                ResponseBodyView<JsonView>,
                StructuralErrorView,
            >(b.deep_view()),
            Err(e) => decode_view(json_view(v)) == Err::<
                ResponseBodyView<JsonView>,
                StructuralErrorView,
            >(e.deep_view()),
        },
{
    let mut rest = match v {
        Json::Object(entries) => entries,
        _ => { return Err(StructuralError::NotAnObject) },
    };
    let ghost all = json_view_entries(rest@);
    let error_key = String::from_str("error");
    let result_key = String::from_str("result");
    let mut err_acc: Option<Option<String>> = None;
    let mut res_acc: Option<Json> = None;
    while rest.len() > 0
        invariant
            error_key@ == "error"@,
            result_key@ == "result"@,
            json_view(v) == JsonView::Object(all),
            scan_entries(all, None, None) == scan_entries(
                json_view_entries(rest@),
                err_acc.deep_view(),
                res_acc.deep_view(),
            ),
        decreases rest.len(),
    {
        let ghost prev = rest@;
        proof {
            lemma_json_view_entries(prev);
            lemma_json_view_entries(prev.drop_first());
            assert(json_view_entries(prev).drop_first() =~= json_view_entries(
                prev.drop_first(),
            ));
        }
        let pair = rest.remove(0);
        proof {
            assert(rest@ =~= prev.drop_first());
        }
        let key = pair.0;
        let value = pair.1;
        if key == error_key {
            match value {
                Json::Null => { err_acc = Some(None) },
                Json::Text(m) => { err_acc = Some(Some(m)) },
                _ => { return Err(StructuralError::InvalidErrorValue) },
            }
        } else if key == result_key {
            res_acc = Some(value);
        } else {
            return Err(StructuralError::UnknownField(key));
        }
    }
    match err_acc {
        None => Err(StructuralError::MissingField(String::from_str("error"))),
        Some(err) => {
            match res_acc {
                None => Err(StructuralError::MissingField(String::from_str("result"))),
                Some(res) => {
                    match err {
                        Some(m) => Ok(ResponseBody::Failure(m)),
                        None => Ok(ResponseBody::Success(res)),
                    }
                },
            }
        },
    }
}

} // verus!
