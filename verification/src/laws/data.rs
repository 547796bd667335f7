//! What the diagnostic data of a check hold.
use crate::check::{
    failure_note, failure_text, keeps, tries, Check, CheckError, CheckErrorView, CheckView,
    Serialized,
};
use crate::json::{
    displays, distinct_keys, error_text, has_key, inserted, is_io, json, Json, Members,
};
use vstd::prelude::*;

verus! {

/// A value that is added under a key can be found under it, in the place of the
/// one that was there before, or else after all others. The other members stay
/// where they are, and no key comes to occur twice.
pub proof fn law_added_value_replaces_an_earlier_one(data: Members, key: Seq<char>, value: Json)
    ensures
        inserted(data, key, value).contains((key, value)),
        has_key(data, key) ==> inserted(data, key, value).len() == data.len(),
        !has_key(data, key) ==> inserted(data, key, value) == data.push((key, value)),
        forall|i: int|
            0 <= i < data.len() ==> #[trigger] inserted(data, key, value)[i] == (if data[i].0
                == key {
                (key, value)
            } else {
                data[i]
            }),
        distinct_keys(data) ==> distinct_keys(inserted(data, key, value)),
{
    let after = inserted(data, key, value);
    if has_key(data, key) {
        let i = choose|i: int| 0 <= i < data.len() && (#[trigger] data[i]).0 == key;
        assert(after[i] == (key, value));
    } else {
        assert(after[data.len() as int] == (key, value));
    }
    assert(forall|i: int| 0 <= i < data.len() ==> (#[trigger] after[i]).0 == data[i].0);
}

/// Adding a value does what the fallible variant does where that succeeds, and
/// where that fails keeps the error that it returns as the text of the value. The
/// fallible variant fails exactly if the serialization did. A failure to read or
/// write, which is none of `serde_json::to_value`, may display another text each
/// time: then the text that is kept is one with which the error can be returned.
pub proof fn law_kept_error_is_the_returned_one(
    check: CheckView,
    key: Seq<char>,
    value: Serialized,
    kept: CheckView,
    tried: Result<CheckView, CheckErrorView>,
)
    requires
        keeps(check, key, value, kept),
        tries(check, key, value, tried),
    ensures
        tried is Err <==> value is Err,
        tried is Ok ==> kept == tried->Ok_0,
        tried is Err ==> tried->Err_0.source == Some(value->Err_0),
        tried is Err && !is_io(value->Err_0) ==> kept == (CheckView {
            status: check.status,
            data: inserted(check.data, key, Json::Text(failure_text(tried->Err_0.message))),
        }),
        tried is Err ==> exists|error: CheckErrorView| #[trigger]
            tries(check, key, value, Err(error)) && kept == (CheckView {
                status: check.status,
                data: inserted(check.data, key, Json::Text(failure_text(error.message))),
            }),
{
    if tried is Err {
        let text = choose|text: Seq<char>| #[trigger]
            displays(value->Err_0, text) && kept == check.with(
                key,
                Json::Text(failure_text(text)),
            );
        let error = CheckErrorView { message: text, source: Some(value->Err_0) };
        assert(tries(check, key, value, Err(error)));
    }
}

/// What the members are after a key was given a value, place by place.
proof fn lemma_places(data: Members, key: Seq<char>, value: Json)
    ensures
        forall|i: int|
            0 <= i < data.len() && (#[trigger] data[i]).0 != key ==> inserted(data, key, value)[i]
                == data[i],
        forall|i: int|
            0 <= i < data.len() && (#[trigger] data[i]).0 == key ==> inserted(data, key, value)[i]
                == (key, value),
        (exists|i: int| 0 <= i < data.len() && (#[trigger] data[i]).0 == key) ==> inserted(
            data,
            key,
            value,
        ).len() == data.len(),
        (forall|i: int| 0 <= i < data.len() ==> (#[trigger] data[i]).0 != key) ==> inserted(
            data,
            key,
            value,
        ) == data.push((key, value)),
{
}

/// Adding a value that could be serialized keeps the status of the check, whatever
/// it is, and all data under other keys where they are. The value takes the place
/// of the one that the key had before, or else comes last.
pub proof fn law_value_is_added(
    check: Check,
    key: &str,
    value: serde_json::Value,
    changed: Check,
)
    requires
        call_ensures(Check::with_data, (check, key, Ok(value)), changed),
    ensures
        changed@.status == check@.status,
        forall|i: int|
            0 <= i < check@.data.len() && (#[trigger] check@.data[i]).0 != key@
                ==> changed@.data[i] == check@.data[i],
        forall|i: int|
            0 <= i < check@.data.len() && (#[trigger] check@.data[i]).0 == key@
                ==> changed@.data[i] == (key@, json(value)),
        (exists|i: int| 0 <= i < check@.data.len() && (#[trigger] check@.data[i]).0 == key@)
            ==> changed@.data.len() == check@.data.len(),
        (forall|i: int| 0 <= i < check@.data.len() ==> (#[trigger] check@.data[i]).0 != key@)
            ==> changed@.data == check@.data.push((key@, json(value))),
{
    lemma_places(check@.data, key@, json(value));
}

/// The fallible variant does the same, and does not fail.
pub proof fn law_value_is_added_by_the_fallible_variant(
    check: Check,
    key: &str,
    value: serde_json::Value,
    tried: Result<Check, CheckError>,
)
    requires
        call_ensures(Check::try_with_data, (check, key, Ok(value)), tried),
    ensures
        tried is Ok,
        tried->Ok_0@.status == check@.status,
        forall|i: int|
            0 <= i < check@.data.len() && (#[trigger] check@.data[i]).0 != key@
                ==> tried->Ok_0@.data[i] == check@.data[i],
        forall|i: int|
            0 <= i < check@.data.len() && (#[trigger] check@.data[i]).0 == key@
                ==> tried->Ok_0@.data[i] == (key@, json(value)),
        (exists|i: int| 0 <= i < check@.data.len() && (#[trigger] check@.data[i]).0 == key@)
            ==> tried->Ok_0@.data.len() == check@.data.len(),
        (forall|i: int| 0 <= i < check@.data.len() ==> (#[trigger] check@.data[i]).0 != key@)
            ==> tried->Ok_0@.data == check@.data.push((key@, json(value))),
{
    lemma_places(check@.data, key@, json(value));
}

/// Adding a value that could not be serialized keeps the status of the check and
/// all data under other keys where they are. The value is a text that gives what
/// the error displays, in the place of the value that the key had before, or else
/// last.
pub proof fn law_failure_is_added_as_text(
    check: Check,
    key: &str,
    error: serde_json::Error,
    changed: Check,
)
    requires
        call_ensures(Check::with_data, (check, key, Err(error)), changed),
    ensures
        changed@.status == check@.status,
        forall|i: int|
            0 <= i < check@.data.len() && (#[trigger] check@.data[i]).0 != key@
                ==> changed@.data[i] == check@.data[i],
        (exists|i: int| 0 <= i < check@.data.len() && (#[trigger] check@.data[i]).0 == key@)
            ==> changed@.data.len() == check@.data.len(),
        exists|shown: String| #[trigger]
            vstd::string::to_string_from_display_ensures(&error, shown) && {
                let text = Json::Text("failed to serialize health data: "@ + shown@);
                &&& forall|i: int|
                    0 <= i < check@.data.len() && (#[trigger] check@.data[i]).0 == key@
                        ==> changed@.data[i] == (key@, text)
                &&& (forall|i: int|
                    0 <= i < check@.data.len() ==> (#[trigger] check@.data[i]).0 != key@)
                    ==> changed@.data == check@.data.push((key@, text))
                &&& !is_io(error) ==> shown@ == error_text(error)
            },
{
    let text = choose|text: Seq<char>| #[trigger]
        displays(error, text) && changed@ == check@.with(key@, Json::Text(failure_text(text)));
    lemma_places(check@.data, key@, Json::Text(failure_text(text)));
    let shown = choose|shown: String| #[trigger]
        vstd::string::to_string_from_display_ensures(&error, shown) && shown@ == text;
    assert(vstd::string::to_string_from_display_ensures(&error, shown));
}

/// The fallible variant fails where the value could not be serialized, with what
/// the error displays, and hands the error itself on.
pub proof fn law_failure_is_returned(
    check: Check,
    key: &str,
    error: serde_json::Error,
    tried: Result<Check, CheckError>,
)
    requires
        call_ensures(Check::try_with_data, (check, key, Err(error)), tried),
    ensures
        tried is Err,
        tried->Err_0@.source == Some(error),
        exists|shown: String| #[trigger]
            vstd::string::to_string_from_display_ensures(&error, shown) && shown@
                == tried->Err_0@.message,
        !is_io(error) ==> tried->Err_0@.message == error_text(error),
{
}

/// The text for data that could not be serialized ends with the error.
pub proof fn law_failure_note(error: &str, note: String)
    requires
        call_ensures(failure_note, (error,), note),
    ensures
        note@ == "failed to serialize health data: "@ + error@,
{
}

} // verus!
