//! The result of a single health check: a status with diagnostic data.
use crate::json::{
    clone_map, displays, error_message, has_no_members, insert_member, inserted, json, members,
    new_map, object_value, string_value, Json, Members,
};
use crate::status::Status;
use vstd::prelude::*;

verus! {

/// What an error says, and the serialization error that it comes from, if any.
pub struct CheckErrorView {
    pub message: Seq<char>,
    pub source: Option<serde_json::Error>,
}

/// The error of a check that failed, or of data that could not be serialized.
#[derive(Debug)]
pub struct CheckError {
    message: String,
    source: Option<serde_json::Error>,
}

impl View for CheckError {
    type V = CheckErrorView;

    closed spec fn view(&self) -> CheckErrorView {
        CheckErrorView { message: self.message@, source: self.source }
    }
}

impl CheckError {
    /// Creates an error with the given message.
    pub fn new(message: &str) -> (error: Self)
        ensures
            error@ == (CheckErrorView { message: message@, source: None }),
    {
        CheckError { message: message.to_owned(), source: None }
    }

    /// Creates an error with the text that another error displays as its message.
    pub fn from_error<E: core::fmt::Display>(error: &E) -> (created: Self)
        ensures
            exists|text: String| #[trigger]
                vstd::string::to_string_from_display_ensures(error, text) && created@.message
                    == text@,
            created@.source is None,
    {
        CheckError { message: error.to_string(), source: None }
    }

    /// Creates the error of data that could not be serialized.
    pub fn from_serialization(error: serde_json::Error) -> (created: Self)
        ensures
            displays(error, created@.message),
            created@.source == Some(error),
    {
        CheckError { message: error_message(&error), source: Some(error) }
    }

    /// Returns the message.
    pub fn message(&self) -> (message: &str)
        ensures
            message@ == self@.message,
    {
        self.message.as_str()
    }

    /// Returns the serialization error that this error comes from, if any.
    pub fn into_source(self) -> (source: Option<serde_json::Error>)
        ensures
            source == self@.source,
    {
        self.source
    }
}

/// What a check result says.
#[verifier::ext_equal]
pub struct CheckView {
    pub status: Status,
    pub data: Members,
}

impl CheckView {
    /// The result with a data value added.
    pub open spec fn with(self, key: Seq<char>, value: Json) -> CheckView {
        CheckView { status: self.status, data: inserted(self.data, key, value) }
    }

    /// The members of the result on the wire. Without data there is no `data`
    /// member.
    pub open spec fn wire_members(self) -> Members {
        let status: Members = seq![("status"@, Json::Text(self.status.text()))];
        if self.data == Members::empty() {
            status
        } else {
            status.push(("data"@, Json::Object(self.data)))
        }
    }

    /// The result on the wire.
    pub open spec fn wire(self) -> Json {
        Json::Object(self.wire_members())
    }
}

/// What running a check comes to: its result, or the message of its error.
pub type OutcomeView = Result<CheckView, Seq<char>>;

/// A single health check result.
#[derive(Debug, PartialEq)]
pub struct Check {
    status: Status,
    data: serde_json::Map<String, serde_json::Value>,
}

impl View for Check {
    type V = CheckView;

    closed spec fn view(&self) -> CheckView {
        CheckView { status: self.status, data: members(self.data) }
    }
}

impl Clone for Check {
    fn clone(&self) -> (check: Self)
        ensures
            check@ == self@,
    {
        Check { status: self.status, data: clone_map(&self.data) }
    }
}

/// What an outcome says.
pub open spec fn outcome_view(outcome: Result<Check, CheckError>) -> OutcomeView {
    match outcome {
        Ok(check) => Ok(check@),
        Err(error) => Err(error@.message),
    }
}

/// The text that takes the place of data that could not be serialized.
pub open spec fn failure_text(error: Seq<char>) -> Seq<char> {
    "failed to serialize health data: "@ + error
}

/// Returns the text that takes the place of data that could not be serialized.
pub fn failure_note(error: &str) -> (note: String)
    ensures
        note@ == failure_text(error@),
{
    "failed to serialize health data: ".to_owned().concat(error)
}

/// What `serde_json::to_value` made of a data value.
pub type Serialized = Result<serde_json::Value, serde_json::Error>;

/// Whether `kept` is what a check says after a data value was added: the value, or,
/// where it could not be serialized, a text that gives the error.
pub open spec fn keeps(
    check: CheckView,
    key: Seq<char>,
    value: Serialized,
    kept: CheckView,
) -> bool {
    match value {
        Ok(value) => kept == check.with(key, json(value)),
        Err(error) => exists|text: Seq<char>| #[trigger]
            displays(error, text) && kept == check.with(key, Json::Text(failure_text(text))),
    }
}

/// Whether trying to add a data value comes to `tried`: what the check says with
/// the value, or, where it could not be serialized, that error.
pub open spec fn tries(
    check: CheckView,
    key: Seq<char>,
    value: Serialized,
    tried: Result<CheckView, CheckErrorView>,
) -> bool {
    match value {
        Ok(value) => tried == Ok::<CheckView, CheckErrorView>(check.with(key, json(value))),
        Err(error) => tried is Err && tried->Err_0.source == Some(error) && displays(
            error,
            tried->Err_0.message,
        ),
    }
}

/// What a result or an error says.
pub open spec fn tried_view(tried: Result<Check, CheckError>) -> Result<CheckView, CheckErrorView> {
    match tried {
        Ok(check) => Ok(check@),
        Err(error) => Err(error@),
    }
}

impl Check {
    /// Creates an `UP` check result.
    pub fn up() -> (check: Self)
        ensures
            check@ == (CheckView { status: Status::Up, data: Members::empty() }),
    {
        Check { status: Status::Up, data: new_map() }
    }

    /// Creates a `DOWN` check result.
    pub fn down() -> (check: Self)
        ensures
            check@ == (CheckView { status: Status::Down, data: Members::empty() }),
    {
        Check { status: Status::Down, data: new_map() }
    }

    /// Adds a data value to this check: what `serde_json::to_value` made of it.
    ///
    /// Data values should be small and safe to expose to unauthenticated probe
    /// consumers. Where the serialization failed, its error is kept as the data
    /// value. If that should make the health check fail, use
    /// [`Self::try_with_data`] instead.
    pub fn with_data(self, key: &str, value: Serialized) -> (check: Self)
        ensures
            keeps(self@, key@, value, check@),
    {
        let value = match value {
            Ok(value) => value,
            Err(error) => {
                let text = error_message(&error);
                string_value(failure_note(text.as_str()))
            },
        };
        self.with_value(key, value)
    }

    /// Tries to add a data value to this check: what `serde_json::to_value` made
    /// of it.
    ///
    /// This is the fallible variant of [`Self::with_data`] for checks that should
    /// return an error if diagnostic data cannot be serialized.
    pub fn try_with_data(self, key: &str, value: Serialized) -> (check: Result<Self, CheckError>)
        ensures
            tries(self@, key@, value, tried_view(check)),
    {
        match value {
            Ok(value) => Ok(self.with_value(key, value)),
            Err(error) => Err(CheckError::from_serialization(error)),
        }
    }

    /// Adds a JSON value to this check.
    fn with_value(self, key: &str, value: serde_json::Value) -> (check: Self)
        ensures
            check@ == self@.with(key@, json(value)),
    {
        let mut data = self.data;
        insert_member(&mut data, key.to_owned(), value);
        Check { status: self.status, data }
    }

    /// Returns the status and the data.
    pub fn into_parts(self) -> (parts: (
        Status,
        serde_json::Map<String, serde_json::Value>,
    ))
        ensures
            self@ == (CheckView { status: parts.0, data: members(parts.1) }),
    {
        (self.status, self.data)
    }

    /// Returns the result as it goes on the wire.
    pub fn into_json(self) -> (value: serde_json::Value)
        ensures
            json(value) == self@.wire(),
    {
        proof {
            lemma_wire_keys();
        }
        let mut map = new_map();
        insert_member(
            &mut map,
            "status".to_owned(),
            string_value(self.status.as_str().to_owned()),
        );
        if !has_no_members(&self.data) {
            insert_member(&mut map, "data".to_owned(), object_value(self.data));
        }
        assert(members(map) == self@.wire_members());
        object_value(map)
    }
}

/// The keys on the wire are different.
pub(crate) proof fn lemma_wire_keys()
    ensures
        "name"@ != "status"@,
        "name"@ != "data"@,
        "status"@ != "data"@,
        "status"@ != "checks"@,
{
    reveal_strlit("name");
    reveal_strlit("status");
    reveal_strlit("data");
    reveal_strlit("checks");
    assert("name"@[0] == 'n');
    assert("data"@[0] == 'd');
    assert("status"@[0] == 's');
    assert("checks"@[0] == 'c');
}

} // verus!
