use vstd::prelude::*;
use crate::db::repos::DbRepoError;
use crate::db::services::DbServiceError;
use crate::json::{Json, JsonValue};

verus! {

/// The error that the engine reports: a description, where it happened,
/// the value at fault and a JSON reason.
#[derive(Debug)]
pub struct ErrorDefinition {
    pub description: String,
    pub location: Option<String>,
    pub value: JsonValue,
    pub reason: JsonValue,
}

/// The mathematical value of an [`ErrorDefinition`].
pub struct ErrorView {
    pub description: Seq<char>,
    pub location: Option<Seq<char>>,
    pub value: Json,
    pub reason: Json,
}

impl View for ErrorDefinition {
    type V = ErrorView;

    open spec fn view(&self) -> ErrorView {
        ErrorView {
            description: self.description@,
            location: match self.location {
                Some(l) => Some(l@),
                None => None,
            },
            value: self.value@,
            reason: self.reason@,
        }
    }
}

/// The error with this description and reason, and no location or value.
pub open spec fn error_of(description: Seq<char>, reason: Json) -> ErrorView {
    ErrorView { description, location: None, value: Json::Null, reason }
}

/// The error with this description and the reason `{"error": text}`.
pub open spec fn error_with(description: Seq<char>, text: Seq<char>) -> ErrorView {
    error_of(description, Json::single("error"@, Json::Str(text)))
}

/// The shape of an [`ErrorDefinition`], as the contracts speak of it.
pub open spec fn error_is(e: ErrorDefinition, description: Seq<char>, reason: Json) -> bool {
    e@ == error_of(description, reason)
}

impl ErrorDefinition {
    pub fn new(description: String, location: String, value: JsonValue) -> (r: ErrorDefinition)
        ensures
            r.description@ == description@,
            r.location matches Some(l) && l@ == location@,
            r.value@ == value@,
            r.reason@ == Json::empty_object(),
    {
        ErrorDefinition { description, location: Some(location), value, reason: JsonValue::empty_object() }
    }

    /// An error with a description alone.
    pub fn empty(description: String) -> (r: ErrorDefinition)
        ensures
            error_is(r, description@, Json::empty_object()),
    {
        ErrorDefinition { description, location: None, value: JsonValue::Null, reason: JsonValue::empty_object() }
    }

    /// An error with a description and a JSON reason.
    pub fn with_reason(description: String, reason: JsonValue) -> (r: ErrorDefinition)
        ensures
            error_is(r, description@, reason@),
    {
        ErrorDefinition { description, location: None, value: JsonValue::Null, reason }
    }

    /// An error whose reason is `{"error": error}`.
    pub fn with_error(description: &str, error: String) -> (r: ErrorDefinition)
        ensures
            error_is(r, description@, Json::single("error"@, Json::Str(error@))),
    {
        ErrorDefinition::with_reason(description.to_string(), JsonValue::single_member("error", JsonValue::String(error)))
    }

    /// The error as the JSON object `{description, location, value, reason}`.
    pub fn as_json(&self) -> (r: JsonValue)
        ensures
            r@.get("description"@) == Some(Json::Str(self.description@)),
            r@.get("location"@) == Some(
                match self.location {
                    Some(l) => Json::Str(l@),
                    None => Json::Null,
                },
            ),
            r@.get("value"@) == Some(self.value@),
            r@.get("reason"@) == Some(self.reason@),
            r@ matches Json::Object(m) && m.len() == 4,
    {
        let location = match &self.location {
            Some(l) => JsonValue::String(l.clone()),
            None => JsonValue::Null,
        };
        let mut members: Vec<(String, JsonValue)> = Vec::new();
        members.push(("description".to_string(), JsonValue::String(self.description.clone())));
        members.push(("location".to_string(), location));
        members.push(("value".to_string(), self.value.deep_copy()));
        members.push(("reason".to_string(), self.reason.deep_copy()));
        let r = JsonValue::Object(members);
        proof {
            crate::json::lemma_json_of_members(members@);
            let m = crate::json::json_of_members(members@);
            reveal_strlit("description");
            reveal_strlit("location");
            reveal_strlit("value");
            reveal_strlit("reason");
            assert(m[0].0 == "description"@ && m[1].0 == "location"@ && m[2].0 == "value"@ && m[3].0 == "reason"@);
            assert("description"@.len() == 11 && "location"@.len() == 8 && "value"@.len() == 5 && "reason"@.len() == 6);
            crate::json::lemma_member_lookup_first(m, "description"@, 0);
            crate::json::lemma_member_lookup_first(m, "location"@, 1);
            crate::json::lemma_member_lookup_first(m, "value"@, 2);
            crate::json::lemma_member_lookup_first(m, "reason"@, 3);
        }
        r
    }

    /// The error that a database service error stands for.
    pub fn from_db(err: &DbServiceError) -> (r: ErrorDefinition)
        ensures
            err is NotFound ==> error_is(r, "Not found"@, Json::empty_object()),
            err matches DbServiceError::QueryError(text) ==> error_is(r, "DbService error"@, Json::single("error"@, Json::Str(text@))),
    {
        match err {
            DbServiceError::NotFound => ErrorDefinition::empty("Not found".to_string()),
            DbServiceError::QueryError(text) => ErrorDefinition::with_error("DbService error", text.clone()),
        }
    }
}

} // verus!
