//! Errors that the Hook0 API reports.

use vstd::prelude::*;

use crate::json::{json_option, parsed_json, string_field, JsonValue, JsonView};
use crate::text::text_eq;
use crate::text_map::{lemma_position, lemma_position_unique, position};

verus! {

/// What the Hook0 API says is wrong with a request.
#[derive(Debug, Clone, Copy, PartialEq, Eq, Structural)]
pub enum Hook0ErrorId {
    EventTypeDoesNotExist,
    EventAlreadyIngested,
    InternalServerError,
    InvalidEventId,
    InvalidPayload,
    Unauthorized,
    RateLimitExceeded,
}

/// The error with the given identifier. An identifier that is not known stands
/// for an error inside the server.
pub open spec fn error_named(id: Seq<char>) -> Hook0ErrorId {
    if id == "EventTypeDoesNotExist"@ {
        Hook0ErrorId::EventTypeDoesNotExist
    } else if id == "EventAlreadyIngested"@ {
        Hook0ErrorId::EventAlreadyIngested
    } else if id == "InvalidEventId"@ {
        Hook0ErrorId::InvalidEventId
    } else if id == "InvalidPayload"@ {
        Hook0ErrorId::InvalidPayload
    } else if id == "Unauthorized"@ {
        Hook0ErrorId::Unauthorized
    } else if id == "RateLimitExceeded"@ {
        Hook0ErrorId::RateLimitExceeded
    } else {
        Hook0ErrorId::InternalServerError
    }
}

/// The error that the body of a response names in its field `id`. A body that
/// names none stands for an error inside the server.
pub open spec fn error_in(details: Option<JsonView>) -> Hook0ErrorId {
    match details {
        Some(value) => match string_field(value, "id"@) {
            Some(id) => error_named(id),
            None => Hook0ErrorId::InternalServerError,
        },
        None => Hook0ErrorId::InternalServerError,
    }
}

impl Hook0ErrorId {
    /// The error with the given identifier.
    pub fn from(id: &str) -> (error: Hook0ErrorId)
        ensures
            error == error_named(id@),
    {
        if text_eq(id, "EventTypeDoesNotExist") {
            Hook0ErrorId::EventTypeDoesNotExist
        } else if text_eq(id, "EventAlreadyIngested") {
            Hook0ErrorId::EventAlreadyIngested
        } else if text_eq(id, "InvalidEventId") {
            Hook0ErrorId::InvalidEventId
        } else if text_eq(id, "InvalidPayload") {
            Hook0ErrorId::InvalidPayload
        } else if text_eq(id, "Unauthorized") {
            Hook0ErrorId::Unauthorized
        } else if text_eq(id, "RateLimitExceeded") {
            Hook0ErrorId::RateLimitExceeded
        } else {
            Hook0ErrorId::InternalServerError
        }
    }

    /// The error that the body of a response names, given what the body was
    /// read as.
    pub fn from_details(details: &Option<JsonValue>) -> (error: Hook0ErrorId)
        ensures
            error == error_in(json_option(*details)),
    {
        match details {
            Some(value) => match value.get_str("id") {
                Some(id) => Hook0ErrorId::from(id.as_str()),
                None => Hook0ErrorId::InternalServerError,
            },
            None => Hook0ErrorId::InternalServerError,
        }
    }

    /// The error that the body of a response names.
    pub fn from_body(body: &str) -> (error: Hook0ErrorId)
        ensures
            error == error_in(parsed_json(body@)),
    {
        Hook0ErrorId::from_details(&JsonValue::parse(body))
    }
}

/// Each error has a name of its own, and every other name stands for an error
/// inside the server.
pub proof fn law_errors_have_names(id: Seq<char>)
    ensures
        error_named(id) is EventTypeDoesNotExist <==> id == "EventTypeDoesNotExist"@,
        error_named(id) is EventAlreadyIngested <==> id == "EventAlreadyIngested"@,
        error_named(id) is InvalidEventId <==> id == "InvalidEventId"@,
        error_named(id) is InvalidPayload <==> id == "InvalidPayload"@,
        error_named(id) is Unauthorized <==> id == "Unauthorized"@,
        error_named(id) is RateLimitExceeded <==> id == "RateLimitExceeded"@,
{
    reveal_strlit("EventTypeDoesNotExist");
    reveal_strlit("EventAlreadyIngested");
    reveal_strlit("InvalidEventId");
    reveal_strlit("InvalidPayload");
    reveal_strlit("Unauthorized");
    reveal_strlit("RateLimitExceeded");
    assert("EventTypeDoesNotExist"@.len() == 21 && "EventAlreadyIngested"@.len() == 20);
    assert("InvalidEventId"@[7] == 'E' && "InvalidPayload"@[7] == 'P');
    assert("Unauthorized"@.len() == 12 && "RateLimitExceeded"@.len() == 17);
}

/// The error of a body is the one that the string in its member `id` names. A body
/// that is no JSON object, that has no such member, or that has no string there,
/// stands for an error inside the server.
pub proof fn law_the_member_id_names_the_error(value: JsonView, at: int)
    ensures
        error_in(None) is InternalServerError,
        value.members is None ==> error_in(Some(value)) is InternalServerError,
        value.members matches Some(members) ==> {
            &&& (forall|i: int| 0 <= i < members.len() ==> (#[trigger] members[i]).0 != "id"@)
                ==> error_in(Some(value)) is InternalServerError
            &&& (0 <= at < members.len() && members[at].0 == "id"@ && forall|i: int|
                0 <= i < at ==> (#[trigger] members[i]).0 != "id"@) ==> error_in(Some(value)) == (
            match members[at].1 {
                Some(id) => error_named(id),
                None => Hook0ErrorId::InternalServerError,
            })
        },
{
    if let Some(members) = value.members {
        lemma_position(members, "id"@);
        let p = position(members, "id"@) as int;
        if p < members.len() {
            assert(members[p].0 == "id"@);
        }
        if 0 <= at < members.len() && members[at].0 == "id"@ && forall|i: int|
            0 <= i < at ==> (#[trigger] members[i]).0 != "id"@ {
            lemma_position_unique(members, "id"@, at);
        }
    }
}

} // verus!
