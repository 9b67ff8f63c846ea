//! The bodies of the two requests, and their JSON form.

use crate::content_string::ContentString;
use crate::error::ClientError;
use crate::json::{decimal, string_literal, usize_to_json};
use vstd::prelude::*;

verus! {

/// Body of the request that hands a text to the service.
#[derive(Debug)]
pub struct InputPayload {
    pub input: ContentString,
}

/// Body of the request that asks the service for a text. Either field may be
/// absent; an absent field is sent as `null`, never left out.
#[derive(Debug)]
pub struct GeneratePayload {
    pub start: Option<ContentString>,
    pub max_length: Option<usize>,
}

/// The JSON text of an optional value: `value` itself, or `null` where there
/// is none.
pub open spec fn or_null(value: Option<Seq<char>>) -> Seq<char> {
    match value {
        Some(json) => json,
        None => "null"@,
    }
}

impl InputPayload {
    /// The object with the one member `input`, whose value is the JSON text
    /// `input`.
    pub open spec fn object(input: Seq<char>) -> Seq<char> {
        "{\"input\":"@ + input + "}"@
    }

    /// The payload as JSON.
    pub open spec fn json(&self) -> Seq<char> {
        Self::object(string_literal(self.input@))
    }

    /// Writes the object around `input`, the JSON text of its member's value.
    pub fn frame(input: &str) -> (r: String)
        ensures
            r@ == Self::object(input@),
    {
        let mut out = String::from_str("{\"input\":");
        out.append(input);
        out.append("}");
        out
    }

    /// Writes the payload as JSON.
    pub fn to_json(&self) -> (r: Result<String, ClientError>)
        ensures
            r matches Ok(json) && json@ == self.json(),
    {
        match self.input.to_json() {
            Ok(input) => Ok(Self::frame(input.as_str())),
            Err(e) => Err(ClientError::Json(e)),
        }
    }
}

impl GeneratePayload {
    /// The object with the members `start` and `max_length`, in this order,
    /// whose values are the given JSON texts, or `null`.
    pub open spec fn object(start: Option<Seq<char>>, max_length: Option<Seq<char>>) -> Seq<char> {
        "{\"start\":"@ + or_null(start) + ",\"max_length\":"@ + or_null(max_length) + "}"@
    }

    /// The payload as JSON.
    pub open spec fn json(&self) -> Seq<char> {
        Self::object(
            match self.start {
                Some(text) => Some(string_literal(text@)),
                None => None,
            },
            match self.max_length {
                Some(n) => Some(decimal(n as nat)),
                None => None,
            },
        )
    }

    /// Writes the object around the JSON texts of its members' values.
    pub fn frame(start: Option<&str>, max_length: Option<&str>) -> (r: String)
        ensures
            r@ == Self::object(
                match start {
                    Some(json) => Some(json@),
                    None => None,
                },
                match max_length {
                    Some(json) => Some(json@),
                    None => None,
                },
            ),
    {
        let mut out = String::from_str("{\"start\":");
        match start {
            Some(json) => out.append(json),
            None => out.append("null"),
        }
        out.append(",\"max_length\":");
        match max_length {
            Some(json) => out.append(json),
            None => out.append("null"),
        }
        out.append("}");
        out
    }

    /// Writes the payload as JSON.
    pub fn to_json(&self) -> (r: Result<String, ClientError>)
        ensures
            r matches Ok(json) && json@ == self.json(),
    {
        let start: Option<String> = match &self.start {
            Some(text) => match text.to_json() {
                Ok(json) => Some(json),
                Err(e) => {
                    return Err(ClientError::Json(e));
                },
            },
            None => None,
        };
        let max_length: Option<String> = match self.max_length {
            Some(n) => match usize_to_json(n) {
                Ok(json) => Some(json),
                Err(e) => {
                    return Err(ClientError::Json(e));
                },
            },
            None => None,
        };
        Ok(
            Self::frame(
                match &start {
                    Some(json) => Some(json.as_str()),
                    None => None,
                },
                match &max_length {
                    Some(json) => Some(json.as_str()),
                    None => None,
                },
            ),
        )
    }
}

} // verus!
