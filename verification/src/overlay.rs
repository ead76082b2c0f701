//! The per-field override rules of the two outer layers.
//!
//! Each rule takes the value that the lower layers established and the
//! answer of its source, and returns the value that holds afterwards.

use crate::models::ConnectionType;
use crate::text::{parse_u16, parse_u32, parse_unsigned, text_eq, trim, trimmed};
use vstd::prelude::*;

verus! {

/// Store rule for the connection type. A missing answer keeps the prior
/// value; an answer selects `Serial` where its trimmed text is exactly
/// `SERIAL`, and `Network` in every other case.
pub open spec fn store_connection_type(
    prior: ConnectionType,
    answer: Option<Seq<char>>,
) -> ConnectionType {
    match answer {
        Some(raw) => if trimmed(raw) == "SERIAL"@ {
            ConnectionType::Serial
        } else {
            ConnectionType::Network
        },
        None => prior,
    }
}

/// Store rule for a text field. The trimmed answer replaces the prior
/// value unless the answer is missing or empty.
pub open spec fn store_text(prior: Seq<char>, answer: Option<Seq<char>>) -> Seq<char> {
    match answer {
        Some(raw) => if trimmed(raw).len() > 0 {
            trimmed(raw)
        } else {
            prior
        },
        None => prior,
    }
}

/// Environment rule for the connection type. Only the exact texts `SERIAL`
/// and `NETWORK` select a value; anything else keeps the prior one.
pub open spec fn env_connection_type(
    prior: ConnectionType,
    answer: Option<Seq<char>>,
) -> ConnectionType {
    match answer {
        Some(text) => if text == "SERIAL"@ {
            ConnectionType::Serial
        } else if text == "NETWORK"@ {
            ConnectionType::Network
        } else {
            prior
        },
        None => prior,
    }
}

/// Environment rule for a text field. A variable that is set replaces the
/// prior value with its text as it stands.
pub open spec fn env_text(prior: Seq<char>, answer: Option<Seq<char>>) -> Seq<char> {
    match answer {
        Some(text) => text,
        None => prior,
    }
}

/// Environment rule for a numeric field with values up to `max`. A variable
/// replaces the prior value only where its text denotes such a number.
pub open spec fn env_number(prior: nat, answer: Option<Seq<char>>, max: nat) -> nat {
    match answer {
        Some(text) => match parse_unsigned(text, max) {
            Some(value) => value,
            None => prior,
        },
        None => prior,
    }
}

/// Applies the store's answer to the connection type.
pub fn connection_type_from_store(
    prior: ConnectionType,
    answer: &Option<String>,
) -> (ct: ConnectionType)
    ensures
        ct == store_connection_type(prior, answer.deep_view()),
{
    match answer {
        Some(raw) => {
            if text_eq(trim(raw.as_str()), "SERIAL") {
                ConnectionType::Serial
            } else {
                ConnectionType::Network
            }
        },
        None => prior,
    }
}

/// Applies the store's answer to a text field.
pub fn text_from_store(prior: String, answer: &Option<String>) -> (text: String)
    ensures
        text@ == store_text(prior@, answer.deep_view()),
{
    match answer {
        Some(raw) => {
            let value = trim(raw.as_str());
            if value.unicode_len() > 0 {
                value.to_string()
            } else {
                prior
            }
        },
        None => prior,
    }
}

/// Applies an environment variable to the connection type.
pub fn connection_type_from_env(
    prior: ConnectionType,
    answer: &Option<String>,
) -> (ct: ConnectionType)
    ensures
        ct == env_connection_type(prior, answer.deep_view()),
{
    match answer {
        Some(text) => {
            if text_eq(text.as_str(), "SERIAL") {
                ConnectionType::Serial
            } else if text_eq(text.as_str(), "NETWORK") {
                ConnectionType::Network
            } else {
                prior
            }
        },
        None => prior,
    }
}

/// Applies an environment variable to a text field.
pub fn text_from_env(prior: String, answer: Option<String>) -> (text: String)
    ensures
        text@ == env_text(prior@, answer.deep_view()),
{
    match answer {
        Some(text) => text,
        None => prior,
    }
}

/// Applies an environment variable to a 16-bit numeric field.
pub fn u16_from_env(prior: u16, answer: &Option<String>) -> (value: u16)
    ensures
        value == env_number(prior as nat, answer.deep_view(), u16::MAX as nat),
{
    match answer {
        Some(text) => match parse_u16(text.as_str()) {
            Some(value) => value,
            None => prior,
        },
        None => prior,
    }
}

/// Applies an environment variable to a 32-bit numeric field.
pub fn u32_from_env(prior: u32, answer: &Option<String>) -> (value: u32)
    ensures
        value == env_number(prior as nat, answer.deep_view(), u32::MAX as nat),
{
    match answer {
        Some(text) => match parse_u32(text.as_str()) {
            Some(value) => value,
            None => prior,
        },
        None => prior,
    }
}

} // verus!
