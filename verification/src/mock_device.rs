//! What the device mocks make of the responses they read.

use vstd::prelude::*;
use crate::mock_reader::{BulkStringLocation, MessageState};
use crate::redis_reader::{buffers_view, RedisResponse};
use crate::config::RegistrarConfiguration;
use crate::redis::{QueueResponse, QueueValue};

verus! {

/// The image carried by the response of a blocking list pop: the second of exactly two bulk
/// strings (the first names the list that was popped).
pub open spec fn spec_popped_image(response: RedisResponse) -> Option<Seq<u8>> {
    match response {
        RedisResponse::Array(items) => if items@.len() == 2 {
            Some(buffers_view(items@)[1])
        } else {
            None
        },
        _ => None,
    }
}

/// The image carried by the response of a blocking list pop, if it carries one.
pub fn popped_image(response: &RedisResponse) -> (image: Option<&Vec<u8>>)
    ensures
        match image {
            Some(bytes) => spec_popped_image(*response) == Some(bytes@),
            None => spec_popped_image(*response) is None,
        },
{
    match response {
        RedisResponse::Array(items) => {
            if items.len() == 2 {
                Some(&items[1])
            } else {
                None
            }
        },
        _ => None,
    }
}

/// Where the image lies in a frame whose first `header_size` bytes were read by the character
/// reader: when the reader stopped inside a bulk string of announced length `length`, the image
/// is the `length` bytes after the header, provided the frame holds them all.
pub open spec fn spec_image_span(state_length: Option<usize>, header_size: usize, frame_len: usize) -> Option<
    (usize, usize),
> {
    match state_length {
        Some(length) => if header_size > 0 && header_size + length <= frame_len {
            Some((header_size, (header_size + length) as usize))
        } else {
            None
        },
        None => None,
    }
}

/// The announced length of the bulk string the reader stopped inside, if it stopped inside one.
pub open spec fn reading_length(state: MessageState) -> Option<usize> {
    match state {
        MessageState::BulkString(BulkStringLocation::Reading(length, _, _), _) => Some(length),
        _ => None,
    }
}

/// The byte range of the image in a frame, given where the character reader stopped.
pub fn image_span(state: &MessageState, header_size: usize, frame_len: usize) -> (span: Option<
    (usize, usize),
>)
    ensures
        span == spec_image_span(reading_length(*state), header_size, frame_len),
{
    match state {
        MessageState::BulkString(BulkStringLocation::Reading(length, _, _), _) => {
            if header_size > 0 && *length <= frame_len && header_size <= frame_len - *length {
                Some((header_size, header_size + *length))
            } else {
                None
            }
        },
        _ => None,
    }
}

/// The credentials a device burns in to take an id from the pool: the configured username and
/// password, both of which must be set.
pub fn burn_in_credentials(config: &RegistrarConfiguration) -> (credentials: Result<(String, String), String>)
    ensures
        match credentials {
            Ok((user, password)) => config.id_consumer_username == Some(user)
                && config.id_consumer_password == Some(password),
            Err(message) => (config.id_consumer_username is None || config.id_consumer_password is None)
                && message@ == "Configuration is missing registrar burn-in credentials"@,
        },
{
    match (&config.id_consumer_username, &config.id_consumer_password) {
        (Some(user), Some(password)) => Ok((user.clone(), password.clone())),
        _ => Err(String::from_str("Configuration is missing registrar burn-in credentials")),
    }
}

/// Whether redis accepted an authentication: it answers the single string `OK`.
pub open spec fn spec_accepted_auth(response: QueueResponse) -> bool {
    response matches QueueResponse::Item(QueueValue::String(reply)) && reply@ == "OK"@
}

/// Whether redis accepted an authentication.
pub fn accepted_auth(response: &QueueResponse) -> (accepted: bool)
    ensures
        accepted == spec_accepted_auth(*response),
{
    match response {
        QueueResponse::Item(QueueValue::String(reply)) => *reply == String::from_str("OK"),
        _ => false,
    }
}

/// The id a device took from the pool: the single string of the pop's response.
pub fn taken_id(response: &QueueResponse) -> (id: Option<String>)
    ensures
        match *response {
            QueueResponse::Item(QueueValue::String(taken)) => id == Some(taken),
            _ => id is None,
        },
{
    match response {
        QueueResponse::Item(QueueValue::String(taken)) => Some(taken.clone()),
        _ => None,
    }
}

} // verus!
