use vstd::prelude::*;

verus! {

/// The key a device pops from to receive the next message it should display: `ob:<id>`.
pub open spec fn spec_device_message_queue_id(input: Seq<char>) -> Seq<char> {
    seq!['o', 'b', ':'] + input
}

/// Creates the key that will be popped from on the device to receive the next message it should
/// display.
pub fn device_message_queue_id(input: &str) -> (key: String)
    ensures
        key@ == spec_device_message_queue_id(input@),
{
    let prefix = String::from_str("ob:");
    proof {
        reveal_strlit("ob:");
    }
    let key = prefix.concat(input);
    key
}

/// A value of a response read from redis by the platform's workers.
#[derive(Debug, Clone, PartialEq, Eq)]
pub enum QueueValue {
    /// The empty response.
    Empty,
    /// A bulk string.
    String(String),
    /// An integer.
    Integer(i64),
}

/// A response read from redis by the platform's workers.
#[derive(Debug, Clone, PartialEq, Eq)]
pub enum QueueResponse {
    /// A multi value response.
    Array(Vec<QueueValue>),
    /// A single value.
    Item(QueueValue),
    /// The error message returned from redis.
    Error,
}

/// What a pop from one of the platform's queues produced.
#[derive(Debug, Clone, PartialEq, Eq)]
pub enum Popped {
    /// The queue was empty.
    Empty,
    /// The response did not have the expected shape.
    Unexpected,
    /// The popped entry.
    Payload(String),
}

/// What a pop produced: the single string of a plain pop, or the second value (after the name
/// of the list) of a blocking pop.
pub open spec fn spec_popped(response: QueueResponse) -> Popped {
    match response {
        QueueResponse::Item(QueueValue::Empty) => Popped::Empty,
        QueueResponse::Item(QueueValue::String(payload)) => Popped::Payload(payload),
        QueueResponse::Array(values) => if values@.len() > 1 {
            match values@[1] {
                QueueValue::String(payload) => Popped::Payload(payload),
                _ => Popped::Unexpected,
            }
        } else {
            Popped::Unexpected
        },
        _ => Popped::Unexpected,
    }
}

/// Reads the entry a pop from one of the platform's queues produced.
pub fn popped(response: &QueueResponse) -> (entry: Popped)
    ensures
        entry == spec_popped(*response),
{
    match response {
        QueueResponse::Item(QueueValue::Empty) => Popped::Empty,
        QueueResponse::Item(QueueValue::String(payload)) => Popped::Payload(payload.clone()),
        QueueResponse::Array(values) => if values.len() > 1 {
            match &values[1] {
                QueueValue::String(payload) => Popped::Payload(payload.clone()),
                _ => Popped::Unexpected,
            }
        } else {
            Popped::Unexpected
        },
        _ => Popped::Unexpected,
    }
}

/// How many stale renders wait in a device's queue, read from the response to a length query.
#[derive(Debug, Clone, Copy, PartialEq, Eq)]
pub enum PendingRenders {
    /// The response was not an integer.
    Invalid,
    /// There is nothing to remove.
    Clear,
    /// This many entries should be trimmed away.
    Stale(i64),
}

/// Reads the response to the length query of a device's queue: a positive count is trimmed, any
/// other count leaves the queue alone.
pub fn pending_renders(response: &QueueResponse) -> (pending: PendingRenders)
    ensures
        match *response {
            QueueResponse::Item(QueueValue::Integer(count)) => if count <= 0 {
                pending is Clear
            } else {
                pending == PendingRenders::Stale(count)
            },
            _ => pending is Invalid,
        },
{
    match response {
        QueueResponse::Item(QueueValue::Integer(count)) => if *count <= 0 {
            PendingRenders::Clear
        } else {
            PendingRenders::Stale(*count)
        },
        _ => PendingRenders::Invalid,
    }
}

} // verus!
