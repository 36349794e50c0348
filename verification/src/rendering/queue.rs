use vstd::prelude::*;
use super::RenderVariant;

verus! {

/// When adding messages that will be popped by our renderer, associate each with some kind of
/// authority so we can trace back why things appeared.
#[derive(Debug, Clone, PartialEq, Eq)]
pub enum QueuedRenderAuthority {
    /// The queued render was sent by the cli.
    CommandLine,
    /// The queued render was sent by the registrar.
    Registrar,
    /// The queued render was sent by a user.
    User(String),
}

/// The schema of the messages pushed onto the rendering queue and popped by the renderer.
#[derive(Debug, Clone, PartialEq)]
pub struct QueuedRender<S> {
    /// A unique id associated with this attempt.
    pub id: String,
    /// The authority.
    pub auth: QueuedRenderAuthority,
    /// The content.
    pub layout: RenderVariant<S>,
    /// The target.
    pub device_id: String,
}

/// Wraps a connection and the secret used to seal queued renders: everything needed to add
/// messages to the rendering queue.
pub struct Queue<'a, C> {
    /// The underlying connection to redis.
    pub connection: &'a mut C,
    /// The secret being used to encrypt.
    pub secret: &'a String,
}

impl<'a, C> Queue<'a, C> {
    /// Creates the rendering queue around a connection.
    pub fn new(connection: &'a mut C, secret: &'a String) -> (queue: Self)
        ensures
            *queue.connection == *old(connection),
            *queue.secret == *secret,
    {
        Queue { connection, secret }
    }
}

} // verus!
