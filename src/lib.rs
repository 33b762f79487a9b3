use vstd::prelude::*;

pub mod classify;
pub mod lemmas;
pub mod capture;
pub mod service;

verus! {

/// A text message carried between the client and the server.
#[derive(Debug)]
pub struct Message {
    pub content: String,
}

/// Builds a message holding a copy of `content`.
pub fn create_message(content: &str) -> (r: Message)
    ensures
        r.content@ == content@,
{
    Message { content: content.to_string() }
}

/// A numbered request sent by the client, stamped with its send time.
#[derive(Debug)]
pub struct Ping {
    pub id: u32,
    pub timestamp: u64,
}

/// The server's answer to the `Ping` with the same `id`.
#[derive(Debug)]
pub struct Pong {
    pub id: u32,
    pub timestamp: u64,
}

} // verus!
