//! The pool of ids that new devices take to identify themselves.

use vstd::prelude::*;
use crate::redis::{device_message_queue_id, spec_device_message_queue_id};

verus! {

/// How many new ids to create, given the length of the pool of available ids (when the length
/// could be read) and the minimum pool size: the minimum when the pool holds fewer ids than that,
/// and none otherwise.
pub open spec fn spec_ids_needed(available: Option<i64>, min: u8) -> usize {
    match available {
        Some(amount) => if amount < min {
            min as usize
        } else {
            0
        },
        None => 0,
    }
}

/// How many new ids to create to refill the pool.
pub fn ids_needed(available: Option<i64>, min: u8) -> (count: usize)
    ensures
        count == spec_ids_needed(available, min),
{
    match available {
        Some(amount) => if amount < min as i64 {
            min as usize
        } else {
            0
        },
        None => 0,
    }
}

/// An access control entry granted to a device id.
#[derive(Debug, Clone, PartialEq, Eq)]
pub struct AclEntry {
    /// The user name of the entry.
    pub name: String,
    /// The password of the entry.
    pub password: Option<String>,
    /// The commands the entry may run.
    pub commands: Option<Vec<String>>,
    /// The keys the entry may touch.
    pub keys: Option<String>,
}

/// The abstract value of an access control entry: name, password, commands and keys.
pub struct AclModel {
    /// The user name.
    pub name: Seq<char>,
    /// The password.
    pub password: Option<Seq<char>>,
    /// The commands.
    pub commands: Option<Seq<Seq<char>>>,
    /// The keys.
    pub keys: Option<Seq<char>>,
}

impl View for AclEntry {
    type V = AclModel;

    open spec fn view(&self) -> AclModel {
        AclModel {
            name: self.name@,
            password: crate::schema::opt_text(self.password),
            commands: match self.commands {
                Some(c) => Some(crate::schema::texts_view(c@)),
                None => None,
            },
            keys: crate::schema::opt_text(self.keys),
        }
    }
}

/// The two entries every new id gets: one that may pop from the device's own message queue, and
/// one that may push into the registrar's incoming queue. Both use the id as name and password.
pub open spec fn spec_device_acl_entries(id: Seq<char>) -> (AclModel, AclModel) {
    (
        AclModel {
            name: id,
            password: Some(id),
            commands: Some(seq!["lpop"@, "blpop"@]),
            keys: Some(spec_device_message_queue_id(id)),
        },
        AclModel {
            name: id,
            password: Some(id),
            commands: Some(seq!["rpush"@]),
            keys: Some(crate::constants::REGISTRAR_INCOMING@),
        },
    )
}

/// Builds the two access control entries of a new device id.
pub fn device_acl_entries(id: &String) -> (entries: (AclEntry, AclEntry))
    ensures
        (entries.0@, entries.1@) == spec_device_acl_entries(id@),
{
    let mut pop_commands: Vec<String> = Vec::new();
    pop_commands.push(String::from_str("lpop"));
    pop_commands.push(String::from_str("blpop"));
    assert(crate::schema::texts_view(pop_commands@) =~= seq!["lpop"@, "blpop"@]);
    let reader = AclEntry {
        name: id.clone(),
        password: Some(id.clone()),
        commands: Some(pop_commands),
        keys: Some(device_message_queue_id(id.as_str())),
    };
    let mut push_commands: Vec<String> = Vec::new();
    push_commands.push(String::from_str("rpush"));
    assert(crate::schema::texts_view(push_commands@) =~= seq!["rpush"@]);
    let writer = AclEntry {
        name: id.clone(),
        password: Some(id.clone()),
        commands: Some(push_commands),
        keys: Some(String::from_str(crate::constants::REGISTRAR_INCOMING)),
    };
    (reader, writer)
}

} // verus!
