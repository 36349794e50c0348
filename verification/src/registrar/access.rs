//! Rules for what users can do to devices.

use vstd::prelude::*;
use crate::schema::{texts_view, AuthorityModel, DeviceAuthorityModel, DeviceAuthorityRecord};

verus! {

/// The access level a user has to a given device.
#[derive(Debug, Clone, Copy, PartialEq, Eq)]
pub enum AccessLevel {
    /// The user can do anything.
    All,
}

/// Whether the user may manage a device under an authority model: anyone may manage a public
/// device, the owner may manage an exclusive device, and the owner and guests may manage a shared
/// one. A device without a model is open to anyone.
pub open spec fn may_access(model: Option<AuthorityModel>, user: Seq<char>) -> bool {
    match model {
        None => true,
        Some(AuthorityModel::Public(_, _)) => true,
        Some(AuthorityModel::Exclusive(owner)) => owner == user,
        Some(AuthorityModel::Shared(owner, guests)) => owner == user || guests.contains(user),
    }
}

/// The abstract value of the authority model of a record, if there is a record.
pub open spec fn record_model(record: Option<DeviceAuthorityRecord>) -> Option<AuthorityModel> {
    match record {
        Some(DeviceAuthorityRecord { authority_model: Some(model), .. }) => Some(model@),
        _ => None,
    }
}

/// Whether a list of names holds the given one.
fn holds(names: &Vec<String>, wanted: &String) -> (found: bool)
    ensures
        found == texts_view(names@).contains(wanted@),
{
    let mut i: usize = 0;
    while i < names.len()
        invariant
            i <= names@.len(),
            forall|j: int| 0 <= j < i ==> names@[j]@ != wanted@,
        decreases names@.len() - i,
    {
        if names[i] == *wanted {
            assert(texts_view(names@)[i as int] == wanted@);
            return true;
        }
        i = i + 1;
    }
    proof {
        if texts_view(names@).contains(wanted@) {
            let j = choose|j: int| 0 <= j < names@.len() && texts_view(names@)[j] == wanted@;
            assert(names@[j]@ == wanted@);
        }
    }
    false
}

/// The access level a user has to a device, given the authority record found for the device.
pub fn access_level(record: &Option<DeviceAuthorityRecord>, user_id: &String) -> (level: Option<
    AccessLevel,
>)
    ensures
        level is Some <==> may_access(record_model(*record), user_id@),
{
    match record {
        Some(DeviceAuthorityRecord { authority_model: Some(model), .. }) => match model {
            DeviceAuthorityModel::Shared { owner, guests } => {
                let found = holds(guests, user_id);
                if *owner != *user_id && !found {
                    return None;
                }
                Some(AccessLevel::All)
            },
            DeviceAuthorityModel::Exclusive { owner } => {
                if *owner != *user_id {
                    return None;
                }
                Some(AccessLevel::All)
            },
            DeviceAuthorityModel::Public { .. } => Some(AccessLevel::All),
        },
        _ => Some(AccessLevel::All),
    }
}

/// The owner of a device may always manage it, and anyone may manage a public device.
pub proof fn law_owner_and_public_access(owner: Seq<char>, guests: Seq<Seq<char>>, user: Seq<char>)
    ensures
        may_access(Some(AuthorityModel::Exclusive(owner)), owner),
        may_access(Some(AuthorityModel::Shared(owner, guests)), owner),
        may_access(Some(AuthorityModel::Public(owner, guests)), user),
        user != owner ==> !may_access(Some(AuthorityModel::Exclusive(owner)), user),
{
}

} // verus!
