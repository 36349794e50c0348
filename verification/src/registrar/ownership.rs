//! Jobs that change who owns and may use a device.

use vstd::prelude::*;
use crate::schema::{texts_view, AuthorityModel, DeviceAuthorityModel, DeviceAuthorityRecord, UserDeviceSnapshot};
use vstd::hash_map::StringHashMap;
use crate::schema::{DeviceDiagnosticOwnership, DeviceDiagnosticRegistration};
use super::access::{access_level, may_access, record_model};

verus! {

/// The jobs dealing with changing the authority record model.
#[derive(Debug, Clone, PartialEq, Eq)]
pub enum DeviceOwnershipChangeRequest {
    /// Toggles the ownership model between public and private, for the device with this id. When
    /// the value is true, the device becomes public.
    SetPublicAvailability(String, bool),
}

/// The job that will attempt to register a device to a user.
#[derive(Debug, Clone, PartialEq, Eq)]
pub struct DeviceOwnershipRequest {
    /// The id of the device in question.
    pub device_id: String,
    /// The id of the user in question.
    pub user_id: String,
}

/// The authority model after a request to change the public availability of a device: an
/// exclusive device made public becomes public with no guests yet; a public device made private
/// becomes shared with everyone who added themselves. Any other combination changes nothing.
pub open spec fn spec_availability_change(model: Option<AuthorityModel>, public: bool) -> Option<
    AuthorityModel,
> {
    match model {
        Some(AuthorityModel::Exclusive(owner)) => if public {
            Some(AuthorityModel::Public(owner, seq![]))
        } else {
            None
        },
        Some(AuthorityModel::Public(owner, guests)) => if !public {
            Some(AuthorityModel::Shared(owner, guests))
        } else {
            None
        },
        _ => None,
    }
}

/// The abstract value of an optional authority model.
pub open spec fn model_view(model: Option<DeviceAuthorityModel>) -> Option<AuthorityModel> {
    match model {
        Some(m) => Some(m@),
        None => None,
    }
}

/// Copies a list of names.
fn copy_names(names: &Vec<String>) -> (copy: Vec<String>)
    ensures
        texts_view(copy@) == texts_view(names@),
{
    let mut copy: Vec<String> = Vec::new();
    let mut i: usize = 0;
    while i < names.len()
        invariant
            i <= names@.len(),
            texts_view(copy@) == texts_view(names@).take(i as int),
        decreases names@.len() - i,
    {
        let ghost before = copy@;
        let item = names[i].clone();
        assert(item@ == names@[i as int]@);
        copy.push(item);
        assert(texts_view(copy@) =~= texts_view(before).push(item@));
        assert(texts_view(copy@) =~= texts_view(names@).take(i + 1));
        i = i + 1;
    }
    assert(texts_view(names@).take(names@.len() as int) =~= texts_view(names@));
    copy
}

/// The new authority model of a device whose public availability is toggled, or `None` when the
/// toggle means nothing for the current model.
pub fn availability_change(model: &Option<DeviceAuthorityModel>, public: bool) -> (next: Option<
    DeviceAuthorityModel,
>)
    ensures
        model_view(next) == spec_availability_change(model_view(*model), public),
{
    match model {
        Some(DeviceAuthorityModel::Exclusive { owner }) => {
            if public {
                let guests: Vec<String> = Vec::new();
                assert(texts_view(guests@) =~= Seq::<Seq<char>>::empty());
                Some(DeviceAuthorityModel::Public { owner: owner.clone(), guests })
            } else {
                None
            }
        },
        Some(DeviceAuthorityModel::Public { owner, guests }) => {
            if !public {
                Some(DeviceAuthorityModel::Shared { owner: owner.clone(), guests: copy_names(guests) })
            } else {
                None
            }
        },
        _ => None,
    }
}

/// The authority record of a public device after a user registers it: the user joins the list of
/// folks who added themselves. Records of devices that are not public are left as they are
/// (`None`).
pub open spec fn spec_public_registration(model: Option<AuthorityModel>, user: Seq<char>) -> Option<
    AuthorityModel,
> {
    match model {
        Some(AuthorityModel::Public(owner, guests)) => Some(
            AuthorityModel::Public(owner, guests.push(user)),
        ),
        _ => None,
    }
}

/// The new authority model of a public device that a user registers, or `None` when the device is
/// not public.
pub fn public_registration(record: Option<DeviceAuthorityRecord>, user_id: &String) -> (next: Option<
    DeviceAuthorityRecord,
>)
    ensures
        next matches Some(r) ==> record matches Some(old_record) && r.device_id
            == old_record.device_id,
        model_view(
            match next {
                Some(r) => r.authority_model,
                None => None,
            },
        ) == spec_public_registration(
            match record {
                Some(r) => model_view(r.authority_model),
                None => None,
            },
            user_id@,
        ),
{
    match record {
        Some(DeviceAuthorityRecord { device_id, authority_model: Some(DeviceAuthorityModel::Public { owner, mut guests }) }) => {
            let ghost before = guests@;
            guests.push(user_id.clone());
            assert(texts_view(guests@) =~= texts_view(before).push(user_id@));
            Some(
                DeviceAuthorityRecord {
                    device_id,
                    authority_model: Some(DeviceAuthorityModel::Public { owner, guests }),
                },
            )
        },
        _ => None,
    }
}

/// Making an exclusive device public, letting users register it, and making it private again
/// keeps its owner and shares it with exactly the users who registered it while it was public,
/// in order.
pub proof fn law_public_then_private(owner: Seq<char>, users: Seq<Seq<char>>)
    ensures
        ({
            let opened = spec_availability_change(Some(AuthorityModel::Exclusive(owner)), true);
            let joined = registrations(opened, users);
            spec_availability_change(joined, false) == Some(AuthorityModel::Shared(owner, users))
        }),
    decreases users.len(),
{
    lemma_registrations(owner, users);
}

/// The authority model after each of the users registers the device, in order.
pub open spec fn registrations(model: Option<AuthorityModel>, users: Seq<Seq<char>>) -> Option<
    AuthorityModel,
>
    decreases users.len(),
{
    if users.len() == 0 {
        model
    } else {
        match spec_public_registration(registrations(model, users.drop_last()), users.last()) {
            Some(next) => Some(next),
            None => registrations(model, users.drop_last()),
        }
    }
}

proof fn lemma_registrations(owner: Seq<char>, users: Seq<Seq<char>>)
    ensures
        registrations(Some(AuthorityModel::Public(owner, seq![])), users) == Some(
            AuthorityModel::Public(owner, users),
        ),
    decreases users.len(),
{
    if users.len() == 0 {
        assert(users =~= Seq::<Seq<char>>::empty());
    } else {
        lemma_registrations(owner, users.drop_last());
        assert(users.drop_last().push(users.last()) =~= users);
    }
}

/// The devices of a user once a device is registered to them: the device's snapshot is stored
/// under its id, in the user's map or in a new one.
pub fn with_registered_device(
    devices: Option<StringHashMap<UserDeviceSnapshot>>,
    device_id: String,
    snapshot: UserDeviceSnapshot,
) -> (next: StringHashMap<UserDeviceSnapshot>)
    ensures
        next@ == match devices {
            Some(m) => m@,
            None => Map::<Seq<char>, UserDeviceSnapshot>::empty(),
        }.insert(device_id@, snapshot),
{
    let mut next = match devices {
        Some(existing) => existing,
        None => StringHashMap::with_capacity(1),
    };
    next.insert(device_id, snapshot);
    next
}

/// Why the registrar refused an ownership job.
#[derive(Debug, Clone, Copy, PartialEq, Eq)]
pub enum OwnershipError {
    /// The authority record of a device whose availability is changed was not found.
    RecordNotFound,
    /// The user or the device of a registration was not found.
    DeviceNotFound,
    /// The user may not register the device.
    NoAccess,
}

/// The message an ownership error is reported with.
pub open spec fn spec_ownership_message(error: OwnershipError) -> Seq<char> {
    match error {
        OwnershipError::RecordNotFound => "not-found"@,
        OwnershipError::DeviceNotFound => "device not found"@,
        OwnershipError::NoAccess => "no-access"@,
    }
}

impl OwnershipError {
    /// The message the error is reported with.
    pub fn message(&self) -> (message: String)
        ensures
            message@ == spec_ownership_message(*self),
    {
        proof {
            reveal_strlit("not-found");
            reveal_strlit("device not found");
            reveal_strlit("no-access");
        }
        match self {
            OwnershipError::RecordNotFound => String::from_str("not-found"),
            OwnershipError::DeviceNotFound => String::from_str("device not found"),
            OwnershipError::NoAccess => String::from_str("no-access"),
        }
    }
}

/// The abstract value of the outcome of an availability change.
pub open spec fn change_view(change: Result<Option<DeviceAuthorityModel>, OwnershipError>) -> Result<
    Option<AuthorityModel>,
    OwnershipError,
> {
    match change {
        Ok(next) => Ok(model_view(next)),
        Err(e) => Err(e),
    }
}

/// The new authority model of a device whose public availability is changed, given the record
/// found for it: a missing record is not found; otherwise the model changes as
/// `spec_availability_change` says, or not at all (`None`).
pub fn ownership_change(record: &Option<DeviceAuthorityRecord>, public: bool) -> (change: Result<
    Option<DeviceAuthorityModel>,
    OwnershipError,
>)
    ensures
        change_view(change) == match *record {
            None => Err(OwnershipError::RecordNotFound),
            Some(r) => Ok(spec_availability_change(model_view(r.authority_model), public)),
        },
{
    match record {
        None => Err(OwnershipError::RecordNotFound),
        Some(r) => Ok(availability_change(&r.authority_model, public)),
    }
}

/// Checks a registration: the user and the device must have been found, and the authority
/// record found for the device must let the user manage it.
pub fn registration_check(
    user_found: bool,
    device_found: bool,
    record: &Option<DeviceAuthorityRecord>,
    user_id: &String,
) -> (checked: Result<(), OwnershipError>)
    ensures
        checked == if !user_found || !device_found {
            Err(OwnershipError::DeviceNotFound)
        } else if !may_access(record_model(*record), user_id@) {
            Err(OwnershipError::NoAccess)
        } else {
            Ok(())
        },
{
    if !user_found || !device_found {
        return Err(OwnershipError::DeviceNotFound);
    }
    match access_level(record, user_id) {
        Some(_) => Ok(()),
        None => Err(OwnershipError::NoAccess),
    }
}

/// The registration state of a device once a user registered it: owned, with that user as its
/// original owner.
pub fn owned_registration(user_id: &String) -> (registration: DeviceDiagnosticRegistration)
    ensures
        registration == DeviceDiagnosticRegistration::Owned(
            DeviceDiagnosticOwnership { original_owner: *user_id },
        ),
{
    DeviceDiagnosticRegistration::Owned(DeviceDiagnosticOwnership { original_owner: user_id.clone() })
}

} // verus!
