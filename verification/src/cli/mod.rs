//! The decisions of the administration command line tool.

use vstd::prelude::*;
use crate::redis::QueueValue;
use crate::registrar::pool::{AclEntry, AclModel};
use crate::schema::opt_text;
use crate::schema::texts_view;
use crate::time::{earliest_millis, latest_millis, millis_before, timestamp_in_range};

/// Schema migrations of the database.
pub mod migrate;

verus! {

/// Some commands operate on a single device; this structure is shared across those.
#[derive(Debug, Clone, PartialEq, Eq)]
pub struct SingleDeviceCommand {
    /// The id of a device.
    pub id: String,
}

/// The command line tool's own registrar configuration.
#[derive(Debug, Clone, PartialEq, Eq)]
pub struct RegistrarConfiguration {
    /// The username portion of the `AUTH` acl entries that is burned-in on devices.
    pub id_consumer_username: Option<String>,
    /// The password portion of the `AUTH` acl entries that is burned-in on devices.
    pub id_consumer_password: Option<String>,
    /// The list of acl entries that should _not_ be invalidated when cleaning up.
    pub acl_user_allowlist: Option<Vec<String>>,
    /// The secret used to seal jobs.
    pub vendor_api_secret: String,
}

/// Holds the username and password that devices use to request their unique id.
#[derive(Debug, Clone, PartialEq, Eq)]
pub struct ProvisionCommand {
    /// The user portion of our id-requesting `AUTH` creds.
    pub user: Option<String>,
    /// The password portion of our id-requesting `AUTH` creds.
    pub password: Option<String>,
}

/// Creates a scannable render layout and queues it.
#[derive(Debug, Clone, PartialEq, Eq)]
pub struct SendScannableCommand {
    /// The id of a device.
    pub id: String,
    /// The contents of the qr code.
    pub content: String,
    /// An optional path on the filesystem where the image can be written.
    pub local_path: Option<String>,
}

/// Parses a json file as some render layout and sends it.
#[derive(Debug, Clone, PartialEq, Eq)]
pub struct SendLayoutCommand {
    /// The id of a device; when omitted, the image is only written locally.
    pub id: Option<String>,
    /// The file holding the layout.
    pub layout_file: String,
    /// An optional path on the filesystem where the image can be written.
    pub local_path: Option<String>,
}

/// Creates a message layout and rasterizes it, then sends it to the device.
#[derive(Debug, Clone, PartialEq, Eq)]
pub struct SendImageCommand {
    /// The id of a device; when omitted, the image is only written locally.
    pub id: Option<String>,
    /// The message to render.
    pub message: String,
    /// An optional path on the filesystem where the image can be written.
    pub local_path: Option<String>,
}

/// The second space separated field of a text, if it has one.
pub open spec fn spec_second_field(entry: Seq<char>) -> Option<Seq<char>> {
    if exists|i: int| 0 <= i < entry.len() && entry[i] == ' ' {
        let first = choose|i: int|
            0 <= i < entry.len() && entry[i] == ' ' && forall|j: int|
                0 <= j < i ==> entry[j] != ' ';
        let rest = entry.subrange(first + 1, entry.len() as int);
        if exists|k: int| 0 <= k < rest.len() && rest[k] == ' ' {
            let second = choose|k: int|
                0 <= k < rest.len() && rest[k] == ' ' && forall|j: int|
                    0 <= j < k ==> rest[j] != ' ';
            Some(rest.subrange(0, second))
        } else {
            Some(rest)
        }
    } else {
        None
    }
}

/// The index of the first space at or after `from`, or the length when there is none.
fn next_space(entry: &str, from: usize, length: usize) -> (at: usize)
    requires
        length == entry@.len(),
        from <= length,
    ensures
        from <= at <= length,
        at < length ==> entry@[at as int] == ' ',
        forall|j: int| from <= j < at ==> entry@[j] != ' ',
{
    let mut at = from;
    while at < length
        invariant
            from <= at <= length,
            length == entry@.len(),
            forall|j: int| from <= j < at ==> entry@[j] != ' ',
        decreases length - at,
    {
        if entry.get_char(at) == ' ' {
            return at;
        }
        at = at + 1;
    }
    at
}

/// Extracts the device id from an acl entry listed by redis (`user <id> ...`): its second space
/// separated field.
pub fn id_from_acl_entry(entry: &str) -> (id: Option<String>)
    ensures
        match id {
            Some(text) => spec_second_field(entry@) == Some(text@),
            None => spec_second_field(entry@) is None,
        },
{
    let length = entry.unicode_len();
    let first = next_space(entry, 0, length);
    if first == length {
        proof {
            if exists|i: int| 0 <= i < entry@.len() && entry@[i] == ' ' {
                let i = choose|i: int| 0 <= i < entry@.len() && entry@[i] == ' ';
                assert(entry@[i] != ' ');
            }
        }
        return None;
    }
    let second = next_space(entry, first + 1, length);
    let field = entry.substring_char(first + 1, second);
    proof {
        let e = entry@;
        let f = choose|i: int|
            0 <= i < e.len() && e[i] == ' ' && forall|j: int| 0 <= j < i ==> e[j] != ' ';
        assert(0 <= first < e.len() && e[first as int] == ' ' && forall|j: int|
            0 <= j < first ==> e[j] != ' ');
        if f < first {
            assert(e[f] != ' ');
        }
        if first < f {
            assert(e[first as int] != ' ');
        }
        let rest = e.subrange(first + 1, e.len() as int);
        if second < length {
            let s = (second - first - 1) as int;
            assert(rest[s] == ' ');
            let k = choose|k: int|
                0 <= k < rest.len() && rest[k] == ' ' && forall|j: int| 0 <= j < k ==> rest[j] != ' ';
            assert(forall|j: int| 0 <= j < s ==> rest[j] == e[first + 1 + j]);
            if k < s {
                assert(rest[k] == e[first + 1 + k]);
            }
            if s < k {
                assert(rest[s] != ' ');
            }
            assert(field@ =~= rest.subrange(0, s));
        } else {
            if exists|k: int| 0 <= k < rest.len() && rest[k] == ' ' {
                let k = choose|k: int| 0 <= k < rest.len() && rest[k] == ' ';
                assert(rest[k] == e[first + 1 + k]);
            }
            assert(field@ =~= rest);
        }
    }
    Some(String::from_str(field))
}

/// The ids named by the entries of an acl listing that are not on the allowlist, in order:
/// entries that are not strings, or have no second field, name none.
pub open spec fn spec_removable_ids(values: Seq<QueueValue>, allowed: Seq<Seq<char>>) -> Seq<
    Seq<char>,
>
    decreases values.len(),
{
    if values.len() == 0 {
        seq![]
    } else {
        let rest = spec_removable_ids(values.drop_last(), allowed);
        match values.last() {
            QueueValue::String(entry) => match spec_second_field(entry@) {
                Some(id) => if allowed.contains(id) {
                    rest
                } else {
                    rest.push(id)
                },
                None => rest,
            },
            _ => rest,
        }
    }
}

/// The names on an optional allowlist.
pub open spec fn allowlist_view(allowlist: Option<Vec<String>>) -> Seq<Seq<char>> {
    match allowlist {
        Some(list) => texts_view(list@),
        None => seq![],
    }
}

/// Whether a list of names holds the given one.
fn listed(names: &Vec<String>, wanted: &String) -> (found: bool)
    ensures
        found == texts_view(names@).contains(wanted@),
{
    let mut i: usize = 0;
    while i < names.len()
        invariant
            i <= names.len(),
            forall|j: int| 0 <= j < i ==> names@[j]@ != wanted@,
        decreases names.len() - i,
    {
        if names[i] == *wanted {
            proof {
                assert(texts_view(names@)[i as int] == wanted@);
            }
            return true;
        }
        i = i + 1;
    }
    proof {
        if texts_view(names@).contains(wanted@) {
            let k = choose|k: int| 0 <= k < texts_view(names@).len() && texts_view(names@)[k] == wanted@;
            assert(names@[k]@ == wanted@);
        }
    }
    false
}

/// The ids of the acl entries that a cleanup removes: those named by the listing that are not on
/// the allowlist.
pub fn removable_ids(values: &Vec<QueueValue>, allowlist: &Option<Vec<String>>) -> (ids: Vec<String>)
    ensures
        texts_view(ids@) == spec_removable_ids(values@, allowlist_view(*allowlist)),
{
    let mut ids: Vec<String> = Vec::new();
    let mut i: usize = 0;
    while i < values.len()
        invariant
            i <= values.len(),
            texts_view(ids@) == spec_removable_ids(values@.take(i as int), allowlist_view(*allowlist)),
        decreases values.len() - i,
    {
        proof {
            assert(values@.take(i + 1).drop_last() =~= values@.take(i as int));
        }
        let ghost before = ids@;
        match &values[i] {
            QueueValue::String(entry) => match id_from_acl_entry(entry.as_str()) {
                Some(id) => {
                    let allowed = match allowlist {
                        Some(list) => listed(list, &id),
                        None => false,
                    };
                    if !allowed {
                        ids.push(id);
                        proof {
                            assert(texts_view(ids@) =~= texts_view(before).push(ids@.last()@));
                        }
                    }
                },
                None => {},
            },
            _ => {},
        }
        i = i + 1;
    }
    proof {
        assert(values@.take(values@.len() as int) =~= values@);
    }
    ids
}

/// Whether an entry of an acl listing names the given id.
pub open spec fn names_id(value: QueueValue, id: Seq<char>) -> bool {
    match value {
        QueueValue::String(entry) => spec_second_field(entry@) == Some(id),
        _ => false,
    }
}

/// A cleanup never removes an id on the allowlist, and removes only ids that the listing names.
pub proof fn law_allowlist_is_kept(values: Seq<QueueValue>, allowed: Seq<Seq<char>>, id: Seq<char>)
    ensures
        allowed.contains(id) ==> !spec_removable_ids(values, allowed).contains(id),
        spec_removable_ids(values, allowed).contains(id) ==> exists|i: int|
            0 <= i < values.len() && names_id(#[trigger] values[i], id),
    decreases values.len(),
{
    if values.len() > 0 {
        law_allowlist_is_kept(values.drop_last(), allowed, id);
        let rest = spec_removable_ids(values.drop_last(), allowed);
        if spec_removable_ids(values, allowed).contains(id) {
            if rest.contains(id) {
                let i = choose|i: int|
                    0 <= i < values.drop_last().len() && names_id(#[trigger] values.drop_last()[i], id);
                assert(values[i] == values.drop_last()[i]);
            } else {
                let last = values.len() - 1;
                assert(values[last] == values.last());
            }
        }
    }
}

/// The burn-in credentials a provisioning uses: those given on the command line, each falling
/// back to the configured one.
pub open spec fn spec_burn_in(command: ProvisionCommand, config: RegistrarConfiguration) -> (
    Option<Seq<char>>,
    Option<Seq<char>>,
) {
    (
        match command.user {
            Some(u) => Some(u@),
            None => opt_text(config.id_consumer_username),
        },
        match command.password {
            Some(p) => Some(p@),
            None => opt_text(config.id_consumer_password),
        },
    )
}

/// The acl entry that lets devices take an id from the pool at burn-in: it may pop from the pool
/// of available ids, with the burn-in credentials. Both credentials must be set and not empty.
pub open spec fn spec_provision_entry(command: ProvisionCommand, config: RegistrarConfiguration) -> Option<
    AclModel,
> {
    match spec_burn_in(command, config) {
        (Some(user), Some(password)) => if user.len() > 0 && password.len() > 0 {
            Some(
                AclModel {
                    name: user,
                    password: Some(password),
                    commands: Some(seq!["lpop"@, "blpop"@]),
                    keys: Some(crate::constants::REGISTRAR_AVAILABLE@),
                },
            )
        } else {
            None
        },
        _ => None,
    }
}

/// An optional text, or the fallback when there is none.
fn text_or(value: &Option<String>, fallback: &Option<String>) -> (chosen: Option<String>)
    ensures
        opt_text(chosen) == match value {
            Some(v) => Some(v@),
            None => opt_text(*fallback),
        },
{
    match value {
        Some(v) => Some(v.clone()),
        None => match fallback {
            Some(f) => Some(f.clone()),
            None => None,
        },
    }
}

/// Builds the acl entry that lets devices take an id from the pool at burn-in.
pub fn provision_entry(command: &ProvisionCommand, config: &RegistrarConfiguration) -> (entry: Result<
    AclEntry,
    String,
>)
    ensures
        match entry {
            Ok(e) => spec_provision_entry(*command, *config) == Some(e@),
            Err(message) => spec_provision_entry(*command, *config) is None && message@
                == "username or pasword missing for provisioning"@,
        },
{
    let user = text_or(&command.user, &config.id_consumer_username);
    let password = text_or(&command.password, &config.id_consumer_password);
    match (user, password) {
        (Some(user), Some(password)) => {
            if user.unicode_len() > 0 && password.unicode_len() > 0 {
                let mut commands: Vec<String> = Vec::new();
                commands.push(String::from_str("lpop"));
                commands.push(String::from_str("blpop"));
                assert(texts_view(commands@) =~= seq!["lpop"@, "blpop"@]);
                Ok(
                    AclEntry {
                        name: user,
                        password: Some(password),
                        commands: Some(commands),
                        keys: Some(String::from_str(crate::constants::REGISTRAR_AVAILABLE)),
                    },
                )
            } else {
                Err(String::from_str("username or pasword missing for provisioning"))
            }
        },
        _ => Err(String::from_str("username or pasword missing for provisioning")),
    }
}

/// The seconds after which a device that was not heard from is considered disconnected.
pub const MAX_IDLE_TIME_SECONDS: i64 = 1800;

/// The instant before which devices that were last heard from are considered disconnected.
pub fn disconnect_cutoff(now: i64) -> (cutoff: Result<i64, String>)
    requires
        timestamp_in_range(now),
    ensures
        match cutoff {
            Ok(c) => c == now - MAX_IDLE_TIME_SECONDS * 1000,
            Err(message) => !(earliest_millis() <= now - MAX_IDLE_TIME_SECONDS * 1000
                <= latest_millis()) && message@ == "cutoff time calc overflow"@,
        },
{
    match millis_before(now, MAX_IDLE_TIME_SECONDS) {
        Some(c) => Ok(c),
        None => Err(String::from_str("cutoff time calc overflow")),
    }
}

} // verus!
