use vstd::prelude::*;
use vstd::hash_map::StringHashMap;
use crate::mock_reader::decimal_chars;
use crate::text::push_decimal;
use crate::time::{date_time_text, format_date_time};

/// The long-lived state of what is rendered on a device.
pub mod device_state;
pub use device_state::{
    DeviceRenderingState, DeviceRenderingStateMessageEntry, DeviceState, DeviceStateMessageOrigin,
};

/// The general schema related to the background jobs used.
pub mod jobs;

verus! {

/// The "snapshot in time" of device information we want stored on our user documents themselves.
#[derive(Debug, Clone, PartialEq, Eq)]
pub struct UserDeviceSnapshot {
    /// The nickname of the device.
    pub nickname: Option<String>,
}

/// Our user record. Stores minimal information; the identity provider is responsible for holding
/// onto all personally identifiable information.
pub struct User {
    /// The oauth ID of this user.
    pub oid: String,
    /// An avatar for this user to render.
    pub picture: String,
    /// The name of this user, as the oauth provider gave it.
    pub name: Option<String>,
    /// The user-preferred nickname.
    pub nickname: Option<String>,
    /// The devices this user has access to, by id.
    pub devices: Option<StringHashMap<UserDeviceSnapshot>>,
}

/// The various kinds of authority models supported for devices.
#[derive(Debug, Clone, PartialEq, Eq)]
pub enum DeviceAuthorityModel {
    /// Only a single user can manage the device.
    Exclusive {
        /// The owner.
        owner: String,
    },
    /// The owner and a list of guests can manage the device.
    Shared {
        /// The owner.
        owner: String,
        /// The guests.
        guests: Vec<String>,
    },
    /// Anyone can send things to the device. The list of folks who have added themselves is kept
    /// as a way to transition easily into "shared".
    Public {
        /// The owner.
        owner: String,
        /// The folks who added themselves.
        guests: Vec<String>,
    },
}

/// The abstract value of an authority model.
pub enum AuthorityModel {
    /// Only the owner.
    Exclusive(Seq<char>),
    /// The owner and the guests.
    Shared(Seq<char>, Seq<Seq<char>>),
    /// Anyone; the owner and the folks who added themselves.
    Public(Seq<char>, Seq<Seq<char>>),
}

/// The abstract value of a list of strings.
pub open spec fn texts_view(v: Seq<String>) -> Seq<Seq<char>> {
    v.map_values(|s: String| s@)
}

impl View for DeviceAuthorityModel {
    type V = AuthorityModel;

    open spec fn view(&self) -> AuthorityModel {
        match self {
            DeviceAuthorityModel::Exclusive { owner } => AuthorityModel::Exclusive(owner@),
            DeviceAuthorityModel::Shared { owner, guests } => AuthorityModel::Shared(
                owner@,
                texts_view(guests@),
            ),
            DeviceAuthorityModel::Public { owner, guests } => AuthorityModel::Public(
                owner@,
                texts_view(guests@),
            ),
        }
    }
}

/// The schema of our records that are stored in the `device_histories` collection.
#[derive(Debug, Clone)]
pub struct DeviceHistoryRecord {
    /// The id of a device.
    pub device_id: String,
    /// The list of all renders for this device.
    pub render_history: Option<Vec<crate::rendering::QueuedRender<String>>>,
}

/// The schema of our records that are stored in the `device_authorities` collection.
#[derive(Debug, Clone, PartialEq, Eq)]
pub struct DeviceAuthorityRecord {
    /// The id of a device.
    pub device_id: String,
    /// The model.
    pub authority_model: Option<DeviceAuthorityModel>,
}

/// What devices a user has access to is still maintained on the user record, for efficiency of
/// permission checks; this records who first registered a device.
#[derive(Debug, Clone, PartialEq, Eq)]
pub struct DeviceDiagnosticOwnership {
    /// The id of the user that first registered this device.
    pub original_owner: String,
}

/// The different states of "registration" a device may be in.
#[derive(Debug, Clone, PartialEq, Eq)]
pub enum DeviceDiagnosticRegistration {
    /// We have seen the device, but nobody has claimed it yet.
    Initial,
    /// We have heard from the device, and sent it the initial image.
    PendingRegistration,
    /// Some user has claimed the device.
    Owned(DeviceDiagnosticOwnership),
}

impl Default for DeviceDiagnosticRegistration {
    fn default() -> (r: Self)
        ensures
            r == DeviceDiagnosticRegistration::Initial,
    {
        DeviceDiagnosticRegistration::Initial
    }
}

/// The different kinds of things that can happen on a schedule for a device.
#[derive(Debug, Clone, PartialEq, Eq)]
pub enum DeviceScheduleKind {
    /// Renders the upcoming events of a user's calendar.
    UserEventsBasic {
        /// The user whose calendar is rendered.
        user_oid: String,
    },
}

/// The abstract value of a schedule kind.
pub enum ScheduleKindModel {
    /// Renders the upcoming events of the calendar of the user with this id.
    UserEventsBasic(Seq<char>),
}

impl View for DeviceScheduleKind {
    type V = ScheduleKindModel;

    open spec fn view(&self) -> ScheduleKindModel {
        match self {
            DeviceScheduleKind::UserEventsBasic { user_oid } => ScheduleKindModel::UserEventsBasic(
                user_oid@,
            ),
        }
    }
}

/// The abstract value of an optional text.
pub open spec fn opt_text(t: Option<String>) -> Option<Seq<char>> {
    match t {
        Some(s) => Some(s@),
        None => None,
    }
}

/// A schedule of things to render for a specific device.
#[derive(Debug, Clone, PartialEq, Eq)]
pub struct DeviceSchedule {
    /// The id of a device for this schedule.
    pub device_id: String,
    /// The timestamp of the last executed attempt.
    pub last_executed: Option<u64>,
    /// The underlying schedule implementation.
    pub kind: Option<DeviceScheduleKind>,
    /// The nonce of the latest execution job queued for this schedule.
    pub refresh_nonce: Option<String>,
    /// The nonce of the latest execution job that ran.
    pub latest_refresh_nonce: Option<String>,
}

/// The information kept for every device and updated periodically as the device communicates
/// with the server.
#[derive(Debug, Clone, PartialEq, Eq)]
pub struct DeviceDiagnostic {
    /// The id of this device.
    pub id: String,
    /// The first time we heard from this device, in milliseconds since the unix epoch.
    pub first_seen: Option<i64>,
    /// The last time we heard from this device, in milliseconds since the unix epoch.
    pub last_seen: Option<i64>,
    /// This device nickname.
    pub nickname: Option<String>,
    /// An accumulated total of messages that have been added to this device's queue.
    pub sent_message_count: Option<u32>,
    /// The state of this device's registration.
    pub registration_state: Option<DeviceDiagnosticRegistration>,
}

impl DeviceDiagnostic {
    /// Creates a snapshot for persistence on user records themselves: the device's nickname.
    pub fn snapshot(&self) -> (snapshot: UserDeviceSnapshot)
        ensures
            snapshot.nickname == self.nickname,
    {
        let nickname = match &self.nickname {
            Some(name) => Some(name.clone()),
            None => None,
        };
        UserDeviceSnapshot { nickname }
    }
}

/// The text of a count padded with zeros to a width, after its sign (as `{:05}` writes it for a
/// width of five).
pub open spec fn zero_padded(n: int, width: nat) -> Seq<char> {
    let sign: Seq<char> = if n < 0 { seq!['-'] } else { Seq::empty() };
    let digits = decimal_chars(if n < 0 { (-n) as nat } else { n as nat });
    let fill = width - sign.len() - digits.len();
    sign + Seq::new(if fill > 0 { fill as nat } else { 0 }, |_i: int| '0') + digits
}

/// The whole seconds from `then` to `now`, both in milliseconds, rounded toward zero.
pub open spec fn seconds_since(now: i64, then: i64) -> int {
    let diff = now - then;
    if diff >= 0 { diff / 1000 } else { -((-diff) / 1000) }
}

/// How long ago a device was last heard from, in seconds (`-1` when it never was).
pub open spec fn last_heard(diagnostic: DeviceDiagnostic, now: i64) -> int {
    match diagnostic.last_seen {
        Some(t) => seconds_since(now, t),
        None => -1,
    }
}

/// An instant's text, or `n/a` when there is none.
pub open spec fn opt_date_time_text(t: Option<i64>) -> Seq<char> {
    match t {
        Some(millis) => date_time_text(millis),
        None => "n/a"@,
    }
}

/// The one-line summary of a device: `[+]` when it was heard from in the last thirty seconds
/// (`[!]` otherwise), its id, how many seconds ago it was heard from, and when it was first and
/// last heard from.
pub open spec fn spec_describe(diagnostic: DeviceDiagnostic, now: i64) -> Seq<char> {
    let last = last_heard(diagnostic, now);
    let marker = if 0 <= last <= 30 { '+' } else { '!' };
    seq!['['] + seq![marker] + "] "@ + diagnostic.id@ + " ("@ + zero_padded(last, 5)
        + " seconds ago). "@ + opt_date_time_text(diagnostic.first_seen) + " -> "@
        + opt_date_time_text(diagnostic.last_seen)
}

/// Appends a count padded with zeros to a width, after its sign.
fn push_zero_padded(out: &mut String, n: i64, width: u64)
    ensures
        final(out)@ == old(out)@ + zero_padded(n as int, width as nat),
{
    let magnitude: u64 = if n < 0 {
        ((-(n + 1)) as u64) + 1
    } else {
        n as u64
    };
    let mut digits = String::new();
    push_decimal(&mut digits, magnitude);
    let sign_len: u64 = if n < 0 { 1 } else { 0 };
    let digit_count = digits.unicode_len() as u64;
    let ghost start = out@;
    if n < 0 {
        out.push('-');
    }
    let mut zeros: u64 = 0;
    let fill: u64 = if width > sign_len && width - sign_len > digit_count {
        width - sign_len - digit_count
    } else {
        0
    };
    let ghost signed = out@;
    while zeros < fill
        invariant
            zeros <= fill,
            out@ == signed + Seq::new(zeros as nat, |_i: int| '0'),
        decreases fill - zeros,
    {
        out.push('0');
        zeros = zeros + 1;
        proof {
            assert(out@ =~= signed + Seq::new(zeros as nat, |_i: int| '0'));
        }
    }
    out.append(digits.as_str());
    proof {
        let sign: Seq<char> = if n < 0 { seq!['-'] } else { Seq::empty() };
        assert(signed =~= start + sign);
        assert(magnitude as nat == if n < 0 { (-n) as nat } else { n as nat });
        assert(out@ =~= start + zero_padded(n as int, width as nat));
    }
}

/// Appends an instant's text, or `n/a` when there is none.
fn push_date_time(out: &mut String, t: Option<i64>)
    ensures
        final(out)@ == old(out)@ + opt_date_time_text(t),
{
    match t {
        Some(millis) => {
            let text = format_date_time(millis);
            out.append(text.as_str());
        },
        None => out.append("n/a"),
    }
}

impl DeviceDiagnostic {
    /// The one-line summary of this device, as of the instant `now` (in milliseconds since the
    /// unix epoch).
    pub fn describe(&self, now: i64) -> (text: String)
        ensures
            text@ == spec_describe(*self, now),
    {
        let last: i64 = match self.last_seen {
            Some(t) => {
                let diff: i128 = now as i128 - t as i128;
                let secs: i128 = if diff >= 0 { diff / 1000 } else { -((-diff) / 1000) };
                secs as i64
            },
            None => -1,
        };
        let marker = if 0 <= last && last <= 30 { '+' } else { '!' };
        let mut out = String::new();
        out.push('[');
        out.push(marker);
        out.append("] ");
        out.append(self.id.as_str());
        out.append(" (");
        push_zero_padded(&mut out, last, 5);
        out.append(" seconds ago). ");
        push_date_time(&mut out, self.first_seen);
        out.append(" -> ");
        push_date_time(&mut out, self.last_seen);
        proof {
            assert(last as int == last_heard(*self, now));
            assert(out@ =~= spec_describe(*self, now));
        }
        out
    }
}

} // verus!
