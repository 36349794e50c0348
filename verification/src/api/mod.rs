//! The decisions of the web api: what a queue request from the ui turns into.

/// The checks a queue request passes.
pub mod jobs;

use vstd::prelude::*;
use crate::registrar::device_state::{DeviceStateTransition, DeviceStateTransitionRequest, TransitionModel};
use crate::registrar::jobs::{RegistrarJobKind, RegistrarRenderKinds};
use crate::registrar::ownership::DeviceOwnershipChangeRequest;
use crate::registrar::rename::DeviceRenameRequest;
use crate::rendering::{is_layout_variant, is_lighting_variant, LayoutModel, LightingLayout, RenderVariant};
use crate::schema::device_state::{DeviceStateMessageOrigin, OriginModel};
use crate::links::{append_query_pairs, pairs_view, url_with_query_pairs};
use crate::schema::{opt_text, texts_view, User};
use crate::tokens::{
    json_string_text, json_text, open_claims, opened_text, opened_view, seal_claims, claim_exp, ClaimModel,
    sealed_claims, signed_claim, spec_opened_text, ClaimValue, lemma_library_fields,
};
use crate::time::{day_after, epoch_seconds, seconds_a_day_from_now, timestamp_in_range};

verus! {

/// General web configuration.
#[derive(Debug, Clone, PartialEq, Eq)]
pub struct WebConfiguration {
    /// The location on disc where files should be saved temporarily.
    pub temp_file_storage: String,
    /// The domain to associate cookies with.
    pub cookie_domain: String,
    /// Where to send folks after the oauth handshake has completed.
    pub ui_redirect: String,
    /// A secret to use when creating session tokens for our cookie.
    pub session_secret: String,
    /// The name of our cookie which will house our session token.
    pub session_cookie: String,
}

/// The web worker configuration.
#[derive(Debug, Clone, PartialEq, Eq)]
pub struct Configuration {
    /// General web configuration.
    pub web: WebConfiguration,
    /// General redis configuration.
    pub redis: crate::config::RedisConfiguration,
    /// General database configuration.
    pub mongo: crate::config::MongoConfiguration,
    /// Calendar vendor configuration.
    pub google: crate::config::GoogleConfiguration,
    /// Registrar configuration.
    pub registrar: crate::config::RegistrarConfiguration,
}

/// The claims of our session tokens.
#[derive(Debug, Clone, PartialEq, Eq)]
pub struct Claims {
    /// The time this token expires, in seconds since the unix epoch.
    pub exp: usize,
    /// The oauth user id.
    pub oid: String,
}

impl Claims {
    /// The claims of a session token for a user, expiring a day after now.
    pub fn for_user(oid: &str) -> (claims: Self)
        ensures
            claims.oid@ == oid@,
            exists|now: i64, fallback: i64|
                timestamp_in_range(now) && timestamp_in_range(fallback) && claims.exp
                    == epoch_seconds(day_after(now, fallback)) as usize,
    {
        let seconds = seconds_a_day_from_now();
        let exp = #[verifier::truncate] (seconds as usize);
        Claims { exp, oid: String::from_str(oid) }
    }

    /// The claims of a session token, from what opening it gave: the expiry and the user id,
    /// when the token opened, its `oid` is a json string and its expiry fits a `usize`.
    pub fn from_opened(opened: Option<(u64, ClaimValue)>) -> (claims: Result<Self, ClaimsError>)
        ensures
            claims_view(claims) == spec_session_claims(opened_view(opened)),
    {
        let exp = match &opened {
            Some((exp, _)) => *exp,
            None => 0,
        };
        match opened_text(opened) {
            Some(oid) => Ok(Claims { exp: exp as usize, oid }),
            None => Err(ClaimsError::BadJwt),
        }
    }

    /// Reads the claims of a session token sealed with the secret; a token that does not open
    /// (a bad signature, a past expiry, claims of another shape) is a bad token.
    pub fn decode(token: &str, secret: &str) -> (claims: Result<Self, ClaimsError>)
        ensures
            claims is Ok ==> claims_view(claims) == spec_session_claims(
                signed_claim(token@, secret@, "oid"@),
            ),
    {
        let field = String::from_str("oid");
        proof {
            reveal_strlit("oid");
        }
        Self::from_opened(open_claims(token, secret, field.as_str()))
    }

    /// Seals the claims into a session token with the secret; this does not fail, and the token
    /// decodes, with the same secret and before its expiry, to these claims.
    pub fn encode(&self, secret: &str) -> (token: Result<String, ClaimsError>)
        ensures
            token is Ok,
            token matches Ok(t) ==> t@ == sealed_claims(
                self.exp as u64,
                "oid"@,
                json_string_text(self.oid@),
                secret@,
            ),
            token matches Ok(t) ==> spec_session_claims(signed_claim(t@, secret@, "oid"@)) == Some(
                (self.exp as u64, self.oid@),
            ),
    {
        let field = String::from_str("oid");
        proof {
            reveal_strlit("oid");
            lemma_library_fields();
        }
        let json = json_text(self.oid.as_str());
        let sealed = seal_claims(self.exp as u64, field.as_str(), json.as_str(), secret);
        match sealed {
            Some(token) => Ok(token),
            None => Err(ClaimsError::BadJwt),
        }
    }
}

/// The expiry and user id a session token holds, from what opening it gave: none when it did not
/// open, its `oid` is not a json string, or its expiry does not fit a `usize`.
pub open spec fn spec_session_claims(opened: Option<(u64, ClaimModel)>) -> Option<(u64, Seq<char>)> {
    match spec_opened_text(opened) {
        Some(oid) => Some((claim_exp(opened), oid)),
        None => None,
    }
}

/// The expiry and user id of claims that were read.
pub open spec fn claims_view(claims: Result<Claims, ClaimsError>) -> Option<(u64, Seq<char>)> {
    match claims {
        Ok(c) => Some((c.exp as u64, c.oid@)),
        Err(_) => None,
    }
}

/// Why a session token could not be read or made.
#[derive(Debug, Clone, Copy, PartialEq, Eq)]
pub enum ClaimsError {
    /// The token does not open, or could not be signed.
    BadJwt,
}

/// The address of the vendor's authorization page.
pub const GOOGLE_AUTHORIZATION_URL: &'static str = "https://accounts.google.com/o/oauth2/v2/auth";

/// The prefix of the ids of users who sign in with the vendor.
pub const GOOGLE_ID_PREFIX: &'static str = "google-oauth2|";

/// The flags of the `Set-Cookie` header that sets the session cookie.
pub const COOKIE_SET_FLAGS: &'static str = "Max-Age=86400; Path=/; SameSite=Strict; HttpOnly";

/// The flags of the `Set-Cookie` header that clears the session cookie.
pub const COOKIE_CLEAR_FLAGS: &'static str = "Max-Age: 0; Path=/; SameSite=Strict; HttpOnly";

/// Texts joined with a separator between each two.
pub open spec fn joined(items: Seq<Seq<char>>, separator: Seq<char>) -> Seq<char>
    decreases items.len(),
{
    if items.len() == 0 {
        seq![]
    } else if items.len() == 1 {
        items[0]
    } else {
        joined(items.drop_last(), separator) + separator + items.last()
    }
}

/// Joins texts with a separator between each two.
pub fn join(items: &Vec<String>, separator: &str) -> (text: String)
    ensures
        text@ == joined(texts_view(items@), separator@),
{
    let mut out = String::new();
    let mut i: usize = 0;
    while i < items.len()
        invariant
            i <= items.len(),
            out@ == joined(texts_view(items@).take(i as int), separator@),
        decreases items.len() - i,
    {
        proof {
            let next = texts_view(items@).take(i + 1);
            assert(next.drop_last() =~= texts_view(items@).take(i as int));
            assert(next.last() == items@[i as int]@);
            if i == 0 {
                assert(next =~= seq![items@[0]@]);
            }
        }
        if i > 0 {
            out.append(separator);
        }
        out.append(items[i].as_str());
        i = i + 1;
    }
    proof {
        assert(texts_view(items@).take(items@.len() as int) =~= texts_view(items@));
    }
    out
}

/// The query pairs of the vendor's authorization page: who asks, where to come back, the scopes
/// asked for, and that a refresh token and the user's consent are wanted.
pub open spec fn authorization_pairs(config: crate::config::GoogleConfiguration) -> Seq<(Seq<char>, Seq<char>)> {
    seq![
        ("client_id"@, config.client_id@),
        ("redirect_uri"@, config.redirect_uri@),
        ("scope"@, joined(texts_view(config.scopes@), " "@)),
        ("access_type"@, "offline"@),
        ("prompt"@, "consent"@),
        ("response_type"@, "code"@),
    ]
}

/// The address users are sent to so that they sign in with the vendor.
pub fn authorization_url(config: &crate::config::GoogleConfiguration) -> (url: Result<String, String>)
    ensures
        match url {
            Ok(text) => url_with_query_pairs(GOOGLE_AUTHORIZATION_URL@, authorization_pairs(*config))
                == Ok::<Seq<char>, Seq<char>>(text@),
            Err(message) => url_with_query_pairs(GOOGLE_AUTHORIZATION_URL@, authorization_pairs(*config))
                == Err::<Seq<char>, Seq<char>>(message@),
        },
{
    let pairs = vec![
        (String::from_str("client_id"), config.client_id.clone()),
        (String::from_str("redirect_uri"), config.redirect_uri.clone()),
        (String::from_str("scope"), join(&config.scopes, " ")),
        (String::from_str("access_type"), String::from_str("offline")),
        (String::from_str("prompt"), String::from_str("consent")),
        (String::from_str("response_type"), String::from_str("code")),
    ];
    proof {
        assert(pairs_view(pairs@) =~= authorization_pairs(*config));
    }
    append_query_pairs(GOOGLE_AUTHORIZATION_URL, &pairs)
}

/// The record of a user who signed in with the vendor: the vendor's id behind
/// `GOOGLE_ID_PREFIX`, the picture and the name the vendor gave.
pub fn vendor_user(vendor_id: &str, picture: String, name: String) -> (user: User)
    ensures
        user.oid@ == GOOGLE_ID_PREFIX@ + vendor_id@,
        user.picture == picture,
        user.name == Some(name),
        user.nickname is None,
        user.devices is None,
{
    User {
        oid: String::from_str(GOOGLE_ID_PREFIX).concat(vendor_id),
        picture,
        name: Some(name),
        nickname: None,
        devices: None,
    }
}

/// The flags of a cookie header, with `Secure` added when the api is served over https.
pub open spec fn cookie_flags(flags: Seq<char>, secure: bool) -> Seq<char> {
    if secure {
        flags + "; Secure"@
    } else {
        flags
    }
}

/// The `Set-Cookie` header that stores a session token.
pub open spec fn spec_session_cookie(config: WebConfiguration, token: Seq<char>, secure: bool) -> Seq<char> {
    config.session_cookie@ + "="@ + token + "; "@ + cookie_flags(COOKIE_SET_FLAGS@, secure)
        + "; Domain="@ + config.cookie_domain@
}

/// The `Set-Cookie` header that clears the session cookie.
pub open spec fn spec_logout_cookie(config: WebConfiguration, secure: bool) -> Seq<char> {
    config.session_cookie@ + "=''; "@ + cookie_flags(COOKIE_CLEAR_FLAGS@, secure) + "; Domain="@
        + config.cookie_domain@
}

/// Appends the flags of a cookie header.
fn push_flags(out: String, flags: &str, secure: bool) -> (text: String)
    ensures
        text@ == out@ + cookie_flags(flags@, secure),
{
    let out = out.concat(flags);
    if secure {
        out.concat("; Secure")
    } else {
        out
    }
}

/// Builds the `Set-Cookie` header that stores a session token.
pub fn session_cookie(config: &WebConfiguration, token: &str, secure: bool) -> (cookie: String)
    ensures
        cookie@ == spec_session_cookie(*config, token@, secure),
{
    let out = config.session_cookie.clone().concat("=").concat(token).concat("; ");
    let out = push_flags(out, COOKIE_SET_FLAGS, secure);
    out.concat("; Domain=").concat(config.cookie_domain.as_str())
}

/// Builds the `Set-Cookie` header that clears the session cookie.
pub fn logout_cookie(config: &WebConfiguration, secure: bool) -> (cookie: String)
    ensures
        cookie@ == spec_logout_cookie(*config, secure),
{
    let out = config.session_cookie.clone().concat("=''; ");
    let out = push_flags(out, COOKIE_CLEAR_FLAGS, secure);
    out.concat("; Domain=").concat(config.cookie_domain.as_str())
}

/// The kinds of requests the ui makes about a device.
#[derive(Debug, Clone, PartialEq, Eq)]
pub enum QueuePayloadKind {
    /// Controls the lights.
    Lights(bool),
    /// Enables or disables the automated device schedule for the current user.
    Schedule(bool),
    /// Adds a message to what the device shows.
    Message(String),
    /// Will queue a qr code render for the device.
    Link(String),
    /// Renames the device.
    Rename(String),
    /// Renders the currently persisted state for a device.
    Refresh,
    /// Clears anything that is currently rendered.
    ClearRender,
    /// Forces redisplay of the registration code.
    Registration,
    /// Makes the device public.
    MakePublic,
    /// Makes the device private.
    MakePrivate,
}

/// What a queue request turns into: a job for the registrar, or a render sent directly to the
/// device's rendering queue.
pub enum QueueAction {
    /// A job for the registrar.
    Job(RegistrarJobKind),
    /// A render for the rendering queue.
    Render(RenderVariant<String>),
}

/// Who a message sent by a user comes from: the user's nickname, else the user's name, else
/// nobody known.
pub open spec fn spec_message_origin(nickname: Option<Seq<char>>, name: Option<Seq<char>>) -> OriginModel {
    match nickname {
        Some(n) => OriginModel::User(n),
        None => match name {
            Some(n) => OriginModel::User(n),
            None => OriginModel::Unknown,
        },
    }
}

/// Who a message sent by the user comes from.
pub fn message_origin(user: &User) -> (origin: DeviceStateMessageOrigin)
    ensures
        origin@ == spec_message_origin(opt_text(user.nickname), opt_text(user.name)),
{
    match &user.nickname {
        Some(nickname) => DeviceStateMessageOrigin::User { nickname: nickname.clone() },
        None => match &user.name {
            Some(name) => DeviceStateMessageOrigin::User { nickname: name.clone() },
            None => DeviceStateMessageOrigin::Unknown,
        },
    }
}

/// Whether a job is the transition of the device's rendered state given.
pub open spec fn is_transition_job(
    action: QueueAction,
    device: Seq<char>,
    transition: TransitionModel,
) -> bool {
    action matches QueueAction::Job(RegistrarJobKind::MutateDeviceState(request))
        && request.device_id@ == device && request.transition@ == transition
}

/// What a request of the ui about a device turns into. Ownership, refresh, clearing, registration
/// codes, schedules, renames and messages become registrar jobs (a message goes through the
/// device's rendered state, from the requesting user); lights and links are rendered directly.
pub fn queue_action(kind: QueuePayloadKind, device_id: String, user: &User) -> (action: QueueAction)
    ensures
        match kind {
            QueuePayloadKind::MakePublic => action matches QueueAction::Job(
                RegistrarJobKind::OwnershipChange(
                    DeviceOwnershipChangeRequest::SetPublicAvailability(id, true),
                ),
            ) && id@ == device_id@,
            QueuePayloadKind::MakePrivate => action matches QueueAction::Job(
                RegistrarJobKind::OwnershipChange(
                    DeviceOwnershipChangeRequest::SetPublicAvailability(id, false),
                ),
            ) && id@ == device_id@,
            QueuePayloadKind::ClearRender => is_transition_job(
                action,
                device_id@,
                TransitionModel::Clear,
            ),
            QueuePayloadKind::Refresh => action matches QueueAction::Job(
                RegistrarJobKind::Renders(RegistrarRenderKinds::CurrentDeviceState(id)),
            ) && id@ == device_id@,
            QueuePayloadKind::Registration => action matches QueueAction::Job(
                RegistrarJobKind::Renders(RegistrarRenderKinds::RegistrationScannable(id)),
            ) && id@ == device_id@,
            QueuePayloadKind::Schedule(enable) => action matches QueueAction::Job(
                RegistrarJobKind::ToggleDefaultSchedule { should_enable, device_id: id, user_id },
            ) && should_enable == enable && id@ == device_id@ && user_id@ == user.oid@,
            QueuePayloadKind::Rename(name) => action matches QueueAction::Job(
                RegistrarJobKind::Rename(request),
            ) && request.device_id@ == device_id@ && request.new_name@ == name@,
            QueuePayloadKind::Message(message) => is_transition_job(
                action,
                device_id@,
                TransitionModel::PushMessage(
                    message@,
                    spec_message_origin(opt_text(user.nickname), opt_text(user.name)),
                ),
            ),
            QueuePayloadKind::Lights(on) => action matches QueueAction::Render(variant)
                && is_lighting_variant(
                variant,
                if on {
                    LightingLayout::On
                } else {
                    LightingLayout::Off
                },
            ),
            QueuePayloadKind::Link(link) => action matches QueueAction::Render(variant)
                && is_layout_variant(variant, LayoutModel::Scannable(link@)),
        },
{
    match kind {
        QueuePayloadKind::MakePublic => QueueAction::Job(
            RegistrarJobKind::OwnershipChange(
                DeviceOwnershipChangeRequest::SetPublicAvailability(device_id, true),
            ),
        ),
        QueuePayloadKind::MakePrivate => QueueAction::Job(
            RegistrarJobKind::OwnershipChange(
                DeviceOwnershipChangeRequest::SetPublicAvailability(device_id, false),
            ),
        ),
        QueuePayloadKind::ClearRender => QueueAction::Job(
            RegistrarJobKind::MutateDeviceState(
                DeviceStateTransitionRequest { device_id, transition: DeviceStateTransition::Clear },
            ),
        ),
        QueuePayloadKind::Refresh => QueueAction::Job(
            RegistrarJobKind::Renders(RegistrarRenderKinds::CurrentDeviceState(device_id)),
        ),
        QueuePayloadKind::Registration => QueueAction::Job(
            RegistrarJobKind::Renders(RegistrarRenderKinds::RegistrationScannable(device_id)),
        ),
        QueuePayloadKind::Schedule(desired_state) => QueueAction::Job(
            RegistrarJobKind::ToggleDefaultSchedule {
                device_id,
                user_id: user.oid.clone(),
                should_enable: desired_state,
            },
        ),
        QueuePayloadKind::Rename(new_name) => QueueAction::Job(
            RegistrarJobKind::Rename(DeviceRenameRequest { device_id, new_name }),
        ),
        QueuePayloadKind::Message(message) => {
            let origin = message_origin(user);
            QueueAction::Job(
                RegistrarJobKind::MutateDeviceState(
                    DeviceStateTransitionRequest {
                        device_id,
                        transition: DeviceStateTransition::PushMessage(message, origin),
                    },
                ),
            )
        },
        QueuePayloadKind::Lights(true) => QueueAction::Render(RenderVariant::on()),
        QueuePayloadKind::Lights(false) => QueueAction::Render(RenderVariant::off()),
        QueuePayloadKind::Link(link) => QueueAction::Render(RenderVariant::scannable(link)),
    }
}

} // verus!
