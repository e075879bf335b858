//! The license lifecycle: what to ask the license server, and what its answer
//! does to the stored entitlement.
//!
//! Each operation comes as a pair. The first function builds the request from
//! what is stored, or finds that none is to be sent. The caller sends it, under
//! its timeout, and hands the reply to the second function, which decides.

use crate::fingerprint::{machine_fingerprint, MachineSignals};
use crate::key::{check_format, format_verdict, KeyFormatError};
use crate::license::{
    empty_store, LicenseInfo, LicenseInfoView, LicenseStore, LicenseStoreView,
};
use crate::signature::{license_verdict, opt_bytes, verify_license, SignatureError};
use crate::text::{opt_text, texts};
use crate::time::{days_after, instant_lt, parsed_instant, Instant, Timestamp};
use vstd::prelude::*;

verus! {

/// What is sent to activate a license on this machine.
#[derive(Debug)]
pub struct ActivationRequest {
    pub license_key: String,
    pub machine_fingerprint: String,
    pub app_version: String,
}

/// What is sent to validate or to deactivate an activation.
#[derive(Debug)]
pub struct ValidationRequest {
    pub activation_token: String,
    pub machine_fingerprint: String,
}

/// The server's answer to an activation request.
#[derive(Debug)]
pub struct ActivationResponse {
    pub success: bool,
    pub message: String,
    pub activation_token: Option<String>,
    pub tier: String,
    pub features: Vec<String>,
    pub expires_at: Option<String>,
}

/// The server's answer to a validation request.
#[derive(Debug)]
pub struct ValidationResponse {
    pub valid: bool,
    pub tier: Option<String>,
    pub features: Option<Vec<String>>,
    pub expires_at: Option<String>,
}

/// How an activation request ended: with the server's answer, or without one
/// (a timeout, a connection error, a status other than success, an answer that
/// could not be read).
#[derive(Debug)]
pub enum ActivationReply {
    Answered(ActivationResponse),
    Failed(String),
}

/// How a validation request ended: with the server's answer, or without one.
#[derive(Debug)]
pub enum ValidationReply {
    Answered(ValidationResponse),
    Failed(String),
}

/// Why a license operation failed.
#[derive(Debug)]
pub enum LicenseError {
    /// The key does not have the textual form of a license key.
    InvalidFormat(KeyFormatError),
    /// The offline check of the key failed.
    SignatureInvalid(SignatureError),
    /// The server answered, and refused; its message is carried as it came.
    ServerRejected(String),
    /// No answer was had from the server.
    TransportFailure(String),
}

/// What a `LicenseError` holds, as texts.
pub enum LicenseErrorView {
    InvalidFormat(KeyFormatError),
    SignatureInvalid(SignatureError),
    ServerRejected(Seq<char>),
    TransportFailure(Seq<char>),
}

impl View for LicenseError {
    type V = LicenseErrorView;

    open spec fn view(&self) -> LicenseErrorView {
        match self {
            LicenseError::InvalidFormat(e) => LicenseErrorView::InvalidFormat(*e),
            LicenseError::SignatureInvalid(e) => LicenseErrorView::SignatureInvalid(*e),
            LicenseError::ServerRejected(m) => LicenseErrorView::ServerRejected(m@),
            LicenseError::TransportFailure(m) => LicenseErrorView::TransportFailure(m@),
        }
    }
}

/// The message of a license error: that of the check that failed, or the text
/// that came from the server or the transport, as it came.
pub open spec fn license_error_text(e: LicenseErrorView) -> Seq<char> {
    match e {
        LicenseErrorView::InvalidFormat(e) => crate::key::format_error_text(e),
        LicenseErrorView::SignatureInvalid(e) => crate::signature::signature_error_text(e),
        LicenseErrorView::ServerRejected(m) => m,
        LicenseErrorView::TransportFailure(m) => m,
    }
}

impl LicenseError {
    /// Says in words why the operation failed.
    pub fn message(&self) -> (text: String)
        ensures
            text@ == license_error_text(self@),
    {
        match self {
            LicenseError::InvalidFormat(e) => e.message(),
            LicenseError::SignatureInvalid(e) => e.message(),
            LicenseError::ServerRejected(m) => m.clone(),
            LicenseError::TransportFailure(m) => m.clone(),
        }
    }
}

/// The local checks of a key before the server is asked: its form, then its
/// signature, which the material presented with the key must hold and which
/// must verify under the verification key.
pub open spec fn key_verdict(
    public_key: Seq<char>,
    key: Seq<char>,
    signature: Option<Seq<u8>>,
) -> Result<(), LicenseErrorView> {
    match format_verdict(key) {
        Err(e) => Err(LicenseErrorView::InvalidFormat(e)),
        Ok(_) => match license_verdict(public_key, key, signature) {
            Err(e) => Err(LicenseErrorView::SignatureInvalid(e)),
            Ok(_) => Ok(()),
        },
    }
}

/// A key passes the local checks only with a signature that verifies. A key of
/// the right form without one, or with one that does not verify, is refused
/// for its signature, whatever the server would have said.
pub proof fn lemma_unsigned_keys_are_refused(
    public_key: Seq<char>,
    key: Seq<char>,
    signature: Option<Seq<u8>>,
    reply: ActivationReply,
)
    ensures
        key_verdict(public_key, key, signature) is Ok <==> format_verdict(key) is Ok
            && license_verdict(public_key, key, signature) is Ok,
        format_verdict(key) is Ok && !(license_verdict(public_key, key, signature) is Ok) ==> {
            &&& key_verdict(public_key, key, signature) is Err
            &&& key_verdict(public_key, key, signature)->Err_0 is SignatureInvalid
            &&& activation_verdict(public_key, key, signature, reply) == key_verdict(
                public_key,
                key,
                signature,
            )
        },
        activation_verdict(public_key, key, signature, reply) is Ok ==> license_verdict(
            public_key,
            key,
            signature,
        ) is Ok,
{
}

/// How an activation ends: the local checks of the key come first; a request
/// without an answer fails; an answer counts as success only if it says so and
/// carries the token, and is a rejection with the server's message otherwise.
pub open spec fn activation_verdict(
    public_key: Seq<char>,
    key: Seq<char>,
    signature: Option<Seq<u8>>,
    reply: ActivationReply,
) -> Result<(), LicenseErrorView> {
    match key_verdict(public_key, key, signature) {
        Err(e) => Err(e),
        Ok(_) => match reply {
            ActivationReply::Failed(m) => Err(LicenseErrorView::TransportFailure(m@)),
            ActivationReply::Answered(r) => if r.success && r.activation_token is Some {
                Ok(())
            } else {
                Err(LicenseErrorView::ServerRejected(r.message@))
            },
        },
    }
}

/// The entitlement that a successful activation stores.
pub open spec fn activated_info(r: ActivationResponse, now_text: Seq<char>) -> LicenseInfoView {
    LicenseInfoView {
        status: "active"@,
        tier: r.tier@,
        expires_at: opt_text(r.expires_at),
        features: texts(r.features@),
        activated: true,
        last_validation: Some(now_text),
    }
}

/// Whether an entitlement that ends at `expires_at` can still be used at `now`:
/// it has no end, or its end can be read and lies after `now`. At the very
/// instant of its end it has expired.
pub open spec fn usable_at(expires_at: Option<Seq<char>>, now: Instant) -> bool {
    match expires_at {
        None => true,
        Some(text) => match parsed_instant(text) {
            Some(end) => instant_lt(now, (end.0 as int, end.1 as int)),
            None => false,
        },
    }
}

/// Whether what is stored allows the server to be asked for validation: an
/// entitlement in force that has not expired, and its token.
pub open spec fn locally_valid(store: LicenseStoreView, now: Instant) -> bool {
    &&& store.info matches Some(info) && info.in_force() && usable_at(info.expires_at, now)
    &&& store.token is Some
}

/// Whether `now` lies before the end of the grace period that began at `last`:
/// the instant `grace_days` days after `last`. Where the calendar has no such
/// instant, there is no grace.
pub open spec fn before_grace_end(last: (i64, u32), grace_days: int, now: Instant) -> bool {
    match days_after(last.0 as int, last.1 as int, grace_days) {
        Some(end) => instant_lt(now, (end.0 as int, end.1 as int)),
        None => false,
    }
}

/// Whether `now` lies within the grace period: the last validation is known,
/// can be read, and `now` is before the instant `grace_days` days after it.
pub open spec fn within_grace(
    last_validation: Option<Seq<char>>,
    grace_days: int,
    now: Instant,
) -> bool {
    match last_validation {
        None => false,
        Some(text) => match parsed_instant(text) {
            Some(last) => before_grace_end(last, grace_days, now),
            None => false,
        },
    }
}

/// The answer of a validation. Without a usable stored entitlement it is
/// `false`. Otherwise the server's answer decides, and where there is none, the
/// grace period does.
pub open spec fn validation_verdict(
    store: LicenseStoreView,
    now: Instant,
    reply: ValidationReply,
    grace_days: int,
) -> bool {
    locally_valid(store, now) && match reply {
        ValidationReply::Answered(r) => r.valid,
        ValidationReply::Failed(_) => within_grace(
            store.info->0.last_validation,
            grace_days,
            now,
        ),
    }
}

/// Where the entitlement of a machine stands.
#[derive(Clone, Copy, Debug, PartialEq, Eq, Structural)]
pub enum LicenseState {
    /// No entitlement was activated on this machine: the free tier applies.
    Free,
    /// The server confirmed the entitlement, which has not expired.
    Active,
    /// The entitlement could be asked about and the server gave no answer
    /// while the grace period runs.
    GracePeriod,
    /// The entitlement is not in force, has expired, lacks its token, was
    /// refused by the server, or has outlived the grace period.
    Denied,
}

/// The state that a validation finds.
pub open spec fn state_of(
    store: LicenseStoreView,
    now: Instant,
    reply: ValidationReply,
    grace_days: int,
) -> LicenseState {
    if store.info is None || !store.info->0.activated {
        LicenseState::Free
    } else if !locally_valid(store, now) {
        LicenseState::Denied
    } else {
        match reply {
            ValidationReply::Answered(r) => if r.valid {
                LicenseState::Active
            } else {
                LicenseState::Denied
            },
            ValidationReply::Failed(_) => if within_grace(
                store.info->0.last_validation,
                grace_days,
                now,
            ) {
                LicenseState::GracePeriod
            } else {
                LicenseState::Denied
            },
        }
    }
}

/// A validation answers `true` in exactly two states: the server confirmed the
/// entitlement, or it gave no answer within the grace period.
pub proof fn lemma_valid_states(
    store: LicenseStoreView,
    now: Instant,
    reply: ValidationReply,
    grace_days: int,
)
    ensures
        validation_verdict(store, now, reply, grace_days) <==> (state_of(
            store,
            now,
            reply,
            grace_days,
        ) is Active || state_of(store, now, reply, grace_days) is GracePeriod),
        state_of(store, now, reply, grace_days) is Active ==> reply is Answered,
        state_of(store, now, reply, grace_days) is GracePeriod ==> reply is Failed,
{
}

/// The entitlement after the server confirmed it: tier, features and end are
/// taken from the answer as far as it gives them, and the time of validation is
/// set.
pub open spec fn refreshed_info(
    info: LicenseInfoView,
    r: ValidationResponse,
    now_text: Seq<char>,
) -> LicenseInfoView {
    LicenseInfoView {
        status: info.status,
        tier: match r.tier {
            Some(tier) => tier@,
            None => info.tier,
        },
        expires_at: match r.expires_at {
            Some(end) => Some(end@),
            None => info.expires_at,
        },
        features: match r.features {
            Some(features) => texts(features@),
            None => info.features,
        },
        activated: info.activated,
        last_validation: Some(now_text),
    }
}

/// Whether the server answered and confirmed the entitlement.
pub open spec fn confirms(reply: ValidationReply) -> bool {
    match reply {
        ValidationReply::Answered(r) => r.valid,
        ValidationReply::Failed(_) => false,
    }
}

/// The store after a validation: refreshed where the server confirmed the
/// entitlement, unchanged in every other case.
pub open spec fn store_after_validation(
    store: LicenseStoreView,
    now: Instant,
    now_text: Seq<char>,
    reply: ValidationReply,
) -> LicenseStoreView {
    if locally_valid(store, now) && confirms(reply) {
        LicenseStoreView {
            token: store.token,
            info: Some(refreshed_info(store.info->0, reply->Answered_0, now_text)),
            last_validation: Some(now_text),
        }
    } else {
        store
    }
}

/// The settings of the license lifecycle.
#[derive(Debug)]
pub struct LicenseService {
    /// The base address of the license server.
    pub license_server_url: String,
    /// The verification key, as base64 text.
    pub public_key: String,
    /// The version of the application, as sent at activation.
    pub app_version: String,
    /// The length of the grace period, in days.
    pub grace_days: i64,
    /// How long a request to the server may take, in seconds.
    pub request_timeout_secs: u64,
    /// How long a validation may wait for the server, in seconds.
    pub validation_timeout_secs: u64,
}

impl LicenseService {
    /// The settings for a license server at `license_server_url`, with the
    /// verification key `public_key` as base64 text, a grace period of seven
    /// days, thirty seconds for a request and ten for a validation.
    pub fn new(license_server_url: String, public_key: String, app_version: String) -> (service:
        LicenseService)
        ensures
            service.license_server_url == license_server_url,
            service.public_key == public_key,
            service.app_version == app_version,
            service.grace_days == 7,
            service.request_timeout_secs == 30,
            service.validation_timeout_secs == 10,
    {
        LicenseService {
            license_server_url,
            public_key,
            app_version,
            grace_days: 7,
            request_timeout_secs: 30,
            validation_timeout_secs: 10,
        }
    }

    /// The address that activation requests are posted to.
    pub fn activate_url(&self) -> (url: String)
        ensures
            url@ == self.license_server_url@ + "/activations/activate"@,
    {
        let mut url = self.license_server_url.clone();
        url.append("/activations/activate");
        url
    }

    /// The address that validation requests are posted to.
    pub fn validate_url(&self) -> (url: String)
        ensures
            url@ == self.license_server_url@ + "/activations/validate"@,
    {
        let mut url = self.license_server_url.clone();
        url.append("/activations/validate");
        url
    }

    /// The address that deactivation requests are posted to.
    pub fn deactivate_url(&self) -> (url: String)
        ensures
            url@ == self.license_server_url@ + "/activations/deactivate"@,
    {
        let mut url = self.license_server_url.clone();
        url.append("/activations/deactivate");
        url
    }

    /// Checks that `key` has the form `PRLX-XXXX-XXXX-XXXX-XXXX`.
    pub fn validate_key_format(&self, key: &str) -> (verdict: Result<(), KeyFormatError>)
        ensures
            verdict == format_verdict(key@),
            verdict is Ok <==> crate::key::is_license_key(key@),
    {
        check_format(key)
    }

    /// Checks the signature of `license_key` offline: the material presented
    /// with the key must be a signature of it under the verification key. A
    /// key without material is refused.
    pub fn verify_license_signature(&self, license_key: &str, signature: Option<&[u8]>) -> (verdict:
        Result<(), SignatureError>)
        ensures
            verdict == license_verdict(self.public_key@, license_key@, opt_bytes(signature)),
    {
        verify_license(self.public_key.as_str(), license_key, signature)
    }

    /// Derives the machine fingerprint from the signals read.
    pub fn generate_machine_fingerprint(&self, signals: &MachineSignals) -> (fingerprint: String)
        ensures
            fingerprint@ == signals.fingerprint(),
            crate::fingerprint::is_fingerprint(fingerprint@),
    {
        machine_fingerprint(signals)
    }

    /// The entitlement that applies: the stored one, or the free tier.
    pub fn get_license_info(&self, store: &LicenseStore) -> (info: LicenseInfo)
        ensures
            info@ == store@.license_info(),
    {
        store.license_info()
    }

    /// Whether an entitlement that ends at `expires_at` has expired at `now`,
    /// or `None` where `expires_at` cannot be read. At the very instant of its
    /// end it has expired.
    pub fn is_expired(&self, expires_at: &str, now: &Timestamp) -> (expired: Option<bool>)
        ensures
            match parsed_instant(expires_at@) {
                Some(end) => expired == Some(!instant_lt(now@, (end.0 as int, end.1 as int))),
                None => expired is None,
            },
    {
        match Timestamp::parse(expires_at) {
            Some(end) => Some(!now.is_before(&end)),
            None => None,
        }
    }

    /// Whether `now` lies before the end of the grace period of `grace_days`
    /// days after `last_validation`, or `None` where that cannot be read.
    pub fn check_grace_period(
        &self,
        last_validation: &str,
        grace_days: i64,
        now: &Timestamp,
    ) -> (within: Option<bool>)
        ensures
            match parsed_instant(last_validation@) {
                Some(last) => within == Some(before_grace_end(last, grace_days as int, now@)),
                None => within is None,
            },
    {
        match Timestamp::parse(last_validation) {
            Some(last) => match last.plus_days(grace_days) {
                Some(end) => Some(now.is_before(&end)),
                None => Some(false),
            },
            None => None,
        }
    }

    fn check_key(&self, license_key: &str, signature: Option<&[u8]>) -> (verdict: Result<
        (),
        LicenseError,
    >)
        ensures
            match verdict {
                Ok(_) => key_verdict(self.public_key@, license_key@, opt_bytes(signature)) is Ok,
                Err(e) => key_verdict(self.public_key@, license_key@, opt_bytes(signature))
                    == Err::<(), LicenseErrorView>(e@),
            },
    {
        match check_format(license_key) {
            Err(e) => Err(LicenseError::InvalidFormat(e)),
            Ok(_) => match verify_license(self.public_key.as_str(), license_key, signature) {
                Err(e) => Err(LicenseError::SignatureInvalid(e)),
                Ok(_) => Ok(()),
            },
        }
    }

    /// Builds the activation request for `license_key` on this machine, once
    /// the key has passed the format check and its signature has been
    /// verified. A key that fails either is never sent.
    pub fn activation_request(
        &self,
        license_key: &str,
        signature: Option<&[u8]>,
        signals: &MachineSignals,
    ) -> (request: Result<ActivationRequest, LicenseError>)
        ensures
            match request {
                Ok(r) => {
                    &&& key_verdict(self.public_key@, license_key@, opt_bytes(signature)) is Ok
                    &&& r.license_key@ == license_key@
                    &&& r.machine_fingerprint@ == signals.fingerprint()
                    &&& r.app_version@ == self.app_version@
                },
                Err(e) => key_verdict(self.public_key@, license_key@, opt_bytes(signature))
                    == Err::<(), LicenseErrorView>(e@),
            },
    {
        match self.check_key(license_key, signature) {
            Err(e) => Err(e),
            Ok(_) => Ok(
                ActivationRequest {
                    license_key: String::from_str(license_key),
                    machine_fingerprint: machine_fingerprint(signals),
                    app_version: self.app_version.clone(),
                },
            ),
        }
    }

    /// Ends an activation. The key is checked as it was for the request, so that
    /// no reply can activate a key that fails the local checks. On success the token and the entitlement, active and
    /// validated at `now`, are stored, and a copy of the entitlement is
    /// returned. On any failure nothing is stored.
    pub fn activate(
        &self,
        store: &mut LicenseStore,
        license_key: &str,
        signature: Option<&[u8]>,
        reply: ActivationReply,
        now: &Timestamp,
    ) -> (result: Result<LicenseInfo, LicenseError>)
        ensures
            match result {
                Ok(info) => {
                    &&& activation_verdict(
                        self.public_key@,
                        license_key@,
                        opt_bytes(signature),
                        reply,
                    ) is Ok
                    &&& reply is Answered
                    &&& info@ == activated_info(reply->Answered_0, now.rfc3339())
                    &&& final(store)@ == (LicenseStoreView {
                        token: opt_text(reply->Answered_0.activation_token),
                        info: Some(info@),
                        last_validation: old(store)@.last_validation,
                    })
                    &&& final(store)@.consistent()
                },
                Err(e) => {
                    &&& activation_verdict(
                        self.public_key@,
                        license_key@,
                        opt_bytes(signature),
                        reply,
                    ) == Err::<(), LicenseErrorView>(e@)
                    &&& *final(store) == *old(store)
                },
            },
    {
        match self.check_key(license_key, signature) {
            Err(e) => { return Err(e); },
            Ok(_) => {},
        }
        match reply {
            ActivationReply::Failed(message) => Err(LicenseError::TransportFailure(message)),
            ActivationReply::Answered(r) => {
                if !r.success || r.activation_token.is_none() {
                    return Err(LicenseError::ServerRejected(r.message));
                }
                let info = LicenseInfo {
                    status: String::from_str("active"),
                    tier: r.tier,
                    expires_at: r.expires_at,
                    features: r.features,
                    activated: true,
                    last_validation: Some(now.to_rfc3339()),
                };
                let copy = info.copy();
                store.token = r.activation_token;
                store.info = Some(info);
                Ok(copy)
            },
        }
    }

    fn locally_valid(&self, store: &LicenseStore, now: &Timestamp) -> (valid: bool)
        ensures
            valid == locally_valid(store@, now@),
    {
        match &store.info {
            None => false,
            Some(info) => {
                if !info.in_force() {
                    return false;
                }
                let usable = match &info.expires_at {
                    None => true,
                    Some(end) => match self.is_expired(end.as_str(), now) {
                        Some(expired) => !expired,
                        None => false,
                    },
                };
                usable && store.token.is_some()
            },
        }
    }

    fn within_grace(&self, store: &LicenseStore, now: &Timestamp) -> (within: bool)
        requires
            store@.info is Some,
        ensures
            within == within_grace(store@.info->0.last_validation, self.grace_days as int, now@),
    {
        match &store.info {
            None => false,
            Some(info) => match &info.last_validation {
                None => false,
                Some(last) => match self.check_grace_period(last.as_str(), self.grace_days, now) {
                    Some(within) => within,
                    None => false,
                },
            },
        }
    }

    /// Builds the validation request, where what is stored allows one: an
    /// entitlement in force that has not expired, and its token. Where it gives
    /// `None`, the validation's answer is `false` and the server is not asked.
    pub fn validation_request(
        &self,
        store: &LicenseStore,
        signals: &MachineSignals,
        now: &Timestamp,
    ) -> (request: Option<ValidationRequest>)
        ensures
            request is Some <==> locally_valid(store@, now@),
            request matches Some(r) ==> {
                &&& Some(r.activation_token@) == store@.token
                &&& r.machine_fingerprint@ == signals.fingerprint()
            },
    {
        if !self.locally_valid(store, now) {
            return None;
        }
        match &store.token {
            None => None,
            Some(token) => Some(
                ValidationRequest {
                    activation_token: token.clone(),
                    machine_fingerprint: machine_fingerprint(signals),
                },
            ),
        }
    }

    /// Ends a validation, and never fails. Where the server confirmed the
    /// entitlement, what it sent of tier, features and end is stored with `now`
    /// as the time of validation. A refusal leaves the store as it is: only the
    /// answer is `false`. Where no answer was had, the grace period decides.
    pub fn validate(&self, store: &mut LicenseStore, reply: ValidationReply, now: &Timestamp) -> (valid:
        bool)
        ensures
            valid == validation_verdict(old(store)@, now@, reply, self.grace_days as int),
            final(store)@ == store_after_validation(old(store)@, now@, now.rfc3339(), reply),
            old(store)@.consistent() ==> final(store)@.consistent(),
    {
        if !self.locally_valid(store, now) {
            return false;
        }
        match reply {
            ValidationReply::Failed(_) => self.within_grace(store, now),
            ValidationReply::Answered(r) => {
                if !r.valid {
                    return false;
                }
                let stored = store.info.take();
                match stored {
                    None => false,
                    Some(mut info) => {
                        match r.tier {
                            Some(tier) => { info.tier = tier; },
                            None => {},
                        }
                        match r.features {
                            Some(features) => { info.features = features; },
                            None => {},
                        }
                        match r.expires_at {
                            Some(end) => { info.expires_at = Some(end); },
                            None => {},
                        }
                        info.last_validation = Some(now.to_rfc3339());
                        store.info = Some(info);
                        store.last_validation = Some(now.to_rfc3339());
                        true
                    },
                }
            },
        }
    }

    /// The state that a validation with this reply finds. Nothing is changed.
    pub fn state(&self, store: &LicenseStore, reply: &ValidationReply, now: &Timestamp) -> (state:
        LicenseState)
        ensures
            state == state_of(store@, now@, *reply, self.grace_days as int),
    {
        let activated = match &store.info {
            Some(info) => info.activated,
            None => false,
        };
        if !activated {
            return LicenseState::Free;
        }
        if !self.locally_valid(store, now) {
            return LicenseState::Denied;
        }
        match reply {
            ValidationReply::Answered(r) => {
                if r.valid {
                    LicenseState::Active
                } else {
                    LicenseState::Denied
                }
            },
            ValidationReply::Failed(_) => {
                if self.within_grace(store, now) {
                    LicenseState::GracePeriod
                } else {
                    LicenseState::Denied
                }
            },
        }
    }

    /// Builds the deactivation request, where a token is stored. Without a
    /// token there is nothing to tell the server, and that is no failure.
    pub fn deactivation_request(&self, store: &LicenseStore, signals: &MachineSignals) -> (request:
        Option<ValidationRequest>)
        ensures
            request is Some <==> store@.token is Some,
            request matches Some(r) ==> {
                &&& Some(r.activation_token@) == store@.token
                &&& r.machine_fingerprint@ == signals.fingerprint()
            },
    {
        match &store.token {
            None => None,
            Some(token) => Some(
                ValidationRequest {
                    activation_token: token.clone(),
                    machine_fingerprint: machine_fingerprint(signals),
                },
            ),
        }
    }

    /// Deactivates locally: the token, the entitlement and the validation time
    /// are removed, whatever was stored and whatever became of the request to
    /// the server. It cannot fail, and doing it again changes nothing.
    pub fn deactivate(&self, store: &mut LicenseStore)
        ensures
            final(store)@ == empty_store(),
            final(store)@.consistent(),
    {
        store.clear();
    }
}

/// What deactivation leaves, from whatever store it began: a store that is
/// consistent and holds nothing to ask the server about. Every validation of
/// it answers `false`, finds the state `Free`, and leaves it as it is. So a
/// second deactivation begins and ends where the first one ended.
pub proof fn lemma_deactivated_store(
    now: Instant,
    now_text: Seq<char>,
    reply: ValidationReply,
    grace_days: int,
)
    ensures
        empty_store().consistent(),
        empty_store().token is None,
        !locally_valid(empty_store(), now),
        !validation_verdict(empty_store(), now, reply, grace_days),
        state_of(empty_store(), now, reply, grace_days) is Free,
        store_after_validation(empty_store(), now, now_text, reply) == empty_store(),
{
}

} // verus!
