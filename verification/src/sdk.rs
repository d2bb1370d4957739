use vstd::prelude::*;

use crate::client::{
    config_names, configs_view, configuration_error, valid_configuration, HederaClientConfiguration,
    HederaClientService,
};
use crate::error::DIDError;

verus! {

/// The pause between two resolution attempts of `resolve_did_until`, in
/// milliseconds.
pub const RESOLVE_POLL_INTERVAL_MILLIS: u64 = 300;

/// The top-level SDK handler: the validated network configuration from which
/// every operation selects its client.
#[derive(Debug)]
pub struct HieroDidSdk {
    client_service: HederaClientService,
}

/// What one resolution attempt of `resolve_did_until` gave.
#[derive(Debug)]
pub enum PollObservation {
    /// The DID could not be resolved (not yet indexed, or a transport error).
    ResolveFailed,
    /// The DID resolved; whether the caller's predicate holds of the result.
    Resolved { predicate_holds: bool },
}

/// What `resolve_did_until` does after an attempt.
#[derive(PartialEq, Eq, Structural, Debug)]
pub enum PollDecision {
    /// Return the resolution just obtained.
    Done,
    /// Sleep this many milliseconds, then try again.
    Retry { wait_millis: u64 },
    /// Give up with the timeout error.
    TimedOut,
}

/// The decision after an attempt made `elapsed_millis` after the polling
/// started: done once the predicate holds; otherwise give up when the timeout
/// has passed, and retry after the poll interval when it has not.
pub open spec fn poll_decision(timeout_secs: u64, elapsed_millis: u64, obs: PollObservation) -> PollDecision {
    match obs {
        PollObservation::Resolved { predicate_holds: true } => PollDecision::Done,
        _ => if elapsed_millis >= timeout_secs * 1000 {
            PollDecision::TimedOut
        } else {
            PollDecision::Retry { wait_millis: RESOLVE_POLL_INTERVAL_MILLIS }
        },
    }
}

/// The text of the error `resolve_did_until` gives up with.
pub open spec fn timeout_message(did: Seq<char>) -> Seq<char> {
    "Timed out waiting for expected resolved state on "@ + did
}

impl Clone for HieroDidSdk {
    fn clone(&self) -> (r: Self)
        ensures
            configs_view(r.service().configs()) == configs_view(self.service().configs()),
            config_names(r.service().configs()) == config_names(self.service().configs()),
    {
        HieroDidSdk { client_service: self.client_service.clone() }
    }
}

impl HieroDidSdk {
    /// The client service the handler was built from.
    pub closed spec fn service(&self) -> HederaClientService {
        self.client_service
    }

    /// Builds a handler from an already validated client service.
    pub fn new(client_service: HederaClientService) -> (sdk: HieroDidSdk)
        ensures
            sdk.service() == client_service,
    {
        HieroDidSdk { client_service }
    }

    /// Builds a handler from a network configuration; fails exactly when the
    /// configuration does, as `HederaClientService::new` says. Operator
    /// credentials are not parsed here (see `HederaClientService::new`).
    pub fn from_config(config: HederaClientConfiguration) -> (r: Result<HieroDidSdk, DIDError>)
        ensures
            match r {
                Ok(sdk) => sdk.service().configs() == config.networks@,
                Err(e) => configuration_error(config.networks@, e),
            },
            r is Ok <==> valid_configuration(config.networks@),
    {
        match HederaClientService::new(config) {
            Ok(svc) => Ok(HieroDidSdk::new(svc)),
            Err(e) => Err(e),
        }
    }

    /// The client service the handler selects clients from.
    pub fn client_service(&self) -> (r: &HederaClientService)
        ensures
            *r == self.service(),
    {
        &self.client_service
    }

    /// The decision of `resolve_did_until` after an attempt, as `poll_decision`
    /// says.
    pub fn resolve_until_decision(timeout_secs: u64, elapsed_millis: u64, obs: PollObservation) -> (d: PollDecision)
        ensures
            d == poll_decision(timeout_secs, elapsed_millis, obs),
    {
        match obs {
            PollObservation::Resolved { predicate_holds: true } => PollDecision::Done,
            _ => {
                if elapsed_millis as u128 >= timeout_secs as u128 * 1000 {
                    PollDecision::TimedOut
                } else {
                    PollDecision::Retry { wait_millis: RESOLVE_POLL_INTERVAL_MILLIS }
                }
            },
        }
    }

    /// The error `resolve_did_until` gives up with for the DID string `did`.
    pub fn resolve_until_timeout_error(did: &str) -> (e: DIDError)
        ensures
            e is InternalError,
            e.message() == timeout_message(did@),
    {
        let mut msg = "Timed out waiting for expected resolved state on ".to_owned();
        msg.append(did);
        DIDError::InternalError(msg)
    }
}

/// `resolve_did_until` hands back a resolution only when the caller's predicate
/// holds of it, and gives up only once the timeout has passed without that.
pub proof fn lemma_poll_outcomes(timeout_secs: u64, elapsed_millis: u64, obs: PollObservation)
    ensures
        (poll_decision(timeout_secs, elapsed_millis, obs) == PollDecision::Done) <==> (obs
            == (PollObservation::Resolved { predicate_holds: true })),
        (poll_decision(timeout_secs, elapsed_millis, obs) == PollDecision::TimedOut) ==> (
        elapsed_millis >= timeout_secs * 1000),
        (poll_decision(timeout_secs, elapsed_millis, obs) is Retry) ==> (elapsed_millis
            < timeout_secs * 1000),
{
}

} // verus!
