//! The state that a client of the identity provider keeps, and the decisions
//! of its refresh and of its rotation loop. The calls to the provider are
//! made elsewhere; what comes back is handed in.

use vstd::prelude::*;
use vstd::string::*;
use std::sync::Arc;
use crate::error::Error;
use crate::svid::{SvidBundle, X509Svid};
use crate::time::Timestamp;
use crate::trust_bundle::{valid_bundle, TrustBundle, TrustBundleStore, TrustBundleView};

verus! {

/// Where the identity provider's agent listens when nothing else is configured.
pub const DEFAULT_SOCKET_PATH: &'static str = "/tmp/spire-agent/public/api.sock";

/// Seconds between two rotation checks when nothing else is configured:
/// five minutes.
pub const DEFAULT_ROTATION_INTERVAL: u64 = 300;

/// Settings of the identity-provider client.
#[derive(Debug)]
pub struct WorkloadApiConfig {
    /// Socket path of the agent.
    pub socket_path: String,
    /// Whether credentials are rotated in the background.
    pub auto_rotate: bool,
    /// Seconds between two rotation checks.
    pub rotation_interval: u64,
    /// Whether trust bundles are cached.
    pub cache_bundles: bool,
}

impl Default for WorkloadApiConfig {
    fn default() -> (config: Self)
        ensures
            config.socket_path@ == DEFAULT_SOCKET_PATH@,
            config.auto_rotate,
            config.rotation_interval == 300,
            config.cache_bundles,
    {
        WorkloadApiConfig {
            socket_path: String::from_str(DEFAULT_SOCKET_PATH),
            auto_rotate: true,
            rotation_interval: DEFAULT_ROTATION_INTERVAL,
            cache_bundles: true,
        }
    }
}

impl Clone for WorkloadApiConfig {
    fn clone(&self) -> (r: Self)
        ensures
            r == *self,
    {
        WorkloadApiConfig {
            socket_path: self.socket_path.clone(),
            auto_rotate: self.auto_rotate,
            rotation_interval: self.rotation_interval,
            cache_bundles: self.cache_bundles,
        }
    }
}

/// The socket path to connect to: the one given, or the default.
pub fn resolve_socket_path(socket_path: Option<String>) -> (path: String)
    ensures
        path@ == match socket_path {
            Some(given) => given@,
            None => DEFAULT_SOCKET_PATH@,
        },
{
    match socket_path {
        Some(given) => given,
        None => String::from_str(DEFAULT_SOCKET_PATH),
    }
}

/// Whether a JWT document may be asked for: there must be an audience.
pub fn check_audience(audience: &Vec<String>) -> (r: Result<(), Error>)
    ensures
        r is Ok <==> audience@.len() > 0,
        r matches Err(e) ==> e is AgentError,
{
    if audience.len() == 0 {
        return Err(Error::agent_error("Audience cannot be empty"));
    }
    Ok(())
}

/// Whether a token may be sent for validation: it must not be empty.
pub fn check_token(token: &str) -> (r: Result<(), Error>)
    ensures
        r is Ok <==> token@.len() > 0,
        r matches Err(e) ==> e is JwtError,
{
    if token.is_empty() {
        return Err(Error::JwtError(String::from_str("Token cannot be empty")));
    }
    Ok(())
}

/// The store that `bundles`, put into `store` one after the other, leave
/// behind. A bundle that is not valid is passed over.
pub open spec fn store_after(
    store: Map<Seq<char>, TrustBundleView>,
    bundles: Seq<TrustBundleView>,
) -> Map<Seq<char>, TrustBundleView>
    decreases bundles.len(),
{
    if bundles.len() == 0 {
        store
    } else {
        let first = bundles[0];
        let next = if valid_bundle(first) {
            store.insert(first.trust_domain, first)
        } else {
            store
        };
        store_after(next, bundles.drop_first())
    }
}

/// How many of `bundles` are not valid.
pub open spec fn refused_count(bundles: Seq<TrustBundleView>) -> nat
    decreases bundles.len(),
{
    if bundles.len() == 0 {
        0
    } else {
        refused_count(bundles.drop_first()) + if valid_bundle(bundles[0]) {
            0nat
        } else {
            1nat
        }
    }
}

/// The views of a list of bundles.
pub open spec fn bundle_views(list: Seq<TrustBundle>) -> Seq<TrustBundleView> {
    list.map_values(|bundle: TrustBundle| bundle@)
}

/// What a refresh did.
#[derive(Clone, Copy, Debug, PartialEq, Eq, Structural)]
pub struct RefreshReport {
    /// Whether a new X.509 document was installed.
    pub svid_installed: bool,
    /// Whether the trust bundles were fetched.
    pub bundles_fetched: bool,
    /// How many of the fetched bundles were refused as not valid.
    pub bundles_refused: usize,
}

/// What a client of the identity provider keeps: the identity documents of
/// the workload, once there are any, and the trust bundles by domain.
pub struct WorkloadCache {
    svid_bundle: Option<SvidBundle>,
    trust_bundles: TrustBundleStore,
}

impl WorkloadCache {
    /// The documents and the store are well formed.
    pub closed spec fn wf(&self) -> bool {
        &&& self.svid_bundle matches Some(bundle) ==> bundle.wf()
        &&& self.trust_bundles.wf()
    }

    /// The identity documents, once there are any.
    pub closed spec fn documents(&self) -> Option<SvidBundle> {
        self.svid_bundle
    }

    /// The trust bundles by domain.
    pub closed spec fn bundles(&self) -> Map<Seq<char>, TrustBundleView> {
        self.trust_bundles@
    }

    /// Whether rotation is needed at `now`: there are documents, and they
    /// need it.
    pub open spec fn rotation_needed(&self, now: Timestamp) -> bool {
        self.documents() matches Some(bundle) && bundle.rotation_needed(now)
    }

    /// A cache without documents and without bundles.
    pub fn new() -> (cache: Self)
        ensures
            cache.wf(),
            cache.documents() is None,
            cache.bundles() == Map::<Seq<char>, TrustBundleView>::empty(),
    {
        WorkloadCache { svid_bundle: None, trust_bundles: TrustBundleStore::new() }
    }

    /// The identity documents, once there are any.
    pub fn get_svid_bundle(&self) -> (r: Option<&SvidBundle>)
        requires
            self.wf(),
        ensures
            match r {
                Some(bundle) => self.documents() == Some(*bundle) && bundle.wf(),
                None => self.documents() is None,
            },
    {
        match &self.svid_bundle {
            Some(bundle) => Some(bundle),
            None => None,
        }
    }

    /// The trust bundle of `trust_domain`, if the cache has one.
    pub fn get_trust_bundle(&self, trust_domain: &str) -> (r: Option<TrustBundle>)
        requires
            self.wf(),
        ensures
            match r {
                Some(bundle) => self.bundles().contains_key(trust_domain@) && bundle@
                    == self.bundles()[trust_domain@],
                None => !self.bundles().contains_key(trust_domain@),
            },
    {
        self.trust_bundles.get_bundle(trust_domain)
    }

    /// Whether rotation is needed at `now`.
    pub fn needs_rotation_at(&self, now: &Timestamp) -> (r: bool)
        requires
            self.wf(),
        ensures
            r == self.rotation_needed(*now),
    {
        match &self.svid_bundle {
            Some(bundle) => bundle.needs_rotation_at(now),
            None => false,
        }
    }

    /// Puts a new X.509 document in the place of the old one. The JWT
    /// documents and the trust bundles stay.
    pub fn install_x509_svid(&mut self, svid: X509Svid)
        requires
            old(self).wf(),
        ensures
            final(self).wf(),
            final(self).bundles() == old(self).bundles(),
            final(self).documents() matches Some(bundle) && (bundle.x509_svid matches Some(held)
                && *held == svid),
            match old(self).documents() {
                Some(before) => final(self).documents()->0.jwt_svids == before.jwt_svids,
                None => final(self).documents()->0.jwt_svids@ == Map::<
                    Seq<char>,
                    Arc<crate::svid::JwtSvid>,
                >::empty(),
            },
    {
        let previous = self.svid_bundle.take();
        match previous {
            Some(bundle) => {
                let SvidBundle { x509_svid: _, jwt_svids } = bundle;
                self.svid_bundle = Some(SvidBundle { x509_svid: Some(Arc::new(svid)), jwt_svids });
            },
            None => {
                self.svid_bundle = Some(SvidBundle::new(Some(svid)));
            },
        }
    }

    /// Puts each of the bundles into the store, in order, and counts those
    /// that are refused as not valid. A refused bundle does not stop the
    /// others.
    pub fn install_bundles(&mut self, bundles: Vec<TrustBundle>) -> (refused: usize)
        requires
            old(self).wf(),
        ensures
            final(self).wf(),
            final(self).documents() == old(self).documents(),
            final(self).bundles() == store_after(old(self).bundles(), bundle_views(bundles@)),
            refused == refused_count(bundle_views(bundles@)),
    {
        let ghost all = bundle_views(bundles@);
        let ghost start = self.bundles();
        let total = bundles.len();
        let mut refused: usize = 0;
        assert(all.skip(0) =~= all);
        for bundle in it: bundles
            invariant
                self.wf(),
                self.documents() == old(self).documents(),
                it.seq().len() == total,
                all == bundle_views(it.seq()),
                refused <= it.index(),
                store_after(start, all) == store_after(self.bundles(), all.skip(it.index() as int)),
                refused_count(all) == refused + refused_count(all.skip(it.index() as int)),
        {
            proof {
                let done = it.index() as int;
                assert(all.skip(done).drop_first() =~= all.skip(done + 1));
            }
            match self.trust_bundles.set_bundle(bundle) {
                Ok(()) => {},
                Err(_) => {
                    refused = refused + 1;
                },
            }
        }
        refused
    }

    /// Takes in what a refresh fetched. A document that was fetched
    /// replaces the old one, and bundles that were fetched go into the
    /// store. What could not be fetched leaves its part of the cache as it
    /// was: a failure is reported and not fatal.
    pub fn apply_refresh(
        &mut self,
        svid: Result<X509Svid, Error>,
        bundles: Result<Vec<TrustBundle>, Error>,
    ) -> (report: RefreshReport)
        requires
            old(self).wf(),
        ensures
            final(self).wf(),
            report.svid_installed == svid is Ok,
            report.bundles_fetched == bundles is Ok,
            match svid {
                Ok(fetched) => final(self).documents() matches Some(bundle) && (
                bundle.x509_svid matches Some(held) && *held == fetched),
                Err(_) => final(self).documents() == old(self).documents(),
            },
            match bundles {
                Ok(fetched) => final(self).bundles() == store_after(
                    old(self).bundles(),
                    bundle_views(fetched@),
                ) && report.bundles_refused == refused_count(bundle_views(fetched@)),
                Err(_) => final(self).bundles() == old(self).bundles() && report.bundles_refused
                    == 0,
            },
    {
        let svid_installed = match svid {
            Ok(fetched) => {
                self.install_x509_svid(fetched);
                true
            },
            Err(_) => false,
        };
        let (bundles_fetched, bundles_refused) = match bundles {
            Ok(fetched) => (true, self.install_bundles(fetched)),
            Err(_) => (false, 0),
        };
        RefreshReport { svid_installed, bundles_fetched, bundles_refused }
    }
}

/// Where the rotation loop stands.
#[derive(Clone, Copy, Debug, PartialEq, Eq, Structural)]
pub enum RotationState {
    /// Waiting for the next tick.
    Idle,
    /// A refresh is under way.
    Refreshing,
    /// The loop has ended.
    Stopped,
}

/// What happens to the rotation loop.
#[derive(Clone, Copy, Debug, PartialEq, Eq, Structural)]
pub enum RotationEvent {
    /// The interval has passed.
    Tick {
        /// Whether the stop signal is set.
        stop_requested: bool,
        /// Whether the cached documents need rotation.
        rotation_needed: bool,
    },
    /// The refresh that was under way has come to its end.
    RefreshFinished {
        /// Whether it succeeded.
        succeeded: bool,
    },
}

/// What the rotation loop does next.
#[derive(Clone, Copy, Debug, PartialEq, Eq, Structural)]
pub enum RotationAction {
    /// Wait for the next tick.
    Wait,
    /// Fetch documents and bundles anew.
    Refresh,
    /// Report that the refresh failed, then wait for the next tick.
    ReportFailure,
    /// Leave the loop.
    Exit,
}

/// The state after `event` in `state`, and what to do. The stop signal is
/// looked at on a tick in `Idle` only, so a refresh under way always runs to
/// its end; a failed refresh is reported and the loop goes on; `Stopped` is
/// never left.
pub open spec fn rotation_transition(state: RotationState, event: RotationEvent) -> (
    RotationState,
    RotationAction,
) {
    match state {
        RotationState::Stopped => (RotationState::Stopped, RotationAction::Exit),
        RotationState::Idle => match event {
            RotationEvent::Tick { stop_requested, rotation_needed } => if stop_requested {
                (RotationState::Stopped, RotationAction::Exit)
            } else if rotation_needed {
                (RotationState::Refreshing, RotationAction::Refresh)
            } else {
                (RotationState::Idle, RotationAction::Wait)
            },
            RotationEvent::RefreshFinished { succeeded } => (
                RotationState::Idle,
                RotationAction::Wait,
            ),
        },
        RotationState::Refreshing => match event {
            RotationEvent::Tick { stop_requested, rotation_needed } => (
                RotationState::Refreshing,
                RotationAction::Wait,
            ),
            RotationEvent::RefreshFinished { succeeded } => if succeeded {
                (RotationState::Idle, RotationAction::Wait)
            } else {
                (RotationState::Idle, RotationAction::ReportFailure)
            },
        },
    }
}

/// One step of the rotation loop.
pub fn rotation_step(state: RotationState, event: RotationEvent) -> (r: (
    RotationState,
    RotationAction,
))
    ensures
        r == rotation_transition(state, event),
{
    match state {
        RotationState::Stopped => (RotationState::Stopped, RotationAction::Exit),
        RotationState::Idle => match event {
            RotationEvent::Tick { stop_requested, rotation_needed } => {
                if stop_requested {
                    (RotationState::Stopped, RotationAction::Exit)
                } else if rotation_needed {
                    (RotationState::Refreshing, RotationAction::Refresh)
                } else {
                    (RotationState::Idle, RotationAction::Wait)
                }
            },
            RotationEvent::RefreshFinished { succeeded: _ } => (
                RotationState::Idle,
                RotationAction::Wait,
            ),
        },
        RotationState::Refreshing => match event {
            RotationEvent::Tick { stop_requested: _, rotation_needed: _ } => (
                RotationState::Refreshing,
                RotationAction::Wait,
            ),
            RotationEvent::RefreshFinished { succeeded } => {
                if succeeded {
                    (RotationState::Idle, RotationAction::Wait)
                } else {
                    (RotationState::Idle, RotationAction::ReportFailure)
                }
            },
        },
    }
}

/// The rotation loop never leaves `Stopped`, starts a refresh exactly on a
/// tick in `Idle` that finds rotation needed and no stop signal, stops
/// exactly on a tick in `Idle` that finds the stop signal, and from
/// `Refreshing` goes nowhere but to `Idle`, whether the refresh failed or
/// not.
pub proof fn rotation_loop_laws(state: RotationState, event: RotationEvent)
    ensures
        state == RotationState::Stopped ==> rotation_transition(state, event).0
            == RotationState::Stopped,
        rotation_transition(state, event).1 == RotationAction::Refresh <==> state
            == RotationState::Idle && event == (RotationEvent::Tick {
            stop_requested: false,
            rotation_needed: true,
        }),
        rotation_transition(state, event).1 == RotationAction::Refresh <==> rotation_transition(
            state,
            event,
        ).0 == RotationState::Refreshing && state != RotationState::Refreshing,
        state != RotationState::Stopped && rotation_transition(state, event).0
            == RotationState::Stopped <==> state == RotationState::Idle && (
        event matches RotationEvent::Tick { stop_requested, .. } && stop_requested),
        state == RotationState::Refreshing ==> rotation_transition(state, event).0
            != RotationState::Stopped,
        state == RotationState::Refreshing && event is RefreshFinished ==> rotation_transition(
            state,
            event,
        ).0 == RotationState::Idle,
{
}

} // verus!
