use vstd::prelude::*;

use std::collections::{HashMap, HashSet};

verus! {

broadcast use vstd::std_specs::hash::group_hash_axioms;

/// A short-lived token scoped to one installation, and the instant (in
/// seconds) at which it stops being valid.
pub struct InstallationToken {
    pub token: Vec<u8>,
    pub expires_at: u64,
}

/// What a request for an installation's token should do.
#[derive(Debug, Clone, Copy, PartialEq, Eq, Structural)]
pub enum RefreshDecision {
    /// A token that has not expired is cached: use it.
    UseCached,
    /// Another request is already refreshing the token: wait for it.
    WaitForRefresh,
    /// This request refreshes the token; others wait until it is done.
    Refresh,
}

/// What a request for the token of `id` at instant `now` should do, given
/// the cached tokens and the installations being refreshed.
pub open spec fn refresh_decision(
    tokens: Map<u64, (Seq<u8>, u64)>,
    refreshing: Set<u64>,
    id: u64,
    now: u64,
) -> RefreshDecision {
    if tokens.contains_key(id) && now < tokens[id].1 {
        RefreshDecision::UseCached
    } else if refreshing.contains(id) {
        RefreshDecision::WaitForRefresh
    } else {
        RefreshDecision::Refresh
    }
}

/// Installation tokens shared across requests, each valid until its
/// expiry, with at most one refresh under way per installation.
pub struct TokenCache {
    tokens: HashMap<u64, InstallationToken>,
    refreshing: HashSet<u64>,
}

impl TokenCache {
    /// Each cached installation's token and expiry.
    pub closed spec fn tokens(&self) -> Map<u64, (Seq<u8>, u64)> {
        self.tokens@.map_values(|t: InstallationToken| (t.token@, t.expires_at))
    }

    /// The installations whose token is being refreshed.
    pub closed spec fn refreshing(&self) -> Set<u64> {
        self.refreshing@
    }

    pub open spec fn decision(&self, id: u64, now: u64) -> RefreshDecision {
        refresh_decision(self.tokens(), self.refreshing(), id, now)
    }

    pub fn new() -> (r: TokenCache)
        ensures
            r.tokens() == Map::<u64, (Seq<u8>, u64)>::empty(),
            r.refreshing() == Set::<u64>::empty(),
    {
        let r = TokenCache { tokens: HashMap::new(), refreshing: HashSet::new() };
        assert(r.tokens() =~= Map::<u64, (Seq<u8>, u64)>::empty());
        r
    }

    /// The cached token of `id`, if it is still valid at `now`.
    pub fn token(&self, id: u64, now: u64) -> (r: Option<&Vec<u8>>)
        ensures
            match r {
                Some(t) => self.tokens().contains_key(id) && now < self.tokens()[id].1 && t@
                    == self.tokens()[id].0,
                None => !(self.tokens().contains_key(id) && now < self.tokens()[id].1),
            },
    {
        match self.tokens.get(&id) {
            Some(entry) => if now < entry.expires_at {
                Some(&entry.token)
            } else {
                None
            },
            None => None,
        }
    }

    /// Decides what a request for the token of `id` does at `now`; a request
    /// told to refresh is recorded, so that later ones wait for it.
    pub fn begin_refresh(&mut self, id: u64, now: u64) -> (r: RefreshDecision)
        ensures
            r == old(self).decision(id, now),
            final(self).tokens() == old(self).tokens(),
            final(self).refreshing() == if r == RefreshDecision::Refresh {
                old(self).refreshing().insert(id)
            } else {
                old(self).refreshing()
            },
    {
        if self.token(id, now).is_some() {
            return RefreshDecision::UseCached;
        }
        if self.refreshing.contains(&id) {
            return RefreshDecision::WaitForRefresh;
        }
        self.refreshing.insert(id);
        RefreshDecision::Refresh
    }

    /// Stores the token a refresh obtained and ends that refresh.
    pub fn complete_refresh(&mut self, id: u64, token: Vec<u8>, expires_at: u64)
        ensures
            final(self).tokens() == old(self).tokens().insert(id, (token@, expires_at)),
            final(self).refreshing() == old(self).refreshing().remove(id),
    {
        let ghost t = token@;
        self.tokens.insert(id, InstallationToken { token, expires_at });
        self.refreshing.remove(&id);
        assert(self.tokens() =~= old(self).tokens().insert(id, (t, expires_at)));
    }

    /// Ends a refresh that failed; the next request refreshes again.
    pub fn abandon_refresh(&mut self, id: u64)
        ensures
            final(self).tokens() == old(self).tokens(),
            final(self).refreshing() == old(self).refreshing().remove(id),
    {
        self.refreshing.remove(&id);
    }
}

/// Once a request has been told to refresh the token of `id`, every other
/// request for it waits or uses a valid token until that refresh ends:
/// only one refresh per installation proceeds at a time.
pub proof fn lemma_single_flight_refresh(
    tokens: Map<u64, (Seq<u8>, u64)>,
    refreshing: Set<u64>,
    id: u64,
    now: u64,
    later: u64,
)
    requires
        refresh_decision(tokens, refreshing, id, now) == RefreshDecision::Refresh,
    ensures
        refresh_decision(tokens, refreshing.insert(id), id, later) != RefreshDecision::Refresh,
{
}

/// A token stored by a refresh is used by requests before its expiry.
pub proof fn lemma_refreshed_token_is_used(
    tokens: Map<u64, (Seq<u8>, u64)>,
    refreshing: Set<u64>,
    id: u64,
    token: Seq<u8>,
    expires_at: u64,
    now: u64,
)
    requires
        now < expires_at,
    ensures
        refresh_decision(tokens.insert(id, (token, expires_at)), refreshing.remove(id), id, now)
            == RefreshDecision::UseCached,
{
}

} // verus!
