use vstd::prelude::*;
use crate::model::{
    PersistedTunnel, QUOTA_ADVICE, TunnelError, TunnelLocator, TunnelRecord, ServiceError,
    locator_of, quota_exceeded,
};
use crate::names::{is_name_free, is_valid_name, name_in_use, valid_name};

verus! {

/// Port reserved for tunnel management traffic; never pruned.
pub const CONTROL_PORT: u16 = 31545;

/// How to obtain a name for a new tunnel.
pub enum NameChoice {
    /// Use this name.
    Use(String),
    /// Generate candidates until one is free.
    Random,
    /// Ask the user, suggesting a generated name.
    Prompt,
    /// The preferred name breaks the naming rule.
    Rejected(TunnelError),
}

/// Decides how to name a new tunnel, given the tunnels that already carry the product tag.
pub fn choose_name(existing: &Vec<TunnelRecord>, preferred_name: Option<String>, use_random_name: bool)
    -> (r: NameChoice)
    ensures
        match preferred_name {
            Some(n) => if !valid_name(n@) {
                r is Rejected && r->Rejected_0 is InvalidName
            } else if !name_in_use(existing@, n@) {
                r is Use && r->Use_0@ == n@
            } else {
                r is Random
            },
            None => if use_random_name { r is Random } else { r is Prompt },
        },
{
    match preferred_name {
        Some(name) => {
            match is_valid_name(name.as_str()) {
                Err(e) => NameChoice::Rejected(e),
                Ok(()) => {
                    if is_name_free(existing, &name) {
                        NameChoice::Use(name)
                    } else {
                        NameChoice::Random
                    }
                },
            }
        },
        None => if use_random_name {
            NameChoice::Random
        } else {
            NameChoice::Prompt
        },
    }
}

/// What to do with a name typed at the prompt.
pub enum PromptVerdict {
    Accept,
    /// The name breaks the naming rule: report and ask again.
    Invalid(TunnelError),
    /// The name is in use: report and ask again.
    Taken,
}

/// Judges a name typed at the prompt.
pub fn judge_prompted_name(existing: &Vec<TunnelRecord>, name: &String) -> (r: PromptVerdict)
    ensures
        !valid_name(name@) ==> r is Invalid && r->Invalid_0 is InvalidName,
        valid_name(name@) && !name_in_use(existing@, name@) ==> r is Accept,
        valid_name(name@) && name_in_use(existing@, name@) ==> r is Taken,
{
    match is_valid_name(name.as_str()) {
        Err(e) => PromptVerdict::Invalid(e),
        Ok(()) => if is_name_free(existing, name) {
            PromptVerdict::Accept
        } else {
            PromptVerdict::Taken
        },
    }
}

/// The create call is answered with a rate limit while no recycle has been tried.
pub open spec fn retry_after_recycle(tried_recycle: bool, result: Result<TunnelRecord, ServiceError>) -> bool {
    !tried_recycle && result matches Err(ServiceError::TooManyRequests)
}

/// The next step of a tunnel creation.
pub enum CreationStep {
    /// The tunnel exists remotely under this identity, as this record.
    Created(PersistedTunnel, TunnelRecord),
    /// Recycle an idle tunnel, then create again.
    Recycle,
    Failed(TunnelError),
}

/// One tunnel creation, which recycles an idle tunnel at most once.
pub struct CreationAttempt {
    pub name: String,
    pub tried_recycle: bool,
}

impl CreationAttempt {
    pub fn new(name: String) -> (r: Self)
        ensures
            r.name@ == name@,
            !r.tried_recycle,
    {
        CreationAttempt { name, tried_recycle: false }
    }

    /// Decides what follows the answer of the service to a create request.
    pub fn on_create_result(&self, result: Result<TunnelRecord, ServiceError>) -> (r: CreationStep)
        ensures
            (r is Recycle) <==> retry_after_recycle(self.tried_recycle, result),
            match result {
                Ok(t) => if t.cluster_id is Some && t.tunnel_id is Some {
                    r is Created && r->Created_0.name@ == self.name@
                        && r->Created_0.cluster@ == t.cluster_id->0@
                        && r->Created_0.id@ == t.tunnel_id->0@
                        && r->Created_1 == t
                } else {
                    r == CreationStep::Failed(TunnelError::MissingLocator)
                },
                Err(ServiceError::TooManyRequests) => self.tried_recycle ==> (r is Failed
                    && r->Failed_0 is CreationQuotaExceeded
                    && r->Failed_0->CreationQuotaExceeded_0@ == self.name@
                    && r->Failed_0->CreationQuotaExceeded_1@ == QUOTA_ADVICE@),
                Err(e) => r is Failed && r->Failed_0 is CreationFailed
                    && r->Failed_0->CreationFailed_0@ == self.name@
                    && r->Failed_0->CreationFailed_1 == e,
            },
    {
        match result {
            Ok(t) => match locator_of(&t) {
                Some(loc) => CreationStep::Created(
                    PersistedTunnel { name: self.name.clone(), id: loc.id, cluster: loc.cluster },
                    t,
                ),
                None => CreationStep::Failed(TunnelError::MissingLocator),
            },
            Err(ServiceError::TooManyRequests) => {
                if self.tried_recycle {
                    CreationStep::Failed(quota_exceeded(&self.name))
                } else {
                    CreationStep::Recycle
                }
            },
            Err(e) => CreationStep::Failed(TunnelError::CreationFailed(self.name.clone(), e)),
        }
    }

    /// Records the outcome of a recycle: `Ok(true)` when an idle tunnel was deleted,
    /// `Ok(false)` when none was found. Returns the error that ends the creation, if any.
    pub fn on_recycle_result(&mut self, recycled: Result<bool, TunnelError>) -> (r: Option<TunnelError>)
        ensures
            final(self).name@ == old(self).name@,
            recycled == Ok::<bool, TunnelError>(true) ==> r is None && final(self).tried_recycle,
            recycled == Ok::<bool, TunnelError>(false) ==> r is Some && r->0 is CreationQuotaExceeded
                && r->0->CreationQuotaExceeded_0@ == old(self).name@
                && r->0->CreationQuotaExceeded_1@ == QUOTA_ADVICE@,
            recycled is Err ==> r == Some(recycled->Err_0),
            recycled != Ok::<bool, TunnelError>(true) ==> final(self).tried_recycle == old(self).tried_recycle,
    {
        match recycled {
            Ok(true) => {
                self.tried_recycle = true;
                None
            },
            Ok(false) => Some(quota_exceeded(&self.name)),
            Err(e) => Some(e),
        }
    }
}

/// Once a recycle has been tried, no answer of the service leads to another one:
/// a creation recycles at most once.
pub proof fn lemma_recycle_at_most_once(result: Result<TunnelRecord, ServiceError>)
    ensures
        !retry_after_recycle(true, result),
{
}

/// A record that may be recycled: no host is connected and it can be located.
pub open spec fn recyclable(t: TunnelRecord) -> bool {
    t.host_connection_count == 0 && t.cluster_id is Some && t.tunnel_id is Some
}

/// Indices below `n` of the recyclable records of `s`, in increasing order.
pub open spec fn recyclable_below(s: Seq<TunnelRecord>, n: int) -> Seq<usize>
    decreases n,
{
    if n <= 0 {
        Seq::empty()
    } else if recyclable(s[n - 1]) {
        recyclable_below(s, n - 1).push((n - 1) as usize)
    } else {
        recyclable_below(s, n - 1)
    }
}

/// Relies on rand's IteratorRandom::choose over `0..n` with the thread-local
/// generator: `None` exactly when `n` is 0, else an index below `n`.
#[verifier::external_body]
fn choose_index(n: usize) -> (r: Option<usize>)
    ensures
        r is None <==> n == 0,
        r is Some ==> r->0 < n,
{
    rand::seq::IteratorRandom::choose(0..n, &mut rand::thread_rng())
}

/// Indices of the recyclable records, in increasing order.
pub fn recyclable_indices(tunnels: &Vec<TunnelRecord>) -> (r: Vec<usize>)
    ensures
        r@ == recyclable_below(tunnels@, tunnels@.len() as int),
        forall|k: int| 0 <= k < r@.len() ==> #[trigger] r@[k] < tunnels@.len() && recyclable(tunnels@[r@[k] as int]),
        forall|i: int| 0 <= i < tunnels@.len() && recyclable(#[trigger] tunnels@[i]) ==> r@.contains(i as usize),
{
    let mut r: Vec<usize> = Vec::new();
    let mut i: usize = 0;
    while i < tunnels.len()
        invariant
            0 <= i <= tunnels.len(),
            forall|k: int| 0 <= k < r@.len() ==> #[trigger] r@[k] < tunnels@.len() && recyclable(tunnels@[r@[k] as int]),
            forall|m: int| 0 <= m < i && recyclable(#[trigger] tunnels@[m]) ==> r@.contains(m as usize),
            r@ == recyclable_below(tunnels@, i as int),
        decreases tunnels.len() - i,
    {
        let t = &tunnels[i];
        if t.host_connection_count == 0 && t.cluster_id.is_some() && t.tunnel_id.is_some() {
            let ghost old_r = r@;
            r.push(i);
            proof {
                assert forall|x: usize| old_r.contains(x) implies r@.contains(x) by {
                    let k = choose|k: int| 0 <= k < old_r.len() && old_r[k] == x;
                    assert(r@[k] == x);
                }
                assert(r@[r@.len() - 1] == i);
            }
        }
        i = i + 1;
    }
    r
}

/// Picks, uniformly at random, a recyclable tunnel among those carrying the product tag.
pub fn pick_tunnel_to_recycle(tunnels: &Vec<TunnelRecord>) -> (r: Option<TunnelLocator>)
    ensures
        r is None <==> forall|i: int| 0 <= i < tunnels@.len() ==> !recyclable(#[trigger] tunnels@[i]),
        r is Some ==> exists|i: int|
            0 <= i < tunnels@.len() && recyclable(#[trigger] tunnels@[i])
                && r->0.cluster@ == tunnels@[i].cluster_id->0@
                && r->0.id@ == tunnels@[i].tunnel_id->0@,
{
    let candidates = recyclable_indices(tunnels);
    match choose_index(candidates.len()) {
        None => {
            assert forall|i: int| 0 <= i < tunnels@.len() implies !recyclable(#[trigger] tunnels@[i]) by {
                if recyclable(tunnels@[i]) {
                    assert(candidates@.contains(i as usize));
                }
            }
            None
        },
        Some(k) => {
            let idx = candidates[k];
            assert(recyclable(tunnels@[idx as int]));
            locator_of(&tunnels[idx])
        },
    }
}

/// What a lookup of the persisted tunnel leads to.
pub enum LookupOutcome {
    /// The tunnel exists.
    Found(TunnelRecord),
    /// The persisted identity is stale: create a fresh tunnel under the same name.
    Recreate(CreationAttempt),
    Fatal(TunnelError),
}

/// Classifies the lookup of a persisted tunnel: not-found and forbidden mean the
/// identity is stale, any other failure is fatal.
pub fn classify_lookup(persisted: &PersistedTunnel, lookup: Result<TunnelRecord, ServiceError>)
    -> (r: LookupOutcome)
    ensures
        match lookup {
            Ok(t) => r == LookupOutcome::Found(t),
            Err(ServiceError::NotFound) | Err(ServiceError::Forbidden) => r is Recreate
                && r->Recreate_0.name@ == persisted.name@ && !r->Recreate_0.tried_recycle,
            Err(e) => r is Fatal && r->Fatal_0 is Remote && r->Fatal_0->Remote_1 == e,
        },
{
    match lookup {
        Ok(t) => LookupOutcome::Found(t),
        Err(ServiceError::NotFound) | Err(ServiceError::Forbidden) => LookupOutcome::Recreate(
            CreationAttempt::new(persisted.name.clone()),
        ),
        Err(e) => LookupOutcome::Fatal(TunnelError::Remote(String::from_str("failed to lookup tunnel"), e)),
    }
}

/// The persisted tunnel needs renaming: a preferred name differs from its name.
pub fn rename_needed(persisted: &PersistedTunnel, preferred_name: &Option<String>) -> (r: bool)
    ensures
        r == (preferred_name is Some && preferred_name->0@ != persisted.name@),
{
    match preferred_name {
        Some(n) => !(*n == persisted.name),
        None => false,
    }
}

/// The persisted identity under a new name, same remote tunnel.
pub fn renamed(persisted: &PersistedTunnel, name: &String) -> (r: PersistedTunnel)
    ensures
        r.name@ == name@,
        r.id@ == persisted.id@,
        r.cluster@ == persisted.cluster@,
{
    PersistedTunnel { name: name.clone(), id: persisted.id.clone(), cluster: persisted.cluster.clone() }
}

/// `ports` without any occurrence of `port`, order kept.
pub open spec fn without_port(ports: Seq<u16>, port: u16) -> Seq<u16>
    decreases ports.len(),
{
    if ports.len() == 0 {
        ports
    } else if ports.last() == port {
        without_port(ports.drop_last(), port)
    } else {
        without_port(ports.drop_last(), port).push(ports.last())
    }
}

/// The forwarded ports to delete from a tunnel: every one but the control port.
pub fn ports_to_prune(record: &TunnelRecord) -> (r: Vec<u16>)
    ensures
        r@ == without_port(record.port_numbers@, CONTROL_PORT),
{
    let ports = &record.port_numbers;
    let mut r: Vec<u16> = Vec::new();
    let mut i: usize = 0;
    while i < ports.len()
        invariant
            0 <= i <= ports.len(),
            r@ == without_port(ports@.subrange(0, i as int), CONTROL_PORT),
        decreases ports.len() - i,
    {
        assert(ports@.subrange(0, i + 1).drop_last() =~= ports@.subrange(0, i as int));
        if ports[i] != CONTROL_PORT {
            r.push(ports[i]);
        }
        i = i + 1;
    }
    assert(ports@.subrange(0, ports@.len() as int) =~= ports@);
    r
}

} // verus!
