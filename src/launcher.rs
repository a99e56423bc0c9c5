use vstd::prelude::*;
use crate::allocator::{
    CONTROL_PORT, CreationAttempt, CreationStep, LookupOutcome, NameChoice, PromptVerdict,
    choose_name, classify_lookup, judge_prompted_name, pick_tunnel_to_recycle, ports_to_prune,
    rename_needed, renamed, without_port,
};
use crate::model::{
    PersistedTunnel, QUOTA_ADVICE, ServiceError, TunnelError, TunnelLocator, TunnelRecord,
    get_host_token_from_tunnel, locator_of,
};
use crate::names::{
    check_is_name_free, is_name_free, name_in_use, name_search_tags, tunnel_tags, valid_name,
};

verus! {

/// A remote call or local effect that the launch asks its driver to perform.
pub enum LaunchAction {
    /// List the tunnels carrying the product tag; answer with `Listed`.
    ListServerTunnels,
    /// Generate a random name; answer with `Generated`.
    GenerateName,
    /// Ask the user for a name, suggesting this one; answer with `Prompted`.
    PromptName(String),
    /// List the tunnels carrying all these tags; answer with `Searched`.
    SearchTags(Vec<String>),
    /// Fetch the tunnel record; answer with `Fetched`.
    FetchTunnel(TunnelLocator),
    /// Set the tags of the fetched record and update it remotely; answer with `Updated`.
    UpdateTags(Vec<String>),
    /// Fetch the tunnel, with its ports when the flag is set and with a token of
    /// the given scope; answer with `LookedUp`.
    LookupTunnel(TunnelLocator, bool, String),
    /// Create a tunnel with these tags; answer with `CreateAnswered`.
    CreateTunnel(Vec<String>),
    /// Delete an idle tunnel to free quota; answer with `Deleted`.
    DeleteTunnel(TunnelLocator),
    /// Persist this identity; answer with `Saved`.
    Save(PersistedTunnel),
    /// Delete a forwarded port; answer with `PortDeleted`.
    DeletePort(TunnelLocator, u16),
    /// Delete the endpoints of a host; answer with `EndpointsDeleted`.
    DeleteEndpoints(TunnelLocator, String),
    /// Host the tunnel: the launch is over.
    Host(TunnelLocator, PersistedTunnel, String),
    /// The launch failed.
    Fail(TunnelError),
}

/// The answer of the driver to the last action.
pub enum LaunchEvent {
    Begin,
    Listed(Result<Vec<TunnelRecord>, ServiceError>),
    Generated(String),
    Prompted(String),
    Searched(Result<Vec<TunnelRecord>, ServiceError>),
    Fetched(Result<TunnelRecord, ServiceError>),
    Updated(bool),
    LookedUp(Result<TunnelRecord, ServiceError>),
    CreateAnswered(Result<TunnelRecord, ServiceError>),
    Deleted(Result<(), ServiceError>),
    Saved,
    PortDeleted(Result<(), ServiceError>),
    EndpointsDeleted(Result<(), ServiceError>),
}

/// Where the launch stands.
pub enum LaunchStage {
    Start,
    /// Waiting for the list of tunnels to pick a name against.
    Naming,
    NamingRandom,
    NamingPrompt(Option<String>),
    /// Renaming the persisted tunnel to this name: waiting for the name search.
    Searching(String),
    Fetching(String),
    Updating(String),
    SavingRenamed,
    LookingUp,
    Creating(CreationAttempt),
    RecycleListing(CreationAttempt),
    RecycleDeleting(CreationAttempt),
    SavingCreated(TunnelRecord),
    /// Deleting stray ports, then stale endpoints, of the located tunnel.
    Pruning(TunnelLocator, String, Vec<u16>, Vec<String>, usize, usize),
    Done,
    Failed,
}

/// Resolution of the identity of the tunnel to host: reuse the persisted one
/// (renamed if asked), or name and create a new one (recycling an idle tunnel
/// when the quota is exhausted), then prune its stray ports and endpoints.
pub struct LaunchPlan {
    pub stage: LaunchStage,
    pub persisted: Option<PersistedTunnel>,
    pub preferred_name: Option<String>,
    pub use_random_name: bool,
    /// The tunnels carrying the product tag, as last listed for naming.
    pub existing: Vec<TunnelRecord>,
}

/// Scope of the token that hosting a tunnel needs.
pub const HOST_TOKEN_SCOPE: &'static str = "host";

/// The action creates a tunnel tagged with `name` and the product tag.
pub open spec fn creates_named(a: LaunchAction, name: Seq<char>) -> bool {
    a is CreateTunnel && a->CreateTunnel_0@.len() == 2 && a->CreateTunnel_0@[0]@ == name
        && a->CreateTunnel_0@[1]@ == crate::names::VSCODE_CLI_TUNNEL_TAG@
}

impl LaunchPlan {
    /// The caller's inputs and the last listing are unchanged from `self` to `next`.
    pub open spec fn keeps_inputs(self, next: Self) -> bool {
        &&& next.preferred_name == self.preferred_name
        &&& next.use_random_name == self.use_random_name
        &&& next.existing == self.existing
    }

    /// Nothing but the stage changes from `self` to `next`.
    pub open spec fn keeps_all(self, next: Self) -> bool {
        self.keeps_inputs(next) && next.persisted == self.persisted
    }

    /// The launch stops with action `r`.
    pub open spec fn fails(self, r: LaunchAction, next: Self) -> bool {
        r is Fail && next.stage is Failed && self.keeps_all(next)
    }

    /// The launch stops on a failed remote call whose cause is `e`.
    pub open spec fn fails_remote(self, e: ServiceError, r: LaunchAction, next: Self) -> bool {
        self.fails(r, next) && r->Fail_0 is Remote && r->Fail_0->Remote_1 == e
    }

    /// The launch stops on an event its stage does not expect.
    pub open spec fn out_of_order(self, r: LaunchAction, next: Self) -> bool {
        self.fails(r, next) && r == LaunchAction::Fail(TunnelError::OutOfOrder)
    }

    /// The launch asks to create a tunnel named `name`, in a fresh or retried creation.
    pub open spec fn creating(self, name: Seq<char>, tried_recycle: bool, r: LaunchAction, next: Self) -> bool {
        &&& creates_named(r, name)
        &&& next.stage is Creating
        &&& next.stage->Creating_0.name@ == name
        &&& next.stage->Creating_0.tried_recycle == tried_recycle
        &&& self.keeps_all(next)
    }

    /// The launch asks to look up the persisted tunnel with its ports and host token.
    pub open spec fn looking_up(self, r: LaunchAction, next: Self) -> bool {
        &&& self.persisted is Some
        &&& r is LookupTunnel
        &&& r->LookupTunnel_0.cluster@ == self.persisted->0.cluster@
        &&& r->LookupTunnel_0.id@ == self.persisted->0.id@
        &&& r->LookupTunnel_1
        &&& r->LookupTunnel_2@ == HOST_TOKEN_SCOPE@
        &&& next.stage is LookingUp
        &&& self.keeps_all(next)
    }

    /// One step of pruning from `self` yields action `r` and plan `next`: delete the
    /// next stray port, then the next stale endpoint, then host the tunnel.
    pub open spec fn pruning_step(self, r: LaunchAction, next: Self) -> bool {
        self.stage matches LaunchStage::Pruning(loc, token, ports, hosts, i, j) ==> ({
            if i < ports@.len() {
                r is DeletePort && r->DeletePort_1 == ports@[i as int]
                    && r->DeletePort_0.cluster@ == loc.cluster@ && r->DeletePort_0.id@ == loc.id@
                    && next.stage == LaunchStage::Pruning(loc, token, ports, hosts, (i + 1) as usize, j)
            } else if j < hosts@.len() {
                r is DeleteEndpoints && r->DeleteEndpoints_1@ == hosts@[j as int]@
                    && r->DeleteEndpoints_0.cluster@ == loc.cluster@ && r->DeleteEndpoints_0.id@ == loc.id@
                    && next.stage == LaunchStage::Pruning(loc, token, ports, hosts, i, (j + 1) as usize)
            } else if self.persisted is Some {
                next.stage is Done && r is Host && r->Host_2@ == token@
                    && r->Host_0.cluster@ == loc.cluster@ && r->Host_0.id@ == loc.id@
                    && r->Host_1.name@ == self.persisted->0.name@
                    && r->Host_1.id@ == self.persisted->0.id@
                    && r->Host_1.cluster@ == self.persisted->0.cluster@
            } else {
                r is Fail && next.stage is Failed
            }
        })
    }

    /// Entering the pruning of the resolved `record` from `self` yields action `r`
    /// and plan `next`: the stage that walks the stray ports and stale endpoints, and
    /// its first deletion, or hosting when nothing is stray.
    pub open spec fn pruning_start(self, record: TunnelRecord, r: LaunchAction, next: Self) -> bool {
        let ports = without_port(record.port_numbers@, CONTROL_PORT);
        let hosts = record.endpoint_host_ids@;
        if record.cluster_id is None || record.tunnel_id is None {
            r == LaunchAction::Fail(TunnelError::MissingLocator) && next.stage is Failed
        } else if record.host_token is None {
            r == LaunchAction::Fail(TunnelError::MissingHostToken) && next.stage is Failed
        } else if ports.len() == 0 && hosts.len() == 0 {
            if self.persisted is Some {
                next.stage is Done && r is Host && r->Host_2@ == record.host_token->0@
                    && r->Host_0.cluster@ == record.cluster_id->0@ && r->Host_0.id@ == record.tunnel_id->0@
                    && r->Host_1.name@ == self.persisted->0.name@
                    && r->Host_1.id@ == self.persisted->0.id@
                    && r->Host_1.cluster@ == self.persisted->0.cluster@
            } else {
                r is Fail && next.stage is Failed
            }
        } else {
            &&& next.stage matches LaunchStage::Pruning(loc, token, ps, hs, i, j)
            &&& loc.cluster@ == record.cluster_id->0@
            &&& loc.id@ == record.tunnel_id->0@
            &&& token@ == record.host_token->0@
            &&& ps@ == ports
            &&& hs@ == hosts
            &&& if ports.len() > 0 {
                &&& i == 1 && j == 0
                &&& r is DeletePort && r->DeletePort_1 == ports[0]
                &&& r->DeletePort_0.cluster@ == record.cluster_id->0@
                &&& r->DeletePort_0.id@ == record.tunnel_id->0@
            } else {
                &&& i == 0 && j == 1
                &&& r is DeleteEndpoints && r->DeleteEndpoints_1@ == hosts[0]@
                &&& r->DeleteEndpoints_0.cluster@ == record.cluster_id->0@
                &&& r->DeleteEndpoints_0.id@ == record.tunnel_id->0@
            }
        }
    }

    /// One transition of the launch: from `self`, answer `event` leads to action `r`
    /// and plan `next`.
    pub open spec fn step_spec(self, event: LaunchEvent, r: LaunchAction, next: Self) -> bool {
        &&& next.preferred_name == self.preferred_name
        &&& next.use_random_name == self.use_random_name
        &&& match self.stage {
            LaunchStage::Start => match event {
                LaunchEvent::Begin => match self.persisted {
                    None => r is ListServerTunnels && next.stage is Naming && self.keeps_all(next),
                    Some(p) => if self.preferred_name is Some && self.preferred_name->0@ != p.name@ {
                        &&& r is SearchTags && r->SearchTags_0@.len() == 2
                        &&& r->SearchTags_0@[0]@ == crate::names::VSCODE_CLI_TUNNEL_TAG@
                        &&& r->SearchTags_0@[1]@ == self.preferred_name->0@
                        &&& next.stage is Searching && next.stage->Searching_0@ == self.preferred_name->0@
                        &&& self.keeps_all(next)
                    } else {
                        self.looking_up(r, next)
                    },
                },
                _ => self.out_of_order(r, next),
            },
            LaunchStage::Naming => match event {
                LaunchEvent::Listed(Ok(v)) => {
                    let listed = LaunchPlan { existing: v, ..self };
                    &&& next.existing == v
                    &&& match self.preferred_name {
                        Some(n) => if !valid_name(n@) {
                            listed.fails(r, next) && r->Fail_0 is InvalidName
                        } else if !name_in_use(v@, n@) {
                            listed.creating(n@, false, r, next)
                        } else {
                            r is GenerateName && next.stage is NamingRandom && listed.keeps_all(next)
                        },
                        None => r is GenerateName && listed.keeps_all(next) && if self.use_random_name {
                            next.stage is NamingRandom
                        } else {
                            next.stage == LaunchStage::NamingPrompt(None)
                        },
                    }
                },
                LaunchEvent::Listed(Err(e)) => self.fails_remote(e, r, next),
                _ => self.out_of_order(r, next),
            },
            LaunchStage::NamingRandom => match event {
                LaunchEvent::Generated(c) => if name_in_use(self.existing@, c@) {
                    r is GenerateName && next.stage is NamingRandom && self.keeps_all(next)
                } else {
                    self.creating(c@, false, r, next)
                },
                _ => self.out_of_order(r, next),
            },
            LaunchStage::NamingPrompt(placeholder) => match placeholder {
                None => match event {
                    LaunchEvent::Generated(c) => r == LaunchAction::PromptName(c)
                        && next.stage == LaunchStage::NamingPrompt(Some(c)) && self.keeps_all(next),
                    _ => self.out_of_order(r, next),
                },
                Some(p) => match event {
                    LaunchEvent::Prompted(n) => if valid_name(n@) && !name_in_use(self.existing@, n@) {
                        self.creating(n@, false, r, next)
                    } else {
                        r is PromptName && r->PromptName_0@ == p@ && next.stage == LaunchStage::NamingPrompt(Some(p))
                            && self.keeps_all(next)
                    },
                    _ => self.out_of_order(r, next),
                },
            },
            LaunchStage::Searching(n) => match event {
                LaunchEvent::Searched(Ok(v)) => if v@.len() > 0 {
                    self.fails(r, next) && r->Fail_0 is NameTaken && r->Fail_0->NameTaken_0@ == n@
                } else if self.persisted is Some {
                    r is FetchTunnel && r->FetchTunnel_0.id@ == self.persisted->0.id@
                        && r->FetchTunnel_0.cluster@ == self.persisted->0.cluster@
                        && next.stage == LaunchStage::Fetching(n) && self.keeps_all(next)
                } else {
                    self.out_of_order(r, next)
                },
                LaunchEvent::Searched(Err(e)) => self.fails_remote(e, r, next),
                _ => self.out_of_order(r, next),
            },
            LaunchStage::Fetching(n) => match event {
                LaunchEvent::Fetched(Ok(_)) => r is UpdateTags && r->UpdateTags_0@.len() == 2
                    && r->UpdateTags_0@[0]@ == n@ && r->UpdateTags_0@[1]@ == crate::names::VSCODE_CLI_TUNNEL_TAG@
                    && next.stage == LaunchStage::Updating(n) && self.keeps_all(next),
                LaunchEvent::Fetched(Err(e)) => self.fails_remote(e, r, next),
                _ => self.out_of_order(r, next),
            },
            LaunchStage::Updating(n) => match event {
                LaunchEvent::Updated(true) => match self.persisted {
                    Some(p) => {
                        &&& r is Save && r->Save_0.name@ == n@ && r->Save_0.id@ == p.id@ && r->Save_0.cluster@ == p.cluster@
                        &&& next.persisted is Some && next.persisted->0.name@ == n@
                        &&& next.persisted->0.id@ == p.id@ && next.persisted->0.cluster@ == p.cluster@
                        &&& next.stage is SavingRenamed && self.keeps_inputs(next)
                    },
                    None => self.out_of_order(r, next),
                },
                LaunchEvent::Updated(false) => self.looking_up(r, next) || (self.persisted is None && self.out_of_order(r, next)),
                _ => self.out_of_order(r, next),
            },
            LaunchStage::SavingRenamed => match event {
                LaunchEvent::Saved => self.looking_up(r, next) || (self.persisted is None && self.out_of_order(r, next)),
                _ => self.out_of_order(r, next),
            },
            LaunchStage::LookingUp => match event {
                LaunchEvent::LookedUp(res) => match self.persisted {
                    Some(p) => match res {
                        Ok(t) => self.pruning_start(t, r, next) && self.keeps_all(next),
                        Err(ServiceError::NotFound) => self.creating(p.name@, false, r, next),
                        Err(ServiceError::Forbidden) => self.creating(p.name@, false, r, next),
                        Err(e) => self.fails_remote(e, r, next),
                    },
                    None => self.out_of_order(r, next),
                },
                _ => self.out_of_order(r, next),
            },
            LaunchStage::Creating(a) => match event {
                LaunchEvent::CreateAnswered(res) => match res {
                    Ok(t) => if t.cluster_id is Some && t.tunnel_id is Some {
                        &&& r is Save && r->Save_0.name@ == a.name@
                        &&& r->Save_0.cluster@ == t.cluster_id->0@ && r->Save_0.id@ == t.tunnel_id->0@
                        &&& next.persisted is Some && next.persisted->0.name@ == a.name@
                        &&& next.persisted->0.cluster@ == t.cluster_id->0@
                        &&& next.persisted->0.id@ == t.tunnel_id->0@
                        &&& next.stage == LaunchStage::SavingCreated(t)
                        &&& self.keeps_inputs(next)
                    } else {
                        self.fails(r, next) && r == LaunchAction::Fail(TunnelError::MissingLocator)
                    },
                    Err(ServiceError::TooManyRequests) => if a.tried_recycle {
                        self.fails(r, next) && r->Fail_0 is CreationQuotaExceeded
                            && r->Fail_0->CreationQuotaExceeded_0@ == a.name@
                            && r->Fail_0->CreationQuotaExceeded_1@ == QUOTA_ADVICE@
                    } else {
                        r is ListServerTunnels && next.stage == LaunchStage::RecycleListing(a) && self.keeps_all(next)
                    },
                    Err(e) => self.fails(r, next) && r->Fail_0 is CreationFailed
                        && r->Fail_0->CreationFailed_0@ == a.name@ && r->Fail_0->CreationFailed_1 == e,
                },
                _ => self.out_of_order(r, next),
            },
            LaunchStage::RecycleListing(a) => match event {
                LaunchEvent::Listed(Ok(v)) => if forall|i: int| 0 <= i < v@.len() ==> !crate::allocator::recyclable(#[trigger] v@[i]) {
                    self.fails(r, next) && r->Fail_0 is CreationQuotaExceeded
                        && r->Fail_0->CreationQuotaExceeded_0@ == a.name@
                        && r->Fail_0->CreationQuotaExceeded_1@ == QUOTA_ADVICE@
                } else {
                    &&& r is DeleteTunnel && next.stage == LaunchStage::RecycleDeleting(a) && self.keeps_all(next)
                    &&& exists|i: int| 0 <= i < v@.len() && crate::allocator::recyclable(#[trigger] v@[i])
                        && r->DeleteTunnel_0.cluster@ == v@[i].cluster_id->0@
                        && r->DeleteTunnel_0.id@ == v@[i].tunnel_id->0@
                },
                LaunchEvent::Listed(Err(e)) => self.fails_remote(e, r, next),
                _ => self.out_of_order(r, next),
            },
            LaunchStage::RecycleDeleting(a) => match event {
                LaunchEvent::Deleted(Ok(())) => self.creating(a.name@, true, r, next),
                LaunchEvent::Deleted(Err(e)) => self.fails_remote(e, r, next),
                _ => self.out_of_order(r, next),
            },
            LaunchStage::SavingCreated(t) => match event {
                LaunchEvent::Saved => self.pruning_start(t, r, next) && self.keeps_all(next),
                _ => self.out_of_order(r, next),
            },
            LaunchStage::Pruning(..) => match event {
                LaunchEvent::PortDeleted(Ok(())) => self.pruning_step(r, next) && self.keeps_all(next),
                LaunchEvent::EndpointsDeleted(Ok(())) => self.pruning_step(r, next) && self.keeps_all(next),
                LaunchEvent::PortDeleted(Err(e)) => self.fails_remote(e, r, next),
                LaunchEvent::EndpointsDeleted(Err(e)) => self.fails_remote(e, r, next),
                _ => self.out_of_order(r, next),
            },
            LaunchStage::Done => self.out_of_order(r, next),
            LaunchStage::Failed => self.out_of_order(r, next),
        }
    }

    pub fn new(persisted: Option<PersistedTunnel>, preferred_name: Option<String>, use_random_name: bool) -> (r: Self)
        ensures
            r.stage is Start,
            r.persisted == persisted,
            r.preferred_name == preferred_name,
            r.use_random_name == use_random_name,
            r.existing@.len() == 0,
    {
        LaunchPlan { stage: LaunchStage::Start, persisted, preferred_name, use_random_name, existing: Vec::new() }
    }

    fn fail(&mut self, e: TunnelError) -> (r: LaunchAction)
        ensures
            old(self).fails(r, *final(self)),
            r == LaunchAction::Fail(e),
    {
        self.stage = LaunchStage::Failed;
        LaunchAction::Fail(e)
    }

    fn remote_failure(&mut self, context: &str, e: ServiceError) -> (r: LaunchAction)
        ensures
            old(self).fails_remote(e, r, *final(self)),
    {
        self.fail(TunnelError::Remote(String::from_str(context), e))
    }

    fn create(&mut self, attempt: CreationAttempt) -> (r: LaunchAction)
        ensures
            old(self).creating(attempt.name@, attempt.tried_recycle, r, *final(self)),
    {
        let tags = tunnel_tags(&attempt.name);
        self.stage = LaunchStage::Creating(attempt);
        LaunchAction::CreateTunnel(tags)
    }

    fn lookup(&mut self) -> (r: LaunchAction)
        ensures
            old(self).persisted is Some ==> old(self).looking_up(r, *final(self)),
            old(self).persisted is None ==> old(self).out_of_order(r, *final(self)),
    {
        match &self.persisted {
            Some(p) => {
                let loc = p.locator();
                self.stage = LaunchStage::LookingUp;
                LaunchAction::LookupTunnel(loc, true, String::from_str(HOST_TOKEN_SCOPE))
            },
            None => self.fail(TunnelError::OutOfOrder),
        }
    }

    /// Starts pruning the stray state of the resolved tunnel.
    fn start_pruning(&mut self, record: TunnelRecord) -> (r: LaunchAction)
        ensures
            old(self).keeps_all(*final(self)),
            old(self).pruning_start(record, r, *final(self)),
    {
        let loc = match locator_of(&record) {
            Some(l) => l,
            None => {
                return self.fail(TunnelError::MissingLocator);
            },
        };
        let token = match get_host_token_from_tunnel(&record) {
            Ok(t) => t,
            Err(e) => {
                return self.fail(e);
            },
        };
        let ports = ports_to_prune(&record);
        self.stage = LaunchStage::Pruning(loc, token, ports, record.endpoint_host_ids, 0, 0);
        self.next_pruning()
    }

    /// The next deletion of the pruning, or hosting once nothing is left.
    fn next_pruning(&mut self) -> (r: LaunchAction)
        requires
            old(self).stage is Pruning,
        ensures
            old(self).keeps_all(*final(self)),
            old(self).pruning_step(r, *final(self)),
    {
        let mut stage = LaunchStage::Failed;
        core::mem::swap(&mut self.stage, &mut stage);
        match stage {
            LaunchStage::Pruning(loc, token, ports, hosts, i, j) => {
                if i < ports.len() {
                    let port = ports[i];
                    let target = TunnelLocator { cluster: loc.cluster.clone(), id: loc.id.clone() };
                    self.stage = LaunchStage::Pruning(loc, token, ports, hosts, i + 1, j);
                    LaunchAction::DeletePort(target, port)
                } else if j < hosts.len() {
                    let host = hosts[j].clone();
                    let target = TunnelLocator { cluster: loc.cluster.clone(), id: loc.id.clone() };
                    self.stage = LaunchStage::Pruning(loc, token, ports, hosts, i, j + 1);
                    LaunchAction::DeleteEndpoints(target, host)
                } else {
                    match &self.persisted {
                        Some(p) => {
                            let identity = p.duplicate();
                            self.stage = LaunchStage::Done;
                            LaunchAction::Host(loc, identity, token)
                        },
                        None => self.fail(TunnelError::MissingLocator),
                    }
                }
            },
            _ => self.fail(TunnelError::MissingLocator),
        }
    }

    fn begin(&mut self) -> (r: LaunchAction)
        requires
            old(self).stage is Start,
        ensures
            old(self).step_spec(LaunchEvent::Begin, r, *final(self)),
    {
        match &self.persisted {
            None => {
                self.stage = LaunchStage::Naming;
                LaunchAction::ListServerTunnels
            },
            Some(p) => {
                if rename_needed(p, &self.preferred_name) {
                    match &self.preferred_name {
                        Some(n) => {
                            let name = n.clone();
                            let tags = name_search_tags(&name);
                            self.stage = LaunchStage::Searching(name);
                            LaunchAction::SearchTags(tags)
                        },
                        None => self.fail(TunnelError::OutOfOrder),
                    }
                } else {
                    self.lookup()
                }
            },
        }
    }

    fn after_listing(&mut self, tunnels: Vec<TunnelRecord>) -> (r: LaunchAction)
        requires
            old(self).stage is Naming,
        ensures
            old(self).step_spec(LaunchEvent::Listed(Ok(tunnels)), r, *final(self)),
    {
        self.existing = tunnels;
        let preferred = match &self.preferred_name {
            Some(n) => Some(n.clone()),
            None => None,
        };
        match choose_name(&self.existing, preferred, self.use_random_name) {
            NameChoice::Use(n) => self.create_named(n),
            NameChoice::Random => {
                self.stage = LaunchStage::NamingRandom;
                LaunchAction::GenerateName
            },
            NameChoice::Prompt => {
                self.stage = LaunchStage::NamingPrompt(None);
                LaunchAction::GenerateName
            },
            NameChoice::Rejected(e) => self.fail(e),
        }
    }

    fn create_named(&mut self, name: String) -> (r: LaunchAction)
        ensures
            old(self).creating(name@, false, r, *final(self)),
    {
        self.create(CreationAttempt::new(name))
    }

    fn after_create(&mut self, attempt: CreationAttempt, result: Result<TunnelRecord, ServiceError>) -> (r: LaunchAction)
        requires
            old(self).stage == LaunchStage::Failed,
        ensures
            (LaunchPlan { stage: LaunchStage::Creating(attempt), ..*old(self) }).step_spec(
                LaunchEvent::CreateAnswered(result),
                r,
                *final(self),
            ),
    {
        match attempt.on_create_result(result) {
            CreationStep::Created(p, t) => {
                let saved = p.duplicate();
                self.persisted = Some(p);
                self.stage = LaunchStage::SavingCreated(t);
                LaunchAction::Save(saved)
            },
            CreationStep::Recycle => {
                self.stage = LaunchStage::RecycleListing(attempt);
                LaunchAction::ListServerTunnels
            },
            CreationStep::Failed(e) => self.fail(e),
        }
    }

    fn after_recycle_listing(&mut self, attempt: CreationAttempt, tunnels: Vec<TunnelRecord>) -> (r: LaunchAction)
        requires
            old(self).stage == LaunchStage::Failed,
        ensures
            (LaunchPlan { stage: LaunchStage::RecycleListing(attempt), ..*old(self) }).step_spec(
                LaunchEvent::Listed(Ok(tunnels)),
                r,
                *final(self),
            ),
    {
        match pick_tunnel_to_recycle(&tunnels) {
            Some(loc) => {
                self.stage = LaunchStage::RecycleDeleting(attempt);
                LaunchAction::DeleteTunnel(loc)
            },
            None => {
                let mut attempt = attempt;
                match attempt.on_recycle_result(Ok(false)) {
                    Some(e) => self.fail(e),
                    None => self.fail(TunnelError::OutOfOrder),
                }
            },
        }
    }

    /// Advances the launch by the answer to the last action and says what to do next.
    pub fn step(&mut self, event: LaunchEvent) -> (r: LaunchAction)
        ensures
            old(self).step_spec(event, r, *final(self)),
    {
        let mut stage = LaunchStage::Failed;
        core::mem::swap(&mut self.stage, &mut stage);
        match stage {
            LaunchStage::Start => match event {
                LaunchEvent::Begin => {
                    self.stage = LaunchStage::Start;
                    self.begin()
                },
                _ => self.fail(TunnelError::OutOfOrder),
            },
            LaunchStage::Naming => match event {
                LaunchEvent::Listed(Ok(v)) => {
                    self.stage = LaunchStage::Naming;
                    self.after_listing(v)
                },
                LaunchEvent::Listed(Err(e)) => self.remote_failure("error listing current tunnels", e),
                _ => self.fail(TunnelError::OutOfOrder),
            },
            LaunchStage::NamingRandom => match event {
                LaunchEvent::Generated(c) => {
                    if is_name_free(&self.existing, &c) {
                        self.create_named(c)
                    } else {
                        self.stage = LaunchStage::NamingRandom;
                        LaunchAction::GenerateName
                    }
                },
                _ => self.fail(TunnelError::OutOfOrder),
            },
            LaunchStage::NamingPrompt(placeholder) => match placeholder {
                None => match event {
                    LaunchEvent::Generated(c) => {
                        self.stage = LaunchStage::NamingPrompt(Some(c.clone()));
                        LaunchAction::PromptName(c)
                    },
                    _ => self.fail(TunnelError::OutOfOrder),
                },
                Some(p) => match event {
                    LaunchEvent::Prompted(n) => match judge_prompted_name(&self.existing, &n) {
                        PromptVerdict::Accept => self.create_named(n),
                        _ => {
                            self.stage = LaunchStage::NamingPrompt(Some(p.clone()));
                            LaunchAction::PromptName(p)
                        },
                    },
                    _ => self.fail(TunnelError::OutOfOrder),
                },
            },
            LaunchStage::Searching(name) => match event {
                LaunchEvent::Searched(Ok(v)) => match check_is_name_free(&v, &name) {
                    Err(e) => self.fail(e),
                    Ok(()) => match &self.persisted {
                        Some(p) => {
                            let loc = p.locator();
                            self.stage = LaunchStage::Fetching(name);
                            LaunchAction::FetchTunnel(loc)
                        },
                        None => self.fail(TunnelError::OutOfOrder),
                    },
                },
                LaunchEvent::Searched(Err(e)) => self.remote_failure("failed to list existing tunnels", e),
                _ => self.fail(TunnelError::OutOfOrder),
            },
            LaunchStage::Fetching(name) => match event {
                LaunchEvent::Fetched(Ok(_)) => {
                    let tags = tunnel_tags(&name);
                    self.stage = LaunchStage::Updating(name);
                    LaunchAction::UpdateTags(tags)
                },
                LaunchEvent::Fetched(Err(e)) => self.remote_failure("failed to lookup tunnel", e),
                _ => self.fail(TunnelError::OutOfOrder),
            },
            LaunchStage::Updating(name) => match event {
                LaunchEvent::Updated(true) => match &self.persisted {
                    Some(p) => {
                        let np = renamed(p, &name);
                        let saved = np.duplicate();
                        self.persisted = Some(np);
                        self.stage = LaunchStage::SavingRenamed;
                        LaunchAction::Save(saved)
                    },
                    None => self.fail(TunnelError::OutOfOrder),
                },
                LaunchEvent::Updated(false) => self.lookup(),
                _ => self.fail(TunnelError::OutOfOrder),
            },
            LaunchStage::SavingRenamed => match event {
                LaunchEvent::Saved => self.lookup(),
                _ => self.fail(TunnelError::OutOfOrder),
            },
            LaunchStage::LookingUp => match event {
                LaunchEvent::LookedUp(res) => {
                    let outcome = match &self.persisted {
                        Some(p) => classify_lookup(p, res),
                        None => LookupOutcome::Fatal(TunnelError::OutOfOrder),
                    };
                    match outcome {
                        LookupOutcome::Found(t) => self.start_pruning(t),
                        LookupOutcome::Recreate(a) => self.create(a),
                        LookupOutcome::Fatal(e) => self.fail(e),
                    }
                },
                _ => self.fail(TunnelError::OutOfOrder),
            },
            LaunchStage::Creating(a) => match event {
                LaunchEvent::CreateAnswered(res) => self.after_create(a, res),
                _ => self.fail(TunnelError::OutOfOrder),
            },
            LaunchStage::RecycleListing(a) => match event {
                LaunchEvent::Listed(Ok(v)) => self.after_recycle_listing(a, v),
                LaunchEvent::Listed(Err(e)) => self.remote_failure("error listing current tunnels", e),
                _ => self.fail(TunnelError::OutOfOrder),
            },
            LaunchStage::RecycleDeleting(a) => match event {
                LaunchEvent::Deleted(Ok(())) => {
                    let mut a = a;
                    let _ = a.on_recycle_result(Ok(true));
                    self.create(a)
                },
                LaunchEvent::Deleted(Err(e)) => self.remote_failure("failed to execute `tunnel delete`", e),
                _ => self.fail(TunnelError::OutOfOrder),
            },
            LaunchStage::SavingCreated(t) => match event {
                LaunchEvent::Saved => self.start_pruning(t),
                _ => self.fail(TunnelError::OutOfOrder),
            },
            LaunchStage::Pruning(loc, token, ports, hosts, i, j) => match event {
                LaunchEvent::PortDeleted(Ok(())) | LaunchEvent::EndpointsDeleted(Ok(())) => {
                    self.stage = LaunchStage::Pruning(loc, token, ports, hosts, i, j);
                    self.next_pruning()
                },
                LaunchEvent::PortDeleted(Err(e)) => self.remote_failure("failed to delete port", e),
                LaunchEvent::EndpointsDeleted(Err(e)) => self.remote_failure("failed to prune tunnel endpoint", e),
                _ => self.fail(TunnelError::OutOfOrder),
            },
            LaunchStage::Done | LaunchStage::Failed => self.fail(TunnelError::OutOfOrder),
        }
    }
}

/// A fresh launch whose preferred name is valid and free creates a tunnel tagged
/// with that name and saves it under that name, with the created id and cluster.
pub proof fn lemma_fresh_launch_takes_free_preferred_name(
    p0: LaunchPlan, n: String, v: Vec<TunnelRecord>, t: TunnelRecord,
    r1: LaunchAction, p1: LaunchPlan, r2: LaunchAction, p2: LaunchPlan, r3: LaunchAction, p3: LaunchPlan,
)
    requires
        p0.stage is Start,
        p0.persisted is None,
        p0.preferred_name == Some(n),
        valid_name(n@),
        !name_in_use(v@, n@),
        t.cluster_id is Some && t.tunnel_id is Some,
        p0.step_spec(LaunchEvent::Begin, r1, p1),
        p1.step_spec(LaunchEvent::Listed(Ok(v)), r2, p2),
        p2.step_spec(LaunchEvent::CreateAnswered(Ok(t)), r3, p3),
    ensures
        r1 is ListServerTunnels,
        creates_named(r2, n@),
        r3 is Save && r3->Save_0.name@ == n@,
        r3->Save_0.id@ == t.tunnel_id->0@ && r3->Save_0.cluster@ == t.cluster_id->0@,
        p3.persisted is Some && p3.persisted->0.name@ == n@,
{
}

/// A fresh launch whose preferred name is taken falls back to generated names,
/// and creates the first one that is free, which differs from the preferred one.
pub proof fn lemma_taken_name_falls_back_to_free_random(
    p0: LaunchPlan, n: String, v: Vec<TunnelRecord>, c: String,
    r1: LaunchAction, p1: LaunchPlan, r2: LaunchAction, p2: LaunchPlan, r3: LaunchAction, p3: LaunchPlan,
)
    requires
        p0.stage is Start,
        p0.persisted is None,
        p0.preferred_name == Some(n),
        valid_name(n@),
        name_in_use(v@, n@),
        !name_in_use(v@, c@),
        p0.step_spec(LaunchEvent::Begin, r1, p1),
        p1.step_spec(LaunchEvent::Listed(Ok(v)), r2, p2),
        p2.step_spec(LaunchEvent::Generated(c), r3, p3),
    ensures
        r2 is GenerateName,
        creates_named(r3, c@),
        c@ != n@,
{
}

/// When the persisted tunnel is not found (or is forbidden), the launch creates a
/// tunnel under the same name and saves the new id and cluster under that name.
pub proof fn lemma_stale_identity_recreated_under_same_name(
    p0: LaunchPlan, p: PersistedTunnel, cause: ServiceError, t: TunnelRecord,
    r1: LaunchAction, p1: LaunchPlan, r2: LaunchAction, p2: LaunchPlan, r3: LaunchAction, p3: LaunchPlan,
)
    requires
        p0.stage is Start,
        p0.persisted == Some(p),
        p0.preferred_name is None || p0.preferred_name->0@ == p.name@,
        cause is NotFound || cause is Forbidden,
        t.cluster_id is Some && t.tunnel_id is Some,
        p0.step_spec(LaunchEvent::Begin, r1, p1),
        p1.step_spec(LaunchEvent::LookedUp(Err(cause)), r2, p2),
        p2.step_spec(LaunchEvent::CreateAnswered(Ok(t)), r3, p3),
    ensures
        r1 is LookupTunnel,
        creates_named(r2, p.name@),
        r3 is Save && r3->Save_0.name@ == p.name@,
        r3->Save_0.id@ == t.tunnel_id->0@ && r3->Save_0.cluster@ == t.cluster_id->0@,
        p3.persisted is Some && p3.persisted->0.name@ == p.name@
            && p3.persisted->0.id@ == t.tunnel_id->0@ && p3.persisted->0.cluster@ == t.cluster_id->0@,
{
}

} // verus!
