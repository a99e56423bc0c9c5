use vstd::prelude::*;
use crate::allocator::{CreationAttempt, CreationStep, pick_tunnel_to_recycle, recyclable, renamed};
use crate::model::{PersistedTunnel, QUOTA_ADVICE, ServiceError, TunnelError, TunnelLocator, TunnelRecord};
use crate::names::{check_is_name_free, is_valid_name, name_search_tags, tunnel_tags, valid_name};

verus! {

/// A remote call or local effect that a rename asks its driver to perform.
pub enum RenameAction {
    /// List the tunnels carrying all these tags; answer with `Searched`.
    SearchTags(Vec<String>),
    /// Fetch the tunnel record; answer with `Fetched`.
    FetchTunnel(TunnelLocator),
    /// Set the tags of the fetched record and update it remotely; answer with `Updated`.
    UpdateTags(Vec<String>),
    /// Create a tunnel with these tags; answer with `CreateAnswered`.
    CreateTunnel(Vec<String>),
    /// List the tunnels carrying the product tag; answer with `Listed`.
    ListServerTunnels,
    /// Delete an idle tunnel to free quota; answer with `Deleted`.
    DeleteTunnel(TunnelLocator),
    /// Persist this identity; answer with `Saved`.
    Save(PersistedTunnel),
    /// The rename is done.
    Finish,
    Fail(TunnelError),
}

/// The answer of the driver to the last action.
pub enum RenameEvent {
    Begin,
    Searched(Result<Vec<TunnelRecord>, ServiceError>),
    Fetched(Result<TunnelRecord, ServiceError>),
    Updated(Result<(), ServiceError>),
    CreateAnswered(Result<TunnelRecord, ServiceError>),
    Listed(Result<Vec<TunnelRecord>, ServiceError>),
    Deleted(Result<(), ServiceError>),
    Saved,
}

/// Where a rename stands.
pub enum RenameStage {
    Start,
    Searching,
    Fetching,
    Updating,
    Creating(CreationAttempt),
    RecycleListing(CreationAttempt),
    RecycleDeleting(CreationAttempt),
    Saving,
    Done,
    Failed,
}

/// Renaming this machine's tunnel: check the name, then retag the persisted
/// tunnel, or create one under the name when none is persisted.
pub struct RenamePlan {
    pub stage: RenameStage,
    pub name: String,
    pub persisted: Option<PersistedTunnel>,
}

impl RenamePlan {
    /// Only the stage changes from `self` to `next`.
    pub open spec fn keeps_all(self, next: Self) -> bool {
        next.name == self.name && next.persisted == self.persisted
    }

    /// The rename stops with action `r`.
    pub open spec fn fails(self, r: RenameAction, next: Self) -> bool {
        r is Fail && next.stage is Failed && self.keeps_all(next)
    }

    /// The rename stops on a failed remote call whose cause is `e`.
    pub open spec fn fails_remote(self, e: ServiceError, r: RenameAction, next: Self) -> bool {
        self.fails(r, next) && r->Fail_0 is Remote && r->Fail_0->Remote_1 == e
    }

    /// The rename stops on an event its stage does not expect.
    pub open spec fn out_of_order(self, r: RenameAction, next: Self) -> bool {
        self.fails(r, next) && r == RenameAction::Fail(TunnelError::OutOfOrder)
    }

    /// The rename asks to create a tunnel under its name.
    pub open spec fn creating(self, tried_recycle: bool, r: RenameAction, next: Self) -> bool {
        &&& r is CreateTunnel && r->CreateTunnel_0@.len() == 2 && r->CreateTunnel_0@[0]@ == self.name@
        &&& r->CreateTunnel_0@[1]@ == crate::names::VSCODE_CLI_TUNNEL_TAG@
        &&& next.stage is Creating
        &&& next.stage->Creating_0.name@ == self.name@
        &&& next.stage->Creating_0.tried_recycle == tried_recycle
        &&& self.keeps_all(next)
    }

    /// The rename asks to save `p` as the persisted identity.
    pub open spec fn saving(self, name: Seq<char>, id: Seq<char>, cluster: Seq<char>, r: RenameAction, next: Self) -> bool {
        &&& r is Save && r->Save_0.name@ == name && r->Save_0.id@ == id && r->Save_0.cluster@ == cluster
        &&& next.persisted is Some && next.persisted->0.name@ == name
        &&& next.persisted->0.id@ == id && next.persisted->0.cluster@ == cluster
        &&& next.stage is Saving && next.name == self.name
    }

    /// One transition of the rename: from `self`, answer `event` leads to action
    /// `r` and plan `next`.
    pub open spec fn step_spec(self, event: RenameEvent, r: RenameAction, next: Self) -> bool {
        match self.stage {
            RenameStage::Start => match event {
                RenameEvent::Begin => if !valid_name(self.name@) {
                    self.fails(r, next) && r->Fail_0 is InvalidName
                } else {
                    &&& r is SearchTags && r->SearchTags_0@.len() == 2
                    &&& r->SearchTags_0@[0]@ == crate::names::VSCODE_CLI_TUNNEL_TAG@
                    &&& r->SearchTags_0@[1]@ == self.name@
                    &&& next.stage is Searching && self.keeps_all(next)
                },
                _ => self.out_of_order(r, next),
            },
            RenameStage::Searching => match event {
                RenameEvent::Searched(Ok(v)) => if v@.len() > 0 {
                    self.fails(r, next) && r->Fail_0 is NameTaken && r->Fail_0->NameTaken_0@ == self.name@
                } else {
                    match self.persisted {
                        None => self.creating(false, r, next),
                        Some(p) => r is FetchTunnel && r->FetchTunnel_0.id@ == p.id@
                            && r->FetchTunnel_0.cluster@ == p.cluster@ && next.stage is Fetching
                            && self.keeps_all(next),
                    }
                },
                RenameEvent::Searched(Err(e)) => self.fails_remote(e, r, next),
                _ => self.out_of_order(r, next),
            },
            RenameStage::Fetching => match event {
                RenameEvent::Fetched(Ok(_)) => r is UpdateTags && r->UpdateTags_0@.len() == 2
                    && r->UpdateTags_0@[0]@ == self.name@
                    && r->UpdateTags_0@[1]@ == crate::names::VSCODE_CLI_TUNNEL_TAG@
                    && next.stage is Updating && self.keeps_all(next),
                RenameEvent::Fetched(Err(e)) => self.fails_remote(e, r, next),
                _ => self.out_of_order(r, next),
            },
            RenameStage::Updating => match event {
                RenameEvent::Updated(Ok(())) => match self.persisted {
                    Some(p) => self.saving(self.name@, p.id@, p.cluster@, r, next),
                    None => self.out_of_order(r, next),
                },
                RenameEvent::Updated(Err(e)) => self.fails_remote(e, r, next),
                _ => self.out_of_order(r, next),
            },
            RenameStage::Creating(a) => match event {
                RenameEvent::CreateAnswered(res) => match res {
                    Ok(t) => if t.cluster_id is Some && t.tunnel_id is Some {
                        self.saving(a.name@, t.tunnel_id->0@, t.cluster_id->0@, r, next)
                    } else {
                        self.fails(r, next) && r == RenameAction::Fail(TunnelError::MissingLocator)
                    },
                    Err(ServiceError::TooManyRequests) => if a.tried_recycle {
                        self.fails(r, next) && r->Fail_0 is CreationQuotaExceeded
                            && r->Fail_0->CreationQuotaExceeded_0@ == a.name@
                            && r->Fail_0->CreationQuotaExceeded_1@ == QUOTA_ADVICE@
                    } else {
                        r is ListServerTunnels && next.stage == RenameStage::RecycleListing(a) && self.keeps_all(next)
                    },
                    Err(e) => self.fails(r, next) && r->Fail_0 is CreationFailed
                        && r->Fail_0->CreationFailed_0@ == a.name@ && r->Fail_0->CreationFailed_1 == e,
                },
                _ => self.out_of_order(r, next),
            },
            RenameStage::RecycleListing(a) => match event {
                RenameEvent::Listed(Ok(v)) => if forall|i: int| 0 <= i < v@.len() ==> !recyclable(#[trigger] v@[i]) {
                    self.fails(r, next) && r->Fail_0 is CreationQuotaExceeded
                        && r->Fail_0->CreationQuotaExceeded_0@ == a.name@
                        && r->Fail_0->CreationQuotaExceeded_1@ == QUOTA_ADVICE@
                } else {
                    &&& r is DeleteTunnel && next.stage == RenameStage::RecycleDeleting(a) && self.keeps_all(next)
                    &&& exists|i: int| 0 <= i < v@.len() && recyclable(#[trigger] v@[i])
                        && r->DeleteTunnel_0.cluster@ == v@[i].cluster_id->0@
                        && r->DeleteTunnel_0.id@ == v@[i].tunnel_id->0@
                },
                RenameEvent::Listed(Err(e)) => self.fails_remote(e, r, next),
                _ => self.out_of_order(r, next),
            },
            RenameStage::RecycleDeleting(a) => match event {
                RenameEvent::Deleted(Ok(())) => self.creating(true, r, next),
                RenameEvent::Deleted(Err(e)) => self.fails_remote(e, r, next),
                _ => self.out_of_order(r, next),
            },
            RenameStage::Saving => match event {
                RenameEvent::Saved => r is Finish && next.stage is Done && self.keeps_all(next),
                _ => self.out_of_order(r, next),
            },
            RenameStage::Done => self.out_of_order(r, next),
            RenameStage::Failed => self.out_of_order(r, next),
        }
    }

    /// A rename of the persisted tunnel, if any, to `name`.
    pub fn new(name: String, persisted: Option<PersistedTunnel>) -> (r: Self)
        ensures
            r.stage is Start,
            r.name == name,
            r.persisted == persisted,
    {
        RenamePlan { stage: RenameStage::Start, name, persisted }
    }

    fn fail(&mut self, e: TunnelError) -> (r: RenameAction)
        ensures
            old(self).fails(r, *final(self)),
            r == RenameAction::Fail(e),
    {
        self.stage = RenameStage::Failed;
        RenameAction::Fail(e)
    }

    fn remote_failure(&mut self, context: &str, e: ServiceError) -> (r: RenameAction)
        ensures
            old(self).fails_remote(e, r, *final(self)),
    {
        self.fail(TunnelError::Remote(String::from_str(context), e))
    }

    fn create(&mut self, attempt: CreationAttempt) -> (r: RenameAction)
        requires
            attempt.name@ == old(self).name@,
        ensures
            old(self).creating(attempt.tried_recycle, r, *final(self)),
    {
        let tags = tunnel_tags(&attempt.name);
        self.stage = RenameStage::Creating(attempt);
        RenameAction::CreateTunnel(tags)
    }

    fn save(&mut self, p: PersistedTunnel) -> (r: RenameAction)
        ensures
            old(self).saving(p.name@, p.id@, p.cluster@, r, *final(self)),
    {
        let saved = p.duplicate();
        self.persisted = Some(p);
        self.stage = RenameStage::Saving;
        RenameAction::Save(saved)
    }

    /// Advances the rename by the answer to the last action and says what to do next.
    pub fn step(&mut self, event: RenameEvent) -> (r: RenameAction)
        ensures
            old(self).step_spec(event, r, *final(self)),
    {
        let mut stage = RenameStage::Failed;
        core::mem::swap(&mut self.stage, &mut stage);
        match stage {
            RenameStage::Start => match event {
                RenameEvent::Begin => match is_valid_name(self.name.as_str()) {
                    Err(e) => self.fail(e),
                    Ok(()) => {
                        let tags = name_search_tags(&self.name);
                        self.stage = RenameStage::Searching;
                        RenameAction::SearchTags(tags)
                    },
                },
                _ => self.fail(TunnelError::OutOfOrder),
            },
            RenameStage::Searching => match event {
                RenameEvent::Searched(Ok(v)) => match check_is_name_free(&v, &self.name) {
                    Err(e) => self.fail(e),
                    Ok(()) => match &self.persisted {
                        None => {
                            let attempt = CreationAttempt::new(self.name.clone());
                            self.create(attempt)
                        },
                        Some(p) => {
                            let loc = p.locator();
                            self.stage = RenameStage::Fetching;
                            RenameAction::FetchTunnel(loc)
                        },
                    },
                },
                RenameEvent::Searched(Err(e)) => self.remote_failure("failed to list existing tunnels", e),
                _ => self.fail(TunnelError::OutOfOrder),
            },
            RenameStage::Fetching => match event {
                RenameEvent::Fetched(Ok(_)) => {
                    let tags = tunnel_tags(&self.name);
                    self.stage = RenameStage::Updating;
                    RenameAction::UpdateTags(tags)
                },
                RenameEvent::Fetched(Err(e)) => self.remote_failure("failed to lookup tunnel", e),
                _ => self.fail(TunnelError::OutOfOrder),
            },
            RenameStage::Updating => match event {
                RenameEvent::Updated(Ok(())) => match &self.persisted {
                    Some(p) => {
                        let np = renamed(p, &self.name);
                        self.save(np)
                    },
                    None => self.fail(TunnelError::OutOfOrder),
                },
                RenameEvent::Updated(Err(e)) => self.remote_failure("failed to update tunnel tags", e),
                _ => self.fail(TunnelError::OutOfOrder),
            },
            RenameStage::Creating(a) => match event {
                RenameEvent::CreateAnswered(res) => match a.on_create_result(res) {
                    CreationStep::Created(p, _) => self.save(p),
                    CreationStep::Recycle => {
                        self.stage = RenameStage::RecycleListing(a);
                        RenameAction::ListServerTunnels
                    },
                    CreationStep::Failed(e) => self.fail(e),
                },
                _ => self.fail(TunnelError::OutOfOrder),
            },
            RenameStage::RecycleListing(a) => match event {
                RenameEvent::Listed(Ok(v)) => match pick_tunnel_to_recycle(&v) {
                    Some(loc) => {
                        self.stage = RenameStage::RecycleDeleting(a);
                        RenameAction::DeleteTunnel(loc)
                    },
                    None => {
                        let mut a = a;
                        match a.on_recycle_result(Ok(false)) {
                            Some(e) => self.fail(e),
                            None => self.fail(TunnelError::OutOfOrder),
                        }
                    },
                },
                RenameEvent::Listed(Err(e)) => self.remote_failure("error listing current tunnels", e),
                _ => self.fail(TunnelError::OutOfOrder),
            },
            RenameStage::RecycleDeleting(_) => match event {
                RenameEvent::Deleted(Ok(())) => {
                    let mut retry = CreationAttempt::new(self.name.clone());
                    let _ = retry.on_recycle_result(Ok(true));
                    self.create(retry)
                },
                RenameEvent::Deleted(Err(e)) => self.remote_failure("failed to execute `tunnel delete`", e),
                _ => self.fail(TunnelError::OutOfOrder),
            },
            RenameStage::Saving => match event {
                RenameEvent::Saved => {
                    self.stage = RenameStage::Done;
                    RenameAction::Finish
                },
                _ => self.fail(TunnelError::OutOfOrder),
            },
            RenameStage::Done | RenameStage::Failed => self.fail(TunnelError::OutOfOrder),
        }
    }
}

/// A rename with no persisted tunnel, to a valid and free name, creates a tunnel
/// tagged with that name and saves it under that name.
pub proof fn lemma_rename_without_tunnel_creates_it(
    p0: RenamePlan, v: Vec<TunnelRecord>, t: TunnelRecord,
    r1: RenameAction, p1: RenamePlan, r2: RenameAction, p2: RenamePlan, r3: RenameAction, p3: RenamePlan,
)
    requires
        p0.stage is Start,
        p0.persisted is None,
        valid_name(p0.name@),
        v@.len() == 0,
        t.cluster_id is Some && t.tunnel_id is Some,
        p0.step_spec(RenameEvent::Begin, r1, p1),
        p1.step_spec(RenameEvent::Searched(Ok(v)), r2, p2),
        p2.step_spec(RenameEvent::CreateAnswered(Ok(t)), r3, p3),
    ensures
        r1 is SearchTags,
        r2 is CreateTunnel && r2->CreateTunnel_0@[0]@ == p0.name@,
        r3 is Save && r3->Save_0.name@ == p0.name@ && r3->Save_0.id@ == t.tunnel_id->0@,
{
}

} // verus!
