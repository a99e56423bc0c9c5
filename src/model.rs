use vstd::prelude::*;

verus! {

/// Composite key (cluster and id) of a remote tunnel record.
#[derive(Clone, Debug)]
pub struct TunnelLocator {
    pub cluster: String,
    pub id: String,
}

/// Durable record that binds a human-readable name to a remote tunnel.
#[derive(Clone, Debug)]
pub struct PersistedTunnel {
    pub name: String,
    pub id: String,
    pub cluster: String,
}

impl PersistedTunnel {
    /// The locator of the remote tunnel, consuming the record.
    pub fn into_locator(self) -> (r: TunnelLocator)
        ensures
            r.cluster@ == self.cluster@,
            r.id@ == self.id@,
    {
        TunnelLocator { cluster: self.cluster, id: self.id }
    }

    /// The locator of the remote tunnel.
    pub fn locator(&self) -> (r: TunnelLocator)
        ensures
            r.cluster@ == self.cluster@,
            r.id@ == self.id@,
    {
        TunnelLocator { cluster: self.cluster.clone(), id: self.id.clone() }
    }

    /// A field-by-field copy.
    pub fn duplicate(&self) -> (r: PersistedTunnel)
        ensures
            r.name@ == self.name@,
            r.id@ == self.id@,
            r.cluster@ == self.cluster@,
    {
        PersistedTunnel { name: self.name.clone(), id: self.id.clone(), cluster: self.cluster.clone() }
    }
}

/// A tunnel created elsewhere, hosted with a host token given by the caller.
pub struct ExistingTunnel {
    /// Name to give the hosted tunnel.
    pub tunnel_name: String,
    /// Token that authorizes hosting the tunnel.
    pub host_token: String,
    /// Id of the tunnel.
    pub tunnel_id: String,
    /// Cluster of the tunnel.
    pub cluster: String,
}

impl ExistingTunnel {
    /// The identity under which the tunnel is hosted.
    pub fn identity(&self) -> (r: PersistedTunnel)
        ensures
            r.name@ == self.tunnel_name@,
            r.id@ == self.tunnel_id@,
            r.cluster@ == self.cluster@,
    {
        PersistedTunnel {
            name: self.tunnel_name.clone(),
            id: self.tunnel_id.clone(),
            cluster: self.cluster.clone(),
        }
    }
}

/// What the logic reads of a remote tunnel record.
#[derive(Clone, Debug)]
pub struct TunnelRecord {
    pub cluster_id: Option<String>,
    pub tunnel_id: Option<String>,
    pub tags: Vec<String>,
    /// Numbers of the ports forwarded on the tunnel.
    pub port_numbers: Vec<u16>,
    /// Host ids of the endpoints registered on the tunnel.
    pub endpoint_host_ids: Vec<String>,
    /// The host-scoped access token, when the lookup asked for it.
    pub host_token: Option<String>,
    /// Number of hosts connected to the tunnel (0 when the service reports none).
    pub host_connection_count: u32,
}

/// Where a relay connection can be reached.
#[derive(Clone, Debug)]
pub struct Endpoint {
    pub host_id: String,
    /// Template of the public URI of a forwarded port, holding the port placeholder.
    pub port_uri_format: Option<String>,
}

/// How a call to the tunnel-management service failed.
#[derive(Clone, Debug)]
pub enum ServiceError {
    NotFound,
    Forbidden,
    TooManyRequests,
    Other(String),
}

/// What a user who hit the tunnel quota is advised to do.
pub const QUOTA_ADVICE: &'static str = "You've exceeded the 10 machine limit for the port forwarding service. Please remove other machines before trying to add this machine.";

/// Failures that this library reports.
#[derive(Clone, Debug)]
pub enum TunnelError {
    /// The name breaks the naming rule; the message says how.
    InvalidName(String),
    /// Another tunnel already carries the name.
    NameTaken(String),
    /// No tunnel could be created or recycled within the quota; holds the name
    /// tried and the advice to the user.
    CreationQuotaExceeded(String, String),
    /// The service refused to create the named tunnel, for the cause given.
    CreationFailed(String, ServiceError),
    /// A call to the management service failed: what was attempted, and the cause.
    Remote(String, ServiceError),
    /// The tunnel record holds no host token.
    MissingHostToken,
    /// The tunnel record holds no cluster or id.
    MissingLocator,
    /// The relay endpoint holds no port URI template.
    MissingPortFormat,
    /// Obtaining a token or connecting to the relay failed.
    ConnectionFailed(String),
    /// The session ended before it published any status.
    SessionCancelled,
    /// An event arrived that the current stage of a launch does not expect.
    OutOfOrder,
}

/// The locator of a tunnel record, when the record holds both its cluster and id.
pub fn locator_of(record: &TunnelRecord) -> (r: Option<TunnelLocator>)
    ensures
        r is Some <==> (record.cluster_id is Some && record.tunnel_id is Some),
        r is Some ==> r->0.cluster@ == record.cluster_id->0@ && r->0.id@ == record.tunnel_id->0@,
{
    match (&record.cluster_id, &record.tunnel_id) {
        (Some(c), Some(i)) => Some(TunnelLocator { cluster: c.clone(), id: i.clone() }),
        _ => None,
    }
}

/// The host-scoped access token carried by a tunnel record.
pub fn get_host_token_from_tunnel(record: &TunnelRecord) -> (r: Result<String, TunnelError>)
    ensures
        record.host_token is Some ==> r is Ok && r->Ok_0@ == record.host_token->0@,
        record.host_token is None ==> r == Err::<String, TunnelError>(TunnelError::MissingHostToken),
{
    match &record.host_token {
        Some(t) => Ok(t.clone()),
        None => Err(TunnelError::MissingHostToken),
    }
}

/// The quota error for the tunnel named `name`, with its advice.
pub fn quota_exceeded(name: &String) -> (r: TunnelError)
    ensures
        r is CreationQuotaExceeded,
        r->CreationQuotaExceeded_0@ == name@,
        r->CreationQuotaExceeded_1@ == QUOTA_ADVICE@,
{
    TunnelError::CreationQuotaExceeded(name.clone(), String::from_str(QUOTA_ADVICE))
}

} // verus!
