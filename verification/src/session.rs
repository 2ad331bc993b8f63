//! What the session manager asks of the client: how to connect, and how to
//! set up the one subscription.

use vstd::prelude::*;

verus! {

/// How often a lost session may be opened again before the client gives
/// up.
pub const SESSION_RETRY_LIMIT: i32 = 3;

/// How messages are secured on the way.
#[derive(Debug, Clone, Copy, PartialEq, Eq, Structural)]
pub enum MessageSecurity {
    Unsecured,
    Signed,
    SignedAndEncrypted,
}

/// Who the client says it is.
#[derive(Debug, Clone, Copy, PartialEq, Eq, Structural)]
pub enum Identity {
    Anonymous,
}

/// Which timestamps the server is to send with each value.
#[derive(Debug, Clone, Copy, PartialEq, Eq, Structural)]
pub enum Timestamps {
    Source,
    Server,
    Both,
    Neither,
}

/// Everything the client needs to open a session: how it names itself,
/// how it treats certificates, how often it retries, and the endpoint.
/// The plans made here switch transport security off; that is unsafe on
/// an open network.
#[derive(Debug, PartialEq, Eq)]
pub struct ConnectionPlan {
    pub application_name: String,
    pub application_uri: String,
    pub create_sample_keypair: bool,
    pub trust_server_certs: bool,
    pub session_retry_limit: i32,
    pub endpoint_url: String,
    pub security_policy: String,
    pub security_mode: MessageSecurity,
    pub identity: Identity,
}

/// What a `ConnectionPlan` stands for.
pub struct ConnectionPlanView {
    pub application_name: Seq<char>,
    pub application_uri: Seq<char>,
    pub create_sample_keypair: bool,
    pub trust_server_certs: bool,
    pub session_retry_limit: i32,
    pub endpoint_url: Seq<char>,
    pub security_policy: Seq<char>,
    pub security_mode: MessageSecurity,
    pub identity: Identity,
}

impl View for ConnectionPlan {
    type V = ConnectionPlanView;

    open spec fn view(&self) -> ConnectionPlanView {
        ConnectionPlanView {
            application_name: self.application_name@,
            application_uri: self.application_uri@,
            create_sample_keypair: self.create_sample_keypair,
            trust_server_certs: self.trust_server_certs,
            session_retry_limit: self.session_retry_limit,
            endpoint_url: self.endpoint_url@,
            security_policy: self.security_policy@,
            security_mode: self.security_mode,
            identity: self.identity,
        }
    }
}

impl ConnectionPlanView {
    /// Whether the plan leaves the transport without any security.
    pub open spec fn is_unsecured(self) -> bool {
        self.security_policy == "None"@ && self.security_mode == MessageSecurity::Unsecured
    }
}

/// The plan for the endpoint at `url`: the client's fixed name and URI, a
/// sample key pair, trust in whatever certificate the server shows, three
/// retries, no transport security, and an anonymous identity.
pub open spec fn plan_for(url: Seq<char>) -> ConnectionPlanView {
    ConnectionPlanView {
        application_name: "DCS OPC UA client"@,
        application_uri: "urn:DCSOPCUAClient"@,
        create_sample_keypair: true,
        trust_server_certs: true,
        session_retry_limit: SESSION_RETRY_LIMIT,
        endpoint_url: url,
        security_policy: "None"@,
        security_mode: MessageSecurity::Unsecured,
        identity: Identity::Anonymous,
    }
}

/// How to connect to the endpoint at `url`.
pub fn connection_plan(url: &str) -> (plan: ConnectionPlan)
    ensures
        plan@ == plan_for(url@),
        plan@.is_unsecured(),
{
    ConnectionPlan {
        application_name: "DCS OPC UA client".to_owned(),
        application_uri: "urn:DCSOPCUAClient".to_owned(),
        create_sample_keypair: true,
        trust_server_certs: true,
        session_retry_limit: SESSION_RETRY_LIMIT,
        endpoint_url: url.to_owned(),
        security_policy: "None".to_owned(),
        security_mode: MessageSecurity::Unsecured,
        identity: Identity::Anonymous,
    }
}

/// How the subscription is set up. The publishing interval is in
/// milliseconds; zero leaves the cadence to the server.
#[derive(Debug, Clone, Copy, PartialEq, Eq, Structural)]
pub struct SubscriptionSettings {
    pub publishing_interval_ms: u32,
    pub lifetime_count: u32,
    pub max_keep_alive_count: u32,
    pub max_notifications_per_publish: u32,
    pub priority: u8,
    pub publishing_enabled: bool,
}

/// The settings of the one subscription: no interval of its own, a
/// lifetime count of three, no keep-alive count, no limit on the
/// notifications per publish, the lowest priority, and publishing enabled.
pub open spec fn default_settings() -> SubscriptionSettings {
    SubscriptionSettings {
        publishing_interval_ms: 0,
        lifetime_count: 3,
        max_keep_alive_count: 0,
        max_notifications_per_publish: 0,
        priority: 0,
        publishing_enabled: true,
    }
}

/// How to set up the subscription.
pub fn subscription_settings() -> (settings: SubscriptionSettings)
    ensures
        settings == default_settings(),
{
    SubscriptionSettings {
        publishing_interval_ms: 0,
        lifetime_count: 3,
        max_keep_alive_count: 0,
        max_notifications_per_publish: 0,
        priority: 0,
        publishing_enabled: true,
    }
}

} // verus!
