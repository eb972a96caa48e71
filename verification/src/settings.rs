//! The settings of the server, as far as its decisions rest on them.
use crate::jwk::JWKServiceSettings;
use vstd::prelude::*;

verus! {

/// The command line of the server. Every option may be left out.
#[derive(Debug, Clone)]
pub struct Cli {
    /// Directory of configuration files layered over the built-in defaults.
    pub config: Option<String>,
    /// Environment name that selects the override file to load.
    pub env: Option<String>,
}

/// The files that hold a certificate, its private key and, where clients are verified, the
/// authority to verify them with.
#[derive(Debug, Clone)]
pub struct CertificateSettings {
    pub cert_file: String,
    pub pkey_file: String,
    pub cert_chain: Option<String>,
}

/// A QUIC endpoint. What is left out keeps the value that the transport has by default.
#[derive(Debug, Clone)]
pub struct QuicSettings {
    pub enabled: bool,
    pub host: String,
    pub port: u16,
    pub certificate: Option<CertificateSettings>,
    pub verify_client_certs: bool,
    pub num_listeners: usize,
    /// In milliseconds.
    pub idle_timeout: Option<u64>,
    /// In milliseconds.
    pub keep_alive: Option<u64>,
    pub max_bidi_streams: Option<u64>,
    pub transport_bits_per_second: Option<u64>,
    pub transport_rtt: Option<u64>,
    pub handler_timeout_seconds: Option<u64>,
    pub connection_message_limit: Option<usize>,
}

/// The public gRPC endpoint.
#[derive(Debug, Clone)]
pub struct GrpcSettings {
    pub host: String,
    pub port: u16,
    pub certificate: Option<CertificateSettings>,
    pub http2_keepalive_interval_seconds: Option<u64>,
    pub http2_keepalive_timeout_seconds: Option<u64>,
    pub request_handler_timeout_seconds: u64,
}

/// The gRPC endpoint that other servers use.
#[derive(Debug, Clone)]
pub struct GrpcInternalSettings {
    pub enabled: bool,
    pub verify_client_certs: bool,
    pub grpc: GrpcSettings,
}

/// The HTTP endpoint.
#[derive(Debug, Clone)]
pub struct HttpSettings {
    pub enabled: bool,
    pub host: String,
    pub port: u16,
    pub max_file_size: u64,
    pub request_timeout_seconds: u64,
    pub request_body_timeout_seconds: u64,
    pub available_interval_seconds: u64,
    pub available_timeout_seconds: u64,
    pub store_health_check: bool,
    pub presigned_url_hmac_key: Option<String>,
    pub presigned_url_min_ttl_seconds: u64,
    pub presigned_url_default_ttl_seconds: u64,
    pub presigned_url_max_ttl_seconds: u64,
}

/// How callers are authenticated.
#[derive(Debug, Clone)]
pub struct AuthSettings {
    pub jwk: Option<JWKServiceSettings>,
    pub jwt_issuer: Option<String>,
    pub jwt_audience: Option<Vec<String>>,
    pub authorization_mode: Option<String>,
}

/// The endpoints of the server and what they share.
#[derive(Debug, Clone)]
pub struct ServerSettings {
    pub grpc: Option<GrpcSettings>,
    pub grpc_internal: Option<GrpcInternalSettings>,
    pub quic: Option<QuicSettings>,
    pub quic_internal: Option<QuicSettings>,
    pub http: Option<HttpSettings>,
    pub auth: Option<AuthSettings>,
    /// Requests are forwarded to other servers.
    pub forwarded_requests: bool,
    pub connection_close_timeout_seconds: u32,
    pub runtime_shutdown_timeout_seconds: u32,
}

/// The endpoint that the environment advertises.
#[derive(Debug, Clone)]
pub struct EndpointConfig {
    pub auth_url: Option<String>,
}

/// The limits and modes that the environment advertises.
#[derive(Debug, Clone)]
pub struct ClientConfig {
    pub max_query_batch: Option<usize>,
    pub compression_mode: Option<u32>,
}

/// What the server tells its clients of itself.
#[derive(Debug, Clone)]
pub struct EnvironmentConfig {
    pub endpoint: Option<EndpointConfig>,
    pub config: Option<ClientConfig>,
}

impl EnvironmentConfig {
    /// A copy of what the server tells.
    pub fn duplicate(&self) -> (res: Self)
        ensures
            res == *self,
    {
        let endpoint = match &self.endpoint {
            Some(endpoint) => Some(EndpointConfig { auth_url: endpoint.auth_url.clone() }),
            None => None,
        };
        let config = match &self.config {
            Some(config) => Some(
                ClientConfig {
                    max_query_batch: config.max_query_batch,
                    compression_mode: config.compression_mode,
                },
            ),
            None => None,
        };
        EnvironmentConfig { endpoint, config }
    }
}

/// A store on the local disk for immutable data.
#[derive(Debug, Clone)]
pub struct LocalImmutableStoreSettings {
    pub path: String,
    pub max_capacity: Option<u64>,
    /// In milliseconds.
    pub eviction_delay: Option<u32>,
    pub max_size: Option<u64>,
    /// In milliseconds.
    pub compaction_delay: Option<u32>,
    pub flush_delay_seconds: u16,
    pub target_capacity_percentage: Option<u64>,
    pub target_size_percentage: Option<u64>,
    pub compaction_parallel_groups: Option<usize>,
}

/// A store on the local disk for mutable data.
#[derive(Debug, Clone)]
pub struct LocalMutableStoreSettings {
    pub path: String,
    pub flush_delay_seconds: u16,
}

/// A store on another server.
#[derive(Debug, Clone)]
pub struct RemoteStoreSettings {
    pub remote_url: String,
    pub auth_url: Option<String>,
}

/// A store that replicates to another server.
#[derive(Debug, Clone)]
pub struct ReplicatedStoreSettings {
    pub remote_url: String,
    pub certs: Option<CertificateSettings>,
    pub client_max_reconnects: Option<usize>,
    pub client_message_limit: Option<usize>,
    pub max_bandwidth_bytes_per_second: Option<u64>,
    pub expected_rtt_ms: Option<u64>,
    /// The policy for retries where a client has to be made anew, as the configuration writes it.
    pub regenerate_retry: String,
    pub periodic_client_refresh_secs: u64,
    pub client_metrics_interval_seconds: u64,
}

/// What a replica is used for.
#[derive(Debug, Clone, Copy, PartialEq, Eq, Structural)]
pub enum ReplicationMode {
    Read,
    Write,
    ReadWrite,
}

/// A store that is part of a composite store.
#[derive(Debug, Clone)]
pub struct CompositeSubStoreSettings {
    pub mode: String,
    pub local: Option<LocalImmutableStoreSettings>,
    pub remote: Option<RemoteStoreSettings>,
    pub replicated: Option<ReplicatedStoreSettings>,
    pub replication_mode: ReplicationMode,
}

/// How clients of replicas secure their connections.
#[derive(Debug, Clone)]
pub struct ReplicaTlsSettings {
    pub client_certs: CertificateSettings,
    pub server_sni: Option<String>,
}

/// How replicas are made when the topology names them.
#[derive(Debug, Clone)]
pub struct ReplicaFactorySettings {
    pub tls: Option<ReplicaTlsSettings>,
    pub client_message_buffer: usize,
    pub read_replicas_enabled: bool,
    pub use_grpc_write_replication: bool,
    pub quic_client_monitor_interval_seconds: u64,
    pub enable_same_region_write: bool,
}

/// A store made of a local one, a durable one and replicas.
#[derive(Debug, Clone)]
pub struct CompositeStoreSettings {
    pub should_cache_query_results: Option<bool>,
    pub local: CompositeSubStoreSettings,
    pub durable: Option<CompositeSubStoreSettings>,
    pub replica: Option<Vec<CompositeSubStoreSettings>>,
    pub replica_factory: Option<ReplicaFactorySettings>,
}

/// The store for immutable data. The mode says which of the others counts.
#[derive(Debug, Clone)]
pub struct ImmutableStoreSettings {
    pub mode: String,
    pub local: Option<LocalImmutableStoreSettings>,
    pub composite: Option<CompositeStoreSettings>,
    pub replicated: Option<ReplicatedStoreSettings>,
    pub remote: Option<RemoteStoreSettings>,
}

/// The store for mutable data. The mode says which of the others counts.
#[derive(Debug, Clone)]
pub struct MutableStoreSettings {
    pub mode: String,
    pub local: Option<LocalMutableStoreSettings>,
    pub remote: Option<RemoteStoreSettings>,
}

/// The store for locks.
#[derive(Debug, Clone)]
pub struct LockStoreSettings {
    pub mode: String,
}

/// The sender of notifications.
#[derive(Debug, Clone)]
pub struct NotificationSettings {
    pub mode: String,
}

/// All settings of the server.
#[derive(Debug, Clone)]
pub struct Settings {
    pub server: ServerSettings,
    pub environment: Option<EnvironmentConfig>,
    /// The features that clients are told of, as the configuration writes them.
    pub feature: Option<String>,
    pub immutable_store: ImmutableStoreSettings,
    pub mutable_store: MutableStoreSettings,
    pub lock_store: Option<LockStoreSettings>,
    pub notification: Option<NotificationSettings>,
    /// How often metrics are exported, in milliseconds.
    pub metrics_export_interval_millis: u64,
}

} // verus!
