//! How the endpoints of the server are set up.
use crate::settings::{
    AuthSettings, CertificateSettings, ClientConfig, EnvironmentConfig, GrpcInternalSettings,
    GrpcSettings, QuicSettings, Settings,
};
use crate::text;
use vstd::prelude::*;

verus! {

/// Why the server cannot start.
#[derive(Debug, Clone)]
pub struct ServerError {
    pub message: String,
}

impl ServerError {
    /// An error with the given message.
    pub fn new(message: &str) -> (res: Self)
        ensures
            res.message@ == message@,
    {
        ServerError { message: message.to_owned() }
    }

    /// The message of the error.
    pub fn to_string(&self) -> (res: String)
        ensures
            res@ == self.message@,
    {
        self.message.clone()
    }
}

/// On what terms a server-to-server endpoint starts.
#[derive(Debug, Clone, Copy, PartialEq, Eq, Structural)]
pub enum EndpointSecurity {
    /// Clients have to present a certificate.
    Mtls,
    /// Anyone may connect; the caller warns of it.
    Untrusted,
}

/// Why a server-to-server endpoint may not start.
#[derive(Debug, Clone, Copy, PartialEq, Eq, Structural)]
pub enum SecurityFault {
    /// The certificate has no authority to verify clients with.
    PartiallyConfigured,
    /// There is no certificate.
    Missing,
}

/// What follows the label in the message for a certificate without an authority.
pub const PARTIAL_CERTIFICATE_TEXT: &'static str = " certificate is partially configured: certificate.cert_file and certificate.pkey_file are set but certificate.cert_chain (the CA used to verify client certs) is missing. The endpoint requires mTLS, not server-only TLS";

/// What follows the label in the message for a missing certificate.
pub const MISSING_CERTIFICATE_TEXT: &'static str = " requires mTLS to start (verify_client_certs = true). Configure certificate.cert_file, certificate.pkey_file, and certificate.cert_chain, or set verify_client_certs = false to explicitly accept the security exposure";

impl SecurityFault {
    /// The message for the fault of the endpoint in the given section of the configuration.
    pub open spec fn text(self, label: Seq<char>) -> Seq<char> {
        match self {
            SecurityFault::PartiallyConfigured => label + PARTIAL_CERTIFICATE_TEXT@,
            SecurityFault::Missing => label + MISSING_CERTIFICATE_TEXT@,
        }
    }

    /// The error for the fault of the endpoint in the given section of the configuration.
    pub fn error(self, label: &str) -> (res: ServerError)
        ensures
            res.message@ == self.text(label@),
    {
        let mut message = label.to_owned();
        match self {
            SecurityFault::PartiallyConfigured => message.append(PARTIAL_CERTIFICATE_TEXT),
            SecurityFault::Missing => message.append(MISSING_CERTIFICATE_TEXT),
        }
        ServerError { message }
    }
}

/// On what terms an endpoint with this certificate may start. The only way to start without mutual
/// TLS is to switch the verification of clients off.
pub open spec fn endpoint_security(
    certificate: Option<CertificateSettings>,
    verify_client_certs: bool,
) -> Result<EndpointSecurity, SecurityFault> {
    if !verify_client_certs {
        Ok(EndpointSecurity::Untrusted)
    } else {
        match certificate {
            Some(cert) => if cert.cert_chain is Some {
                Ok(EndpointSecurity::Mtls)
            } else {
                Err(SecurityFault::PartiallyConfigured)
            },
            None => Err(SecurityFault::Missing),
        }
    }
}

/// The certificate that a reference leads to.
pub open spec fn referred(certificate: Option<&CertificateSettings>) -> Option<CertificateSettings> {
    match certificate {
        Some(cert) => Some(*cert),
        None => None,
    }
}

/// Decides on what terms a server-to-server endpoint may start.
pub fn decide_endpoint_security(
    certificate: Option<&CertificateSettings>,
    verify_client_certs: bool,
) -> (res: Result<EndpointSecurity, SecurityFault>)
    ensures
        res == endpoint_security(referred(certificate), verify_client_certs),
{
    if !verify_client_certs {
        return Ok(EndpointSecurity::Untrusted);
    }
    match certificate {
        Some(cert) => match &cert.cert_chain {
            Some(_) => Ok(EndpointSecurity::Mtls),
            None => Err(SecurityFault::PartiallyConfigured),
        },
        None => Err(SecurityFault::Missing),
    }
}

/// Decides whether a server-to-server endpoint may start, and on what terms. `label` is the section
/// of the configuration, for the message.
pub fn validate_endpoint_security(
    label: &str,
    certificate: Option<&CertificateSettings>,
    verify_client_certs: bool,
) -> (res: Result<EndpointSecurity, ServerError>)
    ensures
        match endpoint_security(referred(certificate), verify_client_certs) {
            Ok(security) => res == Ok::<EndpointSecurity, ServerError>(security),
            Err(fault) => res matches Err(e) && e.message@ == fault.text(label@),
        },
{
    match decide_endpoint_security(certificate, verify_client_certs) {
        Ok(security) => Ok(security),
        Err(fault) => Err(fault.error(label)),
    }
}

/// The optional features that a build of the server has.
#[derive(Debug, Clone, Copy, PartialEq, Eq, Structural)]
pub struct BuildFeatures {
    pub failure_generator: bool,
    pub oodle: bool,
    pub seeding: bool,
}

impl BuildFeatures {
    /// The names of the features, in a fixed order.
    pub open spec fn names(self) -> Seq<Seq<char>> {
        let none = Seq::<Seq<char>>::empty();
        (if self.failure_generator {
            none.push("failure_generator"@)
        } else {
            none
        }) + (if self.oodle {
            none.push("oodle"@)
        } else {
            none
        }) + (if self.seeding {
            none.push("seeding"@)
        } else {
            none
        })
    }
}

/// The names of the optional features that the server was built with, as it reports them to clients.
pub fn compiled_features(build: BuildFeatures) -> (res: Vec<String>)
    ensures
        text::views(res@) == build.names(),
{
    let mut features: Vec<String> = Vec::new();
    if build.failure_generator {
        features.push("failure_generator".to_owned());
    }
    if build.oodle {
        features.push("oodle".to_owned());
    }
    if build.seeding {
        features.push("seeding".to_owned());
    }
    assert(text::views(features@) =~= build.names());
    features
}

/// An address as host and port.
pub open spec fn address_text(host: Seq<char>, port: u16) -> Seq<char> {
    host + ":"@ + text::numeral(port as nat)
}

/// The address to listen on.
pub fn listen_address(host: &str, port: u16) -> (res: String)
    ensures
        res@ == address_text(host@, port),
{
    let mut address = host.to_owned();
    address.append(":");
    address.append(text::decimal(port as u64).as_str());
    address
}

/// The files that an endpoint loads its TLS identity from.
#[derive(Debug)]
pub struct TlsFiles<'a> {
    pub cert: Option<&'a String>,
    pub key: Option<&'a String>,
    pub chain: Option<&'a String>,
}

impl<'a> TlsFiles<'a> {
    /// The files of the certificate, where one is configured.
    pub open spec fn of(certificate: &'a Option<CertificateSettings>) -> Self {
        match certificate {
            Some(settings) => TlsFiles {
                cert: Some(&settings.cert_file),
                key: Some(&settings.pkey_file),
                chain: match &settings.cert_chain {
                    Some(chain) => Some(chain),
                    None => None,
                },
            },
            None => TlsFiles { cert: None, key: None, chain: None },
        }
    }

    /// The files of the certificate, where one is configured.
    pub fn from_settings(certificate: &'a Option<CertificateSettings>) -> (res: Self)
        ensures
            res == TlsFiles::of(certificate),
    {
        match certificate {
            Some(settings) => TlsFiles {
                cert: Some(&settings.cert_file),
                key: Some(&settings.pkey_file),
                chain: match &settings.cert_chain {
                    Some(chain) => Some(chain),
                    None => None,
                },
            },
            None => TlsFiles { cert: None, key: None, chain: None },
        }
    }
}

/// The parameters of a QUIC transport.
#[derive(Debug, Clone, Copy, PartialEq, Eq, Structural)]
pub struct QuinnConfig {
    pub num_listeners: usize,
    pub idle_timeout_millis: u64,
    pub keep_alive_millis: u64,
    pub max_bidi_streams: u64,
    pub transport_bits_per_second: u64,
    pub transport_rtt: u64,
}

/// The value that was set, or else the one that stands.
pub open spec fn set_or<T>(set: Option<T>, standing: T) -> T {
    match set {
        Some(value) => value,
        None => standing,
    }
}

impl QuinnConfig {
    /// The configuration with the settings applied to it.
    pub open spec fn overridden(self, settings: QuicSettings) -> Self {
        QuinnConfig {
            num_listeners: settings.num_listeners,
            idle_timeout_millis: set_or(settings.idle_timeout, self.idle_timeout_millis),
            keep_alive_millis: set_or(settings.keep_alive, self.keep_alive_millis),
            max_bidi_streams: set_or(settings.max_bidi_streams, self.max_bidi_streams),
            transport_bits_per_second: set_or(
                settings.transport_bits_per_second,
                self.transport_bits_per_second,
            ),
            transport_rtt: set_or(settings.transport_rtt, self.transport_rtt),
        }
    }

    /// Applies the settings to the configuration that the transport has by default.
    pub fn from(base: QuinnConfig, settings: &QuicSettings) -> (res: Self)
        ensures
            res == base.overridden(*settings),
    {
        let mut config = base;
        config.num_listeners = settings.num_listeners;
        if let Some(v) = settings.idle_timeout {
            config.idle_timeout_millis = v;
        }
        if let Some(v) = settings.keep_alive {
            config.keep_alive_millis = v;
        }
        if let Some(v) = settings.max_bidi_streams {
            config.max_bidi_streams = v;
        }
        if let Some(v) = settings.transport_bits_per_second {
            config.transport_bits_per_second = v;
        }
        if let Some(v) = settings.transport_rtt {
            config.transport_rtt = v;
        }
        config
    }
}

/// Where the certificate of a QUIC endpoint comes from.
#[derive(Debug)]
pub enum QuicCertificate<'a> {
    Configured(&'a CertificateSettings),
    /// Generate one that lasts until the next start.
    Ephemeral,
}

/// How the clients of a QUIC endpoint are verified.
#[derive(Debug)]
pub enum ClientVerification<'a> {
    /// By the authority in this file.
    Authority(&'a String),
    Skipped,
}

/// Why a QUIC endpoint cannot be launched.
#[derive(Debug, Clone, Copy, PartialEq, Eq, Structural)]
pub enum QuicFault {
    MissingCertificate,
    MissingChain,
}

impl QuicFault {
    /// The message for the fault.
    pub open spec fn text(self) -> Seq<char> {
        match self {
            QuicFault::MissingCertificate => "Missing QUIC certificate config"@,
            QuicFault::MissingChain => "Missing cert chain"@,
        }
    }

    /// The error for the fault.
    pub fn error(self) -> (res: ServerError)
        ensures
            res.message@ == self.text(),
    {
        match self {
            QuicFault::MissingCertificate => ServerError::new("Missing QUIC certificate config"),
            QuicFault::MissingChain => ServerError::new("Missing cert chain"),
        }
    }
}

/// Where the certificate of a QUIC endpoint with these settings comes from.
pub open spec fn quic_certificate<'a>(
    settings: &'a QuicSettings,
    generate_ephemeral_cert: bool,
) -> Result<QuicCertificate<'a>, QuicFault> {
    match &settings.certificate {
        Some(cert) => Ok(QuicCertificate::Configured(cert)),
        None => if generate_ephemeral_cert {
            Ok(QuicCertificate::Ephemeral)
        } else {
            Err(QuicFault::MissingCertificate)
        },
    }
}

/// Decides where the certificate of a QUIC endpoint comes from.
pub fn choose_quic_certificate<'a>(settings: &'a QuicSettings, generate_ephemeral_cert: bool) -> (res:
    Result<QuicCertificate<'a>, QuicFault>)
    ensures
        res == quic_certificate(settings, generate_ephemeral_cert),
{
    match &settings.certificate {
        Some(cert) => Ok(QuicCertificate::Configured(cert)),
        None => if generate_ephemeral_cert {
            Ok(QuicCertificate::Ephemeral)
        } else {
            Err(QuicFault::MissingCertificate)
        },
    }
}

/// How the clients of a QUIC endpoint with this certificate are verified.
pub open spec fn quic_verification<'a>(
    verify_client_certs: bool,
    certificate: &'a CertificateSettings,
) -> Result<ClientVerification<'a>, QuicFault> {
    if !verify_client_certs {
        Ok(ClientVerification::Skipped)
    } else {
        match &certificate.cert_chain {
            Some(chain) => Ok(ClientVerification::Authority(chain)),
            None => Err(QuicFault::MissingChain),
        }
    }
}

/// Decides how the clients of a QUIC endpoint are verified.
pub fn choose_quic_verification<'a>(
    verify_client_certs: bool,
    certificate: &'a CertificateSettings,
) -> (res: Result<ClientVerification<'a>, QuicFault>)
    ensures
        res == quic_verification(verify_client_certs, certificate),
{
    if !verify_client_certs {
        return Ok(ClientVerification::Skipped);
    }
    match &certificate.cert_chain {
        Some(chain) => Ok(ClientVerification::Authority(chain)),
        None => Err(QuicFault::MissingChain),
    }
}

/// How a gRPC endpoint is launched.
#[derive(Debug)]
pub struct GrpcLaunch<'a> {
    pub settings: &'a GrpcSettings,
    pub tls: TlsFiles<'a>,
    pub address: String,
}

impl<'a> GrpcLaunch<'a> {
    /// The launch follows the settings.
    pub open spec fn follows(&self, settings: &'a GrpcSettings) -> bool {
        &&& self.settings == settings
        &&& self.tls == TlsFiles::of(&settings.certificate)
        &&& self.address@ == address_text(settings.host@, settings.port)
    }

    /// The launch of an endpoint with these settings.
    pub fn from_settings(settings: &'a GrpcSettings) -> (res: Self)
        ensures
            res.follows(settings),
    {
        GrpcLaunch {
            settings,
            tls: TlsFiles::from_settings(&settings.certificate),
            address: listen_address(settings.host.as_str(), settings.port),
        }
    }
}

/// Decides how the public gRPC endpoint is launched, in maintenance too.
pub fn plan_grpc_launch<'a>(grpc: &'a Option<GrpcSettings>) -> (res: Result<
    GrpcLaunch<'a>,
    ServerError,
>)
    ensures
        match grpc {
            Some(settings) => res matches Ok(launch) && launch.follows(settings),
            None => res matches Err(e) && e.message@ == "Missing gRPC settings"@,
        },
{
    match grpc {
        Some(settings) => Ok(GrpcLaunch::from_settings(settings)),
        None => Err(ServerError::new("Missing gRPC settings")),
    }
}

/// Decides how the internal gRPC endpoint is launched.
pub fn plan_grpc_internal_launch<'a>(grpc_internal: &'a Option<GrpcInternalSettings>) -> (res: Result<
    GrpcLaunch<'a>,
    ServerError,
>)
    ensures
        match grpc_internal {
            Some(settings) => res matches Ok(launch) && launch.follows(&settings.grpc),
            None => res matches Err(e) && e.message@ == "Missing gRPC internal settings"@,
        },
{
    match grpc_internal {
        Some(settings) => Ok(GrpcLaunch::from_settings(&settings.grpc)),
        None => Err(ServerError::new("Missing gRPC internal settings")),
    }
}

/// The internal gRPC endpoint answers from the local store, so there has to be one.
pub fn require_local_store<S>(local_store: Option<S>) -> (res: Result<S, ServerError>)
    ensures
        match local_store {
            Some(store) => res == Ok::<S, ServerError>(store),
            None => res matches Err(e) && e.message@
                == "Cannot configure gRPC internal server, no local store"@,
        },
{
    match local_store {
        Some(store) => Ok(store),
        None => Err(ServerError::new("Cannot configure gRPC internal server, no local store")),
    }
}

/// The batch size to advertise where the store takes batches up to `limit`: the configured one as
/// long as it is set and the store can take it.
pub open spec fn limited_batch(configured: Option<usize>, limit: usize) -> usize {
    match configured {
        Some(size) => if size == 0 || limit < size {
            limit
        } else {
            size
        },
        None => limit,
    }
}

/// The environment to advertise: the configured one, with its batch size cut to what the store takes.
pub open spec fn limited_environment(
    environment: Option<EnvironmentConfig>,
    store_limit: Option<usize>,
) -> EnvironmentConfig {
    let configured = set_or(environment, EnvironmentConfig { endpoint: None, config: None });
    match store_limit {
        Some(limit) => {
            let config = set_or(
                configured.config,
                ClientConfig { max_query_batch: None, compression_mode: None },
            );
            EnvironmentConfig {
                endpoint: configured.endpoint,
                config: Some(
                    ClientConfig {
                        max_query_batch: Some(limited_batch(config.max_query_batch, limit)),
                        compression_mode: config.compression_mode,
                    },
                ),
            }
        },
        None => configured,
    }
}

/// Decides on the environment to advertise, over a store that takes batches up to the given size.
pub fn limit_environment(environment: Option<EnvironmentConfig>, store_limit: Option<usize>) -> (res:
    EnvironmentConfig)
    ensures
        res == limited_environment(environment, store_limit),
{
    let mut environment = match environment {
        Some(given) => given,
        None => EnvironmentConfig { endpoint: None, config: None },
    };
    if let Some(limit) = store_limit {
        let mut config = match environment.config {
            Some(config) => config,
            None => ClientConfig { max_query_batch: None, compression_mode: None },
        };
        let previous: usize = match config.max_query_batch {
            Some(size) => size,
            None => 0,
        };
        config.max_query_batch = Some(
            if previous == 0 || limit < previous {
                limit
            } else {
                previous
            },
        );
        environment.config = Some(config);
    }
    environment
}

/// How the public gRPC endpoint is launched, and what it tells its clients.
#[derive(Debug)]
pub struct PublicGrpcLaunch<'a> {
    pub launch: GrpcLaunch<'a>,
    pub environment: EnvironmentConfig,
    /// The features that the configuration speaks of.
    pub feature: String,
    /// The settings that are reported: names and values.
    pub reported_settings: Vec<(String, String)>,
    /// The features of the build that are reported.
    pub reported_features: Vec<String>,
    /// The settings by which callers are authenticated, where they are.
    pub auth: Option<&'a AuthSettings>,
}

/// Decides how the public gRPC endpoint is launched, over a store that takes batches up to the given
/// size and for callers who authenticate by the given settings. No settings are reported.
pub fn launch_grpc_server<'a>(
    settings: &'a Settings,
    build: BuildFeatures,
    store_limit: Option<usize>,
    auth: Option<&'a AuthSettings>,
) -> (res: Result<PublicGrpcLaunch<'a>, ServerError>)
    ensures
        match &settings.server.grpc {
            Some(grpc) => {
                &&& res matches Ok(plan)
                &&& plan.launch.follows(grpc)
                &&& plan.environment == limited_environment(settings.environment, store_limit)
                &&& plan.feature@ == match settings.feature {
                    Some(feature) => feature@,
                    None => Seq::empty(),
                }
                &&& plan.reported_settings@.len() == 0
                &&& text::views(plan.reported_features@) == build.names()
                &&& plan.auth == auth
            },
            None => res matches Err(e) && e.message@ == "Missing gRPC settings"@,
        },
{
    let launch = match plan_grpc_launch(&settings.server.grpc) {
        Ok(launch) => launch,
        Err(error) => return Err(error),
    };
    let environment = match &settings.environment {
        Some(given) => Some(given.duplicate()),
        None => None,
    };
    let feature = match &settings.feature {
        Some(feature) => feature.clone(),
        None => String::new(),
    };
    Ok(
        PublicGrpcLaunch {
            launch,
            environment: limit_environment(environment, store_limit),
            feature,
            reported_settings: Vec::new(),
            reported_features: compiled_features(build),
            auth,
        },
    )
}

/// What answers a QUIC stream.
#[derive(Debug, Clone, Copy, PartialEq, Eq, Structural)]
pub enum StreamService {
    Storage,
    StorageV4,
    ReplicationStore,
}

/// A service that a QUIC endpoint offers under a protocol name.
#[derive(Debug)]
pub struct ServiceRegistration<'a> {
    pub protocol: String,
    pub service: StreamService,
    /// The settings by which its callers are authenticated, where they are.
    pub auth: Option<&'a AuthSettings>,
    /// How many messages of a connection are processed at a time.
    pub process_limit: usize,
    pub handler_timeout_seconds: Option<u64>,
}

impl<'a> ServiceRegistration<'a> {
    /// This registers exactly this service under this protocol.
    pub open spec fn registers(
        &self,
        protocol: Seq<char>,
        service: StreamService,
        auth: Option<&'a AuthSettings>,
        process_limit: usize,
        handler_timeout_seconds: Option<u64>,
    ) -> bool {
        &&& self.protocol@ == protocol
        &&& self.service == service
        &&& self.auth == auth
        &&& self.process_limit == process_limit
        &&& self.handler_timeout_seconds == handler_timeout_seconds
    }
}

/// The first registration of a protocol.
pub open spec fn registration_of(services: Seq<ServiceRegistration<'_>>, protocol: Seq<char>) -> Option<
    int,
>
    decreases services.len(),
{
    if services.len() == 0 {
        None
    } else {
        match registration_of(services.drop_last(), protocol) {
            Some(i) => Some(i),
            None => if services.last().protocol@ == protocol {
                Some(services.len() - 1)
            } else {
                None
            },
        }
    }
}

/// The protocols of the registrations, in their order.
pub open spec fn protocols_of(services: Seq<ServiceRegistration<'_>>) -> Seq<Seq<char>> {
    services.map_values(|service: ServiceRegistration<'_>| service.protocol@)
}

/// Lists the protocols of the registrations.
fn list_protocols(services: &Vec<ServiceRegistration<'_>>) -> (res: Vec<String>)
    ensures
        text::views(res@) == protocols_of(services@),
{
    let mut res: Vec<String> = Vec::new();
    let mut i: usize = 0;
    while i < services.len()
        invariant
            i <= services@.len(),
            res@.len() == i,
            forall|k: int| 0 <= k < i ==> (#[trigger] res@[k])@ == services@[k].protocol@,
        decreases services@.len() - i,
    {
        res.push(services[i].protocol.clone());
        i = i + 1;
    }
    assert(text::views(res@) =~= protocols_of(services@));
    res
}

/// Finds the registration of a protocol.
fn find_registration<'s, 'a>(services: &'s Vec<ServiceRegistration<'a>>, protocol: &str) -> (res:
    Option<&'s ServiceRegistration<'a>>)
    ensures
        match registration_of(services@, protocol@) {
            Some(i) => res == Some(&services@[i]),
            None => res is None,
        },
{
    let mut i: usize = 0;
    while i < services.len()
        invariant
            i <= services@.len(),
            registration_of(services@.take(i as int), protocol@) is None,
        decreases services@.len() - i,
    {
        assert(services@.take(i + 1).drop_last() =~= services@.take(i as int));
        if text::same(services[i].protocol.as_str(), protocol) {
            proof {
                lemma_registration_stays(services@, i + 1, protocol@);
            }
            return Some(&services[i]);
        }
        i = i + 1;
    }
    assert(services@.take(i as int) =~= services@);
    None
}

/// What is found among the first registrations is found among all of them.
proof fn lemma_registration_stays(services: Seq<ServiceRegistration<'_>>, n: int, protocol: Seq<char>)
    requires
        0 <= n <= services.len(),
        registration_of(services.take(n), protocol) is Some,
    ensures
        registration_of(services, protocol) == registration_of(services.take(n), protocol),
    decreases services.len() - n,
{
    if n == services.len() {
        assert(services.take(n) =~= services);
    } else {
        assert(services.take(n + 1).drop_last() =~= services.take(n));
        lemma_registration_stays(services, n + 1, protocol);
    }
}

/// The protocol name under which older clients ask for the storage service.
pub const STORAGE_PROTOCOL: &'static str = "urc/0.2";

/// The services of the public QUIC endpoint.
#[derive(Debug)]
pub struct QuicPublicStreamHandler<'a> {
    pub services: Vec<ServiceRegistration<'a>>,
}

impl<'a> QuicPublicStreamHandler<'a> {
    /// Registers the storage service for older clients, and its present form under the protocol name
    /// that present clients use. Both verify their callers by the given settings.
    pub fn new(
        storage_alpn: &str,
        auth: Option<&'a AuthSettings>,
        process_limit: usize,
        handler_timeout_seconds: Option<u64>,
    ) -> (res: Self)
        ensures
            res.services@.len() == 2,
            res.services@[0].registers(
                STORAGE_PROTOCOL@,
                StreamService::Storage,
                auth,
                process_limit,
                handler_timeout_seconds,
            ),
            res.services@[1].registers(
                storage_alpn@,
                StreamService::StorageV4,
                auth,
                process_limit,
                handler_timeout_seconds,
            ),
    {
        let mut services: Vec<ServiceRegistration<'a>> = Vec::new();
        services.push(
            ServiceRegistration {
                protocol: STORAGE_PROTOCOL.to_owned(),
                service: StreamService::Storage,
                auth,
                process_limit,
                handler_timeout_seconds,
            },
        );
        services.push(
            ServiceRegistration {
                protocol: storage_alpn.to_owned(),
                service: StreamService::StorageV4,
                auth,
                process_limit,
                handler_timeout_seconds,
            },
        );
        QuicPublicStreamHandler { services }
    }

    /// The protocols that the endpoint speaks.
    pub fn supported_protocols(&self) -> (res: Vec<String>)
        ensures
            text::views(res@) == protocols_of(self.services@),
    {
        list_protocols(&self.services)
    }

    /// The service for a protocol.
    pub fn get_stream_handler_builder(&self, protocol: &str) -> (res: Option<&ServiceRegistration<'a>>)
        ensures
            match registration_of(self.services@, protocol@) {
                Some(i) => res == Some(&self.services@[i]),
                None => res is None,
            },
    {
        find_registration(&self.services, protocol)
    }
}

/// The services of the QUIC endpoint that other servers use.
#[derive(Debug)]
pub struct QuicInternalStreamHandler<'a> {
    pub services: Vec<ServiceRegistration<'a>>,
}

impl<'a> QuicInternalStreamHandler<'a> {
    /// Registers the replication store, which leaves the verification of callers to the transport.
    pub fn new(
        replication_alpn: &str,
        process_limit: usize,
        handler_timeout_seconds: Option<u64>,
    ) -> (res: Self)
        ensures
            res.services@.len() == 1,
            res.services@[0].registers(
                replication_alpn@,
                StreamService::ReplicationStore,
                None,
                process_limit,
                handler_timeout_seconds,
            ),
    {
        let mut services: Vec<ServiceRegistration<'a>> = Vec::new();
        services.push(
            ServiceRegistration {
                protocol: replication_alpn.to_owned(),
                service: StreamService::ReplicationStore,
                auth: None,
                process_limit,
                handler_timeout_seconds,
            },
        );
        QuicInternalStreamHandler { services }
    }

    /// The protocols that the endpoint speaks.
    pub fn supported_protocols(&self) -> (res: Vec<String>)
        ensures
            text::views(res@) == protocols_of(self.services@),
    {
        list_protocols(&self.services)
    }

    /// The service for a protocol.
    pub fn get_stream_handler_builder(&self, protocol: &str) -> (res: Option<&ServiceRegistration<'a>>)
        ensures
            match registration_of(self.services@, protocol@) {
                Some(i) => res == Some(&self.services@[i]),
                None => res is None,
            },
    {
        find_registration(&self.services, protocol)
    }
}

/// A server-to-server endpoint starts without mutual TLS only where the verification of clients was
/// switched off, and with it only where there is an authority to verify them by.
pub proof fn law_no_silent_downgrade(
    certificate: Option<CertificateSettings>,
    verify_client_certs: bool,
)
    ensures
        endpoint_security(certificate, verify_client_certs) == Ok::<
            EndpointSecurity,
            SecurityFault,
        >(EndpointSecurity::Untrusted) <==> !verify_client_certs,
        endpoint_security(certificate, verify_client_certs) == Ok::<
            EndpointSecurity,
            SecurityFault,
        >(EndpointSecurity::Mtls) ==> certificate is Some && certificate->0.cert_chain is Some,
{
}

/// Where a QUIC endpoint is to verify its clients, it is launched with an authority to verify them
/// by, or not at all.
pub proof fn law_quic_verifies_when_told_to(certificate: &CertificateSettings)
    ensures
        match quic_verification(true, certificate) {
            Ok(verification) => verification is Authority && certificate.cert_chain is Some,
            Err(fault) => certificate.cert_chain is None,
        },
{
}

/// The batch size that is advertised is one that the store takes.
pub proof fn law_advertised_batch_fits_the_store(configured: Option<usize>, limit: usize)
    ensures
        limited_batch(configured, limit) <= limit,
        configured is Some && 0 < configured->0 <= limit ==> limited_batch(configured, limit)
            == configured->0,
{
}

} // verus!
