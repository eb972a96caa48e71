//! What holds of the endpoints of a server and of what it does while it runs and ends, stated of the
//! calls that decide on it.
use crate::endpoints::{
    self, BuildFeatures, ClientVerification, EndpointSecurity, GrpcLaunch, PublicGrpcLaunch,
    QuicCertificate, QuicFault, QuicInternalStreamHandler, QuicPublicStreamHandler, QuinnConfig,
    SecurityFault, ServerError, ServiceRegistration, StreamService, TlsFiles,
};
use crate::laws::starting;
use crate::laws::storage;
use crate::laws::texts;
use crate::runtime::{self, LogLevel, TaskContext, TaskCounts, TaskLifecycleEvent};
use crate::settings::{
    AuthSettings, CertificateSettings, EnvironmentConfig, GrpcInternalSettings, GrpcSettings,
    QuicSettings, Settings,
};
use crate::shutdown::{
    Shutdown, ShutdownAction, ShutdownEvent, ShutdownPhase,
};
use crate::text;
use vstd::prelude::*;

verus! {

/// An error keeps its message.
pub proof fn law_errors_keep_their_message(message: &str, res: ServerError, shown: String)
    requires
        call_ensures(ServerError::new, (message,), res),
        call_ensures(ServerError::to_string, (&res,), shown),
    ensures
        res.message@ == message@,
        shown@ == message@,
{
}

/// The certificate is not there, or there by reference.
pub open spec fn held(certificate: Option<&CertificateSettings>) -> Option<CertificateSettings> {
    if certificate is Some {
        Some(*certificate->0)
    } else {
        None
    }
}

/// An endpoint for servers opens on the terms on which its clients can be verified, or need not be,
/// and does not open where they cannot be although they have to.
pub proof fn law_servers_are_verified_unless_told_otherwise(
    label: &str,
    certificate: Option<&CertificateSettings>,
    verify_client_certs: bool,
    decided: Result<EndpointSecurity, SecurityFault>,
    res: Result<EndpointSecurity, ServerError>,
)
    requires
        call_ensures(
            endpoints::decide_endpoint_security,
            (certificate, verify_client_certs),
            decided,
        ),
        call_ensures(
            endpoints::validate_endpoint_security,
            (label, certificate, verify_client_certs),
            res,
        ),
    ensures
        match decided {
            Ok(security) => starting::is_secured(held(certificate), verify_client_certs, security)
                && res == Ok::<EndpointSecurity, ServerError>(security),
            Err(fault) => starting::is_insecure(held(certificate), verify_client_certs, fault) && (
            res matches Err(error) && is_security_error(error, label@, fault)),
        },
{
}

/// The message of the error names the section and says what to configure.
pub open spec fn is_security_error(
    error: ServerError,
    label: Seq<char>,
    fault: SecurityFault,
) -> bool {
    error.message@ == label + match fault {
        SecurityFault::PartiallyConfigured =>
            " certificate is partially configured: certificate.cert_file and certificate.pkey_file are set but certificate.cert_chain (the CA used to verify client certs) is missing. The endpoint requires mTLS, not server-only TLS"@,
        SecurityFault::Missing =>
            " requires mTLS to start (verify_client_certs = true). Configure certificate.cert_file, certificate.pkey_file, and certificate.cert_chain, or set verify_client_certs = false to explicitly accept the security exposure"@,
    }
}

/// The messages for endpoints that may not start.
pub proof fn law_security_faults_are_described(
    fault: SecurityFault,
    label: &str,
    res: ServerError,
)
    requires
        call_ensures(SecurityFault::error, (fault, label), res),
    ensures
        is_security_error(res, label@, fault),
{
}

/// Some list entry reads so.
pub open spec fn lists(list: Seq<String>, entry: Seq<char>) -> bool {
    exists|i: int| 0 <= i < list.len() && (#[trigger] list[i])@ == entry
}

/// The list names the features of the build, each of them once, in the order of their names, and
/// nothing else.
pub open spec fn names_features(list: Seq<String>, build: BuildFeatures) -> bool {
    &&& lists(list, "failure_generator"@) <==> build.failure_generator
    &&& lists(list, "oodle"@) <==> build.oodle
    &&& lists(list, "seeding"@) <==> build.seeding
    &&& forall|i: int| #![trigger list[i]]
        0 <= i < list.len() ==> {
            ||| list[i]@ == "failure_generator"@
            ||| list[i]@ == "oodle"@
            ||| list[i]@ == "seeding"@
        }
    &&& forall|i: int, j: int| #![trigger list[i], list[j]]
        0 <= i < j < list.len() ==> {
            ||| list[i]@ == "failure_generator"@ && list[j]@ != "failure_generator"@
            ||| list[i]@ == "oodle"@ && list[j]@ == "seeding"@
        }
}

proof fn lemma_features(list: Seq<String>, build: BuildFeatures)
    requires
        text::views(list) == build.names(),
    ensures
        names_features(list, build),
{
    reveal_strlit("failure_generator");
    reveal_strlit("oodle");
    reveal_strlit("seeding");
    assert("failure_generator"@.len() == 17);
    assert("oodle"@.len() == 5);
    assert("seeding"@.len() == 7);
    texts::lemma_same_views(build.names(), list);
    let one: int = if build.failure_generator {
        1
    } else {
        0
    };
    let two: int = if build.oodle {
        one + 1
    } else {
        one
    };
    if build.failure_generator {
        assert(list[0]@ == "failure_generator"@);
    }
    if build.oodle {
        assert(list[one]@ == "oodle"@);
    }
    if build.seeding {
        assert(list[two]@ == "seeding"@);
    }
}

/// The server reports the features that it was built with.
pub proof fn law_all_features_are_reported(build: BuildFeatures, res: Vec<String>)
    requires
        call_ensures(endpoints::compiled_features, (build,), res),
    ensures
        names_features(res@, build),
{
    lemma_features(res@, build);
}

/// The files are those of the certificate.
pub open spec fn are_files(files: TlsFiles<'_>, certificate: Option<CertificateSettings>) -> bool {
    match certificate {
        Some(settings) => {
            &&& files.cert is Some && files.cert->0@ == settings.cert_file@
            &&& files.key is Some && files.key->0@ == settings.pkey_file@
            &&& files.chain is Some <==> settings.cert_chain is Some
            &&& files.chain is Some ==> files.chain->0@ == settings.cert_chain->0@
        },
        None => files.cert is None && files.key is None && files.chain is None,
    }
}

/// TLS is set up from the files of the certificate, and not at all without one.
pub proof fn law_tls_uses_the_certificate<'a>(
    certificate: &'a Option<CertificateSettings>,
    res: TlsFiles<'a>,
)
    requires
        call_ensures(TlsFiles::from_settings, (certificate,), res),
    ensures
        are_files(res, *certificate),
{
}

/// What is set of a QUIC transport replaces its defaults, and the rest keeps them.
pub proof fn law_settings_replace_defaults(
    base: QuinnConfig,
    settings: QuicSettings,
    res: QuinnConfig,
)
    requires
        call_ensures(QuinnConfig::from, (base, &settings), res),
    ensures
        res.num_listeners == settings.num_listeners,
        res.idle_timeout_millis == storage::chosen(settings.idle_timeout, base.idle_timeout_millis),
        res.keep_alive_millis == storage::chosen(settings.keep_alive, base.keep_alive_millis),
        res.max_bidi_streams == storage::chosen(settings.max_bidi_streams, base.max_bidi_streams),
        res.transport_bits_per_second == storage::chosen(
            settings.transport_bits_per_second,
            base.transport_bits_per_second,
        ),
        res.transport_rtt == storage::chosen(settings.transport_rtt, base.transport_rtt),
{
}

/// A QUIC endpoint has the certificate that is configured. Without one, it has one generated where
/// that is allowed, and cannot be launched otherwise.
pub proof fn law_quic_needs_a_certificate<'a>(
    settings: &'a QuicSettings,
    generate: bool,
    res: Result<QuicCertificate<'a>, QuicFault>,
)
    requires
        call_ensures(endpoints::choose_quic_certificate, (settings, generate), res),
    ensures
        match res {
            Ok(QuicCertificate::Configured(cert)) => settings.certificate == Some(*cert),
            Ok(QuicCertificate::Ephemeral) => settings.certificate is None && generate,
            Err(fault) => settings.certificate is None && !generate && fault
                == QuicFault::MissingCertificate,
        },
{
}

/// The clients of a QUIC endpoint are verified by the authority of its certificate exactly where they
/// are to be, and it cannot be launched where there is none.
pub proof fn law_quic_clients_are_verified_when_asked_for<'a>(
    verify: bool,
    certificate: &'a CertificateSettings,
    res: Result<ClientVerification<'a>, QuicFault>,
)
    requires
        call_ensures(endpoints::choose_quic_verification, (verify, certificate), res),
    ensures
        match res {
            Ok(ClientVerification::Authority(chain)) => verify && certificate.cert_chain == Some(
                *chain,
            ),
            Ok(ClientVerification::Skipped) => !verify,
            Err(fault) => verify && certificate.cert_chain is None && fault
                == QuicFault::MissingChain,
        },
{
}

/// The messages for QUIC endpoints that cannot be launched.
pub proof fn law_quic_faults_are_described(fault: QuicFault, res: ServerError)
    requires
        call_ensures(QuicFault::error, (fault,), res),
    ensures
        res.message@ == match fault {
            QuicFault::MissingCertificate => "Missing QUIC certificate config"@,
            QuicFault::MissingChain => "Missing cert chain"@,
        },
{
}

/// The endpoint is launched with the settings, the files of their certificate and an address that is
/// their host, a colon and digits that read as their port.
pub open spec fn launches(launch: GrpcLaunch<'_>, settings: GrpcSettings) -> bool {
    &&& *launch.settings == settings
    &&& are_files(launch.tls, settings.certificate)
    &&& exists|port: Seq<char>|
        #[trigger] texts::writes(port, settings.port as int) && launch.address@ == settings.host@
            + ":"@ + port
}

proof fn lemma_launches(launch: GrpcLaunch<'_>, settings: GrpcSettings)
    requires
        launch.follows(&settings),
    ensures
        launches(launch, settings),
{
    texts::lemma_numeral_writes(settings.port as nat);
    assert(texts::writes(text::numeral(settings.port as nat), settings.port as int));
}

/// gRPC endpoints are launched by their settings and cannot be without.
pub proof fn law_grpc_is_launched_by_its_settings<'a>(
    settings: &'a GrpcSettings,
    grpc: &'a Option<GrpcSettings>,
    internal: &'a Option<GrpcInternalSettings>,
    launch: GrpcLaunch<'a>,
    public_launch: Result<GrpcLaunch<'a>, ServerError>,
    internal_launch: Result<GrpcLaunch<'a>, ServerError>,
)
    requires
        call_ensures(GrpcLaunch::from_settings, (settings,), launch),
        call_ensures(endpoints::plan_grpc_launch, (grpc,), public_launch),
        call_ensures(endpoints::plan_grpc_internal_launch, (internal,), internal_launch),
    ensures
        launches(launch, *settings),
        match public_launch {
            Ok(launch) => *grpc is Some && launches(launch, grpc->0),
            Err(error) => *grpc is None && error.message@ == "Missing gRPC settings"@,
        },
        match internal_launch {
            Ok(launch) => *internal is Some && launches(launch, internal->0.grpc),
            Err(error) => *internal is None && error.message@ == "Missing gRPC internal settings"@,
        },
{
    lemma_launches(launch, *settings);
    if let Ok(launch) = public_launch {
        lemma_launches(launch, grpc->0);
    }
    if let Ok(launch) = internal_launch {
        lemma_launches(launch, internal->0.grpc);
    }
}

/// The internal gRPC endpoint needs a local store.
pub proof fn law_the_internal_endpoint_needs_a_local_store<S>(
    local_store: Option<S>,
    res: Result<S, ServerError>,
)
    requires
        call_ensures(endpoints::require_local_store::<S>, (local_store,), res),
    ensures
        match res {
            Ok(store) => local_store == Some(store),
            Err(error) => local_store is None && error.message@
                == "Cannot configure gRPC internal server, no local store"@,
        },
{
}

/// The batch size that clients are told of.
pub open spec fn told_batch(environment: EnvironmentConfig) -> Option<usize> {
    if environment.config is Some {
        environment.config->0.max_query_batch
    } else {
        None
    }
}

/// The compression mode that clients are told of.
pub open spec fn told_mode(environment: EnvironmentConfig) -> Option<u32> {
    if environment.config is Some {
        environment.config->0.compression_mode
    } else {
        None
    }
}

/// What clients are told follows the configuration, but the batch size is one that the store takes:
/// the configured one, where it is not zero and not too large, or else the largest possible.
pub open spec fn tells(
    told: EnvironmentConfig,
    configured: Option<EnvironmentConfig>,
    store_limit: Option<usize>,
) -> bool {
    &&& told.endpoint == if configured is Some {
        configured->0.endpoint
    } else {
        None
    }
    &&& told_mode(told) == if configured is Some {
        told_mode(configured->0)
    } else {
        None
    }
    &&& match store_limit {
        None => told.config == if configured is Some {
            configured->0.config
        } else {
            None
        },
        Some(limit) => {
            &&& told_batch(told) is Some
            &&& told_batch(told)->0 <= limit
            &&& told_batch(told)->0 < limit ==> configured is Some && told_batch(configured->0)
                == told_batch(told) && told_batch(told)->0 > 0
            &&& configured is Some && told_batch(configured->0) is Some && 0 < told_batch(
                configured->0,
            )->0 <= limit ==> told_batch(told) == told_batch(configured->0)
        },
    }
}

/// Clients are told of a batch size that the store takes.
pub proof fn law_clients_are_told_what_the_store_takes(
    environment: Option<EnvironmentConfig>,
    store_limit: Option<usize>,
    res: EnvironmentConfig,
)
    requires
        call_ensures(endpoints::limit_environment, (environment, store_limit), res),
    ensures
        tells(res, environment, store_limit),
{
}

/// A copy of what clients are told says the same.
pub proof fn law_copies_say_the_same(environment: EnvironmentConfig, res: EnvironmentConfig)
    requires
        call_ensures(EnvironmentConfig::duplicate, (&environment,), res),
    ensures
        res.endpoint is Some <==> environment.endpoint is Some,
        res.endpoint is Some ==> res.endpoint->0.auth_url == environment.endpoint->0.auth_url,
        res.config is Some <==> environment.config is Some,
        told_batch(res) == told_batch(environment),
        told_mode(res) == told_mode(environment),
{
}

/// The public gRPC endpoint is launched by its settings, tells its clients what the store takes and
/// what the server was built with, reports no settings and authenticates by what it was given.
pub proof fn law_the_public_endpoint_is_launched_by_its_settings<'a>(
    settings: &'a Settings,
    build: BuildFeatures,
    store_limit: Option<usize>,
    auth: Option<&'a AuthSettings>,
    res: Result<PublicGrpcLaunch<'a>, ServerError>,
)
    requires
        call_ensures(endpoints::launch_grpc_server, (settings, build, store_limit, auth), res),
    ensures
        match res {
            Ok(plan) => {
                &&& settings.server.grpc is Some
                &&& launches(plan.launch, settings.server.grpc->0)
                &&& tells(plan.environment, settings.environment, store_limit)
                &&& settings.feature is Some ==> plan.feature@ == settings.feature->0@
                &&& settings.feature is None ==> plan.feature@.len() == 0
                &&& plan.reported_settings@.len() == 0
                &&& names_features(plan.reported_features@, build)
                &&& plan.auth == auth
            },
            Err(error) => settings.server.grpc is None && error.message@
                == "Missing gRPC settings"@,
        },
{
    if let Ok(plan) = res {
        lemma_launches(plan.launch, settings.server.grpc->0);
        lemma_features(plan.reported_features@, build);
    }
}

/// The service is offered under the protocol and on the terms given.
pub open spec fn offers(
    registration: ServiceRegistration<'_>,
    protocol: Seq<char>,
    service: StreamService,
    process_limit: usize,
    handler_timeout_seconds: Option<u64>,
) -> bool {
    &&& registration.protocol@ == protocol
    &&& registration.service == service
    &&& registration.process_limit == process_limit
    &&& registration.handler_timeout_seconds == handler_timeout_seconds
}

/// The public QUIC endpoint offers the storage service in both its forms, to callers who authenticate
/// by the settings given.
pub proof fn law_the_public_endpoint_offers_storage<'a>(
    storage_alpn: &str,
    auth: Option<&'a AuthSettings>,
    process_limit: usize,
    timeout: Option<u64>,
    res: QuicPublicStreamHandler<'a>,
)
    requires
        call_ensures(
            QuicPublicStreamHandler::new,
            (storage_alpn, auth, process_limit, timeout),
            res,
        ),
    ensures
        res.services@.len() == 2,
        offers(res.services@[0], "urc/0.2"@, StreamService::Storage, process_limit, timeout),
        offers(res.services@[1], storage_alpn@, StreamService::StorageV4, process_limit, timeout),
        res.services@[0].auth == auth,
        res.services@[1].auth == auth,
{
}

/// The internal QUIC endpoint offers replication, and leaves it to the transport to verify callers.
pub proof fn law_the_internal_endpoint_offers_replication<'a>(
    replication_alpn: &str,
    process_limit: usize,
    timeout: Option<u64>,
    res: QuicInternalStreamHandler<'a>,
)
    requires
        call_ensures(
            QuicInternalStreamHandler::new,
            (replication_alpn, process_limit, timeout),
            res,
        ),
    ensures
        res.services@.len() == 1,
        offers(
            res.services@[0],
            replication_alpn@,
            StreamService::ReplicationStore,
            process_limit,
            timeout,
        ),
        res.services@[0].auth is None,
{
}

/// The first of the registrations for the protocol was found, or there is none.
pub open spec fn is_first_registration(
    services: Seq<ServiceRegistration<'_>>,
    protocol: Seq<char>,
    found: Option<&ServiceRegistration<'_>>,
) -> bool {
    match found {
        Some(service) => exists|i: int|
            {
                &&& 0 <= i < services.len()
                &&& #[trigger] services[i] == *service
                &&& services[i].protocol@ == protocol
                &&& forall|j: int| 0 <= j < i ==> (#[trigger] services[j]).protocol@ != protocol
            },
        None => forall|j: int|
            0 <= j < services.len() ==> (#[trigger] services[j]).protocol@ != protocol,
    }
}

proof fn lemma_first_registration(services: Seq<ServiceRegistration<'_>>, protocol: Seq<char>)
    ensures
        match endpoints::registration_of(services, protocol) {
            Some(i) => {
                &&& 0 <= i < services.len()
                &&& services[i].protocol@ == protocol
                &&& forall|j: int| 0 <= j < i ==> (#[trigger] services[j]).protocol@ != protocol
            },
            None => forall|j: int|
                0 <= j < services.len() ==> (#[trigger] services[j]).protocol@ != protocol,
        },
    decreases services.len(),
{
    if services.len() > 0 {
        let front = services.drop_last();
        lemma_first_registration(front, protocol);
        assert forall|j: int| 0 <= j < front.len() implies #[trigger] services[j] == front[j] by {}
        if endpoints::registration_of(front, protocol) is None {
            assert forall|j: int| 0 <= j < services.len() - 1 implies (
            #[trigger] services[j]).protocol@ != protocol by {
                assert(front[j].protocol@ != protocol);
            }
        }
    }
}

/// A list entry for each service, with its protocol.
pub open spec fn lists_protocols(list: Seq<String>, services: Seq<ServiceRegistration<'_>>) -> bool {
    &&& list.len() == services.len()
    &&& forall|i: int| 0 <= i < list.len() ==> (#[trigger] list[i])@ == services[i].protocol@
}

proof fn lemma_protocols(list: Seq<String>, services: Seq<ServiceRegistration<'_>>)
    requires
        text::views(list) == endpoints::protocols_of(services),
    ensures
        lists_protocols(list, services),
{
    texts::lemma_same_views(endpoints::protocols_of(services), list);
}

/// A QUIC endpoint speaks the protocols of its services, and a stream is answered by the first service
/// under its protocol.
pub proof fn law_streams_are_answered_by_protocol<'a>(
    users: QuicPublicStreamHandler<'a>,
    servers: QuicInternalStreamHandler<'a>,
    protocol: &str,
    user_protocols: Vec<String>,
    server_protocols: Vec<String>,
    for_user: Option<&ServiceRegistration<'a>>,
    for_server: Option<&ServiceRegistration<'a>>,
)
    requires
        call_ensures(QuicPublicStreamHandler::supported_protocols, (&users,), user_protocols),
        call_ensures(QuicInternalStreamHandler::supported_protocols, (&servers,), server_protocols),
        call_ensures(
            QuicPublicStreamHandler::get_stream_handler_builder,
            (&users, protocol),
            for_user,
        ),
        call_ensures(
            QuicInternalStreamHandler::get_stream_handler_builder,
            (&servers, protocol),
            for_server,
        ),
    ensures
        lists_protocols(user_protocols@, users.services@),
        lists_protocols(server_protocols@, servers.services@),
        is_first_registration(users.services@, protocol@, for_user),
        is_first_registration(servers.services@, protocol@, for_server),
{
    lemma_protocols(user_protocols@, users.services@);
    lemma_protocols(server_protocols@, servers.services@);
    lemma_first_registration(users.services@, protocol@);
    lemma_first_registration(servers.services@, protocol@);
}

/// The server names itself with its version.
pub proof fn law_the_server_names_its_version(version: &str, res: String)
    requires
        call_ensures(runtime::user_agent, (version,), res),
    ensures
        res@ == "lore-server/"@ + version@,
{
}

/// The server runs in maintenance only where the variable for it holds the digit one and nothing
/// else.
pub proof fn law_maintenance_has_to_be_asked_for(variable: Option<&str>, res: bool)
    requires
        call_ensures(runtime::is_maintenance, (variable,), res),
    ensures
        res <==> variable is Some && variable->0@ == "1"@,
{
}

/// A task counts from its start until it ends, in whichever way.
pub proof fn law_a_task_counts_while_it_runs(
    end: TaskLifecycleEvent,
    at_start: TaskCounts,
    at_end: TaskCounts,
)
    requires
        end != TaskLifecycleEvent::Started,
        call_ensures(
            runtime::observe_task_lifecycle,
            (TaskLifecycleEvent::Started,),
            at_start,
        ),
        call_ensures(runtime::observe_task_lifecycle, (end,), at_end),
    ensures
        at_start.spawned == 1,
        at_start.running == 1,
        at_end.spawned == 0,
        at_start.running + at_end.running == 0,
{
}

/// The labels under which tasks are counted.
pub proof fn law_tasks_are_labelled<'a>(context: TaskContext<'a>, res: &'a str)
    requires
        call_ensures(TaskContext::label, (&context,), res),
    ensures
        match context {
            TaskContext::Missing => res@ == "<no context>"@,
            TaskContext::Foreign => res@ == "<no server state>"@,
            TaskContext::Server(label) => res@ == label@,
        },
{
}

/// Every message is recorded under its own level, and under the lowest where it has none.
pub proof fn law_messages_keep_their_level(level: LogLevel, res: LogLevel)
    requires
        call_ensures(runtime::server_log_level, (level,), res),
    ensures
        res != LogLevel::Unset,
        level != LogLevel::Unset ==> res == level,
        level == LogLevel::Unset ==> res == LogLevel::Trace,
{
}

/// The line holds both texts somewhere.
pub open spec fn shows_code(line: Seq<char>, executable: Seq<char>) -> bool {
    &&& exists|i: int| #[trigger] texts::stands(line, executable, i)
    &&& exists|i: int| #[trigger] texts::stands(line, "r-xp"@, i)
}

/// The first line that names the executable and shows code is found, and nothing where no line does.
pub proof fn law_the_first_mapping_is_found(
    maps: &str,
    executable: &str,
    lines: Vec<String>,
    res: Option<String>,
)
    requires
        call_ensures(text::split_lines, (maps,), lines),
        call_ensures(runtime::find_mapping, (maps, executable), res),
    ensures
        match res {
            Some(line) => exists|i: int|
                {
                    &&& 0 <= i < lines@.len()
                    &&& (#[trigger] lines@[i])@ == line@
                    &&& shows_code(line@, executable@)
                    &&& forall|j: int|
                        0 <= j < i ==> !shows_code((#[trigger] lines@[j])@, executable@)
                },
            None => forall|j: int|
                0 <= j < lines@.len() ==> !shows_code((#[trigger] lines@[j])@, executable@),
        },
{
    texts::lemma_same_views(text::lines(maps@), lines@);
    lemma_first_mapping(text::lines(maps@), executable@, 0);
    if let Some(line) = res {
        let i = choose|i: int|
            {
                &&& 0 <= i < text::lines(maps@).len()
                &&& #[trigger] text::lines(maps@)[i] == line@
                &&& shows_code(line@, executable@)
                &&& forall|j: int|
                    0 <= j < i ==> !shows_code(#[trigger] text::lines(maps@)[j], executable@)
            };
        assert(lines@[i]@ == line@);
        assert forall|j: int| 0 <= j < i implies !shows_code(
            (#[trigger] lines@[j])@,
            executable@,
        ) by {
            assert(!shows_code(text::lines(maps@)[j], executable@));
        }
    } else {
        assert forall|j: int| 0 <= j < lines@.len() implies !shows_code(
            (#[trigger] lines@[j])@,
            executable@,
        ) by {
            assert(!shows_code(text::lines(maps@)[j], executable@));
        }
    }
}

proof fn lemma_stands_somewhere(s: Seq<char>, pat: Seq<char>)
    ensures
        text::holds(s, pat) <==> exists|i: int| #[trigger] texts::stands(s, pat, i),
{
    if text::holds(s, pat) {
        let i = choose|i: int| text::occurs_at(s, pat, i);
        assert(texts::stands(s, pat, i));
    }
    if exists|i: int| #[trigger] texts::stands(s, pat, i) {
        let i = choose|i: int| #[trigger] texts::stands(s, pat, i);
        assert(text::occurs_at(s, pat, i));
    }
}

proof fn lemma_first_mapping(lines: Seq<Seq<char>>, executable: Seq<char>, from: int)
    requires
        0 <= from,
    ensures
        match runtime::mapping_from(lines, executable, from) {
            Some(line) => exists|i: int|
                {
                    &&& from <= i < lines.len()
                    &&& #[trigger] lines[i] == line
                    &&& shows_code(line, executable)
                    &&& forall|j: int| from <= j < i ==> !shows_code(#[trigger] lines[j], executable)
                },
            None => forall|j: int|
                from <= j < lines.len() ==> !shows_code(#[trigger] lines[j], executable),
        },
    decreases lines.len() - from,
{
    if from < lines.len() {
        lemma_stands_somewhere(lines[from], executable);
        lemma_stands_somewhere(lines[from], "r-xp"@);
        lemma_first_mapping(lines, executable, from + 1);
    }
}

/// The detectors of the caller come first, in their order, and then those of the plugins in theirs.
pub proof fn law_no_detector_is_lost<D>(inner: Option<Vec<D>>, plugins: Vec<D>, res: Vec<D>)
    requires
        call_ensures(runtime::combined_detectors::<D>, (inner, plugins), res),
    ensures
        ({
            let own: int = if inner is Some {
                inner->0@.len() as int
            } else {
                0
            };
            &&& res@.len() == own + plugins@.len()
            &&& forall|i: int| 0 <= i < own ==> #[trigger] res@[i] == inner->0@[i]
            &&& forall|i: int|
                0 <= i < plugins@.len() ==> res@[own + i] == #[trigger] plugins@[i]
        }),
{
}

/// A server waits as one that is up, for as long as it was told to.
pub proof fn law_a_server_waits_while_it_is_up(timeout_seconds: u64, res: Shutdown)
    requires
        call_ensures(Shutdown::wait_for_shutdown, (timeout_seconds,), res),
    ensures
        res.phase == ShutdownPhase::Running,
        res.timeout_seconds == timeout_seconds,
{
}

/// While the server is up, a signal or the end of an endpoint makes it drain; only in the latter case
/// are the other endpoints told. While it drains it goes on until no endpoint is left, and when its
/// time is over, it forces the others to end. Its time stays the same.
pub proof fn law_a_server_drains_before_it_ends(event: ShutdownEvent)
    ensures
        forall|server: &mut Shutdown, action: ShutdownAction|
            #[trigger] call_ensures(Shutdown::on_event, (server, event), action) ==> {
                &&& final(server).timeout_seconds == server.timeout_seconds
                &&& match event {
                    ShutdownEvent::Signal => final(server).phase == ShutdownPhase::Draining
                        && action == ShutdownAction::StartDraining,
                    ShutdownEvent::EndpointEnded(_) => final(server).phase
                        == ShutdownPhase::Draining && (server.phase == ShutdownPhase::Running
                        ==> action == ShutdownAction::TellAndStartDraining) && (server.phase
                        == ShutdownPhase::Draining ==> action == ShutdownAction::KeepDraining),
                    ShutdownEvent::NoneLeft => final(server).phase == ShutdownPhase::Finished
                        && action == ShutdownAction::Return,
                    ShutdownEvent::DeadlinePassed => final(server).phase == ShutdownPhase::Finished
                        && action == ShutdownAction::ForceClose,
                }
            },
{
}

} // verus!
