//! The start of the server: what it does, and in which order, until it ends.
use crate::endpoints::{self, EndpointSecurity, SecurityFault, ServerError};
use crate::jwt_interceptor::JwtVerifier;
use crate::seeding::{self, SeedingFault};
use crate::settings::{
    AuthSettings, GrpcInternalSettings, HttpSettings, LocalImmutableStoreSettings, QuicSettings,
    Settings,
};
use vstd::prelude::*;

verus! {

/// How many messages of a public QUIC connection are processed at a time where the settings do not
/// say.
pub const DEFAULT_PROCESS_LIMIT: usize = 500;

/// The section of the configuration with the internal gRPC endpoint.
pub const GRPC_INTERNAL_SECTION: &'static str = "[server.grpc_internal]";

/// The section of the configuration with the internal QUIC endpoint.
pub const QUIC_INTERNAL_SECTION: &'static str = "[server.quic_internal]";

/// What the start depends on besides the settings.
#[derive(Debug, Clone, Copy, PartialEq, Eq, Structural)]
pub struct StartupContext {
    /// The server runs in maintenance.
    pub maintenance: bool,
    /// The system offers the memory map of the process.
    pub has_memory_map: bool,
    /// The build can seed the local store.
    pub seeding: bool,
    /// How many messages of an internal QUIC connection are processed at a time where the settings
    /// do not say.
    pub internal_message_limit: usize,
}

/// The endpoints that other servers use.
#[derive(Debug, Clone, Copy, PartialEq, Eq, Structural)]
pub enum InternalEndpoint {
    Grpc,
    Quic,
}

/// Why the server does not start.
#[derive(Debug, Clone, Copy, PartialEq, Eq, Structural)]
pub enum StartupFault {
    Seeding(SeedingFault),
    Insecure(InternalEndpoint, SecurityFault),
}

impl StartupFault {
    /// The message for the fault.
    pub open spec fn text(self) -> Seq<char> {
        match self {
            StartupFault::Seeding(fault) => fault.text(),
            StartupFault::Insecure(InternalEndpoint::Grpc, fault) => fault.text(
                GRPC_INTERNAL_SECTION@,
            ),
            StartupFault::Insecure(InternalEndpoint::Quic, fault) => fault.text(
                QUIC_INTERNAL_SECTION@,
            ),
        }
    }

    /// The error for the fault.
    pub fn error(self) -> (res: ServerError)
        ensures
            res.message@ == self.text(),
    {
        match self {
            StartupFault::Seeding(fault) => fault.error(),
            StartupFault::Insecure(InternalEndpoint::Grpc, fault) => fault.error(
                GRPC_INTERNAL_SECTION,
            ),
            StartupFault::Insecure(InternalEndpoint::Quic, fault) => fault.error(
                QUIC_INTERNAL_SECTION,
            ),
        }
    }
}

/// A step of the server's life. One that fails ends the server at that point, unless it is the flush
/// of the stores, whose failure is passed over. An endpoint runs beside the steps that follow its
/// launch, and ends the wait for the shutdown when it fails.
#[derive(Debug)]
pub enum StartupStep<'a> {
    CompileUserAgentFilter,
    /// First of all the plugins, because they contribute to the telemetry.
    RegisterPlugins,
    InitTelemetry,
    ObserveTasks,
    ReportUp(bool),
    LogBaseAddress,
    IsolateLocalStore,
    SampleRuntimeMetrics { interval_millis: u64 },
    SetCompressionMode(u32),
    SeedLocalStore(&'a LocalImmutableStoreSettings),
    ConfigureTopology,
    ConfigureImmutableStore,
    ConfigureMutableStore,
    ConfigureLockStore,
    /// Fetch the keys that tokens are verified with; from then on callers have to authenticate.
    FetchKeys(&'a AuthSettings),
    ConnectForwarding,
    ListenForTermination,
    ConfigureNotification,
    CreateHooks,
    LaunchGrpc,
    LaunchGrpcInternal { settings: &'a GrpcInternalSettings, security: EndpointSecurity },
    LaunchMaintenanceGrpc,
    LaunchQuic { settings: &'a QuicSettings, process_limit: usize },
    LaunchQuicInternal {
        settings: &'a QuicSettings,
        process_limit: usize,
        security: EndpointSecurity,
    },
    LaunchHttp(&'a HttpSettings),
    LaunchMaintenanceHttp(&'a HttpSettings),
    /// Keep the topology up to date, where there is one that can be.
    RefreshTopology,
    ReportMemory,
    WaitForShutdown { timeout_seconds: u64 },
    FlushStores,
    Fail(StartupFault),
}

/// The steps end with a failure.
pub open spec fn fails(steps: Seq<StartupStep<'_>>) -> bool {
    steps.len() > 0 && steps.last() is Fail
}

/// The steps, and behind them the others unless they end with a failure.
pub open spec fn followed_by<'a>(steps: Seq<StartupStep<'a>>, next: Seq<StartupStep<'a>>) -> Seq<
    StartupStep<'a>,
> {
    if fails(steps) {
        steps
    } else {
        steps + next
    }
}

/// Appends steps unless there was a failure.
fn follow<'a>(steps: &mut Vec<StartupStep<'a>>, next: Vec<StartupStep<'a>>)
    ensures
        final(steps)@ == followed_by(old(steps)@, next@),
{
    let n: usize = steps.len();
    if n > 0 {
        if let StartupStep::Fail(_) = &steps[n - 1] {
            return;
        }
    }
    let mut next = next;
    steps.append(&mut next);
}

/// No step, or one.
pub open spec fn optional<'a>(step: Option<StartupStep<'a>>) -> Seq<StartupStep<'a>> {
    match step {
        Some(step) => seq![step],
        None => Seq::empty(),
    }
}

/// The compression mode that the environment asks for.
pub open spec fn compression_mode(settings: Settings) -> Option<u32> {
    match settings.environment {
        Some(environment) => match environment.config {
            Some(config) => config.compression_mode,
            None => None,
        },
        None => None,
    }
}

/// The steps before there are stores.
pub open spec fn opening_steps<'a>(settings: &'a Settings, context: StartupContext) -> Seq<
    StartupStep<'a>,
> {
    seq![
        StartupStep::CompileUserAgentFilter,
        StartupStep::RegisterPlugins,
        StartupStep::InitTelemetry,
        StartupStep::ObserveTasks,
        StartupStep::ReportUp(false),
    ] + optional(
        if context.has_memory_map {
            Some(StartupStep::LogBaseAddress)
        } else {
            None
        },
    ) + seq![
        StartupStep::IsolateLocalStore,
        StartupStep::SampleRuntimeMetrics {
            interval_millis: settings.metrics_export_interval_millis,
        },
    ] + optional(
        match compression_mode(*settings) {
            Some(mode) => Some(StartupStep::SetCompressionMode(mode)),
            None => None,
        },
    ) + optional(
        if context.seeding {
            Some(
                match seeding::seeding_store(&settings.immutable_store) {
                    Ok(local) => StartupStep::SeedLocalStore(local),
                    Err(fault) => StartupStep::Fail(StartupFault::Seeding(fault)),
                },
            )
        } else {
            None
        },
    )
}

fn plan_opening<'a>(settings: &'a Settings, context: StartupContext) -> (res: Vec<StartupStep<'a>>)
    ensures
        res@ == opening_steps(settings, context),
{
    let mut steps: Vec<StartupStep<'a>> = Vec::new();
    steps.push(StartupStep::CompileUserAgentFilter);
    steps.push(StartupStep::RegisterPlugins);
    steps.push(StartupStep::InitTelemetry);
    steps.push(StartupStep::ObserveTasks);
    steps.push(StartupStep::ReportUp(false));
    if context.has_memory_map {
        steps.push(StartupStep::LogBaseAddress);
    }
    steps.push(StartupStep::IsolateLocalStore);
    steps.push(
        StartupStep::SampleRuntimeMetrics {
            interval_millis: settings.metrics_export_interval_millis,
        },
    );
    if let Some(environment) = &settings.environment {
        if let Some(config) = &environment.config {
            if let Some(mode) = config.compression_mode {
                steps.push(StartupStep::SetCompressionMode(mode));
            }
        }
    }
    if context.seeding {
        steps.push(
            match seeding::find_seeding_store(&settings.immutable_store) {
                Ok(local) => StartupStep::SeedLocalStore(local),
                Err(fault) => StartupStep::Fail(StartupFault::Seeding(fault)),
            },
        );
    }
    assert(steps@ =~= opening_steps(settings, context));
    steps
}

/// The settings by which callers are authenticated, where they are.
pub open spec fn authenticating<'a>(settings: &'a Settings) -> Option<&'a AuthSettings> {
    match &settings.server.auth {
        Some(auth) => if auth.jwk is Some {
            Some(auth)
        } else {
            None
        },
        None => None,
    }
}

/// Finds the settings by which callers are authenticated.
fn find_authenticating<'a>(settings: &'a Settings) -> (res: Option<&'a AuthSettings>)
    ensures
        res == authenticating(settings),
{
    match &settings.server.auth {
        Some(auth) => match &auth.jwk {
            Some(_) => Some(auth),
            None => None,
        },
        None => None,
    }
}

/// The settings by which the callers of the endpoint are authenticated that the step launches. The
/// public endpoints authenticate their callers; the others do not.
pub fn caller_auth<'a>(settings: &'a Settings, step: &StartupStep<'a>) -> (res: Option<
    &'a AuthSettings,
>)
    ensures
        res == if *step is LaunchGrpc || *step is LaunchQuic || *step is LaunchHttp {
            authenticating(settings)
        } else {
            None
        },
{
    match step {
        StartupStep::LaunchGrpc
        | StartupStep::LaunchQuic { .. }
        | StartupStep::LaunchHttp(_) => find_authenticating(settings),
        _ => None,
    }
}

/// The verifier of the endpoint that the step launches. A public endpoint has one exactly where there
/// are settings for keys to verify tokens with, and it checks for the issuer and the audience in the
/// same settings.
pub fn caller_verifier<'a>(settings: &'a Settings, step: &StartupStep<'a>) -> (res: Option<
    JwtVerifier,
>)
    ensures
        if *step is LaunchGrpc || *step is LaunchQuic || *step is LaunchHttp {
            match settings.server.auth {
                Some(auth) => if auth.jwk is Some {
                    res matches Some(verifier) && verifier.follows(auth)
                } else {
                    res is None
                },
                None => res is None,
            }
        } else {
            res is None
        },
{
    JwtVerifier::for_callers(caller_auth(settings, step))
}

/// Whether a certificate may be generated for the endpoint that the step launches, where none is
/// configured. That is for users of the public QUIC endpoint; servers need a real one.
pub fn may_generate_certificate(step: &StartupStep<'_>) -> (res: bool)
    ensures
        res == (*step is LaunchQuic),
{
    match step {
        StartupStep::LaunchQuic { .. } => true,
        _ => false,
    }
}

/// How often the endpoint that the step launches reports its metrics, in milliseconds. The QUIC
/// endpoints do, as often as metrics are exported.
pub fn metrics_interval_millis(settings: &Settings, step: &StartupStep<'_>) -> (res: Option<u64>)
    ensures
        res == if *step is LaunchQuic || *step is LaunchQuicInternal {
            Some(settings.metrics_export_interval_millis)
        } else {
            None
        },
{
    match step {
        StartupStep::LaunchQuic { .. } | StartupStep::LaunchQuicInternal { .. } => Some(
            settings.metrics_export_interval_millis,
        ),
        _ => None,
    }
}

/// The error where the patterns of the user agent filter are refused for the given reason.
pub fn invalid_user_agent_patterns(reason: &str) -> (res: ServerError)
    ensures
        res.message@ == "Invalid user_agent_patterns: "@ + reason@,
{
    let mut message = "Invalid user_agent_patterns: ".to_owned();
    message.append(reason);
    ServerError { message }
}

/// What the outcome of a step means for the server: an error ends it, but for that of a flush.
pub fn step_result<E>(step: &StartupStep<'_>, outcome: Result<(), E>) -> (res: Result<(), E>)
    ensures
        res == if *step is FlushStores {
            Ok(())
        } else {
            outcome
        },
{
    match step {
        StartupStep::FlushStores => Ok(()),
        _ => outcome,
    }
}

/// The steps that set up the stores and what the endpoints share.
pub open spec fn store_steps<'a>(settings: &'a Settings) -> Seq<StartupStep<'a>> {
    seq![
        StartupStep::ConfigureTopology,
        StartupStep::ConfigureImmutableStore,
        StartupStep::ConfigureMutableStore,
        StartupStep::ConfigureLockStore,
    ] + optional(
        match authenticating(settings) {
            Some(auth) => Some(StartupStep::FetchKeys(auth)),
            None => None,
        },
    ) + optional(
        if settings.server.forwarded_requests {
            Some(StartupStep::ConnectForwarding)
        } else {
            None
        },
    ) + seq![StartupStep::ListenForTermination]
}

fn plan_stores<'a>(settings: &'a Settings) -> (res: Vec<StartupStep<'a>>)
    ensures
        res@ == store_steps(settings),
{
    let mut steps: Vec<StartupStep<'a>> = Vec::new();
    steps.push(StartupStep::ConfigureTopology);
    steps.push(StartupStep::ConfigureImmutableStore);
    steps.push(StartupStep::ConfigureMutableStore);
    steps.push(StartupStep::ConfigureLockStore);
    if let Some(auth) = find_authenticating(settings) {
        steps.push(StartupStep::FetchKeys(auth));
    }
    if settings.server.forwarded_requests {
        steps.push(StartupStep::ConnectForwarding);
    }
    steps.push(StartupStep::ListenForTermination);
    assert(steps@ =~= store_steps(settings));
    steps
}

/// The step for the internal gRPC endpoint.
pub open spec fn grpc_internal_step<'a>(settings: &'a Settings) -> Option<StartupStep<'a>> {
    match &settings.server.grpc_internal {
        Some(internal) => if internal.enabled {
            Some(
                match endpoints::endpoint_security(
                    internal.grpc.certificate,
                    internal.verify_client_certs,
                ) {
                    Ok(security) => StartupStep::LaunchGrpcInternal { settings: internal, security },
                    Err(fault) => StartupStep::Fail(
                        StartupFault::Insecure(InternalEndpoint::Grpc, fault),
                    ),
                },
            )
        } else {
            None
        },
        None => None,
    }
}

/// The steps that open the gRPC endpoints. In maintenance only the one that says so is opened.
pub open spec fn grpc_steps<'a>(settings: &'a Settings, context: StartupContext) -> Seq<
    StartupStep<'a>,
> {
    if context.maintenance {
        seq![StartupStep::LaunchMaintenanceGrpc]
    } else {
        seq![
            StartupStep::ConfigureNotification,
            StartupStep::CreateHooks,
            StartupStep::LaunchGrpc,
        ] + optional(grpc_internal_step(settings))
    }
}

fn plan_grpc<'a>(settings: &'a Settings, context: StartupContext) -> (res: Vec<StartupStep<'a>>)
    ensures
        res@ == grpc_steps(settings, context),
{
    let mut steps: Vec<StartupStep<'a>> = Vec::new();
    if context.maintenance {
        steps.push(StartupStep::LaunchMaintenanceGrpc);
        assert(steps@ =~= grpc_steps(settings, context));
        return steps;
    }
    steps.push(StartupStep::ConfigureNotification);
    steps.push(StartupStep::CreateHooks);
    steps.push(StartupStep::LaunchGrpc);
    if let Some(internal) = &settings.server.grpc_internal {
        if internal.enabled {
            steps.push(
                match endpoints::decide_endpoint_security(
                    internal.grpc.certificate.as_ref(),
                    internal.verify_client_certs,
                ) {
                    Ok(security) => StartupStep::LaunchGrpcInternal { settings: internal, security },
                    Err(fault) => StartupStep::Fail(
                        StartupFault::Insecure(InternalEndpoint::Grpc, fault),
                    ),
                },
            );
        }
    }
    assert(steps@ =~= grpc_steps(settings, context));
    steps
}

/// The step for the public QUIC endpoint, which is closed in maintenance.
pub open spec fn quic_step<'a>(settings: &'a Settings, context: StartupContext) -> Option<
    StartupStep<'a>,
> {
    match &settings.server.quic {
        Some(quic) => if quic.enabled && !context.maintenance {
            Some(
                StartupStep::LaunchQuic {
                    settings: quic,
                    process_limit: endpoints::set_or(
                        quic.connection_message_limit,
                        DEFAULT_PROCESS_LIMIT,
                    ),
                },
            )
        } else {
            None
        },
        None => None,
    }
}

/// The step for the internal QUIC endpoint.
pub open spec fn quic_internal_step<'a>(settings: &'a Settings, context: StartupContext) -> Option<
    StartupStep<'a>,
> {
    match &settings.server.quic_internal {
        Some(quic) => if quic.enabled {
            Some(
                match endpoints::endpoint_security(quic.certificate, quic.verify_client_certs) {
                    Ok(security) => StartupStep::LaunchQuicInternal {
                        settings: quic,
                        process_limit: endpoints::set_or(
                            quic.connection_message_limit,
                            context.internal_message_limit,
                        ),
                        security,
                    },
                    Err(fault) => StartupStep::Fail(
                        StartupFault::Insecure(InternalEndpoint::Quic, fault),
                    ),
                },
            )
        } else {
            None
        },
        None => None,
    }
}

/// The steps that open the QUIC endpoints.
pub open spec fn quic_steps<'a>(settings: &'a Settings, context: StartupContext) -> Seq<
    StartupStep<'a>,
> {
    optional(quic_step(settings, context)) + optional(quic_internal_step(settings, context))
}

fn plan_quic<'a>(settings: &'a Settings, context: StartupContext) -> (res: Vec<StartupStep<'a>>)
    ensures
        res@ == quic_steps(settings, context),
{
    let mut steps: Vec<StartupStep<'a>> = Vec::new();
    if let Some(quic) = &settings.server.quic {
        if quic.enabled && !context.maintenance {
            let process_limit: usize = match quic.connection_message_limit {
                Some(limit) => limit,
                None => DEFAULT_PROCESS_LIMIT,
            };
            steps.push(StartupStep::LaunchQuic { settings: quic, process_limit });
        }
    }
    if let Some(quic) = &settings.server.quic_internal {
        if quic.enabled {
            let process_limit: usize = match quic.connection_message_limit {
                Some(limit) => limit,
                None => context.internal_message_limit,
            };
            steps.push(
                match endpoints::decide_endpoint_security(
                    quic.certificate.as_ref(),
                    quic.verify_client_certs,
                ) {
                    Ok(security) => StartupStep::LaunchQuicInternal {
                        settings: quic,
                        process_limit,
                        security,
                    },
                    Err(fault) => StartupStep::Fail(
                        StartupFault::Insecure(InternalEndpoint::Quic, fault),
                    ),
                },
            );
        }
    }
    assert(steps@ =~= quic_steps(settings, context));
    steps
}

/// The step for the HTTP endpoint.
pub open spec fn http_step<'a>(settings: &'a Settings, context: StartupContext) -> Option<
    StartupStep<'a>,
> {
    match &settings.server.http {
        Some(http) => if !http.enabled {
            None
        } else if context.maintenance {
            Some(StartupStep::LaunchMaintenanceHttp(http))
        } else {
            Some(StartupStep::LaunchHttp(http))
        },
        None => None,
    }
}

/// The steps from the last endpoint to the end of the server.
pub open spec fn closing_steps<'a>(settings: &'a Settings, context: StartupContext) -> Seq<
    StartupStep<'a>,
> {
    optional(http_step(settings, context)) + seq![
        StartupStep::RefreshTopology,
        StartupStep::ReportMemory,
        StartupStep::ReportUp(true),
        StartupStep::WaitForShutdown {
            timeout_seconds: settings.server.connection_close_timeout_seconds as u64,
        },
        StartupStep::ReportUp(false),
        StartupStep::FlushStores,
    ]
}

fn plan_closing<'a>(settings: &'a Settings, context: StartupContext) -> (res: Vec<StartupStep<'a>>)
    ensures
        res@ == closing_steps(settings, context),
{
    let mut steps: Vec<StartupStep<'a>> = Vec::new();
    if let Some(http) = &settings.server.http {
        if http.enabled {
            steps.push(
                if context.maintenance {
                    StartupStep::LaunchMaintenanceHttp(http)
                } else {
                    StartupStep::LaunchHttp(http)
                },
            );
        }
    }
    steps.push(StartupStep::RefreshTopology);
    steps.push(StartupStep::ReportMemory);
    steps.push(StartupStep::ReportUp(true));
    steps.push(
        StartupStep::WaitForShutdown {
            timeout_seconds: settings.server.connection_close_timeout_seconds as u64,
        },
    );
    steps.push(StartupStep::ReportUp(false));
    steps.push(StartupStep::FlushStores);
    assert(steps@ =~= closing_steps(settings, context));
    steps
}

/// All that the server does, in its order.
pub open spec fn startup_steps<'a>(settings: &'a Settings, context: StartupContext) -> Seq<
    StartupStep<'a>,
> {
    followed_by(
        followed_by(
            followed_by(
                followed_by(opening_steps(settings, context), store_steps(settings)),
                grpc_steps(settings, context),
            ),
            quic_steps(settings, context),
        ),
        closing_steps(settings, context),
    )
}

/// Decides all that the server does. The steps are to be taken one after the other until one fails.
pub fn async_main<'a>(settings: &'a Settings, context: StartupContext) -> (res: Vec<
    StartupStep<'a>,
>)
    ensures
        res@ == startup_steps(settings, context),
{
    let mut steps = plan_opening(settings, context);
    follow(&mut steps, plan_stores(settings));
    follow(&mut steps, plan_grpc(settings, context));
    follow(&mut steps, plan_quic(settings, context));
    follow(&mut steps, plan_closing(settings, context));
    steps
}

/// All the steps have the property.
spec fn each<'a>(steps: Seq<StartupStep<'a>>, property: spec_fn(StartupStep<'a>) -> bool) -> bool {
    forall|i: int| 0 <= i < steps.len() ==> property(#[trigger] steps[i])
}

/// What holds of all steps of each stage holds of all steps.
proof fn lemma_each_step<'a>(
    settings: &'a Settings,
    context: StartupContext,
    property: spec_fn(StartupStep<'a>) -> bool,
)
    requires
        each(opening_steps(settings, context), property),
        each(store_steps(settings), property),
        each(grpc_steps(settings, context), property),
        each(quic_steps(settings, context), property),
        each(closing_steps(settings, context), property),
    ensures
        each(startup_steps(settings, context), property),
{
    let opening = opening_steps(settings, context);
    let stores = store_steps(settings);
    let grpc = grpc_steps(settings, context);
    let quic = quic_steps(settings, context);
    let closing = closing_steps(settings, context);
    lemma_each_of_both(opening, stores, property);
    let opened = followed_by(opening, stores);
    lemma_each_of_both(opened, grpc, property);
    let served = followed_by(opened, grpc);
    lemma_each_of_both(served, quic, property);
    lemma_each_of_both(followed_by(served, quic), closing, property);
}

/// What holds of all steps before and behind holds of all of them.
proof fn lemma_each_of_both<'a>(
    steps: Seq<StartupStep<'a>>,
    next: Seq<StartupStep<'a>>,
    property: spec_fn(StartupStep<'a>) -> bool,
)
    requires
        each(steps, property),
        each(next, property),
    ensures
        each(followed_by(steps, next), property),
        each(steps + next, property),
{
    assert forall|i: int| 0 <= i < (steps + next).len() implies property(
        #[trigger] (steps + next)[i],
    ) by {
        if i < steps.len() {
            assert((steps + next)[i] == steps[i]);
        } else {
            assert((steps + next)[i] == next[i - steps.len()]);
        }
    }
}

/// No step fails but the last.
spec fn fails_last(steps: Seq<StartupStep<'_>>) -> bool {
    forall|i: int| 0 <= i < steps.len() - 1 ==> !(#[trigger] steps[i] is Fail)
}

/// The stages keep failures at the end.
proof fn lemma_fails_last<'a>(steps: Seq<StartupStep<'a>>, next: Seq<StartupStep<'a>>)
    requires
        fails_last(steps),
        fails_last(next),
    ensures
        fails_last(followed_by(steps, next)),
{
    let all = followed_by(steps, next);
    if !fails(steps) {
        assert forall|i: int| 0 <= i < all.len() - 1 implies !(#[trigger] all[i] is Fail) by {
            if i < steps.len() {
                assert(all[i] == steps[i]);
                if i == steps.len() - 1 {
                    assert(steps.last() == steps[i]);
                }
            } else {
                assert(all[i] == next[i - steps.len()]);
            }
        }
    }
}

/// The step is none that a server in maintenance must not take.
pub open spec fn allowed_in_maintenance(step: StartupStep<'_>) -> bool {
    match step {
        StartupStep::LaunchGrpc
        | StartupStep::LaunchGrpcInternal { .. }
        | StartupStep::LaunchQuic { .. }
        | StartupStep::LaunchHttp(_)
        | StartupStep::ConfigureNotification
        | StartupStep::CreateHooks => false,
        _ => true,
    }
}

/// In maintenance neither the public endpoints nor the internal gRPC endpoint are opened: only
/// those that tell clients about the maintenance, and the internal QUIC endpoint where it is enabled.
pub proof fn law_maintenance_closes_the_server(settings: &Settings, context: StartupContext, i: int)
    requires
        context.maintenance,
        0 <= i < startup_steps(settings, context).len(),
    ensures
        allowed_in_maintenance(startup_steps(settings, context)[i]),
{
    let allowed = |step: StartupStep<'_>| allowed_in_maintenance(step);
    assert(each(opening_steps(settings, context), allowed));
    assert(each(store_steps(settings), allowed));
    assert(each(grpc_steps(settings, context), allowed));
    assert(each(quic_steps(settings, context), allowed));
    assert(each(closing_steps(settings, context), allowed));
    lemma_each_step(settings, context, allowed);
}

/// Where the step opens an internal endpoint, it does so on the terms that the settings of the
/// endpoint allow: with mutual TLS where clients are to be verified, and without it only where that
/// was switched off.
pub open spec fn opens_securely(step: StartupStep<'_>) -> bool {
    match step {
        StartupStep::LaunchGrpcInternal { settings, security } => if settings.verify_client_certs {
            &&& security == EndpointSecurity::Mtls
            &&& settings.grpc.certificate is Some
            &&& settings.grpc.certificate->0.cert_chain is Some
        } else {
            security == EndpointSecurity::Untrusted
        },
        StartupStep::LaunchQuicInternal { settings, security, .. } => if
        settings.verify_client_certs {
            &&& security == EndpointSecurity::Mtls
            &&& settings.certificate is Some
            &&& settings.certificate->0.cert_chain is Some
        } else {
            security == EndpointSecurity::Untrusted
        },
        _ => true,
    }
}

/// Every internal endpoint is opened on the terms that its settings allow.
pub proof fn law_internal_endpoints_are_secure(settings: &Settings, context: StartupContext, i: int)
    requires
        0 <= i < startup_steps(settings, context).len(),
    ensures
        opens_securely(startup_steps(settings, context)[i]),
{
    let secure = |step: StartupStep<'_>| opens_securely(step);
    assert(each(opening_steps(settings, context), secure));
    assert(each(store_steps(settings), secure));
    assert(each(grpc_steps(settings, context), secure));
    assert(each(quic_steps(settings, context), secure));
    assert(each(closing_steps(settings, context), secure));
    lemma_each_step(settings, context, secure);
}

/// A failure is the last step, and a server that starts without one ends by flushing its stores.
pub proof fn law_failures_end_the_start(settings: &Settings, context: StartupContext, i: int)
    requires
        0 <= i < startup_steps(settings, context).len(),
    ensures
        startup_steps(settings, context)[i] is Fail ==> i + 1 == startup_steps(
            settings,
            context,
        ).len(),
        startup_steps(settings, context).last() is Fail || startup_steps(settings, context).last()
            is FlushStores,
{
    let opening = opening_steps(settings, context);
    let stores = store_steps(settings);
    let grpc = grpc_steps(settings, context);
    let quic = quic_steps(settings, context);
    let closing = closing_steps(settings, context);
    assert(fails_last(opening));
    assert(fails_last(stores));
    assert(fails_last(grpc));
    assert(fails_last(quic));
    assert(fails_last(closing));
    lemma_fails_last(opening, stores);
    let opened = followed_by(opening, stores);
    lemma_fails_last(opened, grpc);
    let served = followed_by(opened, grpc);
    lemma_fails_last(served, quic);
    lemma_fails_last(followed_by(served, quic), closing);
    assert(closing.last() is FlushStores);
}

/// The step opens an endpoint.
pub open spec fn opens_endpoint(step: StartupStep<'_>) -> bool {
    match step {
        StartupStep::LaunchGrpc
        | StartupStep::LaunchGrpcInternal { .. }
        | StartupStep::LaunchMaintenanceGrpc
        | StartupStep::LaunchQuic { .. }
        | StartupStep::LaunchQuicInternal { .. }
        | StartupStep::LaunchHttp(_)
        | StartupStep::LaunchMaintenanceHttp(_) => true,
        _ => false,
    }
}

/// What comes before the endpoints is the beginning of the start, whether or not it goes on.
proof fn lemma_stores_come_first<'a>(settings: &'a Settings, context: StartupContext)
    ensures
        ({
            let first = followed_by(opening_steps(settings, context), store_steps(settings));
            &&& first.is_prefix_of(startup_steps(settings, context))
            &&& fails(first) ==> startup_steps(settings, context) == first
        }),
{
    let first = followed_by(opening_steps(settings, context), store_steps(settings));
    let second = followed_by(first, grpc_steps(settings, context));
    let third = followed_by(second, quic_steps(settings, context));
    let all = followed_by(third, closing_steps(settings, context));
    assert(all == startup_steps(settings, context));
    assert(first =~= second.take(first.len() as int));
    assert(second =~= third.take(second.len() as int));
    assert(third =~= all.take(third.len() as int));
    assert(first =~= all.take(first.len() as int));
    assert(first =~= all.subrange(0, first.len() as int));
}

/// Where callers have to authenticate, no endpoint is opened before the keys to verify them with
/// have been fetched; and none at all is opened before there are stores.
pub proof fn law_keys_and_stores_before_endpoints(
    settings: &Settings,
    context: StartupContext,
    i: int,
)
    requires
        0 <= i < startup_steps(settings, context).len(),
        opens_endpoint(startup_steps(settings, context)[i]),
    ensures
        authenticating(settings) matches Some(auth) ==> exists|j: int|
            0 <= j < i && #[trigger] startup_steps(settings, context)[j] == (
            StartupStep::FetchKeys(auth)),
        exists|j: int|
            0 <= j < i && #[trigger] startup_steps(settings, context)[j] is ConfigureImmutableStore,
        exists|j: int|
            0 <= j < i && #[trigger] startup_steps(settings, context)[j] is ConfigureMutableStore,
{
    let all = startup_steps(settings, context);
    let opening = opening_steps(settings, context);
    let stores = store_steps(settings);
    let first = followed_by(opening, stores);
    lemma_stores_come_first(settings, context);
    if i < first.len() {
        assert(all[i] == first[i]);
        lemma_stores_open_nothing(settings, context, i);
    }
    assert(!fails(first)) by {
        if fails(first) {
            assert(all == first);
        }
    }
    assert(!fails(opening)) by {
        if fails(opening) {
            assert(first == opening);
        }
    }
    let n = opening.len() as int;
    assert(first =~= opening + stores);
    assert(stores[1] is ConfigureImmutableStore);
    assert(stores[2] is ConfigureMutableStore);
    assert(all[n + 1] == first[n + 1] && first[n + 1] == stores[1]);
    assert(all[n + 2] == first[n + 2] && first[n + 2] == stores[2]);
    if let Some(auth) = authenticating(settings) {
        assert(stores[4] == StartupStep::FetchKeys(auth));
        assert(all[n + 4] == first[n + 4] && first[n + 4] == stores[4]);
    }
}

/// From some step on, all have the property.
spec fn each_from<'a>(
    steps: Seq<StartupStep<'a>>,
    start: int,
    property: spec_fn(StartupStep<'a>) -> bool,
) -> bool {
    forall|i: int| start <= i < steps.len() ==> property(#[trigger] steps[i])
}

/// What holds of all steps from some step on still does when others follow of which it holds too.
proof fn lemma_each_goes_on<'a>(
    steps: Seq<StartupStep<'a>>,
    next: Seq<StartupStep<'a>>,
    start: int,
    property: spec_fn(StartupStep<'a>) -> bool,
)
    requires
        0 <= start <= steps.len(),
        each_from(steps, start, property),
        each(next, property),
    ensures
        each_from(followed_by(steps, next), start, property),
{
    let all = followed_by(steps, next);
    assert forall|i: int| start <= i < all.len() implies property(#[trigger] all[i]) by {
        if i < steps.len() {
            assert(all[i] == steps[i]);
        } else {
            assert(all[i] == next[i - steps.len()]);
        }
    }
}

/// Keys are fetched before the stage that opens the gRPC endpoints.
proof fn lemma_keys_come_first(settings: &Settings, context: StartupContext, j: int)
    requires
        0 <= j < startup_steps(settings, context).len(),
        startup_steps(settings, context)[j] is FetchKeys,
    ensures
        j < followed_by(opening_steps(settings, context), store_steps(settings)).len(),
{
    let grpc = grpc_steps(settings, context);
    let quic = quic_steps(settings, context);
    let closing = closing_steps(settings, context);
    let first = followed_by(opening_steps(settings, context), store_steps(settings));
    let n = first.len() as int;
    let other = |step: StartupStep<'_>| !(step is FetchKeys);
    assert(each(grpc, other));
    assert(each(quic, other));
    assert(each(closing, other));
    assert(each_from(first, n, other));
    lemma_each_goes_on(first, grpc, n, other);
    let second = followed_by(first, grpc);
    lemma_each_goes_on(second, quic, n, other);
    let third = followed_by(second, quic);
    lemma_each_goes_on(third, closing, n, other);
    let all = followed_by(third, closing);
    assert(all == startup_steps(settings, context));
    if n <= j {
        assert(other(all[j]));
    }
}

/// Before the stage that opens the gRPC endpoints, no endpoint is opened.
proof fn lemma_stores_open_nothing(settings: &Settings, context: StartupContext, i: int)
    requires
        0 <= i < followed_by(opening_steps(settings, context), store_steps(settings)).len(),
    ensures
        !opens_endpoint(
            followed_by(opening_steps(settings, context), store_steps(settings))[i],
        ),
{
    let opening = opening_steps(settings, context);
    let stores = store_steps(settings);
    let closed = |step: StartupStep<'_>| !opens_endpoint(step);
    assert(each(opening, closed));
    assert(each(stores, closed));
    lemma_each_of_both(opening, stores, closed);
    assert(closed(followed_by(opening, stores)[i]));
}

/// Up to the step that fetches the keys no endpoint is opened: a server that cannot fetch them ends
/// without having opened any.
pub proof fn law_without_keys_nothing_is_opened(
    settings: &Settings,
    context: StartupContext,
    i: int,
    j: int,
)
    requires
        0 <= i <= j < startup_steps(settings, context).len(),
        startup_steps(settings, context)[j] is FetchKeys,
    ensures
        !opens_endpoint(startup_steps(settings, context)[i]),
{
    lemma_keys_come_first(settings, context, j);
    lemma_stores_come_first(settings, context);
    lemma_stores_open_nothing(settings, context, i);
}

/// The plugins are registered before the telemetry is set up, which is what lets them contribute to
/// it; nothing but the filter of user agents comes before them.
pub proof fn law_plugins_before_telemetry(settings: &Settings, context: StartupContext)
    ensures
        startup_steps(settings, context).len() > 2,
        startup_steps(settings, context)[1] is RegisterPlugins,
        startup_steps(settings, context)[2] is InitTelemetry,
{
}

} // verus!
