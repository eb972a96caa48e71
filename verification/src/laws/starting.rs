//! What holds of every start of the server, stated of the calls that decide on it: which steps it
//! takes, how often and in which order.
use crate::endpoints::{EndpointSecurity, SecurityFault, ServerError};
use crate::jwt_interceptor::JwtVerifier;
use crate::laws::{requests, storage};
use crate::seeding::SeedingFault;
use crate::settings::{AuthSettings, CertificateSettings, Settings};
use crate::startup::{
    self, InternalEndpoint, StartupContext, StartupFault, StartupStep,
};
use vstd::prelude::*;

verus! {

/// Servers can connect to an endpoint with this certificate on these terms: with mutual TLS where
/// there is an authority to verify them by, and with none where they need not be verified.
pub open spec fn is_secured(
    certificate: Option<CertificateSettings>,
    verify_client_certs: bool,
    security: EndpointSecurity,
) -> bool {
    match security {
        EndpointSecurity::Mtls => verify_client_certs && certificate is Some
            && certificate->0.cert_chain is Some,
        EndpointSecurity::Untrusted => !verify_client_certs,
    }
}

/// Servers are to be verified at an endpoint with this certificate but cannot be.
pub open spec fn is_insecure(
    certificate: Option<CertificateSettings>,
    verify_client_certs: bool,
    fault: SecurityFault,
) -> bool {
    match fault {
        SecurityFault::Missing => verify_client_certs && certificate is None,
        SecurityFault::PartiallyConfigured => verify_client_certs && certificate is Some
            && certificate->0.cert_chain is None,
    }
}

/// The settings ask for the step.
pub open spec fn is_due(settings: Settings, context: StartupContext, step: StartupStep<'_>) -> bool {
    match step {
        StartupStep::LogBaseAddress => context.has_memory_map,
        StartupStep::SampleRuntimeMetrics { interval_millis } => interval_millis
            == settings.metrics_export_interval_millis,
        StartupStep::SetCompressionMode(mode) => {
            &&& settings.environment is Some
            &&& settings.environment->0.config is Some
            &&& settings.environment->0.config->0.compression_mode == Some(mode)
        },
        StartupStep::SeedLocalStore(local) => {
            &&& context.seeding
            &&& {
                ||| settings.immutable_store.mode@ == "local"@ && settings.immutable_store.local
                    == Some(*local)
                ||| settings.immutable_store.mode@ == "composite"@
                    && settings.immutable_store.composite is Some
                    && settings.immutable_store.composite->0.local.local == Some(*local)
            }
        },
        StartupStep::FetchKeys(auth) => settings.server.auth == Some(*auth) && auth.jwk is Some,
        StartupStep::ConnectForwarding => settings.server.forwarded_requests,
        StartupStep::ConfigureNotification
        | StartupStep::CreateHooks
        | StartupStep::LaunchGrpc => !context.maintenance,
        StartupStep::LaunchMaintenanceGrpc => context.maintenance,
        StartupStep::LaunchGrpcInternal { settings: internal, security } => {
            &&& !context.maintenance
            &&& settings.server.grpc_internal == Some(*internal)
            &&& internal.enabled
            &&& is_secured(internal.grpc.certificate, internal.verify_client_certs, security)
        },
        StartupStep::LaunchQuic { settings: quic, process_limit } => {
            &&& !context.maintenance
            &&& settings.server.quic == Some(*quic)
            &&& quic.enabled
            &&& process_limit == storage::chosen(quic.connection_message_limit, 500)
        },
        StartupStep::LaunchQuicInternal { settings: quic, process_limit, security } => {
            &&& settings.server.quic_internal == Some(*quic)
            &&& quic.enabled
            &&& process_limit == storage::chosen(
                quic.connection_message_limit,
                context.internal_message_limit,
            )
            &&& is_secured(quic.certificate, quic.verify_client_certs, security)
        },
        StartupStep::LaunchHttp(http) => !context.maintenance && settings.server.http == Some(*http)
            && http.enabled,
        StartupStep::LaunchMaintenanceHttp(http) => context.maintenance && settings.server.http
            == Some(*http) && http.enabled,
        StartupStep::WaitForShutdown { timeout_seconds } => timeout_seconds
            == settings.server.connection_close_timeout_seconds,
        StartupStep::Fail(StartupFault::Seeding(fault)) => context.seeding && is_unseedable(
            settings,
            fault,
        ),
        StartupStep::Fail(StartupFault::Insecure(InternalEndpoint::Grpc, fault)) => {
            &&& !context.maintenance
            &&& settings.server.grpc_internal is Some
            &&& settings.server.grpc_internal->0.enabled
            &&& is_insecure(
                settings.server.grpc_internal->0.grpc.certificate,
                settings.server.grpc_internal->0.verify_client_certs,
                fault,
            )
        },
        StartupStep::Fail(StartupFault::Insecure(InternalEndpoint::Quic, fault)) => {
            &&& settings.server.quic_internal is Some
            &&& settings.server.quic_internal->0.enabled
            &&& is_insecure(
                settings.server.quic_internal->0.certificate,
                settings.server.quic_internal->0.verify_client_certs,
                fault,
            )
        },
        _ => true,
    }
}

/// There is no local store to seed.
pub open spec fn is_unseedable(settings: Settings, fault: SeedingFault) -> bool {
    match fault {
        SeedingFault::MissingLocal => settings.immutable_store.mode@ == "local"@
            && settings.immutable_store.local is None,
        SeedingFault::MissingComposite => settings.immutable_store.mode@ == "composite"@ && (
        settings.immutable_store.composite is None
            || settings.immutable_store.composite->0.local.local is None),
        SeedingFault::NoLocalStore => settings.immutable_store.mode@ != "local"@
            && settings.immutable_store.mode@ != "composite"@,
        SeedingFault::MissingMaxSize => false,
    }
}

/// Which step comes before which. Steps of which only one can be taken have the same rank.
pub open spec fn rank(step: StartupStep<'_>) -> int {
    match step {
        StartupStep::CompileUserAgentFilter => 0,
        StartupStep::RegisterPlugins => 1,
        StartupStep::InitTelemetry => 2,
        StartupStep::ObserveTasks => 3,
        StartupStep::ReportUp(false) => 4,
        StartupStep::LogBaseAddress => 5,
        StartupStep::IsolateLocalStore => 6,
        StartupStep::SampleRuntimeMetrics { .. } => 7,
        StartupStep::SetCompressionMode(_) => 8,
        StartupStep::SeedLocalStore(_) => 9,
        StartupStep::Fail(StartupFault::Seeding(_)) => 9,
        StartupStep::ConfigureTopology => 10,
        StartupStep::ConfigureImmutableStore => 11,
        StartupStep::ConfigureMutableStore => 12,
        StartupStep::ConfigureLockStore => 13,
        StartupStep::FetchKeys(_) => 14,
        StartupStep::ConnectForwarding => 15,
        StartupStep::ListenForTermination => 16,
        StartupStep::ConfigureNotification => 17,
        StartupStep::CreateHooks => 18,
        StartupStep::LaunchGrpc => 19,
        StartupStep::LaunchMaintenanceGrpc => 19,
        StartupStep::LaunchGrpcInternal { .. } => 20,
        StartupStep::Fail(StartupFault::Insecure(InternalEndpoint::Grpc, _)) => 20,
        StartupStep::LaunchQuic { .. } => 21,
        StartupStep::LaunchQuicInternal { .. } => 22,
        StartupStep::Fail(StartupFault::Insecure(InternalEndpoint::Quic, _)) => 22,
        StartupStep::LaunchHttp(_) => 23,
        StartupStep::LaunchMaintenanceHttp(_) => 23,
        StartupStep::RefreshTopology => 24,
        StartupStep::ReportMemory => 25,
        StartupStep::ReportUp(true) => 26,
        StartupStep::WaitForShutdown { .. } => 27,
        StartupStep::FlushStores => 28,
    }
}

/// A failure that the settings make certain comes before the step.
pub open spec fn is_cut_off(settings: Settings, context: StartupContext, step: StartupStep<'_>) -> bool {
    ||| exists|fault: SeedingFault| #[trigger]
        is_due(settings, context, StartupStep::Fail(StartupFault::Seeding(fault))) && rank(step) > 9
    ||| exists|fault: SecurityFault| #[trigger]
        is_due(
            settings,
            context,
            StartupStep::Fail(StartupFault::Insecure(InternalEndpoint::Grpc, fault)),
        ) && rank(step) > 20
    ||| exists|fault: SecurityFault| #[trigger]
        is_due(
            settings,
            context,
            StartupStep::Fail(StartupFault::Insecure(InternalEndpoint::Quic, fault)),
        ) && rank(step) > 22
}

/// The server is reported to be down.
pub open spec fn reports_down(step: StartupStep<'_>) -> bool {
    step == StartupStep::ReportUp(false)
}

/// The ranks of the steps rise, but for the reports that the server is down, and lie within bounds.
spec fn is_ranked(steps: Seq<StartupStep<'_>>, low: int, high: int) -> bool {
    &&& forall|i: int|
        0 <= i < steps.len() && !reports_down(steps[i]) ==> low <= rank(#[trigger] steps[i]) < high
    &&& forall|i: int, j: int|
        0 <= i < j < steps.len() && !reports_down(steps[i]) && !reports_down(steps[j]) ==> rank(
            #[trigger] steps[i],
        ) < rank(#[trigger] steps[j])
}

proof fn lemma_ranked_both<'a>(
    first: Seq<StartupStep<'a>>,
    next: Seq<StartupStep<'a>>,
    low: int,
    mid: int,
    high: int,
)
    requires
        is_ranked(first, low, mid),
        is_ranked(next, mid, high),
        low <= mid <= high,
    ensures
        is_ranked(first + next, low, high),
        is_ranked(startup::followed_by(first, next), low, high),
{
    let all = first + next;
    assert forall|i: int| 0 <= i < all.len() && !reports_down(all[i]) implies low <= rank(
        #[trigger] all[i],
    ) < high by {
        if i < first.len() {
            assert(all[i] == first[i]);
        } else {
            assert(all[i] == next[i - first.len()]);
        }
    }
    assert forall|i: int, j: int|
        0 <= i < j < all.len() && !reports_down(all[i]) && !reports_down(all[j]) implies rank(
        #[trigger] all[i],
    ) < rank(#[trigger] all[j]) by {
        if i < first.len() {
            assert(all[i] == first[i]);
        } else {
            assert(all[i] == next[i - first.len()]);
        }
        if j < first.len() {
            assert(all[j] == first[j]);
        } else {
            assert(all[j] == next[j - first.len()]);
        }
    }
}

/// The steps of each stage have ranks of their own.
proof fn lemma_ranked_stages<'a>(settings: &'a Settings, context: StartupContext)
    ensures
        is_ranked(startup::opening_steps(settings, context), 0, 10),
        is_ranked(startup::store_steps(settings), 10, 17),
        is_ranked(startup::grpc_steps(settings, context), 17, 21),
        is_ranked(startup::quic_steps(settings, context), 21, 23),
        is_ranked(startup::closing_steps(settings, context), 23, 29),
{
}

/// The steps of a start are ranked.
proof fn lemma_ranked<'a>(settings: &'a Settings, context: StartupContext)
    ensures
        is_ranked(startup::startup_steps(settings, context), 0, 29),
{
    lemma_ranked_stages(settings, context);
    let opening = startup::opening_steps(settings, context);
    let stores = startup::store_steps(settings);
    let grpc = startup::grpc_steps(settings, context);
    let quic = startup::quic_steps(settings, context);
    let closing = startup::closing_steps(settings, context);
    lemma_ranked_both(opening, stores, 0, 10, 17);
    let opened = startup::followed_by(opening, stores);
    lemma_ranked_both(opened, grpc, 0, 17, 21);
    let served = startup::followed_by(opened, grpc);
    lemma_ranked_both(served, quic, 0, 21, 23);
    lemma_ranked_both(startup::followed_by(served, quic), closing, 0, 23, 29);
}

/// The steps of a start come in a fixed order, and none comes twice but the report that the server is
/// down.
pub proof fn law_a_start_keeps_its_order<'a>(
    settings: &'a Settings,
    context: StartupContext,
    res: Vec<StartupStep<'a>>,
    i: int,
    j: int,
)
    requires
        call_ensures(startup::async_main, (settings, context), res),
        0 <= i < j < res@.len(),
        !reports_down(res@[i]),
        !reports_down(res@[j]),
    ensures
        rank(res@[i]) < rank(res@[j]),
{
    lemma_ranked(settings, context);
}

/// All the steps are due.
spec fn are_due(steps: Seq<StartupStep<'_>>, settings: Settings, context: StartupContext) -> bool {
    forall|i: int| 0 <= i < steps.len() ==> is_due(settings, context, #[trigger] steps[i])
}

proof fn lemma_due_both<'a>(
    first: Seq<StartupStep<'a>>,
    next: Seq<StartupStep<'a>>,
    settings: Settings,
    context: StartupContext,
)
    requires
        are_due(first, settings, context),
        are_due(next, settings, context),
    ensures
        are_due(startup::followed_by(first, next), settings, context),
{
    let all = startup::followed_by(first, next);
    assert forall|i: int| 0 <= i < all.len() implies is_due(
        settings,
        context,
        #[trigger] all[i],
    ) by {
        if i < first.len() {
            assert(all[i] == first[i]);
        } else {
            assert(all[i] == next[i - first.len()]);
        }
    }
}

/// The steps of each stage are due.
proof fn lemma_due_stages<'a>(settings: &'a Settings, context: StartupContext)
    ensures
        are_due(startup::opening_steps(settings, context), *settings, context),
        are_due(startup::store_steps(settings), *settings, context),
        are_due(startup::grpc_steps(settings, context), *settings, context),
        are_due(startup::quic_steps(settings, context), *settings, context),
        are_due(startup::closing_steps(settings, context), *settings, context),
{
    storage::lemma_modes_differ();
}

/// What is due in the first stage is taken there.
proof fn lemma_opening_has<'a>(
    settings: &'a Settings,
    context: StartupContext,
    step: StartupStep<'a>,
)
    requires
        is_due(*settings, context, step),
        rank(step) < 10,
    ensures
        startup::opening_steps(settings, context).contains(step),
{
    storage::lemma_modes_differ();
    let steps = startup::opening_steps(settings, context);
    let mapped: int = if context.has_memory_map {
        1
    } else {
        0
    };
    let compressed: int = if startup::compression_mode(*settings) is Some {
        1
    } else {
        0
    };
    assert(steps[0] is CompileUserAgentFilter);
    assert(steps[1] is RegisterPlugins);
    assert(steps[2] is InitTelemetry);
    assert(steps[3] is ObserveTasks);
    assert(steps[4] == StartupStep::ReportUp(false));
    assert(context.has_memory_map ==> steps[5] is LogBaseAddress);
    assert(steps[5 + mapped] is IsolateLocalStore);
    assert(steps[6 + mapped] is SampleRuntimeMetrics);
    if step is SetCompressionMode {
        assert(steps[7 + mapped] == step);
    }
    if step is SeedLocalStore || step is Fail {
        assert(steps[7 + mapped + compressed] == step);
    }
}

/// What is due in the stage of the stores is taken there.
proof fn lemma_stores_have<'a>(
    settings: &'a Settings,
    context: StartupContext,
    step: StartupStep<'a>,
)
    requires
        is_due(*settings, context, step),
        10 <= rank(step) < 17,
    ensures
        startup::store_steps(settings).contains(step),
{
    let steps = startup::store_steps(settings);
    let fetched: int = if startup::authenticating(settings) is Some {
        1
    } else {
        0
    };
    let forwarded: int = if settings.server.forwarded_requests {
        1
    } else {
        0
    };
    assert(steps[0] is ConfigureTopology);
    assert(steps[1] is ConfigureImmutableStore);
    assert(steps[2] is ConfigureMutableStore);
    assert(steps[3] is ConfigureLockStore);
    if step is FetchKeys {
        assert(steps[4] == step);
    }
    if step is ConnectForwarding {
        assert(steps[4 + fetched] == step);
    }
    assert(steps[4 + fetched + forwarded] is ListenForTermination);
}

/// What is due in the stages of the endpoints is taken there.
proof fn lemma_endpoints_have<'a>(
    settings: &'a Settings,
    context: StartupContext,
    step: StartupStep<'a>,
)
    requires
        is_due(*settings, context, step),
        17 <= rank(step) < 23,
    ensures
        rank(step) < 21 ==> startup::grpc_steps(settings, context).contains(step),
        rank(step) >= 21 ==> startup::quic_steps(settings, context).contains(step),
{
    let grpc = startup::grpc_steps(settings, context);
    let quic = startup::quic_steps(settings, context);
    if rank(step) < 21 {
        if context.maintenance {
            assert(grpc[0] is LaunchMaintenanceGrpc);
        } else {
            assert(grpc[0] is ConfigureNotification);
            assert(grpc[1] is CreateHooks);
            assert(grpc[2] is LaunchGrpc);
            if rank(step) == 20 {
                assert(grpc[3] == step);
            }
        }
    } else if rank(step) == 21 {
        assert(quic[0] == step);
    } else {
        let public: int = if startup::quic_step(settings, context) is Some {
            1
        } else {
            0
        };
        assert(quic[public] == step);
    }
}

/// What is due in the last stage is taken there.
proof fn lemma_closing_has<'a>(
    settings: &'a Settings,
    context: StartupContext,
    step: StartupStep<'a>,
)
    requires
        is_due(*settings, context, step),
        23 <= rank(step),
    ensures
        startup::closing_steps(settings, context).contains(step),
{
    let steps = startup::closing_steps(settings, context);
    let http: int = if startup::http_step(settings, context) is Some {
        1
    } else {
        0
    };
    if rank(step) == 23 {
        assert(steps[0] == step);
    }
    assert(steps[http] is RefreshTopology);
    assert(steps[http + 1] is ReportMemory);
    assert(steps[http + 2] == StartupStep::ReportUp(true));
    assert(steps[http + 3] is WaitForShutdown);
    assert(steps[http + 5] is FlushStores);
}

proof fn lemma_has_both<'a>(
    first: Seq<StartupStep<'a>>,
    next: Seq<StartupStep<'a>>,
    step: StartupStep<'a>,
)
    ensures
        first.contains(step) ==> startup::followed_by(first, next).contains(step),
        next.contains(step) && !startup::fails(first) ==> startup::followed_by(
            first,
            next,
        ).contains(step),
{
    let all = startup::followed_by(first, next);
    if first.contains(step) {
        let i = choose|i: int| 0 <= i < first.len() && first[i] == step;
        assert(all[i] == step);
    }
    if next.contains(step) && !startup::fails(first) {
        let i = choose|i: int| 0 <= i < next.len() && next[i] == step;
        assert(all[i + first.len()] == step);
    }
}

/// Steps that fail do so for a reason that lies within their ranks.
proof fn lemma_failure_is_due<'a>(
    steps: Seq<StartupStep<'a>>,
    settings: &'a Settings,
    context: StartupContext,
    high: int,
    step: StartupStep<'a>,
)
    requires
        is_ranked(steps, 0, high),
        are_due(steps, *settings, context),
        startup::fails(steps),
        high == 10 || high == 17 || high == 21 || high == 23,
        rank(step) >= high,
    ensures
        is_cut_off(*settings, context, step),
{
    let last = steps[steps.len() - 1];
    assert(is_due(*settings, context, last));
    assert(!reports_down(last));
    assert(rank(last) < high);
}

/// The start takes every step that is due and not cut off.
proof fn lemma_start_has<'a>(settings: &'a Settings, context: StartupContext, step: StartupStep<'a>)
    requires
        is_due(*settings, context, step),
        !is_cut_off(*settings, context, step),
    ensures
        startup::startup_steps(settings, context).contains(step),
{
    lemma_ranked_stages(settings, context);
    lemma_due_stages(settings, context);
    let opening = startup::opening_steps(settings, context);
    let stores = startup::store_steps(settings);
    let grpc = startup::grpc_steps(settings, context);
    let quic = startup::quic_steps(settings, context);
    let closing = startup::closing_steps(settings, context);
    let opened = startup::followed_by(opening, stores);
    let served = startup::followed_by(opened, grpc);
    let connected = startup::followed_by(served, quic);
    lemma_ranked_both(opening, stores, 0, 10, 17);
    lemma_ranked_both(opened, grpc, 0, 17, 21);
    lemma_ranked_both(served, quic, 0, 21, 23);
    lemma_due_both(opening, stores, *settings, context);
    lemma_due_both(opened, grpc, *settings, context);
    lemma_due_both(served, quic, *settings, context);
    lemma_has_both(opening, stores, step);
    lemma_has_both(opened, grpc, step);
    lemma_has_both(served, quic, step);
    lemma_has_both(connected, closing, step);
    if rank(step) < 10 {
        lemma_opening_has(settings, context, step);
    } else if rank(step) < 17 {
        lemma_stores_have(settings, context, step);
        if startup::fails(opening) {
            lemma_failure_is_due(opening, settings, context, 10, step);
        }
    } else if rank(step) < 23 {
        lemma_endpoints_have(settings, context, step);
        if rank(step) < 21 {
            if startup::fails(opened) {
                lemma_failure_is_due(opened, settings, context, 17, step);
            }
        } else if startup::fails(served) {
            lemma_failure_is_due(served, settings, context, 21, step);
        }
    } else {
        lemma_closing_has(settings, context, step);
        if startup::fails(connected) {
            lemma_failure_is_due(connected, settings, context, 23, step);
        }
    }
}

/// All steps of the start are due.
proof fn lemma_start_is_due<'a>(settings: &'a Settings, context: StartupContext)
    ensures
        are_due(startup::startup_steps(settings, context), *settings, context),
{
    lemma_due_stages(settings, context);
    let opening = startup::opening_steps(settings, context);
    let stores = startup::store_steps(settings);
    let grpc = startup::grpc_steps(settings, context);
    let quic = startup::quic_steps(settings, context);
    let opened = startup::followed_by(opening, stores);
    let served = startup::followed_by(opened, grpc);
    lemma_due_both(opening, stores, *settings, context);
    lemma_due_both(opened, grpc, *settings, context);
    lemma_due_both(served, quic, *settings, context);
    lemma_due_both(
        startup::followed_by(served, quic),
        startup::closing_steps(settings, context),
        *settings,
        context,
    );
}

/// A failure that is due and not cut off cuts off all that would come behind it.
proof fn lemma_failure_comes_last<'a>(
    settings: &'a Settings,
    context: StartupContext,
    step: StartupStep<'a>,
    fault: StartupFault,
)
    requires
        startup::startup_steps(settings, context).contains(step),
        !reports_down(step),
        is_due(*settings, context, StartupStep::Fail(fault)),
        !is_cut_off(*settings, context, StartupStep::Fail(fault)),
    ensures
        rank(step) <= rank(StartupStep::Fail(fault)),
{
    let all = startup::startup_steps(settings, context);
    let failure = StartupStep::<'a>::Fail(fault);
    lemma_start_has(settings, context, failure);
    lemma_ranked(settings, context);
    let i = choose|i: int| 0 <= i < all.len() && all[i] == step;
    let j = choose|j: int| 0 <= j < all.len() && all[j] == failure;
    startup::law_failures_end_the_start(settings, context, j);
    if i < j {
        assert(rank(all[i]) < rank(all[j]));
    }
}

/// A start takes a step exactly where the settings ask for it and no failure that they make certain
/// comes before it.
pub proof fn law_a_start_takes_what_is_due<'a>(
    settings: &'a Settings,
    context: StartupContext,
    res: Vec<StartupStep<'a>>,
    step: StartupStep<'a>,
)
    requires
        call_ensures(startup::async_main, (settings, context), res),
    ensures
        res@.contains(step) <==> is_due(*settings, context, step) && !is_cut_off(
            *settings,
            context,
            step,
        ),
{
    if is_due(*settings, context, step) && !is_cut_off(*settings, context, step) {
        lemma_start_has(settings, context, step);
    }
    if res@.contains(step) {
        lemma_start_is_due(settings, context);
        let i = choose|i: int| 0 <= i < res@.len() && res@[i] == step;
        assert(is_due(*settings, context, res@[i]));
        if is_cut_off(*settings, context, step) {
            if exists|fault: SeedingFault| #[trigger]
                is_due(*settings, context, StartupStep::Fail(StartupFault::Seeding(fault))) {
                let fault = choose|fault: SeedingFault| #[trigger]
                    is_due(*settings, context, StartupStep::Fail(StartupFault::Seeding(fault)));
                lemma_failure_comes_last(settings, context, step, StartupFault::Seeding(fault));
            } else if exists|fault: SecurityFault| #[trigger]
                is_due(
                    *settings,
                    context,
                    StartupStep::Fail(StartupFault::Insecure(InternalEndpoint::Grpc, fault)),
                ) && rank(step) > 20 {
                let fault = choose|fault: SecurityFault| #[trigger]
                    is_due(
                        *settings,
                        context,
                        StartupStep::Fail(StartupFault::Insecure(InternalEndpoint::Grpc, fault)),
                    ) && rank(step) > 20;
                lemma_failure_comes_last(
                    settings,
                    context,
                    step,
                    StartupFault::Insecure(InternalEndpoint::Grpc, fault),
                );
            } else {
                let fault = choose|fault: SecurityFault| #[trigger]
                    is_due(
                        *settings,
                        context,
                        StartupStep::Fail(StartupFault::Insecure(InternalEndpoint::Quic, fault)),
                    ) && rank(step) > 22;
                lemma_failure_comes_last(
                    settings,
                    context,
                    step,
                    StartupFault::Insecure(InternalEndpoint::Quic, fault),
                );
            }
        }
    }
}

/// The failure in which the steps end is the only one.
pub open spec fn ends_in_failure(steps: Seq<StartupStep<'_>>) -> bool {
    steps.len() > 0 && steps[steps.len() - 1] is Fail
}

/// The first stage reports the server to be down as its fifth step and not again.
proof fn lemma_down_at_first<'a>(settings: &'a Settings, context: StartupContext)
    ensures
        ({
            let opening = startup::opening_steps(settings, context);
            &&& opening.len() > 4
            &&& reports_down(opening[4])
            &&& forall|i: int| 0 <= i < opening.len() && reports_down(#[trigger] opening[i]) ==> i
                == 4
        }),
{
}

/// The last stage ends with the report that the server is down and the flush of the stores.
proof fn lemma_down_at_last<'a>(settings: &'a Settings, context: StartupContext)
    ensures
        ({
            let closing = startup::closing_steps(settings, context);
            &&& closing.len() >= 6
            &&& reports_down(closing[closing.len() - 2])
            &&& closing[closing.len() - 1] is FlushStores
            &&& forall|i: int| 0 <= i < closing.len() && reports_down(#[trigger] closing[i]) ==> i
                == closing.len() - 2
        }),
{
}

/// The server is reported to be down once its tasks are observed, before anything else happens, and
/// once more before its stores are flushed, which is the last thing that happens. In between it is
/// not, and a start that fails reports it only once.
pub proof fn law_a_server_is_down_at_both_ends<'a>(
    settings: &'a Settings,
    context: StartupContext,
    res: Vec<StartupStep<'a>>,
)
    requires
        call_ensures(startup::async_main, (settings, context), res),
    ensures
        res@.len() > 4,
        res@[4] == StartupStep::ReportUp(false),
        ends_in_failure(res@) ==> forall|i: int|
            0 <= i < res@.len() && #[trigger] res@[i] == StartupStep::ReportUp(false) ==> i == 4,
        !ends_in_failure(res@) ==> {
            &&& res@.len() > 6
            &&& res@[res@.len() - 1] == StartupStep::FlushStores
            &&& res@[res@.len() - 2] == StartupStep::ReportUp(false)
            &&& forall|i: int|
                0 <= i < res@.len() && #[trigger] res@[i] == StartupStep::ReportUp(false) ==> i == 4
                    || i == res@.len() - 2
        },
{
    lemma_down_at_first(settings, context);
    lemma_down_at_last(settings, context);
    let opening = startup::opening_steps(settings, context);
    let stores = startup::store_steps(settings);
    let grpc = startup::grpc_steps(settings, context);
    let quic = startup::quic_steps(settings, context);
    let closing = startup::closing_steps(settings, context);
    let opened = startup::followed_by(opening, stores);
    let served = startup::followed_by(opened, grpc);
    let connected = startup::followed_by(served, quic);
    assert(forall|i: int| 0 <= i < stores.len() ==> !reports_down(#[trigger] stores[i]));
    assert(forall|i: int| 0 <= i < grpc.len() ==> !reports_down(#[trigger] grpc[i]));
    assert(forall|i: int| 0 <= i < quic.len() ==> !reports_down(#[trigger] quic[i]));
    lemma_down_once(opening, stores);
    lemma_down_once(opened, grpc);
    lemma_down_once(served, quic);
    if !startup::fails(connected) {
        assert(res@ == connected + closing);
        assert(res@[4] == connected[4]);
        assert(res@[res@.len() - 1] == closing[closing.len() - 1]);
        assert(res@[res@.len() - 2] == closing[closing.len() - 2]);
        assert forall|i: int| 0 <= i < res@.len() && reports_down(#[trigger] res@[i]) implies i == 4
            || i == res@.len() - 2 by {
            if i < connected.len() {
                assert(res@[i] == connected[i]);
            } else {
                assert(res@[i] == closing[i - connected.len()]);
            }
        }
    }
}

/// Where the steps report the server to be down once, and the others do not, it stays at that.
proof fn lemma_down_once<'a>(first: Seq<StartupStep<'a>>, next: Seq<StartupStep<'a>>)
    requires
        first.len() > 4,
        reports_down(first[4]),
        forall|i: int| 0 <= i < first.len() && reports_down(#[trigger] first[i]) ==> i == 4,
        forall|i: int| 0 <= i < next.len() ==> !reports_down(#[trigger] next[i]),
    ensures
        ({
            let all = startup::followed_by(first, next);
            &&& all.len() > 4
            &&& reports_down(all[4])
            &&& forall|i: int| 0 <= i < all.len() && reports_down(#[trigger] all[i]) ==> i == 4
        }),
{
    let all = startup::followed_by(first, next);
    assert(all[4] == first[4]);
    assert forall|i: int| 0 <= i < all.len() && reports_down(#[trigger] all[i]) implies i == 4 by {
        if i < first.len() {
            assert(all[i] == first[i]);
        } else {
            assert(all[i] == next[i - first.len()]);
        }
    }
}

/// The step opens an endpoint or waits for those that are open.
pub open spec fn opens_or_waits(step: StartupStep<'_>) -> bool {
    match step {
        StartupStep::LaunchGrpc
        | StartupStep::LaunchGrpcInternal { .. }
        | StartupStep::LaunchMaintenanceGrpc
        | StartupStep::LaunchQuic { .. }
        | StartupStep::LaunchQuicInternal { .. }
        | StartupStep::LaunchHttp(_)
        | StartupStep::LaunchMaintenanceHttp(_)
        | StartupStep::WaitForShutdown { .. } => true,
        _ => false,
    }
}

/// The step comes exactly once, and before any endpoint is opened or waited for.
pub open spec fn comes_once_before_opening<'a>(
    steps: Seq<StartupStep<'a>>,
    step: StartupStep<'a>,
) -> bool {
    exists|i: int|
        {
            &&& 0 <= i < steps.len()
            &&& #[trigger] steps[i] == step
            &&& forall|j: int| 0 <= j < steps.len() && #[trigger] steps[j] == step ==> j == i
            &&& forall|j: int|
                0 <= j < steps.len() && opens_or_waits(#[trigger] steps[j]) ==> i < j
        }
}

proof fn lemma_comes_once<'a>(
    settings: &'a Settings,
    context: StartupContext,
    res: Vec<StartupStep<'a>>,
    step: StartupStep<'a>,
)
    requires
        call_ensures(startup::async_main, (settings, context), res),
        is_due(*settings, context, step),
        !ends_in_failure(res@),
        rank(step) < 19,
        !reports_down(step),
    ensures
        comes_once_before_opening(res@, step),
{
    lemma_unfailing_start_has(settings, context, res, step);
    lemma_ranked(settings, context);
    let i = choose|i: int| 0 <= i < res@.len() && res@[i] == step;
    assert(res@[i] == step);
    assert forall|j: int| 0 <= j < res@.len() && #[trigger] res@[j] == step implies j == i by {
        if j < i {
            assert(rank(res@[j]) < rank(res@[i]));
        } else if i < j {
            assert(rank(res@[i]) < rank(res@[j]));
        }
    }
    assert forall|j: int| 0 <= j < res@.len() && opens_or_waits(#[trigger] res@[j]) implies i
        < j by {
        if j < i {
            assert(rank(res@[j]) < rank(res@[i]));
        }
    }
}

/// A start that does not fail takes all that is due.
proof fn lemma_unfailing_start_has<'a>(
    settings: &'a Settings,
    context: StartupContext,
    res: Vec<StartupStep<'a>>,
    step: StartupStep<'a>,
)
    requires
        call_ensures(startup::async_main, (settings, context), res),
        is_due(*settings, context, step),
        !ends_in_failure(res@),
    ensures
        res@.contains(step),
{
    law_a_server_is_down_at_both_ends(settings, context, res);
    let flush = StartupStep::<'a>::FlushStores;
    assert(res@[res@.len() - 1] == flush);
    law_a_start_takes_what_is_due(settings, context, res, flush);
    law_a_start_takes_what_is_due(settings, context, res, step);
}

/// A server that starts without a failure configures all its stores and listens for its termination
/// exactly once, before it opens any endpoint and before it waits for its shutdown. So it connects
/// for forwarding where requests are forwarded, and not at all otherwise.
pub proof fn law_a_server_is_ready_before_it_opens<'a>(
    settings: &'a Settings,
    context: StartupContext,
    res: Vec<StartupStep<'a>>,
)
    requires
        call_ensures(startup::async_main, (settings, context), res),
        !ends_in_failure(res@),
    ensures
        comes_once_before_opening(res@, StartupStep::ListenForTermination),
        comes_once_before_opening(res@, StartupStep::ConfigureTopology),
        comes_once_before_opening(res@, StartupStep::ConfigureImmutableStore),
        comes_once_before_opening(res@, StartupStep::ConfigureMutableStore),
        comes_once_before_opening(res@, StartupStep::ConfigureLockStore),
        settings.server.forwarded_requests ==> comes_once_before_opening(
            res@,
            StartupStep::ConnectForwarding,
        ),
        !settings.server.forwarded_requests ==> !res@.contains(StartupStep::ConnectForwarding),
        forall|auth: &'a AuthSettings| #[trigger]
            res@.contains(StartupStep::FetchKeys(auth)) ==> comes_once_before_opening(
                res@,
                StartupStep::FetchKeys(auth),
            ),
        forall|auth: &'a AuthSettings| #[trigger]
            res@.contains(StartupStep::FetchKeys(auth)) <==> settings.server.auth == Some(*auth)
                && auth.jwk is Some,
{
    lemma_comes_once(settings, context, res, StartupStep::ListenForTermination);
    lemma_comes_once(settings, context, res, StartupStep::ConfigureTopology);
    lemma_comes_once(settings, context, res, StartupStep::ConfigureImmutableStore);
    lemma_comes_once(settings, context, res, StartupStep::ConfigureMutableStore);
    lemma_comes_once(settings, context, res, StartupStep::ConfigureLockStore);
    if settings.server.forwarded_requests {
        lemma_comes_once(settings, context, res, StartupStep::ConnectForwarding);
    } else {
        law_a_start_takes_what_is_due(settings, context, res, StartupStep::ConnectForwarding);
    }
    assert forall|auth: &'a AuthSettings| #[trigger]
        res@.contains(StartupStep::FetchKeys(auth)) implies comes_once_before_opening(
        res@,
        StartupStep::FetchKeys(auth),
    ) by {
        law_a_start_takes_what_is_due(settings, context, res, StartupStep::FetchKeys(auth));
        lemma_comes_once(settings, context, res, StartupStep::FetchKeys(auth));
    }
    assert forall|auth: &'a AuthSettings| #[trigger]
        res@.contains(StartupStep::FetchKeys(auth)) <==> settings.server.auth == Some(*auth)
            && auth.jwk is Some by {
        law_a_start_takes_what_is_due(settings, context, res, StartupStep::FetchKeys(auth));
        if is_due(*settings, context, StartupStep::FetchKeys(auth)) {
            lemma_unfailing_start_has(settings, context, res, StartupStep::FetchKeys(auth));
        }
    }
}

/// The endpoint that the step opens is one for users.
pub open spec fn opens_for_users(step: StartupStep<'_>) -> bool {
    match step {
        StartupStep::LaunchGrpc | StartupStep::LaunchQuic { .. } | StartupStep::LaunchHttp(_) =>
            true,
        _ => false,
    }
}

/// Users are authenticated at every endpoint for them, by the settings in which there are keys to
/// verify tokens with, and nobody else is: servers are verified by their certificates.
pub proof fn law_users_are_authenticated<'a>(
    settings: &'a Settings,
    step: &StartupStep<'a>,
    auth: Option<&'a AuthSettings>,
    verifier: Option<JwtVerifier>,
)
    requires
        call_ensures(startup::caller_auth, (settings, step), auth),
        call_ensures(startup::caller_verifier, (settings, step), verifier),
    ensures
        match auth {
            Some(given) => opens_for_users(*step) && settings.server.auth == Some(*given)
                && given.jwk is Some,
            None => !opens_for_users(*step) || settings.server.auth is None
                || settings.server.auth->0.jwk is None,
        },
        verifier is Some <==> auth is Some,
        verifier matches Some(made) ==> {
            &&& made.jwt_issuer == auth->0.jwt_issuer
            &&& requests::same_texts(made.jwt_audience, auth->0.jwt_audience)
            &&& made.trust_authenticated <==> (auth->0.authorization_mode matches Some(mode)
                && mode@ == "trust_authenticated"@)
        },
{
    if let (Some(made), Some(given)) = (verifier, auth) {
        requests::lemma_same_texts(made.jwt_audience, given.jwt_audience);
    }
}

/// A certificate may be generated for the public QUIC endpoint alone, and metrics are reported by both
/// QUIC endpoints, as often as they are exported.
pub proof fn law_quic_endpoints_are_special(
    settings: &Settings,
    step: &StartupStep<'_>,
    may_generate: bool,
    interval: Option<u64>,
)
    requires
        call_ensures(startup::may_generate_certificate, (step,), may_generate),
        call_ensures(startup::metrics_interval_millis, (settings, step), interval),
    ensures
        match *step {
            StartupStep::LaunchQuic { .. } => may_generate && interval == Some(
                settings.metrics_export_interval_millis,
            ),
            StartupStep::LaunchQuicInternal { .. } => !may_generate && interval == Some(
                settings.metrics_export_interval_millis,
            ),
            _ => !may_generate && interval is None,
        },
{
}

/// An error of any step ends the server, but for one of the last flush.
pub proof fn law_errors_end_the_server<E>(
    step: &StartupStep<'_>,
    outcome: Result<(), E>,
    res: Result<(), E>,
)
    requires
        call_ensures(startup::step_result::<E>, (step, outcome), res),
    ensures
        match res {
            Ok(()) => outcome is Ok || *step == StartupStep::FlushStores,
            Err(_) => res == outcome && *step != StartupStep::FlushStores,
        },
{
}

/// The message for a filter of user agents that cannot be compiled.
pub proof fn law_refused_patterns_are_described(reason: &str, res: ServerError)
    requires
        call_ensures(startup::invalid_user_agent_patterns, (reason,), res),
    ensures
        res.message@ == "Invalid user_agent_patterns: "@ + reason@,
{
}

/// The messages for starts that fail.
pub proof fn law_startup_faults_are_described(
    fault: StartupFault,
    res: ServerError,
    seeding: ServerError,
    security: ServerError,
    grpc_label: &str,
    quic_label: &str,
)
    requires
        call_ensures(StartupFault::error, (fault,), res),
        grpc_label@ == "[server.grpc_internal]"@,
        quic_label@ == "[server.quic_internal]"@,
        match fault {
            StartupFault::Seeding(inner) => call_ensures(SeedingFault::error, (inner,), seeding),
            StartupFault::Insecure(InternalEndpoint::Grpc, inner) => call_ensures(
                SecurityFault::error,
                (inner, grpc_label),
                security,
            ),
            StartupFault::Insecure(InternalEndpoint::Quic, inner) => call_ensures(
                SecurityFault::error,
                (inner, quic_label),
                security,
            ),
        },
    ensures
        match fault {
            StartupFault::Seeding(_) => res.message@ == seeding.message@,
            StartupFault::Insecure(_, _) => res.message@ == security.message@,
        },
{
}

} // verus!
