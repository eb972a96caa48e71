//! What holds of the stores that a server is given, stated of the calls that decide on them.
use crate::endpoints::ServerError;
use crate::laws::texts;
use crate::seeding::{self, SeedingFault, SeedingPlan, SeedingVariables};
use crate::settings::{
    CertificateSettings, CompositeStoreSettings, CompositeSubStoreSettings, ImmutableStoreSettings,
    LocalImmutableStoreSettings, LocalMutableStoreSettings, LockStoreSettings, MutableStoreSettings,
    NotificationSettings, RemoteStoreSettings, ReplicaFactorySettings, ReplicatedStoreSettings,
    ReplicationMode,
};
use crate::stores::{
    self, ClientCertificates, CompositeStep, CompositeStorePlan, EphemeralCertificate,
    EphemeralFault, ImmutableStorePlan, LocalMutableStoreCreation, LocalStoreCreation,
    LocalStoreDefaults, LocalStoreOptions, LocalStoreStep, LockStorePlan, MutableStorePlan,
    NotificationPlan, PluginProduct, RemoteImmutableStorePlan, RemoteMutableStorePlan,
    ReplicaFactoryPlan, ReplicatedStorePlan, StoreFault, StoreMode, StorePath, SubStorePlan,
    SubStoreRole,
};
use crate::text;
use vstd::prelude::*;

verus! {

/// The names of the modes differ.
pub(crate) proof fn lemma_modes_differ()
    ensures
        "local"@ != "remote"@,
        "local"@ != "composite"@,
        "local"@ != "replicated"@,
        "remote"@ != "composite"@,
        "remote"@ != "replicated"@,
        "composite"@ != "replicated"@,
{
    reveal_strlit("local");
    reveal_strlit("remote");
    reveal_strlit("composite");
    reveal_strlit("replicated");
    assert("local"@.len() == 5);
    assert("remote"@.len() == 6);
    assert("composite"@.len() == 9);
    assert("replicated"@.len() == 10);
}

/// The mode is none of those that are built in.
pub open spec fn is_plugin(mode: Seq<char>) -> bool {
    mode != "local"@ && mode != "remote"@ && mode != "composite"@ && mode != "replicated"@
}

/// Four modes are built in, each under its name; every other name is that of a plugin.
pub proof fn law_four_modes_are_built_in(name: &str, res: StoreMode)
    requires
        call_ensures(stores::mode_from_name, (name,), res),
    ensures
        res == StoreMode::Local <==> name@ == "local"@,
        res == StoreMode::Remote <==> name@ == "remote"@,
        res == StoreMode::Composite <==> name@ == "composite"@,
        res == StoreMode::Replicated <==> name@ == "replicated"@,
        res == StoreMode::Plugin <==> is_plugin(name@),
{
    lemma_modes_differ();
}

/// The store for immutable data is the one that the mode names, from the settings for that mode, and
/// cannot be made where these are missing.
pub proof fn law_the_mode_chooses_the_immutable_store<'a>(
    settings: &'a ImmutableStoreSettings,
    res: Result<ImmutableStorePlan<'a>, StoreFault>,
)
    requires
        call_ensures(stores::plan_immutable_store, (settings,), res),
    ensures
        match res {
            Ok(ImmutableStorePlan::Local(local)) => settings.mode@ == "local"@ && settings.local
                == Some(*local),
            Ok(ImmutableStorePlan::Composite(composite)) => settings.mode@ == "composite"@
                && settings.composite == Some(*composite),
            Ok(ImmutableStorePlan::Replicated(replicated)) => settings.mode@ == "replicated"@
                && settings.replicated == Some(*replicated),
            Ok(ImmutableStorePlan::Remote(remote)) => settings.mode@ == "remote"@ && settings.remote
                == Some(*remote),
            Ok(ImmutableStorePlan::Plugin(name)) => is_plugin(settings.mode@) && name@
                == settings.mode@,
            Err(StoreFault::MissingLocalImmutable) => settings.mode@ == "local"@
                && settings.local is None,
            Err(StoreFault::MissingComposite) => settings.mode@ == "composite"@
                && settings.composite is None,
            Err(StoreFault::MissingReplicated) => settings.mode@ == "replicated"@
                && settings.replicated is None,
            Err(StoreFault::MissingRemoteImmutable) => settings.mode@ == "remote"@
                && settings.remote is None,
            Err(_) => false,
        },
{
    lemma_modes_differ();
}

/// The store for mutable data likewise; it is neither replicated nor composite.
pub proof fn law_the_mode_chooses_the_mutable_store<'a>(
    settings: &'a MutableStoreSettings,
    res: Result<MutableStorePlan<'a>, StoreFault>,
)
    requires
        call_ensures(stores::plan_mutable_store, (settings,), res),
    ensures
        match res {
            Ok(MutableStorePlan::Local(local)) => settings.mode@ == "local"@ && settings.local
                == Some(*local),
            Ok(MutableStorePlan::Remote(remote)) => settings.mode@ == "remote"@ && settings.remote
                == Some(*remote),
            Ok(MutableStorePlan::Plugin(name)) => is_plugin(settings.mode@) && name@
                == settings.mode@,
            Err(StoreFault::MissingLocalMutable) => settings.mode@ == "local"@
                && settings.local is None,
            Err(StoreFault::MissingRemoteMutable) => settings.mode@ == "remote"@
                && settings.remote is None,
            Err(StoreFault::ReplicatedMutable) => settings.mode@ == "replicated"@,
            Err(StoreFault::CompositeMutable) => settings.mode@ == "composite"@,
            Err(_) => false,
        },
{
    lemma_modes_differ();
}

/// There is a store for locks exactly where there are settings for one, and a sender of notifications
/// always; both are local where the mode says so and by the plugin that it names otherwise.
pub proof fn law_locks_and_notifications_are_local_or_by_plugin<'a>(
    locks: &'a Option<LockStoreSettings>,
    lock_plan: Option<LockStorePlan<'a>>,
    notification: &'a Option<NotificationSettings>,
    notification_plan: NotificationPlan<'a>,
)
    requires
        call_ensures(stores::plan_lock_store, (locks,), lock_plan),
        call_ensures(stores::plan_notification, (notification,), notification_plan),
    ensures
        match lock_plan {
            None => locks is None,
            Some(LockStorePlan::Local) => locks is Some && locks->0.mode@ == "local"@,
            Some(LockStorePlan::Plugin(name)) => locks is Some && locks->0.mode@ != "local"@
                && name@ == locks->0.mode@,
        },
        match notification_plan {
            NotificationPlan::Local => notification is None || notification->0.mode@ == "local"@,
            NotificationPlan::Plugin(name) => notification is Some && notification->0.mode@
                != "local"@ && name@ == notification->0.mode@,
        },
{
}

/// The messages for stores that cannot be made.
pub proof fn law_store_faults_are_described(fault: StoreFault, res: ServerError)
    requires
        call_ensures(StoreFault::error, (fault,), res),
    ensures
        res.message@ == match fault {
            StoreFault::MissingLocalImmutable => "Missing local immutable store settings"@,
            StoreFault::MissingComposite => "Missing composite store settings"@,
            StoreFault::MissingReplicated => "Missing replicated store settings"@,
            StoreFault::MissingRemoteImmutable => "Missing remote immutable store settings"@,
            StoreFault::MissingLocalMutable => "Missing local mutable store settings"@,
            StoreFault::MissingRemoteMutable => "Missing remote mutable store settings"@,
            StoreFault::ReplicatedMutable => "replicated mutable store is not implemented"@,
            StoreFault::CompositeMutable =>
                "Invalid settings, cannot have composite store as mutable store"@,
            StoreFault::MissingCompositeLocal => "Missing composite local store settings"@,
            StoreFault::MissingCompositeRemote => "Missing composite remote store settings"@,
            StoreFault::MissingCompositeReplicated =>
                "Missing composite replicated store settings"@,
            StoreFault::NestedComposite => "Composite store not supported as a composite substore"@,
        },
{
}

/// The messages for plugins that fail, and the sections that plugins fall back to.
pub proof fn law_plugin_failures_are_described(
    product: PluginProduct,
    name: &str,
    reason: &str,
    res: ServerError,
    section: Option<&'static str>,
)
    requires
        call_ensures(PluginProduct::failure, (product, name, reason), res),
        call_ensures(PluginProduct::section, (product,), section),
    ensures
        match product {
            PluginProduct::ImmutableStore => {
                &&& res.message@ == "Failed to create immutable store plugin '"@ + name@ + "': "@
                    + reason@
                &&& section is Some && section->0@ == "immutable_store"@
            },
            PluginProduct::MutableStore => {
                &&& res.message@ == "Failed to create mutable store plugin '"@ + name@ + "': "@
                    + reason@
                &&& section is Some && section->0@ == "mutable_store"@
            },
            PluginProduct::LockStore => {
                &&& res.message@ == "Failed to create lock store plugin '"@ + name@ + "': "@
                    + reason@
                &&& section is Some && section->0@ == "lock_store"@
            },
            PluginProduct::CompositeSubStore => {
                &&& res.message@ == "Failed to create "@ + name@ + " immutable store: "@ + reason@
                &&& section is Some && section->0@ == "immutable_store"@
            },
            PluginProduct::Notification => {
                &&& res.message@ == "Failed to create notification plugin '"@ + name@ + "': "@
                    + reason@
                &&& section is None
            },
        },
{
}

/// A local store lies where it is configured to, and in the default directory where nothing but white
/// space is configured; that place does not last.
pub proof fn law_local_stores_lie_where_configured(
    configured: &str,
    local_data_dir: &str,
    res: StorePath,
    blank: bool,
)
    requires
        call_ensures(stores::resolve_local_store_path, (configured, local_data_dir), res),
        call_ensures(text::blank, (configured,), blank),
    ensures
        res.ephemeral <==> blank,
        blank ==> res.path@ == local_data_dir@,
        !blank ==> res.path@ == configured@,
{
}

/// The value that was set, or else the other one.
pub open spec fn chosen<T>(set: Option<T>, otherwise: T) -> T {
    if set is Some {
        set->0
    } else {
        otherwise
    }
}

/// The tuning of a local store follows the settings, and the defaults where they say nothing. A server
/// reads all buckets at the start, takes fragments for durably stored and keeps none but whole ones.
pub open spec fn is_tuned(
    options: LocalStoreOptions,
    settings: LocalImmutableStoreSettings,
    flush_background: bool,
    defaults: LocalStoreDefaults,
) -> bool {
    &&& options.max_capacity == settings.max_capacity
    &&& options.eviction_delay_millis is Some <==> settings.eviction_delay is Some
    &&& settings.eviction_delay is Some ==> options.eviction_delay_millis->0
        == settings.eviction_delay->0
    &&& options.max_size == settings.max_size
    &&& options.compaction_delay_millis is Some <==> settings.compaction_delay is Some
    &&& settings.compaction_delay is Some ==> options.compaction_delay_millis->0
        == settings.compaction_delay->0
    &&& options.deserialize_all
    &&& !options.allow_partial_fragment
    &&& !options.protect_local_fragment
    &&& options.implicit_durable_stored
    &&& options.flush_background == flush_background
    &&& options.flush_delay_seconds == settings.flush_delay_seconds
    &&& options.target_capacity_percentage == chosen(
        settings.target_capacity_percentage,
        defaults.target_capacity_percentage,
    )
    &&& options.target_size_percentage == chosen(
        settings.target_size_percentage,
        defaults.target_size_percentage,
    )
    &&& options.compaction_parallel_groups == chosen(
        settings.compaction_parallel_groups,
        defaults.compaction_parallel_groups,
    )
    &&& !options.verify_write
    &&& !options.atime
    &&& options.initial_fan_out_level == defaults.fan_out_level_max
    &&& options.fan_out_threshold == defaults.fan_out_threshold
}

/// A local store is created in its place and with its tuning.
pub proof fn law_local_stores_are_tuned(
    settings: LocalImmutableStoreSettings,
    flush_background: bool,
    local_data_dir: &str,
    defaults: LocalStoreDefaults,
    options: LocalStoreOptions,
    configured: &str,
    path: StorePath,
    res: LocalStoreCreation,
)
    requires
        call_ensures(
            LocalStoreOptions::from_settings,
            (&settings, flush_background, defaults),
            options,
        ),
        configured@ == settings.path@,
        call_ensures(stores::resolve_local_store_path, (configured, local_data_dir), path),
        call_ensures(
            stores::create_local_store,
            (&settings, flush_background, local_data_dir, defaults),
            res,
        ),
    ensures
        is_tuned(options, settings, flush_background, defaults),
        is_tuned(res.options, settings, flush_background, defaults),
        res.path.path@ == path.path@,
        res.path.ephemeral == path.ephemeral,
{
}

/// The local store is created only where there is none yet, and then flushed in the background.
pub proof fn law_there_is_one_local_store<S>(
    existing: Option<S>,
    settings: LocalImmutableStoreSettings,
    local_data_dir: &str,
    defaults: LocalStoreDefaults,
    creation: LocalStoreCreation,
    res: LocalStoreStep<S>,
)
    requires
        call_ensures(
            stores::create_local_store,
            (&settings, true, local_data_dir, defaults),
            creation,
        ),
        call_ensures(
            stores::configure_local_immutable_store::<S>,
            (existing, &settings, local_data_dir, defaults),
            res,
        ),
    ensures
        match res {
            LocalStoreStep::Reuse(store) => existing == Some(store),
            LocalStoreStep::Create(made) => {
                &&& existing is None
                &&& is_tuned(made.options, settings, true, defaults)
                &&& made.path.path@ == creation.path.path@
                &&& made.path.ephemeral == creation.path.ephemeral
            },
        },
{
}

/// A local store for mutable data is created in its place, with all its buckets.
pub proof fn law_local_mutable_stores_are_tuned(
    settings: LocalMutableStoreSettings,
    local_data_dir: &str,
    defaults: LocalStoreDefaults,
    configured: &str,
    path: StorePath,
    res: LocalMutableStoreCreation,
)
    requires
        configured@ == settings.path@,
        call_ensures(stores::resolve_local_store_path, (configured, local_data_dir), path),
        call_ensures(
            stores::configure_local_mutable_store,
            (&settings, local_data_dir, defaults),
            res,
        ),
    ensures
        res.path.path@ == path.path@,
        res.path.ephemeral == path.ephemeral,
        res.flush_delay_seconds == settings.flush_delay_seconds,
        res.initial_fan_out_level == defaults.fan_out_level_max,
        res.fan_out_threshold == defaults.fan_out_threshold,
{
}

/// Stores on another server are at its address. Those for immutable data authenticate where the
/// settings say, those for mutable data have no identity.
pub proof fn law_remote_stores_are_at_their_address<'a>(
    settings: &'a RemoteStoreSettings,
    immutable: RemoteImmutableStorePlan<'a>,
    mutable: RemoteMutableStorePlan<'a>,
)
    requires
        call_ensures(stores::configure_remote_immutable_store, (settings,), immutable),
        call_ensures(stores::configure_remote_mutable_store, (settings,), mutable),
    ensures
        immutable.remote_url@ == settings.remote_url@,
        immutable.auth_url is Some <==> settings.auth_url is Some,
        immutable.auth_url is Some ==> immutable.auth_url->0@ == settings.auth_url->0@,
        mutable.remote_url@ == settings.remote_url@,
        mutable.identity is None,
{
}

/// The certificates of a client are those in the settings: it trusts their chain and shows their
/// certificate. Without settings it trusts the system and shows none.
pub open spec fn are_certificates(
    certs: ClientCertificates<'_>,
    settings: Option<CertificateSettings>,
) -> bool {
    match settings {
        None => certs.custom_ca is None && certs.client is None,
        Some(given) => {
            &&& certs.custom_ca is Some <==> given.cert_chain is Some
            &&& certs.custom_ca is Some ==> certs.custom_ca->0@ == given.cert_chain->0@
            &&& certs.client matches Some(identity)
            &&& identity.cert_file@ == given.cert_file@
            &&& identity.pkey_file@ == given.pkey_file@
        },
    }
}

/// Clients show the certificate that they were given and trust its chain.
pub proof fn law_clients_show_their_certificate<'a>(
    settings: &'a CertificateSettings,
    res: ClientCertificates<'a>,
)
    requires
        call_ensures(ClientCertificates::from_settings, (settings,), res),
    ensures
        are_certificates(res, Some(*settings)),
{
}

/// A replicating store is made as the settings say; its clients reconnect five times where they do
/// not.
pub proof fn law_replicating_stores_follow_their_settings<'a>(
    settings: &'a ReplicatedStoreSettings,
    res: ReplicatedStorePlan<'a>,
)
    requires
        call_ensures(stores::configure_replicated_immutable_store, (settings,), res),
    ensures
        res.remote_url@ == settings.remote_url@,
        are_certificates(res.certs, settings.certs),
        res.max_reconnects == chosen(settings.client_max_reconnects, 5),
        res.message_limit == settings.client_message_limit,
        res.max_bandwidth_bytes_per_second == settings.max_bandwidth_bytes_per_second,
        res.expected_rtt_ms == settings.expected_rtt_ms,
        res.regenerate_retry@ == settings.regenerate_retry@,
        res.connection_lost_sleep_secs == 1,
        res.refresh_secs == settings.periodic_client_refresh_secs,
        res.metrics_interval_secs == settings.client_metrics_interval_seconds,
{
}

/// The part of a composite store is the one that its mode names, from the settings for that mode.
pub open spec fn is_part(part: SubStorePlan<'_>, settings: CompositeSubStoreSettings) -> bool {
    match part {
        SubStorePlan::Local(local) => settings.mode@ == "local"@ && settings.local == Some(*local),
        SubStorePlan::Remote(remote) => settings.mode@ == "remote"@ && settings.remote == Some(
            *remote,
        ),
        SubStorePlan::Replicated(replicated) => settings.mode@ == "replicated"@
            && settings.replicated == Some(*replicated),
        SubStorePlan::Plugin(name) => is_plugin(settings.mode@) && name@ == settings.mode@,
    }
}

/// The part of a composite store cannot be made: its settings are missing, or it is composite itself.
pub open spec fn is_no_part(fault: StoreFault, settings: CompositeSubStoreSettings) -> bool {
    match fault {
        StoreFault::MissingCompositeLocal => settings.mode@ == "local"@ && settings.local is None,
        StoreFault::MissingCompositeRemote => settings.mode@ == "remote"@
            && settings.remote is None,
        StoreFault::MissingCompositeReplicated => settings.mode@ == "replicated"@
            && settings.replicated is None,
        StoreFault::NestedComposite => settings.mode@ == "composite"@,
        _ => false,
    }
}

proof fn lemma_parts(settings: CompositeSubStoreSettings)
    ensures
        match stores::composite_substore_plan(&settings) {
            Ok(part) => is_part(part, settings),
            Err(fault) => is_no_part(fault, settings),
        },
{
    lemma_modes_differ();
}

/// The mode of a part chooses its store.
pub proof fn law_the_mode_chooses_the_part<'a>(
    settings: &'a CompositeSubStoreSettings,
    res: Result<SubStorePlan<'a>, StoreFault>,
)
    requires
        call_ensures(stores::configure_composite_substore, (settings,), res),
    ensures
        match res {
            Ok(part) => is_part(part, *settings),
            Err(fault) => is_no_part(fault, *settings),
        },
{
    lemma_parts(*settings);
}

/// The step adds the part in the role, under the name of its mode, or says why it cannot be made.
pub open spec fn adds(
    step: CompositeStep<'_>,
    role: SubStoreRole,
    settings: CompositeSubStoreSettings,
) -> bool {
    match step {
        CompositeStep::Add { role: given, mode, store } => {
            &&& given == role
            &&& mode@ == settings.mode@
            &&& is_part(store, settings)
        },
        CompositeStep::Fail(fault) => is_no_part(fault, settings),
    }
}

/// How many parts a composite store has before its replicas.
pub open spec fn parts_before_replicas(settings: CompositeStoreSettings) -> int {
    if settings.durable is Some {
        2
    } else {
        1
    }
}

/// What a replica is used for, by its mode.
pub open spec fn role_of_replica(mode: ReplicationMode) -> SubStoreRole {
    match mode {
        ReplicationMode::ReadWrite => SubStoreRole::Replica { read: true, write: true },
        ReplicationMode::Read => SubStoreRole::Replica { read: true, write: false },
        ReplicationMode::Write => SubStoreRole::Replica { read: false, write: true },
    }
}

/// A composite store has its local part first, then the durable one where there is one, and then its
/// replicas in their order, each of them read from and written to as its mode says.
pub proof fn law_a_composite_store_has_all_its_parts<'a, T>(
    settings: &'a CompositeStoreSettings,
    topology: Option<T>,
    res: CompositeStorePlan<'a, T>,
)
    requires
        call_ensures(stores::configure_composite_store::<T>, (settings, topology), res),
    ensures
        res.steps@.len() == parts_before_replicas(*settings) + (match settings.replica {
            Some(replicas) => replicas@.len(),
            None => 0,
        }),
        adds(res.steps@[0], SubStoreRole::Local, settings.local),
        settings.durable matches Some(durable) ==> adds(
            res.steps@[1],
            SubStoreRole::Durable,
            durable,
        ),
        settings.replica matches Some(replicas) ==> forall|i: int|
            0 <= i < replicas@.len() ==> adds(
                res.steps@[i + parts_before_replicas(*settings)],
                role_of_replica((#[trigger] replicas@[i]).replication_mode),
                replicas@[i],
            ),
        res.cache_query_results <==> settings.should_cache_query_results == Some(true),
        res.replica_factory is Some <==> settings.replica_factory is Some,
        res.replica_factory is Some ==> makes_replicas(
            res.replica_factory->0,
            settings.replica_factory->0,
        ),
        res.subscribe_to == topology,
{
    lemma_parts(settings.local);
    if let Some(durable) = settings.durable {
        lemma_parts(durable);
    }
    if let Some(replicas) = settings.replica {
        let n = parts_before_replicas(*settings);
        assert forall|i: int| 0 <= i < replicas@.len() implies adds(
            res.steps@[i + n],
            role_of_replica((#[trigger] replicas@[i]).replication_mode),
            replicas@[i],
        ) by {
            lemma_parts(replicas@[i]);
            assert(res.steps@[i + n] == stores::replica_steps(replicas@)[i]);
        }
    }
}

/// The factory of replicas follows its settings. Its clients show the same certificates over QUIC and
/// over gRPC.
pub open spec fn makes_replicas(
    plan: ReplicaFactoryPlan<'_>,
    settings: ReplicaFactorySettings,
) -> bool {
    &&& match settings.tls {
        Some(tls) => {
            &&& are_certificates(plan.quic_certs, Some(tls.client_certs))
            &&& plan.grpc_certs is Some
            &&& *plan.grpc_certs->0 == tls.client_certs
            &&& plan.server_sni is Some <==> tls.server_sni is Some
            &&& plan.server_sni is Some ==> plan.server_sni->0@ == tls.server_sni->0@
        },
        None => {
            &&& are_certificates(plan.quic_certs, None)
            &&& plan.grpc_certs is None
            &&& plan.server_sni is None
        },
    }
    &&& plan.client_message_buffer == settings.client_message_buffer
    &&& plan.read_replicas_enabled == settings.read_replicas_enabled
    &&& plan.use_grpc_write_replication == settings.use_grpc_write_replication
    &&& plan.monitor_interval_secs == settings.quic_client_monitor_interval_seconds
    &&& plan.enable_same_region_write == settings.enable_same_region_write
}

/// The factory of replicas follows its settings.
pub proof fn law_the_replica_factory_follows_its_settings<'a>(
    settings: &'a ReplicaFactorySettings,
    res: ReplicaFactoryPlan<'a>,
)
    requires
        call_ensures(stores::plan_replica_factory, (settings,), res),
    ensures
        makes_replicas(res, *settings),
{
}

/// Without a local store, what is meant for it goes to the main store.
pub proof fn law_the_main_store_stands_in<S>(local: Option<S>, main: S, res: S)
    requires
        call_ensures(stores::local_or_main::<S>, (local, main), res),
    ensures
        local is Some ==> res == local->0,
        local is None ==> res == main,
{
}

/// A generated certificate is for this machine alone, and its files are named after the endpoint.
pub proof fn law_generated_certificates_are_local(endpoint: &str, res: EphemeralCertificate)
    requires
        call_ensures(stores::generate_ephemeral_certificate, (endpoint,), res),
    ensures
        res.cert_name@ == endpoint@ + "-cert.pem"@,
        res.key_name@ == endpoint@ + "-key.pem"@,
        res.hosts@.len() == 3,
        res.hosts@[0]@ == "localhost"@,
        res.hosts@[1]@ == "127.0.0.1"@,
        res.hosts@[2]@ == "::1"@,
{
    texts::lemma_same_views(seq!["localhost"@, "127.0.0.1"@, "::1"@], res.hosts@);
}

/// The messages for files of generated certificates that cannot be written.
pub proof fn law_certificate_faults_are_described(
    fault: EphemeralFault,
    path: &str,
    reason: &str,
    res: ServerError,
)
    requires
        call_ensures(EphemeralFault::error, (fault, path, reason), res),
    ensures
        res.message@ == match fault {
            EphemeralFault::Directory => "failed to create directory "@ + path@
                + " for ephemeral certificate: "@ + reason@,
            EphemeralFault::Certificate => "failed to write ephemeral certificate "@ + path@ + ": "@
                + reason@,
            EphemeralFault::PrivateKey => "failed to write ephemeral private key "@ + path@ + ": "@
                + reason@,
        },
{
}

/// What is seeded is the local store, or the local part of a composite one.
pub proof fn law_only_local_stores_are_seeded<'a>(
    settings: &'a ImmutableStoreSettings,
    res: Result<&'a LocalImmutableStoreSettings, SeedingFault>,
)
    requires
        call_ensures(seeding::find_seeding_store, (settings,), res),
    ensures
        match res {
            Ok(local) => {
                ||| settings.mode@ == "local"@ && settings.local == Some(*local)
                ||| settings.mode@ == "composite"@ && settings.composite is Some
                    && settings.composite->0.local.local == Some(*local)
            },
            Err(SeedingFault::MissingLocal) => settings.mode@ == "local"@ && settings.local is None,
            Err(SeedingFault::MissingComposite) => settings.mode@ == "composite"@ && (
            settings.composite is None || settings.composite->0.local.local is None),
            Err(SeedingFault::NoLocalStore) => settings.mode@ != "local"@ && settings.mode@
                != "composite"@,
            Err(_) => false,
        },
{
    lemma_modes_differ();
}

/// The messages for stores that cannot be seeded.
pub proof fn law_seeding_faults_are_described(fault: SeedingFault, res: ServerError)
    requires
        call_ensures(SeedingFault::error, (fault,), res),
    ensures
        res.message@ == match fault {
            SeedingFault::MissingLocal => "Missing local immutable store settings"@,
            SeedingFault::MissingComposite => "Missing composite store settings"@,
            SeedingFault::NoLocalStore => "No local store settings found"@,
            SeedingFault::MissingMaxSize => "Missing max size on local store settings"@,
        },
{
}

/// A variable that holds a number is followed; one that is missing or holds none is not.
pub open spec fn steers(
    variable: Option<&str>,
    read: Option<usize>,
    otherwise: usize,
    value: usize,
) -> bool {
    if variable is Some && read is Some {
        value == read->0
    } else {
        value == otherwise
    }
}

/// A store is seeded where the variable for it is set, up to its size, with its flushing put off. How
/// much is left free and buffered is steered by two more variables.
pub proof fn law_seeding_is_steered_by_variables(
    settings: LocalImmutableStoreSettings,
    variables: SeedingVariables<'_>,
    margin: Option<usize>,
    buffer: Option<usize>,
    res: Option<SeedingPlan>,
)
    requires
        variables.margin is Some ==> call_ensures(
            seeding::parse_usize,
            (variables.margin->0,),
            margin,
        ),
        variables.buffer is Some ==> call_ensures(
            seeding::parse_usize,
            (variables.buffer->0,),
            buffer,
        ),
        call_ensures(seeding::seed_local_store, (&settings, variables), res),
    ensures
        res is Some <==> variables.seeding is Some,
        res matches Some(plan) ==> {
            &&& plan.flush_delay_seconds == 65535
            &&& !plan.flush_background
            &&& match plan.run {
                Ok(run) => {
                    &&& settings.max_size == Some(run.max_size)
                    &&& steers(variables.margin, margin, 0, run.margin)
                    &&& steers(variables.buffer, buffer, 16834, run.buffer)
                },
                Err(fault) => settings.max_size is None && fault == SeedingFault::MissingMaxSize,
            }
        },
{
}

/// Seeding went well where the store was filled and flushed, and a failure to flush counts first.
pub proof fn law_seeding_needs_both<E>(
    seeded: Result<(), E>,
    flushed: Result<(), E>,
    res: Result<(), E>,
)
    requires
        call_ensures(seeding::seeding_outcome::<E>, (seeded, flushed), res),
    ensures
        res is Ok <==> seeded is Ok && flushed is Ok,
        flushed is Err ==> res == flushed,
        flushed is Ok && seeded is Err ==> res == seeded,
{
}

} // verus!
