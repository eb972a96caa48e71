//! Which stores the server works with, and how they are made.
use crate::endpoints::{set_or, ServerError};
use crate::settings::{
    CertificateSettings, CompositeStoreSettings, CompositeSubStoreSettings, ImmutableStoreSettings,
    LocalImmutableStoreSettings, LocalMutableStoreSettings, LockStoreSettings, MutableStoreSettings,
    NotificationSettings, RemoteStoreSettings, ReplicaFactorySettings, ReplicatedStoreSettings,
    ReplicationMode,
};
use crate::text;
use vstd::prelude::*;

verus! {

/// The mode of a store on the local disk.
pub const LOCAL: &'static str = "local";

/// The mode of a store on another server.
pub const REMOTE: &'static str = "remote";

/// The mode of a store made of other stores.
pub const COMPOSITE: &'static str = "composite";

/// The mode of a store that replicates to another server.
pub const REPLICATED: &'static str = "replicated";

/// The modes that are built in. A plugin makes the store of any other mode.
#[derive(Debug, Clone, Copy, PartialEq, Eq, Structural)]
pub enum StoreMode {
    Local,
    Remote,
    Composite,
    Replicated,
    Plugin,
}

/// The mode that a name stands for.
pub open spec fn mode_named(name: Seq<char>) -> StoreMode {
    if name == LOCAL@ {
        StoreMode::Local
    } else if name == REMOTE@ {
        StoreMode::Remote
    } else if name == COMPOSITE@ {
        StoreMode::Composite
    } else if name == REPLICATED@ {
        StoreMode::Replicated
    } else {
        StoreMode::Plugin
    }
}

/// Reads the name of a mode.
pub fn mode_from_name(name: &str) -> (res: StoreMode)
    ensures
        res == mode_named(name@),
{
    if text::same(name, LOCAL) {
        StoreMode::Local
    } else if text::same(name, REMOTE) {
        StoreMode::Remote
    } else if text::same(name, COMPOSITE) {
        StoreMode::Composite
    } else if text::same(name, REPLICATED) {
        StoreMode::Replicated
    } else {
        StoreMode::Plugin
    }
}

/// Why a store cannot be made from its settings.
#[derive(Debug, Clone, Copy, PartialEq, Eq, Structural)]
pub enum StoreFault {
    MissingLocalImmutable,
    MissingComposite,
    MissingReplicated,
    MissingRemoteImmutable,
    MissingLocalMutable,
    MissingRemoteMutable,
    ReplicatedMutable,
    CompositeMutable,
    MissingCompositeLocal,
    MissingCompositeRemote,
    MissingCompositeReplicated,
    NestedComposite,
}

impl StoreFault {
    /// The message for the fault.
    pub open spec fn text(self) -> Seq<char> {
        match self {
            StoreFault::MissingLocalImmutable => "Missing local immutable store settings"@,
            StoreFault::MissingComposite => "Missing composite store settings"@,
            StoreFault::MissingReplicated => "Missing replicated store settings"@,
            StoreFault::MissingRemoteImmutable => "Missing remote immutable store settings"@,
            StoreFault::MissingLocalMutable => "Missing local mutable store settings"@,
            StoreFault::MissingRemoteMutable => "Missing remote mutable store settings"@,
            StoreFault::ReplicatedMutable => "replicated mutable store is not implemented"@,
            StoreFault::CompositeMutable =>
                "Invalid settings, cannot have composite store as mutable store"@,
            StoreFault::MissingCompositeLocal => "Missing composite local store settings"@,
            StoreFault::MissingCompositeRemote => "Missing composite remote store settings"@,
            StoreFault::MissingCompositeReplicated =>
                "Missing composite replicated store settings"@,
            StoreFault::NestedComposite => "Composite store not supported as a composite substore"@,
        }
    }

    /// The error for the fault.
    pub fn error(self) -> (res: ServerError)
        ensures
            res.message@ == self.text(),
    {
        match self {
            StoreFault::MissingLocalImmutable => ServerError::new(
                "Missing local immutable store settings",
            ),
            StoreFault::MissingComposite => ServerError::new("Missing composite store settings"),
            StoreFault::MissingReplicated => ServerError::new("Missing replicated store settings"),
            StoreFault::MissingRemoteImmutable => ServerError::new(
                "Missing remote immutable store settings",
            ),
            StoreFault::MissingLocalMutable => ServerError::new(
                "Missing local mutable store settings",
            ),
            StoreFault::MissingRemoteMutable => ServerError::new(
                "Missing remote mutable store settings",
            ),
            StoreFault::ReplicatedMutable => ServerError::new(
                "replicated mutable store is not implemented",
            ),
            StoreFault::CompositeMutable => ServerError::new(
                "Invalid settings, cannot have composite store as mutable store",
            ),
            StoreFault::MissingCompositeLocal => ServerError::new(
                "Missing composite local store settings",
            ),
            StoreFault::MissingCompositeRemote => ServerError::new(
                "Missing composite remote store settings",
            ),
            StoreFault::MissingCompositeReplicated => ServerError::new(
                "Missing composite replicated store settings",
            ),
            StoreFault::NestedComposite => ServerError::new(
                "Composite store not supported as a composite substore",
            ),
        }
    }
}

/// The store for immutable data that is to be made.
#[derive(Debug)]
pub enum ImmutableStorePlan<'a> {
    Local(&'a LocalImmutableStoreSettings),
    Composite(&'a CompositeStoreSettings),
    Replicated(&'a ReplicatedStoreSettings),
    Remote(&'a RemoteStoreSettings),
    /// By the plugin of this name.
    Plugin(&'a String),
}

/// The store for immutable data that the settings ask for.
pub open spec fn immutable_store_plan<'a>(settings: &'a ImmutableStoreSettings) -> Result<
    ImmutableStorePlan<'a>,
    StoreFault,
> {
    match mode_named(settings.mode@) {
        StoreMode::Local => match &settings.local {
            Some(local) => Ok(ImmutableStorePlan::Local(local)),
            None => Err(StoreFault::MissingLocalImmutable),
        },
        StoreMode::Composite => match &settings.composite {
            Some(composite) => Ok(ImmutableStorePlan::Composite(composite)),
            None => Err(StoreFault::MissingComposite),
        },
        StoreMode::Replicated => match &settings.replicated {
            Some(replicated) => Ok(ImmutableStorePlan::Replicated(replicated)),
            None => Err(StoreFault::MissingReplicated),
        },
        StoreMode::Remote => match &settings.remote {
            Some(remote) => Ok(ImmutableStorePlan::Remote(remote)),
            None => Err(StoreFault::MissingRemoteImmutable),
        },
        StoreMode::Plugin => Ok(ImmutableStorePlan::Plugin(&settings.mode)),
    }
}

/// Decides which store for immutable data to make.
pub fn plan_immutable_store<'a>(settings: &'a ImmutableStoreSettings) -> (res: Result<
    ImmutableStorePlan<'a>,
    StoreFault,
>)
    ensures
        res == immutable_store_plan(settings),
{
    match mode_from_name(settings.mode.as_str()) {
        StoreMode::Local => match &settings.local {
            Some(local) => Ok(ImmutableStorePlan::Local(local)),
            None => Err(StoreFault::MissingLocalImmutable),
        },
        StoreMode::Composite => match &settings.composite {
            Some(composite) => Ok(ImmutableStorePlan::Composite(composite)),
            None => Err(StoreFault::MissingComposite),
        },
        StoreMode::Replicated => match &settings.replicated {
            Some(replicated) => Ok(ImmutableStorePlan::Replicated(replicated)),
            None => Err(StoreFault::MissingReplicated),
        },
        StoreMode::Remote => match &settings.remote {
            Some(remote) => Ok(ImmutableStorePlan::Remote(remote)),
            None => Err(StoreFault::MissingRemoteImmutable),
        },
        StoreMode::Plugin => Ok(ImmutableStorePlan::Plugin(&settings.mode)),
    }
}

/// The store for mutable data that is to be made.
#[derive(Debug)]
pub enum MutableStorePlan<'a> {
    Local(&'a LocalMutableStoreSettings),
    Remote(&'a RemoteStoreSettings),
    /// By the plugin of this name.
    Plugin(&'a String),
}

/// The store for mutable data that the settings ask for.
pub open spec fn mutable_store_plan<'a>(settings: &'a MutableStoreSettings) -> Result<
    MutableStorePlan<'a>,
    StoreFault,
> {
    match mode_named(settings.mode@) {
        StoreMode::Local => match &settings.local {
            Some(local) => Ok(MutableStorePlan::Local(local)),
            None => Err(StoreFault::MissingLocalMutable),
        },
        StoreMode::Remote => match &settings.remote {
            Some(remote) => Ok(MutableStorePlan::Remote(remote)),
            None => Err(StoreFault::MissingRemoteMutable),
        },
        StoreMode::Replicated => Err(StoreFault::ReplicatedMutable),
        StoreMode::Composite => Err(StoreFault::CompositeMutable),
        StoreMode::Plugin => Ok(MutableStorePlan::Plugin(&settings.mode)),
    }
}

/// Decides which store for mutable data to make.
pub fn plan_mutable_store<'a>(settings: &'a MutableStoreSettings) -> (res: Result<
    MutableStorePlan<'a>,
    StoreFault,
>)
    ensures
        res == mutable_store_plan(settings),
{
    match mode_from_name(settings.mode.as_str()) {
        StoreMode::Local => match &settings.local {
            Some(local) => Ok(MutableStorePlan::Local(local)),
            None => Err(StoreFault::MissingLocalMutable),
        },
        StoreMode::Remote => match &settings.remote {
            Some(remote) => Ok(MutableStorePlan::Remote(remote)),
            None => Err(StoreFault::MissingRemoteMutable),
        },
        StoreMode::Replicated => Err(StoreFault::ReplicatedMutable),
        StoreMode::Composite => Err(StoreFault::CompositeMutable),
        StoreMode::Plugin => Ok(MutableStorePlan::Plugin(&settings.mode)),
    }
}

/// The lock store that is to be made.
#[derive(Debug)]
pub enum LockStorePlan<'a> {
    /// One in memory.
    Local,
    /// By the plugin of this name.
    Plugin(&'a String),
}

/// The lock store that the settings ask for. Without settings there is none. Only the local mode is
/// built in.
pub open spec fn lock_store_plan<'a>(settings: &'a Option<LockStoreSettings>) -> Option<
    LockStorePlan<'a>,
> {
    match settings {
        Some(lock) => if lock.mode@ == LOCAL@ {
            Some(LockStorePlan::Local)
        } else {
            Some(LockStorePlan::Plugin(&lock.mode))
        },
        None => None,
    }
}

/// Decides which lock store to make.
pub fn plan_lock_store<'a>(settings: &'a Option<LockStoreSettings>) -> (res: Option<
    LockStorePlan<'a>,
>)
    ensures
        res == lock_store_plan(settings),
{
    match settings {
        Some(lock) => if text::same(lock.mode.as_str(), LOCAL) {
            Some(LockStorePlan::Local)
        } else {
            Some(LockStorePlan::Plugin(&lock.mode))
        },
        None => None,
    }
}

/// The sender of notifications that is to be made.
#[derive(Debug)]
pub enum NotificationPlan<'a> {
    /// One within the server, which clients subscribe to.
    Local,
    /// By the plugin of this name.
    Plugin(&'a String),
}

/// The sender of notifications that the settings ask for: a local one unless they name a plugin.
pub open spec fn notification_plan<'a>(settings: &'a Option<NotificationSettings>) -> NotificationPlan<
    'a,
> {
    match settings {
        Some(notification) => if notification.mode@ == LOCAL@ {
            NotificationPlan::Local
        } else {
            NotificationPlan::Plugin(&notification.mode)
        },
        None => NotificationPlan::Local,
    }
}

/// Decides which sender of notifications to make.
pub fn plan_notification<'a>(settings: &'a Option<NotificationSettings>) -> (res: NotificationPlan<
    'a,
>)
    ensures
        res == notification_plan(settings),
{
    match settings {
        Some(notification) => if text::same(notification.mode.as_str(), LOCAL) {
            NotificationPlan::Local
        } else {
            NotificationPlan::Plugin(&notification.mode)
        },
        None => NotificationPlan::Local,
    }
}

/// What a plugin is asked to make.
#[derive(Debug, Clone, Copy, PartialEq, Eq, Structural)]
pub enum PluginProduct {
    ImmutableStore,
    MutableStore,
    LockStore,
    CompositeSubStore,
    Notification,
}

impl PluginProduct {
    /// The section of the configuration to fall back to where the plugin has none of its own.
    pub open spec fn section_name(self) -> Option<Seq<char>> {
        match self {
            PluginProduct::ImmutableStore | PluginProduct::CompositeSubStore => Some(
                "immutable_store"@,
            ),
            PluginProduct::MutableStore => Some("mutable_store"@),
            PluginProduct::LockStore => Some("lock_store"@),
            PluginProduct::Notification => None,
        }
    }

    /// The section of the configuration to fall back to where the plugin has none of its own.
    pub fn section(self) -> (res: Option<&'static str>)
        ensures
            match res {
                Some(name) => self.section_name() == Some(name@),
                None => self.section_name() is None,
            },
    {
        match self {
            PluginProduct::ImmutableStore | PluginProduct::CompositeSubStore => Some(
                "immutable_store",
            ),
            PluginProduct::MutableStore => Some("mutable_store"),
            PluginProduct::LockStore => Some("lock_store"),
            PluginProduct::Notification => None,
        }
    }

    /// What stands before the name of the plugin in the message of a failure.
    pub open spec fn before(self) -> Seq<char> {
        match self {
            PluginProduct::ImmutableStore => "Failed to create immutable store plugin '"@,
            PluginProduct::MutableStore => "Failed to create mutable store plugin '"@,
            PluginProduct::LockStore => "Failed to create lock store plugin '"@,
            PluginProduct::CompositeSubStore => "Failed to create "@,
            PluginProduct::Notification => "Failed to create notification plugin '"@,
        }
    }

    /// What stands behind the name of the plugin in the message of a failure.
    pub open spec fn behind(self) -> Seq<char> {
        match self {
            PluginProduct::CompositeSubStore => " immutable store: "@,
            _ => "': "@,
        }
    }

    /// The message where the plugin failed for the given reason.
    pub open spec fn failure_text(self, plugin: Seq<char>, reason: Seq<char>) -> Seq<char> {
        self.before() + plugin + self.behind() + reason
    }

    /// The error where the plugin failed for the given reason.
    pub fn failure(self, plugin: &str, reason: &str) -> (res: ServerError)
        ensures
            res.message@ == self.failure_text(plugin@, reason@),
    {
        let mut message = match self {
            PluginProduct::ImmutableStore => "Failed to create immutable store plugin '".to_owned(),
            PluginProduct::MutableStore => "Failed to create mutable store plugin '".to_owned(),
            PluginProduct::LockStore => "Failed to create lock store plugin '".to_owned(),
            PluginProduct::CompositeSubStore => "Failed to create ".to_owned(),
            PluginProduct::Notification => "Failed to create notification plugin '".to_owned(),
        };
        message.append(plugin);
        match self {
            PluginProduct::CompositeSubStore => message.append(" immutable store: "),
            _ => message.append("': "),
        }
        message.append(reason);
        ServerError { message }
    }
}

/// Where a local store keeps its data.
#[derive(Debug)]
pub struct StorePath {
    pub path: String,
    /// The place was not configured and does not last; the caller warns of it.
    pub ephemeral: bool,
}

impl StorePath {
    /// The configured place, or the default one where none is configured.
    pub open spec fn resolves(&self, configured: Seq<char>, local_data_dir: Seq<char>) -> bool {
        if text::is_blank(configured) {
            self.path@ == local_data_dir && self.ephemeral
        } else {
            self.path@ == configured && !self.ephemeral
        }
    }
}

/// Where a local store keeps its data: the configured place, or the default directory where that is
/// blank.
pub fn resolve_local_store_path(configured: &str, local_data_dir: &str) -> (res: StorePath)
    ensures
        res.resolves(configured@, local_data_dir@),
{
    if text::blank(configured) {
        StorePath { path: local_data_dir.to_owned(), ephemeral: true }
    } else {
        StorePath { path: configured.to_owned(), ephemeral: false }
    }
}

/// What the storage layer prescribes for local stores.
#[derive(Debug, Clone, Copy, PartialEq, Eq, Structural)]
pub struct LocalStoreDefaults {
    pub target_capacity_percentage: u64,
    pub target_size_percentage: u64,
    pub compaction_parallel_groups: usize,
    /// The level at which the layout has all its buckets.
    pub fan_out_level_max: u64,
    pub fan_out_threshold: u64,
}

/// The tuning of a local store for immutable data.
#[derive(Debug, Clone, Copy, PartialEq, Eq, Structural)]
pub struct LocalStoreOptions {
    pub max_capacity: Option<u64>,
    pub eviction_delay_millis: Option<u64>,
    pub max_size: Option<u64>,
    pub compaction_delay_millis: Option<u64>,
    /// Read all buckets at the start.
    pub deserialize_all: bool,
    pub allow_partial_fragment: bool,
    pub protect_local_fragment: bool,
    /// Take every fragment for durably stored.
    pub implicit_durable_stored: bool,
    pub flush_background: bool,
    pub flush_delay_seconds: u64,
    pub target_capacity_percentage: u64,
    pub target_size_percentage: u64,
    pub compaction_parallel_groups: usize,
    pub verify_write: bool,
    pub atime: bool,
    pub initial_fan_out_level: u64,
    pub fan_out_threshold: u64,
}

/// The value, widened.
pub open spec fn widened(value: Option<u32>) -> Option<u64> {
    match value {
        Some(v) => Some(v as u64),
        None => None,
    }
}

impl LocalStoreOptions {
    /// The tuning that a server gives its local store.
    pub open spec fn of(
        settings: LocalImmutableStoreSettings,
        flush_background: bool,
        defaults: LocalStoreDefaults,
    ) -> Self {
        LocalStoreOptions {
            max_capacity: settings.max_capacity,
            eviction_delay_millis: widened(settings.eviction_delay),
            max_size: settings.max_size,
            compaction_delay_millis: widened(settings.compaction_delay),
            deserialize_all: true,
            allow_partial_fragment: false,
            protect_local_fragment: false,
            implicit_durable_stored: true,
            flush_background,
            flush_delay_seconds: settings.flush_delay_seconds as u64,
            target_capacity_percentage: set_or(
                settings.target_capacity_percentage,
                defaults.target_capacity_percentage,
            ),
            target_size_percentage: set_or(
                settings.target_size_percentage,
                defaults.target_size_percentage,
            ),
            compaction_parallel_groups: set_or(
                settings.compaction_parallel_groups,
                defaults.compaction_parallel_groups,
            ),
            verify_write: false,
            atime: false,
            initial_fan_out_level: defaults.fan_out_level_max,
            fan_out_threshold: defaults.fan_out_threshold,
        }
    }

    /// The tuning that a server gives its local store.
    pub fn from_settings(
        settings: &LocalImmutableStoreSettings,
        flush_background: bool,
        defaults: LocalStoreDefaults,
    ) -> (res: Self)
        ensures
            res == LocalStoreOptions::of(*settings, flush_background, defaults),
    {
        LocalStoreOptions {
            max_capacity: settings.max_capacity,
            eviction_delay_millis: match settings.eviction_delay {
                Some(ms) => Some(ms as u64),
                None => None,
            },
            max_size: settings.max_size,
            compaction_delay_millis: match settings.compaction_delay {
                Some(ms) => Some(ms as u64),
                None => None,
            },
            deserialize_all: true,
            allow_partial_fragment: false,
            protect_local_fragment: false,
            implicit_durable_stored: true,
            flush_background,
            flush_delay_seconds: settings.flush_delay_seconds as u64,
            target_capacity_percentage: match settings.target_capacity_percentage {
                Some(percentage) => percentage,
                None => defaults.target_capacity_percentage,
            },
            target_size_percentage: match settings.target_size_percentage {
                Some(percentage) => percentage,
                None => defaults.target_size_percentage,
            },
            compaction_parallel_groups: match settings.compaction_parallel_groups {
                Some(groups) => groups,
                None => defaults.compaction_parallel_groups,
            },
            verify_write: false,
            atime: false,
            initial_fan_out_level: defaults.fan_out_level_max,
            fan_out_threshold: defaults.fan_out_threshold,
        }
    }
}

/// A local store for immutable data that is to be created.
#[derive(Debug)]
pub struct LocalStoreCreation {
    pub path: StorePath,
    pub options: LocalStoreOptions,
}

/// How the local store for immutable data is created.
pub fn create_local_store(
    settings: &LocalImmutableStoreSettings,
    flush_background: bool,
    local_data_dir: &str,
    defaults: LocalStoreDefaults,
) -> (res: LocalStoreCreation)
    ensures
        res.path.resolves(settings.path@, local_data_dir@),
        res.options == LocalStoreOptions::of(*settings, flush_background, defaults),
{
    LocalStoreCreation {
        path: resolve_local_store_path(settings.path.as_str(), local_data_dir),
        options: LocalStoreOptions::from_settings(settings, flush_background, defaults),
    }
}

/// How the server comes by its local store for immutable data. There is one for the whole server: it
/// is created once and shared from then on.
#[derive(Debug)]
pub enum LocalStoreStep<S> {
    Reuse(S),
    Create(LocalStoreCreation),
}

/// Shares the local store where there is one already, and asks for it to be created where not.
pub fn configure_local_immutable_store<S>(
    existing: Option<S>,
    settings: &LocalImmutableStoreSettings,
    local_data_dir: &str,
    defaults: LocalStoreDefaults,
) -> (res: LocalStoreStep<S>)
    ensures
        match existing {
            Some(store) => res == LocalStoreStep::Reuse(store),
            None => res matches LocalStoreStep::Create(creation) && {
                &&& creation.path.resolves(settings.path@, local_data_dir@)
                &&& creation.options == LocalStoreOptions::of(*settings, true, defaults)
            },
        },
{
    match existing {
        Some(store) => LocalStoreStep::Reuse(store),
        None => LocalStoreStep::Create(
            create_local_store(settings, true, local_data_dir, defaults),
        ),
    }
}

/// A local store for mutable data that is to be created.
#[derive(Debug)]
pub struct LocalMutableStoreCreation {
    pub path: StorePath,
    pub flush_delay_seconds: u64,
    pub initial_fan_out_level: u64,
    pub fan_out_threshold: u64,
}

/// How the local store for mutable data is created.
pub fn configure_local_mutable_store(
    settings: &LocalMutableStoreSettings,
    local_data_dir: &str,
    defaults: LocalStoreDefaults,
) -> (res: LocalMutableStoreCreation)
    ensures
        res.path.resolves(settings.path@, local_data_dir@),
        res.flush_delay_seconds == settings.flush_delay_seconds,
        res.initial_fan_out_level == defaults.fan_out_level_max,
        res.fan_out_threshold == defaults.fan_out_threshold,
{
    LocalMutableStoreCreation {
        path: resolve_local_store_path(settings.path.as_str(), local_data_dir),
        flush_delay_seconds: settings.flush_delay_seconds as u64,
        initial_fan_out_level: defaults.fan_out_level_max,
        fan_out_threshold: defaults.fan_out_threshold,
    }
}

/// A store for immutable data on another server that is to be made.
#[derive(Debug)]
pub struct RemoteImmutableStorePlan<'a> {
    pub remote_url: &'a String,
    pub auth_url: Option<&'a String>,
}

/// How the store for immutable data on another server is made: it authenticates at the address that
/// the settings name, where they name one.
pub fn configure_remote_immutable_store<'a>(settings: &'a RemoteStoreSettings) -> (res:
    RemoteImmutableStorePlan<'a>)
    ensures
        res.remote_url == &settings.remote_url,
        match &settings.auth_url {
            Some(auth_url) => res.auth_url == Some(auth_url),
            None => res.auth_url is None,
        },
{
    RemoteImmutableStorePlan {
        remote_url: &settings.remote_url,
        auth_url: match &settings.auth_url {
            Some(auth_url) => Some(auth_url),
            None => None,
        },
    }
}

/// A store for mutable data on another server that is to be made.
#[derive(Debug)]
pub struct RemoteMutableStorePlan<'a> {
    pub remote_url: &'a String,
    pub identity: Option<&'a String>,
}

/// How the store for mutable data on another server is made: without an identity, whatever else the
/// settings say.
pub fn configure_remote_mutable_store<'a>(settings: &'a RemoteStoreSettings) -> (res:
    RemoteMutableStorePlan<'a>)
    ensures
        res == (RemoteMutableStorePlan { remote_url: &settings.remote_url, identity: None }),
{
    RemoteMutableStorePlan { remote_url: &settings.remote_url, identity: None }
}

/// The identity of a client towards another server.
#[derive(Debug)]
pub struct ClientIdentity<'a> {
    pub cert_file: &'a String,
    pub pkey_file: &'a String,
}

/// How a client trusts other servers and is trusted by them.
#[derive(Debug)]
pub struct ClientCertificates<'a> {
    pub custom_ca: Option<&'a String>,
    pub client: Option<ClientIdentity<'a>>,
}

impl<'a> ClientCertificates<'a> {
    /// The certificates in the settings.
    pub open spec fn of(settings: &'a CertificateSettings) -> Self {
        ClientCertificates {
            custom_ca: match &settings.cert_chain {
                Some(chain) => Some(chain),
                None => None,
            },
            client: Some(
                ClientIdentity { cert_file: &settings.cert_file, pkey_file: &settings.pkey_file },
            ),
        }
    }

    /// The system's authorities, and no identity.
    pub open spec fn none() -> Self {
        ClientCertificates { custom_ca: None, client: None }
    }

    /// The certificates in the settings.
    pub fn from_settings(settings: &'a CertificateSettings) -> (res: Self)
        ensures
            res == ClientCertificates::of(settings),
    {
        ClientCertificates {
            custom_ca: match &settings.cert_chain {
                Some(chain) => Some(chain),
                None => None,
            },
            client: Some(
                ClientIdentity { cert_file: &settings.cert_file, pkey_file: &settings.pkey_file },
            ),
        }
    }
}

/// How often a client of a replicated store reconnects where the settings do not say.
pub const DEFAULT_MAX_RECONNECTS: usize = 5;

/// How long such a client waits after it lost its connection, in seconds.
pub const CONNECTION_LOST_SLEEP_SECS: u64 = 1;

/// A store that replicates to another server and is to be made. What is left out keeps the value that
/// clients have by default.
#[derive(Debug)]
pub struct ReplicatedStorePlan<'a> {
    pub remote_url: &'a String,
    pub certs: ClientCertificates<'a>,
    pub max_reconnects: usize,
    pub message_limit: Option<usize>,
    pub max_bandwidth_bytes_per_second: Option<u64>,
    pub expected_rtt_ms: Option<u64>,
    pub regenerate_retry: &'a String,
    pub connection_lost_sleep_secs: u64,
    pub refresh_secs: u64,
    pub metrics_interval_secs: u64,
}

/// The replicating store that the settings ask for.
pub open spec fn replicated_store_plan<'a>(
    settings: &'a ReplicatedStoreSettings,
) -> ReplicatedStorePlan<'a> {
    ReplicatedStorePlan {
        remote_url: &settings.remote_url,
        certs: match &settings.certs {
            Some(certs) => ClientCertificates::of(certs),
            None => ClientCertificates::none(),
        },
        max_reconnects: set_or(settings.client_max_reconnects, DEFAULT_MAX_RECONNECTS),
        message_limit: settings.client_message_limit,
        max_bandwidth_bytes_per_second: settings.max_bandwidth_bytes_per_second,
        expected_rtt_ms: settings.expected_rtt_ms,
        regenerate_retry: &settings.regenerate_retry,
        connection_lost_sleep_secs: CONNECTION_LOST_SLEEP_SECS,
        refresh_secs: settings.periodic_client_refresh_secs,
        metrics_interval_secs: settings.client_metrics_interval_seconds,
    }
}

/// Decides how a replicating store is made.
pub fn configure_replicated_immutable_store<'a>(settings: &'a ReplicatedStoreSettings) -> (res:
    ReplicatedStorePlan<'a>)
    ensures
        res == replicated_store_plan(settings),
{
    let certs = match &settings.certs {
        Some(certs) => ClientCertificates::from_settings(certs),
        None => ClientCertificates { custom_ca: None, client: None },
    };
    let max_reconnects: usize = match settings.client_max_reconnects {
        Some(n) => n,
        None => DEFAULT_MAX_RECONNECTS,
    };
    ReplicatedStorePlan {
        remote_url: &settings.remote_url,
        certs,
        max_reconnects,
        message_limit: settings.client_message_limit,
        max_bandwidth_bytes_per_second: settings.max_bandwidth_bytes_per_second,
        expected_rtt_ms: settings.expected_rtt_ms,
        regenerate_retry: &settings.regenerate_retry,
        connection_lost_sleep_secs: CONNECTION_LOST_SLEEP_SECS,
        refresh_secs: settings.periodic_client_refresh_secs,
        metrics_interval_secs: settings.client_metrics_interval_seconds,
    }
}

/// A part of a composite store that is to be made.
#[derive(Debug)]
pub enum SubStorePlan<'a> {
    Local(&'a LocalImmutableStoreSettings),
    Remote(&'a RemoteStoreSettings),
    Replicated(&'a ReplicatedStoreSettings),
    /// By the plugin of this name.
    Plugin(&'a String),
}

/// The part of a composite store that the settings ask for.
pub open spec fn composite_substore_plan<'a>(settings: &'a CompositeSubStoreSettings) -> Result<
    SubStorePlan<'a>,
    StoreFault,
> {
    match mode_named(settings.mode@) {
        StoreMode::Local => match &settings.local {
            Some(local) => Ok(SubStorePlan::Local(local)),
            None => Err(StoreFault::MissingCompositeLocal),
        },
        StoreMode::Remote => match &settings.remote {
            Some(remote) => Ok(SubStorePlan::Remote(remote)),
            None => Err(StoreFault::MissingCompositeRemote),
        },
        StoreMode::Composite => Err(StoreFault::NestedComposite),
        StoreMode::Replicated => match &settings.replicated {
            Some(replicated) => Ok(SubStorePlan::Replicated(replicated)),
            None => Err(StoreFault::MissingCompositeReplicated),
        },
        StoreMode::Plugin => Ok(SubStorePlan::Plugin(&settings.mode)),
    }
}

/// Decides how a part of a composite store is made.
pub fn configure_composite_substore<'a>(settings: &'a CompositeSubStoreSettings) -> (res: Result<
    SubStorePlan<'a>,
    StoreFault,
>)
    ensures
        res == composite_substore_plan(settings),
{
    match mode_from_name(settings.mode.as_str()) {
        StoreMode::Local => match &settings.local {
            Some(local) => Ok(SubStorePlan::Local(local)),
            None => Err(StoreFault::MissingCompositeLocal),
        },
        StoreMode::Remote => match &settings.remote {
            Some(remote) => Ok(SubStorePlan::Remote(remote)),
            None => Err(StoreFault::MissingCompositeRemote),
        },
        StoreMode::Composite => Err(StoreFault::NestedComposite),
        StoreMode::Replicated => match &settings.replicated {
            Some(replicated) => Ok(SubStorePlan::Replicated(replicated)),
            None => Err(StoreFault::MissingCompositeReplicated),
        },
        StoreMode::Plugin => Ok(SubStorePlan::Plugin(&settings.mode)),
    }
}

/// The role of a part in a composite store.
#[derive(Debug, Clone, Copy, PartialEq, Eq, Structural)]
pub enum SubStoreRole {
    Local,
    Durable,
    Replica { read: bool, write: bool },
}

/// The role of a replica: it is read from unless it is for writing only, and written to unless it is
/// for reading only.
pub open spec fn replica_role(mode: ReplicationMode) -> SubStoreRole {
    SubStoreRole::Replica {
        read: mode != ReplicationMode::Write,
        write: mode != ReplicationMode::Read,
    }
}

/// A step in the making of a composite store: make the part, and add it in its role under the name of
/// its mode. A part that cannot be made ends the making.
#[derive(Debug)]
pub enum CompositeStep<'a> {
    Add { role: SubStoreRole, mode: &'a String, store: SubStorePlan<'a> },
    Fail(StoreFault),
}

/// The step for a part.
pub open spec fn composite_step<'a>(
    role: SubStoreRole,
    settings: &'a CompositeSubStoreSettings,
) -> CompositeStep<'a> {
    match composite_substore_plan(settings) {
        Ok(store) => CompositeStep::Add { role, mode: &settings.mode, store },
        Err(fault) => CompositeStep::Fail(fault),
    }
}

/// Decides the step for a part.
fn plan_composite_step<'a>(role: SubStoreRole, settings: &'a CompositeSubStoreSettings) -> (res:
    CompositeStep<'a>)
    ensures
        res == composite_step(role, settings),
{
    match configure_composite_substore(settings) {
        Ok(store) => CompositeStep::Add { role, mode: &settings.mode, store },
        Err(fault) => CompositeStep::Fail(fault),
    }
}

/// The factory of replicas that is to be made.
#[derive(Debug)]
pub struct ReplicaFactoryPlan<'a> {
    /// The certificates of clients over QUIC.
    pub quic_certs: ClientCertificates<'a>,
    /// The certificates of clients over gRPC, loaded from their files; without them gRPC is plain.
    pub grpc_certs: Option<&'a CertificateSettings>,
    /// The name to ask other servers for.
    pub server_sni: Option<&'a String>,
    pub client_message_buffer: usize,
    pub read_replicas_enabled: bool,
    pub use_grpc_write_replication: bool,
    pub monitor_interval_secs: u64,
    pub enable_same_region_write: bool,
}

/// The factory of replicas that the settings ask for.
pub open spec fn replica_factory_plan<'a>(settings: &'a ReplicaFactorySettings) -> ReplicaFactoryPlan<
    'a,
> {
    ReplicaFactoryPlan {
        quic_certs: match &settings.tls {
            Some(tls) => ClientCertificates::of(&tls.client_certs),
            None => ClientCertificates::none(),
        },
        grpc_certs: match &settings.tls {
            Some(tls) => Some(&tls.client_certs),
            None => None,
        },
        server_sni: match &settings.tls {
            Some(tls) => match &tls.server_sni {
                Some(name) => Some(name),
                None => None,
            },
            None => None,
        },
        client_message_buffer: settings.client_message_buffer,
        read_replicas_enabled: settings.read_replicas_enabled,
        use_grpc_write_replication: settings.use_grpc_write_replication,
        monitor_interval_secs: settings.quic_client_monitor_interval_seconds,
        enable_same_region_write: settings.enable_same_region_write,
    }
}

/// Decides how the factory of replicas is made.
pub fn plan_replica_factory<'a>(settings: &'a ReplicaFactorySettings) -> (res: ReplicaFactoryPlan<
    'a,
>)
    ensures
        res == replica_factory_plan(settings),
{
    let (quic_certs, grpc_certs, server_sni) = match &settings.tls {
        Some(tls) => (
            ClientCertificates::from_settings(&tls.client_certs),
            Some(&tls.client_certs),
            match &tls.server_sni {
                Some(name) => Some(name),
                None => None,
            },
        ),
        None => (ClientCertificates { custom_ca: None, client: None }, None, None),
    };
    ReplicaFactoryPlan {
        quic_certs,
        grpc_certs,
        server_sni,
        client_message_buffer: settings.client_message_buffer,
        read_replicas_enabled: settings.read_replicas_enabled,
        use_grpc_write_replication: settings.use_grpc_write_replication,
        monitor_interval_secs: settings.quic_client_monitor_interval_seconds,
        enable_same_region_write: settings.enable_same_region_write,
    }
}

/// A composite store that is to be made: its parts, added in this order, and behind them the factory
/// of replicas. Once it is made, it subscribes to the topology where there is one.
#[derive(Debug)]
pub struct CompositeStorePlan<'a, T> {
    pub cache_query_results: bool,
    pub steps: Vec<CompositeStep<'a>>,
    pub replica_factory: Option<ReplicaFactoryPlan<'a>>,
    pub subscribe_to: Option<T>,
}

/// The steps for the replicas.
pub open spec fn replica_steps<'a>(replicas: Seq<CompositeSubStoreSettings>) -> Seq<
    CompositeStep<'a>,
> {
    replicas.map_values(
        |replica: CompositeSubStoreSettings|
            composite_step(replica_role(replica.replication_mode), &replica),
    )
}

/// The steps for all parts: the local one, the durable one where there is one, the replicas in their
/// order.
pub open spec fn composite_steps<'a>(settings: &'a CompositeStoreSettings) -> Seq<
    CompositeStep<'a>,
> {
    seq![composite_step(SubStoreRole::Local, &settings.local)] + (match &settings.durable {
        Some(durable) => seq![composite_step(SubStoreRole::Durable, durable)],
        None => Seq::empty(),
    }) + (match &settings.replica {
        Some(replicas) => replica_steps(replicas@),
        None => Seq::empty(),
    })
}

/// Decides how a composite store is made in a server with the given topology.
pub fn configure_composite_store<'a, T>(
    settings: &'a CompositeStoreSettings,
    topology: Option<T>,
) -> (res: CompositeStorePlan<'a, T>)
    ensures
        res.cache_query_results == set_or(settings.should_cache_query_results, false),
        res.steps@ == composite_steps(settings),
        match &settings.replica_factory {
            Some(factory) => res.replica_factory == Some(replica_factory_plan(factory)),
            None => res.replica_factory is None,
        },
        res.subscribe_to == topology,
{
    let cache_query_results = match settings.should_cache_query_results {
        Some(cache) => cache,
        None => false,
    };
    let mut steps: Vec<CompositeStep<'a>> = Vec::new();
    steps.push(plan_composite_step(SubStoreRole::Local, &settings.local));
    if let Some(durable) = &settings.durable {
        steps.push(plan_composite_step(SubStoreRole::Durable, durable));
    }
    let ghost first = steps@;
    if let Some(replicas) = &settings.replica {
        let mut i: usize = 0;
        while i < replicas.len()
            invariant
                i <= replicas@.len(),
                steps@ == first + replica_steps(replicas@.take(i as int)),
            decreases replicas@.len() - i,
        {
            let replica = &replicas[i];
            let role = SubStoreRole::Replica {
                read: match replica.replication_mode {
                    ReplicationMode::Write => false,
                    _ => true,
                },
                write: match replica.replication_mode {
                    ReplicationMode::Read => false,
                    _ => true,
                },
            };
            assert(role == replica_role(replica.replication_mode));
            let step = plan_composite_step(role, replica);
            proof {
                assert(replicas@.take(i + 1) =~= replicas@.take(i as int).push(*replica));
                assert(replica_steps(replicas@.take(i + 1)) =~= replica_steps(
                    replicas@.take(i as int),
                ).push(step));
            }
            steps.push(step);
            i = i + 1;
        }
        assert(replicas@.take(i as int) =~= replicas@);
    }
    assert(steps@ =~= composite_steps(settings));
    let replica_factory = match &settings.replica_factory {
        Some(factory) => Some(plan_replica_factory(factory)),
        None => None,
    };
    CompositeStorePlan { cache_query_results, steps, replica_factory, subscribe_to: topology }
}

/// The store for operations that are meant for the local one: without a local store they go to the
/// main store.
pub fn local_or_main<S>(local: Option<S>, main: S) -> (res: S)
    ensures
        res == set_or(local, main),
{
    match local {
        Some(store) => store,
        None => main,
    }
}

/// A certificate that is to be generated for an endpoint which has none.
#[derive(Debug)]
pub struct EphemeralCertificate {
    /// The names of its files.
    pub cert_name: String,
    pub key_name: String,
    /// What the certificate is good for.
    pub hosts: Vec<String>,
}

/// How a certificate for an endpoint without one is generated: for this machine alone, into files
/// named after the endpoint.
pub fn generate_ephemeral_certificate(endpoint: &str) -> (res: EphemeralCertificate)
    ensures
        res.cert_name@ == endpoint@ + "-cert.pem"@,
        res.key_name@ == endpoint@ + "-key.pem"@,
        text::views(res.hosts@) == seq!["localhost"@, "127.0.0.1"@, "::1"@],
{
    let mut cert_name = endpoint.to_owned();
    cert_name.append("-cert.pem");
    let mut key_name = endpoint.to_owned();
    key_name.append("-key.pem");
    let mut hosts: Vec<String> = Vec::new();
    hosts.push("localhost".to_owned());
    hosts.push("127.0.0.1".to_owned());
    hosts.push("::1".to_owned());
    assert(text::views(hosts@) =~= seq!["localhost"@, "127.0.0.1"@, "::1"@]);
    EphemeralCertificate { cert_name, key_name, hosts }
}

/// What can go wrong with the files of a generated certificate.
#[derive(Debug, Clone, Copy, PartialEq, Eq, Structural)]
pub enum EphemeralFault {
    Directory,
    Certificate,
    PrivateKey,
}

impl EphemeralFault {
    /// The message where the file or directory could not be written for the given reason.
    pub open spec fn text(self, path: Seq<char>, reason: Seq<char>) -> Seq<char> {
        match self {
            EphemeralFault::Directory => "failed to create directory "@ + path
                + " for ephemeral certificate: "@ + reason,
            EphemeralFault::Certificate => "failed to write ephemeral certificate "@ + path + ": "@
                + reason,
            EphemeralFault::PrivateKey => "failed to write ephemeral private key "@ + path + ": "@
                + reason,
        }
    }

    /// The error where the file or directory could not be written for the given reason.
    pub fn error(self, path: &str, reason: &str) -> (res: ServerError)
        ensures
            res.message@ == self.text(path@, reason@),
    {
        let mut message = match self {
            EphemeralFault::Directory => "failed to create directory ".to_owned(),
            EphemeralFault::Certificate => "failed to write ephemeral certificate ".to_owned(),
            EphemeralFault::PrivateKey => "failed to write ephemeral private key ".to_owned(),
        };
        message.append(path);
        match self {
            EphemeralFault::Directory => message.append(" for ephemeral certificate: "),
            _ => message.append(": "),
        }
        message.append(reason);
        ServerError { message }
    }
}

/// A composite store has exactly one local part, which comes first, and no part of a composite store
/// is itself composite.
pub proof fn law_composite_stores_do_not_nest(settings: &CompositeStoreSettings, i: int)
    requires
        0 <= i < composite_steps(settings).len(),
    ensures
        match composite_steps(settings)[i] {
            CompositeStep::Add { role, mode, store } => {
                &&& role == SubStoreRole::Local <==> i == 0
                &&& mode_named(mode@) != StoreMode::Composite
            },
            CompositeStep::Fail(_) => true,
        },
{
}

/// Every replica is read from or written to.
pub proof fn law_no_idle_replica(mode: ReplicationMode)
    ensures
        match replica_role(mode) {
            SubStoreRole::Replica { read, write } => read || write,
            _ => false,
        },
{
}

} // verus!
