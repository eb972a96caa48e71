use lore_auth::endpoints::{
    choose_quic_certificate, choose_quic_verification, compiled_features, launch_grpc_server,
    limit_environment, plan_grpc_internal_launch, plan_grpc_launch, require_local_store, validate_endpoint_security,
    BuildFeatures, ClientVerification, EndpointSecurity, QuicCertificate, QuicFault,
    QuicInternalStreamHandler, QuicPublicStreamHandler, QuinnConfig, StreamService,
};
use lore_auth::jwk::JWKServiceSettings;
use lore_auth::runtime::{
    combined_detectors, find_mapping, is_maintenance, observe_task_lifecycle, server_log_level,
    user_agent, LogLevel, TaskContext, TaskLifecycleEvent,
};
use lore_auth::seeding::{
    find_seeding_store, parse_usize, seed_local_store, seeding_outcome, SeedingFault,
    SeedingVariables,
};
use lore_auth::settings::{
    AuthSettings, CertificateSettings, ClientConfig, Cli, CompositeStoreSettings,
    CompositeSubStoreSettings, EndpointConfig, EnvironmentConfig, GrpcInternalSettings, GrpcSettings, HttpSettings,
    ImmutableStoreSettings, LocalImmutableStoreSettings, LocalMutableStoreSettings,
    LockStoreSettings, MutableStoreSettings, NotificationSettings, QuicSettings,
    RemoteStoreSettings, ReplicaFactorySettings, ReplicaTlsSettings, ReplicatedStoreSettings,
    ReplicationMode, ServerSettings, Settings,
};
use lore_auth::shutdown::{EndpointExit, Shutdown, ShutdownAction, ShutdownEvent, ShutdownPhase};
use lore_auth::startup::{
    async_main, caller_auth, caller_verifier, invalid_user_agent_patterns,
    may_generate_certificate, metrics_interval_millis, step_result, StartupContext, StartupStep,
};
use lore_auth::stores::{
    configure_composite_store, configure_local_immutable_store, configure_local_mutable_store,
    configure_remote_immutable_store, configure_remote_mutable_store,
    configure_replicated_immutable_store, generate_ephemeral_certificate, local_or_main,
    plan_immutable_store, plan_lock_store, plan_mutable_store, plan_notification, resolve_local_store_path,
    CompositeStep, EphemeralFault, ImmutableStorePlan, LocalStoreDefaults, LocalStoreStep,
    LockStorePlan, MutableStorePlan, NotificationPlan, PluginProduct, StoreFault, SubStorePlan,
    SubStoreRole,
};

const LABEL: &str = "[server.test]";

fn text(s: &str) -> String {
    s.to_string()
}

fn mtls_triple() -> CertificateSettings {
    CertificateSettings {
        cert_file: text("cert.pem"),
        pkey_file: text("key.pem"),
        cert_chain: Some(text("ca.pem")),
    }
}

fn no_chain() -> CertificateSettings {
    CertificateSettings {
        cert_file: text("cert.pem"),
        pkey_file: text("key.pem"),
        cert_chain: None,
    }
}

#[test]
fn full_mtls_triple_with_verify_yields_mtls() {
    let cert = mtls_triple();
    let security = validate_endpoint_security(LABEL, Some(&cert), true)
        .expect("full mTLS triple should be accepted");
    assert_eq!(security, EndpointSecurity::Mtls);
}

#[test]
fn verify_off_yields_untrusted_even_with_full_triple() {
    let cert = mtls_triple();
    let security = validate_endpoint_security(LABEL, Some(&cert), false)
        .expect("verify_client_certs=false is always accepted");
    assert_eq!(security, EndpointSecurity::Untrusted);
}

#[test]
fn verify_off_with_no_certs_yields_untrusted() {
    let security = validate_endpoint_security(LABEL, None, false)
        .expect("verify_client_certs=false is always accepted");
    assert_eq!(security, EndpointSecurity::Untrusted);
}

#[test]
fn verify_on_with_no_certs_is_rejected() {
    let err = validate_endpoint_security(LABEL, None, true)
        .expect_err("default policy must refuse to start without mTLS");
    let message = err.to_string();
    assert!(message.contains(LABEL), "label must appear: {message}");
    assert!(message.contains("requires mTLS"), "got: {message}");
    assert!(
        message.contains("verify_client_certs"),
        "error must name the opt-out flag; got: {message}"
    );
}

#[test]
fn verify_on_with_partial_cert_is_rejected() {
    let cert = no_chain();
    let err = validate_endpoint_security(LABEL, Some(&cert), true)
        .expect_err("partial mTLS (no CA chain) must be rejected");
    let message = err.to_string();
    assert!(message.contains(LABEL), "label must appear: {message}");
    assert!(message.contains("partially configured"), "got: {message}");
    assert!(message.contains("cert_chain"), "got: {message}");
}

#[test]
fn security_errors_are_exact() {
    assert_eq!(
        validate_endpoint_security(LABEL, None, true).unwrap_err().to_string(),
        "[server.test] requires mTLS to start (verify_client_certs = true). \
         Configure certificate.cert_file, certificate.pkey_file, and \
         certificate.cert_chain, or set verify_client_certs = false \
         to explicitly accept the security exposure"
    );
    assert_eq!(
        validate_endpoint_security(LABEL, Some(&no_chain()), true).unwrap_err().to_string(),
        "[server.test] certificate is partially configured: \
         certificate.cert_file and certificate.pkey_file are set but \
         certificate.cert_chain (the CA used to verify client certs) \
         is missing. The endpoint requires mTLS, not server-only TLS"
    );
}

#[test]
fn the_features_of_the_build_are_named() {
    let build = |failure_generator: bool, oodle: bool, seeding: bool| {
        compiled_features(BuildFeatures { failure_generator, oodle, seeding })
    };
    assert!(build(false, false, false).is_empty());
    assert_eq!(build(true, false, true), vec![text("failure_generator"), text("seeding")]);
    assert_eq!(build(false, true, false), vec![text("oodle")]);
}

fn quic(enabled: bool, certificate: Option<CertificateSettings>, verify: bool) -> QuicSettings {
    QuicSettings {
        enabled,
        host: text("0.0.0.0"),
        port: 41337,
        certificate,
        verify_client_certs: verify,
        num_listeners: 4,
        idle_timeout: Some(1),
        keep_alive: None,
        max_bidi_streams: Some(2),
        transport_bits_per_second: None,
        transport_rtt: Some(3),
        handler_timeout_seconds: Some(7),
        connection_message_limit: None,
    }
}

#[test]
fn settings_override_the_transport() {
    let base = QuinnConfig {
        num_listeners: 1,
        idle_timeout_millis: 10,
        keep_alive_millis: 20,
        max_bidi_streams: 30,
        transport_bits_per_second: 40,
        transport_rtt: 50,
    };
    let config = QuinnConfig::from(base, &quic(true, None, false));
    assert_eq!(
        config,
        QuinnConfig {
            num_listeners: 4,
            idle_timeout_millis: 1,
            keep_alive_millis: 20,
            max_bidi_streams: 2,
            transport_bits_per_second: 40,
            transport_rtt: 3,
        }
    );
}

#[test]
fn quic_certificates_are_configured_or_generated() {
    let configured = quic(true, Some(mtls_triple()), true);
    match choose_quic_certificate(&configured, false).unwrap() {
        QuicCertificate::Configured(cert) => {
            match choose_quic_verification(true, cert).unwrap() {
                ClientVerification::Authority(chain) => assert_eq!(chain, "ca.pem"),
                other => panic!("unexpected verification: {other:?}"),
            }
        }
        other => panic!("unexpected certificate: {other:?}"),
    }
    let missing = quic(true, None, false);
    assert!(matches!(
        choose_quic_certificate(&missing, true),
        Ok(QuicCertificate::Ephemeral)
    ));
    let fault = choose_quic_certificate(&missing, false).unwrap_err();
    assert_eq!(fault.error().to_string(), "Missing QUIC certificate config");
    assert!(matches!(
        choose_quic_verification(false, &no_chain()),
        Ok(ClientVerification::Skipped)
    ));
    let fault = choose_quic_verification(true, &no_chain()).unwrap_err();
    assert_eq!(fault, QuicFault::MissingChain);
    assert_eq!(fault.error().to_string(), "Missing cert chain");
}

fn grpc(certificate: Option<CertificateSettings>) -> GrpcSettings {
    GrpcSettings {
        host: text("127.0.0.1"),
        port: 50051,
        certificate,
        http2_keepalive_interval_seconds: None,
        http2_keepalive_timeout_seconds: None,
        request_handler_timeout_seconds: 60,
    }
}

#[test]
fn grpc_endpoints_are_launched_from_their_settings() {
    let settings = Some(grpc(Some(mtls_triple())));
    let launch = plan_grpc_launch(&settings).unwrap();
    assert_eq!(launch.address, "127.0.0.1:50051");
    assert_eq!(launch.tls.cert.map(|path| path.as_str()), Some("cert.pem"));
    assert_eq!(launch.tls.key.map(|path| path.as_str()), Some("key.pem"));
    assert_eq!(launch.tls.chain.map(|path| path.as_str()), Some("ca.pem"));
    assert_eq!(
        plan_grpc_launch(&None).unwrap_err().to_string(),
        "Missing gRPC settings"
    );
    let internal = Some(GrpcInternalSettings {
        enabled: true,
        verify_client_certs: false,
        grpc: grpc(None),
    });
    assert!(plan_grpc_internal_launch(&internal).unwrap().tls.cert.is_none());
    assert_eq!(
        plan_grpc_internal_launch(&None).unwrap_err().to_string(),
        "Missing gRPC internal settings"
    );
    assert_eq!(require_local_store(Some(5)).unwrap(), 5);
    assert_eq!(
        require_local_store::<u8>(None).unwrap_err().to_string(),
        "Cannot configure gRPC internal server, no local store"
    );
}

#[test]
fn the_batch_size_is_cut_to_what_the_store_takes() {
    let environment = |size: Option<usize>| {
        Some(EnvironmentConfig {
            endpoint: None,
            config: Some(ClientConfig { max_query_batch: size, compression_mode: Some(2) }),
        })
    };
    let advertised = |size: Option<usize>, limit: Option<usize>| {
        limit_environment(environment(size), limit).config.unwrap().max_query_batch
    };
    assert_eq!(advertised(Some(100), Some(50)), Some(50));
    assert_eq!(advertised(Some(20), Some(50)), Some(20));
    assert_eq!(advertised(Some(0), Some(50)), Some(50));
    assert_eq!(advertised(None, Some(50)), Some(50));
    assert_eq!(advertised(Some(100), None), Some(100));
    assert!(limit_environment(None, None).config.is_none());
    let made = limit_environment(None, Some(9)).config.unwrap();
    assert_eq!((made.max_query_batch, made.compression_mode), (Some(9), None));
}

#[test]
fn the_quic_endpoints_offer_their_services() {
    let auth = auth(Some("trust_authenticated"));
    let public = QuicPublicStreamHandler::new("lore-storage/4", Some(&auth), 500, Some(7));
    assert_eq!(public.supported_protocols(), vec![text("urc/0.2"), text("lore-storage/4")]);
    let old = public.get_stream_handler_builder("urc/0.2").unwrap();
    assert_eq!(old.service, StreamService::Storage);
    let new = public.get_stream_handler_builder("lore-storage/4").unwrap();
    assert_eq!(new.service, StreamService::StorageV4);
    assert_eq!((new.process_limit, new.handler_timeout_seconds), (500, Some(7)));
    for service in [old, new] {
        assert_eq!(service.auth.unwrap().jwt_issuer.as_deref(), Some("https://idp.example"));
    }
    assert!(public.get_stream_handler_builder("h3").is_none());
    let open = QuicPublicStreamHandler::new("lore-storage/4", None, 500, Some(7));
    assert!(open.services.iter().all(|service| service.auth.is_none()));
    let internal = QuicInternalStreamHandler::new("lore-replication/1", 10, None);
    assert_eq!(internal.supported_protocols(), vec![text("lore-replication/1")]);
    let service = internal.get_stream_handler_builder("lore-replication/1").unwrap();
    assert_eq!(service.service, StreamService::ReplicationStore);
    assert!(service.auth.is_none());
}

fn auth(mode: Option<&str>) -> AuthSettings {
    AuthSettings {
        jwk: Some(JWKServiceSettings { endpoint: text("https://idp.example/keys") }),
        jwt_issuer: Some(text("https://idp.example")),
        jwt_audience: Some(vec![text("lore"), text("server")]),
        authorization_mode: mode.map(text),
    }
}

#[test]
fn the_public_grpc_endpoint_tells_what_it_is() {
    let mut settings = settings();
    settings.environment = Some(EnvironmentConfig {
        endpoint: Some(EndpointConfig { auth_url: Some(text("oidc://idp.example")) }),
        config: None,
    });
    settings.feature = Some(text("previews = true"));
    let build = BuildFeatures { failure_generator: false, oodle: true, seeding: true };
    let auth = auth(None);
    let plan = launch_grpc_server(&settings, build, Some(32), Some(&auth)).unwrap();
    assert_eq!(plan.launch.address, "127.0.0.1:50051");
    assert_eq!(plan.environment.config.unwrap().max_query_batch, Some(32));
    assert_eq!(
        plan.environment.endpoint.unwrap().auth_url.as_deref(),
        Some("oidc://idp.example")
    );
    assert_eq!(plan.feature, "previews = true");
    assert_eq!(plan.reported_features, vec![text("oodle"), text("seeding")]);
    assert!(plan.reported_settings.is_empty());
    assert_eq!(plan.auth.unwrap().jwt_issuer, auth.jwt_issuer);
    settings.feature = None;
    let plan = launch_grpc_server(&settings, build, None, None).unwrap();
    assert!(plan.auth.is_none() && plan.feature.is_empty());
    settings.server.grpc = None;
    assert_eq!(
        launch_grpc_server(&settings, build, None, None).unwrap_err().to_string(),
        "Missing gRPC settings"
    );
}

#[test]
fn without_a_local_store_the_main_one_answers() {
    assert_eq!(local_or_main(Some("local"), "main"), "local");
    assert_eq!(local_or_main(None, "main"), "main");
}

fn local() -> LocalImmutableStoreSettings {
    LocalImmutableStoreSettings {
        path: text("/data"),
        max_capacity: Some(10),
        eviction_delay: Some(100),
        max_size: Some(20),
        compaction_delay: None,
        flush_delay_seconds: 5,
        target_capacity_percentage: None,
        target_size_percentage: Some(70),
        compaction_parallel_groups: None,
    }
}

fn defaults() -> LocalStoreDefaults {
    LocalStoreDefaults {
        target_capacity_percentage: 80,
        target_size_percentage: 90,
        compaction_parallel_groups: 3,
        fan_out_level_max: 8,
        fan_out_threshold: 64,
    }
}

fn remote() -> RemoteStoreSettings {
    RemoteStoreSettings { remote_url: text("lore://remote"), auth_url: None }
}

fn replicated() -> ReplicatedStoreSettings {
    ReplicatedStoreSettings {
        remote_url: text("lore://replica"),
        certs: Some(mtls_triple()),
        client_max_reconnects: None,
        client_message_limit: Some(9),
        max_bandwidth_bytes_per_second: None,
        expected_rtt_ms: Some(30),
        regenerate_retry: text("max_attempts = 3"),
        periodic_client_refresh_secs: 60,
        client_metrics_interval_seconds: 15,
    }
}

fn immutable(mode: &str) -> ImmutableStoreSettings {
    ImmutableStoreSettings {
        mode: text(mode),
        local: None,
        composite: None,
        replicated: None,
        remote: None,
    }
}

fn substore(mode: &str, replication_mode: ReplicationMode) -> CompositeSubStoreSettings {
    CompositeSubStoreSettings {
        mode: text(mode),
        local: Some(local()),
        remote: Some(remote()),
        replicated: None,
        replication_mode,
    }
}

fn composite() -> CompositeStoreSettings {
    CompositeStoreSettings {
        should_cache_query_results: None,
        local: substore("local", ReplicationMode::ReadWrite),
        durable: Some(substore("s3", ReplicationMode::ReadWrite)),
        replica: Some(vec![
            substore("remote", ReplicationMode::Read),
            substore("remote", ReplicationMode::Write),
            substore("composite", ReplicationMode::ReadWrite),
        ]),
        replica_factory: Some(ReplicaFactorySettings {
            tls: Some(ReplicaTlsSettings {
                client_certs: mtls_triple(),
                server_sni: Some(text("sni.example")),
            }),
            client_message_buffer: 5,
            read_replicas_enabled: true,
            use_grpc_write_replication: false,
            quic_client_monitor_interval_seconds: 11,
            enable_same_region_write: true,
        }),
    }
}

#[test]
fn immutable_stores_follow_their_mode() {
    let fault = |mode: &str| plan_immutable_store(&immutable(mode)).unwrap_err().error().to_string();
    assert_eq!(fault("local"), "Missing local immutable store settings");
    assert_eq!(fault("composite"), "Missing composite store settings");
    assert_eq!(fault("replicated"), "Missing replicated store settings");
    assert_eq!(fault("remote"), "Missing remote immutable store settings");
    let plugin = immutable("s3");
    match plan_immutable_store(&plugin).unwrap() {
        ImmutableStorePlan::Plugin(name) => assert_eq!(name, "s3"),
        other => panic!("unexpected plan: {other:?}"),
    }
    let mut settings = immutable("local");
    settings.local = Some(local());
    match plan_immutable_store(&settings).unwrap() {
        ImmutableStorePlan::Local(local) => assert_eq!(local.path, "/data"),
        other => panic!("unexpected plan: {other:?}"),
    }
}

fn mutable(mode: &str) -> MutableStoreSettings {
    MutableStoreSettings { mode: text(mode), local: None, remote: None }
}

#[test]
fn mutable_stores_follow_their_mode() {
    let fault = |mode: &str| plan_mutable_store(&mutable(mode)).unwrap_err().error().to_string();
    assert_eq!(fault("local"), "Missing local mutable store settings");
    assert_eq!(fault("remote"), "Missing remote mutable store settings");
    assert_eq!(fault("replicated"), "replicated mutable store is not implemented");
    assert_eq!(
        fault("composite"),
        "Invalid settings, cannot have composite store as mutable store"
    );
    let plugin = mutable("dynamodb");
    assert!(matches!(plan_mutable_store(&plugin), Ok(MutableStorePlan::Plugin(_))));
}

#[test]
fn lock_stores_and_notifications_follow_their_mode() {
    assert!(plan_lock_store(&None).is_none());
    let local = Some(LockStoreSettings { mode: text("local") });
    assert!(matches!(plan_lock_store(&local), Some(LockStorePlan::Local)));
    let remote = Some(LockStoreSettings { mode: text("remote") });
    assert!(matches!(plan_lock_store(&remote), Some(LockStorePlan::Plugin(_))));
    assert!(matches!(plan_notification(&None), NotificationPlan::Local));
    let local = Some(NotificationSettings { mode: text("local") });
    assert!(matches!(plan_notification(&local), NotificationPlan::Local));
    let plugin = Some(NotificationSettings { mode: text("sns") });
    match plan_notification(&plugin) {
        NotificationPlan::Plugin(name) => assert_eq!(name, "sns"),
        other => panic!("unexpected plan: {other:?}"),
    }
}

#[test]
fn plugin_failures_name_the_plugin() {
    let failure = |product: PluginProduct| product.failure("s3", "no bucket").to_string();
    assert_eq!(
        failure(PluginProduct::ImmutableStore),
        "Failed to create immutable store plugin 's3': no bucket"
    );
    assert_eq!(
        failure(PluginProduct::MutableStore),
        "Failed to create mutable store plugin 's3': no bucket"
    );
    assert_eq!(
        failure(PluginProduct::LockStore),
        "Failed to create lock store plugin 's3': no bucket"
    );
    assert_eq!(
        failure(PluginProduct::CompositeSubStore),
        "Failed to create s3 immutable store: no bucket"
    );
    assert_eq!(
        failure(PluginProduct::Notification),
        "Failed to create notification plugin 's3': no bucket"
    );
}

#[test]
fn a_blank_store_path_falls_back_to_the_default() {
    let path = resolve_local_store_path(" \t", "/tmp/lore-server");
    assert_eq!((path.path.as_str(), path.ephemeral), ("/tmp/lore-server", true));
    let path = resolve_local_store_path("/data", "/tmp/lore-server");
    assert_eq!((path.path.as_str(), path.ephemeral), ("/data", false));
}

#[test]
fn the_local_store_is_created_once() {
    match configure_local_immutable_store(Some("store"), &local(), "/tmp", defaults()) {
        LocalStoreStep::Reuse(store) => assert_eq!(store, "store"),
        other => panic!("unexpected step: {other:?}"),
    }
    let creation = match configure_local_immutable_store::<u8>(None, &local(), "/tmp", defaults()) {
        LocalStoreStep::Create(creation) => creation,
        other => panic!("unexpected step: {other:?}"),
    };
    assert_eq!(creation.path.path, "/data");
    let options = creation.options;
    assert_eq!(options.eviction_delay_millis, Some(100));
    assert_eq!(options.compaction_delay_millis, None);
    assert_eq!(options.target_capacity_percentage, 80);
    assert_eq!(options.target_size_percentage, 70);
    assert_eq!(options.compaction_parallel_groups, 3);
    assert_eq!(options.flush_delay_seconds, 5);
    assert_eq!(options.initial_fan_out_level, 8);
    assert!(options.flush_background && options.deserialize_all);
    assert!(options.implicit_durable_stored && !options.allow_partial_fragment);
    let settings = LocalMutableStoreSettings { path: text(""), flush_delay_seconds: 3 };
    let creation = configure_local_mutable_store(&settings, "/tmp", defaults());
    assert!(creation.path.ephemeral);
    assert_eq!((creation.flush_delay_seconds, creation.fan_out_threshold), (3, 64));
}

#[test]
fn a_replicated_store_reconnects_by_default() {
    let settings = replicated();
    let plan = configure_replicated_immutable_store(&settings);
    assert_eq!(plan.max_reconnects, 5);
    assert_eq!(plan.message_limit, Some(9));
    assert_eq!(plan.certs.custom_ca.map(|path| path.as_str()), Some("ca.pem"));
    assert_eq!(plan.certs.client.unwrap().cert_file, "cert.pem");
    assert_eq!(plan.regenerate_retry, "max_attempts = 3");
    assert_eq!((plan.connection_lost_sleep_secs, plan.refresh_secs), (1, 60));
    let mut plain = replicated();
    plain.certs = None;
    plain.client_max_reconnects = Some(0);
    let plan = configure_replicated_immutable_store(&plain);
    assert_eq!(plan.max_reconnects, 0);
    assert!(plan.certs.client.is_none() && plan.certs.custom_ca.is_none());
}

#[test]
fn a_composite_store_is_made_part_by_part() {
    let settings = composite();
    let plan = configure_composite_store(&settings, Some("mesh"));
    assert_eq!(plan.subscribe_to, Some("mesh"));
    assert!(configure_composite_store::<u8>(&settings, None).subscribe_to.is_none());
    assert!(!plan.cache_query_results);
    assert_eq!(plan.steps.len(), 5);
    match &plan.steps[0] {
        CompositeStep::Add { role, mode, store } => {
            assert_eq!(*role, SubStoreRole::Local);
            assert_eq!(mode.as_str(), "local");
            assert!(matches!(store, SubStorePlan::Local(_)));
        }
        other => panic!("unexpected step: {other:?}"),
    }
    assert!(matches!(
        &plan.steps[1],
        CompositeStep::Add { role: SubStoreRole::Durable, store: SubStorePlan::Plugin(_), .. }
    ));
    assert!(matches!(
        &plan.steps[2],
        CompositeStep::Add { role: SubStoreRole::Replica { read: true, write: false }, .. }
    ));
    assert!(matches!(
        &plan.steps[3],
        CompositeStep::Add { role: SubStoreRole::Replica { read: false, write: true }, .. }
    ));
    match &plan.steps[4] {
        CompositeStep::Fail(fault) => {
            assert_eq!(*fault, StoreFault::NestedComposite);
            assert_eq!(
                fault.error().to_string(),
                "Composite store not supported as a composite substore"
            );
        }
        other => panic!("unexpected step: {other:?}"),
    }
    let factory = plan.replica_factory.unwrap();
    assert_eq!(factory.server_sni.map(|name| name.as_str()), Some("sni.example"));
    assert_eq!(factory.quic_certs.custom_ca.map(|path| path.as_str()), Some("ca.pem"));
    assert!(factory.grpc_certs.is_some() && factory.enable_same_region_write);
    assert_eq!((factory.client_message_buffer, factory.monitor_interval_secs), (5, 11));
}

#[test]
fn substores_need_their_settings() {
    let settings = |mode: &str| {
        let mut settings = composite();
        settings.local = CompositeSubStoreSettings {
            mode: text(mode),
            local: None,
            remote: None,
            replicated: None,
            replication_mode: ReplicationMode::ReadWrite,
        };
        settings
    };
    let fault = |mode: &str| match &configure_composite_store::<u8>(&settings(mode), None).steps[0] {
        CompositeStep::Fail(fault) => fault.error().to_string(),
        other => panic!("unexpected step: {other:?}"),
    };
    assert_eq!(fault("local"), "Missing composite local store settings");
    assert_eq!(fault("remote"), "Missing composite remote store settings");
    assert_eq!(fault("replicated"), "Missing composite replicated store settings");
}

#[test]
fn an_ephemeral_certificate_is_for_this_machine() {
    let certificate = generate_ephemeral_certificate("public");
    assert_eq!(certificate.cert_name, "public-cert.pem");
    assert_eq!(certificate.key_name, "public-key.pem");
    assert_eq!(certificate.hosts, vec![text("localhost"), text("127.0.0.1"), text("::1")]);
    assert_eq!(
        EphemeralFault::Directory.error("/tmp/x", "denied").to_string(),
        "failed to create directory /tmp/x for ephemeral certificate: denied"
    );
    assert_eq!(
        EphemeralFault::Certificate.error("/tmp/c", "denied").to_string(),
        "failed to write ephemeral certificate /tmp/c: denied"
    );
    assert_eq!(
        EphemeralFault::PrivateKey.error("/tmp/k", "denied").to_string(),
        "failed to write ephemeral private key /tmp/k: denied"
    );
}

#[test]
fn numbers_are_read_as_the_system_reads_them() {
    assert_eq!(parse_usize("0"), Some(0));
    assert_eq!(parse_usize("+0042"), Some(42));
    assert_eq!(parse_usize(&usize::MAX.to_string()), Some(usize::MAX));
    for wrong in ["", "+", "-1", " 1", "1 ", "1_0", "++1", "99999999999999999999999"] {
        assert_eq!(parse_usize(wrong), wrong.parse::<usize>().ok());
        assert_eq!(parse_usize(wrong), None);
    }
}

#[test]
fn seeding_needs_its_variable_and_a_size() {
    let variables = |seeding: Option<&'static str>| SeedingVariables {
        seeding,
        margin: Some("12"),
        buffer: Some("many"),
    };
    assert!(seed_local_store(&local(), variables(None)).is_none());
    let plan = seed_local_store(&local(), variables(Some(""))).unwrap();
    assert_eq!(plan.flush_delay_seconds, u16::MAX);
    assert!(!plan.flush_background);
    let run = plan.run.unwrap();
    assert_eq!((run.max_size, run.margin, run.buffer), (20, 12, 16834));
    let mut unlimited = local();
    unlimited.max_size = None;
    let fault = seed_local_store(&unlimited, variables(Some("1"))).unwrap().run.unwrap_err();
    assert_eq!(fault.error().to_string(), "Missing max size on local store settings");
}

#[test]
fn the_store_to_seed_is_the_local_one() {
    let mut settings = immutable("composite");
    settings.composite = Some(composite());
    assert_eq!(find_seeding_store(&settings).unwrap().path, "/data");
    assert_eq!(
        find_seeding_store(&immutable("local")).unwrap_err(),
        SeedingFault::MissingLocal
    );
    assert_eq!(
        find_seeding_store(&immutable("composite")).unwrap_err().error().to_string(),
        "Missing composite store settings"
    );
    assert_eq!(
        find_seeding_store(&immutable("s3")).unwrap_err().error().to_string(),
        "No local store settings found"
    );
    assert_eq!(seeding_outcome(Ok::<(), u8>(()), Ok(())), Ok(()));
    assert_eq!(seeding_outcome(Err(1), Ok(())), Err(1));
    assert_eq!(seeding_outcome(Err(1), Err(2)), Err(2));
}

#[test]
fn the_server_describes_itself() {
    assert_eq!(user_agent("1.2.3"), "lore-server/1.2.3");
    assert!(is_maintenance(Some("1")));
    assert!(!is_maintenance(Some("true")));
    assert!(!is_maintenance(None));
    let cli = Cli { config: None, env: Some(text("local")) };
    assert_eq!(cli.env.as_deref(), Some("local"));
}

#[test]
fn tasks_are_counted() {
    let events = [
        TaskLifecycleEvent::Started,
        TaskLifecycleEvent::Started,
        TaskLifecycleEvent::Completed,
        TaskLifecycleEvent::Started,
        TaskLifecycleEvent::Dropped,
    ];
    let spawned: u64 = events.iter().map(|event| observe_task_lifecycle(*event).spawned).sum();
    let running: i64 = events.iter().map(|event| observe_task_lifecycle(*event).running).sum();
    assert_eq!((spawned, running), (3, 1));
    assert_eq!(TaskContext::Missing.label(), "<no context>");
    assert_eq!(TaskContext::Foreign.label(), "<no server state>");
    assert_eq!(TaskContext::Server("grpc").label(), "grpc");
}

#[test]
fn messages_without_a_level_are_traces() {
    assert_eq!(server_log_level(LogLevel::Unset), LogLevel::Trace);
    assert_eq!(server_log_level(LogLevel::Trace), LogLevel::Trace);
    assert_eq!(server_log_level(LogLevel::Error), LogLevel::Error);
}

#[test]
fn the_code_of_the_executable_is_found_in_the_memory_map() {
    let maps = "1000-2000 r--p 0 /bin/lore\n2000-3000 r-xp 0 /bin/other\r\n\
                3000-4000 r-xp 0 /bin/lore\n4000-5000 r-xp 1 /bin/lore\n";
    assert_eq!(
        find_mapping(maps, "/bin/lore").as_deref(),
        Some("3000-4000 r-xp 0 /bin/lore")
    );
    assert_eq!(
        find_mapping(maps, "/bin/other").as_deref(),
        Some("2000-3000 r-xp 0 /bin/other")
    );
    assert_eq!(find_mapping(maps, "/bin/none"), None);
}

#[test]
fn detectors_of_the_caller_come_first() {
    assert_eq!(combined_detectors(Some(vec![1, 2]), vec![3]), vec![1, 2, 3]);
    assert_eq!(combined_detectors(None, vec![3]), vec![3]);
}

#[test]
fn a_shutdown_drains_and_then_forces() {
    let mut shutdown = Shutdown::wait_for_shutdown(30);
    assert_eq!(shutdown.on_event(ShutdownEvent::Signal), ShutdownAction::StartDraining);
    assert_eq!(
        shutdown.on_event(ShutdownEvent::EndpointEnded(EndpointExit::Failed)),
        ShutdownAction::KeepDraining
    );
    assert_eq!(shutdown.on_event(ShutdownEvent::DeadlinePassed), ShutdownAction::ForceClose);
    assert_eq!(shutdown.phase, ShutdownPhase::Finished);
    let mut shutdown = Shutdown::wait_for_shutdown(30);
    assert_eq!(
        shutdown.on_event(ShutdownEvent::EndpointEnded(EndpointExit::Aborted)),
        ShutdownAction::TellAndStartDraining
    );
    assert_eq!(shutdown.on_event(ShutdownEvent::NoneLeft), ShutdownAction::Return);
    let mut shutdown = Shutdown::wait_for_shutdown(30);
    assert_eq!(shutdown.on_event(ShutdownEvent::NoneLeft), ShutdownAction::Return);
    assert_eq!(shutdown.phase, ShutdownPhase::Finished);
}

fn settings() -> Settings {
    Settings {
        server: ServerSettings {
            grpc: Some(grpc(None)),
            grpc_internal: Some(GrpcInternalSettings {
                enabled: true,
                verify_client_certs: true,
                grpc: grpc(Some(mtls_triple())),
            }),
            quic: Some(quic(true, None, false)),
            quic_internal: Some(quic(true, None, false)),
            http: Some(HttpSettings {
                enabled: true,
                host: text("0.0.0.0"),
                port: 80,
                max_file_size: 1,
                request_timeout_seconds: 2,
                request_body_timeout_seconds: 3,
                available_interval_seconds: 4,
                available_timeout_seconds: 5,
                store_health_check: true,
                presigned_url_hmac_key: None,
                presigned_url_min_ttl_seconds: 6,
                presigned_url_default_ttl_seconds: 7,
                presigned_url_max_ttl_seconds: 8,
            }),
            auth: Some(auth(None)),
            forwarded_requests: false,
            connection_close_timeout_seconds: 30,
            runtime_shutdown_timeout_seconds: 10,
        },
        environment: None,
        feature: None,
        immutable_store: immutable("s3"),
        mutable_store: mutable("dynamodb"),
        lock_store: None,
        notification: None,
        metrics_export_interval_millis: 1000,
    }
}

fn context(maintenance: bool) -> StartupContext {
    StartupContext {
        maintenance,
        has_memory_map: true,
        seeding: false,
        internal_message_limit: 64,
    }
}

#[test]
fn a_server_starts_all_its_endpoints() {
    let settings = settings();
    let steps = async_main(&settings, context(false));
    assert!(matches!(steps[0], StartupStep::CompileUserAgentFilter));
    assert!(matches!(steps[1], StartupStep::RegisterPlugins));
    let count = |wanted: fn(&StartupStep<'_>) -> bool| steps.iter().filter(|s| wanted(s)).count();
    assert_eq!(count(|s| matches!(s, StartupStep::FetchKeys(_))), 1);
    assert_eq!(count(|s| matches!(s, StartupStep::LaunchGrpc)), 1);
    assert_eq!(
        count(|s| matches!(
            s,
            StartupStep::LaunchGrpcInternal { security: EndpointSecurity::Mtls, .. }
        )),
        1
    );
    assert_eq!(
        count(|s| matches!(s, StartupStep::LaunchQuic { process_limit: 500, .. })),
        1
    );
    assert_eq!(
        count(|s| matches!(
            s,
            StartupStep::LaunchQuicInternal {
                process_limit: 64,
                security: EndpointSecurity::Untrusted,
                ..
            }
        )),
        1
    );
    assert_eq!(count(|s| matches!(s, StartupStep::LaunchHttp(_))), 1);
    assert_eq!(count(|s| matches!(s, StartupStep::ConnectForwarding)), 0);
    assert_eq!(
        count(|s| matches!(s, StartupStep::WaitForShutdown { timeout_seconds: 30 })),
        1
    );
    assert!(matches!(steps.last(), Some(StartupStep::FlushStores)));
}

#[test]
fn a_server_in_maintenance_stays_closed() {
    let settings = settings();
    let steps = async_main(&settings, context(true));
    let has = |wanted: fn(&StartupStep<'_>) -> bool| steps.iter().any(|s| wanted(s));
    assert!(has(|s| matches!(s, StartupStep::LaunchMaintenanceGrpc)));
    assert!(has(|s| matches!(s, StartupStep::LaunchMaintenanceHttp(_))));
    assert!(has(|s| matches!(s, StartupStep::LaunchQuicInternal { .. })));
    assert!(!has(|s| matches!(
        s,
        StartupStep::LaunchGrpc
            | StartupStep::LaunchGrpcInternal { .. }
            | StartupStep::LaunchQuic { .. }
            | StartupStep::LaunchHttp(_)
            | StartupStep::CreateHooks
    )));
}

#[test]
fn an_insecure_internal_endpoint_ends_the_start() {
    let mut settings = settings();
    settings.server.grpc_internal = Some(GrpcInternalSettings {
        enabled: true,
        verify_client_certs: true,
        grpc: grpc(Some(no_chain())),
    });
    let steps = async_main(&settings, context(false));
    match steps.last().unwrap() {
        StartupStep::Fail(fault) => {
            let message = fault.error().to_string();
            assert!(message.starts_with("[server.grpc_internal] certificate is partially"));
        }
        other => panic!("unexpected step: {other:?}"),
    }
    assert!(matches!(steps[steps.len() - 2], StartupStep::LaunchGrpc));
    // In maintenance that endpoint stays closed, so the start goes on.
    let steps = async_main(&settings, context(true));
    assert!(matches!(steps.last(), Some(StartupStep::FlushStores)));
}

#[test]
fn seeding_without_a_local_store_ends_the_start() {
    let settings = settings();
    let mut context = context(false);
    context.seeding = true;
    let steps = async_main(&settings, context);
    match steps.last().unwrap() {
        StartupStep::Fail(fault) => {
            assert_eq!(fault.error().to_string(), "No local store settings found")
        }
        other => panic!("unexpected step: {other:?}"),
    }
    assert!(!steps.iter().any(|s| matches!(s, StartupStep::ConfigureTopology)));
}

fn is_public(step: &StartupStep<'_>) -> bool {
    matches!(
        step,
        StartupStep::LaunchGrpc | StartupStep::LaunchQuic { .. } | StartupStep::LaunchHttp(_)
    )
}

#[test]
fn public_endpoints_verify_their_callers() {
    let mut settings = settings();
    settings.server.auth = Some(auth(Some("trust_authenticated")));
    let steps = async_main(&settings, context(false));
    assert_eq!(steps.iter().filter(|step| is_public(step)).count(), 3);
    for step in &steps {
        let verifier = caller_verifier(&settings, step);
        assert_eq!(verifier.is_some(), is_public(step));
        assert_eq!(caller_auth(&settings, step).is_some(), is_public(step));
        if let Some(verifier) = verifier {
            assert_eq!(verifier.jwt_issuer.as_deref(), Some("https://idp.example"));
            assert_eq!(verifier.jwt_audience, Some(vec![text("lore"), text("server")]));
            assert!(verifier.trust_authenticated);
        }
    }
    let trusts = |mode: Option<&str>| {
        let mut settings = settings.clone();
        settings.server.auth = Some(auth(mode));
        caller_verifier(&settings, &StartupStep::LaunchGrpc).unwrap().trust_authenticated
    };
    assert!(!trusts(None));
    assert!(!trusts(Some("repository")));
}

#[test]
fn without_keys_to_fetch_no_caller_is_verified() {
    let mut settings = settings();
    settings.server.auth = Some(AuthSettings { jwk: None, ..auth(None) });
    let steps = async_main(&settings, context(false));
    assert!(!steps.iter().any(|step| matches!(step, StartupStep::FetchKeys(_))));
    assert!(steps.iter().all(|step| caller_verifier(&settings, step).is_none()));
    settings.server.auth = None;
    let steps = async_main(&settings, context(false));
    assert!(steps.iter().all(|step| caller_auth(&settings, step).is_none()));
}

#[test]
fn keys_are_fetched_before_any_endpoint_opens() {
    let settings = settings();
    let steps = async_main(&settings, context(false));
    let fetched = steps
        .iter()
        .position(|step| matches!(step, StartupStep::FetchKeys(_)))
        .unwrap();
    let opened = steps.iter().position(is_public).unwrap();
    assert!(fetched < opened);
    let failed = step_result(&steps[fetched], Err("no keys"));
    assert_eq!(failed, Err("no keys"));
}

#[test]
fn only_the_public_quic_endpoint_gets_a_generated_certificate() {
    let settings = settings();
    for step in &async_main(&settings, context(false)) {
        assert_eq!(
            may_generate_certificate(step),
            matches!(step, StartupStep::LaunchQuic { .. })
        );
    }
}

#[test]
fn a_failed_flush_is_passed_over() {
    assert_eq!(step_result(&StartupStep::FlushStores, Err("disk full")), Ok(()));
    assert_eq!(step_result(&StartupStep::LaunchGrpc, Err("port taken")), Err("port taken"));
    assert_eq!(step_result::<&str>(&StartupStep::LaunchGrpc, Ok(())), Ok(()));
}

#[test]
fn the_quic_endpoints_report_their_metrics() {
    let settings = settings();
    let steps = async_main(&settings, context(false));
    let reporting = |step: &StartupStep<'_>| {
        matches!(step, StartupStep::LaunchQuic { .. } | StartupStep::LaunchQuicInternal { .. })
    };
    assert_eq!(steps.iter().filter(|step| reporting(step)).count(), 2);
    for step in &steps {
        let expected = if reporting(step) { Some(1000) } else { None };
        assert_eq!(metrics_interval_millis(&settings, step), expected);
    }
}

#[test]
fn only_the_remote_immutable_store_authenticates() {
    let mut settings = remote();
    assert!(configure_remote_immutable_store(&settings).auth_url.is_none());
    settings.auth_url = Some(text("https://auth.example"));
    let plan = configure_remote_immutable_store(&settings);
    assert_eq!(plan.remote_url, "lore://remote");
    assert_eq!(plan.auth_url.map(|url| url.as_str()), Some("https://auth.example"));
    let plan = configure_remote_mutable_store(&settings);
    assert_eq!(plan.remote_url, "lore://remote");
    assert!(plan.identity.is_none());
}

#[test]
fn plugins_fall_back_to_the_section_of_their_product() {
    assert_eq!(PluginProduct::ImmutableStore.section(), Some("immutable_store"));
    assert_eq!(PluginProduct::CompositeSubStore.section(), Some("immutable_store"));
    assert_eq!(PluginProduct::MutableStore.section(), Some("mutable_store"));
    assert_eq!(PluginProduct::LockStore.section(), Some("lock_store"));
    assert_eq!(PluginProduct::Notification.section(), None);
}

#[test]
fn refused_patterns_of_user_agents_are_named() {
    assert_eq!(
        invalid_user_agent_patterns("unclosed group").to_string(),
        "Invalid user_agent_patterns: unclosed group"
    );
}
