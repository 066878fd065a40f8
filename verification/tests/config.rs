use substrate_archive::archive::{Archive, ArchiveTask};
use substrate_archive::builder::{
    client_settings, ArchiveBuilder, ArchiveConfig, ClientSettings, MigrationConfig, RunStage,
    DEFAULT_WASM_PAGES,
};
use substrate_archive::config::{
    default_max_block_load, default_max_tasks, default_task_timeout, default_task_workers,
    ControlConfig,
};
use substrate_archive::error::ArchiveError;
use substrate_archive::verify::{verify_loop, LoopStep, NumberOrHex, Verify, VERIFY_PAUSE_MILLIS};

fn psql() -> MigrationConfig {
    MigrationConfig {
        host: None,
        port: None,
        user: Some("archive".to_string()),
        pass: Some("default".to_string()),
        name: Some("kusama-archive".to_string()),
    }
}

fn archive_config(block_workers: Option<usize>, wasm_pages: Option<u64>) -> ArchiveConfig {
    ArchiveConfig {
        db_url: "/var/lib/node/db".to_string(),
        rpc_url: "ws://127.0.0.1:9944".to_string(),
        cache_size: 1024,
        psql_conf: psql(),
        block_workers,
        wasm_pages,
    }
}

#[test]
fn control_defaults() {
    assert_eq!(default_task_timeout(), 20);
    assert_eq!(default_max_tasks(), 64);
    assert_eq!(default_max_block_load(), 100_000);
    assert!(default_task_workers() >= 1);
    let control = ControlConfig::default();
    assert!(control.task_workers >= 1);
    assert_eq!(control.task_timeout, 20);
    assert_eq!(control.max_tasks, 64);
    assert_eq!(control.max_block_load, 100_000);
    assert!(control.is_valid());
}

#[test]
fn control_with_workers_is_exact() {
    let control = ControlConfig::with_workers(3);
    assert_eq!(
        control,
        ControlConfig { task_workers: 3, task_timeout: 20, max_tasks: 64, max_block_load: 100_000 }
    );
}

#[test]
fn control_validation() {
    let good = ControlConfig::with_workers(1);
    assert_eq!(good.validate(), Ok(good));
    let no_workers = ControlConfig::with_workers(0);
    assert!(!no_workers.is_valid());
    assert_eq!(no_workers.validate(), Err(ArchiveError::Config));
    let no_window = ControlConfig { max_block_load: 0, ..good };
    assert_eq!(no_window.validate(), Err(ArchiveError::Config));
    let no_timeout = ControlConfig { task_timeout: 0, max_tasks: 0, ..good };
    assert_eq!(no_timeout.validate(), Ok(no_timeout));
}

#[test]
fn transient_errors() {
    assert!(ArchiveError::Backend.is_transient());
    assert!(ArchiveError::Db.is_transient());
    assert!(!ArchiveError::Disconnected.is_transient());
    assert!(!ArchiveError::Execution.is_transient());
    assert!(!ArchiveError::TaskTimeout.is_transient());
    assert!(!ArchiveError::Config.is_transient());
}

#[test]
fn builder_keeps_the_options() {
    let builder = ArchiveBuilder::new(archive_config(Some(4), Some(128)), "db-handle");
    assert_eq!(builder.rpc_url, "ws://127.0.0.1:9944");
    assert_eq!(builder.db, "db-handle");
    assert_eq!(builder.block_workers, Some(4));
    assert_eq!(builder.wasm_pages, Some(128));
    assert_eq!(builder.psql_conf, psql());
}

#[test]
fn client_settings_resolve_defaults() {
    assert_eq!(
        client_settings(Some(4), Some(64), Some(128), 8),
        ClientSettings { block_workers: 4, wasm_pages: 64 }
    );
    assert_eq!(
        client_settings(None, None, Some(128), 8),
        ClientSettings { block_workers: 8, wasm_pages: 128 }
    );
    assert_eq!(
        client_settings(None, None, None, 2),
        ClientSettings { block_workers: 2, wasm_pages: 2048 }
    );
    assert_eq!(DEFAULT_WASM_PAGES, 2048);
}

#[test]
fn api_client_and_run_agree_on_pages() {
    let plain = ArchiveBuilder::new(archive_config(None, None), ());
    assert_eq!(plain.api_client(Some(3), None), ClientSettings { block_workers: 3, wasm_pages: 2048 });
    assert_eq!(plain.api_client(Some(3), Some(7)), ClientSettings { block_workers: 3, wasm_pages: 7 });
    assert_eq!(plain.run().wasm_pages, 2048);
    assert!(plain.run().block_workers >= 1);
    assert!(plain.api_client(None, None).block_workers >= 1);

    let tuned = ArchiveBuilder::new(archive_config(Some(6), Some(512)), ());
    assert_eq!(tuned.run(), ClientSettings { block_workers: 6, wasm_pages: 512 });
    assert_eq!(tuned.api_client(Some(6), None), tuned.run());
}

#[test]
fn run_stages_in_order() {
    let mut stage = RunStage::first();
    let mut visited = vec![stage];
    for _ in 0..7 {
        stage = stage.advance(Ok(()));
        visited.push(stage);
    }
    assert_eq!(
        visited,
        vec![
            RunStage::Migrate,
            RunStage::BuildClient,
            RunStage::OpenBackend,
            RunStage::ReadLastFinalized,
            RunStage::ReadRuntimeVersion,
            RunStage::CreateSystem,
            RunStage::Drive,
            RunStage::Running,
        ]
    );
    assert_eq!(stage.advance(Ok(())), RunStage::Running);
    assert_eq!(stage.advance(Err(ArchiveError::Db)), RunStage::Running);
}

#[test]
fn run_stage_failure_is_final() {
    let failed = RunStage::OpenBackend.advance(Err(ArchiveError::Backend));
    assert_eq!(failed, RunStage::Failed(ArchiveError::Backend));
    assert_eq!(failed.advance(Ok(())), failed);
    assert_eq!(failed.advance(Err(ArchiveError::Db)), failed);
    assert_eq!(RunStage::Migrate.advance(Err(ArchiveError::Db)), RunStage::Failed(ArchiveError::Db));
}

#[test]
fn verify_starts_with_nothing_missing() {
    assert_eq!(Verify::new(), Verify { blocks_missing: 0 });
}

#[test]
fn verify_asks_for_each_missing_block() {
    let pass = Verify::new().verify(&vec![7, 0, u64::MAX]);
    assert_eq!(pass.verify, Verify { blocks_missing: 3 });
    assert!(!pass.done);
    assert_eq!(pass.pause_millis, 30_000);
    assert_eq!(VERIFY_PAUSE_MILLIS, 30_000);
    assert_eq!(
        pass.requests,
        vec![
            NumberOrHex::Hex([7, 0, 0, 0]),
            NumberOrHex::Hex([0, 0, 0, 0]),
            NumberOrHex::Hex([u64::MAX, 0, 0, 0]),
        ]
    );
}

#[test]
fn verify_with_nothing_missing() {
    let pass = Verify { blocks_missing: 9 }.verify(&Vec::new());
    assert_eq!(pass.verify.blocks_missing, 0);
    assert!(pass.requests.is_empty());
    assert!(!pass.done);
}

#[test]
fn verify_loop_goes_on_until_done() {
    assert_eq!(verify_loop(false), LoopStep::Continue);
    assert_eq!(verify_loop(true), LoopStep::Break);
}

#[test]
fn archive_follows_the_local_node() {
    let archive = Archive::new().expect("the local address is a URL");
    assert_eq!(archive.rpc_url, "ws://127.0.0.1:9944/");
    assert_eq!(
        archive.run(),
        vec![ArchiveTask::SubscribeNewHeads, ArchiveTask::Verify, ArchiveTask::HandleData]
    );
}

#[test]
fn archive_with_address() {
    assert_eq!(
        Archive::with_address(Some("ws://node:1/".to_string())),
        Ok(Archive { rpc_url: "ws://node:1/".to_string() })
    );
    assert_eq!(Archive::with_address(None), Err(ArchiveError::Config));
}
