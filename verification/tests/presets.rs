use multiruntime_streams::spawners::{
    preset, preset_config, runtime_builder, thread_name, RuntimeConfig, RuntimeKind,
    SYNC_IO_MAX_BLOCKING, SYNC_IO_WORKERS,
};
use multiruntime_streams::DEFAULT_CAPACITY;

#[test]
fn default_capacity_is_256() {
    assert_eq!(DEFAULT_CAPACITY, 256);
}

#[test]
fn async_io_preset_has_at_least_four_workers() {
    let c = preset_config(RuntimeKind::AsyncIo, 1);
    assert_eq!(c.worker_threads, 4);
    assert_eq!(preset_config(RuntimeKind::AsyncIo, 3).worker_threads, 4);
    assert_eq!(preset_config(RuntimeKind::AsyncIo, 4).worker_threads, 4);
    assert_eq!(preset_config(RuntimeKind::AsyncIo, 16).worker_threads, 16);
    assert!(c.enable_io);
    assert!(c.enable_time);
    assert_eq!(c.max_blocking_threads, None);
    assert_eq!(c.kind, RuntimeKind::AsyncIo);
}

#[test]
fn compute_preset_has_one_worker_per_cpu() {
    for cpus in [1usize, 2, 7, 64] {
        let c = preset_config(RuntimeKind::Compute, cpus);
        assert_eq!(c.worker_threads, cpus);
        assert!(!c.enable_io);
        assert!(!c.enable_time);
        assert_eq!(c.max_blocking_threads, None);
    }
}

#[test]
fn sync_io_preset_has_small_pool_and_large_blocking_pool() {
    let c = preset_config(RuntimeKind::SyncIo, 32);
    assert_eq!(
        c,
        RuntimeConfig {
            kind: RuntimeKind::SyncIo,
            worker_threads: 2,
            enable_io: false,
            enable_time: false,
            max_blocking_threads: Some(512),
        }
    );
    assert_eq!(SYNC_IO_WORKERS, 2);
    assert_eq!(SYNC_IO_MAX_BLOCKING, 512);
}

#[test]
fn thread_names_per_kind() {
    assert_eq!(thread_name(RuntimeKind::AsyncIo), "multiruntime-streams-async-io");
    assert_eq!(thread_name(RuntimeKind::Compute), "multiruntime-streams-compute");
    assert_eq!(thread_name(RuntimeKind::SyncIo), "multiruntime-streams-sync-io");
}

#[test]
fn machine_presets_use_the_cpu_count() {
    let cpus = num_cpus::get();
    assert_eq!(preset(RuntimeKind::Compute).worker_threads, cpus);
    assert_eq!(preset(RuntimeKind::AsyncIo).worker_threads, cpus.max(4));
    assert_eq!(preset(RuntimeKind::SyncIo).worker_threads, 2);
}

#[test]
fn built_runtimes_run_tasks() {
    for kind in [RuntimeKind::AsyncIo, RuntimeKind::Compute, RuntimeKind::SyncIo] {
        let rt = runtime_builder(&preset(kind)).into_builder().build().unwrap();
        let r = rt.block_on(async { rt.spawn(async { 42 }).await.unwrap() });
        assert_eq!(r, 42);
        let blocking = rt.block_on(rt.spawn_blocking(|| 7)).unwrap();
        assert_eq!(blocking, 7);
    }
}
