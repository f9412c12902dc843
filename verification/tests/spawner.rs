use multiruntime_streams::spawner::RuntimeSpawner;

fn small_runtime() -> tokio::runtime::Runtime {
    tokio::runtime::Builder::new_multi_thread().worker_threads(1).build().unwrap()
}

#[test]
fn spawner_keeps_its_handle() {
    let rt = small_runtime();
    let s = RuntimeSpawner::new(rt.handle().clone());
    let r = rt.block_on(s.handle().spawn(async { 5 })).unwrap();
    assert_eq!(r, 5);
    let s2 = s.clone().into_spawner();
    let r2 = rt.block_on(s2.handle().spawn(async { 6 })).unwrap();
    assert_eq!(r2, 6);
}

#[test]
fn no_current_spawner_outside_a_runtime() {
    assert!(RuntimeSpawner::try_current().is_none());
    assert!(RuntimeSpawner::from_context(tokio::runtime::Handle::try_current()).is_none());
}

#[test]
fn current_spawner_inside_a_runtime() {
    let rt = small_runtime();
    let _guard = rt.enter();
    let s = RuntimeSpawner::try_current().expect("inside a runtime");
    let r = rt.block_on(s.handle().spawn(async { 9 })).unwrap();
    assert_eq!(r, 9);
}
