use sui_indexer::error::{ErrorKind, IndexerError, ServerStep};
use sui_indexer::server::{assemble, CapabilityModule, Phase, ServerAssembly, DEFAULT_PORT, DEFAULT_VERSION};

fn module(name: &str, methods: &[&str]) -> CapabilityModule {
    CapabilityModule::new(name.to_string(), methods.iter().map(|m| m.to_string()).collect())
}

fn checkpoints() -> CapabilityModule {
    module("checkpoints", &["getCheckpoint", "getLatestCheckpointSequenceNumber"])
}

#[test]
fn defaults_are_placeholders() {
    assert_eq!(DEFAULT_VERSION, "0.0.0");
    assert_eq!(DEFAULT_PORT, 3030);
}

#[test]
fn module_keeps_its_name_and_methods() {
    let m = checkpoints();
    assert_eq!(m.name(), "checkpoints");
    assert_eq!(m.methods().len(), 2);
}

#[test]
fn registered_methods_are_served_after_start() {
    let mut s = ServerAssembly::new(DEFAULT_VERSION.to_string());
    assert_eq!(s.version(), "0.0.0");
    assert_eq!(s.phase(), Phase::Building);
    s.register_module(&checkpoints()).unwrap();
    assert!(!s.dispatches(&"getCheckpoint".to_string()));
    s.start(Ok(())).unwrap();
    assert_eq!(s.phase(), Phase::Serving);
    assert!(s.dispatches(&"getCheckpoint".to_string()));
    assert!(s.dispatches(&"getLatestCheckpointSequenceNumber".to_string()));
    assert!(!s.dispatches(&"getTransaction".to_string()));
}

#[test]
fn overlapping_modules_fail_and_nothing_is_served() {
    let mut s = ServerAssembly::new(DEFAULT_VERSION.to_string());
    s.register_module(&checkpoints()).unwrap();
    let e = s.register_module(&module("other", &["getObject", "getCheckpoint"])).unwrap_err();
    assert_eq!(e.kind(), ErrorKind::JsonRpcServer);
    assert_eq!(e.server_step(), Some(ServerStep::Register));
    assert!(e.message().starts_with("Failed to register JSON-RPC module with error: "));
    assert_eq!(s.phase(), Phase::Failed);
    assert!(s.start(Ok(())).is_err());
    for name in ["getCheckpoint", "getLatestCheckpointSequenceNumber", "getObject"] {
        assert!(!s.dispatches(&name.to_string()));
    }
}

#[test]
fn same_module_twice_fails() {
    let mut s = ServerAssembly::new(DEFAULT_VERSION.to_string());
    s.register_module(&checkpoints()).unwrap();
    assert!(matches!(
        s.register_module(&checkpoints()),
        Err(IndexerError::JsonRpcServerError(ServerStep::Register, _))
    ));
    assert_eq!(s.phase(), Phase::Failed);
}

#[test]
fn method_repeated_within_a_module_fails() {
    let mut s = ServerAssembly::new(DEFAULT_VERSION.to_string());
    let e = s.register_module(&module("dup", &["a", "b", "a"])).unwrap_err();
    assert_eq!(e.kind(), ErrorKind::JsonRpcServer);
}

#[test]
fn registration_after_start_is_rejected() {
    let mut s = ServerAssembly::new(DEFAULT_VERSION.to_string());
    s.register_module(&checkpoints()).unwrap();
    s.start(Ok(())).unwrap();
    let e = s.register_module(&module("late", &["getObject"])).unwrap_err();
    assert_eq!(e.kind(), ErrorKind::JsonRpcServer);
    assert_eq!(e.server_step(), Some(ServerStep::Register));
    assert_eq!(s.phase(), Phase::Serving);
    assert!(!s.dispatches(&"getObject".to_string()));
    assert!(s.dispatches(&"getCheckpoint".to_string()));
}

#[test]
fn failed_bind_ends_the_assembly() {
    let mut s = ServerAssembly::new(DEFAULT_VERSION.to_string());
    s.register_module(&checkpoints()).unwrap();
    let e = s.start(Err("address in use".to_string())).unwrap_err();
    assert_eq!(e.kind(), ErrorKind::JsonRpcServer);
    assert_eq!(e.detail(), "address in use");
    assert_eq!(e.server_step(), Some(ServerStep::Start));
    assert_eq!(e.message(), "Failed to start JSON-RPC server with error: address in use");
    assert_eq!(s.phase(), Phase::Failed);
    assert!(s.start(Ok(())).is_err());
    assert!(!s.dispatches(&"getCheckpoint".to_string()));
}

#[test]
fn second_start_is_rejected() {
    let mut s = ServerAssembly::new(DEFAULT_VERSION.to_string());
    s.start(Ok(())).unwrap();
    assert!(s.start(Ok(())).is_err());
    assert_eq!(s.phase(), Phase::Serving);
}

#[test]
fn assemble_registers_every_module() {
    let mods = vec![checkpoints(), module("objects", &["getObject"])];
    let mut s = assemble("1.2.3".to_string(), &mods).unwrap();
    assert_eq!(s.version(), "1.2.3");
    assert_eq!(s.phase(), Phase::Building);
    s.start(Ok(())).unwrap();
    assert!(s.dispatches(&"getObject".to_string()));
    assert!(s.dispatches(&"getCheckpoint".to_string()));
}

#[test]
fn assemble_refuses_a_collision() {
    let mods = vec![checkpoints(), module("objects", &["getObject"]), module("again", &["getObject"])];
    let e = assemble("1.2.3".to_string(), &mods).err().unwrap();
    assert_eq!(e.kind(), ErrorKind::JsonRpcServer);
}

#[test]
fn assemble_with_no_module() {
    let s = assemble("0.0.0".to_string(), &Vec::new()).unwrap();
    assert_eq!(s.phase(), Phase::Building);
}
