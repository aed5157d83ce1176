use container_manager::config::{Container, OutputFormat};
use container_manager::manager::{ContainerManager, ManagerError, SpawnError, WaitEvent};
use container_manager::state::ChildState;

fn silent() -> Container {
    Container::new(OutputFormat::Silent)
}

fn three_containers() -> ContainerManager {
    let mut m = ContainerManager::new();
    m.create_container("a", &silent(), Ok(101)).unwrap();
    m.create_container("b", &silent(), Ok(102)).unwrap();
    m.create_container("c", &silent(), Ok(103)).unwrap();
    m
}

#[test]
fn create_start_and_reap_three() {
    let mut m = three_containers();
    assert_eq!(m.child_count(), 3);
    for pid in [101, 102, 103].iter() {
        assert_eq!(m.get_child(*pid).unwrap().get_state(), ChildState::Created);
    }
    assert_eq!(m.get_child(101).unwrap().name, "a");
    assert_eq!(m.get_child(103).unwrap().name, "c");

    let signaled = m.start_childs();
    assert_eq!(signaled, vec![101, 102, 103]);
    for pid in [101, 102, 103].iter() {
        assert_eq!(m.get_child(*pid).unwrap().get_state(), ChildState::Started);
    }

    let mut running = m.wait_entry().unwrap();
    assert_eq!(running, 3);
    running = m.reap(running, WaitEvent::Exited { pid: 102, status: 0 }).unwrap();
    assert_eq!(running, 2);
    running = m.reap(running, WaitEvent::Exited { pid: 103, status: 0 }).unwrap();
    assert_eq!(running, 1);
    assert_eq!(
        m.reap(running, WaitEvent::Exited { pid: 101, status: 0 }),
        Err(ManagerError::ResultPending)
    );
    for pid in [101, 102, 103].iter() {
        assert_eq!(m.get_child(*pid).unwrap().get_state(), ChildState::Stopped);
    }
}

#[test]
fn exit_status_seven_crashes() {
    let mut m = ContainerManager::new();
    m.create_container("seven", &silent(), Ok(7007)).unwrap();
    m.create_container("other", &silent(), Ok(7008)).unwrap();
    m.start_childs();
    let running = m.reap(2, WaitEvent::Exited { pid: 7007, status: 7 }).unwrap();
    assert_eq!(running, 1);
    let child = m.get_child(7007).unwrap();
    assert_eq!(child.get_state(), ChildState::Crashed(7));
    assert_eq!(child.state, 116);
    assert_eq!(m.get_child(7008).unwrap().get_state(), ChildState::Started);
}

#[test]
fn failed_spawn_names_container_and_registers_nothing() {
    let mut m = three_containers();
    let r = m.create_container("broken", &silent(), Err(SpawnError::Namespace));
    assert_eq!(
        r,
        Err(ManagerError::Create {
            name: "broken".to_string(),
            cause: SpawnError::Namespace
        })
    );
    assert_eq!(m.child_count(), 3);
    assert!(m.get_child(0).is_none());
}

#[test]
fn routers_are_counted() {
    let mut m = ContainerManager::new();
    m.create_container("r1", &Container::new(OutputFormat::Router), Ok(1)).unwrap();
    m.create_container("c", &Container::new(OutputFormat::Client), Ok(2)).unwrap();
    m.create_container("r2", &Container::new(OutputFormat::RouterLogging), Err(SpawnError::Stack))
        .unwrap_err();
    assert_eq!(m.router_count(), 2);
    assert_eq!(m.child_count(), 2);
}

#[test]
fn same_pid_replaces_entry() {
    let mut m = ContainerManager::new();
    m.create_container("old", &silent(), Ok(5)).unwrap();
    m.create_container("new", &silent(), Ok(5)).unwrap();
    assert_eq!(m.child_count(), 1);
    assert_eq!(m.get_child(5).unwrap().name, "new");
}

#[test]
fn start_skips_started_children() {
    let mut m = three_containers();
    assert_eq!(m.start_childs(), vec![101, 102, 103]);
    assert_eq!(m.start_childs(), Vec::<i32>::new());
}

#[test]
fn reaper_passes_over_strangers_and_signals() {
    let mut m = three_containers();
    m.start_childs();
    assert_eq!(m.reap(3, WaitEvent::Exited { pid: 999, status: 0 }), Ok(3));
    assert_eq!(m.reap(3, WaitEvent::Signaled { pid: 101 }), Ok(3));
    assert_eq!(m.get_child(101).unwrap().get_state(), ChildState::Started);
}

#[test]
fn reaper_rejects_unexpected_status() {
    let mut m = three_containers();
    assert_eq!(
        m.reap(3, WaitEvent::Other { pid: 102 }),
        Err(ManagerError::UnexpectedStatus { pid: 102 })
    );
    assert_eq!(
        m.reap(3, WaitEvent::Failed { errno: 10 }),
        Err(ManagerError::WaitFailed { errno: 10 })
    );
}

#[test]
fn crash_after_stop_is_ignored() {
    let mut m = three_containers();
    m.start_childs();
    m.reap(3, WaitEvent::Exited { pid: 101, status: 0 }).unwrap();
    m.reap(2, WaitEvent::Exited { pid: 101, status: 3 }).unwrap();
    assert_eq!(m.get_child(101).unwrap().get_state(), ChildState::Stopped);
}

#[test]
fn empty_wait_ends_at_once() {
    let m = ContainerManager::new();
    assert_eq!(m.wait_entry(), Err(ManagerError::ResultPending));
}
