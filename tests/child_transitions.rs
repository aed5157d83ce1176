use container_manager::child::{Child, StateError};
use container_manager::config::{Container, OutputFormat};
use container_manager::state::ChildState;

fn fresh(name: &str) -> Child {
    Child::new(name.to_string(), Container::new(OutputFormat::Silent), 41)
}

#[test]
fn new_child_is_created() {
    let c = fresh("a");
    assert_eq!(c.get_state(), ChildState::Created);
    assert_eq!(c.pid, 41);
    assert_eq!(c.name, "a");
}

#[test]
fn advance_succeeds_exactly_twice() {
    let mut c = fresh("a");
    assert_eq!(c.next_state(), Ok(()));
    assert_eq!(c.get_state(), ChildState::Started);
    assert_eq!(c.next_state(), Ok(()));
    assert_eq!(c.get_state(), ChildState::Stopped);
    assert_eq!(
        c.next_state(),
        Err(StateError { observed: ChildState::Stopped })
    );
    assert_eq!(
        c.next_state(),
        Err(StateError { observed: ChildState::Stopped })
    );
    assert_eq!(c.get_state(), ChildState::Stopped);
}

#[test]
fn advance_from_initial() {
    let mut c = fresh("a");
    c.set_state(ChildState::Initial);
    assert_eq!(c.next_state(), Ok(()));
    assert_eq!(c.get_state(), ChildState::Created);
}

#[test]
fn start_twice_reports_started() {
    let mut c = fresh("a");
    assert_eq!(c.start(), Ok(()));
    assert_eq!(c.get_state(), ChildState::Started);
    assert_eq!(c.start(), Err(StateError { observed: ChildState::Started }));
    assert_eq!(c.get_state(), ChildState::Started);
}

#[test]
fn start_only_from_created() {
    for s in [
        ChildState::Initial,
        ChildState::Started,
        ChildState::Stopped,
        ChildState::Crashed(3),
    ]
    .iter()
    {
        let mut c = fresh("a");
        c.set_state(*s);
        assert_eq!(c.start(), Err(StateError { observed: *s }));
        assert_eq!(c.get_state(), *s);
    }
}

#[test]
fn crash_from_live_states() {
    let mut c = fresh("a");
    assert_eq!(c.set_exit_state(7), Ok(()));
    assert_eq!(c.get_state(), ChildState::Crashed(7));

    let mut d = fresh("b");
    d.start().unwrap();
    assert_eq!(d.set_exit_state(-2), Ok(()));
    assert_eq!(d.get_state(), ChildState::Crashed(-2));
}

#[test]
fn crash_fails_once_terminal() {
    let mut c = fresh("a");
    c.set_state(ChildState::Stopped);
    assert_eq!(
        c.set_exit_state(9),
        Err(StateError { observed: ChildState::Stopped })
    );
    assert_eq!(c.get_state(), ChildState::Stopped);

    let mut d = fresh("b");
    d.set_exit_state(4).unwrap();
    assert_eq!(
        d.set_exit_state(9),
        Err(StateError { observed: ChildState::Crashed(4) })
    );
    assert_eq!(d.get_state(), ChildState::Crashed(4));
}

#[test]
fn force_state_returns_previous() {
    let mut c = fresh("a");
    assert_eq!(c.set_state(ChildState::Stopped), ChildState::Created);
    assert_eq!(c.set_state(ChildState::Crashed(1)), ChildState::Stopped);
    assert_eq!(c.get_state(), ChildState::Crashed(1));
}

#[test]
fn corrupt_word_blocks_transitions() {
    let mut c = fresh("a");
    c.state = 5;
    assert_eq!(c.get_state(), ChildState::Initial);
    assert_eq!(c.next_state(), Err(StateError { observed: ChildState::Initial }));
    assert_eq!(c.set_exit_state(1), Err(StateError { observed: ChildState::Initial }));
    assert_eq!(c.state, 5);
}
