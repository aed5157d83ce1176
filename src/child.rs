use vstd::prelude::*;

use crate::config::Container;
use crate::state::{
    decoding, encoding, lemma_round_trip, representable, status_fits, ChildState,
};

verus! {

/// `Stopped` and `Crashed` are terminal: no transition leaves them.
pub open spec fn is_terminal(s: ChildState) -> bool {
    s == ChildState::Stopped || s is Crashed
}

/// The next state along `Initial -> Created -> Started -> Stopped`.
pub open spec fn successor(s: ChildState) -> ChildState {
    match s {
        ChildState::Initial => ChildState::Created,
        ChildState::Created => ChildState::Started,
        _ => ChildState::Stopped,
    }
}

/// A transition that the state word did not allow, with the state that was
/// observed in it.
#[derive(Debug, Clone, Copy, PartialEq, Eq, Structural)]
pub struct StateError {
    pub observed: ChildState,
}

/// The manager's handle of one spawned container process.
///
/// `state` is the state word: the encoding of the process's `ChildState`.
pub struct Child {
    pub name: String,
    pub config: Container,
    pub state: isize,
    pub pid: i32,
}

impl Child {
    /// The state that the word holds, if it holds a valid encoding.
    pub open spec fn current(&self) -> Option<ChildState> {
        decoding(self.state)
    }

    /// The state that a reader observes: the decoded word, or `Initial`
    /// where the word holds no valid encoding.
    pub open spec fn observed(&self) -> ChildState {
        match decoding(self.state) {
            Some(s) => s,
            None => ChildState::Initial,
        }
    }

    /// The word holds a valid encoding of a state that is not terminal.
    pub open spec fn may_advance(&self) -> bool {
        self.current() matches Some(s) && !is_terminal(s)
    }

    /// `after` is the same process's handle: only the state word may differ.
    pub open spec fn same_process(&self, after: &Child) -> bool {
        &&& after.name == self.name
        &&& after.config == self.config
        &&& after.pid == self.pid
    }

    /// What `start` does: `Created` becomes `Started`; any other state stays
    /// and is reported.
    pub open spec fn start_post(&self, after: &Child, r: Result<(), StateError>) -> bool {
        &&& self.same_process(after)
        &&& if self.current() == Some(ChildState::Created) {
            r is Ok && after.current() == Some(ChildState::Started)
        } else {
            r == Err::<(), StateError>(StateError { observed: self.observed() }) && after.state
                == self.state
        }
    }

    /// What `next_state` does: a state that is not terminal takes one step;
    /// otherwise nothing changes and the observed state is reported.
    pub open spec fn next_state_post(&self, after: &Child, r: Result<(), StateError>) -> bool {
        &&& self.same_process(after)
        &&& if self.may_advance() {
            r is Ok && after.current() == Some(successor(self.observed()))
        } else {
            r == Err::<(), StateError>(StateError { observed: self.observed() }) && after.state
                == self.state
        }
    }

    /// What `set_exit_state` does: a state that is not terminal becomes
    /// `Crashed(status)`; otherwise nothing changes and the observed state is
    /// reported.
    pub open spec fn exit_state_post(
        &self,
        status: isize,
        after: &Child,
        r: Result<(), StateError>,
    ) -> bool {
        &&& self.same_process(after)
        &&& if self.may_advance() {
            r is Ok && after.current() == Some(ChildState::Crashed(status))
        } else {
            r == Err::<(), StateError>(StateError { observed: self.observed() }) && after.state
                == self.state
        }
    }

    /// The handle of a process that was just spawned, in state `Created`.
    pub fn new(name: String, config: Container, pid: i32) -> (r: Child)
        ensures
            r.name@ == name@,
            r.config == config,
            r.pid == pid,
            r.current() == Some(ChildState::Created),
    {
        proof {
            lemma_round_trip(ChildState::Created);
        }
        Child { name, config, state: ChildState::Created.encode(), pid }
    }

    /// Moves `Created` to `Started`. In any other state nothing changes and
    /// the observed state is reported; the start signal is then not to be
    /// sent.
    pub fn start(&mut self) -> (r: Result<(), StateError>)
        ensures
            old(self).start_post(final(self), r),
    {
        match ChildState::decode(self.state) {
            Ok(ChildState::Created) => {
                proof {
                    lemma_round_trip(ChildState::Started);
                }
                self.state = ChildState::Started.encode();
                Ok(())
            },
            _ => Err(StateError { observed: self.get_state() }),
        }
    }

    /// Advances the state by one step; fails, changing nothing, where the
    /// state is terminal or the word holds no valid encoding.
    pub fn next_state(&mut self) -> (r: Result<(), StateError>)
        ensures
            old(self).next_state_post(final(self), r),
    {
        match ChildState::decode(self.state) {
            Ok(ChildState::Initial) => {
                proof {
                    lemma_round_trip(ChildState::Created);
                }
                self.state = ChildState::Created.encode();
                Ok(())
            },
            Ok(ChildState::Created) => {
                proof {
                    lemma_round_trip(ChildState::Started);
                }
                self.state = ChildState::Started.encode();
                Ok(())
            },
            Ok(ChildState::Started) => {
                proof {
                    lemma_round_trip(ChildState::Stopped);
                }
                self.state = ChildState::Stopped.encode();
                Ok(())
            },
            _ => Err(StateError { observed: self.get_state() }),
        }
    }

    /// Overwrites the state unconditionally and returns the state observed
    /// before.
    pub fn set_state(&mut self, status: ChildState) -> (r: ChildState)
        requires
            representable(status),
        ensures
            r == old(self).observed(),
            final(self).state == encoding(status),
            final(self).current() == Some(status),
            old(self).same_process(final(self)),
    {
        proof {
            lemma_round_trip(status);
        }
        let before = self.get_state();
        self.state = status.encode();
        before
    }

    /// Moves any state that is not terminal to `Crashed(status)`; fails,
    /// changing nothing, where the state is terminal or the word holds no
    /// valid encoding.
    pub fn set_exit_state(&mut self, status: isize) -> (r: Result<(), StateError>)
        requires
            status_fits(status),
        ensures
            old(self).exit_state_post(status, final(self), r),
    {
        match ChildState::decode(self.state) {
            Ok(ChildState::Stopped) | Ok(ChildState::Crashed(_)) | Err(_) => Err(
                StateError { observed: self.get_state() },
            ),
            Ok(_) => {
                proof {
                    lemma_round_trip(ChildState::Crashed(status));
                }
                self.state = ChildState::Crashed(status).encode();
                Ok(())
            },
        }
    }

    /// The state that the word holds, `Initial` where it holds no valid
    /// encoding.
    pub fn get_state(&self) -> (r: ChildState)
        ensures
            r == self.observed(),
    {
        match ChildState::decode(self.state) {
            Ok(s) => s,
            Err(_) => ChildState::Initial,
        }
    }
}

/// From `Created`, advancing succeeds exactly twice, to `Started` and then
/// to `Stopped`; the third call fails, reports `Stopped` and changes nothing,
/// so every later call fails in the same way.
pub proof fn lemma_advance_exactly_twice(
    c0: Child,
    c1: Child,
    c2: Child,
    c3: Child,
    r1: Result<(), StateError>,
    r2: Result<(), StateError>,
    r3: Result<(), StateError>,
)
    requires
        c0.current() == Some(ChildState::Created),
        c0.next_state_post(&c1, r1),
        c1.next_state_post(&c2, r2),
        c2.next_state_post(&c3, r3),
    ensures
        r1 is Ok,
        c1.current() == Some(ChildState::Started),
        r2 is Ok,
        c2.current() == Some(ChildState::Stopped),
        r3 == Err::<(), StateError>(StateError { observed: ChildState::Stopped }),
        c3.state == c2.state,
        !c3.may_advance(),
{
}

/// `start` succeeds exactly when the state is `Created`; called twice in a
/// row, the second call fails and reports `Started`.
pub proof fn lemma_start_only_once(
    c0: Child,
    c1: Child,
    c2: Child,
    r1: Result<(), StateError>,
    r2: Result<(), StateError>,
)
    requires
        c0.start_post(&c1, r1),
        c1.start_post(&c2, r2),
    ensures
        r1 is Ok <==> c0.current() == Some(ChildState::Created),
        r1 is Ok ==> r2 == Err::<(), StateError>(StateError { observed: ChildState::Started }),
{
}

/// Marking a crash fails, and changes nothing, once the state is `Stopped`
/// or `Crashed`.
pub proof fn lemma_crash_after_terminal(c0: Child, status: isize, c1: Child, r: Result<(), StateError>)
    requires
        c0.current() matches Some(s) && is_terminal(s),
        c0.exit_state_post(status, &c1, r),
    ensures
        r is Err,
        c1.state == c0.state,
{
}

} // verus!
