use vstd::prelude::*;

verus! {

/// Where one echo request stands. Instants are nanoseconds on a clock of
/// the caller's choice; durations are nanoseconds.
#[derive(Debug, Clone, Copy, PartialEq, Eq, Structural)]
pub enum ResultsState {
    /// Not sent yet.
    Idle,
    /// Sent at this instant.
    Started(u64),
    /// Answered after this duration.
    Succeded(u64),
    /// Answered out of order, or never.
    Failed,
}

/// The reported outcome of one request.
#[derive(Debug, Clone, Copy, PartialEq, Eq, Structural)]
pub enum JsonResultState {
    Succeded(u64),
    Failed,
}

/// Why a result could not be recorded.
#[derive(Debug, Clone, Copy, PartialEq, Eq, Structural)]
pub enum ResultsError {
    /// The sequence number is not the one of this slot.
    InvalidSequence,
    /// No target has this identifier.
    UnknownIdentifier,
    /// The target has no slot for this sequence number.
    UnknownSequence,
}

/// The time between two instants; zero where `now` lies before `then`.
pub open spec fn elapsed(then: u64, now: u64) -> u64 {
    if now >= then {
        (now - then) as u64
    } else {
        0
    }
}

/// The state after an answer arrives at `now`: a sent request succeeds
/// after the time elapsed since it was sent; in any other state the answer
/// is out of order and the request fails.
pub open spec fn received_state(s: ResultsState, now: u64) -> ResultsState {
    match s {
        ResultsState::Started(then) => ResultsState::Succeded(elapsed(then, now)),
        _ => ResultsState::Failed,
    }
}

/// The state after the request is sent at `now`: only a request not sent
/// yet starts; sending it again fails it.
pub open spec fn started_state(s: ResultsState, now: u64) -> ResultsState {
    match s {
        ResultsState::Idle => ResultsState::Started(now),
        _ => ResultsState::Failed,
    }
}

/// The reported outcome: only an answered request succeeded.
pub open spec fn finished(s: ResultsState) -> JsonResultState {
    match s {
        ResultsState::Succeded(d) => JsonResultState::Succeded(d),
        _ => JsonResultState::Failed,
    }
}

impl ResultsState {
    pub fn finish(self) -> (r: JsonResultState)
        ensures
            r == finished(self),
    {
        match self {
            ResultsState::Succeded(dur) => JsonResultState::Succeded(dur),
            ResultsState::Idle | ResultsState::Started(_) | ResultsState::Failed => {
                JsonResultState::Failed
            },
        }
    }
}

/// The slot of one request to one target.
pub struct ResultsValue {
    pub sequence: u64,
    pub target: String,
    pub state: ResultsState,
}

impl ResultsValue {
    pub fn new(sequence: u64, target: &str) -> (r: ResultsValue)
        ensures
            r.sequence == sequence,
            r.target@ == target@,
            r.state == ResultsState::Idle,
    {
        ResultsValue { sequence, target: target.to_string(), state: ResultsState::Idle }
    }

    /// Records the answer to request `sequence`, which arrived at `now`.
    pub fn recieved(&mut self, sequence: u64, now: u64) -> (r: Result<(), ResultsError>)
        ensures
            final(self).sequence == old(self).sequence,
            final(self).target == old(self).target,
            sequence != old(self).sequence ==> r == Err::<(), ResultsError>(
                ResultsError::InvalidSequence,
            ) && final(self).state == old(self).state,
            sequence == old(self).sequence ==> r is Ok && final(self).state == received_state(
                old(self).state,
                now,
            ),
    {
        if self.sequence != sequence {
            return Err(ResultsError::InvalidSequence);
        }
        self.state = match self.state {
            ResultsState::Started(then) => {
                let dur = if now >= then {
                    now - then
                } else {
                    0
                };
                ResultsState::Succeded(dur)
            },
            _ => ResultsState::Failed,
        };
        Ok(())
    }

    /// Records that request `sequence` was sent at `now`.
    pub fn start(&mut self, sequence: u64, now: u64) -> (r: Result<(), ResultsError>)
        ensures
            final(self).sequence == old(self).sequence,
            final(self).target == old(self).target,
            sequence != old(self).sequence ==> r == Err::<(), ResultsError>(
                ResultsError::InvalidSequence,
            ) && final(self).state == old(self).state,
            sequence == old(self).sequence ==> r is Ok && final(self).state == started_state(
                old(self).state,
                now,
            ),
    {
        if self.sequence != sequence {
            return Err(ResultsError::InvalidSequence);
        }
        self.state = match self.state {
            ResultsState::Idle => ResultsState::Started(now),
            _ => ResultsState::Failed,
        };
        Ok(())
    }
}

/// One line of the report.
pub struct JsonResults {
    pub identifier: u64,
    pub sequence: u64,
    pub target: String,
    pub state: JsonResultState,
}

/// Each slot of the table paired with its target's identifier, target by
/// target and slot by slot.
pub open spec fn flattened(rs: Seq<Vec<ResultsValue>>) -> Seq<(u64, ResultsValue)>
    decreases rs.len(),
{
    if rs.len() == 0 {
        Seq::empty()
    } else {
        let id = (rs.len() - 1) as u64;
        flattened(rs.drop_last()) + rs.last()@.map_values(|v: ResultsValue| (id, v))
    }
}

/// `line` reports slot `v` of the target with identifier `id`.
pub open spec fn reports(line: JsonResults, id: u64, v: ResultsValue) -> bool {
    &&& line.identifier == id
    &&& line.sequence == v.sequence
    &&& line.target@ == v.target@
    &&& line.state == finished(v.state)
}

/// The number of failed requests among `lines`.
pub open spec fn failed_count(lines: Seq<JsonResults>) -> nat
    decreases lines.len(),
{
    if lines.len() == 0 {
        0
    } else {
        failed_count(lines.drop_last()) + if lines.last().state == JsonResultState::Failed {
            1nat
        } else {
            0nat
        }
    }
}

/// What recording an event for request `seq` of target `identifier` at
/// `now` does to the table: an unknown identifier or sequence number is an
/// error and changes nothing; a slot whose sequence number differs is an
/// error and keeps its state; otherwise the slot takes the state after an
/// answer (`answer`) or after sending.
pub open spec fn recorded(
    before: Seq<Vec<ResultsValue>>,
    after: Seq<Vec<ResultsValue>>,
    identifier: u64,
    seq: u64,
    r: Result<(), ResultsError>,
    answer: bool,
    now: u64,
) -> bool {
    if identifier >= before.len() {
        r == Err::<(), ResultsError>(ResultsError::UnknownIdentifier) && after == before
    } else if seq >= before[identifier as int]@.len() {
        r == Err::<(), ResultsError>(ResultsError::UnknownSequence) && after == before
    } else {
        let v = before[identifier as int]@[seq as int];
        let w = after[identifier as int]@[seq as int];
        &&& after == before.update(identifier as int, after[identifier as int])
        &&& after[identifier as int]@ == before[identifier as int]@.update(seq as int, w)
        &&& w.sequence == v.sequence
        &&& w.target == v.target
        &&& if seq != v.sequence {
            r == Err::<(), ResultsError>(ResultsError::InvalidSequence) && w.state == v.state
        } else {
            r is Ok && w.state == if answer {
                received_state(v.state, now)
            } else {
                started_state(v.state, now)
            }
        }
    }
}

/// `slots` holds one fresh slot for each of `tries` requests to `target`,
/// slot `j` for sequence number `j`.
pub open spec fn fresh_slots(slots: Seq<ResultsValue>, target: Seq<char>, tries: int) -> bool {
    &&& slots.len() == tries
    &&& forall|j: int|
        0 <= j < tries ==> {
            &&& (#[trigger] slots[j]).sequence == j
            &&& slots[j].target@ == target
            &&& slots[j].state == ResultsState::Idle
        }
}

/// The results of an echo run: for the target with identifier `i`,
/// `targets[i]` is its address and `results[i]` its slots.
pub struct Results {
    pub results: Vec<Vec<ResultsValue>>,
    pub targets: Vec<String>,
}

impl Results {
    pub fn new() -> (r: Results)
        ensures
            r.results@.len() == 0,
            r.targets@.len() == 0,
    {
        Results { results: Vec::new(), targets: Vec::new() }
    }

    /// Gives each address an identifier, its position, and `tries` fresh
    /// slots; what was recorded before is dropped.
    pub fn prime(&mut self, addresses: &Vec<String>, tries: usize)
        ensures
            final(self).results@.len() == addresses@.len(),
            final(self).targets@.len() == addresses@.len(),
            forall|i: int|
                0 <= i < addresses@.len() ==> {
                    &&& (#[trigger] final(self).targets@[i])@ == addresses@[i]@
                    &&& fresh_slots(final(self).results@[i]@, addresses@[i]@, tries as int)
                },
    {
        let mut results: Vec<Vec<ResultsValue>> = Vec::new();
        let mut targets: Vec<String> = Vec::new();
        let mut i: usize = 0;
        while i < addresses.len()
            invariant
                0 <= i <= addresses@.len(),
                results@.len() == i,
                targets@.len() == i,
                forall|k: int|
                    0 <= k < i ==> {
                        &&& (#[trigger] targets@[k])@ == addresses@[k]@
                        &&& fresh_slots(results@[k]@, addresses@[k]@, tries as int)
                    },
            decreases addresses@.len() - i,
        {
            let address = &addresses[i];
            let mut target: Vec<ResultsValue> = Vec::new();
            let mut x: usize = 0;
            while x < tries
                invariant
                    0 <= x <= tries,
                    target@.len() == x,
                    forall|j: int|
                        0 <= j < x ==> {
                            &&& (#[trigger] target@[j]).sequence == j
                            &&& target@[j].target@ == address@
                            &&& target@[j].state == ResultsState::Idle
                        },
                decreases tries - x,
            {
                target.push(ResultsValue::new(x as u64, address.as_str()));
                x = x + 1;
            }
            results.push(target);
            targets.push(address.clone());
            i = i + 1;
        }
        self.results = results;
        self.targets = targets;
    }

    /// The identifier of `address`: the last position that holds it.
    pub fn identifier_of(&self, address: &String) -> (r: Option<u64>)
        ensures
            r matches Some(id) ==> id < self.targets@.len() && self.targets@[id as int]@
                == address@ && forall|k: int|
                id < k < self.targets@.len() ==> (#[trigger] self.targets@[k])@ != address@,
            r is None ==> forall|k: int|
                0 <= k < self.targets@.len() ==> (#[trigger] self.targets@[k])@ != address@,
    {
        let mut i: usize = self.targets.len();
        while i > 0
            invariant
                0 <= i <= self.targets@.len(),
                forall|k: int| i <= k < self.targets@.len() ==> (#[trigger] self.targets@[k])@ != address@,
            decreases i,
        {
            i = i - 1;
            if self.targets[i].eq(address) {
                return Some(i as u64);
            }
        }
        None
    }

    /// Records the answer to request `seq` of target `identifier`, which
    /// arrived at `now`.
    pub fn recv_packet(&mut self, identifier: u64, seq: u64, now: u64) -> (r: Result<
        (),
        ResultsError,
    >)
        ensures
            final(self).targets == old(self).targets,
            final(self).results@.len() == old(self).results@.len(),
            recorded(old(self).results@, final(self).results@, identifier, seq, r, true, now),
    {
        if identifier >= self.results.len() as u64 {
            return Err(ResultsError::UnknownIdentifier);
        }
        let id = identifier as usize;
        if seq >= self.results[id].len() as u64 {
            return Err(ResultsError::UnknownSequence);
        }
        let j = seq as usize;
        self.results[id][j].recieved(seq, now)
    }

    /// Records that request `seq` of target `identifier` was sent at `now`.
    pub fn start_packet(&mut self, identifier: u64, seq: u64, now: u64) -> (r: Result<
        (),
        ResultsError,
    >)
        ensures
            final(self).targets == old(self).targets,
            recorded(old(self).results@, final(self).results@, identifier, seq, r, false, now),
    {
        if identifier >= self.results.len() as u64 {
            return Err(ResultsError::UnknownIdentifier);
        }
        let id = identifier as usize;
        if seq >= self.results[id].len() as u64 {
            return Err(ResultsError::UnknownSequence);
        }
        let j = seq as usize;
        self.results[id][j].start(seq, now)
    }

    /// The report: one line per slot, target by target and slot by slot.
    pub fn finish(&self) -> (r: Vec<JsonResults>)
        ensures
            r@.len() == flattened(self.results@).len(),
            forall|k: int|
                0 <= k < r@.len() ==> reports(
                    #[trigger] r@[k],
                    flattened(self.results@)[k].0,
                    flattened(self.results@)[k].1,
                ),
    {
        let ghost rs = self.results@;
        let mut ret: Vec<JsonResults> = Vec::new();
        let mut i: usize = 0;
        while i < self.results.len()
            invariant
                0 <= i <= rs.len(),
                rs == self.results@,
                ret@.len() == flattened(rs.take(i as int)).len(),
                forall|k: int|
                    0 <= k < ret@.len() ==> reports(
                        #[trigger] ret@[k],
                        flattened(rs.take(i as int))[k].0,
                        flattened(rs.take(i as int))[k].1,
                    ),
            decreases rs.len() - i,
        {
            let ghost next = flattened(rs.take(i as int + 1));
            assert(rs.take(i as int + 1).drop_last() == rs.take(i as int));
            let ghost base = ret@.len();
            let slots = &self.results[i];
            let mut j: usize = 0;
            while j < slots.len()
                invariant
                    0 <= j <= slots@.len(),
                    i < rs.len(),
                    rs == self.results@,
                    slots == self.results@[i as int],
                    next == flattened(rs.take(i as int + 1)),
                    next.len() == base + slots@.len(),
                    ret@.len() == base + j,
                    forall|k: int|
                        0 <= k < ret@.len() ==> reports(#[trigger] ret@[k], next[k].0, next[k].1),
                decreases slots@.len() - j,
            {
                let v = &slots[j];
                ret.push(
                    JsonResults {
                        identifier: i as u64,
                        sequence: v.sequence,
                        target: v.target.clone(),
                        state: v.state.finish(),
                    },
                );
                j = j + 1;
            }
            i = i + 1;
        }
        assert(rs.take(rs.len() as int) == rs);
        ret
    }
}

impl JsonResults {
    /// The number of failed requests in a report.
    pub fn count_failed(results: &Vec<JsonResults>) -> (r: usize)
        ensures
            r == failed_count(results@),
    {
        let mut n: usize = 0;
        let mut i: usize = 0;
        while i < results.len()
            invariant
                0 <= i <= results@.len(),
                n == failed_count(results@.take(i as int)),
                n <= i,
            decreases results@.len() - i,
        {
            assert(results@.take(i as int + 1).drop_last() == results@.take(i as int));
            if results[i].state == JsonResultState::Failed {
                n = n + 1;
            }
            i = i + 1;
        }
        assert(results@.take(results@.len() as int) == results@);
        n
    }
}

} // verus!
