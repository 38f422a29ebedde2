//! The interfaces of the host, one after the other.
//!
//! The kernel does not say in advance how many interfaces there are. It is
//! asked twice: first with no room at all, so that it reports how much room
//! its records need, then with a buffer of exactly that size, which it fills
//! with one record per interface. Each record's name is then resolved to a
//! handle in the way a name given to [`Interface::open`] is, one exchange per
//! record. A record that cannot be resolved is reported as a failure in its
//! place and does not stop the others from being resolved.

use vstd::prelude::*;
use crate::error::Error;
use crate::interface::{Interface, Operation, Outcome};
use crate::name::CAPACITY;
use crate::request::{ask, query, Command, Reply, Request};
use crate::sys;

verus! {

/// The sixteen bytes of `records` from `at` on, as a name field.
pub open spec fn field_at(records: Seq<u8>, at: int) -> [u8; 16] {
    [
        records[at],
        records[at + 1],
        records[at + 2],
        records[at + 3],
        records[at + 4],
        records[at + 5],
        records[at + 6],
        records[at + 7],
        records[at + 8],
        records[at + 9],
        records[at + 10],
        records[at + 11],
        records[at + 12],
        records[at + 13],
        records[at + 14],
        records[at + 15],
    ]
}

/// The number of whole records of `stride` bytes among `length` bytes.
pub open spec fn count(length: int, stride: int) -> int {
    length / stride
}

/// The name fields of the records that the first `length` bytes of `records`
/// hold, each record being `stride` bytes wide and beginning with its name.
pub open spec fn names_in(records: Seq<u8>, length: int, stride: int) -> Seq<[u8; 16]> {
    Seq::new(count(length, stride) as nat, |i: int| field_at(records, i * stride))
}

/// What became of one record: the handle for `name` if the kernel resolved
/// it, and else the failure. It is what resolving `name` on its own comes to.
pub open spec fn entry(name: [u8; 16], outcome: Result<Reply, Error>) -> Result<Interface, Error> {
    match (Operation::Resolve { name }).resumed(outcome).result() {
        Some(Ok(Outcome::Handle(handle))) => Ok(handle),
        Some(Err(error)) => Err(error),
        _ => Err(Error::Unexpected),
    }
}

/// An enumeration at some point of its course, as a mathematical value.
pub enum Survey {
    /// The kernel is being asked how much room its records need.
    Probe { stride: usize },
    /// The kernel is being asked to fill a buffer of `capacity` bytes.
    Fill { stride: usize, capacity: i32 },
    /// The names are known; `entries` holds what became of the first of
    /// them, and the next is being resolved.
    Resolve { names: Seq<[u8; 16]>, entries: Seq<Result<Interface, Error>> },
    /// The enumeration is over.
    Finished { result: Result<Seq<Result<Interface, Error>>, Error> },
}

impl Survey {
    /// Records are wide enough to begin with a name field, and while names
    /// are being resolved there is a name left to resolve.
    pub open spec fn wf(self) -> bool {
        match self {
            Survey::Probe { stride } => stride >= CAPACITY,
            Survey::Fill { stride, .. } => stride >= CAPACITY,
            Survey::Resolve { names, entries } => entries.len() < names.len(),
            Survey::Finished { .. } => true,
        }
    }

    /// The request that the enumeration waits on, if it is not over.
    pub open spec fn request(self) -> Option<Request> {
        match self {
            Survey::Probe { .. } => Some(Request::Probe),
            Survey::Fill { capacity, .. } => Some(Request::Enumerate { capacity }),
            Survey::Resolve { names, entries } => Some(
                query(Command::GetIndex, names[entries.len() as int]),
            ),
            Survey::Finished { .. } => None,
        }
    }

    /// The result of the enumeration, once it is over.
    pub open spec fn result(self) -> Option<Result<Seq<Result<Interface, Error>>, Error>> {
        match self {
            Survey::Finished { result } => Some(result),
            _ => None,
        }
    }

    /// The enumeration after the exchange that carried its request ended in
    /// `outcome`.
    ///
    /// While the kernel is asked for its records, a failed exchange ends the
    /// enumeration, and so does an answer of another shape or one whose
    /// length is negative or larger than the buffer that came with it. While
    /// names are resolved, the outcome decides one entry and no more.
    pub open spec fn resumed(self, outcome: Result<Reply, Error>) -> Survey {
        match self {
            Survey::Probe { stride } => match outcome {
                Err(error) => Survey::Finished { result: Err(error) },
                Ok(Reply::Interface(_)) => Survey::Finished { result: Err(Error::Unexpected) },
                Ok(Reply::Enumerate { length, .. }) => if length < 0 {
                    Survey::Finished { result: Err(Error::Unexpected) }
                } else {
                    Survey::Fill { stride, capacity: length }
                },
            },
            Survey::Fill { stride, .. } => match outcome {
                Err(error) => Survey::Finished { result: Err(error) },
                Ok(Reply::Interface(_)) => Survey::Finished { result: Err(Error::Unexpected) },
                Ok(Reply::Enumerate { length, records }) => if length < 0 || length
                    > records@.len() {
                    Survey::Finished { result: Err(Error::Unexpected) }
                } else if count(length as int, stride as int) == 0 {
                    Survey::Finished { result: Ok(Seq::empty()) }
                } else {
                    Survey::Resolve {
                        names: names_in(records@, length as int, stride as int),
                        entries: Seq::empty(),
                    }
                },
            },
            Survey::Resolve { names, entries } => {
                let entries = entries.push(entry(names[entries.len() as int], outcome));
                if entries.len() >= names.len() {
                    Survey::Finished { result: Ok(entries) }
                } else {
                    Survey::Resolve { names, entries }
                }
            },
            Survey::Finished { .. } => self,
        }
    }

    /// The enumeration after each of `outcomes` in turn.
    pub open spec fn run(self, outcomes: Seq<Result<Reply, Error>>) -> Survey
        decreases outcomes.len(),
    {
        if outcomes.len() == 0 {
            self
        } else {
            self.run(outcomes.drop_last()).resumed(outcomes.last())
        }
    }
}

enum State {
    Probe { stride: usize },
    Fill { stride: usize, capacity: i32 },
    Resolve { names: Vec<[u8; 16]>, entries: Vec<Result<Interface, Error>> },
    Finished { result: Result<Vec<Result<Interface, Error>>, Error> },
}

/// An enumeration of the host's interfaces, at some point of its course.
///
/// It names the request to make next and takes in the outcome of the
/// [`crate::exchange::Exchange`] that carried it, until it is over.
pub struct Listing {
    state: State,
}

impl View for Listing {
    type V = Survey;

    closed spec fn view(&self) -> Survey {
        match self.state {
            State::Probe { stride } => Survey::Probe { stride },
            State::Fill { stride, capacity } => Survey::Fill { stride, capacity },
            State::Resolve { names, entries } => Survey::Resolve {
                names: names@,
                entries: entries@,
            },
            State::Finished { result } => Survey::Finished {
                result: match result {
                    Ok(entries) => Ok(entries@),
                    Err(error) => Err(error),
                },
            },
        }
    }
}

/// Cuts the name fields out of the first `length` bytes of `records`, which
/// hold records of `stride` bytes each. Bytes after the last whole record are
/// left aside. There is no answer if `records` is shorter than `length`, or
/// if a record is too narrow to hold a name field.
pub fn split(records: &Vec<u8>, length: usize, stride: usize) -> (r: Option<Vec<[u8; 16]>>)
    ensures
        r is Some <==> length <= records@.len() && stride >= CAPACITY,
        r matches Some(names) ==> names@ == names_in(records@, length as int, stride as int),
{
    if length > records.len() || stride < CAPACITY {
        return None;
    }
    let total = length / stride;
    let mut names: Vec<[u8; 16]> = Vec::new();
    let mut i: usize = 0;
    while i < total
        invariant
            i <= total,
            total == count(length as int, stride as int),
            length <= records@.len(),
            stride >= CAPACITY,
            names@.len() == i,
            forall|k: int| 0 <= k < i ==> names@[k] == field_at(records@, k * stride),
        decreases total - i,
    {
        assert(i * stride + stride <= length) by (nonlinear_arith)
            requires
                i < total,
                total == length as int / stride as int,
                stride > 0,
        ;
        let at: usize = i * stride;
        let field = [
            records[at],
            records[at + 1],
            records[at + 2],
            records[at + 3],
            records[at + 4],
            records[at + 5],
            records[at + 6],
            records[at + 7],
            records[at + 8],
            records[at + 9],
            records[at + 10],
            records[at + 11],
            records[at + 12],
            records[at + 13],
            records[at + 14],
            records[at + 15],
        ];
        assert(field =~= field_at(records@, at as int));
        names.push(field);
        i += 1;
    }
    assert(names@ =~= names_in(records@, length as int, stride as int));
    Some(names)
}

/// Decides what became of one record from the outcome of the exchange that
/// tried to resolve its name.
pub fn resolve(name: [u8; 16], outcome: Result<Reply, Error>) -> (r: Result<Interface, Error>)
    ensures
        r == entry(name, outcome),
{
    match (Operation::Resolve { name }).resume(outcome).finish() {
        Some(Ok(Outcome::Handle(handle))) => Ok(handle),
        Some(Err(error)) => Err(error),
        _ => Err(Error::Unexpected),
    }
}

impl Listing {
    #[verifier::type_invariant]
    spec fn sound(self) -> bool {
        self@.wf()
    }

    /// The request to make next, or `None` if the enumeration is over.
    pub fn pending(&self) -> (request: Option<Request>)
        ensures
            self@.wf(),
            request == self@.request(),
    {
        proof {
            use_type_invariant(self);
        }
        match &self.state {
            State::Probe { .. } => Some(Request::Probe),
            State::Fill { capacity, .. } => Some(Request::Enumerate { capacity: *capacity }),
            State::Resolve { names, entries } => Some(
                ask(Command::GetIndex, names[entries.len()]),
            ),
            State::Finished { .. } => None,
        }
    }

    /// Takes in the outcome of the exchange that carried the pending request.
    pub fn resume(self, outcome: Result<Reply, Error>) -> (next: Listing)
        ensures
            self@.wf(),
            next@.wf(),
            next@ == self@.resumed(outcome),
    {
        proof {
            use_type_invariant(&self);
        }
        let state = match self.state {
            State::Probe { stride } => match outcome {
                Err(error) => State::Finished { result: Err(error) },
                Ok(Reply::Interface(_)) => State::Finished { result: Err(Error::Unexpected) },
                Ok(Reply::Enumerate { length, .. }) => if length < 0 {
                    State::Finished { result: Err(Error::Unexpected) }
                } else {
                    State::Fill { stride, capacity: length }
                },
            },
            State::Fill { stride, capacity } => match outcome {
                Err(error) => State::Finished { result: Err(error) },
                Ok(Reply::Interface(_)) => State::Finished { result: Err(Error::Unexpected) },
                Ok(Reply::Enumerate { length, records }) => if length < 0 {
                    State::Finished { result: Err(Error::Unexpected) }
                } else {
                    match split(&records, length as usize, stride) {
                        None => State::Finished { result: Err(Error::Unexpected) },
                        Some(names) => if names.len() == 0 {
                            State::Finished { result: Ok(Vec::new()) }
                        } else {
                            State::Resolve { names, entries: Vec::new() }
                        },
                    }
                },
            },
            State::Resolve { names, entries } => {
                let mut entries = entries;
                let name = names[entries.len()];
                entries.push(resolve(name, outcome));
                if entries.len() >= names.len() {
                    State::Finished { result: Ok(entries) }
                } else {
                    State::Resolve { names, entries }
                }
            },
            State::Finished { result } => State::Finished { result },
        };
        Listing { state }
    }

    /// Whether the enumeration is over.
    pub fn is_finished(&self) -> (yes: bool)
        ensures
            yes == (self@ is Finished),
    {
        match &self.state {
            State::Finished { .. } => true,
            _ => false,
        }
    }

    /// Hands out the result of the enumeration, if it is over: one entry per
    /// record, in the order of the records.
    pub fn finish(self) -> (result: Option<Result<Vec<Result<Interface, Error>>, Error>>)
        ensures
            match (result, self@.result()) {
                (None, None) => true,
                (Some(Ok(entries)), Some(Ok(expected))) => entries@ == expected,
                (Some(Err(error)), Some(Err(expected))) => error == expected,
                _ => false,
            },
    {
        match self.state {
            State::Finished { result } => Some(result),
            _ => None,
        }
    }
}

/// What became of one record, case by case: a record whose name field is
/// terminated and whose name the kernel resolved gives a handle with that
/// very field and the index of the answer; a field without a terminator
/// gives [`Error::Malformed`]; a failed exchange gives its own failure.
pub proof fn lemma_entry(name: [u8; 16], outcome: Result<Reply, Error>)
    ensures
        match outcome {
            Ok(Reply::Interface(record)) => if crate::name::terminated(name@) {
                &&& entry(name, outcome) matches Ok(handle)
                &&& handle.wf()
                &&& handle.field() == name
                &&& handle.number() == record.index
            } else {
                entry(name, outcome) == Err::<Interface, Error>(Error::Malformed)
            },
            Ok(Reply::Enumerate { .. }) => entry(name, outcome) == Err::<Interface, Error>(
                Error::Unexpected,
            ),
            Err(error) => entry(name, outcome) == Err::<Interface, Error>(error),
        },
{
    if let Ok(Reply::Interface(record)) = outcome {
        crate::interface::lemma_resolve_keeps_field(name, record);
    }
}

/// While names are resolved, each outcome decides the entry of one record,
/// in the order of the records, and nothing else: after as many outcomes as
/// there are records the enumeration is over, with one entry per record, and
/// a record that could not be resolved has changed neither the number of
/// entries nor any other entry.
pub proof fn lemma_one_entry_per_record(
    names: Seq<[u8; 16]>,
    outcomes: Seq<Result<Reply, Error>>,
)
    requires
        0 < names.len(),
        outcomes.len() <= names.len(),
    ensures
        ({
            let start = Survey::Resolve { names, entries: Seq::empty() };
            let entries = Seq::new(outcomes.len(), |i: int| entry(names[i], outcomes[i]));
            start.run(outcomes) == if outcomes.len() < names.len() {
                Survey::Resolve { names, entries }
            } else {
                Survey::Finished { result: Ok(entries) }
            }
        }),
    decreases outcomes.len(),
{
    let start = Survey::Resolve { names, entries: Seq::empty() };
    let entries = Seq::new(outcomes.len(), |i: int| entry(names[i], outcomes[i]));
    if outcomes.len() == 0 {
        assert(entries =~= Seq::empty());
    } else {
        let earlier = outcomes.drop_last();
        lemma_one_entry_per_record(names, earlier);
        let before = Seq::new(earlier.len(), |i: int| entry(names[i], earlier[i]));
        assert(before.push(entry(names[before.len() as int], outcomes.last())) =~= entries);
    }
}

/// An enumeration asks for the size of the records, then for the records
/// in a buffer of exactly that size, and returns as many entries as the
/// kernel reported records in the buffer that it filled. The entry of each
/// record is what resolving that record's name on its own comes to.
pub proof fn lemma_list_length(
    stride: usize,
    room: i32,
    probed: Vec<u8>,
    length: i32,
    records: Vec<u8>,
    outcomes: Seq<Result<Reply, Error>>,
)
    requires
        stride >= CAPACITY,
        0 <= room,
        0 <= length <= records@.len(),
        outcomes.len() == count(length as int, stride as int),
    ensures
        ({
            let probe = Survey::Probe { stride };
            let fill = probe.resumed(Ok(Reply::Enumerate { length: room, records: probed }));
            let filled = fill.resumed(Ok(Reply::Enumerate { length, records }));
            let names = names_in(records@, length as int, stride as int);
            &&& probe.request() == Some(Request::Probe)
            &&& fill.request() == Some(Request::Enumerate { capacity: room })
            &&& filled.wf()
            &&& filled.run(outcomes).result() matches Some(Ok(entries))
            &&& entries.len() == count(length as int, stride as int)
            &&& forall|i: int| 0 <= i < entries.len() ==> entries[i] == entry(names[i], outcomes[i])
        }),
{
    let names = names_in(records@, length as int, stride as int);
    if count(length as int, stride as int) > 0 {
        lemma_one_entry_per_record(names, outcomes);
    } else {
        assert(outcomes.len() == 0);
    }
}

/// An enumeration in good order stays in good order, and once it is over no
/// outcome changes it.
pub proof fn lemma_survey_steps(survey: Survey, outcome: Result<Reply, Error>)
    requires
        survey.wf(),
    ensures
        survey.resumed(outcome).wf(),
        survey is Finished ==> survey.resumed(outcome) == survey,
        survey is Finished <==> survey.request() is None,
        survey is Finished <==> survey.result() is Some,
{
}

impl Interface {
    /// Begins to enumerate the interfaces of the host.
    pub fn list() -> (listing: Listing)
        ensures
            listing@ matches Survey::Probe { stride } && (stride == 32 || stride == 40),
    {
        Listing { state: State::Probe { stride: sys::ifreq_size() } }
    }
}

} // verus!
