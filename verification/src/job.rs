//! The contract a job type must satisfy: its metadata queries, its priority
//! ordering and its status/failure state machine.

use crate::text::str_eq;
use vstd::prelude::*;

verus! {

/// The different priorities that can be assigned to a `Job`.
///
/// The five levels are totally ordered by their rank:
/// `Trivial < Low < Normal < High < Critical`. The default value is
/// `Priority::Normal`.
#[derive(Debug, Copy, Clone, PartialEq, Eq, PartialOrd, Ord, Structural)]
pub enum Priority {
    /// The lowest available priority for a job.
    Trivial,
    /// A lower priority than `Priority::Normal` but higher than
    /// `Priority::Trivial`.
    Low,
    /// The default priority for a job.
    Normal,
    /// A higher priority than `Priority::Normal` but lower than
    /// `Priority::Critical`.
    High,
    /// The highest available priority for a job.
    Critical,
}

impl Priority {
    /// The rank of a priority level: its position in the total order.
    pub open spec fn rank(self) -> int {
        match self {
            Priority::Trivial => 0,
            Priority::Low => 1,
            Priority::Normal => 2,
            Priority::High => 3,
            Priority::Critical => 4,
        }
    }

    /// Return the priority as a `u8` ranging from 0 to 4.
    pub fn to_u8(&self) -> (r: u8)
        ensures
            r as int == self.rank(),
    {
        match *self {
            Priority::Trivial => 0,
            Priority::Low => 1,
            Priority::Normal => 2,
            Priority::High => 3,
            Priority::Critical => 4,
        }
    }
}

/// The priority level named by a piece of configuration text: a
/// case-sensitive exact match against `trivial`, `low`, `normal`, `high`,
/// `critical`; anything else is an `InvalidPriority` error.
pub open spec fn spec_priority_from_text(s: Seq<char>) -> Result<Priority, Error> {
    if s == "trivial"@ {
        Ok(Priority::Trivial)
    } else if s == "low"@ {
        Ok(Priority::Low)
    } else if s == "normal"@ {
        Ok(Priority::Normal)
    } else if s == "high"@ {
        Ok(Priority::High)
    } else if s == "critical"@ {
        Ok(Priority::Critical)
    } else {
        Err(Error::InvalidPriority)
    }
}

impl Priority {
    /// Parse a priority from its lowercase text form.
    pub fn from_str(s: &str) -> (r: Result<Priority, Error>)
        ensures
            r == spec_priority_from_text(s@),
    {
        if str_eq(s, "trivial") {
            Ok(Priority::Trivial)
        } else if str_eq(s, "low") {
            Ok(Priority::Low)
        } else if str_eq(s, "normal") {
            Ok(Priority::Normal)
        } else if str_eq(s, "high") {
            Ok(Priority::High)
        } else if str_eq(s, "critical") {
            Ok(Priority::Critical)
        } else {
            Err(Error::InvalidPriority)
        }
    }
}

/// The five recognized priority texts parse to the five levels in strictly
/// increasing rank order (`Trivial < Low < Normal < High < Critical`), and
/// any other text fails with `InvalidPriority`.
pub proof fn lemma_priority_text_order()
    ensures
        spec_priority_from_text("trivial"@) == Ok::<Priority, Error>(Priority::Trivial),
        spec_priority_from_text("low"@) == Ok::<Priority, Error>(Priority::Low),
        spec_priority_from_text("normal"@) == Ok::<Priority, Error>(Priority::Normal),
        spec_priority_from_text("high"@) == Ok::<Priority, Error>(Priority::High),
        spec_priority_from_text("critical"@) == Ok::<Priority, Error>(Priority::Critical),
        Priority::Trivial.rank() < Priority::Low.rank() < Priority::Normal.rank()
            < Priority::High.rank() < Priority::Critical.rank(),
        forall|s: Seq<char>|
            s != "trivial"@ && s != "low"@ && s != "normal"@ && s != "high"@ && s != "critical"@
                ==> spec_priority_from_text(s) == Err::<Priority, Error>(Error::InvalidPriority),
{
    reveal_strlit("trivial");
    reveal_strlit("low");
    reveal_strlit("normal");
    reveal_strlit("high");
    reveal_strlit("critical");
    // The five texts have pairwise distinct lengths, so none can equal
    // an earlier one in the matching order.
    assert("trivial"@.len() == 7);
    assert("low"@.len() == 3);
    assert("normal"@.len() == 6);
    assert("high"@.len() == 4);
    assert("critical"@.len() == 8);
}

impl Default for Priority {
    /// The default priority of a job is `Normal`.
    fn default() -> (r: Self)
        ensures
            r == Priority::Normal,
    {
        Priority::Normal
    }
}

/// The error returned when priority text does not name one of the five
/// levels.
#[derive(Debug, Copy, Clone, PartialEq, Eq, Structural)]
pub enum Error {
    /// The given text is not one of `trivial`, `low`, `normal`, `high`,
    /// `critical`.
    InvalidPriority,
}

/// The different states a `Job` can be in.
///
/// `Pending` is the only initial state; `Success` and `Failed` are terminal.
/// A job moves `Pending -> Started -> (Success | Failed)`, and a `Failed`
/// state always carries its `Failure` reason.
#[derive(Clone, Copy, Debug, Eq, PartialEq, Structural)]
pub enum Status {
    /// The job was created but it wasn't sent/received yet.
    Pending,
    /// The job was received by a worker that started executing it.
    Started,
    /// The job completed successfully.
    Success,
    /// The job didn't complete successfully, see attached `Failure` cause.
    Failed(Failure),
}

/// Stores the reason for a job failure.
#[derive(Clone, Copy, Debug, Eq, PartialEq, Structural)]
pub enum Failure {
    /// The job handler returned an error.
    Error,
    /// The job didn't complete in time.
    Timeout,
    /// The job crashed (panic, segfault, etc.) while executing.
    Crash,
}

/// Whether a status is terminal: no further transition leaves it.
pub open spec fn spec_is_terminal(s: Status) -> bool {
    match s {
        Status::Pending => false,
        Status::Started => false,
        Status::Success => true,
        Status::Failed(_) => true,
    }
}

/// The transition relation of the status state machine:
/// `Pending -> Started -> (Success | Failed)`.
pub open spec fn spec_can_transition(from: Status, to: Status) -> bool {
    match from {
        Status::Pending => to is Started,
        Status::Started => to is Success || to is Failed,
        Status::Success => false,
        Status::Failed(_) => false,
    }
}

impl Status {
    /// Whether this status is terminal (`Success` or `Failed`).
    pub fn is_terminal(&self) -> (r: bool)
        ensures
            r == spec_is_terminal(*self),
    {
        match *self {
            Status::Success => true,
            Status::Failed(_) => true,
            _ => false,
        }
    }

    /// Whether the state machine allows moving from this status to `next`.
    pub fn can_transition(&self, next: &Status) -> (r: bool)
        ensures
            r == spec_can_transition(*self, *next),
    {
        match *self {
            Status::Pending => matches!(*next, Status::Started),
            Status::Started => matches!(*next, Status::Success | Status::Failed(_)),
            Status::Success => false,
            Status::Failed(_) => false,
        }
    }
}

/// A terminal status never allows a further transition: once a job reports
/// `Success` or `Failed`, its status is frozen.
pub proof fn lemma_terminal_is_final(s: Status, next: Status)
    requires
        spec_is_terminal(s),
    ensures
        !spec_can_transition(s, next),
{
}

/// A job and its related metadata (name, queue, timeout, etc.)
///
/// Each query is a pure, constant-like description of the job type: `name` is
/// a should-be-unique human-readable ID, `exchange` and `routing_key` locate
/// the declared topology entry the job is published to, `retries` is the
/// number of times the job must be retried in case of error, `timeout` is the
/// optional number of time units allowed for the job's handler to complete
/// (`None` meaning unbounded), and `priority` is the job's scheduling
/// preference.
pub trait Job {
    /// A should-be-unique human-readable ID for this job.
    fn name() -> &'static str;

    /// The exchange the job will be published to.
    fn exchange() -> &'static str;

    /// The routing key associated to this job.
    fn routing_key() -> &'static str;

    /// The number of times this job must be retried in case of error.
    fn retries() -> u32;

    /// An optional number of time units allowed for this job's handler to
    /// complete.
    fn timeout() -> Option<u64>;

    /// The priority associated to this job.
    fn priority() -> Priority;
}

/// The mathematical model of a job descriptor.
#[verifier::ext_equal]
pub ghost struct JobDescriptorModel {
    /// The unique human-readable ID of the job type.
    pub name: Seq<char>,
    /// The exchange the job is published to.
    pub exchange: Seq<char>,
    /// The routing key the job is published with.
    pub routing_key: Seq<char>,
    /// The number of times the job must be retried in case of error.
    pub retries: u32,
    /// The time units allowed for the job's handler; `None` is unbounded.
    pub timeout: Option<u64>,
    /// The job's scheduling preference.
    pub priority: Priority,
}

/// The compile-time-fixed metadata of a job type: one descriptor exists
/// per job type, immutable for the life of the program.
///
/// A descriptor is built from its routing identity (name, exchange,
/// routing key) with the enumerated defaults `retries = 0`,
/// `timeout = None` and `priority = Normal`; each default can be
/// overridden explicitly.
#[derive(Debug, Clone, PartialEq, Eq)]
pub struct JobDescriptor {
    name: String,
    exchange: String,
    routing_key: String,
    retries: u32,
    timeout: Option<u64>,
    priority: Priority,
}

impl View for JobDescriptor {
    type V = JobDescriptorModel;

    closed spec fn view(&self) -> JobDescriptorModel {
        JobDescriptorModel {
            name: self.name@,
            exchange: self.exchange@,
            routing_key: self.routing_key@,
            retries: self.retries,
            timeout: self.timeout,
            priority: self.priority,
        }
    }
}

impl JobDescriptor {
    /// Build the descriptor of a job type from its routing identity, with
    /// every other attribute at its default: no retries, no timeout,
    /// normal priority.
    pub fn new(name: String, exchange: String, routing_key: String) -> (d: Self)
        ensures
            d@.name == name@,
            d@.exchange == exchange@,
            d@.routing_key == routing_key@,
            d@.retries == 0,
            d@.timeout is None,
            d@.priority == Priority::Normal,
    {
        JobDescriptor {
            name,
            exchange,
            routing_key,
            retries: 0,
            timeout: None,
            priority: Priority::Normal,
        }
    }

    /// Override the retry count.
    pub fn with_retries(self, retries: u32) -> (d: Self)
        ensures
            d@.retries == retries,
            d@.name == self@.name,
            d@.exchange == self@.exchange,
            d@.routing_key == self@.routing_key,
            d@.timeout == self@.timeout,
            d@.priority == self@.priority,
    {
        JobDescriptor { retries, ..self }
    }

    /// Override the timeout, in time units.
    pub fn with_timeout(self, timeout: Option<u64>) -> (d: Self)
        ensures
            d@.timeout == timeout,
            d@.name == self@.name,
            d@.exchange == self@.exchange,
            d@.routing_key == self@.routing_key,
            d@.retries == self@.retries,
            d@.priority == self@.priority,
    {
        JobDescriptor { timeout, ..self }
    }

    /// Override the priority.
    pub fn with_priority(self, priority: Priority) -> (d: Self)
        ensures
            d@.priority == priority,
            d@.name == self@.name,
            d@.exchange == self@.exchange,
            d@.routing_key == self@.routing_key,
            d@.retries == self@.retries,
            d@.timeout == self@.timeout,
    {
        JobDescriptor { priority, ..self }
    }

    /// The unique human-readable ID of the job type.
    pub fn name(&self) -> (r: &str)
        ensures
            r@ == self@.name,
    {
        self.name.as_str()
    }

    /// The exchange the job is published to.
    pub fn exchange(&self) -> (r: &str)
        ensures
            r@ == self@.exchange,
    {
        self.exchange.as_str()
    }

    /// The routing key the job is published with.
    pub fn routing_key(&self) -> (r: &str)
        ensures
            r@ == self@.routing_key,
    {
        self.routing_key.as_str()
    }

    /// The number of times the job must be retried in case of error.
    pub fn retries(&self) -> (r: u32)
        ensures
            r == self@.retries,
    {
        self.retries
    }

    /// The time units allowed for the job's handler; `None` is unbounded.
    pub fn timeout(&self) -> (r: Option<u64>)
        ensures
            r == self@.timeout,
    {
        self.timeout
    }

    /// The job's scheduling preference.
    pub fn priority(&self) -> (r: Priority)
        ensures
            r == self@.priority,
    {
        self.priority
    }
}

/// A descriptor's declared `(exchange, routing key)` pair is stable: any
/// two queries of the same descriptor return the same pair, as each
/// getter's contract pins its result to the descriptor's one model.
pub proof fn lemma_descriptor_routing_stable(
    d: JobDescriptorModel,
    e1: Seq<char>,
    r1: Seq<char>,
    e2: Seq<char>,
    r2: Seq<char>,
)
    requires
        e1 == d.exchange,
        r1 == d.routing_key,
        e2 == d.exchange,
        r2 == d.routing_key,
    ensures
        e1 == e2,
        r1 == r2,
{
}

/// The `Perform` trait allows marking a `Job` as executable.
pub trait Perform {
    /// The type of the context value that will be given to this job's
    /// handler.
    type Context;

    /// Perform the job's duty.
    fn perform(&self, ctx: Self::Context);
}

} // verus!
