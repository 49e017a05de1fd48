//! The descriptor generator: freezes a validated model into the immutable
//! topology descriptors consumed at run time, and resolves for every queue
//! the binding a job type publishes through. Generation is pure and
//! deterministic: its result is a function of the validated model alone.

use crate::validate::{ExchangeDecl, ExchangeKind, ExchangeModel, QueueDecl, QueueModel};
use crate::text::str_eq;
use vstd::prelude::*;

verus! {

/// The resolved binding a job type publishes through: for each declared
/// queue, the exchange and routing key a message must carry to reach it.
#[derive(Debug, Clone, PartialEq, Eq)]
pub struct JobBinding {
    /// The name of the declared queue.
    pub queue: String,
    /// The name of the exchange to publish to; the empty name is the
    /// broker's implicit default exchange.
    pub exchange: String,
    /// The routing key to publish with.
    pub routing_key: String,
}

/// The mathematical model of a resolved job binding.
#[verifier::ext_equal]
pub ghost struct BindingModel {
    /// The name of the declared queue.
    pub queue: Seq<char>,
    /// The name of the exchange to publish to.
    pub exchange: Seq<char>,
    /// The routing key to publish with.
    pub routing_key: Seq<char>,
}

impl DeepView for JobBinding {
    type V = BindingModel;

    open spec fn deep_view(&self) -> BindingModel {
        BindingModel {
            queue: self.queue@,
            exchange: self.exchange@,
            routing_key: self.routing_key@,
        }
    }
}

/// The binding resolved for one validated queue: a queue bound to the
/// implicit default exchange (empty name) is reached by publishing its own
/// name as the routing key; a queue bound to a fanout or headers exchange
/// needs no key and gets the empty one.
pub open spec fn spec_binding_of(q: QueueModel) -> BindingModel {
    BindingModel {
        queue: q.name,
        exchange: match q.bound_exchange {
            Some(x) => x,
            None => Seq::empty(),
        },
        routing_key: match q.routing_key {
            Some(r) => r,
            None => match q.bound_exchange {
                None => q.name,
                Some(_) => Seq::empty(),
            },
        },
    }
}

/// The bindings of the first `n` validated queues, in declaration order.
pub open spec fn spec_bindings_upto(qs: Seq<QueueModel>, n: int) -> Seq<BindingModel>
    decreases n,
{
    if n <= 0 {
        Seq::empty()
    } else {
        spec_bindings_upto(qs, n - 1).push(spec_binding_of(qs[n - 1]))
    }
}

/// The frozen topology of a compilation unit: the validated exchange and
/// queue records together with the resolved binding of every queue.
/// Created once at compile time and immutable thereafter.
#[derive(Debug, Clone, PartialEq, Eq)]
pub struct Topology {
    /// The declared exchanges, in declaration order.
    pub exchanges: Vec<ExchangeDecl>,
    /// The declared queues, in declaration order.
    pub queues: Vec<QueueDecl>,
    /// The resolved binding of each queue, in the same order.
    pub bindings: Vec<JobBinding>,
}

/// The mathematical model of a frozen topology.
#[verifier::ext_equal]
pub ghost struct TopologyModel {
    /// The declared exchanges, in declaration order.
    pub exchanges: Seq<ExchangeModel>,
    /// The declared queues, in declaration order.
    pub queues: Seq<QueueModel>,
    /// The resolved binding of each queue, in the same order.
    pub bindings: Seq<BindingModel>,
}

impl DeepView for Topology {
    type V = TopologyModel;

    open spec fn deep_view(&self) -> TopologyModel {
        TopologyModel {
            exchanges: self.exchanges.deep_view(),
            queues: self.queues.deep_view(),
            bindings: self.bindings.deep_view(),
        }
    }
}

/// The topology generated from a validated model: the records themselves,
/// in declaration order, plus one resolved binding per queue.
pub open spec fn spec_generate(exs: Seq<ExchangeModel>, qs: Seq<QueueModel>) -> TopologyModel {
    TopologyModel { exchanges: exs, queues: qs, bindings: spec_bindings_upto(qs, qs.len() as int) }
}

/// Executable mirror of [`spec_binding_of`].
fn binding_of(q: &QueueDecl) -> (b: JobBinding)
    ensures
        b.deep_view() == spec_binding_of(q.deep_view()),
{
    let exchange = match &q.bound_exchange {
        Some(x) => x.clone(),
        None => String::new(),
    };
    let routing_key = match &q.routing_key {
        Some(r) => r.clone(),
        None => match &q.bound_exchange {
            None => q.name.clone(),
            Some(_) => String::new(),
        },
    };
    JobBinding { queue: q.name.clone(), exchange, routing_key }
}

/// Generate the frozen topology of a validated model. Identical validated
/// input always yields an identical topology, with declaration order
/// preserved.
pub fn generate(exchanges: Vec<ExchangeDecl>, queues: Vec<QueueDecl>) -> (t: Topology)
    ensures
        t.deep_view() == spec_generate(exchanges.deep_view(), queues.deep_view()),
{
    let ghost qm = queues.deep_view();
    let mut bindings: Vec<JobBinding> = Vec::new();
    let mut i: usize = 0;
    proof {
        assert(bindings.deep_view() =~= spec_bindings_upto(qm, 0));
    }
    while i < queues.len()
        invariant
            0 <= i <= queues@.len(),
            qm == queues.deep_view(),
            bindings.deep_view() == spec_bindings_upto(qm, i as int),
        decreases queues@.len() - i,
    {
        let ghost pre = bindings.deep_view();
        let b = binding_of(&queues[i]);
        bindings.push(b);
        proof {
            assert(qm[i as int] == queues[i as int].deep_view());
            assert(bindings.deep_view() =~= pre.push(b.deep_view()));
            assert(bindings.deep_view() == spec_bindings_upto(qm, i as int + 1));
        }
        i = i + 1;
    }
    Topology { exchanges, queues, bindings }
}

/// The first declared exchange named `name` at or after position `i`.
pub open spec fn spec_exchange_named_from(
    exs: Seq<ExchangeModel>,
    name: Seq<char>,
    i: int,
) -> Option<ExchangeModel>
    decreases exs.len() - i,
{
    if 0 <= i < exs.len() {
        if exs[i].name == name {
            Some(exs[i])
        } else {
            spec_exchange_named_from(exs, name, i + 1)
        }
    } else {
        None
    }
}

/// The declared exchange named `name`, if any. Validated names are unique,
/// so at most one record matches.
pub open spec fn spec_exchange_named(exs: Seq<ExchangeModel>, name: Seq<char>) -> Option<
    ExchangeModel,
> {
    spec_exchange_named_from(exs, name, 0)
}

/// The binding of the queue named `queue` at or after position `i`.
pub open spec fn spec_binding_named_from(
    bs: Seq<BindingModel>,
    queue: Seq<char>,
    i: int,
) -> Option<BindingModel>
    decreases bs.len() - i,
{
    if 0 <= i < bs.len() {
        if bs[i].queue == queue {
            Some(bs[i])
        } else {
            spec_binding_named_from(bs, queue, i + 1)
        }
    } else {
        None
    }
}

/// The binding of the queue named `queue`, if any.
pub open spec fn spec_binding_named(bs: Seq<BindingModel>, queue: Seq<char>) -> Option<
    BindingModel,
> {
    spec_binding_named_from(bs, queue, 0)
}

/// Whether some queue of the topology is reached by publishing to
/// `exchange` with routing key `routing_key`.
pub open spec fn spec_routes(t: TopologyModel, exchange: Seq<char>, routing_key: Seq<char>) -> bool {
    exists|k: int|
        0 <= k < t.bindings.len() && t.bindings[k].exchange == exchange && t.bindings[k].routing_key
            == routing_key
}

impl Topology {
    /// The descriptor of the declared exchange named `name`, if any.
    pub fn exchange_named<'a>(&'a self, name: &str) -> (r: Option<&'a ExchangeDecl>)
        ensures
            (match (r, spec_exchange_named(self.deep_view().exchanges, name@)) {
                (Some(d), Some(m)) => d.deep_view() == m,
                (None, None) => true,
                _ => false,
            }),
    {
        let mut i: usize = 0;
        while i < self.exchanges.len()
            invariant
                0 <= i <= self.exchanges@.len(),
                spec_exchange_named(self.deep_view().exchanges, name@)
                    == spec_exchange_named_from(self.deep_view().exchanges, name@, i as int),
            decreases self.exchanges@.len() - i,
        {
            if str_eq(self.exchanges[i].name.as_str(), name) {
                return Some(&self.exchanges[i]);
            }
            i = i + 1;
        }
        None
    }

    /// The resolved binding of the declared queue named `queue`, if any.
    pub fn binding_for<'a>(&'a self, queue: &str) -> (r: Option<&'a JobBinding>)
        ensures
            (match (r, spec_binding_named(self.deep_view().bindings, queue@)) {
                (Some(b), Some(m)) => b.deep_view() == m,
                (None, None) => true,
                _ => false,
            }),
    {
        let mut i: usize = 0;
        while i < self.bindings.len()
            invariant
                0 <= i <= self.bindings@.len(),
                spec_binding_named(self.deep_view().bindings, queue@)
                    == spec_binding_named_from(self.deep_view().bindings, queue@, i as int),
            decreases self.bindings@.len() - i,
        {
            if str_eq(self.bindings[i].queue.as_str(), queue) {
                return Some(&self.bindings[i]);
            }
            i = i + 1;
        }
        None
    }

    /// Whether a job publishing to `exchange` with `routing_key` reaches a
    /// declared queue of this topology.
    pub fn routes(&self, exchange: &str, routing_key: &str) -> (r: bool)
        ensures
            r == spec_routes(self.deep_view(), exchange@, routing_key@),
    {
        let mut i: usize = 0;
        while i < self.bindings.len()
            invariant
                0 <= i <= self.bindings@.len(),
                forall|k: int|
                    0 <= k < i ==> !(self.deep_view().bindings[k].exchange == exchange@
                        && self.deep_view().bindings[k].routing_key == routing_key@),
            decreases self.bindings@.len() - i,
        {
            if str_eq(self.bindings[i].exchange.as_str(), exchange) && str_eq(
                self.bindings[i].routing_key.as_str(),
                routing_key,
            ) {
                assert(self.deep_view().bindings[i as int].exchange == exchange@
                    && self.deep_view().bindings[i as int].routing_key == routing_key@);
                return true;
            }
            i = i + 1;
        }
        false
    }
}

/// Generation keeps declaration order: the generated topology carries the
/// validated records unchanged, with one resolved binding per queue, the
/// binding at each position belonging to the queue at that position.
pub proof fn lemma_generate_preserves_order(exs: Seq<ExchangeModel>, qs: Seq<QueueModel>, n: int)
    requires
        0 <= n <= qs.len(),
    ensures
        spec_generate(exs, qs).exchanges == exs,
        spec_generate(exs, qs).queues == qs,
        spec_bindings_upto(qs, n).len() == n,
        forall|k: int| 0 <= k < n ==> spec_bindings_upto(qs, n)[k] == spec_binding_of(qs[k]),
    decreases n,
{
    if n > 0 {
        lemma_generate_preserves_order(exs, qs, n - 1);
    }
}

/// Once generated, a queue's binding is stable: any two lookups of the
/// same queue name in the same topology return the same `(exchange,
/// routing key)` pair.
pub proof fn lemma_binding_lookup_stable(
    t: TopologyModel,
    queue: Seq<char>,
    r1: Option<BindingModel>,
    r2: Option<BindingModel>,
)
    requires
        r1 == spec_binding_named(t.bindings, queue),
        r2 == spec_binding_named(t.bindings, queue),
    ensures
        r1 == r2,
{
}

} // verus!
