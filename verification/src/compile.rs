//! The whole topology compilation pipeline: parse both declaration blocks,
//! validate them, and on success generate the frozen topology. On failure
//! the pipeline aggregates every diagnostic of the compilation unit into
//! one non-empty report and produces zero descriptors.

use crate::generate::{spec_generate, generate, Topology, TopologyModel};
use crate::parse::{parse, spec_parse};
use crate::report::{Diag, Report, ReportItem};
use crate::validate::{
    spec_validate_exchanges, spec_validate_queues, validate_exchanges, validate_queues,
};
use vstd::prelude::*;

verus! {

/// The report items of a semantic diagnostic list: the first `n`
/// diagnostics, each wrapped as a semantic report item, in order.
pub open spec fn spec_semantic_items(ds: Seq<Diag>, n: int) -> Seq<ReportItem>
    decreases n,
{
    if n <= 0 {
        Seq::empty()
    } else {
        spec_semantic_items(ds, n - 1).push(ReportItem::Semantic(ds[n - 1]))
    }
}

/// The result of compiling one compilation unit: the text of its exchange
/// block and of its queue block. Parse errors of both blocks are reported
/// together; semantic validation runs only on blocks that parsed, and the
/// queue block is checked against the exchange model only where that model
/// exists, since its cross-references cannot be resolved otherwise.
pub open spec fn spec_compile(ex_src: Seq<char>, q_src: Seq<char>) -> Result<
    TopologyModel,
    Seq<ReportItem>,
> {
    match (spec_parse(ex_src), spec_parse(q_src)) {
        (Err(e1), Err(e2)) => Err(seq![ReportItem::Parse(e1), ReportItem::Parse(e2)]),
        (Err(e1), Ok(_)) => Err(seq![ReportItem::Parse(e1)]),
        (Ok(_), Err(e2)) => Err(seq![ReportItem::Parse(e2)]),
        (Ok(es), Ok(qs)) => match spec_validate_exchanges(es) {
            Err(ds) => Err(spec_semantic_items(ds, ds.len() as int)),
            Ok(exm) => match spec_validate_queues(qs, exm) {
                Err(ds) => Err(spec_semantic_items(ds, ds.len() as int)),
                Ok(qm) => Ok(spec_generate(exm, qm)),
            },
        },
    }
}

/// Wrap a semantic diagnostic list into a report.
fn semantic_report(diags: Vec<Diag>) -> (r: Report)
    ensures
        r.items@ == spec_semantic_items(diags@, diags@.len() as int),
        r.items@.len() == diags@.len(),
{
    let mut items: Vec<ReportItem> = Vec::new();
    let mut i: usize = 0;
    proof {
        assert(items@ =~= spec_semantic_items(diags@, 0));
    }
    while i < diags.len()
        invariant
            0 <= i <= diags@.len(),
            items@ == spec_semantic_items(diags@, i as int),
            items@.len() == i,
        decreases diags@.len() - i,
    {
        items.push(ReportItem::Semantic(diags[i]));
        i = i + 1;
        proof {
            assert(items@ =~= spec_semantic_items(diags@, i as int));
        }
    }
    Report { items }
}

/// Compile one unit of topology declarations: the exchange block and the
/// queue block. On success the frozen topology is returned; on any parse
/// or semantic error the non-empty aggregate report is, and the unit
/// yields zero descriptors. The result is a function of the two source
/// texts alone, so compilation is deterministic.
pub fn compile(exchanges_src: &str, queues_src: &str) -> (r: Result<Topology, Report>)
    ensures
        (match (r, spec_compile(exchanges_src@, queues_src@)) {
            (Ok(t), Ok(tm)) => t.deep_view() == tm,
            (Err(rep), Err(items)) => rep.items@ == items && items.len() > 0,
            _ => false,
        }),
{
    let ex_parsed = parse(exchanges_src);
    let q_parsed = parse(queues_src);
    match (ex_parsed, q_parsed) {
        (Err(e1), Err(e2)) => {
            let mut items: Vec<ReportItem> = Vec::new();
            items.push(ReportItem::Parse(e1));
            items.push(ReportItem::Parse(e2));
            proof {
                assert(items@ =~= seq![ReportItem::Parse(e1), ReportItem::Parse(e2)]);
            }
            Err(Report { items })
        },
        (Err(e1), Ok(_)) => {
            let mut items: Vec<ReportItem> = Vec::new();
            items.push(ReportItem::Parse(e1));
            proof {
                assert(items@ =~= seq![ReportItem::Parse(e1)]);
            }
            Err(Report { items })
        },
        (Ok(_), Err(e2)) => {
            let mut items: Vec<ReportItem> = Vec::new();
            items.push(ReportItem::Parse(e2));
            proof {
                assert(items@ =~= seq![ReportItem::Parse(e2)]);
            }
            Err(Report { items })
        },
        (Ok(es), Ok(qs)) => match validate_exchanges(&es) {
            Err(ds) => Err(semantic_report(ds)),
            Ok(exd) => match validate_queues(&qs, &exd) {
                Err(ds) => Err(semantic_report(ds)),
                Ok(qd) => Ok(generate(exd, qd)),
            },
        },
    }
}

/// Compilation is deterministic: two runs over the same pair of source
/// texts agree exactly, descriptors and diagnostics alike. The result of
/// `compile` is pinned to `spec_compile`, a function of the input text, so
/// no unordered iteration or other nondeterminism can reach the output.
pub proof fn lemma_compile_deterministic(
    ex_src: Seq<char>,
    q_src: Seq<char>,
    r1: Result<TopologyModel, Seq<ReportItem>>,
    r2: Result<TopologyModel, Seq<ReportItem>>,
)
    requires
        r1 == spec_compile(ex_src, q_src),
        r2 == spec_compile(ex_src, q_src),
    ensures
        r1 == r2,
{
}

} // verus!
