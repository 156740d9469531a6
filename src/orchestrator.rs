//! Gathering a run's per-agent outcomes: one agent's failure never takes
//! down its siblings.
use vstd::prelude::*;
use crate::error::TumixError;
use crate::executor::AgentResult;

verus! {

/// The agents that finished and the errors of those that did not.
pub struct RunReport {
    pub results: Vec<AgentResult>,
    pub failures: Vec<TumixError>,
}

/// The successful outcomes, in order.
pub open spec fn successes(o: Seq<Result<AgentResult, TumixError>>) -> Seq<AgentResult>
    decreases o.len(),
{
    if o.len() == 0 {
        Seq::empty()
    } else {
        match o.last() {
            Ok(r) => successes(o.drop_last()).push(r),
            Err(_) => successes(o.drop_last()),
        }
    }
}

/// The failed outcomes, in order.
pub open spec fn failures(o: Seq<Result<AgentResult, TumixError>>) -> Seq<TumixError>
    decreases o.len(),
{
    if o.len() == 0 {
        Seq::empty()
    } else {
        match o.last() {
            Ok(_) => failures(o.drop_last()),
            Err(e) => failures(o.drop_last()).push(e),
        }
    }
}

/// Splits the agents' outcomes into results and failures, keeping every one.
pub fn collect_results(outcomes: Vec<Result<AgentResult, TumixError>>) -> (r: RunReport)
    ensures
        r.results@ == successes(outcomes@),
        r.failures@ == failures(outcomes@),
        r.results@.len() + r.failures@.len() == outcomes@.len(),
{
    let ghost all = outcomes@;
    let _n = outcomes.len();
    let mut rest = outcomes;
    let mut results: Vec<AgentResult> = Vec::new();
    let mut fails: Vec<TumixError> = Vec::new();
    let mut k: usize = 0;
    while rest.len() > 0
        invariant
            k <= all.len() <= usize::MAX,
            rest@ == all.subrange(k as int, all.len() as int),
            results@ == successes(all.subrange(0, k as int)),
            fails@ == failures(all.subrange(0, k as int)),
            results@.len() + fails@.len() == k,
        decreases rest@.len(),
    {
        let o = rest.remove(0);
        proof {
            assert(all.subrange(0, k + 1).drop_last() =~= all.subrange(0, k as int));
            assert(all.subrange(0, k + 1).last() == o);
        }
        match o {
            Ok(a) => results.push(a),
            Err(e) => fails.push(e),
        }
        k = k + 1;
        proof {
            assert(rest@ =~= all.subrange(k as int, all.len() as int));
        }
    }
    assert(all.subrange(0, k as int) =~= all);
    RunReport { results, failures: fails }
}

} // verus!
