//! The run registry: at most one active run per session, with cooperative
//! cancellation through a token shared by every task of the run.
use vstd::prelude::*;
use tokio_util::sync::CancellationToken;
use crate::error::TumixError;
use crate::store::KeyedStore;

verus! {

/// tokio_util's `CancellationToken`, carried through as an opaque value.
#[verifier::external_type_specification]
#[verifier::external_body]
pub struct ExCancellationToken(CancellationToken);

/// Relies on tokio_util's `CancellationToken::new`: makes a fresh token.
pub assume_specification[ CancellationToken::new ]() -> CancellationToken;

/// Relies on tokio_util's `CancellationToken::cancel`: signals every clone of the token.
pub assume_specification[ CancellationToken::cancel ](t: &CancellationToken);

/// Relies on tokio_util's `Clone` for `CancellationToken`: a handle to the same token.
pub assume_specification[ <CancellationToken as Clone>::clone ](t: &CancellationToken) -> CancellationToken;

/// What was registered, or cancelled: the session and one fan-out round of it.
#[derive(Clone, Debug)]
pub struct RunDescriptor {
    pub session_id: String,
    pub run_id: String,
}

struct RunEntry {
    run_id: String,
    token: CancellationToken,
}

/// Table of active runs, keyed by session.
pub struct RunRegistry {
    runs: KeyedStore<RunEntry>,
}

/// Handle on a registered run. Handing it back to `release_run` frees the
/// session's slot; callers release it on every exit path.
pub struct RunGuard {
    descriptor: RunDescriptor,
    token: CancellationToken,
}

impl View for RunRegistry {
    type V = Map<Seq<char>, Seq<char>>;

    /// Session id to run id of every active run.
    closed spec fn view(&self) -> Map<Seq<char>, Seq<char>> {
        self.runs@.map_values(|e: RunEntry| e.run_id@)
    }
}

impl RunDescriptor {
    /// The descriptor as a pair of session id and run id.
    pub open spec fn pair(&self) -> (Seq<char>, Seq<char>) {
        (self.session_id@, self.run_id@)
    }
}

impl RunGuard {
    pub closed spec fn spec_descriptor(&self) -> RunDescriptor {
        self.descriptor
    }

    /// A handle to the run's cancellation token, for a task spawned under the run.
    pub fn token(&self) -> CancellationToken {
        self.token.clone()
    }

    /// The run this guard holds.
    pub fn descriptor(&self) -> (r: &RunDescriptor)
        ensures
            r == self.spec_descriptor(),
    {
        &self.descriptor
    }
}

impl RunRegistry {
    pub closed spec fn wf(&self) -> bool {
        self.runs.wf()
    }

    /// An empty registry.
    pub fn new() -> (r: RunRegistry)
        ensures
            r.wf(),
            r@ == Map::<Seq<char>, Seq<char>>::empty(),
    {
        let r = RunRegistry { runs: KeyedStore::new() };
        assert(r@ =~= Map::<Seq<char>, Seq<char>>::empty());
        r
    }

    /// Whether a run is active for the session.
    pub fn is_active(&self, session_id: &str) -> (r: bool)
        requires
            self.wf(),
        ensures
            r == self@.contains_key(session_id@),
    {
        self.runs.get(session_id).is_some()
    }
}

/// The table after registering run `r` of session `s`, or `None` when the
/// session already has an active run.
pub open spec fn registered(m: Map<Seq<char>, Seq<char>>, s: Seq<char>, r: Seq<char>) -> Option<
    Map<Seq<char>, Seq<char>>,
> {
    if m.contains_key(s) {
        None
    } else {
        Some(m.insert(s, r))
    }
}

/// The table after the run of session `s` is released.
pub open spec fn released(m: Map<Seq<char>, Seq<char>>, s: Seq<char>) -> Map<Seq<char>, Seq<char>> {
    m.remove(s)
}

/// Registers a run of `session_id`. Fails with `AlreadyRunning`, leaving the
/// table as it was, when the session already has one.
pub fn register_run(registry: &mut RunRegistry, session_id: &str, run_id: &str) -> (r: Result<
    RunGuard,
    TumixError,
>)
    requires
        old(registry).wf(),
    ensures
        final(registry).wf(),
        match registered(old(registry)@, session_id@, run_id@) {
            None => final(registry)@ == old(registry)@ && (match r {
                Err(TumixError::AlreadyRunning { session_id: s }) => s@ == session_id@,
                _ => false,
            }),
            Some(m) => final(registry)@ == m && (match r {
                Ok(g) => g.spec_descriptor().pair() == (session_id@, run_id@),
                _ => false,
            }),
        },
{
    if registry.runs.get(session_id).is_some() {
        return Err(TumixError::AlreadyRunning { session_id: session_id.to_owned() });
    }
    let token = CancellationToken::new();
    let entry = RunEntry { run_id: run_id.to_owned(), token: token.clone() };
    registry.runs.insert(session_id.to_owned(), entry);
    assert(registry@ =~= old(registry)@.insert(session_id@, run_id@));
    Ok(
        RunGuard {
            descriptor: RunDescriptor { session_id: session_id.to_owned(), run_id: run_id.to_owned() },
            token,
        },
    )
}

/// Releases the run that `guard` holds, freeing its session's slot.
pub fn release_run(registry: &mut RunRegistry, guard: RunGuard)
    requires
        old(registry).wf(),
    ensures
        final(registry).wf(),
        final(registry)@ == released(old(registry)@, guard.spec_descriptor().session_id@),
{
    registry.runs.remove(guard.descriptor.session_id.as_str());
    assert(registry@ =~= old(registry)@.remove(guard.descriptor.session_id@));
}

/// Signals the cancellation token of the session's active run and returns
/// what was cancelled; `None` when the session has no active run.
pub fn cancel_session(registry: &RunRegistry, session_id: &str) -> (r: Option<RunDescriptor>)
    requires
        registry.wf(),
    ensures
        r is Some <==> registry@.contains_key(session_id@),
        r matches Some(d) ==> d.pair() == (session_id@, registry@[session_id@]),
{
    match registry.runs.get(session_id) {
        None => None,
        Some(entry) => {
            entry.token.cancel();
            Some(RunDescriptor { session_id: session_id.to_owned(), run_id: entry.run_id.clone() })
        },
    }
}

/// Signals every active run's token and returns the runs cancelled, one per
/// active session, in no particular order.
pub fn cancel_all(registry: &RunRegistry) -> (r: Vec<RunDescriptor>)
    requires
        registry.wf(),
    ensures
        forall|i: int|
            0 <= i < r@.len() ==> registry@.contains_key(#[trigger] r@[i].session_id@)
                && registry@[r@[i].session_id@] == r@[i].run_id@,
        forall|k: Seq<char>|
            #[trigger] registry@.contains_key(k) ==> exists|i: int|
                0 <= i < r@.len() && (#[trigger] r@[i]).session_id@ == k,
        forall|i: int, j: int|
            0 <= i < j < r@.len() ==> (#[trigger] r@[i]).session_id@ != (#[trigger] r@[j]).session_id@,
{
    let mut out: Vec<RunDescriptor> = Vec::new();
    let n = registry.runs.len();
    let mut i: usize = 0;
    while i < n
        invariant
            registry.wf(),
            n == registry.runs.pairs().len(),
            i <= n,
            out@.len() == i,
            forall|j: int|
                0 <= j < i ==> (#[trigger] out@[j]).pair() == (
                    registry.runs.pairs()[j].0@,
                    registry.runs.pairs()[j].1.run_id@,
                ),
        decreases n - i,
    {
        let (session, entry) = registry.runs.entry(i);
        entry.token.cancel();
        out.push(RunDescriptor { session_id: session.clone(), run_id: entry.run_id.clone() });
        i = i + 1;
    }
    proof {
        let ps = registry.runs.pairs();
        registry.runs.lemma_pairs();
        assert forall|j: int| 0 <= j < out@.len() implies registry@.contains_key(
            #[trigger] out@[j].session_id@,
        ) && registry@[out@[j].session_id@] == out@[j].run_id@ by {
            assert(registry.runs@.contains_key(ps[j].0@));
        }
        assert forall|k: Seq<char>| #[trigger] registry@.contains_key(k) implies exists|j: int|
            0 <= j < out@.len() && (#[trigger] out@[j]).session_id@ == k by {
            assert(registry.runs@.contains_key(k));
            let j = choose|j: int| 0 <= j < ps.len() && (#[trigger] ps[j]).0@ == k;
            assert(out@[j].session_id@ == k);
        }
        assert forall|a: int, b: int| 0 <= a < b < out@.len() implies (
        #[trigger] out@[a]).session_id@ != (#[trigger] out@[b]).session_id@ by {
            assert(ps[a].0@ != ps[b].0@);
        }
    }
    out
}

/// While a run of a session is active a second registration of that session
/// fails; once the run is released, registering the session succeeds again.
pub proof fn lemma_one_run_per_session(
    m: Map<Seq<char>, Seq<char>>,
    s: Seq<char>,
    first: Seq<char>,
    second: Seq<char>,
)
    requires
        registered(m, s, first) is Some,
    ensures
        registered(registered(m, s, first)->0, s, second) is None,
        registered(released(registered(m, s, first)->0, s), s, second) is Some,
{
}

} // verus!
