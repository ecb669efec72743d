//! The observer capability: pluggable per-run data collectors.

use vstd::prelude::*;

use crate::error::ExecError;

verus! {

/// A stateful per-run collector (e.g. a coverage tracker).
///
/// `reset` clears per-run state before a run; `post_exec` commits or
/// collects results after one.  Both steps are fallible, and both are
/// deterministic in the observer's current state: the spec functions
/// below name the successor state and the reported result of each step.
pub trait Observer: Sized {
    /// The state this observer is in after a reset step.  Implementations
    /// verified against this trait override the defaults of these four
    /// models, which describe an observer whose steps always succeed and
    /// leave it unchanged.
    open spec fn reset_state(&self) -> Self {
        *self
    }

    /// The result a reset step reports from this state.
    open spec fn reset_result(&self) -> Result<(), ExecError> {
        Result::Ok(())
    }

    /// The state this observer is in after a post-exec step.
    open spec fn post_exec_state(&self) -> Self {
        *self
    }

    /// The result a post-exec step reports from this state.
    open spec fn post_exec_result(&self) -> Result<(), ExecError> {
        Result::Ok(())
    }

    /// Clear per-run state.  Failure means the observer is unusable for
    /// the upcoming run.
    fn reset(&mut self) -> (r: Result<(), ExecError>)
        ensures
            *final(self) == old(self).reset_state(),
            r == old(self).reset_result(),
    ;

    /// Commit or collect results after a run.  Failure means the data
    /// collected for that run may be incomplete.
    fn post_exec(&mut self) -> (r: Result<(), ExecError>)
        ensures
            *final(self) == old(self).post_exec_state(),
            r == old(self).post_exec_result(),
    ;
}

/// The results an observer sequence reports from its reset steps.
pub open spec fn reset_results<O: Observer>(obs: Seq<O>) -> Seq<Result<(), ExecError>> {
    Seq::new(obs.len(), |i: int| obs[i].reset_result())
}

/// The results an observer sequence reports from its post-exec steps.
pub open spec fn post_exec_results<O: Observer>(obs: Seq<O>) -> Seq<Result<(), ExecError>> {
    Seq::new(obs.len(), |i: int| obs[i].post_exec_result())
}

/// The first failure in a batch of step results, or success when every
/// step succeeded.  This is the all-invoked, first-error-wins policy:
/// every step still runs, but only the earliest failure is surfaced.
pub open spec fn first_error(rs: Seq<Result<(), ExecError>>) -> Result<(), ExecError>
    decreases rs.len(),
{
    if rs.len() == 0 {
        Result::Ok(())
    } else if rs[0] is Err {
        rs[0]
    } else {
        first_error(rs.drop_first())
    }
}

/// Appending one more result to a batch leaves an earlier failure in
/// force; otherwise the new result decides.
pub proof fn lemma_first_error_push(rs: Seq<Result<(), ExecError>>, x: Result<(), ExecError>)
    ensures
        first_error(rs.push(x)) == (if first_error(rs) is Err {
            first_error(rs)
        } else {
            x
        }),
    decreases rs.len(),
{
    let p = rs.push(x);
    if rs.len() == 0 {
        assert(p[0] == x);
        if !(x is Err) {
            assert(p.drop_first() =~= Seq::<Result<(), ExecError>>::empty());
            assert(first_error(p.drop_first()) == Result::<(), ExecError>::Ok(()));
            match x {
                Result::Ok(u) => {
                    assert(x == Result::<(), ExecError>::Ok(u));
                },
                Result::Err(_) => {
                    assert(false);
                },
            }
        }
    } else {
        assert(p[0] == rs[0]);
        assert(p.drop_first() =~= rs.drop_first().push(x));
        lemma_first_error_push(rs.drop_first(), x);
    }
}

/// First-error-wins, characterized: a batch reports success exactly when
/// every step succeeded.
pub proof fn lemma_first_error_ok_iff_all_ok(rs: Seq<Result<(), ExecError>>)
    ensures
        first_error(rs) is Ok <==> (forall|i: int| 0 <= i < rs.len() ==> rs[i] is Ok),
    decreases rs.len(),
{
    if rs.len() > 0 {
        lemma_first_error_ok_iff_all_ok(rs.drop_first());
        if first_error(rs) is Ok {
            assert(rs[0] is Ok);
            assert forall|i: int| 0 <= i < rs.len() implies rs[i] is Ok by {
                if i > 0 {
                    assert(rs.drop_first()[i - 1] == rs[i]);
                }
            }
        } else {
            if !(rs[0] is Err) {
                assert(first_error(rs.drop_first()) is Err);
                let j = choose|j: int|
                    0 <= j < rs.drop_first().len() && !(rs.drop_first()[j] is Ok);
                assert(rs.drop_first()[j] == rs[j + 1]);
            }
        }
    }
}

/// First-error-wins, characterized: the failure surfaced for a batch is
/// the one at the earliest failing position.
pub proof fn lemma_first_error_is_earliest(rs: Seq<Result<(), ExecError>>, i: int)
    requires
        0 <= i < rs.len(),
        rs[i] is Err,
        forall|j: int| 0 <= j < i ==> rs[j] is Ok,
    ensures
        first_error(rs) == rs[i],
    decreases rs.len(),
{
    if i > 0 {
        lemma_first_error_is_earliest(rs.drop_first(), i - 1);
    }
}

} // verus!
