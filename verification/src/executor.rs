//! The in-memory executor: runs a harness routine in the current process.

use vstd::prelude::*;

use crate::error::ExecError;
use crate::input::Input;
use crate::observer::Observer;
use crate::observer::{first_error, lemma_first_error_push, post_exec_results, reset_results};

verus! {

/// Classification of a harness invocation that returned normally.
///
/// The only value this core produces through the normal return path is
/// `Normal`; crashes and timeouts never return, so they are reported
/// through the signal-handling side channel instead.
#[derive(Clone, Copy, Debug, PartialEq, Eq, Structural)]
pub enum ExitKind {
    /// The harness completed normally.
    Normal,
    /// The harness classified the run as a crash.
    Crash,
    /// The harness classified the run as a timeout.
    Timeout,
}

/// The crash-context slot: a non-owning marker saying whether a harness
/// invocation is in flight on the owning executor.
///
/// Invariant of the run protocol: the slot is published if and only if a
/// harness call is strictly between its entry and exit points.  Signal
/// handlers consult it to tell a fault during a run from one in an idle
/// process.
pub struct CrashContextSlot {
    in_flight: bool,
    publications: Ghost<nat>,
}

impl CrashContextSlot {
    /// Whether a harness invocation is currently in flight.
    pub closed spec fn published(&self) -> bool {
        self.in_flight
    }

    /// How often this slot has ever been published.  The count is ghost
    /// bookkeeping: it lets contracts say that a run published the slot
    /// exactly once, or never touched it at all.
    pub closed spec fn publications(&self) -> nat {
        self.publications@
    }

    /// A fresh slot; nothing is in flight.
    pub fn new() -> (s: Self)
        ensures
            !s.published(),
            s.publications() == 0,
    {
        CrashContextSlot { in_flight: false, publications: Ghost(0) }
    }

    /// Mark a harness invocation as in flight.
    fn publish(&mut self)
        requires
            !old(self).published(),
        ensures
            final(self).published(),
            final(self).publications() == old(self).publications() + 1,
    {
        self.in_flight = true;
        proof {
            self.publications@ = self.publications@ + 1;
        }
    }

    /// Unconditionally mark the slot as clear, whatever its state.
    fn clear(&mut self)
        ensures
            !final(self).published(),
            final(self).publications() == old(self).publications(),
    {
        self.in_flight = false;
    }
}

/// An executor that invokes a caller-supplied harness routine in-process.
///
/// It owns a single, exclusively-owned input slot, an ordered collection
/// of observers (registration order is invocation order), and a harness
/// bound at construction.  Around every harness invocation it publishes
/// its crash-context slot, and it clears the slot again on every exit
/// path.
pub struct InMemoryExecutor<I, O, H> where
    I: Input,
    O: Observer,
    H: Fn(Vec<u8>) -> ExitKind,
 {
    cur_input: Option<Box<I>>,
    observers: Vec<O>,
    harness: H,
    ctx: CrashContextSlot,
}

impl<I, O, H> InMemoryExecutor<I, O, H> where
    I: Input,
    O: Observer,
    H: Fn(Vec<u8>) -> ExitKind,
 {
    /// The input currently loaded, if any.
    pub closed spec fn input_view(&self) -> Option<I> {
        match self.cur_input {
            Some(b) => Some(*b),
            None => None,
        }
    }

    /// The registered observers, in registration order.
    pub closed spec fn observers_view(&self) -> Seq<O> {
        self.observers@
    }

    /// The harness bound at construction.
    pub closed spec fn harness_view(&self) -> H {
        self.harness
    }

    /// Whether this executor has a harness invocation in flight.
    pub closed spec fn running(&self) -> bool {
        self.ctx.published()
    }

    /// How often this executor has ever published its crash-context slot:
    /// once per harness invocation, and not at all for a run that fails
    /// before harness entry.
    pub closed spec fn publications(&self) -> nat {
        self.ctx.publications()
    }

    /// An executor at rest: no harness invocation is in flight.  Every
    /// operation of this interface both expects and restores this state;
    /// the crash-context slot is published only strictly between harness
    /// entry and exit inside `run_target`.
    pub open spec fn at_rest(&self) -> bool {
        !self.running()
    }

    /// A fresh executor: empty input slot, no observers, slot clear.
    pub fn new(harness: H) -> (e: Self)
        ensures
            e.at_rest(),
            e.publications() == 0,
            e.input_view() is None,
            e.observers_view() == Seq::<O>::empty(),
            e.harness_view() == harness,
    {
        InMemoryExecutor {
            cur_input: None,
            observers: Vec::new(),
            harness,
            ctx: CrashContextSlot::new(),
        }
    }

    /// Transfer ownership of an input into the single slot, discarding
    /// any previous occupant.  Always succeeds.
    pub fn place_input(&mut self, input: Box<I>) -> (r: Result<(), ExecError>)
        ensures
            r is Ok,
            final(self).input_view() == Some(*input),
            final(self).observers_view() == old(self).observers_view(),
            final(self).harness_view() == old(self).harness_view(),
            final(self).running() == old(self).running(),
            final(self).publications() == old(self).publications(),
    {
        self.cur_input = Some(input);
        Ok(())
    }

    /// Invoke the harness with the serialized input, with the
    /// crash-context slot already published: a fault delivered while the
    /// harness runs must be attributable to this run.
    fn dispatch(&self, bytes: Vec<u8>) -> (k: ExitKind)
        requires
            self.running(),
            forall|b: Vec<u8>| #[trigger] call_requires(self.harness_view(), (b,)),
        ensures
            call_ensures(self.harness_view(), (bytes,), k),
    {
        proof {
            assert(call_requires(self.harness_view(), (bytes,)));
        }
        (self.harness)(bytes)
    }

    /// Execute exactly one trial of the loaded input.
    ///
    /// Requires a current input, serializes it, publishes the
    /// crash-context slot, invokes the harness synchronously with the
    /// serialized bytes, clears the slot, and returns the harness's
    /// outcome.  Both failure paths return before the slot is ever
    /// published and leave the executor unchanged.
    pub fn run_target(&mut self) -> (r: Result<ExitKind, ExecError>)
        requires
            old(self).at_rest(),
            forall|b: Vec<u8>| #[trigger] call_requires(old(self).harness_view(), (b,)),
        ensures
            final(self).at_rest(),
            final(self).input_view() == old(self).input_view(),
            final(self).observers_view() == old(self).observers_view(),
            final(self).harness_view() == old(self).harness_view(),
            r is Ok ==> final(self).publications() == old(self).publications() + 1,
            r is Err ==> final(self).publications() == old(self).publications(),
            match r {
                Result::Ok(k) => {
                    &&& old(self).input_view() matches Some(inp)
                    &&& inp.byte_repr() matches Some(bs)
                    &&& exists|b: Vec<u8>|
                        b@ == bs && call_ensures(old(self).harness_view(), (b,), k)
                },
                Result::Err(e) => {
                    ||| (old(self).input_view() is None && e == ExecError::EmptyState)
                    ||| {
                        &&& old(self).input_view() matches Some(inp)
                        &&& inp.byte_repr() is None
                        &&& e == ExecError::SerializationFailure
                    }
                },
            },
    {
        let bytes_res = match &self.cur_input {
            Some(i) => i.serialize(),
            None => {
                return Err(ExecError::EmptyState);
            },
        };
        let bytes = match bytes_res {
            Ok(b) => b,
            Err(e) => {
                return Err(e);
            },
        };
        self.ctx.publish();
        proof {
            // publishing touched only the slot; the harness is still the
            // one the caller promised totality for
            assert forall|b: Vec<u8>| #[trigger] call_requires(self.harness_view(), (b,)) by {
                assert(call_requires(old(self).harness_view(), (b,)));
            }
        }
        let kind = self.dispatch(bytes);
        self.ctx.clear();
        Ok(kind)
    }

    /// Read access to the input slot.
    pub fn cur_input(&self) -> (r: &Option<Box<I>>)
        ensures
            match *r {
                Some(b) => self.input_view() == Some(*b),
                None => self.input_view() is None,
            },
    {
        &self.cur_input
    }

    /// Mutable access to the input slot; the caller's writes through the
    /// returned reference land in the slot.
    pub fn cur_input_mut(&mut self) -> (r: &mut Option<Box<I>>)
        ensures
            match *r {
                Some(b) => old(self).input_view() == Some(*b),
                None => old(self).input_view() is None,
            },
            match *final(r) {
                Some(b) => final(self).input_view() == Some(*b),
                None => final(self).input_view() is None,
            },
            final(self).observers_view() == old(self).observers_view(),
            final(self).harness_view() == old(self).harness_view(),
            final(self).running() == old(self).running(),
            final(self).publications() == old(self).publications(),
    {
        &mut self.cur_input
    }

    /// Append an observer to the ordered collection; registration order
    /// is invocation order and is never changed afterwards.
    pub fn add_observer(&mut self, observer: O)
        ensures
            final(self).observers_view() == old(self).observers_view().push(observer),
            final(self).input_view() == old(self).input_view(),
            final(self).harness_view() == old(self).harness_view(),
            final(self).running() == old(self).running(),
            final(self).publications() == old(self).publications(),
    {
        self.observers.push(observer);
    }

    /// Read access to the observer collection.
    pub fn observers(&self) -> (r: &Vec<O>)
        ensures
            r@ == self.observers_view(),
    {
        &self.observers
    }

    /// Invoke every registered observer's reset step, in registration
    /// order.  Every observer's step runs even after one fails; only the
    /// first failure is surfaced.
    pub fn reset_observers(&mut self) -> (r: Result<(), ExecError>)
        ensures
            final(self).observers_view().len() == old(self).observers_view().len(),
            forall|i: int|
                0 <= i < old(self).observers_view().len() ==> final(self).observers_view()[i]
                    == old(self).observers_view()[i].reset_state(),
            r == first_error(reset_results(old(self).observers_view())),
            final(self).input_view() == old(self).input_view(),
            final(self).harness_view() == old(self).harness_view(),
            final(self).running() == old(self).running(),
            final(self).publications() == old(self).publications(),
    {
        let ghost orig: Seq<O> = self.observers@;
        let mut acc: Result<(), ExecError> = Ok(());
        let mut idx: usize = 0;
        while idx < self.observers.len()
            invariant
                0 <= idx <= self.observers@.len(),
                self.observers@.len() == orig.len(),
                forall|j: int| 0 <= j < idx ==> self.observers@[j] == orig[j].reset_state(),
                forall|j: int| idx <= j < orig.len() ==> self.observers@[j] == orig[j],
                acc == first_error(reset_results(orig).take(idx as int)),
                self.cur_input == old(self).cur_input,
                self.harness == old(self).harness,
                self.ctx == old(self).ctx,
            decreases self.observers@.len() - idx,
        {
            let ob = &mut self.observers[idx];
            let res = ob.reset();
            proof {
                assert(reset_results(orig)[idx as int] == res);
                assert(reset_results(orig).take(idx + 1) =~= reset_results(orig).take(
                    idx as int,
                ).push(reset_results(orig)[idx as int]));
                lemma_first_error_push(
                    reset_results(orig).take(idx as int),
                    reset_results(orig)[idx as int],
                );
                match res {
                    Result::Ok(u) => {
                        assert(res == Result::<(), ExecError>::Ok(u));
                    },
                    Result::Err(_) => {},
                }
                match acc {
                    Result::Ok(u) => {
                        assert(acc == Result::<(), ExecError>::Ok(u));
                    },
                    Result::Err(_) => {},
                }
            }
            if res.is_err() && acc.is_ok() {
                acc = res;
            }
            idx += 1;
        }
        proof {
            assert(reset_results(orig).take(orig.len() as int) =~= reset_results(orig));
        }
        acc
    }

    /// Invoke every registered observer's post-exec step, in registration
    /// order.  Every observer's step runs even after one fails; only the
    /// first failure is surfaced.
    pub fn post_exec_observers(&mut self) -> (r: Result<(), ExecError>)
        ensures
            final(self).observers_view().len() == old(self).observers_view().len(),
            forall|i: int|
                0 <= i < old(self).observers_view().len() ==> final(self).observers_view()[i]
                    == old(self).observers_view()[i].post_exec_state(),
            r == first_error(post_exec_results(old(self).observers_view())),
            final(self).input_view() == old(self).input_view(),
            final(self).harness_view() == old(self).harness_view(),
            final(self).running() == old(self).running(),
            final(self).publications() == old(self).publications(),
    {
        let ghost orig: Seq<O> = self.observers@;
        let mut acc: Result<(), ExecError> = Ok(());
        let mut idx: usize = 0;
        while idx < self.observers.len()
            invariant
                0 <= idx <= self.observers@.len(),
                self.observers@.len() == orig.len(),
                forall|j: int| 0 <= j < idx ==> self.observers@[j] == orig[j].post_exec_state(),
                forall|j: int| idx <= j < orig.len() ==> self.observers@[j] == orig[j],
                acc == first_error(post_exec_results(orig).take(idx as int)),
                self.cur_input == old(self).cur_input,
                self.harness == old(self).harness,
                self.ctx == old(self).ctx,
            decreases self.observers@.len() - idx,
        {
            let ob = &mut self.observers[idx];
            let res = ob.post_exec();
            proof {
                assert(post_exec_results(orig)[idx as int] == res);
                assert(post_exec_results(orig).take(idx + 1) =~= post_exec_results(orig).take(
                    idx as int,
                ).push(post_exec_results(orig)[idx as int]));
                lemma_first_error_push(
                    post_exec_results(orig).take(idx as int),
                    post_exec_results(orig)[idx as int],
                );
                match res {
                    Result::Ok(u) => {
                        assert(res == Result::<(), ExecError>::Ok(u));
                    },
                    Result::Err(_) => {},
                }
                match acc {
                    Result::Ok(u) => {
                        assert(acc == Result::<(), ExecError>::Ok(u));
                    },
                    Result::Err(_) => {},
                }
            }
            if res.is_err() && acc.is_ok() {
                acc = res;
            }
            idx += 1;
        }
        proof {
            assert(post_exec_results(orig).take(orig.len() as int) =~= post_exec_results(orig));
        }
        acc
    }
}

} // verus!
