//! The effect chain: an ordered list of processors, applied left to right.
use vstd::prelude::*;
use crate::effects::{
    Effect, ParameterValues, ProcessorDescription, ProcessorError, effect_name, effect_update,
    details_of, reports_missing, values_view,
};
use crate::text::same_text;

verus! {

/// The chain of active processors; insertion order is signal order.
pub struct AudioPipeline {
    processors: Vec<Effect>,
}

impl View for AudioPipeline {
    type V = Seq<Effect>;

    closed spec fn view(&self) -> Seq<Effect> {
        self.processors@
    }
}

/// Position of the first processor named `name` at or after `i`.
pub open spec fn position_from(s: Seq<Effect>, name: Seq<char>, i: int) -> Option<int>
    decreases s.len() - i,
{
    if 0 <= i < s.len() {
        if effect_name(s[i]) == name {
            Some(i)
        } else {
            position_from(s, name, i + 1)
        }
    } else {
        None
    }
}

/// Position of the first processor named `name`: later ones with the same
/// name are shadowed by it.
pub open spec fn position_of(s: Seq<Effect>, name: Seq<char>) -> Option<int> {
    position_from(s, name, 0)
}

/// The chain after removing the first processor named `name`, if any.
pub open spec fn after_remove(s: Seq<Effect>, name: Seq<char>) -> Seq<Effect> {
    match position_of(s, name) {
        Some(i) => s.remove(i),
        None => s,
    }
}

/// Whether `trace` lists the values a sample takes on its way through
/// `chain` when each processor's step is `apply`: the input first, then the
/// output of each processor in turn.
pub open spec fn is_trace<S, F: Fn(Effect, S) -> S>(apply: F, chain: Seq<Effect>, trace: Seq<S>) -> bool {
    &&& trace.len() == chain.len() + 1
    &&& forall|i: int| 0 <= i < chain.len() ==> apply.ensures((chain[i], #[trigger] trace[i]), trace[i + 1])
}

/// Whether `r` is what the chain makes of `x` when each processor's step
/// is `apply`: every processor in turn, first to last.
pub open spec fn chained<S, F: Fn(Effect, S) -> S>(apply: F, chain: Seq<Effect>, x: S, r: S) -> bool {
    exists|trace: Seq<S>| #[trigger] is_trace(apply, chain, trace) && trace[0] == x && trace.last() == r
}

proof fn lemma_position_from_bounds(s: Seq<Effect>, name: Seq<char>, i: int)
    ensures
        position_from(s, name, i) matches Some(k) ==> i <= k < s.len() && effect_name(s[k]) == name,
    decreases s.len() - i,
{
    if 0 <= i < s.len() && effect_name(s[i]) != name {
        lemma_position_from_bounds(s, name, i + 1);
    }
}

proof fn lemma_position_from_absent(s: Seq<Effect>, name: Seq<char>, i: int)
    requires
        forall|j: int| i <= j < s.len() ==> effect_name(#[trigger] s[j]) != name,
    ensures
        position_from(s, name, i) is None,
    decreases s.len() - i,
{
    if 0 <= i < s.len() {
        lemma_position_from_absent(s, name, i + 1);
    }
}

/// The value `step` makes of `x` through `chain`, first processor to last.
pub open spec fn fold_chain<S>(step: spec_fn(Effect, S) -> S, chain: Seq<Effect>, x: S) -> S
    decreases chain.len(),
{
    if chain.len() == 0 {
        x
    } else {
        step(chain.last(), fold_chain(step, chain.drop_last(), x))
    }
}

/// When each processor's step is a function of its parameters and input,
/// so is the whole chain: its output is the fold of that function over the
/// processors in order, and two runs on the same sample agree.
pub proof fn lemma_chain_is_fold<S, F: Fn(Effect, S) -> S>(apply: F, step: spec_fn(Effect, S) -> S, chain: Seq<Effect>, x: S, r: S)
    requires
        forall|e: Effect, s: S, o: S| #[trigger] apply.ensures((e, s), o) ==> o == step(e, s),
        chained(apply, chain, x, r),
    ensures
        r == fold_chain(step, chain, x),
{
    let trace = choose|trace: Seq<S>| #[trigger] is_trace(apply, chain, trace) && trace[0] == x && trace.last() == r;
    assert forall|i: int| 0 <= i <= chain.len() implies #[trigger] trace[i] == fold_chain(step, chain.take(i), x) by {
        lemma_trace_prefix(apply, step, chain, trace, i);
    }
    assert(chain.take(chain.len() as int) =~= chain);
}

proof fn lemma_trace_prefix<S, F: Fn(Effect, S) -> S>(apply: F, step: spec_fn(Effect, S) -> S, chain: Seq<Effect>, trace: Seq<S>, i: int)
    requires
        forall|e: Effect, s: S, o: S| #[trigger] apply.ensures((e, s), o) ==> o == step(e, s),
        is_trace(apply, chain, trace),
        0 <= i <= chain.len(),
    ensures
        trace[i] == fold_chain(step, chain.take(i), trace[0]),
    decreases i,
{
    if i > 0 {
        lemma_trace_prefix(apply, step, chain, trace, i - 1);
        assert(chain.take(i).drop_last() =~= chain.take(i - 1));
        assert(apply.ensures((chain[i - 1], trace[i - 1]), trace[i]));
    } else {
        assert(chain.take(0) =~= Seq::<Effect>::empty());
    }
}

/// A chain without processors hands every sample back unchanged.
pub proof fn lemma_empty_chain_is_identity<S, F: Fn(Effect, S) -> S>(apply: F, x: S, r: S)
    requires
        chained(apply, Seq::<Effect>::empty(), x, r),
    ensures
        r == x,
{
    let trace = choose|trace: Seq<S>| #[trigger] is_trace(apply, Seq::<Effect>::empty(), trace) && trace[0] == x && trace.last() == r;
    assert(trace.len() == 1);
}

/// With processors `a` then `b`, the chain's output is `b` applied to the
/// output of `a`: when `apply` computes `step`, the result is
/// `step(b, step(a, x))`.
pub proof fn lemma_chain_order<S, F: Fn(Effect, S) -> S>(apply: F, step: spec_fn(Effect, S) -> S, a: Effect, b: Effect, x: S, r: S)
    requires
        forall|e: Effect, s: S, o: S| #[trigger] apply.ensures((e, s), o) ==> o == step(e, s),
        chained(apply, seq![a, b], x, r),
    ensures
        r == step(b, step(a, x)),
{
    let chain = seq![a, b];
    let trace = choose|trace: Seq<S>| #[trigger] is_trace(apply, chain, trace) && trace[0] == x && trace.last() == r;
    assert(apply.ensures((chain[0], trace[0]), trace[1]));
    assert(apply.ensures((chain[1], trace[1]), trace[2]));
}

/// Removing a name that no processor carries, in particular from an empty
/// chain, leaves the chain as it is.
pub proof fn lemma_remove_absent_is_noop(s: Seq<Effect>, name: Seq<char>)
    requires
        forall|i: int| 0 <= i < s.len() ==> effect_name(#[trigger] s[i]) != name,
    ensures
        after_remove(s, name) == s,
        after_remove(s, name).len() == s.len(),
{
    lemma_position_from_absent(s, name, 0);
}

impl AudioPipeline {
    /// An empty chain.
    pub fn new() -> (p: AudioPipeline)
        ensures
            p@ == Seq::<Effect>::empty(),
    {
        AudioPipeline { processors: Vec::new() }
    }

    /// Number of processors.
    pub fn len(&self) -> (n: usize)
        ensures
            n == self@.len(),
    {
        self.processors.len()
    }

    /// The processors, first to last.
    pub fn processors(&self) -> (r: &Vec<Effect>)
        ensures
            r@ == self@,
    {
        &self.processors
    }

    /// Appends a processor at the end of the chain.
    pub fn add_processor(&mut self, processor: Effect)
        ensures
            final(self)@ == old(self)@.push(processor),
    {
        self.processors.push(processor);
    }

    /// Position of the first processor named `name`.
    pub fn position(&self, name: &str) -> (r: Option<usize>)
        ensures
            r matches Some(k) ==> position_of(self@, name@) == Some(k as int),
            r is None ==> position_of(self@, name@) is None,
    {
        let mut i: usize = 0;
        while i < self.processors.len()
            invariant
                i <= self@.len(),
                position_of(self@, name@) == position_from(self@, name@, i as int),
            decreases self@.len() - i,
        {
            if same_text(self.processors[i].get_name(), name) {
                return Some(i);
            }
            i += 1;
        }
        None
    }

    /// Removes the first processor named `name`; does nothing when none is.
    pub fn remove_processor(&mut self, name: &str)
        ensures
            final(self)@ == after_remove(old(self)@, name@),
    {
        proof {
            lemma_position_from_bounds(self@, name@, 0);
        }
        match self.position(name) {
            Some(i) => {
                self.processors.remove(i);
            },
            None => {},
        }
    }

    /// Applies a full parameter update to the first processor named `name`
    /// and returns the parameters it now has. Nothing changes when no
    /// processor has that name or a parameter is missing.
    pub fn update_processor_values(&mut self, name: &str, values: &ParameterValues) -> (r: Result<ParameterValues, ProcessorError>)
        ensures
            match position_of(old(self)@, name@) {
                None => r is Err && r->Err_0 is NotFound && final(self)@ == old(self)@,
                Some(i) => match effect_update(old(self)@[i], values@) {
                    Ok(e) => r is Ok && final(self)@ == old(self)@.update(i, e) && values_view(r->Ok_0@) == details_of(e),
                    Err(m) => r is Err && reports_missing(r->Err_0, m) && final(self)@ == old(self)@,
                },
            },
    {
        proof {
            lemma_position_from_bounds(self@, name@, 0);
        }
        match self.position(name) {
            None => Err(ProcessorError::NotFound),
            Some(i) => {
                let mut e = self.processors[i];
                match e.update_values(values) {
                    Ok(()) => {
                        let applied = e.details();
                        self.processors.set(i, e);
                        Ok(applied)
                    },
                    Err(err) => Err(err),
                }
            },
        }
    }

    /// Every processor's name and parameters, in chain order.
    pub fn snapshot(&self) -> (r: Vec<ProcessorDescription>)
        ensures
            r@.len() == self@.len(),
            forall|i: int|
                0 <= i < r@.len() ==> (#[trigger] r@[i]).name@ == effect_name(self@[i]) && values_view(
                    r@[i].details@,
                ) == details_of(self@[i]),
    {
        let mut r: Vec<ProcessorDescription> = Vec::new();
        let mut i: usize = 0;
        while i < self.processors.len()
            invariant
                i <= self@.len(),
                r@.len() == i,
                forall|j: int|
                    0 <= j < i ==> (#[trigger] r@[j]).name@ == effect_name(self@[j]) && values_view(
                        r@[j].details@,
                    ) == details_of(self@[j]),
            decreases self@.len() - i,
        {
            r.push(self.processors[i].describe());
            i += 1;
        }
        r
    }

    /// Runs one sample through the chain, first processor to last, with
    /// `apply` computing one processor's output from its input. An empty
    /// chain hands the sample back as it came.
    pub fn process_sample<S, F: Fn(Effect, S) -> S>(&self, sample: S, apply: F) -> (r: S)
        requires
            forall|e: Effect, s: S| apply.requires((e, s)),
        ensures
            chained(apply, self@, sample, r),
            self@.len() == 0 ==> r == sample,
    {
        let mut cur = sample;
        let ghost mut trace: Seq<S> = seq![sample];
        let mut i: usize = 0;
        while i < self.processors.len()
            invariant
                i <= self@.len(),
                forall|e: Effect, s: S| apply.requires((e, s)),
                is_trace(apply, self@.take(i as int), trace),
                trace[0] == sample,
                trace.last() == cur,
            decreases self@.len() - i,
        {
            let ghost prev = cur;
            let next = apply(self.processors[i], cur);
            proof {
                let old_trace = trace;
                trace = trace.push(next);
                let t = self@.take(i as int + 1);
                assert forall|j: int| 0 <= j < t.len() implies apply.ensures((t[j], #[trigger] trace[j]), trace[j + 1]) by {
                    if j < i {
                        assert(t[j] == self@.take(i as int)[j]);
                        assert(trace[j] == old_trace[j]);
                        assert(trace[j + 1] == old_trace[j + 1]);
                    } else {
                        assert(trace[j] == prev);
                    }
                }
            }
            cur = next;
            i += 1;
        }
        assert(self@.take(self@.len() as int) =~= self@);
        assert(is_trace(apply, self@, trace));
        cur
    }
}

} // verus!
