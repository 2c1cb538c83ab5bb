//! Execution steps, traces, and the comparison of two traces.

use vstd::prelude::*;

verus! {

/// One snapshot of the machine's registers, taken before an instruction runs.
#[derive(Clone, Copy, Debug, PartialEq, Eq, Structural)]
pub struct TraceStep {
    /// Program counter.
    pub pc: usize,
    /// Allocation (stack) pointer.
    pub ap: usize,
    /// Frame pointer.
    pub fp: usize,
}

/// The trace that a run is expected to have: its steps in the order of
/// execution.
pub type ExpectedTrace = Vec<TraceStep>;

impl TraceStep {
    /// Builds a step from its three registers.
    pub fn new(pc: usize, ap: usize, fp: usize) -> (step: TraceStep)
        ensures
            step == (TraceStep { pc, ap, fp }),
    {
        TraceStep { pc, ap, fp }
    }
}

/// The length of the longest prefix that `a` and `b` have in common.
pub open spec fn common_prefix_len(a: Seq<TraceStep>, b: Seq<TraceStep>) -> nat
    decreases a.len(),
{
    if a.len() == 0 || b.len() == 0 || a[0] != b[0] {
        0
    } else {
        1 + common_prefix_len(a.skip(1), b.skip(1))
    }
}

/// The first position at which two traces differ: the position just behind
/// their longest common prefix. `None` when the traces are equal.
///
/// Where one trace is a proper prefix of the other, the position is the
/// length of the shorter one.
pub open spec fn first_difference(a: Seq<TraceStep>, b: Seq<TraceStep>) -> Option<nat> {
    if a == b {
        None
    } else {
        Some(common_prefix_len(a, b))
    }
}

/// The step of `trace` at `index`, if it has one.
pub open spec fn step_at(trace: Seq<TraceStep>, index: int) -> Option<TraceStep> {
    if 0 <= index < trace.len() {
        Some(trace[index])
    } else {
        None
    }
}

/// `a` and `b` hold the same steps at every position before `n`, and both
/// have at least `n` steps.
pub open spec fn agree_before(a: Seq<TraceStep>, b: Seq<TraceStep>, n: int) -> bool {
    &&& 0 <= n <= a.len()
    &&& n <= b.len()
    &&& forall|j: int| 0 <= j < n ==> a[j] == b[j]
}

/// Position `i` exists in at least one of the traces, and they do not hold
/// the same step there.
pub open spec fn differ_at(a: Seq<TraceStep>, b: Seq<TraceStep>, i: int) -> bool {
    step_at(a, i) != step_at(b, i)
}

/// What the common prefix is: the traces agree before it, and it ends either
/// where one of them ends or where they hold different steps.
pub proof fn lemma_common_prefix(a: Seq<TraceStep>, b: Seq<TraceStep>)
    ensures
        agree_before(a, b, common_prefix_len(a, b) as int),
        a != b ==> differ_at(a, b, common_prefix_len(a, b) as int),
        a == b ==> common_prefix_len(a, b) == a.len(),
    decreases a.len(),
{
    if a.len() == 0 || b.len() == 0 || a[0] != b[0] {
        if a.len() == 0 && b.len() == 0 {
            assert(a =~= b);
        }
    } else {
        let ta = a.skip(1);
        let tb = b.skip(1);
        lemma_common_prefix(ta, tb);
        let n = common_prefix_len(ta, tb) as int;
        assert forall|j: int| 0 <= j < n + 1 implies a[j] == b[j] by {
            if j > 0 {
                assert(ta[j - 1] == a[j]);
                assert(tb[j - 1] == b[j]);
            }
        }
        if a != b {
            if ta == tb {
                assert(a =~= b) by {
                    assert(a.len() == b.len());
                    assert forall|j: int| 0 <= j < a.len() implies a[j] == b[j] by {
                        if j > 0 {
                            assert(ta[j - 1] == a[j]);
                            assert(tb[j - 1] == b[j]);
                        }
                    }
                }
            }
            assert(step_at(ta, n) != step_at(tb, n));
            if n < ta.len() {
                assert(ta[n] == a[n + 1]);
            }
            if n < tb.len() {
                assert(tb[n] == b[n + 1]);
            }
        } else {
            assert(ta == tb);
        }
    }
}

/// Any position before which two traces agree and at which they differ is
/// their first difference.
pub proof fn lemma_first_difference_unique(a: Seq<TraceStep>, b: Seq<TraceStep>, i: int)
    requires
        agree_before(a, b, i),
        differ_at(a, b, i),
    ensures
        first_difference(a, b) == Some(i as nat),
{
    lemma_common_prefix(a, b);
    let n = common_prefix_len(a, b) as int;
    if a == b {
        assert(step_at(a, i) == step_at(b, i));
    } else if i < n {
        assert(a[i] == b[i]);
    } else if n < i {
        assert(a[n] == b[n]);
    }
}

/// Finds the first position at which `actual` and `expected` differ.
pub fn first_mismatch(actual: &[TraceStep], expected: &[TraceStep]) -> (found: Option<usize>)
    ensures
        found is None <==> actual@ == expected@,
        match found {
            Some(i) => first_difference(actual@, expected@) == Some(i as nat),
            None => first_difference(actual@, expected@) is None,
        },
{
    let mut i: usize = 0;
    while i < actual.len() && i < expected.len()
        invariant
            agree_before(actual@, expected@, i as int),
        decreases actual.len() - i,
    {
        let x = actual[i];
        let y = expected[i];
        if x.pc != y.pc || x.ap != y.ap || x.fp != y.fp {
            proof {
                lemma_first_difference_unique(actual@, expected@, i as int);
            }
            return Some(i);
        }
        i += 1;
    }
    if actual.len() == expected.len() {
        assert(actual@ =~= expected@);
        None
    } else {
        proof {
            lemma_first_difference_unique(actual@, expected@, i as int);
        }
        Some(i)
    }
}

} // verus!
