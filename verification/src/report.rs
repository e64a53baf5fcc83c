//! The reporter: a stable two-way partition that moves every failure
//! after every success without reordering either group, and the exit
//! code derived from the collected outcomes.

use crate::messages::OutputMessage;
use vstd::prelude::*;
use vstd::seq_lib::lemma_multiset_commutative;

verus! {

/// The successes among the collected outcomes, in encounter order.
pub open spec fn successes_of(s: Seq<OutputMessage>) -> Seq<OutputMessage> {
    s.filter(|m: OutputMessage| !m.is_err)
}

/// The failures among the collected outcomes, in encounter order.
pub open spec fn failures_of(s: Seq<OutputMessage>) -> Seq<OutputMessage> {
    s.filter(|m: OutputMessage| m.is_err)
}

/// The report order: every success first, then every failure, each
/// group in its original relative order.
pub open spec fn partitioned(s: Seq<OutputMessage>) -> Seq<OutputMessage> {
    successes_of(s) + failures_of(s)
}

/// Does any collected outcome report a failure?
pub open spec fn has_failure(s: Seq<OutputMessage>) -> bool {
    exists|i: int| 0 <= i < s.len() && s[i].is_err
}

proof fn lemma_filter_empty(pred: spec_fn(OutputMessage) -> bool)
    ensures
        Seq::<OutputMessage>::empty().filter(pred) == Seq::<OutputMessage>::empty(),
{
    reveal(Seq::filter);
}

proof fn lemma_filter_step(s: Seq<OutputMessage>, pred: spec_fn(OutputMessage) -> bool)
    requires
        s.len() > 0,
    ensures
        s.filter(pred) == if pred(s.last()) {
            s.drop_last().filter(pred).push(s.last())
        } else {
            s.drop_last().filter(pred)
        },
{
    reveal(Seq::filter);
}

/// A sequence each of whose elements satisfies the predicate filters to
/// itself; one none of whose elements does filters to nothing.
proof fn lemma_filter_all_or_none(s: Seq<OutputMessage>, pred: spec_fn(OutputMessage) -> bool)
    ensures
        (forall|i: int| 0 <= i < s.len() ==> pred(s[i])) ==> s.filter(pred) == s,
        (forall|i: int| 0 <= i < s.len() ==> !pred(s[i])) ==> s.filter(pred) == Seq::<
            OutputMessage,
        >::empty(),
    decreases s.len(),
{
    if s.len() == 0 {
        lemma_filter_empty(pred);
        assert(s =~= Seq::<OutputMessage>::empty());
    } else {
        lemma_filter_all_or_none(s.drop_last(), pred);
        lemma_filter_step(s, pred);
        assert(forall|i: int| 0 <= i < s.len() - 1 ==> s.drop_last()[i] == s[i]);
        if forall|i: int| 0 <= i < s.len() ==> pred(s[i]) {
            assert(s.filter(pred) =~= s);
        }
    }
}

proof fn lemma_partition_pieces(s: Seq<OutputMessage>)
    ensures
        successes_of(s).len() + failures_of(s).len() == s.len(),
        successes_of(s).to_multiset().add(failures_of(s).to_multiset()) =~= s.to_multiset(),
    decreases s.len(),
{
    broadcast use vstd::seq_lib::group_to_multiset_ensures;

    if s.len() == 0 {
        lemma_filter_empty(|m: OutputMessage| !m.is_err);
        lemma_filter_empty(|m: OutputMessage| m.is_err);
        assert(successes_of(s).to_multiset().add(failures_of(s).to_multiset()) =~= s.to_multiset());
    } else {
        lemma_partition_pieces(s.drop_last());
        lemma_filter_step(s, |m: OutputMessage| !m.is_err);
        lemma_filter_step(s, |m: OutputMessage| m.is_err);
        assert(s =~= s.drop_last().push(s.last()));
        assert(successes_of(s).to_multiset().add(failures_of(s).to_multiset()) =~= s.to_multiset());
    }
}

/// One report line per collected outcome: partitioning never drops or
/// invents an entry.
pub proof fn lemma_partition_len(s: Seq<OutputMessage>)
    ensures
        partitioned(s).len() == s.len(),
{
    lemma_partition_pieces(s);
}

/// The report is a rearrangement of the collected outcomes: the same
/// multiset, nothing suppressed and nothing duplicated.
pub proof fn lemma_partition_multiset(s: Seq<OutputMessage>)
    ensures
        partitioned(s).to_multiset() =~= s.to_multiset(),
{
    lemma_partition_pieces(s);
    lemma_multiset_commutative(successes_of(s), failures_of(s));
}

/// In the report order, no failure line ever precedes a success line.
pub proof fn lemma_failures_last(s: Seq<OutputMessage>)
    ensures
        forall|i: int, j: int|
            0 <= i < j < partitioned(s).len() && partitioned(s)[i].is_err ==> partitioned(
                s,
            )[j].is_err,
{
    broadcast use vstd::seq_lib::group_filter_ensures;

    let p = partitioned(s);
    let ns = successes_of(s).len();
    assert forall|i: int, j: int| 0 <= i < j < p.len() && p[i].is_err implies p[j].is_err by {
        if i < ns {
            assert(p[i] == successes_of(s)[i]);
            assert(!successes_of(s)[i].is_err);
        } else {
            assert(p[j] == failures_of(s)[j - ns]);
            assert(failures_of(s)[j - ns].is_err);
        }
    }
}

/// Partitioning an already-partitioned report changes nothing: the
/// reporter is idempotent.
pub proof fn lemma_partition_idempotent(s: Seq<OutputMessage>)
    ensures
        partitioned(partitioned(s)) == partitioned(s),
{
    broadcast use vstd::seq_lib::group_filter_ensures;

    let succ = successes_of(s);
    let fail = failures_of(s);
    Seq::<OutputMessage>::filter_distributes_over_add(succ, fail, |m: OutputMessage| !m.is_err);
    Seq::<OutputMessage>::filter_distributes_over_add(succ, fail, |m: OutputMessage| m.is_err);
    lemma_filter_all_or_none(succ, |m: OutputMessage| !m.is_err);
    lemma_filter_all_or_none(succ, |m: OutputMessage| m.is_err);
    lemma_filter_all_or_none(fail, |m: OutputMessage| !m.is_err);
    lemma_filter_all_or_none(fail, |m: OutputMessage| m.is_err);
    assert(successes_of(succ + fail) =~= succ);
    assert(failures_of(succ + fail) =~= fail);
}

proof fn lemma_has_failure_multiset_one_way(s1: Seq<OutputMessage>, s2: Seq<OutputMessage>)
    requires
        s1.to_multiset() =~= s2.to_multiset(),
        has_failure(s1),
    ensures
        has_failure(s2),
{
    broadcast use vstd::seq_lib::group_to_multiset_ensures;

    let i = choose|i: int| 0 <= i < s1.len() && s1[i].is_err;
    let m = s1[i];
    assert(s1.contains(m));
    assert(s2.to_multiset().count(m) > 0);
    assert(s2.contains(m));
    let j = choose|j: int| 0 <= j < s2.len() && s2[j] == m;
    assert(s2[j].is_err);
}

/// Whether any failure exists, and with it the exit code, depends only
/// on the multiset of outcomes, not on their order.
pub proof fn lemma_has_failure_multiset(s1: Seq<OutputMessage>, s2: Seq<OutputMessage>)
    requires
        s1.to_multiset() =~= s2.to_multiset(),
    ensures
        has_failure(s1) == has_failure(s2),
{
    if has_failure(s1) {
        lemma_has_failure_multiset_one_way(s1, s2);
    }
    if has_failure(s2) {
        lemma_has_failure_multiset_one_way(s2, s1);
    }
}

/// Partitioning keeps the run-level failure signal unchanged.
pub proof fn lemma_has_failure_partition(s: Seq<OutputMessage>)
    ensures
        has_failure(partitioned(s)) == has_failure(s),
{
    lemma_partition_multiset(s);
    lemma_has_failure_multiset(partitioned(s), s);
}

/// Reorders the collected outcomes into report order: a stable two-way
/// partition, successes first, failures after them.
pub fn sort_messages(messages: Vec<OutputMessage>) -> (r: Vec<OutputMessage>)
    ensures
        r@ == partitioned(messages@),
{
    let ghost orig = messages@;
    let mut rest = messages;
    let mut succ: Vec<OutputMessage> = Vec::new();
    let ghost mut k: int = 0;
    let mut fail: Vec<OutputMessage> = Vec::new();
    proof {
        assert(orig.subrange(0, 0) =~= Seq::<OutputMessage>::empty());
        assert(rest@ =~= orig.subrange(0, orig.len() as int));
        lemma_filter_empty(|m: OutputMessage| !m.is_err);
        lemma_filter_empty(|m: OutputMessage| m.is_err);
    }
    while rest.len() > 0
        invariant
            0 <= k <= orig.len(),
            rest@ == orig.subrange(k, orig.len() as int),
            succ@ == successes_of(orig.subrange(0, k)),
            fail@ == failures_of(orig.subrange(0, k)),
        decreases rest.len(),
    {
        let m = rest.remove(0);
        proof {
            assert(m == orig[k]);
            assert(rest@ =~= orig.subrange(k + 1, orig.len() as int));
            assert(orig.subrange(0, k + 1).drop_last() =~= orig.subrange(0, k));
            assert(orig.subrange(0, k + 1).last() == orig[k]);
            lemma_filter_step(orig.subrange(0, k + 1), |m: OutputMessage| !m.is_err);
            lemma_filter_step(orig.subrange(0, k + 1), |m: OutputMessage| m.is_err);
        }
        if m.is_err {
            fail.push(m);
        } else {
            succ.push(m);
        }
        proof {
            k = k + 1;
        }
    }
    proof {
        assert(orig.subrange(0, k) =~= orig);
    }
    let mut out = succ;
    out.append(&mut fail);
    out
}

/// Derives the run's exit code: 1 as soon as any collected outcome is a
/// failure, else 0.
pub fn exit_code(messages: &Vec<OutputMessage>) -> (code: i32)
    ensures
        code == if has_failure(messages@) {
            1i32
        } else {
            0i32
        },
{
    let mut i: usize = 0;
    while i < messages.len()
        invariant
            i <= messages@.len(),
            forall|j: int| 0 <= j < i ==> !messages@[j].is_err,
        decreases messages@.len() - i,
    {
        if messages[i].is_err {
            return 1;
        }
        i = i + 1;
    }
    0
}

} // verus!
