//! Calling the workers many times over, and adding up what they answer.

use vstd::arithmetic::div_mod::lemma_add_mod_noop;
use vstd::prelude::*;

use crate::deal::{is_dealt, par_sum};

verus! {

/// The sum of the answers.
pub open spec fn total(answers: Seq<u32>) -> nat
    decreases answers.len(),
{
    if answers.len() == 0 {
        0
    } else {
        total(answers.drop_last()) + answers.last() as nat
    }
}

/// Whether `answers` are what `ask` can have answered to the numbers below `count`, in their
/// order: one answer for each.
pub open spec fn answered<F: Fn(u32) -> u32>(ask: F, count: u32, answers: Seq<u32>) -> bool {
    &&& answers.len() == count
    &&& forall|x: u32| x < count ==> call_ensures(ask, (x,), #[trigger] answers[x as int])
}

/// Whether `sum` is the sum of what `ask` can have answered to the numbers below `count`.
pub open spec fn is_answered_sum<F: Fn(u32) -> u32>(ask: F, count: u32, sum: nat) -> bool {
    exists|answers: Seq<u32>| #[trigger] answered(ask, count, answers) && sum == total(answers)
}

/// A sum in 32 bits.
#[derive(Clone, Copy, Debug, PartialEq, Eq, Structural)]
pub enum Sum {
    /// The sum.
    Exact(u32),
    /// What is left in 32 bits of a sum that needs more.
    Overflowed(u32),
}

/// The number of values of 32 bits.
pub open spec fn word_range() -> nat {
    0x1_0000_0000
}

/// The sum in 32 bits.
pub open spec fn narrowed(sum: nat) -> Sum {
    if sum < word_range() {
        Sum::Exact(sum as u32)
    } else {
        Sum::Overflowed((sum % word_range()) as u32)
    }
}

/// Brings a sum of 64 bits to 32.
pub fn narrow(sum: u64) -> (result: Sum)
    ensures
        result == narrowed(sum as nat),
        sum < 0x1_0000_0000 ==> (result matches Sum::Exact(v) && v as nat == sum as nat),
        sum >= 0x1_0000_0000 ==> (result matches Sum::Overflowed(v) && v as nat == sum as nat
            % 0x1_0000_0000),
{
    if sum <= u32::MAX as u64 {
        Sum::Exact(sum as u32)
    } else {
        Sum::Overflowed((sum % 0x1_0000_0000) as u32)
    }
}

/// Calls `ask` with each number below `count`, in parallel, and adds up what it answers. The
/// numbers are dealt out once: `ask` is asked for no more than that it may be run on what is
/// dealt to it, so that it cannot be run in any other way.
pub fn do_stuff<F: Fn(u32) -> u32 + Sync + Send>(count: u32, ask: F) -> (result: Sum)
    requires
        forall|x: u32| x < count && #[trigger] is_dealt(ask, x, count) ==> call_requires(ask, (x,)),
    ensures
        exists|sum: nat| #[trigger]
            is_answered_sum(ask, count, sum) && result == narrowed(sum) && (match result {
                Sum::Exact(v) => v as nat == sum,
                Sum::Overflowed(v) => sum >= 0x1_0000_0000 && v as nat == sum % 0x1_0000_0000,
            }),
{
    let sum: u64 = par_sum(count, ask);
    assert(is_answered_sum(ask, count, sum as nat));
    narrow(sum)
}

/// A sum below two to the power of 32 is kept as it is, and every larger one is marked as such
/// and keeps its remainder: two sums look alike only if both are large and leave the same.
pub proof fn law_narrowed_keeps_the_sum(sum: nat, other: nat)
    ensures
        sum < 0x1_0000_0000 ==> (narrowed(sum) matches Sum::Exact(v) && v as nat == sum),
        sum >= 0x1_0000_0000 ==> (narrowed(sum) matches Sum::Overflowed(v) && v as nat == sum
            % 0x1_0000_0000),
        narrowed(sum) == narrowed(other) <==> sum == other || (sum >= 0x1_0000_0000 && other
            >= 0x1_0000_0000 && sum % 0x1_0000_0000 == other % 0x1_0000_0000),
{
}

/// No answers add up to nothing, and one answer more adds just what it is.
pub proof fn law_total_grows_by_each_answer(answers: Seq<u32>, answer: u32)
    ensures
        total(Seq::empty()) == 0,
        total(answers.push(answer)) == total(answers) + answer,
{
    assert(answers.push(answer).drop_last() =~= answers);
}

/// Where one answer is another one, the sum differs by just as much.
pub proof fn law_total_follows_each_answer(answers: Seq<u32>, i: int, answer: u32)
    requires
        0 <= i < answers.len(),
    ensures
        total(answers.update(i, answer)) == total(answers) - answers[i] + answer,
    decreases answers.len(),
{
    let changed = answers.update(i, answer);
    if i == answers.len() - 1 {
        assert(changed.drop_last() =~= answers.drop_last());
    } else {
        assert(changed.drop_last() =~= answers.drop_last().update(i, answer));
        law_total_follows_each_answer(answers.drop_last(), i, answer);
    }
}

/// What counts as the sum of a batch is what some answers, one for each number below the count
/// and each one that `ask` can give to its number, add up to; and all such answers count.
pub proof fn law_answered_sums<F: Fn(u32) -> u32>(ask: F, count: u32, sum: nat, answers: Seq<u32>)
    ensures
        answers.len() == count && sum == total(answers) && (forall|x: u32|
            x < count ==> call_ensures(ask, (x,), #[trigger] answers[x as int]))
            ==> is_answered_sum(ask, count, sum),
        is_answered_sum(ask, count, sum) ==> exists|given: Seq<u32>|
            #![trigger total(given)]
            given.len() == count && sum == total(given) && (forall|x: u32|
                x < count ==> call_ensures(ask, (x,), #[trigger] given[x as int])),
{
    if answers.len() == count && (forall|x: u32|
        x < count ==> call_ensures(ask, (x,), #[trigger] answers[x as int])) {
        assert(answered(ask, count, answers));
    }
}

/// The sum of answers taken in two parts is the sum of both parts, so that they can be added
/// up in any grouping.
pub proof fn law_total_of_parts(first: Seq<u32>, second: Seq<u32>)
    ensures
        total(first + second) == total(first) + total(second),
    decreases second.len(),
{
    if second.len() == 0 {
        assert(first + second =~= first);
    } else {
        assert((first + second).drop_last() =~= first + second.drop_last());
        law_total_of_parts(first, second.drop_last());
    }
}

/// What is left of a sum in 32 bits is the same whether the parts are cut down before they are
/// added up or after.
pub proof fn law_overflow_wraps(first: Seq<u32>, second: Seq<u32>)
    ensures
        (total(first) % word_range() + total(second) % word_range()) % word_range() == total(
            first + second,
        ) % word_range(),
{
    law_total_of_parts(first, second);
    lemma_add_mod_noop(total(first) as int, total(second) as int, word_range() as int);
}

/// Answers that come in another order have the same sum.
pub proof fn law_total_ignores_order(one: Seq<u32>, other: Seq<u32>)
    requires
        one.to_multiset() == other.to_multiset(),
    ensures
        total(one) == total(other),
    decreases one.len(),
{
    broadcast use vstd::seq_lib::group_to_multiset_ensures;

    if one.len() == 0 {
        assert(other.len() == other.to_multiset().len());
        assert(other.len() == 0);
    } else {
        let x = one.last();
        assert(one.to_multiset().count(x) > 0) by {
            assert(one.contains(x));
        }
        assert(other.contains(x));
        let i = choose|i: int| 0 <= i < other.len() && other[i] == x;
        let before = other.take(i);
        let after = other.skip(i + 1);
        let rest = before + after;
        assert(rest =~= other.remove(i));
        assert(one.drop_last() =~= one.remove(one.len() - 1));
        law_total_ignores_order(one.drop_last(), rest);
        assert(other =~= before + seq![x] + after);
        law_total_of_parts(before + seq![x], after);
        law_total_of_parts(before, seq![x]);
        law_total_of_parts(before, after);
        reveal_with_fuel(total, 2);
        assert(seq![x].drop_last() =~= Seq::<u32>::empty());
    }
}

/// The sum of as many answers as a count can ask for is a number of 64 bits.
pub proof fn law_total_fits(answers: Seq<u32>)
    requires
        answers.len() <= u32::MAX,
    ensures
        total(answers) <= u64::MAX,
{
    lemma_total_bound(answers);
    assert(answers.len() * u32::MAX <= u32::MAX * u32::MAX) by (nonlinear_arith)
        requires
            answers.len() <= u32::MAX,
    ;
}

proof fn lemma_total_bound(answers: Seq<u32>)
    ensures
        total(answers) <= answers.len() * u32::MAX,
    decreases answers.len(),
{
    if answers.len() > 0 {
        lemma_total_bound(answers.drop_last());
        let n: int = answers.len() as int;
        assert((n - 1) * u32::MAX + u32::MAX == n * u32::MAX) by (nonlinear_arith);
    }
}

/// Where the workers compute a function, the sum is that of the function over the numbers
/// below the count, however the calls were spread over threads and workers.
pub proof fn law_sum_of_a_function<F: Fn(u32) -> u32>(
    ask: F,
    count: u32,
    sum: nat,
    function: spec_fn(u32) -> u32,
)
    requires
        forall|x: u32, y: u32| x < count && call_ensures(ask, (x,), y) ==> y == function(x),
        is_answered_sum(ask, count, sum),
    ensures
        sum == total(Seq::new(count as nat, |x: int| function(x as u32))),
{
    let answers = choose|answers: Seq<u32>| #[trigger]
        answered(ask, count, answers) && sum == total(answers);
    let expected = Seq::new(count as nat, |x: int| function(x as u32));
    assert forall|i: int| 0 <= i < count implies answers[i] == expected[i] by {
        let x = i as u32;
        assert(call_ensures(ask, (x,), answers[x as int]));
    }
    assert(answers =~= expected);
}

} // verus!
