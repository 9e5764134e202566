//! Why the running standing of an auction is a second-price rule: after any
//! number of reveals it holds the two largest amounts revealed, whatever the
//! order in which they came.

use vstd::prelude::*;
use vstd::multiset::{Multiset, lemma_multiset_empty_len};
use vstd::seq_lib::to_multiset_build;
use crate::address::Address;
use crate::state::auction::Standing;

verus! {

/// One revealed bid.
pub struct Reveal {
    /// Who bid.
    pub bidder: Address,
    /// The amount bid.
    pub amount: u64,
}

/// The standing that a sequence of reveals leaves, first reveal first.
pub open spec fn standing_after(reveals: Seq<Reveal>) -> Standing
    decreases reveals.len(),
{
    if reveals.len() == 0 {
        Standing::empty()
    } else {
        standing_after(reveals.drop_last()).after_reveal(
            reveals.last().bidder,
            reveals.last().amount,
        )
    }
}

/// The amounts of a sequence of reveals, in the same order.
pub open spec fn amounts_of(reveals: Seq<Reveal>) -> Seq<u64> {
    Seq::new(reveals.len(), |i: int| reveals[i].amount)
}

/// `top` occurs in `amounts` and nothing in `amounts` is larger.
pub open spec fn is_largest(amounts: Multiset<u64>, top: u64) -> bool {
    &&& amounts.count(top) > 0
    &&& forall|v: u64| amounts.count(v) > 0 ==> v <= top
}

/// `first` is the largest of `amounts`, and `second` the largest of what is
/// left when one occurrence of `first` is taken out. On a tie at the top the
/// two are equal.
pub open spec fn are_top_two(amounts: Multiset<u64>, first: u64, second: u64) -> bool {
    &&& is_largest(amounts, first)
    &&& is_largest(amounts.remove(first), second)
}

/// A multiset has at most one largest element.
pub proof fn lemma_largest_unique(amounts: Multiset<u64>, a: u64, b: u64)
    requires
        is_largest(amounts, a),
        is_largest(amounts, b),
    ensures
        a == b,
{
}

proof fn lemma_amounts_of_push(reveals: Seq<Reveal>)
    requires
        reveals.len() > 0,
    ensures
        amounts_of(reveals) == amounts_of(reveals.drop_last()).push(reveals.last().amount),
        amounts_of(reveals).to_multiset() == amounts_of(reveals.drop_last()).to_multiset().insert(
            reveals.last().amount,
        ),
{
    let shorter = amounts_of(reveals.drop_last());
    assert(amounts_of(reveals) =~= shorter.push(reveals.last().amount));
    to_multiset_build(shorter, reveals.last().amount);
}

/// Second-price correctness. After one reveal the standing names that
/// bidder and amount, with no second price, so the winner pays the own bid.
/// After two or more reveals the winning amount and the second price are the
/// two largest amounts revealed. The winner always bid the winning amount.
pub proof fn lemma_standing_holds_top_two(reveals: Seq<Reveal>)
    ensures
        reveals.len() == 0 ==> standing_after(reveals) == Standing::empty(),
        reveals.len() == 1 ==> standing_after(reveals) == (Standing {
            winner: Some(reveals[0].bidder),
            winning_amount: Some(reveals[0].amount),
            second_price: None,
        }),
        reveals.len() >= 1 ==> standing_after(reveals).winning_amount is Some && is_largest(
            amounts_of(reveals).to_multiset(),
            standing_after(reveals).winning_amount->0,
        ),
        reveals.len() >= 2 ==> standing_after(reveals).second_price is Some && are_top_two(
            amounts_of(reveals).to_multiset(),
            standing_after(reveals).winning_amount->0,
            standing_after(reveals).second_price->0,
        ),
        reveals.len() >= 1 ==> standing_after(reveals).payment() is Some,
    decreases reveals.len(),
{
    broadcast use vstd::multiset::group_multiset_axioms;

    if reveals.len() == 0 {
    } else {
        let before = reveals.drop_last();
        let amount = reveals.last().amount;
        let held = amounts_of(before).to_multiset();
        let all = amounts_of(reveals).to_multiset();
        lemma_standing_holds_top_two(before);
        lemma_amounts_of_push(reveals);
        assert(all == held.insert(amount));
        let old_standing = standing_after(before);
        let new_standing = standing_after(reveals);
        if before.len() == 0 {
            amounts_of(before).to_multiset_ensures();
            lemma_multiset_empty_len(held);
            assert(is_largest(all, amount));
        } else {
            let high = old_standing.winning_amount->0;
            if amount > high {
                assert(is_largest(all, amount));
                assert(all.remove(amount) =~= held);
            } else {
                assert(is_largest(all, high));
                assert(all.remove(high) =~= held.remove(high).insert(amount));
                if before.len() == 1 {
                    assert(held.remove(high) =~= Multiset::<u64>::empty()) by {
                        amounts_of(before).to_multiset_ensures();
                        assert(Multiset::singleton(high).subset_of(held));
                        lemma_multiset_empty_len(held.remove(high));
                    }
                    assert(is_largest(all.remove(high), amount));
                } else {
                    let second = old_standing.second_price->0;
                    if amount > second {
                        assert(is_largest(all.remove(high), amount));
                    } else {
                        assert(is_largest(all.remove(high), second));
                    }
                }
            }
        }
    }
}

/// Whether the reveal at `index` holds the largest amount and is the first
/// to hold it.
pub open spec fn is_first_at_top(reveals: Seq<Reveal>, index: int) -> bool {
    &&& 0 <= index < reveals.len()
    &&& forall|k: int|
        0 <= k < reveals.len() ==> (#[trigger] reveals[k]).amount <= reveals[index].amount
    &&& forall|k: int| 0 <= k < index ==> (#[trigger] reveals[k]).amount < reveals[index].amount
}

/// The winner is the first bidder, in reveal order, who revealed the
/// winning amount: on a tie the earlier bid leads. Returns the position of
/// the winning reveal.
pub proof fn lemma_winner_is_first_at_top(reveals: Seq<Reveal>) -> (index: int)
    requires
        reveals.len() >= 1,
    ensures
        is_first_at_top(reveals, index),
        standing_after(reveals).winner == Some(reveals[index].bidder),
        standing_after(reveals).winning_amount == Some(reveals[index].amount),
    decreases reveals.len(),
{
    let before = reveals.drop_last();
    let last = reveals.len() - 1;
    if before.len() == 0 {
        assert(standing_after(before) == Standing::empty());
        0
    } else {
        let leader = lemma_winner_is_first_at_top(before);
        assert(forall|k: int| 0 <= k < before.len() ==> before[k] == reveals[k]);
        if reveals[last].amount > before[leader].amount {
            assert forall|k: int| 0 <= k < reveals.len() implies (#[trigger] reveals[k]).amount
                <= reveals[last].amount by {
                if k < last {
                    assert(before[k].amount <= before[leader].amount);
                }
            }
            assert forall|k: int| 0 <= k < last implies (#[trigger] reveals[k]).amount
                < reveals[last].amount by {
                assert(before[k].amount <= before[leader].amount);
            }
            last
        } else {
            assert forall|k: int| 0 <= k < reveals.len() implies (#[trigger] reveals[k]).amount
                <= reveals[leader].amount by {
                if k < last {
                    assert(before[k].amount <= before[leader].amount);
                }
            }
            assert forall|k: int| 0 <= k < leader implies (#[trigger] reveals[k]).amount
                < reveals[leader].amount by {
                assert(before[k].amount < before[leader].amount);
            }
            leader
        }
    }
}

/// Order does not matter for the price. Two sequences of reveals that hold
/// the same amounts, each as often as the other, end with the same winning
/// amount, the same second price and the same payment.
pub proof fn lemma_reveal_order_irrelevant(first: Seq<Reveal>, second: Seq<Reveal>)
    requires
        amounts_of(first).to_multiset() == amounts_of(second).to_multiset(),
    ensures
        standing_after(first).winning_amount == standing_after(second).winning_amount,
        standing_after(first).second_price == standing_after(second).second_price,
        standing_after(first).payment() == standing_after(second).payment(),
{
    broadcast use vstd::multiset::group_multiset_axioms;

    let amounts = amounts_of(first).to_multiset();
    amounts_of(first).to_multiset_ensures();
    amounts_of(second).to_multiset_ensures();
    assert(first.len() == second.len());
    lemma_standing_holds_top_two(first);
    lemma_standing_holds_top_two(second);
    if first.len() >= 1 {
        let a = standing_after(first).winning_amount->0;
        let b = standing_after(second).winning_amount->0;
        lemma_largest_unique(amounts, a, b);
        if first.len() >= 2 {
            lemma_largest_unique(
                amounts.remove(a),
                standing_after(first).second_price->0,
                standing_after(second).second_price->0,
            );
        }
    }
}

} // verus!
