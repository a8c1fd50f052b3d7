//! The order of a teardown, and what holds of it.

use crate::item::Item;
use vstd::prelude::*;

verus! {

/// The order in which a teardown attempts the removals of a list whose
/// registrations, oldest first, are `registered`: the exact reverse.
pub open spec fn teardown_order(registered: Seq<Item>) -> Seq<Item> {
    Seq::new(registered.len(), |i: int| registered[registered.len() - 1 - i])
}

/// A list without registrations is torn down without a single removal.
pub proof fn lemma_nothing_registered_nothing_removed()
    ensures
        teardown_order(Seq::<Item>::empty()) == Seq::<Item>::empty(),
{
}

/// Last registered, first removed: the teardown of a list that has grown by
/// `item` starts with `item` and goes on as the teardown of the list before.
pub proof fn lemma_last_registered_first_removed(registered: Seq<Item>, item: Item)
    ensures
        teardown_order(registered.push(item)) == seq![item] + teardown_order(registered),
{
}

/// Of two registrations the later one is removed first: the registration at
/// index `later` is attempted at an earlier step than the one at `earlier`.
pub proof fn lemma_later_registration_removed_earlier(
    registered: Seq<Item>,
    earlier: int,
    later: int,
)
    requires
        0 <= earlier < later < registered.len(),
    ensures
        0 <= registered.len() - 1 - later < registered.len() - 1 - earlier < registered.len(),
        teardown_order(registered)[registered.len() - 1 - later] == registered[later],
        teardown_order(registered)[registered.len() - 1 - earlier] == registered[earlier],
{
}

/// A teardown attempts every registered removal once, none left out and none
/// repeated: its steps are a rearrangement of the registrations.
pub proof fn lemma_teardown_attempts_each_registration_once(registered: Seq<Item>)
    ensures
        teardown_order(registered).len() == registered.len(),
        teardown_order(registered).to_multiset() == registered.to_multiset(),
{
    assert(teardown_order(registered) == registered.reverse());
    registered.lemma_reverse_to_multiset();
}

} // verus!
