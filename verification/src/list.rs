//! The cleanup list.

use crate::item::Item;
use crate::teardown::teardown_order;
use std::path::PathBuf;
use vstd::prelude::*;

verus! {

/// An ordered list of pending removals, bound to one unit of work.
///
/// The list is created empty and only ever grows, one registration at a
/// time, at its end. Its life ends with [`AutoCleanup::into_teardown`].
pub struct AutoCleanup {
    items: Vec<Item>,
}

impl View for AutoCleanup {
    type V = Seq<Item>;

    /// The registrations so far, oldest first.
    closed spec fn view(&self) -> Seq<Item> {
        self.items@
    }
}

impl AutoCleanup {
    /// Creates a list without registrations.
    pub fn new() -> (list: Self)
        ensures
            list@ == Seq::<Item>::empty(),
    {
        AutoCleanup { items: Vec::new() }
    }

    /// Registers `item` behind the registrations made so far.
    pub fn push(&mut self, item: Item)
        ensures
            final(self)@ == old(self)@.push(item),
    {
        self.items.push(item);
    }

    /// Registers the file at `fname` for removal.
    pub fn push_file(&mut self, fname: PathBuf)
        ensures
            final(self)@ == old(self)@.push(Item::File(fname)),
    {
        self.push(Item::File(fname));
    }

    /// Registers the directory at `dname` for removal. What the directory
    /// holds is not registered with it.
    pub fn push_dir(&mut self, dname: PathBuf)
        ensures
            final(self)@ == old(self)@.push(Item::Dir(dname)),
    {
        self.push(Item::Dir(dname));
    }

    /// Ends the life of the list and hands out its removals in the order in
    /// which they are to be attempted: the most recent registration first.
    ///
    /// The whole order is fixed here, before the first removal is attempted,
    /// so the outcome of one removal has no bearing on the ones that follow.
    pub fn into_teardown(self) -> (steps: Vec<Item>)
        ensures
            steps@ == teardown_order(self@),
    {
        let ghost registered = self@;
        let mut pending = self.items;
        let mut steps: Vec<Item> = Vec::new();
        while pending.len() > 0
            invariant
                pending@.len() + steps@.len() == registered.len(),
                pending@ == registered.take(pending@.len() as int),
                steps@ == teardown_order(registered).take(steps@.len() as int),
            decreases pending@.len(),
        {
            if let Some(item) = pending.pop() {
                steps.push(item);
            }
        }
        steps
    }
}

} // verus!
