//! The container as its owner sees it: a sequence of live elements and the kind of storage
//! behind them. The mutators' contracts are stated as single steps of this model, and the
//! laws about whole histories of a container are proved over it.

use vstd::prelude::*;

verus! {

/// What can be observed of a container: which storage backs it, and the live elements in order.
#[verifier::ext_equal]
pub struct Shape<T> {
    pub inline: bool,
    pub items: Seq<T>,
}

/// One mutation of a container, as a value.
pub enum Step<T> {
    Push(T),
    Pop,
    Insert(int, T),
    Remove(int),
    Clear,
}

impl<T> Shape<T> {
    /// An inline-backed container holds no more elements than its inline capacity.
    pub open spec fn fits(self, cap: nat) -> bool {
        self.inline ==> self.items.len() <= cap
    }

    /// Whether `step` respects the caller's side of the contract in this state: positions
    /// handed to `insert` and `remove` must be in range.
    pub open spec fn admits(self, step: Step<T>) -> bool {
        match step {
            Step::Insert(index, _) => 0 <= index <= self.items.len(),
            Step::Remove(index) => 0 <= index < self.items.len(),
            _ => true,
        }
    }

    /// Whether one more element still finds room in the inline buffer.
    pub open spec fn has_room(self, cap: nat) -> bool {
        self.inline && self.items.len() < cap
    }

    /// The state after one mutation of a container with `cap` inline slots.
    ///
    /// Growing keeps the inline storage only while a slot is free; shrinking never changes
    /// the storage.
    pub open spec fn after(self, cap: nat, step: Step<T>) -> Shape<T> {
        match step {
            Step::Push(item) => Shape { inline: self.has_room(cap), items: self.items.push(item) },
            Step::Pop => Shape {
                inline: self.inline,
                items: if self.items.len() > 0 {
                    self.items.drop_last()
                } else {
                    self.items
                },
            },
            Step::Insert(index, item) => Shape {
                inline: self.has_room(cap),
                items: self.items.insert(index, item),
            },
            Step::Remove(index) => Shape { inline: self.inline, items: self.items.remove(index) },
            Step::Clear => Shape { inline: self.inline, items: Seq::empty() },
        }
    }

    /// Whether every step of `steps`, taken in order from this state, is admitted.
    pub open spec fn admits_all(self, cap: nat, steps: Seq<Step<T>>) -> bool
        decreases steps.len(),
    {
        steps.len() > 0 ==> {
            &&& self.admits_all(cap, steps.drop_last())
            &&& self.after_all(cap, steps.drop_last()).admits(steps.last())
        }
    }

    /// The state after all of `steps`, taken in order.
    pub open spec fn after_all(self, cap: nat, steps: Seq<Step<T>>) -> Shape<T>
        decreases steps.len(),
    {
        if steps.len() == 0 {
            self
        } else {
            self.after_all(cap, steps.drop_last()).after(cap, steps.last())
        }
    }
}

} // verus!
