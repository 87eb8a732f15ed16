//! A bounded window that keeps the most recent items pushed into it.

use std::collections::VecDeque;
use vstd::prelude::*;

verus! {

broadcast use vstd::std_specs::vecdeque::group_vec_dequeue_axioms;

/// The last `capacity` items of `items` (all of them when there are fewer).
pub open spec fn keep_recent<T>(items: Seq<T>, capacity: nat) -> Seq<T> {
    if items.len() > capacity {
        items.subrange(items.len() - capacity, items.len() as int)
    } else {
        items
    }
}

/// A window after pushing `pushed` one by one, oldest first.
pub open spec fn push_all<T>(window: Seq<T>, pushed: Seq<T>, capacity: nat) -> Seq<T>
    decreases pushed.len(),
{
    if pushed.len() == 0 {
        window
    } else {
        keep_recent(push_all(window, pushed.drop_last(), capacity).push(pushed.last()), capacity)
    }
}

proof fn lemma_keep_recent_push<T>(items: Seq<T>, x: T, capacity: nat)
    ensures
        keep_recent(keep_recent(items, capacity).push(x), capacity) =~= keep_recent(
            items.push(x),
            capacity,
        ),
{
}

/// A window always holds exactly the most recent `capacity` items pushed
/// into it, oldest first (all of them while there are fewer).
pub proof fn lemma_window_keeps_latest<T>(window: Seq<T>, pushed: Seq<T>, capacity: nat)
    requires
        window.len() <= capacity,
    ensures
        push_all(window, pushed, capacity) =~= keep_recent(window + pushed, capacity),
        push_all(window, pushed, capacity).len() <= capacity,
    decreases pushed.len(),
{
    if pushed.len() > 0 {
        lemma_window_keeps_latest(window, pushed.drop_last(), capacity);
        lemma_keep_recent_push(window + pushed.drop_last(), pushed.last(), capacity);
        assert((window + pushed.drop_last()).push(pushed.last()) =~= window + pushed);
    }
}

/// `deque[index] = value` through `VecDeque`'s `IndexMut`: claimed to replace
/// the item at `index` and leave the others, as the standard library
/// documents for indexing. `index` is in bounds, so it does not panic.
#[verifier::external_body]
fn deque_set<T>(deque: &mut VecDeque<T>, index: usize, value: T)
    requires
        index < old(deque)@.len(),
    ensures
        final(deque)@ == old(deque)@.update(index as int, value),
{
    deque[index] = value;
}

/// Keeps the most recent `capacity` items, oldest first.
pub struct RecentWindow<T> {
    items: VecDeque<T>,
    capacity: usize,
}

impl<T> View for RecentWindow<T> {
    type V = Seq<T>;

    closed spec fn view(&self) -> Seq<T> {
        self.items@
    }
}

impl<T> RecentWindow<T> {
    #[verifier::type_invariant]
    closed spec fn inv(self) -> bool {
        self.items@.len() <= self.capacity
    }

    /// The most items the window keeps.
    pub closed spec fn limit(&self) -> nat {
        self.capacity as nat
    }

    /// An empty window keeping up to `capacity` items.
    pub fn new(capacity: usize) -> (window: Self)
        ensures
            window@ == Seq::<T>::empty(),
            window.limit() == capacity,
    {
        RecentWindow { items: VecDeque::new(), capacity }
    }

    /// Appends `item` and drops the oldest items beyond the capacity.
    pub fn push(&mut self, item: T)
        ensures
            final(self)@ == keep_recent(old(self)@.push(item), old(self).limit()),
            final(self).limit() == old(self).limit(),
    {
        proof {
            use_type_invariant(&*self);
        }
        let mut items = VecDeque::new();
        std::mem::swap(&mut items, &mut self.items);
        items.push_back(item);
        let ghost pushed = old(self)@.push(item);
        while items.len() > self.capacity
            invariant
                items@.len() <= pushed.len(),
                items@ == pushed.subrange(pushed.len() - items@.len(), pushed.len() as int),
                items@.len() < pushed.len() ==> items@.len() >= self.capacity,
            decreases items@.len(),
        {
            items.pop_front();
        }
        proof {
            if items@.len() == pushed.len() {
                assert(items@ =~= pushed);
            }
        }
        self.items = items;
    }

    /// Replaces the item at `index` (0 is the oldest).
    pub fn set(&mut self, index: usize, item: T)
        requires
            index < old(self)@.len(),
        ensures
            final(self)@ == old(self)@.update(index as int, item),
            final(self).limit() == old(self).limit(),
    {
        proof {
            use_type_invariant(&*self);
        }
        let mut items = VecDeque::new();
        std::mem::swap(&mut items, &mut self.items);
        deque_set(&mut items, index, item);
        self.items = items;
    }

    /// Number of items held.
    pub fn len(&self) -> (n: usize)
        ensures
            n == self@.len(),
    {
        self.items.len()
    }

    /// Whether the window holds no item.
    pub fn is_empty(&self) -> (empty: bool)
        ensures
            empty == (self@.len() == 0),
    {
        self.items.len() == 0
    }

    /// The most items the window keeps.
    pub fn capacity(&self) -> (capacity: usize)
        ensures
            capacity == self.limit(),
    {
        self.capacity
    }

    /// The item at `index` (0 is the oldest).
    pub fn get(&self, index: usize) -> (item: &T)
        requires
            index < self@.len(),
        ensures
            *item == self@[index as int],
    {
        &self.items[index]
    }

    /// The newest item, if any.
    pub fn back(&self) -> (item: Option<&T>)
        ensures
            item == (if self@.len() == 0 {
                None
            } else {
                Some(&self@[self@.len() - 1])
            }),
    {
        let n = self.items.len();
        if n == 0 {
            None
        } else {
            Some(&self.items[n - 1])
        }
    }

    /// The items, oldest first.
    pub fn items(&self) -> (items: &VecDeque<T>)
        ensures
            items@ == self@,
    {
        &self.items
    }
}

} // verus!
