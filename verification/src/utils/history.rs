//! A bounded history that drops its oldest records in chunks: once it grows
//! past its limit, the oldest `chunk` records go at once.

use vstd::prelude::*;

verus! {

/// The records kept after appending: when they exceed `max_len`, the
/// oldest `chunk` of them are dropped.
pub open spec fn trimmed<T>(items: Seq<T>, max_len: nat, chunk: nat) -> Seq<T> {
    if items.len() > max_len {
        items.skip(chunk as int)
    } else {
        items
    }
}

/// The last `n` records, oldest first (all of them when there are fewer).
pub open spec fn last_n<T>(items: Seq<T>, n: nat) -> Seq<T> {
    if items.len() > n {
        items.skip(items.len() - n)
    } else {
        items
    }
}

/// Records in the order they were added, at most `max_len` of them.
pub struct TrimmedHistory<T> {
    items: Vec<T>,
    max_len: usize,
    chunk: usize,
}

impl<T> View for TrimmedHistory<T> {
    type V = Seq<T>;

    closed spec fn view(&self) -> Seq<T> {
        self.items@
    }
}

impl<T> TrimmedHistory<T> {
    #[verifier::type_invariant]
    closed spec fn inv(self) -> bool {
        &&& self.items@.len() <= self.max_len
        &&& 1 <= self.chunk <= self.max_len
    }

    /// The most records kept.
    pub closed spec fn limit(&self) -> nat {
        self.max_len as nat
    }

    /// How many of the oldest records go when the limit is passed.
    pub closed spec fn chunk_len(&self) -> nat {
        self.chunk as nat
    }

    /// An empty history keeping up to `max_len` records and dropping the
    /// oldest `chunk` when it grows past that.
    pub fn new(max_len: usize, chunk: usize) -> (history: Self)
        requires
            1 <= chunk <= max_len,
        ensures
            history@ == Seq::<T>::empty(),
            history.limit() == max_len,
            history.chunk_len() == chunk,
    {
        TrimmedHistory { items: Vec::new(), max_len, chunk }
    }

    /// Appends `item`; past the limit the oldest chunk of records is dropped.
    /// The history never holds more than its limit and ends with `item`.
    pub fn push(&mut self, item: T)
        ensures
            final(self)@ == trimmed(old(self)@.push(item), old(self).limit(), old(self).chunk_len()),
            final(self).limit() == old(self).limit(),
            final(self).chunk_len() == old(self).chunk_len(),
            final(self)@.len() <= final(self).limit(),
            final(self)@.last() == item,
    {
        proof {
            use_type_invariant(&*self);
        }
        let mut items = Vec::new();
        std::mem::swap(&mut items, &mut self.items);
        items.push(item);
        if items.len() > self.max_len {
            let rest = items.split_off(self.chunk);
            items = rest;
            proof {
                assert(items@ =~= old(self)@.push(item).skip(self.chunk as int));
            }
        }
        self.items = items;
    }

    /// Number of records held.
    pub fn len(&self) -> (n: usize)
        ensures
            n == self@.len(),
    {
        self.items.len()
    }

    /// Whether no record is held.
    pub fn is_empty(&self) -> (empty: bool)
        ensures
            empty == (self@.len() == 0),
    {
        self.items.len() == 0
    }

    /// The records, oldest first.
    pub fn items(&self) -> (items: &Vec<T>)
        ensures
            items@ == self@,
    {
        &self.items
    }
}

impl<T: Copy> TrimmedHistory<T> {
    /// Copies of the last `n` records, oldest first.
    pub fn recent(&self, n: usize) -> (records: Vec<T>)
        ensures
            records@ == last_n(self@, n as nat),
    {
        let len = self.items.len();
        let start = if len > n {
            len - n
        } else {
            0
        };
        let mut records: Vec<T> = Vec::new();
        let mut i = start;
        while i < len
            invariant
                len == self@.len(),
                start <= i <= len,
                records@ =~= self@.subrange(start as int, i as int),
            decreases len - i,
        {
            records.push(self.items[i]);
            i = i + 1;
        }
        proof {
            assert(records@ =~= last_n(self@, n as nat));
        }
        records
    }
}

} // verus!
