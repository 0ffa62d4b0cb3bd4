//! Collections of bounded size.

use vstd::prelude::*;

verus! {

/// A vector that holds at most `MAX_SIZE` items.
#[derive(Debug)]
pub struct FixedSizeVec<T, const MAX_SIZE: usize> {
    data: Vec<T>,
}

impl<T, const MAX_SIZE: usize> View for FixedSizeVec<T, MAX_SIZE> {
    type V = Seq<T>;

    /// The items, in order.
    closed spec fn view(&self) -> Seq<T> {
        self.data@
    }
}

impl<T, const MAX_SIZE: usize> FixedSizeVec<T, MAX_SIZE> {
    /// The vector holds no more than `MAX_SIZE` items. Every vector that
    /// this module makes does, and every method keeps it so.
    pub open spec fn wf(&self) -> bool {
        self@.len() <= MAX_SIZE
    }

    pub fn new() -> (vector: Self)
        ensures
            vector@ == Seq::<T>::empty(),
            vector.wf(),
    {
        Self { data: Vec::new() }
    }

    pub fn len(&self) -> (len: usize)
        ensures
            len == self@.len(),
    {
        self.data.len()
    }

    pub fn is_empty(&self) -> (empty: bool)
        ensures
            empty == (self@.len() == 0),
    {
        self.len() == 0
    }

    pub fn as_slice(&self) -> (slice: &[T])
        ensures
            slice@ == self@,
    {
        self.data.as_slice()
    }

    pub fn get(&self, index: usize) -> (item: Option<&T>)
        ensures
            match item {
                Some(item) => index < self@.len() && *item == self@[index as int],
                None => index >= self@.len(),
            },
    {
        if index < self.len() {
            Some(&self.data[index])
        } else {
            None
        }
    }

    /// Replaces the item at `index` by `value` and returns the item that
    /// was there, or returns `value` where the vector has no such item.
    pub fn replace(&mut self, index: usize, value: T) -> (previous: Result<T, T>)
        requires
            old(self).wf(),
        ensures
            final(self).wf(),
            match previous {
                Ok(item) => index < old(self)@.len() && item == old(self)@[index as int]
                    && final(self)@ == old(self)@.update(index as int, value),
                Err(item) => index >= old(self)@.len() && item == value && final(self)@ == old(
                    self,
                )@,
            },
    {
        if index < self.data.len() {
            let mut value = value;
            core::mem::swap(&mut self.data[index], &mut value);
            Ok(value)
        } else {
            Err(value)
        }
    }

    /// Appends `value`, or fails where the vector is full.
    pub fn push(&mut self, value: T) -> (pushed: Result<(), ()>)
        requires
            old(self).wf(),
        ensures
            final(self).wf(),
            match pushed {
                Ok(_) => old(self)@.len() < MAX_SIZE && final(self)@ == old(self)@.push(value),
                Err(_) => old(self)@.len() == MAX_SIZE && final(self)@ == old(self)@,
            },
    {
        if self.data.len() == MAX_SIZE {
            Err(())
        } else {
            self.data.push(value);
            Ok(())
        }
    }

    /// Takes the last item off.
    pub fn pop(&mut self) -> (item: Option<T>)
        requires
            old(self).wf(),
        ensures
            final(self).wf(),
            match item {
                Some(item) => old(self)@.len() > 0 && item == old(self)@.last() && final(self)@
                    == old(self)@.drop_last(),
                None => old(self)@.len() == 0 && final(self)@ == old(self)@,
            },
    {
        self.data.pop()
    }

    /// Puts `value` at `index` and moves the items from there on up by one,
    /// or fails where the vector is full.
    pub fn insert(&mut self, index: usize, value: T) -> (inserted: Result<(), ()>)
        requires
            old(self).wf(),
            index <= old(self)@.len(),
        ensures
            final(self).wf(),
            match inserted {
                Ok(_) => old(self)@.len() < MAX_SIZE && final(self)@ == old(self)@.insert(
                    index as int,
                    value,
                ),
                Err(_) => old(self)@.len() == MAX_SIZE && final(self)@ == old(self)@,
            },
    {
        if self.data.len() == MAX_SIZE {
            Err(())
        } else {
            self.data.insert(index, value);
            Ok(())
        }
    }

    /// Keeps the first `new_len` items and drops the rest. A vector that is
    /// not longer than `new_len` stays as it is.
    pub fn truncate(&mut self, new_len: usize)
        requires
            old(self).wf(),
        ensures
            final(self).wf(),
            final(self)@ == if new_len < old(self)@.len() {
                old(self)@.take(new_len as int)
            } else {
                old(self)@
            },
    {
        if self.data.len() > new_len {
            self.data.truncate(new_len);
        }
    }
}

impl<T: Copy, const MAX_SIZE: usize> FixedSizeVec<T, MAX_SIZE> {
    /// Makes the vector `new_len` items long: a longer vector is cut, a
    /// shorter one is filled up with `fill_value`. Fails, and changes
    /// nothing, where `new_len` is more than the vector can hold.
    pub fn resize(&mut self, new_len: usize, fill_value: T) -> (resized: Result<(), ()>)
        requires
            old(self).wf(),
        ensures
            final(self).wf(),
            match resized {
                Ok(_) => {
                    &&& new_len <= MAX_SIZE
                    &&& final(self)@.len() == new_len
                    &&& forall|index: int|
                        0 <= index < new_len ==> #[trigger] final(self)@[index] == if index < old(
                            self,
                        )@.len() {
                            old(self)@[index]
                        } else {
                            fill_value
                        }
                },
                Err(_) => new_len > MAX_SIZE && final(self)@ == old(self)@,
            },
    {
        if new_len > MAX_SIZE {
            return Err(());
        }
        if new_len > self.data.len() {
            let ghost before = self.data@;
            while self.data.len() < new_len
                invariant
                    new_len <= MAX_SIZE,
                    before.len() <= self.data@.len() <= new_len,
                    before == old(self)@,
                    forall|index: int|
                        0 <= index < self.data@.len() ==> #[trigger] self.data@[index] == if index
                            < before.len() {
                            before[index]
                        } else {
                            fill_value
                        },
                decreases new_len - self.data@.len(),
            {
                self.data.push(fill_value);
            }
        } else {
            self.data.truncate(new_len);
        }
        Ok(())
    }

    /// A vector with the items of `slice`, or `None` where they are more
    /// than the vector can hold.
    pub fn from_slice(slice: &[T]) -> (vector: Option<Self>)
        ensures
            match vector {
                Some(vector) => slice@.len() <= MAX_SIZE && vector@ == slice@ && vector.wf(),
                None => slice@.len() > MAX_SIZE,
            },
    {
        if slice.len() > MAX_SIZE {
            return None;
        }
        let mut data: Vec<T> = Vec::new();
        let mut index: usize = 0;
        while index < slice.len()
            invariant
                index <= slice@.len() <= MAX_SIZE,
                data@ == slice@.take(index as int),
            decreases slice@.len() - index,
        {
            data.push(slice[index]);
            assert(slice@.take(index + 1) =~= slice@.take(index as int).push(slice@[index as int]));
            index = index + 1;
        }
        assert(slice@.take(index as int) =~= slice@);
        Some(Self { data })
    }
}

} // verus!
