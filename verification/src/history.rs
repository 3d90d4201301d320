//! A bounded history of samples: the newest `capacity` values, oldest first.

use vstd::prelude::*;

verus! {

/// What a history of the given capacity holds after `value` is pushed onto `samples`.
pub open spec fn pushed<T>(samples: Seq<T>, capacity: nat, value: T) -> Seq<T> {
    if samples.len() < capacity {
        samples.push(value)
    } else {
        samples.drop_first().push(value)
    }
}

/// The last `capacity` elements of `values`, or all of them where there are fewer.
pub open spec fn newest<T>(values: Seq<T>, capacity: nat) -> Seq<T> {
    if values.len() <= capacity {
        values
    } else {
        values.subrange(values.len() - capacity, values.len() as int)
    }
}

/// What an empty history of the given capacity holds after every element of
/// `values` has been pushed in order.
pub open spec fn replayed<T>(capacity: nat, values: Seq<T>) -> Seq<T>
    decreases values.len(),
{
    if values.len() == 0 {
        Seq::empty()
    } else {
        pushed(replayed(capacity, values.drop_last()), capacity, values.last())
    }
}

/// The largest element of `samples`, and zero where there is none.
pub open spec fn max_of(samples: Seq<u64>) -> u64
    decreases samples.len(),
{
    if samples.len() == 0 {
        0
    } else {
        let rest = max_of(samples.drop_last());
        if samples.last() > rest {
            samples.last()
        } else {
            rest
        }
    }
}

/// Pushing onto the newest `capacity` values of a stream gives the newest
/// `capacity` values of the stream extended by the pushed value.
pub proof fn lemma_pushed_newest<T>(values: Seq<T>, capacity: nat, value: T)
    requires
        capacity >= 1,
    ensures
        pushed(newest(values, capacity), capacity, value) == newest(values.push(value), capacity),
{
    assert(pushed(newest(values, capacity), capacity, value) =~= newest(
        values.push(value),
        capacity,
    ));
}

/// After any number of pushes a history holds exactly the newest `capacity`
/// pushed values in push order, so its length is the smaller of the two counts.
pub proof fn lemma_replayed_is_newest<T>(capacity: nat, values: Seq<T>)
    requires
        capacity >= 1,
    ensures
        replayed(capacity, values) == newest(values, capacity),
        replayed(capacity, values).len() == if values.len() <= capacity {
            values.len()
        } else {
            capacity
        },
    decreases values.len(),
{
    if values.len() == 0 {
        assert(replayed(capacity, values) =~= newest(values, capacity));
    } else {
        let front = values.drop_last();
        lemma_replayed_is_newest(capacity, front);
        lemma_pushed_newest(front, capacity, values.last());
        assert(front.push(values.last()) =~= values);
    }
}

/// Reading a history is repeatable: whatever two calls of `ascending_iter`
/// return for the same history, with no push between them, is the same sequence.
pub proof fn lemma_reading_is_repeatable<T: Copy>(
    history: &SampleHistory<T>,
    first: Vec<T>,
    second: Vec<T>,
)
    requires
        call_ensures(SampleHistory::<T>::ascending_iter, (history,), first),
        call_ensures(SampleHistory::<T>::ascending_iter, (history,), second),
    ensures
        first@ == second@,
{
}

/// `max_of` bounds every element from above and, on a non-empty sequence, is
/// one of the elements.
pub proof fn lemma_max_of(samples: Seq<u64>)
    ensures
        forall|i: int| 0 <= i < samples.len() ==> samples[i] <= max_of(samples),
        samples.len() > 0 ==> exists|i: int| 0 <= i < samples.len() && samples[i] == max_of(samples),
        samples.len() == 0 ==> max_of(samples) == 0,
    decreases samples.len(),
{
    if samples.len() > 0 {
        let front = samples.drop_last();
        lemma_max_of(front);
        assert forall|i: int| 0 <= i < samples.len() implies samples[i] <= max_of(samples) by {
            if i < front.len() {
                assert(front[i] == samples[i]);
            }
        }
        if samples.last() > max_of(front) {
            assert(samples[samples.len() - 1] == max_of(samples));
        } else if front.len() > 0 {
            let i = choose|i: int| 0 <= i < front.len() && front[i] == max_of(front);
            assert(samples[i] == max_of(samples));
        } else {
            assert(samples[0] == max_of(samples));
        }
    }
}

/// A fixed-capacity buffer of samples that evicts the oldest one when a push
/// finds it full.
///
/// Its view is the sequence of retained samples, oldest first.
#[derive(Debug)]
pub struct SampleHistory<T> {
    slots: Vec<T>,
    capacity: usize,
    cursor: usize,
}

/// The history of a metric whose samples are whole numbers.
pub type History = SampleHistory<u64>;

impl<T> View for SampleHistory<T> {
    type V = Seq<T>;

    closed spec fn view(&self) -> Seq<T> {
        self.slots@.subrange(self.cursor as int, self.slots@.len() as int) + self.slots@.subrange(
            0,
            self.cursor as int,
        )
    }
}

impl<T> SampleHistory<T> {
    #[verifier::type_invariant]
    spec fn well_formed(&self) -> bool {
        &&& self.capacity >= 1
        &&& self.slots@.len() <= self.capacity
        &&& self.cursor < self.capacity
        &&& self.slots@.len() < self.capacity ==> self.cursor == 0
        &&& self.cursor <= self.slots@.len()
    }

    /// The number of samples that the history retains at most; fixed when it is made.
    pub closed spec fn spec_capacity(&self) -> usize {
        self.capacity
    }

    /// An empty history that retains up to `capacity` samples. A capacity of
    /// zero is raised to one, so that a push always retains its value.
    pub fn new(capacity: usize) -> (history: Self)
        ensures
            history@ == Seq::<T>::empty(),
            history.capacity() == if capacity == 0 {
                1
            } else {
                capacity
            },
    {
        let capacity: usize = if capacity == 0 {
            1
        } else {
            capacity
        };
        let history = SampleHistory { slots: Vec::new(), capacity, cursor: 0 };
        assert(history@ =~= Seq::<T>::empty());
        history
    }

    /// The number of samples that the history retains at most.
    #[verifier::when_used_as_spec(spec_capacity)]
    pub fn capacity(&self) -> (capacity: usize)
        ensures
            capacity == self.capacity(),
            capacity >= 1,
    {
        proof {
            use_type_invariant(self);
        }
        self.capacity
    }

    /// The number of samples held.
    pub fn len(&self) -> (len: usize)
        ensures
            len == self@.len(),
            len <= self.capacity(),
    {
        proof {
            use_type_invariant(self);
        }
        self.slots.len()
    }

    /// Whether no sample is held.
    pub fn is_empty(&self) -> (empty: bool)
        ensures
            empty == (self@.len() == 0),
    {
        self.len() == 0
    }

    /// Whether as many samples are held as the capacity allows.
    pub fn is_full(&self) -> (full: bool)
        ensures
            full == (self@.len() == self.capacity()),
    {
        proof {
            use_type_invariant(self);
        }
        self.slots.len() == self.capacity
    }
    /// Appends `value` as the newest sample. A full history first drops its
    /// oldest sample; the capacity never changes.
    pub fn push(&mut self, value: T)
        ensures
            final(self)@ == pushed(old(self)@, old(self).capacity() as nat, value),
            final(self).capacity() == old(self).capacity(),
    {
        proof {
            use_type_invariant(&*self);
        }
        let ghost before = self@;
        if self.slots.len() < self.capacity {
            let mut slots: Vec<T> = Vec::new();
            std::mem::swap(&mut slots, &mut self.slots);
            slots.push(value);
            self.slots = slots;
            assert(self@ =~= before.push(value));
        } else {
            let at: usize = self.cursor;
            self.slots[at] = value;
            self.cursor = if at + 1 == self.capacity {
                0
            } else {
                at + 1
            };
            assert(self@ =~= before.drop_first().push(value));
        }
    }

    /// The sample at position `index` counted from the oldest, if there is one.
    pub fn get(&self, index: usize) -> (sample: Option<&T>)
        ensures
            index < self@.len() ==> sample == Some(&self@[index as int]),
            index >= self@.len() ==> sample.is_none(),
    {
        proof {
            use_type_invariant(self);
        }
        let len: usize = self.slots.len();
        if index >= len {
            None
        } else {
            let tail: usize = len - self.cursor;
            let at: usize = if index < tail {
                self.cursor + index
            } else {
                index - tail
            };
            Some(&self.slots[at])
        }
    }

    /// The newest sample, if any is held.
    pub fn latest(&self) -> (sample: Option<&T>)
        ensures
            self@.len() > 0 ==> sample == Some(&self@.last()),
            self@.len() == 0 ==> sample.is_none(),
    {
        let len: usize = self.len();
        if len == 0 {
            None
        } else {
            self.get(len - 1)
        }
    }

    /// Drops every sample and keeps the capacity.
    pub fn clear(&mut self)
        ensures
            final(self)@ == Seq::<T>::empty(),
            final(self).capacity() == old(self).capacity(),
    {
        proof {
            use_type_invariant(&*self);
        }
        self.cursor = 0;
        self.slots = Vec::new();
        assert(self@ =~= Seq::<T>::empty());
    }
}

impl<T: Copy> Clone for SampleHistory<T> {
    /// A history of the same capacity that holds the same samples.
    fn clone(&self) -> (copy: Self)
        ensures
            copy@ == self@,
            copy.capacity() == self.capacity(),
    {
        proof {
            use_type_invariant(self);
        }
        let len: usize = self.slots.len();
        let mut slots: Vec<T> = Vec::with_capacity(len);
        let mut at: usize = 0;
        while at < len
            invariant
                at <= len,
                len == self.slots@.len(),
                slots@ == self.slots@.subrange(0, at as int),
            decreases len - at,
        {
            slots.push(self.slots[at]);
            at += 1;
        }
        assert(slots@ =~= self.slots@);
        SampleHistory { slots, capacity: self.capacity, cursor: self.cursor }
    }
}

impl<T: Copy> SampleHistory<T> {
    /// The retained samples from the oldest to the newest. The history is only
    /// read, so every call between two pushes returns the same sequence.
    pub fn ascending_iter(&self) -> (samples: Vec<T>)
        ensures
            samples@ == self@,
    {
        proof {
            use_type_invariant(self);
        }
        let len: usize = self.slots.len();
        let mut samples: Vec<T> = Vec::with_capacity(len);
        let mut at: usize = self.cursor;
        while at < len
            invariant
                self.cursor <= at <= len,
                len == self.slots@.len(),
                samples@ == self.slots@.subrange(self.cursor as int, at as int),
            decreases len - at,
        {
            samples.push(self.slots[at]);
            at += 1;
        }
        let ghost tail = samples@;
        at = 0;
        while at < self.cursor
            invariant
                at <= self.cursor <= len,
                len == self.slots@.len(),
                samples@ == tail + self.slots@.subrange(0, at as int),
            decreases self.cursor - at,
        {
            samples.push(self.slots[at]);
            at += 1;
        }
        samples
    }

    /// Pushes every element of `values` in order.
    pub fn extend(&mut self, values: &[T])
        ensures
            final(self)@ == newest(old(self)@ + values@, old(self).capacity() as nat),
            final(self).capacity() == old(self).capacity(),
    {
        proof {
            use_type_invariant(&*self);
        }
        let ghost start = self@;
        let ghost capacity = self.capacity() as nat;
        assert(start + values@.subrange(0, 0) =~= start);
        let mut at: usize = 0;
        while at < values.len()
            invariant
                at <= values.len(),
                capacity >= 1,
                start.len() <= capacity,
                self.capacity() == capacity,
                self@ == newest(start + values@.subrange(0, at as int), capacity),
            decreases values.len() - at,
        {
            let ghost seen = start + values@.subrange(0, at as int);
            self.push(values[at]);
            proof {
                lemma_pushed_newest(seen, capacity, values@[at as int]);
                assert(seen.push(values@[at as int]) =~= start + values@.subrange(0, at + 1));
            }
            at += 1;
        }
        assert(values@.subrange(0, values.len() as int) =~= values@);
    }
}

impl SampleHistory<u64> {
    /// The largest sample held, and zero for an empty history.
    pub fn max(&self) -> (max: u64)
        ensures
            max == max_of(self@),
            forall|i: int| 0 <= i < self@.len() ==> self@[i] <= max,
            self@.len() > 0 ==> self@.contains(max),
    {
        proof {
            use_type_invariant(self);
        }
        let len: usize = self.len();
        let mut max: u64 = 0;
        let mut at: usize = 0;
        while at < len
            invariant
                at <= len,
                len == self@.len(),
                max == max_of(self@.subrange(0, at as int)),
            decreases len - at,
        {
            let sample: u64 = match self.get(at) {
                Some(sample) => *sample,
                None => 0,
            };
            proof {
                let seen = self@.subrange(0, at + 1);
                assert(seen.drop_last() =~= self@.subrange(0, at as int));
            }
            if sample > max {
                max = sample;
            }
            at += 1;
        }
        proof {
            assert(self@.subrange(0, len as int) =~= self@);
            lemma_max_of(self@);
        }
        max
    }
}

} // verus!
