//! A fixed-capacity, append-only registry of values.
//!
//! Slots are claimed in order and are never removed or overwritten, so an
//! index handed out by `register` stays valid for the registry's whole life
//! and always refers to the same entry.

use vstd::prelude::*;

verus! {

/// A registry of up to `capacity` `T`-typed values, filled append-only.
#[derive(Debug)]
pub struct Registry<T> {
    values: Vec<T>,
    capacity: usize,
}

/// A registry of key-value pairs, filled append-only.
#[derive(Debug)]
pub struct RegistryMap<T, V> {
    inner: Registry<(T, V)>,
}

impl<T> Registry<T> {
    /// The entries registered so far, in insertion order.
    pub closed spec fn view(&self) -> Seq<T> {
        self.values@
    }

    /// The fixed number of slots.
    pub closed spec fn spec_capacity(&self) -> nat {
        self.capacity as nat
    }

    /// An empty registry with the given number of slots.
    pub fn new(capacity: usize) -> (r: Registry<T>)
        ensures
            r@ == Seq::<T>::empty(),
            r.spec_capacity() == capacity,
    {
        Registry { values: Vec::new(), capacity }
    }

    /// Claim the next free slot for `value` and return its index, which
    /// stays valid for the registry's lifetime. When every slot is taken,
    /// the rejected value is handed back intact.
    pub fn register(&mut self, value: T) -> (r: Result<usize, T>)
        ensures
            final(self).spec_capacity() == old(self).spec_capacity(),
            match r {
                Ok(idx) => {
                    &&& old(self)@.len() < old(self).spec_capacity()
                    &&& idx == old(self)@.len()
                    &&& final(self)@ == old(self)@.push(value)
                },
                Err(v) => {
                    &&& old(self)@.len() >= old(self).spec_capacity()
                    &&& v == value
                    &&& final(self)@ == old(self)@
                },
            },
    {
        if self.values.len() < self.capacity {
            let idx = self.values.len();
            self.values.push(value);
            Ok(idx)
        } else {
            Err(value)
        }
    }

    /// Read the entry registered under `idx`.
    pub fn get(&self, idx: usize) -> (r: &T)
        requires
            idx < self@.len(),
        ensures
            *r == self@[idx as int],
    {
        &self.values[idx]
    }

    /// Borrow the entry registered under `idx` for updating in place.
    pub fn get_mut(&mut self, idx: usize) -> (r: &mut T)
        requires
            idx < old(self)@.len(),
        ensures
            *r == old(self)@[idx as int],
            final(self)@ == old(self)@.update(idx as int, *final(r)),
            final(self).spec_capacity() == old(self).spec_capacity(),
    {
        &mut self.values[idx]
    }

    /// How many entries have been registered.
    pub fn len(&self) -> (r: usize)
        ensures
            r == self@.len(),
    {
        self.values.len()
    }

    /// Whether nothing has been registered yet.
    pub fn is_empty(&self) -> (r: bool)
        ensures
            r == (self@.len() == 0),
    {
        self.values.len() == 0
    }

    /// The fixed number of slots.
    pub fn capacity(&self) -> (r: usize)
        ensures
            r == self.spec_capacity(),
    {
        self.capacity
    }
}

impl<T, V> RegistryMap<T, V> {
    /// The pairs registered so far, in insertion order.
    pub closed spec fn view(&self) -> Seq<(T, V)> {
        self.inner@
    }

    /// The fixed number of slots.
    pub closed spec fn spec_capacity(&self) -> nat {
        self.inner.spec_capacity()
    }

    /// An empty map with the given number of slots.
    pub fn new(capacity: usize) -> (r: RegistryMap<T, V>)
        ensures
            r@ == Seq::<(T, V)>::empty(),
            r.spec_capacity() == capacity,
    {
        RegistryMap { inner: Registry::new(capacity) }
    }

    /// Claim the next free slot for the pair and return its index; when the
    /// map is full, the rejected pair is handed back intact.
    pub fn register(&mut self, key: T, value: V) -> (r: Result<usize, (T, V)>)
        ensures
            final(self).spec_capacity() == old(self).spec_capacity(),
            match r {
                Ok(idx) => {
                    &&& old(self)@.len() < old(self).spec_capacity()
                    &&& idx == old(self)@.len()
                    &&& final(self)@ == old(self)@.push((key, value))
                },
                Err(kv) => {
                    &&& old(self)@.len() >= old(self).spec_capacity()
                    &&& kv == (key, value)
                    &&& final(self)@ == old(self)@
                },
            },
    {
        self.inner.register((key, value))
    }

    /// Read the pair registered under `idx`.
    pub fn get(&self, idx: usize) -> (r: &(T, V))
        requires
            idx < self@.len(),
        ensures
            *r == self@[idx as int],
    {
        self.inner.get(idx)
    }

    /// Borrow the value registered under `idx` for updating in place; the key
    /// is never changed.
    pub fn get_value_mut(&mut self, idx: usize) -> (r: &mut V)
        requires
            idx < old(self)@.len(),
        ensures
            *r == old(self)@[idx as int].1,
            final(self)@ == old(self)@.update(
                idx as int,
                (old(self)@[idx as int].0, *final(r)),
            ),
            final(self).spec_capacity() == old(self).spec_capacity(),
    {
        let pair = self.inner.get_mut(idx);
        &mut pair.1
    }

    /// How many pairs have been registered.
    pub fn len(&self) -> (r: usize)
        ensures
            r == self@.len(),
    {
        self.inner.len()
    }

    /// Whether nothing has been registered yet.
    pub fn is_empty(&self) -> (r: bool)
        ensures
            r == (self@.len() == 0),
    {
        self.inner.is_empty()
    }

    /// The fixed number of slots.
    pub fn capacity(&self) -> (r: usize)
        ensures
            r == self.spec_capacity(),
    {
        self.inner.capacity()
    }
}

/// The registry state after a sequence of `register` calls, starting from
/// `init`: each value is appended while a slot is free and rejected once the
/// registry is full.
pub open spec fn register_all<T>(init: Seq<T>, cap: nat, values: Seq<T>) -> Seq<T>
    decreases values.len(),
{
    if values.len() == 0 {
        init
    } else {
        let after = if init.len() < cap {
            init.push(values[0])
        } else {
            init
        };
        register_all(after, cap, values.drop_first())
    }
}

/// How many of the `register` calls in `register_all` succeed.
pub open spec fn successful_registers<T>(init: Seq<T>, cap: nat, values: Seq<T>) -> nat
    decreases values.len(),
{
    if values.len() == 0 {
        0
    } else if init.len() < cap {
        1 + successful_registers(init.push(values[0]), cap, values.drop_first())
    } else {
        0
    }
}

/// Law of the append-only registry: over any sequence of `register` calls,
/// the final count equals the initial count plus the number of successful
/// calls; the calls succeed in order while slots remain, so no two successes
/// share a slot and the `k`-th success claims slot `init.len() + k` with the
/// `k`-th value, untouched thereafter; earlier entries are never moved or
/// overwritten; and each failure leaves the registry unchanged with the
/// rejected value handed back, as `register`'s contract states.
pub proof fn lemma_register_all_count<T>(init: Seq<T>, cap: nat, values: Seq<T>)
    requires
        init.len() <= cap,
    ensures
        register_all(init, cap, values).len() == init.len() + successful_registers(
            init,
            cap,
            values,
        ),
        register_all(init, cap, values).len() <= cap,
        successful_registers(init, cap, values) == if init.len() + values.len() <= cap {
            values.len()
        } else {
            (cap - init.len()) as nat
        },
        forall|i: int| 0 <= i < init.len() ==> register_all(init, cap, values)[i] == init[i],
        forall|k: int|
            0 <= k < successful_registers(init, cap, values) ==> register_all(init, cap, values)[
                init.len() + k] == values[k],
    decreases values.len(),
{
    if values.len() > 0 {
        if init.len() < cap {
            lemma_register_all_count(init.push(values[0]), cap, values.drop_first());
            assert forall|k: int|
                0 <= k < successful_registers(init, cap, values) implies register_all(
                init,
                cap,
                values,
            )[init.len() + k] == values[k] by {
                let pushed = init.push(values[0]);
                let rest = values.drop_first();
                if k == 0 {
                    assert(register_all(pushed, cap, rest)[init.len() as int] == pushed[
                        init.len() as int]);
                } else {
                    assert(rest[k - 1] == values[k]);
                    assert(register_all(pushed, cap, rest)[pushed.len() + (k - 1)] == rest[k - 1]);
                }
            }
        } else {
            lemma_register_all_count(init, cap, values.drop_first());
        }
    }
}

} // verus!
