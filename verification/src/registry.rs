//! Controllers that rapier does not keep in its own sets (vehicle and character
//! controllers) are owned by the world in creation order and named by 1-based handles.
//! Handle 0, and any handle past the last controller, names nothing.

use vstd::prelude::*;

verus! {

/// The position (0-based) that a 1-based controller handle names in a registry of `len`
/// controllers, if it names one: the handle, taken as a `usize`, minus one, when that is
/// below `len`.
pub open spec fn slot_of(h: u64, len: nat) -> Option<int> {
    let u = h as usize;
    if u == 0 || u as int - 1 >= len {
        None
    } else {
        Some(u as int - 1)
    }
}

/// Law: a handle names a controller exactly when, taken as a `usize`, it lies in
/// `1..=len`, and it then names position `handle - 1`.
pub proof fn lemma_slot_meaning(h: u64, len: nat)
    ensures
        slot_of(h, len) is Some <==> 1 <= (h as usize) as int <= len,
        slot_of(h, len) matches Some(k) ==> k == (h as usize) as int - 1,
{
}

/// Law: handle 0 never names a controller.
pub proof fn lemma_zero_handle_names_nothing(len: nat)
    ensures
        slot_of(0, len) is None,
{
}

/// Law: creating a controller leaves every earlier handle naming the same position, and
/// the handle `n` of the `n`-th controller names its position `n - 1`.
pub proof fn lemma_handles_stable_under_create(h: u64, len: nat)
    requires
        len < usize::MAX,
    ensures
        slot_of(h, len) matches Some(k) ==> slot_of(h, len + 1) == Some(k),
        slot_of((len + 1) as u64, len + 1) == Some(len as int),
{
    assert(((len + 1) as u64) as usize == len + 1);
}

/// Law: changing the controller that handle `h` names (as `get_mut` allows) leaves every
/// handle naming the same position as before, leaves every other controller as it was,
/// and reads back the new controller at `h`.
pub proof fn lemma_change_in_place<T>(items: Seq<T>, h: u64, g: u64, x: T)
    requires
        slot_of(h, items.len()) is Some,
    ensures
        ({
            let k = slot_of(h, items.len())->0;
            let after = items.update(k, x);
            &&& after.len() == items.len()
            &&& slot_of(g, after.len()) == slot_of(g, items.len())
            &&& after[k] == x
            &&& (slot_of(g, items.len()) matches Some(j) ==> (j != k ==> after[j] == items[j]))
        }),
{
}

/// Controllers in creation order; the controller created `k`-th (from 1) has handle `k`.
pub struct Registry<T> {
    items: Vec<T>,
}

impl<T> Registry<T> {
    /// The controllers, in creation order.
    pub closed spec fn items(&self) -> Seq<T> {
        self.items@
    }

    /// An empty registry.
    pub fn new() -> (r: Self)
        ensures
            r.items() == Seq::<T>::empty(),
    {
        Registry { items: Vec::new() }
    }

    /// The number of controllers created so far.
    pub fn len(&self) -> (n: usize)
        ensures
            n == self.items().len(),
    {
        self.items.len()
    }

    /// Adds a controller and returns its handle: the new number of controllers.
    pub fn create(&mut self, item: T) -> (h: u64)
        requires
            old(self).items().len() < usize::MAX,
        ensures
            final(self).items() == old(self).items().push(item),
            h == final(self).items().len(),
            h as int == old(self).items().len() + 1,
            slot_of(h, final(self).items().len()) == Some(old(self).items().len() as int),
    {
        self.items.push(item);
        let n = self.items.len();
        let h = n as u64;
        assert(h as usize == n);
        h
    }

    /// The controller that handle `h` names, if any.
    pub fn get(&self, h: u64) -> (r: Option<&T>)
        ensures
            r == (match slot_of(h, self.items().len()) {
                Some(k) => Some(&self.items()[k]),
                None => None,
            }),
            1 <= (h as usize) as int <= self.items().len() ==> r == Some(&self.items()[(h as usize) - 1]),
            !(1 <= (h as usize) as int <= self.items().len()) ==> r is None,
    {
        let u = h as usize;
        if u == 0 {
            return None;
        }
        let k = u - 1;
        if k < self.items.len() {
            Some(&self.items[k])
        } else {
            None
        }
    }

    /// The controller that handle `h` names, if any, for change in place. Only that
    /// controller can change; the others and the number of controllers stay.
    pub fn get_mut(&mut self, h: u64) -> (r: Option<&mut T>)
        ensures
            match slot_of(h, old(self).items().len()) {
                Some(k) => r is Some && *r->0 == old(self).items()[k]
                    && final(self).items() == old(self).items().update(k, *final(r->0)),
                None => r is None && final(self).items() == old(self).items(),
            },
    {
        let u = h as usize;
        if u == 0 {
            return None;
        }
        let k = u - 1;
        if k < self.items.len() {
            Some(&mut self.items[k])
        } else {
            None
        }
    }
}

} // verus!
