//! `ExternalPtr` is a way to hand Rust data to R and to leave its deallocation to R and its
//! garbage collector.
//!
//! An external pointer is an R object of three values: an address, a `tag` and a `prot`. The tag
//! is a helpful naming of the type of the data; it is no solid type check. `prot` is meant for R
//! values that are to be kept together with the pointer.
//!
//! The data itself stays in a [`Store`], where it is found by the address. R holds the address
//! and nothing else, so that every copy of an R object leads to the same data, and the data lives
//! until R's finalizer takes it out of the store.

use std::marker::PhantomData;

use vstd::prelude::*;

verus! {

// ---------------------------------------------------------------------------------------------
// R objects
// ---------------------------------------------------------------------------------------------

/// The kinds of R objects that are told apart here.
#[derive(Clone, Copy, Debug, PartialEq, Eq, Structural)]
pub enum Rtype {
    Null,
    Strings,
    ExternalPtr,
    Other,
}

/// An R object, as far as it is read here.
#[derive(Debug, PartialEq)]
pub enum Robj {
    /// `NULL`
    Null,
    /// A string.
    Str(String),
    /// An external pointer. Its address is zero once it has been cleared.
    ExternalPtr { addr: usize, tag: Box<Robj>, prot: Box<Robj> },
    /// Any other object, known by where it lies.
    Object(usize),
}

impl Clone for Robj {
    fn clone(&self) -> (res: Self)
        ensures
            res == *self,
        decreases self,
    {
        match self {
            Robj::Null => Robj::Null,
            Robj::Str(s) => Robj::Str(s.clone()),
            Robj::ExternalPtr { addr, tag, prot } => Robj::ExternalPtr {
                addr: *addr,
                tag: Box::new((**tag).clone()),
                prot: Box::new((**prot).clone()),
            },
            Robj::Object(at) => Robj::Object(*at),
        }
    }
}

impl Robj {
    /// The kind of the object.
    pub open spec fn kind(self) -> Rtype {
        match self {
            Robj::Null => Rtype::Null,
            Robj::Str(_) => Rtype::Strings,
            Robj::ExternalPtr { .. } => Rtype::ExternalPtr,
            Robj::Object(_) => Rtype::Other,
        }
    }

    /// Whether the object is an external pointer whose tag is the string `name`.
    pub open spec fn is_tagged(self, name: Seq<char>) -> bool {
        self matches Robj::ExternalPtr { tag, .. } && *tag matches Robj::Str(s) && s@ == name
    }

    /// The kind of the object.
    pub fn rtype(&self) -> (res: Rtype)
        ensures
            res == self.kind(),
    {
        match self {
            Robj::Null => Rtype::Null,
            Robj::Str(_) => Rtype::Strings,
            Robj::ExternalPtr { .. } => Rtype::ExternalPtr,
            Robj::Object(_) => Rtype::Other,
        }
    }

    /// Whether the object is an external pointer to data of the type called `name`, as far as its
    /// tag tells.
    pub fn check_external_ptr_type(&self, name: &str) -> (res: bool)
        ensures
            res == self.is_tagged(name@),
    {
        match self {
            Robj::ExternalPtr { tag, .. } => match &**tag {
                Robj::Str(s) => *s == name.to_owned(),
                _ => false,
            },
            _ => false,
        }
    }
}

/// Why an R object is not the external pointer it was taken for.
#[derive(Debug, PartialEq)]
pub enum PtrError {
    /// The object is not an external pointer.
    ExpectedExternalPtr(Robj),
    /// The object is an external pointer, but not to data of the type with this name.
    ExpectedExternalPtrType(Robj, String),
}

// ---------------------------------------------------------------------------------------------
// The store
// ---------------------------------------------------------------------------------------------

/// The values of type `T` that R holds external pointers to, each under an address that is not
/// zero.
pub struct Store<T> {
    /// The name of `T`.
    name: String,
    /// The value at address `i + 1`.
    slots: Vec<Option<T>>,
    /// The slots that hold no value.
    free: Vec<usize>,
}

impl<T> Store<T> {
    /// Whether the list of free slots is right: the empty slots, each once.
    pub closed spec fn wf(self) -> bool {
        &&& forall|k: int|
            0 <= k < self.free@.len() ==> (#[trigger] self.free@[k]) < self.slots@.len()
                && self.slots@[self.free@[k] as int] is None
        &&& forall|j: int, k: int|
            0 <= j < k < self.free@.len() ==> self.free@[j] != self.free@[k]
        &&& forall|i: int|
            0 <= i < self.slots@.len() && #[trigger] self.slots@[i] is None ==> self.free@.contains(
                i as usize,
            )
    }

    /// The name of the type of the values.
    pub closed spec fn name(self) -> Seq<char> {
        self.name@
    }

    /// The values, by address.
    pub closed spec fn values(self) -> Map<usize, T> {
        Map::new(
            |a: usize| 0 < a <= self.slots@.len() && self.slots@[a - 1] is Some,
            |a: usize| self.slots@[a - 1]->0,
        )
    }

    /// Whether some address is not in use.
    pub open spec fn has_room(self) -> bool {
        exists|a: usize| a != 0 && !#[trigger] self.values().contains_key(a)
    }

    /// An empty store for values of the type with this name.
    pub fn new(name: &str) -> (res: Self)
        ensures
            res.wf(),
            res.name() == name@,
            res.values() == Map::<usize, T>::empty(),
            res.has_room(),
    {
        let res = Store { name: name.to_owned(), slots: Vec::new(), free: Vec::new() };
        assert(res.values() =~= Map::<usize, T>::empty());
        assert(!res.values().contains_key(1));
        res
    }

    /// Puts a value in under an address that is not in use, and returns the address.
    fn insert(&mut self, val: T) -> (addr: usize)
        requires
            old(self).wf(),
            old(self).has_room(),
        ensures
            final(self).wf(),
            final(self).name() == old(self).name(),
            addr != 0,
            !old(self).values().contains_key(addr),
            final(self).values() == old(self).values().insert(addr, val),
    {
        let ghost before = *self;
        assert(before.slots.len() == before.slots@.len());
        match self.free.pop() {
            Some(i) => {
                assert(before.free@[before.free@.len() - 1] == i);
                self.slots[i] = Some(val);
                let addr: usize = i + 1;
                proof {
                    assert forall|k: int|
                        0 <= k < self.slots@.len() && #[trigger] self.slots@[k] is None
                        implies self.free@.contains(k as usize) by {
                        assert(before.slots@[k] is None);
                        let j = choose|j: int|
                            0 <= j < before.free@.len() && before.free@[j] == k as usize;
                        assert(self.free@[j] == k as usize);
                    }
                    assert(self.values() =~= before.values().insert(addr, val));
                }
                addr
            },
            None => {
                proof {
                    let a = choose|a: usize| a != 0 && !#[trigger] before.values().contains_key(a);
                    if a <= before.slots@.len() {
                        assert(before.slots@[a - 1] is None);
                        assert(before.free@.contains((a - 1) as usize));
                    }
                }
                self.slots.push(Some(val));
                let addr: usize = self.slots.len();
                proof {
                    assert forall|k: int| 0 <= k < self.slots@.len() implies
                        #[trigger] self.slots@[k] is Some by {
                        if k < before.slots@.len() && before.slots@[k] is None {
                            assert(before.free@.contains(k as usize));
                        }
                    }
                    assert(self.values() =~= before.values().insert(addr, val));
                }
                addr
            },
        }
    }

    /// Takes the value at an address out.
    fn remove(&mut self, addr: usize) -> (val: T)
        requires
            old(self).wf(),
            old(self).values().contains_key(addr),
        ensures
            final(self).wf(),
            final(self).name() == old(self).name(),
            val == old(self).values()[addr],
            final(self).values() == old(self).values().remove(addr),
    {
        let ghost before = *self;
        let i: usize = addr - 1;
        let val = self.slots[i].take().unwrap();
        self.free.push(i);
        proof {
            assert(before.slots.len() == before.slots@.len());
            assert forall|k: int| 0 <= k < self.slots@.len() && #[trigger] self.slots@[k] is None
                implies self.free@.contains(k as usize) by {
                if k == i {
                    assert(self.free@[before.free@.len() as int] == k as usize);
                } else {
                    assert(before.slots@[k] is None);
                    let j = choose|j: int|
                        0 <= j < before.free@.len() && before.free@[j] == k as usize;
                    assert(self.free@[j] == k as usize);
                }
            }
            assert(self.values() =~= before.values().remove(addr));
        }
        val
    }

    /// Whether there is a value at an address.
    pub fn contains(&self, addr: usize) -> (res: bool)
        ensures
            res == self.values().contains_key(addr),
    {
        0 < addr && addr <= self.slots.len() && self.slots[addr - 1].is_some()
    }

    /// Whether some address is not in use, so that a value can be put in.
    pub fn room(&self) -> (res: bool)
        requires
            self.wf(),
        ensures
            res == self.has_room(),
    {
        let res = self.free.len() > 0 || self.slots.len() < usize::MAX;
        proof {
            assert(self.slots.len() == self.slots@.len());
            if self.free@.len() > 0 {
                let i = self.free@[0];
                assert(!self.values().contains_key((i + 1) as usize));
            } else if self.slots@.len() < usize::MAX {
                assert(!self.values().contains_key((self.slots@.len() + 1) as usize));
            } else {
                assert forall|a: usize| a != 0 implies #[trigger] self.values().contains_key(a) by {
                    if self.slots@[a - 1] is None {
                        assert(self.free@.contains((a - 1) as usize));
                    }
                }
            }
        }
        res
    }
}

// ---------------------------------------------------------------------------------------------
// External pointers
// ---------------------------------------------------------------------------------------------

/// Whether `ptr` has been made for `val`: an external pointer with an address that was not in
/// use, which now leads to `val`; with the name of the type as its tag, and with nothing to keep.
pub open spec fn created<T>(before: Store<T>, after: Store<T>, ptr: ExternalPtr<T>, val: T) -> bool {
    &&& after.wf()
    &&& after.name() == before.name()
    &&& ptr.wf()
    &&& ptr.address() != 0
    &&& !before.values().contains_key(ptr.address())
    &&& after.values() == before.values().insert(ptr.address(), val)
    &&& ptr.object().is_tagged(before.name())
    &&& *ptr.object()->prot == Robj::Null
}

/// Whether `val` has been written where `ptr` leads, and nothing else has changed.
pub open spec fn written<T>(before: Store<T>, after: Store<T>, ptr: ExternalPtr<T>, val: T) -> bool {
    &&& after.wf()
    &&& after.name() == before.name()
    &&& after.values() =~= before.values().insert(ptr.address(), val)
}

/// Whether `res` is the answer on whether `robj` is an external pointer to data of the type with
/// this name: the pointer that contains the object, if its tag says so; else which of the two
/// errors it is, with the object, and with the name if the tag is to blame.
pub open spec fn taken<T>(
    robj: Robj,
    name: Seq<char>,
    res: Result<ExternalPtr<T>, PtrError>,
) -> bool {
    match res {
        Ok(ptr) => robj.is_tagged(name) && ptr.object() == robj,
        Err(PtrError::ExpectedExternalPtr(r)) => !(robj is ExternalPtr) && r == robj,
        Err(PtrError::ExpectedExternalPtrType(r, n)) => {
            &&& robj is ExternalPtr
            &&& !robj.is_tagged(name)
            &&& r == robj
            &&& n@ == name
        },
    }
}

/// Whether the external pointer `x` has been cleared, to `cleared`: its value is gone from the
/// store and is `val`, its tag is freed, and its address is zero.
pub open spec fn finalized<T>(
    before: Store<T>,
    after: Store<T>,
    x: Robj,
    cleared: Robj,
    val: T,
) -> bool {
    &&& after.wf()
    &&& after.name() == before.name()
    &&& after.values() == before.values().remove(x->addr)
    &&& val == before.values()[x->addr]
    &&& cleared is ExternalPtr
    &&& cleared->addr == 0
    &&& *cleared->tag == Robj::Null
    &&& cleared->prot == x->prot
}

/// Wrapper for creating R objects that lead to a Rust value.
#[derive(PartialEq)]
pub struct ExternalPtr<T> {
    /// This is the contained R object.
    robj: Robj,
    /// This is a zero-length object that holds the type of the object.
    _marker: PhantomData<T>,
}

impl<T> Clone for ExternalPtr<T> {
    fn clone(&self) -> (res: Self)
        ensures
            res == *self,
    {
        ExternalPtr { robj: self.robj.clone(), _marker: PhantomData }
    }
}

impl<T> ExternalPtr<T> {
    /// The contained R object.
    pub closed spec fn object(self) -> Robj {
        self.robj
    }

    /// Whether the contained R object is an external pointer.
    pub open spec fn wf(self) -> bool {
        self.object() is ExternalPtr
    }

    /// The address.
    pub open spec fn address(self) -> usize {
        self.object()->addr
    }

    /// Whether the address leads to a value.
    pub open spec fn is_live(self, store: Store<T>) -> bool {
        self.wf() && store.values().contains_key(self.address())
    }

    /// The value that the address leads to.
    pub open spec fn value(self, store: Store<T>) -> T {
        store.values()[self.address()]
    }

    /// Constructs an external pointer object from any value of type `T`. The R object owns the
    /// data, and the value is dropped when the last reference to it is removed, by
    /// [`finalizer`].
    ///
    /// An external pointer behaves like a `Box` except that the information is tracked by an R
    /// object.
    pub fn new(store: &mut Store<T>, val: T) -> (res: Self)
        requires
            old(store).wf(),
            old(store).has_room(),
        ensures
            created(*old(store), *final(store), res, val),
    {
        let tag = Robj::Str(store.name.clone());
        let addr = store.insert(val);
        ExternalPtr {
            robj: Robj::ExternalPtr { addr, tag: Box::new(tag), prot: Box::new(Robj::Null) },
            _marker: PhantomData,
        }
    }

    /// Gets the "tag" of an external pointer. This is the type name in the common case.
    pub fn tag(&self) -> (res: Robj)
        requires
            self.wf(),
        ensures
            res == *self.object()->tag,
    {
        match &self.robj {
            Robj::ExternalPtr { tag, .. } => (**tag).clone(),
            _ => Robj::Null,
        }
    }

    /// Gets the "protected" field of an external pointer. This is `NULL` in the common case.
    pub fn protected(&self) -> (res: Robj)
        requires
            self.wf(),
        ensures
            res == *self.object()->prot,
    {
        match &self.robj {
            Robj::ExternalPtr { prot, .. } => (**prot).clone(),
            _ => Robj::Null,
        }
    }

    /// The address.
    fn at(&self) -> (res: usize)
        requires
            self.wf(),
        ensures
            res == self.address(),
    {
        match &self.robj {
            Robj::ExternalPtr { addr, .. } => *addr,
            _ => 0,
        }
    }

    /// Gets what the "address" field of an external pointer leads to.
    pub fn addr<'a>(&self, store: &'a Store<T>) -> (res: &'a T)
        requires
            self.is_live(*store),
        ensures
            *res == self.value(*store),
    {
        store.slots[self.at() - 1].as_ref().unwrap()
    }

    /// Gets what the "address" field of an external pointer leads to as a mutable reference.
    pub fn addr_mut<'a>(&mut self, store: &'a mut Store<T>) -> (res: &'a mut T)
        requires
            old(store).wf(),
            old(self).is_live(*old(store)),
        ensures
            *final(self) == *old(self),
            *res == old(self).value(*old(store)),
            written(*old(store), *final(store), *old(self), *final(res)),
    {
        let i: usize = self.at() - 1;
        store.slots[i].as_mut().unwrap()
    }

    /// This allows us to treat the R object as if it is the type `T`.
    pub fn deref<'a>(&self, store: &'a Store<T>) -> (res: &'a T)
        requires
            self.is_live(*store),
        ensures
            *res == self.value(*store),
    {
        self.addr(store)
    }

    /// This allows us to treat the R object as if it is the mutable type `T`.
    pub fn deref_mut<'a>(&mut self, store: &'a mut Store<T>) -> (res: &'a mut T)
        requires
            old(store).wf(),
            old(self).is_live(*old(store)),
        ensures
            *final(self) == *old(self),
            *res == old(self).value(*old(store)),
            written(*old(store), *final(store), *old(self), *final(res)),
    {
        self.addr_mut(store)
    }

    /// Gets a reference to the contained R object.
    pub fn as_robj(&self) -> (res: &Robj)
        ensures
            *res == self.object(),
    {
        &self.robj
    }

    /// Gets a mutable reference to the contained R object.
    pub fn as_robj_mut(&mut self) -> (res: &mut Robj)
        ensures
            *res == old(self).object(),
            final(self).object() == *final(res),
    {
        &mut self.robj
    }

    /// Takes an R object for an external pointer to data of the type that the store holds.
    ///
    /// The tag decides. Whether the address leads anywhere is not looked at.
    pub fn try_from(robj: &Robj, store: &Store<T>) -> (res: Result<Self, PtrError>)
        ensures
            taken(*robj, store.name(), res),
    {
        let clone = robj.clone();
        if clone.rtype() != Rtype::ExternalPtr {
            Err(PtrError::ExpectedExternalPtr(clone))
        } else if clone.check_external_ptr_type(store.name.as_str()) {
            Ok(ExternalPtr { robj: clone, _marker: PhantomData })
        } else {
            Err(PtrError::ExpectedExternalPtrType(clone, store.name.clone()))
        }
    }

    /// Takes an R object for an external pointer, as [`ExternalPtr::try_from`] does, where the
    /// object itself is given away.
    pub fn try_from_robj(robj: Robj, store: &Store<T>) -> (res: Result<Self, PtrError>)
        ensures
            taken(robj, store.name(), res),
    {
        ExternalPtr::try_from(&robj, store)
    }
}

impl<T> From<ExternalPtr<T>> for Robj {
    fn from(val: ExternalPtr<T>) -> (res: Robj) {
        val.robj
    }
}

impl<T> vstd::std_specs::convert::FromSpecImpl<ExternalPtr<T>> for Robj {
    open spec fn obeys_from_spec() -> bool {
        true
    }

    open spec fn from_spec(val: ExternalPtr<T>) -> Robj {
        val.object()
    }
}

/// What R does with an external pointer that nothing refers to any more: the tag is freed, the
/// address is set to zero, and the value leaves the store, for the caller to drop.
///
/// The address may be given to another value from then on. R sees to it that no copy of the
/// object is left.
pub fn finalizer<T>(x: &mut Robj, store: &mut Store<T>) -> (val: T)
    requires
        old(store).wf(),
        (*old(x)) is ExternalPtr,
        old(store).values().contains_key((*old(x))->addr),
    ensures
        finalized(*old(store), *final(store), *old(x), *final(x), val),
{
    let at: usize = match x {
        Robj::ExternalPtr { addr, tag, .. } => {
            let at: usize = *addr;
            // Free the `tag`, which is the type-name
            *tag = Box::new(Robj::Null);
            // Now set the pointer to NULL
            *addr = 0;
            at
        },
        _ => 0,
    };
    // Take the value out of the store, for the caller to drop.
    store.remove(at)
}

// ---------------------------------------------------------------------------------------------
// Laws
// ---------------------------------------------------------------------------------------------

/// A new external pointer leads to the value it was made from, and makes no difference to the
/// pointers that were there before: they lead to what they led to, and none shares its address.
pub proof fn law_new_pointer_leads_to_its_value<T>(
    before: Store<T>,
    after: Store<T>,
    ptr: ExternalPtr<T>,
    val: T,
    other: ExternalPtr<T>,
)
    requires
        created(before, after, ptr, val),
        other.is_live(before),
    ensures
        ptr.is_live(after),
        ptr.value(after) == val,
        other.is_live(after),
        other.value(after) == other.value(before),
        other.address() != ptr.address(),
{
}

/// Two external pointers made one after the other are different objects with different addresses,
/// whatever their values. The second leaves the first with its value, and so does every write
/// through the second.
pub proof fn law_new_pointers_are_apart<T>(
    start: Store<T>,
    middle: Store<T>,
    end: Store<T>,
    first: ExternalPtr<T>,
    first_val: T,
    second: ExternalPtr<T>,
    second_val: T,
)
    requires
        created(start, middle, first, first_val),
        created(middle, end, second, second_val),
    ensures
        first.address() != second.address(),
        first.object() != second.object(),
        first != second,
        first.is_live(end) && first.value(end) == first_val,
        second.is_live(end) && second.value(end) == second_val,
        forall|later: Store<T>, val: T| #[trigger]
            written(end, later, second, val) ==> first.is_live(later) && first.value(later)
                == first_val && second.value(later) == val,
{
}

/// An external pointer survives the way through R: the R object that it turns into is taken for
/// an external pointer of its type again, and the pointer made of it leads to the same value.
pub proof fn law_round_trip_through_r<T>(
    before: Store<T>,
    after: Store<T>,
    ptr: ExternalPtr<T>,
    val: T,
    again: ExternalPtr<T>,
)
    requires
        created(before, after, ptr, val),
        again.object() == <Robj as vstd::std_specs::convert::FromSpec<ExternalPtr<T>>>::from_spec(
            ptr,
        ),
    ensures
        <Robj as vstd::std_specs::convert::FromSpec<ExternalPtr<T>>>::from_spec(ptr).is_tagged(
            after.name(),
        ),
        again.is_live(after),
        again.value(after) == val,
{
}

/// What is written through one pointer is read through every pointer to the same object, and
/// pointers to other addresses lead to what they led to.
pub proof fn law_pointers_to_one_object_share_its_value<T>(
    before: Store<T>,
    after: Store<T>,
    ptr: ExternalPtr<T>,
    val: T,
    other: ExternalPtr<T>,
)
    requires
        ptr.is_live(before),
        written(before, after, ptr, val),
        other.is_live(before),
    ensures
        ptr.is_live(after),
        other.is_live(after),
        other.address() == ptr.address() ==> other.value(after) == val,
        other.address() != ptr.address() ==> other.value(after) == other.value(before),
{
}

/// The finalizer ends the life of one value and of no other: what it hands back is what every
/// pointer to the object's address led to, the object leads nowhere any more, nor does any copy of
/// it from before, and pointers to other addresses lead to what they led to. So a value is handed
/// back once.
pub proof fn law_finalizer_ends_one_life<T>(
    before: Store<T>,
    after: Store<T>,
    x: Robj,
    cleared: Robj,
    val: T,
    other: ExternalPtr<T>,
)
    requires
        x is ExternalPtr,
        finalized(before, after, x, cleared, val),
        other.is_live(before),
    ensures
        !after.values().contains_key(x->addr),
        !after.values().contains_key(cleared->addr),
        !cleared.is_tagged(after.name()),
        other.address() == x->addr ==> val == other.value(before) && !other.is_live(after),
        other.address() != x->addr ==> other.is_live(after) && other.value(after) == other.value(
            before,
        ),
{
}

/// The address zero leads nowhere, in any store.
pub proof fn law_zero_leads_nowhere<T>(store: Store<T>)
    ensures
        !store.values().contains_key(0),
{
}

/// The addresses up to `n`.
spec fn addresses(n: usize) -> Set<usize> {
    Set::new(|a: usize| 0 < a <= n)
}

/// There are `n` addresses up to `n`.
proof fn lemma_addresses(n: usize)
    ensures
        addresses(n).finite(),
        addresses(n).len() == n,
    decreases n,
{
    if n == 0 {
        assert(addresses(n) =~= Set::<usize>::empty());
    } else {
        let m = (n - 1) as usize;
        lemma_addresses(m);
        assert(addresses(n) =~= addresses(m).insert(n));
    }
}

/// A store with fewer values than there are addresses has room for another, and a store in which
/// a pointer has been made has one value more than before.
pub proof fn law_few_values_leave_room<T>(store: Store<T>)
    ensures
        store.values().dom().finite(),
        store.values().len() < usize::MAX ==> store.has_room(),
        forall|after: Store<T>, ptr: ExternalPtr<T>, val: T| #[trigger]
            created(store, after, ptr, val) ==> after.values().len() == store.values().len() + 1,
{
    lemma_addresses(usize::MAX);
    let dom = store.values().dom();
    assert(dom.subset_of(addresses(usize::MAX)));
    vstd::set_lib::lemma_len_subset(dom, addresses(usize::MAX));
    if !store.has_room() {
        assert forall|a: usize| addresses(usize::MAX).contains(a) implies dom.contains(a) by {
            assert(store.values().contains_key(a));
        }
        assert(dom =~= addresses(usize::MAX));
    }
}

/// A store that a value has been taken out of has room for another.
pub proof fn law_finalizer_makes_room<T>(
    before: Store<T>,
    after: Store<T>,
    x: Robj,
    cleared: Robj,
    val: T,
)
    requires
        x is ExternalPtr,
        before.values().contains_key(x->addr),
        finalized(before, after, x, cleared, val),
    ensures
        after.has_room(),
{
    assert(!after.values().contains_key(x->addr));
    law_zero_leads_nowhere(before);
}

/// An object is of the kind of its variant, and of no other.
pub proof fn law_kinds_follow_the_variant(robj: Robj)
    ensures
        robj.kind() == Rtype::Null <==> robj is Null,
        robj.kind() == Rtype::Strings <==> robj is Str,
        robj.kind() == Rtype::ExternalPtr <==> robj is ExternalPtr,
        robj.kind() == Rtype::Other <==> robj is Object,
{
}

/// Whether an object passes for an external pointer to a type depends on its tag alone: the tag
/// is a string, and the string is the name of the type. Address and protected field do not count,
/// and nothing but an external pointer passes.
pub proof fn law_tag_alone_decides(robj: Robj, other: Robj, name: Seq<char>)
    ensures
        !(robj is ExternalPtr) ==> !robj.is_tagged(name),
        robj is ExternalPtr ==> (robj.is_tagged(name) <==> *robj->tag is Str
            && (*robj->tag)->Str_0@ == name),
        robj is ExternalPtr && other is ExternalPtr && robj->tag == other->tag ==> robj.is_tagged(
            name,
        ) == other.is_tagged(name),
{
}

/// An object whose tag is the string `name` is taken for a pointer to the type with that name, and
/// the pointer contains the very object. Any other external pointer is refused for its type, with
/// the name, and anything else for its kind; the object is handed back with the error.
pub proof fn law_objects_are_taken_by_their_tag<T>(
    robj: Robj,
    name: Seq<char>,
    res: Result<ExternalPtr<T>, PtrError>,
)
    requires
        taken(robj, name, res),
    ensures
        res is Ok <==> robj is ExternalPtr && *robj->tag is Str && (*robj->tag)->Str_0@ == name,
        res is Ok ==> res->Ok_0.object() == robj && res->Ok_0.wf(),
        !(robj is ExternalPtr) ==> res->Err_0 == PtrError::ExpectedExternalPtr(robj),
        robj is ExternalPtr && res is Err ==> {
            &&& res->Err_0 is ExpectedExternalPtrType
            &&& res->Err_0->ExpectedExternalPtrType_0 == robj
            &&& res->Err_0->ExpectedExternalPtrType_1@ == name
        },
{
}

/// Two answers on one object and one name are the same but for how the name is held.
pub proof fn law_answers_on_an_object_agree<T>(
    robj: Robj,
    name: Seq<char>,
    first: Result<ExternalPtr<T>, PtrError>,
    second: Result<ExternalPtr<T>, PtrError>,
)
    requires
        taken(robj, name, first),
        taken(robj, name, second),
    ensures
        first is Ok <==> second is Ok,
        first is Ok ==> first->Ok_0.object() == second->Ok_0.object(),
        first is Err ==> (first->Err_0 is ExpectedExternalPtr
            <==> second->Err_0 is ExpectedExternalPtr),
{
}

/// A new pointer is an external pointer to an address that is not zero, with the name of its type
/// for a tag, and with nothing to keep. It is taken for a pointer to its type, and to no other.
pub proof fn law_new_pointer_is_tagged_with_its_type<T>(
    before: Store<T>,
    after: Store<T>,
    ptr: ExternalPtr<T>,
    val: T,
    name: Seq<char>,
)
    requires
        created(before, after, ptr, val),
    ensures
        ptr.object() is ExternalPtr,
        ptr.object()->addr != 0,
        *ptr.object()->tag is Str,
        (*ptr.object()->tag)->Str_0@ == before.name(),
        *ptr.object()->prot == Robj::Null,
        ptr.object().is_tagged(name) <==> name == before.name(),
        after.wf(),
        after.name() == before.name(),
        !before.values().contains_key(ptr.object()->addr),
        after.values().contains_key(ptr.object()->addr),
        after.values()[ptr.object()->addr] == val,
        forall|a: usize| #[trigger]
            before.values().contains_key(a) ==> after.values().contains_key(a) && after.values()[a]
                == before.values()[a],
        forall|a: usize|
            a != ptr.object()->addr && !before.values().contains_key(a)
                ==> !#[trigger] after.values().contains_key(a),
{
}

/// A write changes the value at the pointer's address and leaves everything else, also which
/// addresses are in use.
pub proof fn law_write_changes_one_value<T>(
    before: Store<T>,
    after: Store<T>,
    ptr: ExternalPtr<T>,
    val: T,
)
    requires
        ptr.is_live(before),
        written(before, after, ptr, val),
    ensures
        after.wf(),
        after.name() == before.name(),
        after.values()[ptr.object()->addr] == val,
        forall|a: usize| #[trigger]
            after.values().contains_key(a) <==> before.values().contains_key(a),
        forall|a: usize|
            a != ptr.object()->addr && before.values().contains_key(a) ==> #[trigger] after.values()[a]
                == before.values()[a],
{
    assert(before.values().contains_key(ptr.object()->addr));
}

/// A pointer is the object it contains: it is live where the object's address is in use, and leads
/// to what is there. Two pointers that contain one object lead to the same, and so does the R
/// object that a pointer turns into.
pub proof fn law_pointer_is_its_object<T>(
    ptr: ExternalPtr<T>,
    other: ExternalPtr<T>,
    store: Store<T>,
)
    ensures
        ptr.wf() <==> ptr.object() is ExternalPtr,
        ptr.address() == ptr.object()->addr,
        ptr.is_live(store) <==> ptr.object() is ExternalPtr && store.values().contains_key(
            ptr.object()->addr,
        ),
        ptr.value(store) == store.values()[ptr.object()->addr],
        ptr.object() == other.object() ==> ptr.is_live(store) == other.is_live(store) && ptr.value(
            store,
        ) == other.value(store),
        <Robj as vstd::std_specs::convert::FromSpec<ExternalPtr<T>>>::from_spec(ptr)
            == ptr.object(),
{
}

/// The finalizer leaves an external pointer with no address and no tag, and what it kept it keeps.
/// The value at the address it had is handed back, and no other leaves the store.
pub proof fn law_finalizer_clears_the_object<T>(
    before: Store<T>,
    after: Store<T>,
    x: Robj,
    cleared: Robj,
    val: T,
)
    requires
        finalized(before, after, x, cleared, val),
    ensures
        cleared is ExternalPtr,
        cleared->addr == 0,
        *cleared->tag == Robj::Null,
        cleared->prot == x->prot,
        val == before.values()[x->addr],
        after.wf(),
        after.name() == before.name(),
        forall|a: usize| #[trigger]
            after.values().contains_key(a) <==> before.values().contains_key(a) && a != x->addr,
        forall|a: usize|
            a != x->addr && before.values().contains_key(a) ==> #[trigger] after.values()[a]
                == before.values()[a],
{
}

/// There is room where an address other than zero is free, and only there.
pub proof fn law_free_addresses_are_room<T>(store: Store<T>)
    ensures
        forall|a: usize| a != 0 && !#[trigger] store.values().contains_key(a) ==> store.has_room(),
        store.has_room() ==> exists|a: usize| a != 0 && !#[trigger] store.values().contains_key(a),
{
}

} // verus!
