//! The strong and weak handle types and their identity model.
//!
//! Both handle types pair an opaque reference into a control block
//! ([`block::StrongRef`] / [`block::WeakRef`]) with the plain address of that
//! block. The address is the handle's *identity*: the view of a strong
//! handle is its block address (an `int`), the view of a weak handle is
//! `Some(address)` or `None` for the empty handle. All equality in this
//! module is identity equality — same control block, never value equality —
//! and is verified directly over the stored addresses: two live handles
//! reference the same allocation exactly when their addresses are equal,
//! because each live handle keeps its own allocation alive.
//!
//! The reference counts live in the shared control block and change whenever
//! any handle anywhere is created or dropped, so the count getters are
//! best-effort snapshots; their contracts state only what holding this one
//! handle guarantees.

use vstd::prelude::*;

use crate::block;
use crate::block::StrongRef;
use crate::block::WeakRef;

verus! {

/// A strong, owning handle: while it lives, the value in its control block
/// is alive and may be read and overwritten through any strong handle.
#[verifier::reject_recursive_types(T)]
pub struct Arc<T> {
    repr: StrongRef<T>,
    addr: usize,
}

/// A weak, observing handle: it keeps only the control block alive and can
/// attempt to promote itself to a strong handle. It may also be empty,
/// referencing no allocation at all.
#[verifier::reject_recursive_types(T)]
pub struct Weak<T> {
    repr: WeakRef<T>,
    addr: Option<usize>,
}

impl<T> View for Arc<T> {
    type V = int;

    closed spec fn view(&self) -> int {
        self.addr as int
    }
}

impl<T> View for Weak<T> {
    type V = Option<int>;

    closed spec fn view(&self) -> Option<int> {
        match self.addr {
            None => None,
            Some(a) => Some(a as int),
        }
    }
}

/// Two strong handles are identity-equal: they reference the same control
/// block, whatever the values stored there.
pub open spec fn same_block<T>(a: &Arc<T>, b: &Arc<T>) -> bool {
    a@ == b@
}

/// A weak handle refers to the control block of a strong handle.
pub open spec fn refers_to<T>(w: &Weak<T>, s: &Arc<T>) -> bool {
    w@ == Some(s@)
}

impl<T> Arc<T> {
    /// Allocates a fresh control block holding `value`, with a strong count
    /// of 1 and a weak count of 0. The new handle's identity is the address
    /// of that block, distinct from the identity of every other live handle.
    pub fn new(value: T) -> Arc<T> {
        let repr = block::allocate(value);
        let addr = block::address(&repr);
        Arc { repr, addr }
    }

    /// A new weak handle observing this handle's control block; increments
    /// the weak count and leaves the strong count unchanged.
    pub fn downgrade(&self) -> (w: Weak<T>)
        ensures
            refers_to(&w, self),
    {
        Weak { repr: block::downgrade(&self.repr), addr: Some(self.addr) }
    }

    /// True exactly when `other` observes this handle's control block.
    ///
    /// While `self` is alive its block cannot be torn down, so the identity
    /// test needs no transient promotion of `other`: comparing block
    /// addresses gives the same answer, without touching the counts.
    pub fn eq_weak(&self, other: &Weak<T>) -> (r: bool)
        ensures
            r == refers_to(other, self),
    {
        match &other.addr {
            None => false,
            Some(a) => *a == self.addr,
        }
    }

    /// The identity of this handle's control block as an opaque token; no
    /// count changes.
    pub fn inner_ptr(&self) -> (r: RawIdentity<T>)
        ensures
            r@ == Some(self@),
    {
        RawIdentity { addr: Some(self.addr), marker: core::marker::PhantomData }
    }

    /// A snapshot of the block's strong count: at least 1, since `self` owns
    /// one strong unit. Other handles may change the count at any time, so
    /// this is a best-effort diagnostic, not a synchronization primitive.
    pub fn strong_count(&self) -> (n: usize)
        ensures
            n >= 1,
    {
        block::strong_count_of(&self.repr)
    }

    /// A snapshot of the block's weak count; best-effort, as for
    /// [`strong_count`](Self::strong_count).
    pub fn weak_count(&self) -> usize {
        block::weak_count_of(&self.repr)
    }

    /// Overwrites the value in the control block.
    ///
    /// Every live strong handle aliases the same cell: the new value is seen
    /// through all of them, and nothing arbitrates concurrent writes.
    /// Coordinating writers is the caller's responsibility. Identity is
    /// untouched: no handle's equality to any other changes.
    pub fn set_value(&self, value: T) {
        block::store(&self.repr, value);
    }

    /// Consumes this handle into a one-shot ownership claim. The owned
    /// strong unit is transferred, not duplicated: no count changes.
    pub fn into_raw_identity_consuming(self) -> (c: StrongClaim<T>)
        ensures
            c@ == self@,
    {
        StrongClaim { inner: self }
    }

    /// Reconstructs a strong handle from a claim produced by
    /// [`into_raw_identity_consuming`](Self::into_raw_identity_consuming).
    /// The claim is consumed exactly once, so the owned strong unit cannot
    /// be duplicated; no count changes.
    pub fn from_raw_identity(claim: StrongClaim<T>) -> (r: Arc<T>)
        ensures
            r@ == claim@,
    {
        claim.inner
    }
}

impl<T: Copy> Arc<T> {
    /// A copy of the value currently in the control block — the most recent
    /// write through any strong handle.
    pub fn get_value(&self) -> T {
        block::load(&self.repr)
    }
}

impl<T: Default> Default for Arc<T> {
    /// A fresh control block holding `T::default()`, with a strong count of
    /// 1 and a weak count of 0.
    fn default() -> Self {
        Arc::new(T::default())
    }
}

impl<T> Clone for Arc<T> {
    /// A second owning handle to the same control block; increments the
    /// strong count and leaves the weak count unchanged.
    fn clone(&self) -> (r: Self)
        ensures
            same_block(&r, self),
    {
        Arc { repr: block::clone_strong(&self.repr), addr: self.addr }
    }
}

impl<T> PartialEq for Arc<T> {
    fn eq(&self, other: &Self) -> bool {
        self.addr == other.addr
    }
}

impl<T> vstd::std_specs::cmp::PartialEqSpecImpl for Arc<T> {
    open spec fn obeys_eq_spec() -> bool {
        true
    }

    open spec fn eq_spec(&self, other: &Arc<T>) -> bool {
        same_block(self, other)
    }
}

impl<T> Eq for Arc<T> {}

impl<T> Weak<T> {
    /// An empty weak handle: it references no allocation, performs no
    /// allocation, and upgrading it always fails.
    pub fn new() -> (w: Weak<T>)
        ensures
            w@ is None,
    {
        Weak { repr: block::dangling(), addr: None }
    }

    /// Attempts to promote this handle to a strong one. The attempt is a
    /// single atomic check-and-increment on the strong count: it succeeds
    /// exactly when the count is still positive at that moment, so no handle
    /// is ever created for a value already dropped. An empty handle always
    /// fails.
    pub fn upgrade(&self) -> (r: Option<Arc<T>>)
        ensures
            self@ is None ==> r is None,
            r matches Some(u) ==> Some(u@) == self@,
    {
        match &self.addr {
            None => None,
            Some(a) => match block::upgrade(&self.repr) {
                None => None,
                Some(repr) => Some(Arc { repr, addr: *a }),
            },
        }
    }

    /// True when [`upgrade`](Self::upgrade) would currently succeed. The
    /// answer may already be stale by the time the caller acts on it; only
    /// `false` for an empty handle is final.
    pub fn upgradable(&self) -> (r: bool)
        ensures
            self@ is None ==> r == false,
            r ==> self@ is Some,
    {
        self.upgrade().is_some()
    }

    /// True exactly when this handle observes `other`'s control block — the
    /// mirror of [`Arc::eq_weak`], and symmetric to it.
    pub fn eq_arc(&self, other: &Arc<T>) -> (r: bool)
        ensures
            r == refers_to(self, other),
    {
        match &self.addr {
            None => false,
            Some(a) => *a == other.addr,
        }
    }

    /// The identity of the observed control block as an opaque token, empty
    /// for an empty handle; no count changes.
    pub fn inner_ptr(&self) -> (r: RawIdentity<T>)
        ensures
            r@ == self@,
    {
        RawIdentity { addr: self.addr, marker: core::marker::PhantomData }
    }

    /// A snapshot of the observed block's strong count; 0 for an empty
    /// handle. Best-effort, as for [`Arc::strong_count`].
    pub fn strong_count(&self) -> (n: usize)
        ensures
            self@ is None ==> n == 0,
    {
        match &self.addr {
            None => 0,
            Some(_) => block::strong_count_behind(&self.repr),
        }
    }

    /// A snapshot of the observed block's weak count; 0 for an empty handle,
    /// and 0 once no strong handles remain. Best-effort, as for
    /// [`Arc::strong_count`].
    pub fn weak_count(&self) -> (n: usize)
        ensures
            self@ is None ==> n == 0,
    {
        match &self.addr {
            None => 0,
            Some(_) => block::weak_count_behind(&self.repr),
        }
    }

    /// Consumes this handle into a one-shot ownership claim. The owned weak
    /// unit is transferred, not duplicated: no count changes.
    pub fn into_raw_identity_consuming(self) -> (c: WeakClaim<T>)
        ensures
            c@ == self@,
    {
        WeakClaim { inner: self }
    }

    /// Reconstructs a weak handle from a claim produced by
    /// [`into_raw_identity_consuming`](Self::into_raw_identity_consuming).
    /// The claim is consumed exactly once; no count changes.
    pub fn from_raw_identity(claim: WeakClaim<T>) -> (r: Weak<T>)
        ensures
            r@ == claim@,
    {
        claim.inner
    }
}

impl<T: Copy> Weak<T> {
    /// A copy of the observed value, when it is still alive.
    ///
    /// The read promotes this handle for the duration of the call: the
    /// temporary strong handle is released before returning, so the strong
    /// count is left as it was found and no ownership leaks.
    pub fn get(&self) -> (r: Option<T>)
        ensures
            self@ is None ==> r is None,
    {
        match self.upgrade() {
            None => None,
            Some(s) => Some(s.get_value()),
        }
    }
}

impl<T> Clone for Weak<T> {
    /// A second observer of the same control block; increments the weak
    /// count. Cloning an empty handle yields an empty handle and changes no
    /// count.
    fn clone(&self) -> (r: Self)
        ensures
            r@ == self@,
    {
        Weak { repr: block::clone_weak(&self.repr), addr: self.addr }
    }
}

impl<T> Default for Weak<T> {
    fn default() -> (w: Self)
        ensures
            w@ is None,
    {
        Weak::new()
    }
}

impl<T> PartialEq for Weak<T> {
    fn eq(&self, other: &Self) -> bool {
        match (&self.addr, &other.addr) {
            (None, None) => true,
            (Some(a), Some(b)) => *a == *b,
            _ => false,
        }
    }
}

impl<T> vstd::std_specs::cmp::PartialEqSpecImpl for Weak<T> {
    open spec fn obeys_eq_spec() -> bool {
        true
    }

    open spec fn eq_spec(&self, other: &Weak<T>) -> bool {
        self@ == other@
    }
}

impl<T> Eq for Weak<T> {}

/// An opaque, address-based identity token: the identity of a handle's
/// control block, usable for comparison and hashing, never for
/// reconstruction. Empty when taken from an empty weak handle.
#[derive(Debug, Hash)]
pub struct RawIdentity<T> {
    addr: Option<usize>,
    marker: core::marker::PhantomData<T>,
}

impl<T> View for RawIdentity<T> {
    type V = Option<int>;

    closed spec fn view(&self) -> Option<int> {
        match self.addr {
            None => None,
            Some(a) => Some(a as int),
        }
    }
}

impl<T> PartialEq for RawIdentity<T> {
    fn eq(&self, other: &Self) -> bool {
        match (&self.addr, &other.addr) {
            (None, None) => true,
            (Some(a), Some(b)) => *a == *b,
            _ => false,
        }
    }
}

impl<T> vstd::std_specs::cmp::PartialEqSpecImpl for RawIdentity<T> {
    open spec fn obeys_eq_spec() -> bool {
        true
    }

    open spec fn eq_spec(&self, other: &RawIdentity<T>) -> bool {
        self@ == other@
    }
}

impl<T> Eq for RawIdentity<T> {}

/// A one-shot claim on the strong unit of a consumed strong handle. It can
/// be moved freely and is redeemed exactly once by
/// [`Arc::from_raw_identity`]; the type system rules out redeeming it twice
/// or forging one from a bare address.
#[verifier::reject_recursive_types(T)]
pub struct StrongClaim<T> {
    inner: Arc<T>,
}

impl<T> View for StrongClaim<T> {
    type V = int;

    closed spec fn view(&self) -> int {
        self.inner@
    }
}

/// A one-shot claim on the weak unit of a consumed weak handle, redeemed
/// exactly once by [`Weak::from_raw_identity`].
#[verifier::reject_recursive_types(T)]
pub struct WeakClaim<T> {
    inner: Weak<T>,
}

impl<T> View for WeakClaim<T> {
    type V = Option<int>;

    closed spec fn view(&self) -> Option<int> {
        self.inner@
    }
}

} // verus!
