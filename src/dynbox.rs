use vstd::layout::{align_of, size_of};
use vstd::prelude::*;

verus! {

/// The two ways in which a `DynBox` can be misused.
#[derive(Debug, Clone, Copy, PartialEq, Eq, Structural)]
pub enum DynBoxError {
    /// The occupant's size or alignment exceeds that of the storage.
    CapacityExceeded,
    /// The box was accessed before anything was stored in it.
    EmptyAccess,
}

/// What the storage of a box holds: the seed it was created with, or the
/// value that has since been moved into it.
enum Slot<T, Space> {
    Seed(Space),
    Occupant(T),
}

/// Inline, single-slot storage for one value of `T`, sized and aligned by
/// `Space`.
pub struct DynBox<T, Space> {
    slot: Slot<T, Space>,
}

impl<T, Space> View for DynBox<T, Space> {
    type V = Option<T>;

    /// The occupant, if any.
    closed spec fn view(&self) -> Option<T> {
        match self.slot {
            Slot::Seed(_) => None,
            Slot::Occupant(v) => Some(v),
        }
    }
}

impl<T, Space> DynBox<T, Space> {
    /// Whether a value of `T` fits the storage: neither its size nor its
    /// alignment exceeds that of `Space`.
    pub open spec fn fits() -> bool {
        &&& size_of::<T>() <= size_of::<Space>()
        &&& align_of::<T>() <= align_of::<Space>()
    }

    /// Well-formedness: a box only ever holds a value that fits its storage.
    pub open spec fn wf(&self) -> bool {
        self@ is Some ==> Self::fits()
    }

    /// What an access to a box with contents `contents` yields: the
    /// occupant, or `EmptyAccess` when there is none.
    pub open spec fn access_result(contents: Option<T>) -> Result<T, DynBoxError> {
        match contents {
            Some(v) => Ok(v),
            None => Err(DynBoxError::EmptyAccess),
        }
    }

    /// The contents after an attempt to store `v` in a box with contents
    /// `contents`, and the attempt's outcome. A value that does not fit is
    /// refused and the contents stay as they were.
    pub open spec fn occupy_result(contents: Option<T>, v: T) -> (Option<T>, Result<(), DynBoxError>) {
        if Self::fits() {
            (Some(v), Ok(()))
        } else {
            (contents, Err(DynBoxError::CapacityExceeded))
        }
    }

    /// The contents after an exclusive access to a box with contents
    /// `contents` that left `v` behind the reference. An empty box has no
    /// occupant to access and stays empty.
    pub open spec fn with_occupant(contents: Option<T>, v: T) -> Option<T> {
        match contents {
            Some(_) => Some(v),
            None => None,
        }
    }

    /// `v` after `n` applications of `step`.
    pub open spec fn iterate(step: spec_fn(T) -> T, n: nat, v: T) -> T
        decreases n,
    {
        if n == 0 {
            v
        } else {
            step(Self::iterate(step, (n - 1) as nat, v))
        }
    }

    /// The contents after `n` exclusive accesses, each of which replaces the
    /// occupant `x` by `step(x)`.
    pub open spec fn stepped(contents: Option<T>, step: spec_fn(T) -> T, n: nat) -> Option<T>
        decreases n,
    {
        if n == 0 {
            contents
        } else {
            let c = Self::stepped(contents, step, (n - 1) as nat);
            match Self::access_result(c) {
                Ok(x) => Self::with_occupant(c, step(x)),
                Err(_) => c,
            }
        }
    }

    /// Accessing a box that holds nothing fails with `EmptyAccess`.
    pub proof fn lemma_empty_access_fails(b: Self)
        requires
            b@ is None,
        ensures
            Self::access_result(b@) == Err::<T, DynBoxError>(DynBoxError::EmptyAccess),
    {
    }

    /// Storing a value that fits and then accessing the box yields that
    /// value.
    pub proof fn lemma_occupy_then_access(b: Self, v: T)
        requires
            Self::fits(),
        ensures
            Self::occupy_result(b@, v).1 == Ok::<(), DynBoxError>(()),
            Self::access_result(Self::occupy_result(b@, v).0) == Ok::<T, DynBoxError>(v),
    {
    }

    /// A value too large or too strictly aligned for the storage is refused
    /// with `CapacityExceeded`, and the box keeps its former contents.
    pub proof fn lemma_oversized_rejected(b: Self, v: T)
        requires
            !Self::fits(),
        ensures
            Self::occupy_result(b@, v) == (b@, Err::<(), DynBoxError>(DynBoxError::CapacityExceeded)),
    {
    }

    /// An access that leaves the occupant as it found it changes nothing, so
    /// a second access yields the same occupant as the first.
    pub proof fn lemma_access_idempotent(b: Self)
        requires
            b@ is Some,
        ensures
            Self::with_occupant(b@, Self::access_result(b@)->Ok_0) == b@,
            Self::access_result(Self::with_occupant(b@, Self::access_result(b@)->Ok_0))
                == Self::access_result(b@),
    {
    }

    /// Changes made through exclusive accesses accumulate: after `n` accesses
    /// that each apply `step` to the occupant, the box holds the occupant it
    /// started with after `n` applications of `step`.
    pub proof fn lemma_steps_accumulate(b: Self, step: spec_fn(T) -> T, n: nat)
        requires
            b@ is Some,
        ensures
            Self::stepped(b@, step, n) == Some(Self::iterate(step, n, b@->0)),
        decreases n,
    {
        if n > 0 {
            Self::lemma_steps_accumulate(b, step, (n - 1) as nat);
        }
    }

    /// Creates an empty box whose storage holds `space`.
    pub fn empty(space: Space) -> (r: Self)
        ensures
            r.wf(),
            r@ is None,
    {
        DynBox { slot: Slot::Seed(space) }
    }

    /// Tells whether a value of `T` fits the storage of this box type.
    pub fn can_hold() -> (r: bool)
        ensures
            r == Self::fits(),
    {
        core::mem::size_of::<T>() <= core::mem::size_of::<Space>()
            && core::mem::align_of::<T>() <= core::mem::align_of::<Space>()
    }

    /// Tells whether the box holds a value.
    pub fn is_occupied(&self) -> (r: bool)
        ensures
            r == self@ is Some,
    {
        match self.slot {
            Slot::Seed(_) => false,
            Slot::Occupant(_) => true,
        }
    }

    /// Moves `val` into the storage. A previous occupant is dropped first.
    pub fn occupy(&mut self, val: T)
        requires
            Self::fits(),
        ensures
            final(self).wf(),
            final(self)@ == Some(val),
    {
        self.slot = Slot::Occupant(val);
    }

    /// Moves `val` into the storage if it fits, dropping a previous
    /// occupant; otherwise leaves the box untouched and reports
    /// `CapacityExceeded`.
    pub fn try_occupy(&mut self, val: T) -> (r: Result<(), DynBoxError>)
        requires
            old(self).wf(),
        ensures
            final(self).wf(),
            (final(self)@, r) == Self::occupy_result(old(self)@, val),
    {
        if Self::can_hold() {
            self.occupy(val);
            Ok(())
        } else {
            Err(DynBoxError::CapacityExceeded)
        }
    }

    /// Creates a box whose storage, seeded with `space`, holds `val`.
    pub fn new(val: T, space: Space) -> (r: Self)
        requires
            Self::fits(),
        ensures
            r.wf(),
            r@ == Some(val),
    {
        let mut result = Self::empty(space);
        result.occupy(val);
        result
    }

    /// Creates a box holding `val` if it fits the storage, and reports
    /// `CapacityExceeded` otherwise.
    pub fn try_new(val: T, space: Space) -> (r: Result<Self, DynBoxError>)
        ensures
            r is Ok <==> Self::fits(),
            r is Ok ==> r->Ok_0.wf() && r->Ok_0@ == Some(val),
            r is Err ==> r->Err_0 == DynBoxError::CapacityExceeded,
    {
        let mut result = Self::empty(space);
        match result.try_occupy(val) {
            Ok(()) => Ok(result),
            Err(e) => Err(e),
        }
    }

    /// A short description of the box's state, for diagnostics.
    pub fn describe(&self) -> (r: &'static str)
        ensures
            self@ is Some ==> r@ == "DynBox(occupied)"@,
            self@ is None ==> r@ == "DynBox(empty)"@,
    {
        if self.is_occupied() {
            "DynBox(occupied)"
        } else {
            "DynBox(empty)"
        }
    }

    /// Shared access to the occupant.
    pub fn deref(&self) -> (r: &T)
        requires
            self@ is Some,
        ensures
            Some(*r) == self@,
    {
        match &self.slot {
            Slot::Occupant(v) => v,
            Slot::Seed(_) => vstd::pervasive::unreached(),
        }
    }

    /// Exclusive access to the occupant. Whatever is left behind the
    /// returned reference is the box's occupant afterwards.
    pub fn deref_mut(&mut self) -> (r: &mut T)
        requires
            old(self).wf(),
            old(self)@ is Some,
        ensures
            final(self).wf(),
            Some(*r) == old(self)@,
            final(self)@ == Self::with_occupant(old(self)@, *final(r)),
    {
        match &mut self.slot {
            Slot::Occupant(v) => v,
            Slot::Seed(_) => vstd::pervasive::unreached(),
        }
    }

    /// Shared access to the occupant, or `EmptyAccess` when there is none.
    pub fn try_deref(&self) -> (r: Result<&T, DynBoxError>)
        ensures
            match r {
                Ok(v) => Self::access_result(self@) == Ok::<T, DynBoxError>(*v),
                Err(e) => Self::access_result(self@) == Err::<T, DynBoxError>(e),
            },
    {
        match &self.slot {
            Slot::Occupant(v) => Ok(v),
            Slot::Seed(_) => Err(DynBoxError::EmptyAccess),
        }
    }

    /// Exclusive access to the occupant, or `EmptyAccess` when there is none,
    /// in which case the box is left as it was.
    pub fn try_deref_mut(&mut self) -> (r: Result<&mut T, DynBoxError>)
        requires
            old(self).wf(),
        ensures
            final(self).wf(),
            match r {
                Ok(v) => {
                    &&& Self::access_result(old(self)@) == Ok::<T, DynBoxError>(*v)
                    &&& final(self)@ == Self::with_occupant(old(self)@, *final(v))
                },
                Err(e) => {
                    &&& Self::access_result(old(self)@) == Err::<T, DynBoxError>(e)
                    &&& *final(self) == *old(self)
                },
            },
    {
        match &mut self.slot {
            Slot::Occupant(v) => Ok(v),
            Slot::Seed(_) => Err(DynBoxError::EmptyAccess),
        }
    }
}

} // verus!
