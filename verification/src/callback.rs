//! Callbacks: what a widget runs when it is clicked.

use vstd::prelude::*;
use std::marker::PhantomData;
use std::rc::Rc;

verus! {

/// Something that can be run to get a `T`.
pub trait Handler<T> {
    /// Whether a run may return `r`.
    spec fn yields(&self, r: T) -> bool;

    /// Runs the handler.
    fn fire(&self) -> (r: T)
        ensures
            self.yields(r),
    ;
}

/// A handler that runs a closure. The closure can always be called.
#[verifier::reject_recursive_types(T)]
#[verifier::reject_recursive_types(F)]
pub struct FnHandler<T, F: Fn() -> T> {
    f: F,
    _p: PhantomData<T>,
}

impl<T, F: Fn() -> T> FnHandler<T, F> {
    #[verifier::type_invariant]
    spec fn callable(self) -> bool {
        call_requires(self.f, ())
    }

    /// The closure that this handler runs.
    pub closed spec fn func(self) -> F {
        self.f
    }

    /// Wraps a closure that can be called.
    pub fn new(func: F) -> (h: Self)
        requires
            call_requires(func, ()),
        ensures
            h.func() == func,
    {
        FnHandler { f: func, _p: PhantomData }
    }
}

impl<T, F: Fn() -> T> Handler<T> for FnHandler<T, F> {
    open spec fn yields(&self, r: T) -> bool {
        call_ensures(self.func(), (), r)
    }

    fn fire(&self) -> (r: T) {
        proof {
            use_type_invariant(self);
        }
        (self.f)()
    }
}

/// A handler that returns the same value every time.
pub struct Constant<T: Copy> {
    value: T,
}

impl<T: Copy> Constant<T> {
    /// The value that this handler returns.
    pub closed spec fn value(self) -> T {
        self.value
    }

    pub fn new(value: T) -> (h: Self)
        ensures
            h.value() == value,
    {
        Constant { value }
    }
}

impl<T: Copy> Handler<T> for Constant<T> {
    open spec fn yields(&self, r: T) -> bool {
        r == self.value()
    }

    fn fire(&self) -> (r: T) {
        self.value
    }
}

/// `Rc::clone`: a second handle on the same value. The contract says that the
/// new handle points to what the old one points to.
#[verifier::external_body]
fn share<A>(r: &Rc<A>) -> (s: Rc<A>)
    ensures
        s == r,
{
    Rc::clone(r)
}

/// Callback type: a shared handler. Clones run the same handler.
#[verifier::reject_recursive_types(T)]
pub struct Callback<T> {
    f: Rc<Box<dyn Handler<T>>>,
}

impl<T> Callback<T> {
    /// Whether a call of this callback may return `r`.
    pub closed spec fn yields(&self, r: T) -> bool {
        self.f.yields(r)
    }

    /// What this callback does, as the set of values that a call may return.
    pub open spec fn behavior(&self) -> spec_fn(T) -> bool {
        |r: T| self.yields(r)
    }

    /// Call this callback.
    pub fn call(&self) -> (r: T)
        ensures
            self.yields(r),
    {
        self.f.fire()
    }

    /// Makes a callback of a closure: a call returns what the closure returns.
    pub fn from<F: Fn() -> T + 'static>(func: F) -> (c: Self) where T: 'static
        requires
            call_requires(func, ()),
        ensures
            forall|r: T| #[trigger] c.yields(r) <==> call_ensures(func, (), r),
    {
        let handler: Box<dyn Handler<T>> = Box::new(FnHandler::new(func));
        let ghost boxed = handler;
        let shared = Rc::new(handler);
        assert(shared == boxed);
        assert(forall|r: T| shared.yields(r) <==> call_ensures(func, (), r));
        Callback { f: shared }
    }
}

impl<T: Copy + 'static> Callback<T> {
    /// The behaviour of a callback that returns `value` and nothing else.
    pub open spec fn only(value: T) -> spec_fn(T) -> bool {
        |r: T| r == value
    }

    /// Makes a callback that returns `value` every time.
    pub fn always(value: T) -> (c: Self)
        ensures
            c.behavior() == Self::only(value),
    {
        let handler: Box<dyn Handler<T>> = Box::new(Constant::new(value));
        let ghost boxed = handler;
        let shared = Rc::new(handler);
        assert(shared == boxed);
        let c = Callback { f: shared };
        assert(c.behavior() =~= Self::only(value));
        c
    }
}

impl<T> Clone for Callback<T> {
    fn clone(&self) -> (c: Self)
        ensures
            c == *self,
    {
        Callback { f: share(&self.f) }
    }
}

} // verus!
