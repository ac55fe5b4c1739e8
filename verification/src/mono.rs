use std::marker::PhantomData;
use std::rc::Rc;
use vstd::prelude::*;
use vstd::std_specs::convert::FromSpec;

verus! {

/// A value bound to the shard (thread) that created it. The marker keeps
/// the wrapper from being sent to another thread; to hand a value to
/// another shard, turn it into a [`crate::foreign::Foreign`].
#[derive(PartialEq, Eq, Hash)]
pub struct Mono<T> {
    internal: T,
    _marker: PhantomData<Rc<()>>,
}

/// Marker for values that stay on their shard.
pub struct Local;

/// Marker for values that may travel to other shards.
pub struct Forn;

impl<T> Mono<T> {
    /// The wrapped value.
    pub closed spec fn value(self) -> T {
        self.internal
    }

    /// Wraps `x`.
    pub fn from_const(x: T) -> (r: Self)
        ensures
            r.value() == x,
    {
        Mono { internal: x, _marker: PhantomData }
    }

    /// Unwraps the value.
    pub fn into_inner(self) -> (r: T)
        ensures
            r == self.value(),
    {
        self.internal
    }

    /// A shared reference to the wrapped value.
    pub fn get(&self) -> (r: &T)
        ensures
            *r == self.value(),
    {
        &self.internal
    }

    /// A mutable reference to the wrapped value.
    pub fn get_mut(&mut self) -> (r: &mut T)
        ensures
            *r == old(self).value(),
            final(self).value() == *final(r),
    {
        &mut self.internal
    }

    /// Applies `f` to the wrapped value, keeping the result bound to the
    /// same thread.
    pub fn project<F, R>(self, f: F) -> (r: Mono<R>)
        where
            F: FnOnce(T) -> R,
        requires
            f.requires((self.value(),)),
        ensures
            f.ensures((self.value(),), r.value()),
    {
        Mono { internal: f(self.internal), _marker: PhantomData }
    }
}

impl<T> Mono<T> {
    /// Wraps the conversion of `value` into `T`.
    pub fn from_inner<A>(value: A) -> (r: Mono<T>)
        where
            T: From<A>,
        ensures
            call_ensures(<T as From<A>>::from, (value,), r.value()),
            T::obeys_from_spec() ==> r.value() == T::from_spec(value),
    {
        Mono::from_const(T::from(value))
    }
}

impl<T, O> Mono<Result<T, O>> {
    /// Moves the `Result` out of the wrapper: the success value stays
    /// wrapped, the error is handed back bare.
    pub fn invert_result(self) -> (r: Result<Mono<T>, O>)
        ensures
            match self.value() {
                Ok(v) => r is Ok && r->Ok_0.value() == v,
                Err(e) => r == Err::<Mono<T>, O>(e),
            },
    {
        match self.internal {
            Ok(v) => Ok(Mono::from_const(v)),
            Err(e) => Err(e),
        }
    }
}

impl<T: Clone> Clone for Mono<T> {
    /// A clone of the wrapped value, bound to the same thread.
    fn clone(&self) -> (r: Self)
        ensures
            cloned(self.value(), r.value()),
    {
        Mono::from_const(self.internal.clone())
    }
}

impl<T> From<T> for Mono<T> {
    /// Wraps `value`.
    fn from(value: T) -> (r: Self)
        ensures
            r.value() == value,
    {
        Mono::from_const(value)
    }
}

impl<T> vstd::std_specs::convert::FromSpecImpl<T> for Mono<T> {
    open spec fn obeys_from_spec() -> bool {
        true
    }

    closed spec fn from_spec(v: T) -> Self {
        Mono { internal: v, _marker: PhantomData }
    }
}

impl<T: Default> Default for Mono<T> {
    /// Wraps the default value of `T`.
    fn default() -> (r: Self)
        ensures
            call_ensures(T::default, (), r.value()),
    {
        Mono::from_const(T::default())
    }
}

impl<T> std::ops::Deref for Mono<T> {
    type Target = T;

    fn deref(&self) -> (r: &T)
        ensures
            *r == self.value(),
    {
        &self.internal
    }
}

} // verus!
