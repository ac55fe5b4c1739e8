use crate::mono::Mono;
use crate::shard::ShardId;
use vstd::prelude::*;

verus! {

/// A value that may travel to other shards but remembers the shard it was
/// created on (its origin). Resources owned by such a value are released
/// on the origin shard: see [`Foreign::release`].
pub struct Foreign<T> {
    object: T,
    origin: ShardId,
}

/// How to release a foreign value that is being dropped on some shard.
pub enum Release<T> {
    /// Drop the value right here.
    DropHere(T),
    /// Send the value back to this shard and drop it there.
    SendHome(ShardId, Foreign<T>),
}

/// Wraps `object` as a foreign value created on shard `origin`.
pub fn create_foreign_ptr<T>(object: T, origin: ShardId) -> (r: Foreign<T>)
    ensures
        r.value() == object,
        r.origin() == origin,
{
    Foreign { object, origin }
}

/// Applies `f` to the thread-bound view of the value; the result keeps the
/// origin of `ptr`.
pub fn transform_foreign<T, U, F>(ptr: Foreign<T>, f: F) -> (r: Foreign<U>)
    where
        F: FnOnce(Mono<T>) -> Mono<U>,
    requires
        forall|m: Mono<T>| m.value() == ptr.value() ==> #[trigger] f.requires((m,)),
    ensures
        r.origin() == ptr.origin(),
        exists|m: Mono<T>, n: Mono<U>|
            #![trigger f.ensures((m,), n)]
            m.value() == ptr.value() && f.ensures((m,), n) && n.value() == r.value(),
{
    let origin = ptr.origin;
    let m = Mono::from_const(ptr.object);
    let ghost gm = m;
    let n = f(m);
    let ghost gn = n;
    assert(gm.value() == ptr.value() && f.ensures((gm,), gn) && gn.value() == n.value());
    Foreign { object: n.into_inner(), origin }
}

impl<T> Foreign<T> {
    /// The carried value.
    pub closed spec fn value(self) -> T {
        self.object
    }

    /// The shard the value was created on.
    pub closed spec fn origin(self) -> ShardId {
        self.origin
    }

    /// Wraps `value`, created on shard `origin`.
    pub fn new(value: T, origin: ShardId) -> (r: Self)
        ensures
            r.value() == value,
            r.origin() == origin,
    {
        Foreign { object: value, origin }
    }

    /// The shard the value was created on.
    pub fn origin_shard(&self) -> (r: ShardId)
        ensures
            r == self.origin(),
    {
        self.origin
    }

    /// Takes the carried value out, leaving the origin behind.
    pub fn into_value(self) -> (r: T)
        ensures
            r == self.value(),
    {
        self.object
    }

    /// A shared reference to the carried value.
    pub fn get(&self) -> (r: &T)
        ensures
            *r == self.value(),
    {
        &self.object
    }

    /// Applies `f` to the carried value, keeping the origin.
    pub fn project<F, R>(self, f: F) -> (r: Foreign<R>)
        where
            F: FnOnce(T) -> R,
        requires
            f.requires((self.value(),)),
        ensures
            f.ensures((self.value(),), r.value()),
            r.origin() == self.origin(),
    {
        Foreign { object: f(self.object), origin: self.origin }
    }

    /// Applies a fallible `f` to the carried value; both the success and
    /// the error keep the origin.
    pub fn try_project<F, R, E>(self, f: F) -> (r: Result<Foreign<R>, Foreign<E>>)
        where
            F: FnOnce(T) -> Result<R, E>,
        requires
            f.requires((self.value(),)),
        ensures
            match r {
                Ok(good) => f.ensures((self.value(),), Ok::<R, E>(good.value())) && good.origin()
                    == self.origin(),
                Err(bad) => f.ensures((self.value(),), Err::<R, E>(bad.value())) && bad.origin()
                    == self.origin(),
            },
    {
        let origin = self.origin;
        match f(self.object) {
            Ok(good) => Ok(Foreign { object: good, origin }),
            Err(bad) => Err(Foreign { object: bad, origin }),
        }
    }

    /// Decides where the value must be released when it is dropped on shard
    /// `current`: a value whose type needs no drop glue, or that is already
    /// home, is dropped here; otherwise it goes back to its origin.
    pub fn release(self, current: ShardId, needs_drop: bool) -> (r: Release<T>)
        ensures
            r == release_decision(self, current, needs_drop),
    {
        if needs_drop && current != self.origin {
            let origin = self.origin;
            Release::SendHome(origin, self)
        } else {
            Release::DropHere(self.object)
        }
    }
}

impl<T> std::ops::Deref for Foreign<T> {
    type Target = T;

    fn deref(&self) -> (r: &T)
        ensures
            *r == self.value(),
    {
        &self.object
    }
}

impl<T, O> Foreign<Result<T, O>> {
    /// Moves the `Result` out: the success value stays foreign with the
    /// same origin, the error is handed back bare.
    pub fn invert_result(self) -> (r: Result<Foreign<T>, O>)
        ensures
            match self.value() {
                Ok(v) => r is Ok && r->Ok_0.value() == v && r->Ok_0.origin() == self.origin(),
                Err(e) => r == Err::<Foreign<T>, O>(e),
            },
    {
        let origin = self.origin;
        match self.object {
            Ok(v) => Ok(Foreign { object: v, origin }),
            Err(e) => Err(e),
        }
    }
}

impl<T> Mono<T> {
    /// Turns a thread-bound value created on shard `origin` into one that
    /// may travel to other shards.
    pub fn make_foreign(self, origin: ShardId) -> (r: Foreign<T>)
        ensures
            r.value() == self.value(),
            r.origin() == origin,
    {
        Foreign { object: self.into_inner(), origin }
    }
}

/// What releasing `f` on shard `current` decides.
pub open spec fn release_decision<T>(f: Foreign<T>, current: ShardId, needs_drop: bool) -> Release<
    T,
> {
    if needs_drop && current != f.origin() {
        Release::SendHome(f.origin(), f)
    } else {
        Release::DropHere(f.value())
    }
}

/// A value whose type needs drop glue is dropped on its origin shard: a
/// release elsewhere sends it home, and releasing it there drops it.
pub proof fn law_release_ends_at_origin<T>(f: Foreign<T>, current: ShardId)
    ensures
        match release_decision(f, current, true) {
            Release::SendHome(home, g) => home == f.origin() && g.origin() == home
                && release_decision(g, home, true) == Release::DropHere(f.value()),
            Release::DropHere(v) => current == f.origin() && v == f.value(),
        },
{
}

} // verus!
