use vstd::prelude::*;

verus! {

/// Which of two raced computations finished first.
#[derive(PartialEq, Eq, Debug)]
pub enum Select2Result<A, B> {
    Left(A),
    Right(B),
}

/// One poll of a race between two computations, the left one first.
///
/// A poll outcome is `Some(value)` when the computation is ready and `None`
/// while it is pending. The left outcome decides first: when it is ready,
/// the race is won by the left side and the right side is not polled at
/// all; otherwise the right side is polled once and wins if it is ready.
/// The race is pending (`None`) when neither is ready.
pub fn select2<A, B, F>(left: Option<A>, poll_right: F) -> (r: Option<Select2Result<A, B>>)
    where
        F: FnOnce() -> Option<B>,
    requires
        left is None ==> poll_right.requires(()),
    ensures
        left is Some ==> r == Some(Select2Result::<A, B>::Left(left->Some_0)),
        left is None ==> exists|right: Option<B>|
            #![trigger poll_right.ensures((), right)]
            poll_right.ensures((), right) && r == match right {
                Some(b) => Some(Select2Result::<A, B>::Right(b)),
                None => None::<Select2Result<A, B>>,
            },
{
    match left {
        Some(a) => Some(Select2Result::Left(a)),
        None => {
            let right = poll_right();
            match right {
                Some(b) => Some(Select2Result::Right(b)),
                None => None,
            }
        },
    }
}

} // verus!
