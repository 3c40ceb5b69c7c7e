//! The work of the workers in flight, held in a `FuturesUnordered` of the
//! `futures` crate.
//!
//! The set runs the work when the caller polls it and hands out, for each
//! worker that has run to its end, the identifier it was started under.
//! Nothing in this file is proved: it states what the `futures` crate does.

use futures::stream::FuturesUnordered;
use futures::task::LocalFutureObj;
use vstd::multiset::Multiset;
use vstd::prelude::*;

verus! {

/// `futures::stream::FuturesUnordered`, a set of futures that are polled
/// together.
#[verifier::external_type_specification]
#[verifier::external_body]
#[verifier::reject_recursive_types(Fut)]
pub struct ExFuturesUnordered<Fut>(FuturesUnordered<Fut>);

/// `futures::task::LocalFutureObj`, a boxed future of any type.
#[verifier::external_type_specification]
#[verifier::external_body]
#[verifier::reject_recursive_types(T)]
pub struct ExLocalFutureObj<'a, T>(LocalFutureObj<'a, T>);

/// What a set holds: for each future that was pushed into it and that it has
/// not yet handed out as finished, the identifier which that future yields at
/// its end.
pub uninterp spec fn held(tasks: FuturesUnordered<LocalFutureObj<'static, ((), usize)>>) -> Multiset<
    usize,
>;

/// `FuturesUnordered::new`: a set that holds no future.
#[verifier::external_body]
pub(crate) fn new_tasks() -> (tasks: FuturesUnordered<LocalFutureObj<'static, ((), usize)>>)
    ensures
        held(tasks) == Multiset::<usize>::empty(),
{
    FuturesUnordered::new()
}

/// `FuturesUnordered::push` of the work, which `futures::future::join` has
/// paired with a `futures::future::ready` that holds `id`: the set holds one
/// future more, which does the work and then yields `id` beside the work's
/// result. The future is not polled by the call.
#[verifier::external_body]
pub(crate) fn push_work(
    tasks: &mut FuturesUnordered<LocalFutureObj<'static, ((), usize)>>,
    id: usize,
    work: LocalFutureObj<'static, ()>,
)
    ensures
        held(*final(tasks)) == held(*old(tasks)).insert(id),
{
    let tagged = futures::future::join(work, futures::future::ready(id));
    tasks.push(LocalFutureObj::new(Box::new(tagged)))
}

/// `FuturesUnordered::len`: the number of futures that the set holds.
#[verifier::external_body]
pub(crate) fn count_tasks(tasks: &FuturesUnordered<LocalFutureObj<'static, ((), usize)>>) -> (count:
    usize)
    ensures
        count == held(*tasks).len(),
{
    tasks.len()
}

} // verus!
