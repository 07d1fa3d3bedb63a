//! Requests: what the driver is asked to create, in one go and in order.
use crate::utils::buffer::BufferCreation;
use crate::utils::image::ImageCreation;
use crate::vk::ImageViewCreateInfo;
use vstd::prelude::*;

verus! {

/// One object that the driver is asked to create.
#[derive(Clone, Copy, Debug, PartialEq, Eq, Structural)]
pub enum Request {
    /// A fence, with the given flags.
    Fence(u32),
    Semaphore,
    ImageView(ImageViewCreateInfo),
    Image(ImageCreation),
    Buffer(BufferCreation),
}

/// Requests can be made, and every one of them is answered by a handle.
pub open spec fn answerable<Q, M: FnOnce(Vec<Q>) -> Vec<u64>>(make: M, requests: Seq<Q>) -> bool {
    &&& forall|list: Vec<Q>| list@ == requests ==> #[trigger] make.requires((list,))
    &&& forall|list: Vec<Q>, answer: Vec<u64>|
        list@ == requests && #[trigger] make.ensures((list,), answer) ==> answer@.len()
            == requests.len()
}

/// Requests were made, in their order, and these are the handles that answer them, one by one.
pub open spec fn answered<Q, M: FnOnce(Vec<Q>) -> Vec<u64>>(
    make: M,
    requests: Seq<Q>,
    handles: Seq<u64>,
) -> bool {
    &&& handles.len() == requests.len()
    &&& exists|list: Vec<Q>, answer: Vec<u64>|
        list@ == requests && answer@ == handles && #[trigger] make.ensures((list,), answer)
}

/// Makes requests. `make` can be called once only, so that nothing is asked for besides.
pub(crate) fn ask<Q, M: FnOnce(Vec<Q>) -> Vec<u64>>(make: M, requests: Vec<Q>) -> (r: Vec<u64>)
    requires
        answerable(make, requests@),
    ensures
        answered(make, requests@, r@),
{
    let ghost list = requests;
    let r: Vec<u64> = make(requests);
    assert(make.ensures((list,), r));
    r
}

} // verus!
