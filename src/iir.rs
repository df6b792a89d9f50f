use vstd::prelude::*;

verus! {

/// The history of a biquad filter, most recent first: the inputs `x0, x1,
/// x2` and the outputs `y1, y2`.
///
/// The history holds raw samples only, nothing that depends on the filter's
/// coefficients, so one history can be carried over a change of
/// coefficients without a jump.
pub open spec fn shifted<T>(xy: [T; 5], x0: T) -> Seq<T> {
    seq![x0, xy[0], xy[1], xy[2], xy[3]]
}

/// Advance a biquad history by one sample: the inputs and outputs age by
/// one slot (the oldest of each drops out) and `x0` becomes the newest
/// input. The slot of the newest output, `xy[2]`, then still holds the last
/// output; it is returned, and the caller overwrites the slot with the new
/// output.
pub fn shift_in<T: Copy>(xy: &mut [T; 5], x0: T) -> (last: T)
    ensures
        final(xy)@ == shifted(*old(xy), x0),
        last == old(xy)[2],
{
    let last = xy[2];
    xy[4] = xy[3];
    xy[3] = xy[2];
    xy[2] = xy[1];
    xy[1] = xy[0];
    xy[0] = x0;
    proof {
        assert(xy@ =~= shifted(*old(xy), x0));
    }
    last
}

} // verus!
