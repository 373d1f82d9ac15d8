//! What the components of a path are.
use vstd::prelude::*;

use super::{component_end, component_end_bounds, split_from, split_has_no_slash, split_path};

verus! {

/// `parts` with a slash between each two.
pub open spec fn joined(parts: Seq<Seq<u8>>) -> Seq<u8>
    decreases parts.len(),
{
    if parts.len() == 0 {
        Seq::empty()
    } else if parts.len() == 1 {
        parts[0]
    } else {
        parts[0] + seq![47u8] + joined(parts.skip(1))
    }
}

proof fn the_rest_joins_back(bytes: Seq<u8>, from: int)
    requires
        0 <= from <= bytes.len(),
    ensures
        joined(split_from(bytes, from)) == bytes.skip(from),
        split_from(bytes, from).len() >= 1,
    decreases bytes.len() - from,
{
    component_end_bounds(bytes, from);
    let end = component_end(bytes, from);
    let parts = split_from(bytes, from);
    if end < bytes.len() {
        the_rest_joins_back(bytes, end + 1);
        assert(parts.skip(1) =~= split_from(bytes, end + 1));
        assert(joined(parts) =~= bytes.skip(from));
    } else {
        assert(joined(parts) =~= bytes.skip(from));
    }
}

/// The components of a path, joined by slashes, are the path, and no component holds a
/// slash: so they are its pieces between slashes, all of them, in order.
pub proof fn a_path_is_its_components(bytes: Seq<u8>)
    ensures
        joined(split_path(bytes)) == bytes,
        split_path(bytes).len() >= 1,
        forall|k: int| #![trigger split_path(bytes)[k]]
            0 <= k < split_path(bytes).len() ==> !split_path(bytes)[k].contains(47u8),
{
    the_rest_joins_back(bytes, 0);
    assert(bytes.skip(0) =~= bytes);
    split_has_no_slash(bytes, 0);
    assert forall|k: int| #![trigger split_path(bytes)[k]]
        0 <= k < split_path(bytes).len() implies !split_path(bytes)[k].contains(47u8) by {
        assert forall|j: int| 0 <= j < split_path(bytes)[k].len() implies split_path(bytes)[k][j]
            != 47u8 by {
            assert(split_from(bytes, 0)[k][j] != 47u8);
        }
    }
}

} // verus!
