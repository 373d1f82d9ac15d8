//! What a stat says of an object of the in-memory server.
use vstd::prelude::*;

use crate::contract::{BlobStat, ObjectKind};
use crate::identity::{every_identity_has_an_id, id_bytes, stat_of};
use crate::text::{digits_value, is_digit, parse_number, without_plus};
use crate::transport::{AttrMask, Nfs4Type};

use super::model::{attributes_of, first_owner, ObjectModel};

verus! {

/// Whether a stat is that of `object`, field by field.
pub open spec fn describes(stat: BlobStat, object: ObjectModel) -> bool {
    &&& stat.object_id.0@ == id_bytes(object.identity)
    &&& object.kind == Nfs4Type::Directory <==> stat.kind == ObjectKind::Directory
    &&& object.kind == Nfs4Type::Regular <==> stat.kind == ObjectKind::File
    &&& stat.len == object.data.len() as u64
    &&& stat.link_count == 1
    &&& stat.mode == object.mode
    &&& parse_number(object.owner) == Some(stat.uid)
    &&& parse_number(object.owner_group) == Some(stat.gid)
    &&& stat.modified_nanos == object.time_modify.seconds * 1_000_000_000
        + object.time_modify.nanoseconds
}

/// Whether an owner is a numeric id, the only form a stat reports.
pub open spec fn is_numeric(owner: Seq<u8>) -> bool {
    vstd::utf8::valid_utf8(owner) && parse_number(owner) is Some
}

/// Whether an object can be reported: it is a file or a directory, and its owners are
/// numeric ids.
pub open spec fn statable(object: ObjectModel) -> bool {
    &&& object.kind == Nfs4Type::Regular || object.kind == Nfs4Type::Directory
    &&& is_numeric(object.owner)
    &&& is_numeric(object.owner_group)
}

/// The owner the server gives a new object is a numeric id.
pub(crate) proof fn the_first_owner_is_numeric()
    ensures
        is_numeric(first_owner()),
{
    let owner = first_owner();
    assert(owner.len() == 1 && owner[0] == 48);
    reveal_with_fuel(vstd::utf8::valid_utf8, 2);
    reveal_with_fuel(digits_value, 2);
    assert(without_plus(owner) == owner);
    assert(is_digit(owner[0]));
    assert(owner.drop_last() =~= Seq::<u8>::empty());
}

/// A stat made of what the server answers of an object describes that object, and one
/// is made of every object that can be reported, and of no other.
pub proof fn a_stat_describes_its_object(object: ObjectModel, mask: AttrMask)
    requires
        mask.0 == AttrMask::STAT || mask.0 == AttrMask::STAT_OR_ERROR,
    ensures
        stat_of(object.identity, attributes_of(object, mask)) is Ok <==> statable(object),
        stat_of(object.identity, attributes_of(object, mask)) matches Ok(stat) ==> describes(
            stat,
            object,
        ),
{
    assert(3071u64 & 1 == 1 && 3071u64 & 4 == 4 && 3071u64 & 8 == 8 && 3071u64 & 16 == 16
        && 3071u64 & 32 == 32 && 3071u64 & 64 == 64 && 3071u64 & 128 == 128
        && 3071u64 & 256 == 256 && 3071u64 & 512 == 512) by (bit_vector);
    assert(1023u64 & 1 == 1 && 1023u64 & 4 == 4 && 1023u64 & 8 == 8 && 1023u64 & 16 == 16
        && 1023u64 & 32 == 32 && 1023u64 & 64 == 64 && 1023u64 & 128 == 128
        && 1023u64 & 256 == 256 && 1023u64 & 512 == 512) by (bit_vector);
    every_identity_has_an_id(object.identity);
    let time = object.time_modify;
    assert(i128::MIN <= time.seconds * 1_000_000_000 + time.nanoseconds <= i128::MAX);
}

} // verus!
