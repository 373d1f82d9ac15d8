//! Object identity: the `(fsid, fileid)` pair, and the translation to a stat.
//!
//! A rename changes which name resolves to an object, not the object, so a
//! [`PinnedObject`] carries the identity it proved and is never re-resolved from a
//! name. Binding a name to a new object gives that object its own identity, which
//! is how a replacement is detected. And a stat refuses when the server withheld
//! an attribute, because a plausible default would be indistinguishable from a
//! real answer.
use vstd::arithmetic::div_mod::{lemma_mul_mod_noop_left, lemma_mul_mod_noop_right};
use vstd::prelude::*;

use crate::bytes::{be_bytes, big_endian, big_endian_round_trip, radix_of_eight};
use crate::contract::{
    opt_view, res_view, umbra, BlobStat, ErrorKind, ObjectId, ObjectKind, StorageResult,
    UmbraError, UmbraErrorView,
};
use crate::error::{
    to_umbra, unproven, unproven_error, FacadeErrorView, FacadeResult,
};
use crate::handle::{FileHandle, ObjectIdentity};
use crate::text::{
    decimal, decimal_text, join, join3, parse_number, parse_u32, quoted, quoted_text, utf8_text,
};
use crate::transport::{
    getattr_answer, getattr_call, AttrMask, Attributes, AttributesView, Deadline, Nfs4Time,
    Nfs4Type, RawTransport,
};

verus! {

/// Mixed into every derived object id, so that two providers do not derive the
/// same id from equal server numbers.
pub const DOMAIN: u64 = 0x6e66_732d_7573_7200;

/// `x` rotated left by `k` bits.
pub open spec fn rotated(x: u64, k: u64) -> u64 {
    (x << k) | (x >> (64 - k) as u64)
}

/// Rotate `x` left by `k` bits.
pub(crate) fn rotate(x: u64, k: u64) -> (r: u64)
    requires
        0 < k < 64,
    ensures
        r == rotated(x, k),
{
    (x << k) | (x >> (64 - k))
}

/// Three words folded and then finalized.
pub open spec fn mixed(a: u64, b: u64, c: u64) -> u64 {
    let folded = rotated(
        rotated(a.wrapping_mul(0x9E37_79B9_7F4A_7C15), 31).wrapping_add(
            b.wrapping_mul(0xBF58_476D_1CE4_E5B9),
        ),
        27,
    ).wrapping_add(c.wrapping_mul(0x94D0_49BB_1331_11EB));
    let once = (folded ^ (folded >> 30)).wrapping_mul(0xBF58_476D_1CE4_E5B9);
    let twice = (once ^ (once >> 27)).wrapping_mul(0x94D0_49BB_1331_11EB);
    twice ^ (twice >> 31)
}

fn mix(a: u64, b: u64, c: u64) -> (r: u64)
    ensures
        r == mixed(a, b, c),
{
    let folded: u64 = rotate(
        rotate(a.wrapping_mul(0x9E37_79B9_7F4A_7C15), 31).wrapping_add(
            b.wrapping_mul(0xBF58_476D_1CE4_E5B9),
        ),
        27,
    ).wrapping_add(c.wrapping_mul(0x94D0_49BB_1331_11EB));
    let once: u64 = (folded ^ (folded >> 30)).wrapping_mul(0xBF58_476D_1CE4_E5B9);
    let twice: u64 = (once ^ (once >> 27)).wrapping_mul(0x94D0_49BB_1331_11EB);
    twice ^ (twice >> 31)
}

/// The sixteen bytes of the object id derived for `identity`.
pub open spec fn id_bytes(identity: ObjectIdentity) -> Seq<u8> {
    be_bytes(
        mixed(DOMAIN ^ identity.fsid.major, identity.fsid.minor, identity.fileid) as nat,
        8,
    ) + be_bytes(
        mixed(identity.fileid, DOMAIN ^ identity.fsid.minor, identity.fsid.major) as nat,
        8,
    )
}

/// Derive the contract object id for a server object.
///
/// The same pair always yields the same id, so identity is comparable across
/// calls, across a reconnect and across a rename.
pub fn object_id(identity: ObjectIdentity) -> (r: ObjectId)
    ensures
        r.0@ == id_bytes(identity),
{
    let high: u64 = mix(DOMAIN ^ identity.fsid.major, identity.fsid.minor, identity.fileid);
    let low: u64 = mix(identity.fileid, DOMAIN ^ identity.fsid.minor, identity.fsid.major);
    let front = big_endian(high, 8);
    let back = big_endian(low, 8);
    proof {
        big_endian_round_trip(high as nat, 8);
        big_endian_round_trip(low as nat, 8);
    }
    let mut bytes: [u8; 16] = [0u8; 16];
    let mut i: usize = 0;
    while i < 8
        invariant
            i <= 8,
            front@.len() == 8,
            back@.len() == 8,
            forall|j: int| 0 <= j < i ==> bytes@[j] == front@[j] && bytes@[j + 8] == back@[j],
        decreases 8 - i,
    {
        bytes[i] = front[i];
        bytes[i + 8] = back[i];
        i += 1;
    }
    proof {
        assert(bytes@ =~= front@ + back@);
    }
    ObjectId(bytes)
}

/// An object whose identity has been proven, pinned to the filehandle that proved it.
#[derive(Debug, PartialEq, Eq)]
pub struct PinnedObject {
    identity: ObjectIdentity,
    handle: FileHandle,
    kind: Nfs4Type,
}

/// The content of a [`PinnedObject`].
pub struct PinnedObjectView {
    /// The proven identity.
    pub identity: ObjectIdentity,
    /// The filehandle every operation on it uses.
    pub handle: Seq<u8>,
    /// The server-reported type.
    pub kind: Nfs4Type,
}

impl View for PinnedObject {
    type V = PinnedObjectView;

    closed spec fn view(&self) -> PinnedObjectView {
        PinnedObjectView {
            identity: self.identity,
            handle: self.handle@,
            kind: self.kind,
        }
    }
}

impl Clone for PinnedObject {
    fn clone(&self) -> (r: Self)
        ensures
            r@ == self@,
    {
        PinnedObject {
            identity: self.identity,
            handle: self.handle.clone(),
            kind: self.kind,
        }
    }
}

/// The identity pair a set of attributes carries.
pub open spec fn identity_in(attributes: AttributesView) -> Result<
    ObjectIdentity,
    FacadeErrorView,
> {
    match (attributes.fsid, attributes.fileid) {
        (Some(fsid), Some(fileid)) => Ok(ObjectIdentity { fsid, fileid }),
        _ => Err(
            unproven("the server did not return both fsid and fileid; identity cannot be proven"@),
        ),
    }
}

/// What adopting an object yields.
pub open spec fn adopt_pin(handle: Seq<u8>, attributes: AttributesView) -> Result<
    PinnedObjectView,
    FacadeErrorView,
> {
    match identity_in(attributes) {
        Err(error) => Err(error),
        Ok(identity) => match attributes.file_type {
            None => Err(
                unproven(
                    "the server did not return FATTR4_TYPE; the object kind is unproven"@,
                ),
            ),
            Some(kind) => Ok(PinnedObjectView { identity, handle, kind }),
        },
    }
}

/// What pinning a filehandle yields: one `PUTFH; GETATTR`.
#[verifier::opaque]
pub open spec fn pin_run<T: RawTransport>(
    world: T::World,
    handle: Seq<u8>,
    deadline: Deadline,
) -> (Result<PinnedObjectView, FacadeErrorView>, T::World) {
    let call = getattr_call(handle, AttrMask(AttrMask::STAT));
    (
        match getattr_answer(T::answer(world, call, deadline)) {
            Err(error) => Err(error),
            Ok(attributes) => adopt_pin(handle, attributes),
        },
        T::after(world, call, deadline),
    )
}

/// What fetching a pinned object's attributes yields: they are refused when they
/// describe another object.
#[verifier::opaque]
pub open spec fn revalidate_run<T: RawTransport>(
    world: T::World,
    pin: PinnedObjectView,
    deadline: Deadline,
) -> (Result<AttributesView, FacadeErrorView>, T::World) {
    let call = getattr_call(pin.handle, AttrMask(AttrMask::STAT));
    (
        match getattr_answer(T::answer(world, call, deadline)) {
            Err(error) => Err(error),
            Ok(attributes) => match identity_in(attributes) {
                Err(error) => Err(error),
                Ok(observed) => if observed == pin.identity {
                    Ok(attributes)
                } else {
                    Err(
                        unproven(
                            "filehandle now reports fileid "@ + decimal(observed.fileid as nat)
                                + " under fsid "@ + decimal(observed.fsid.major as nat) + ":"@
                                + decimal(observed.fsid.minor as nat) + ", not the pinned "@
                                + decimal(pin.identity.fileid as nat),
                        ),
                    )
                },
            },
        },
        T::after(world, call, deadline),
    )
}

/// What a stat of a pinned object yields.
#[verifier::opaque]
pub open spec fn stat_run<T: RawTransport>(
    world: T::World,
    pin: PinnedObjectView,
    deadline: Deadline,
) -> (Result<BlobStat, UmbraErrorView>, T::World) {
    let (found, after) = revalidate_run::<T>(world, pin, deadline);
    (
        match found {
            Err(error) => Err(to_umbra(error, "stat"@)),
            Ok(attributes) => stat_of(pin.identity, attributes),
        },
        after,
    )
}

impl PinnedObject {
    /// Adopt an object whose attributes were returned by the server.
    ///
    /// Refuses when the server withheld either half of the identity pair, because
    /// an object whose identity cannot be proven must not be written through.
    pub fn adopt(handle: FileHandle, attributes: &Attributes) -> (r: FacadeResult<Self>)
        ensures
            res_view(r) == adopt_pin(handle@, attributes@),
    {
        let identity = match identity_of(attributes) {
            Err(error) => {
                return Err(error);
            },
            Ok(identity) => identity,
        };
        match attributes.file_type {
            None => Err(
                unproven_error(
                    "the server did not return FATTR4_TYPE; the object kind is unproven",
                ),
            ),
            Some(kind) => Ok(PinnedObject { identity, handle, kind }),
        }
    }

    /// Look one object up and pin it, in one `PUTFH; GETATTR`.
    pub fn pin<T: RawTransport>(transport: &mut T, handle: FileHandle, deadline: Deadline) -> (r:
        FacadeResult<Self>)
        ensures
            (res_view(r), final(transport).world()) == pin_run::<T>(
                old(transport).world(),
                handle@,
                deadline,
            ),
    {
        proof {
            reveal(pin_run);
        }
        match transport.getattr(&handle, AttrMask(AttrMask::STAT), deadline) {
            Err(error) => Err(error),
            Ok(attributes) => PinnedObject::adopt(handle, &attributes),
        }
    }

    /// The proven identity. Unchanged by rename, unlink or replacement.
    pub fn identity(&self) -> (r: ObjectIdentity)
        ensures
            r == self@.identity,
    {
        self.identity
    }

    /// The contract object id for this object.
    pub fn object_id(&self) -> (r: ObjectId)
        ensures
            r.0@ == id_bytes(self@.identity),
    {
        object_id(self.identity)
    }

    /// The filehandle every operation on this object uses.
    pub fn handle(&self) -> (r: &FileHandle)
        ensures
            r@ == self@.handle,
    {
        &self.handle
    }

    /// The server-reported object type.
    pub fn kind(&self) -> (r: Nfs4Type)
        ensures
            r == self@.kind,
    {
        self.kind
    }

    /// Whether this pin names a directory.
    pub fn is_directory(&self) -> (r: bool)
        ensures
            r == (self@.kind == Nfs4Type::Directory),
    {
        self.kind == Nfs4Type::Directory
    }

    /// Fetch current attributes for the pinned object and prove they still
    /// describe it.
    pub fn revalidate<T: RawTransport>(&self, transport: &mut T, deadline: Deadline) -> (r:
        FacadeResult<Attributes>)
        ensures
            (res_view(r), final(transport).world()) == revalidate_run::<T>(
                old(transport).world(),
                self@,
                deadline,
            ),
    {
        proof {
            reveal(revalidate_run);
        }
        let attributes = match transport.getattr(
            &self.handle,
            AttrMask(AttrMask::STAT),
            deadline,
        ) {
            Err(error) => {
                return Err(error);
            },
            Ok(attributes) => attributes,
        };
        let observed = match identity_of(&attributes) {
            Err(error) => {
                return Err(error);
            },
            Ok(observed) => observed,
        };
        if observed != self.identity {
            return Err(
                unproven_error(
                    join3(
                        "filehandle now reports fileid ",
                        decimal_text(observed.fileid).as_str(),
                        " under fsid ",
                    ).concat(decimal_text(observed.fsid.major).as_str()).concat(":").concat(
                        decimal_text(observed.fsid.minor).as_str(),
                    ).concat(", not the pinned ").concat(
                        decimal_text(self.identity.fileid).as_str(),
                    ).as_str(),
                ),
            );
        }
        Ok(attributes)
    }

    /// Current stat of the pinned object.
    pub fn stat<T: RawTransport>(&self, transport: &mut T, deadline: Deadline) -> (r: StorageResult<
        BlobStat,
    >)
        ensures
            (res_view(r), final(transport).world()) == stat_run::<T>(
                old(transport).world(),
                self@,
                deadline,
            ),
    {
        proof {
            reveal(stat_run);
        }
        match self.revalidate(transport, deadline) {
            Err(error) => Err(error.to_umbra("stat")),
            Ok(attributes) => blob_stat(self.identity, &attributes),
        }
    }
}

/// The identity pair carried by a set of attributes.
pub fn identity_of(attributes: &Attributes) -> (r: FacadeResult<ObjectIdentity>)
    ensures
        res_view(r) == identity_in(attributes@),
{
    match (attributes.fsid, attributes.fileid) {
        (Some(fsid), Some(fileid)) => Ok(ObjectIdentity { fsid, fileid }),
        _ => Err(
            unproven_error(
                "the server did not return both fsid and fileid; identity cannot be proven",
            ),
        ),
    }
}

/// The failure of an attribute the server withheld.
pub open spec fn withheld(attribute: Seq<char>) -> UmbraErrorView {
    umbra(
        ErrorKind::Io,
        "stat"@,
        "the server returned no "@ + attribute + "; no plausible value is substituted"@,
    )
}

fn missing(attribute: &str) -> (r: UmbraError)
    ensures
        r@ == withheld(attribute@),
{
    UmbraError::new(
        ErrorKind::Io,
        "stat",
        join3(
            "the server returned no ",
            attribute,
            "; no plausible value is substituted",
        ).as_str(),
    )
}

/// The contract kind of a server type. A server symlink is not a logical symlink.
pub open spec fn kind_of_type(kind: Nfs4Type) -> Result<ObjectKind, UmbraErrorView> {
    match kind {
        Nfs4Type::Regular => Ok(ObjectKind::File),
        Nfs4Type::Directory => Ok(ObjectKind::Directory),
        Nfs4Type::Symlink => Err(
            umbra(
                ErrorKind::UnsupportedCapability,
                "stat"@,
                "a server-side symlink is not a logical symlink; this provider neither resolves nor reports one"@,
            ),
        ),
        Nfs4Type::Other(code) => Err(
            umbra(
                ErrorKind::UnsupportedCapability,
                "stat"@,
                "NFSv4 object type "@ + decimal(code as nat) + " has no contract object kind"@,
            ),
        ),
    }
}

fn object_kind(kind: Nfs4Type) -> (r: StorageResult<ObjectKind>)
    ensures
        match kind_of_type(kind) {
            Ok(found) => r == Ok::<ObjectKind, UmbraError>(found),
            Err(error) => r is Err && r->Err_0@ == error,
        },
{
    match kind {
        Nfs4Type::Regular => Ok(ObjectKind::File),
        Nfs4Type::Directory => Ok(ObjectKind::Directory),
        Nfs4Type::Symlink => Err(
            UmbraError::new(
                ErrorKind::UnsupportedCapability,
                "stat",
                "a server-side symlink is not a logical symlink; this provider neither resolves nor reports one",
            ),
        ),
        Nfs4Type::Other(code) => Err(
            UmbraError::new(
                ErrorKind::UnsupportedCapability,
                "stat",
                join3(
                    "NFSv4 object type ",
                    decimal_text(code as u64).as_str(),
                    " has no contract object kind",
                ).as_str(),
            ),
        ),
    }
}

/// The numeric id an owner string denotes. Only the decimal form is qualified.
pub open spec fn numeric_owner(value: Option<Seq<u8>>, attribute: Seq<char>) -> Result<
    u32,
    UmbraErrorView,
> {
    match value {
        None => Err(withheld(attribute)),
        Some(bytes) => if !vstd::utf8::valid_utf8(bytes) {
            Err(
                umbra(
                    ErrorKind::UnsupportedCapability,
                    "stat"@,
                    attribute + " is not UTF-8; no identity mapping is qualified for it"@,
                ),
            )
        } else {
            match parse_number(bytes) {
                Some(id) => Ok(id),
                None => Err(
                    umbra(
                        ErrorKind::UnsupportedCapability,
                        "stat"@,
                        attribute + " is "@ + quoted(vstd::utf8::decode_utf8(bytes))
                            + ", not an AUTH_SYS numeric id; this provider has qualified no domain identity mapping and will not invent one"@,
                    ),
                ),
            }
        },
    }
}

fn numeric_identity(value: &Option<Vec<u8>>, attribute: &str) -> (r: StorageResult<u32>)
    ensures
        res_view(r) == numeric_owner(opt_view(*value), attribute@),
{
    let bytes = match value {
        None => {
            return Err(missing(attribute));
        },
        Some(bytes) => bytes,
    };
    match utf8_text(bytes.as_slice()) {
        Err(_) => Err(
            UmbraError::new(
                ErrorKind::UnsupportedCapability,
                "stat",
                join(
                    attribute,
                    " is not UTF-8; no identity mapping is qualified for it",
                ).as_str(),
            ),
        ),
        Ok(text) => match parse_u32(bytes.as_slice()) {
            Some(id) => Ok(id),
            None => Err(
                UmbraError::new(
                    ErrorKind::UnsupportedCapability,
                    "stat",
                    join3(attribute, " is ", quoted_text(text.as_str()).as_str()).concat(
                        ", not an AUTH_SYS numeric id; this provider has qualified no domain identity mapping and will not invent one",
                    ).as_str(),
                ),
            ),
        },
    }
}

/// A time in nanoseconds since the epoch.
pub open spec fn nanos_of(time: Nfs4Time) -> int {
    time.seconds * 1_000_000_000 + time.nanoseconds
}

/// A time in nanoseconds since the epoch.
pub fn nanoseconds(time: Nfs4Time) -> (r: i128)
    ensures
        r == nanos_of(time),
{
    time.seconds as i128 * 1_000_000_000 + time.nanoseconds as i128
}

/// The object id derived for `identity`.
pub open spec fn derived_id(identity: ObjectIdentity) -> ObjectId {
    choose|id: ObjectId| #[trigger] id.0@ == id_bytes(identity)
}

proof fn derived_id_is(identity: ObjectIdentity, id: ObjectId)
    requires
        id.0@ == id_bytes(identity),
    ensures
        derived_id(identity) == id,
{
    assert(derived_id(identity).0@ == id_bytes(identity));
    assert(derived_id(identity).0 =~= id.0);
}

/// What server attributes say as a stat. Every field is required.
pub open spec fn stat_of(identity: ObjectIdentity, attributes: AttributesView) -> Result<
    BlobStat,
    UmbraErrorView,
> {
    match attributes.file_type {
        None => Err(withheld("FATTR4_TYPE"@)),
        Some(file_type) => match kind_of_type(file_type) {
            Err(error) => Err(error),
            Ok(kind) => match attributes.size {
                None => Err(withheld("FATTR4_SIZE"@)),
                Some(len) => match attributes.numlinks {
                    None => Err(withheld("FATTR4_NUMLINKS"@)),
                    Some(links) => match attributes.mode {
                        None => Err(withheld("FATTR4_MODE"@)),
                        Some(mode) => match numeric_owner(attributes.owner, "FATTR4_OWNER"@) {
                            Err(error) => Err(error),
                            Ok(uid) => match numeric_owner(
                                attributes.owner_group,
                                "FATTR4_OWNER_GROUP"@,
                            ) {
                                Err(error) => Err(error),
                                Ok(gid) => match attributes.time_modify {
                                    None => Err(withheld("FATTR4_TIME_MODIFY"@)),
                                    Some(time) => Ok(
                                        BlobStat {
                                            object_id: derived_id(identity),
                                            kind,
                                            len,
                                            link_count: links as u64,
                                            mode,
                                            uid,
                                            gid,
                                            modified_nanos: nanos_of(time) as i128,
                                        },
                                    ),
                                },
                            },
                        },
                    },
                },
            },
        },
    }
}

/// Translate server attributes into a stat.
///
/// A missing attribute is an error rather than a default, and an owner string this
/// provider has no mapping for is refused rather than given a made-up id.
pub fn blob_stat(identity: ObjectIdentity, attributes: &Attributes) -> (r: StorageResult<BlobStat>)
    ensures
        res_view(r) == stat_of(identity, attributes@),
{
    let file_type = match attributes.file_type {
        None => {
            return Err(missing("FATTR4_TYPE"));
        },
        Some(file_type) => file_type,
    };
    let kind = match object_kind(file_type) {
        Err(error) => {
            return Err(error);
        },
        Ok(kind) => kind,
    };
    let len: u64 = match attributes.size {
        None => {
            return Err(missing("FATTR4_SIZE"));
        },
        Some(len) => len,
    };
    let links: u32 = match attributes.numlinks {
        None => {
            return Err(missing("FATTR4_NUMLINKS"));
        },
        Some(links) => links,
    };
    let mode: u32 = match attributes.mode {
        None => {
            return Err(missing("FATTR4_MODE"));
        },
        Some(mode) => mode,
    };
    let uid: u32 = match numeric_identity(&attributes.owner, "FATTR4_OWNER") {
        Err(error) => {
            return Err(error);
        },
        Ok(uid) => uid,
    };
    let gid: u32 = match numeric_identity(&attributes.owner_group, "FATTR4_OWNER_GROUP") {
        Err(error) => {
            return Err(error);
        },
        Ok(gid) => gid,
    };
    let time = match attributes.time_modify {
        None => {
            return Err(missing("FATTR4_TIME_MODIFY"));
        },
        Some(time) => time,
    };
    let id = object_id(identity);
    proof {
        derived_id_is(identity, id);
    }
    Ok(
        BlobStat {
            object_id: id,
            kind,
            len,
            link_count: links as u64,
            mode,
            uid,
            gid,
            modified_nanos: nanoseconds(time),
        },
    )
}

/// A pin is never retargeted: whatever the server answers, revalidating yields
/// attributes only of the identity the pin proved.
pub proof fn revalidation_keeps_identity<T: RawTransport>(
    world: T::World,
    pin: PinnedObjectView,
    deadline: Deadline,
)
    ensures
        revalidate_run::<T>(world, pin, deadline).0 matches Ok(attributes) ==> identity_in(
            attributes,
        ) == Ok::<ObjectIdentity, FacadeErrorView>(pin.identity),
{
    reveal(revalidate_run);
}

/// A stat succeeds only when the server returned every attribute it reports.
pub proof fn a_stat_invents_nothing(identity: ObjectIdentity, attributes: AttributesView)
    ensures
        stat_of(identity, attributes) matches Ok(stat) ==> {
            &&& attributes.size == Some(stat.len)
            &&& attributes.mode == Some(stat.mode)
            &&& attributes.numlinks is Some
            &&& attributes.owner is Some
            &&& attributes.owner_group is Some
            &&& attributes.time_modify is Some
            &&& attributes.file_type is Some
        },
{
}

/// Multiplying by a word that has an inverse loses nothing.
proof fn product_keeps_apart(x: u64, y: u64, factor: u64, inverse: u64)
    requires
        factor as int * inverse as int % 0x1_0000_0000_0000_0000 == 1,
        x.wrapping_mul(factor) == y.wrapping_mul(factor),
    ensures
        x == y,
{
    product_is_undone(x, factor, inverse);
    product_is_undone(y, factor, inverse);
}

proof fn product_is_undone(x: u64, factor: u64, inverse: u64)
    requires
        factor as int * inverse as int % 0x1_0000_0000_0000_0000 == 1,
    ensures
        x.wrapping_mul(factor) as int * inverse as int % 0x1_0000_0000_0000_0000 == x,
{
    let radix: int = 0x1_0000_0000_0000_0000;
    let (a, f, g) = (x as int, factor as int, inverse as int);
    lemma_mul_mod_noop_left(a * f, g, radix);
    assert(a * f * g == a * (f * g)) by (nonlinear_arith);
    lemma_mul_mod_noop_right(a, f * g, radix);
}

/// Folding a word onto itself loses nothing.
proof fn folding_keeps_apart(x: u64, y: u64)
    ensures
        x ^ (x >> 30) == y ^ (y >> 30) ==> x == y,
        x ^ (x >> 27) == y ^ (y >> 27) ==> x == y,
        x ^ (x >> 31) == y ^ (y >> 31) ==> x == y,
{
    assert(x ^ (x >> 30) == y ^ (y >> 30) ==> x == y) by (bit_vector);
    assert(x ^ (x >> 27) == y ^ (y >> 27) ==> x == y) by (bit_vector);
    assert(x ^ (x >> 31) == y ^ (y >> 31) ==> x == y) by (bit_vector);
}

/// Mixing keeps words apart that differ only in the last one.
proof fn mixing_keeps_the_last_word(a: u64, b: u64, c: u64, d: u64)
    requires
        mixed(a, b, c) == mixed(a, b, d),
    ensures
        c == d,
{
    let base = rotated(
        rotated(a.wrapping_mul(0x9E37_79B9_7F4A_7C15), 31).wrapping_add(
            b.wrapping_mul(0xBF58_476D_1CE4_E5B9),
        ),
        27,
    );
    let (cf, df) = (
        base.wrapping_add(c.wrapping_mul(0x94D0_49BB_1331_11EB)),
        base.wrapping_add(d.wrapping_mul(0x94D0_49BB_1331_11EB)),
    );
    let (c1, d1) = (
        (cf ^ (cf >> 30)).wrapping_mul(0xBF58_476D_1CE4_E5B9),
        (df ^ (df >> 30)).wrapping_mul(0xBF58_476D_1CE4_E5B9),
    );
    let (c2, d2) = (
        (c1 ^ (c1 >> 27)).wrapping_mul(0x94D0_49BB_1331_11EB),
        (d1 ^ (d1 >> 27)).wrapping_mul(0x94D0_49BB_1331_11EB),
    );
    folding_keeps_apart(c2, d2);
    product_keeps_apart(
        c1 ^ (c1 >> 27),
        d1 ^ (d1 >> 27),
        0x94D0_49BB_1331_11EB,
        0x3196_42B2_D24D_8EC3,
    );
    folding_keeps_apart(c1, d1);
    product_keeps_apart(
        cf ^ (cf >> 30),
        df ^ (df >> 30),
        0xBF58_476D_1CE4_E5B9,
        0x96DE_1B17_3F11_9089,
    );
    folding_keeps_apart(cf, df);
    product_keeps_apart(c, d, 0x94D0_49BB_1331_11EB, 0x3196_42B2_D24D_8EC3);
}

/// Mixing keeps words apart that differ only in the middle one.
proof fn mixing_keeps_the_middle_word(a: u64, b: u64, d: u64, c: u64)
    requires
        mixed(a, b, c) == mixed(a, d, c),
    ensures
        b == d,
{
    let base = rotated(a.wrapping_mul(0x9E37_79B9_7F4A_7C15), 31);
    let last = c.wrapping_mul(0x94D0_49BB_1331_11EB);
    let (bs, ds) = (
        base.wrapping_add(b.wrapping_mul(0xBF58_476D_1CE4_E5B9)),
        base.wrapping_add(d.wrapping_mul(0xBF58_476D_1CE4_E5B9)),
    );
    let (bf, df) = (rotated(bs, 27).wrapping_add(last), rotated(ds, 27).wrapping_add(last));
    let (b1, d1) = (
        (bf ^ (bf >> 30)).wrapping_mul(0xBF58_476D_1CE4_E5B9),
        (df ^ (df >> 30)).wrapping_mul(0xBF58_476D_1CE4_E5B9),
    );
    let (b2, d2) = (
        (b1 ^ (b1 >> 27)).wrapping_mul(0x94D0_49BB_1331_11EB),
        (d1 ^ (d1 >> 27)).wrapping_mul(0x94D0_49BB_1331_11EB),
    );
    folding_keeps_apart(b2, d2);
    product_keeps_apart(
        b1 ^ (b1 >> 27),
        d1 ^ (d1 >> 27),
        0x94D0_49BB_1331_11EB,
        0x3196_42B2_D24D_8EC3,
    );
    folding_keeps_apart(b1, d1);
    product_keeps_apart(
        bf ^ (bf >> 30),
        df ^ (df >> 30),
        0xBF58_476D_1CE4_E5B9,
        0x96DE_1B17_3F11_9089,
    );
    folding_keeps_apart(bf, df);
    assert((bs << 27u64) | (bs >> 37u64) == (ds << 27u64) | (ds >> 37u64) ==> bs == ds)
        by (bit_vector);
    product_keeps_apart(b, d, 0xBF58_476D_1CE4_E5B9, 0x96DE_1B17_3F11_9089);
}

/// Two objects whose server numbers differ in exactly one place, the file number or
/// either half of the file system's, never share an object id: each of the three counts.
pub proof fn every_server_number_counts(one: ObjectIdentity, other: ObjectIdentity)
    requires
        one != other,
        one.fileid == other.fileid || one.fsid == other.fsid,
        one.fsid.major == other.fsid.major || one.fsid.minor == other.fsid.minor,
    ensures
        id_bytes(one) != id_bytes(other),
{
    if one.fsid == other.fsid {
        a_replacement_has_its_own_id(one, other);
    } else {
        let high = mixed(DOMAIN ^ one.fsid.major, one.fsid.minor, one.fileid);
        let low = mixed(one.fileid, DOMAIN ^ one.fsid.minor, one.fsid.major);
        let top = mixed(DOMAIN ^ other.fsid.major, other.fsid.minor, other.fileid);
        let end = mixed(other.fileid, DOMAIN ^ other.fsid.minor, other.fsid.major);
        radix_of_eight();
        big_endian_round_trip(high as nat, 8);
        big_endian_round_trip(low as nat, 8);
        big_endian_round_trip(top as nat, 8);
        big_endian_round_trip(end as nat, 8);
        if id_bytes(one) == id_bytes(other) {
            assert(id_bytes(one).take(8) =~= be_bytes(high as nat, 8));
            assert(id_bytes(other).take(8) =~= be_bytes(top as nat, 8));
            assert(id_bytes(one).skip(8) =~= be_bytes(low as nat, 8));
            assert(id_bytes(other).skip(8) =~= be_bytes(end as nat, 8));
            if one.fsid.major == other.fsid.major {
                mixing_keeps_the_middle_word(
                    DOMAIN ^ one.fsid.major,
                    one.fsid.minor,
                    other.fsid.minor,
                    one.fileid,
                );
            } else {
                mixing_keeps_the_last_word(
                    one.fileid,
                    DOMAIN ^ one.fsid.minor,
                    one.fsid.major,
                    other.fsid.major,
                );
            }
        }
    }
}

/// Two objects of one file system never share an object id, so an object that
/// replaces another under its name is seen to be another.
pub proof fn a_replacement_has_its_own_id(one: ObjectIdentity, other: ObjectIdentity)
    requires
        one.fsid == other.fsid,
        one.fileid != other.fileid,
    ensures
        id_bytes(one) != id_bytes(other),
        derived_id(one) != derived_id(other),
{
    let (major, minor) = (DOMAIN ^ one.fsid.major, one.fsid.minor);
    let (a, b) = (mixed(major, minor, one.fileid), mixed(major, minor, other.fileid));
    radix_of_eight();
    big_endian_round_trip(a as nat, 8);
    big_endian_round_trip(b as nat, 8);
    if id_bytes(one) == id_bytes(other) {
        assert(id_bytes(one).take(8) =~= be_bytes(a as nat, 8));
        assert(id_bytes(other).take(8) =~= be_bytes(b as nat, 8));
        mixing_keeps_the_last_word(major, minor, one.fileid, other.fileid);
    }
    every_identity_has_an_id(one);
    every_identity_has_an_id(other);
}

/// Every identity has the object id its bytes make.
pub(crate) proof fn every_identity_has_an_id(identity: ObjectIdentity)
    ensures
        derived_id(identity).0@ == id_bytes(identity),
{
    let b = id_bytes(identity);
    let low = mixed(identity.fileid, DOMAIN ^ identity.fsid.minor, identity.fsid.major);
    big_endian_round_trip(
        mixed(DOMAIN ^ identity.fsid.major, identity.fsid.minor, identity.fileid) as nat,
        8,
    );
    big_endian_round_trip(low as nat, 8);
    let id = ObjectId(
        [
            b[0],
            b[1],
            b[2],
            b[3],
            b[4],
            b[5],
            b[6],
            b[7],
            b[8],
            b[9],
            b[10],
            b[11],
            b[12],
            b[13],
            b[14],
            b[15],
        ],
    );
    assert(id.0@ =~= b);
}

} // verus!
