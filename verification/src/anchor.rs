//! Run, root and control anchors, and containment-checked path resolution.
//!
//! An [`Anchor`] is a [`PinnedObject`]: a filehandle plus the `(fsid, fileid)`
//! that proved it. There is no mount root, so the binding an anchor publishes
//! carries no physical path.
//!
//! A run has up to four anchors: the run directory, the tracee-visible root, the
//! control namespace, and the provider-private directory.
//!
//! Three independent rules contain a path. [`StoragePath`] refuses empty, `.` and
//! `..` components at construction. [`ComponentName`] refuses them again, plus `/`
//! and NUL, before anything reaches the wire. And every intermediate component
//! must resolve to a directory on the run's file system.
use vstd::prelude::*;

use crate::bytes::{
    append_bytes, be_bytes, be_value, big_endian, big_endian_round_trip, copy_bytes, copy_range,
    from_big_endian, from_little_endian, le_bytes, le_value, little_endian,
    little_endian_round_trip, radix_of_eight,
};
use crate::contract::{
    hyphenated, opt_view, res_view, seq_view, split_components, split_is_not_empty, split_path,
    umbra, ErrorKind, ImmutableBaseContract, ImmutableBaseContractView, LeaseEpoch, OpenRunIntent,
    RunId, RuntimeDirectoryBinding, RuntimeDirectoryBindingView, StorageAnchor, StorageHandle,
    StoragePath, StoragePathView, StorageResult, UmbraError, UmbraErrorView,
};
use crate::crud::{open_object_run, read_whole, whole_run, CreateDisposition, OpenObject};
use crate::error::{to_umbra, FacadeError, FacadeErrorView};
use crate::handle::{adopt_handle, anonymous, stateid_answer, FileHandle, Stateid};
use crate::identity::{adopt_pin, pin_run, rotate, rotated, PinnedObject, PinnedObjectView};
use crate::layout;
use crate::state::open_owner::{close_failure, close_run, OpenOwnerRegistry, RegistryView};
use crate::storage::{NfsUserspaceConfig, NfsUserspaceConfigView};
use crate::text::{decimal, decimal_text, join, join3, lossy_text, quoted, quoted_text, utf8_lossy};
use crate::transport::{
    adopt_name, lookup_answer, lookup_call, no_values, reply_at, reply_code, root_answer, root_call,
    valid_component, write_answer, write_call, Answer, AttrMask, AttrValues, AttrValuesView,
    ComponentName, Compound, CompoundView, CreateType, Deadline, Fsid, Nfs4Op, Nfs4Type, OpReply,
    OpView, RawTransport, ReplyView, ShareAccess, Stability,
};

verus! {

/// Which anchor a handle belongs to.
#[derive(Clone, Copy, Debug, PartialEq, Eq, Structural, Hash, PartialOrd, Ord)]
pub enum AnchorKind {
    /// The run directory itself. Holds the other three and nothing else.
    Run,
    /// The tracee-visible run root.
    Root,
    /// The control namespace. Never tracee-visible.
    Control,
    /// Provider-private state. Filtered out of run enumeration.
    Private,
}

impl AnchorKind {
    /// The contract anchor this maps to, when the contract names one.
    pub fn contract_anchor(self) -> (r: Option<StorageAnchor>)
        ensures
            r == (match self {
                AnchorKind::Root => Some(StorageAnchor::Root),
                AnchorKind::Control => Some(StorageAnchor::Control),
                AnchorKind::Run => None,
                AnchorKind::Private => None,
            }),
    {
        match self {
            AnchorKind::Root => Some(StorageAnchor::Root),
            AnchorKind::Control => Some(StorageAnchor::Control),
            AnchorKind::Run => None,
            AnchorKind::Private => None,
        }
    }

    /// The short name a diagnostic uses.
    pub open spec fn name(self) -> Seq<char> {
        match self {
            AnchorKind::Run => "run"@,
            AnchorKind::Root => "root"@,
            AnchorKind::Control => "control"@,
            AnchorKind::Private => "private"@,
        }
    }

    /// Short name used in diagnostics.
    pub fn label(self) -> (r: &'static str)
        ensures
            r@ == self.name(),
    {
        match self {
            AnchorKind::Run => "run",
            AnchorKind::Root => "root",
            AnchorKind::Control => "control",
            AnchorKind::Private => "private",
        }
    }
}

/// One anchor: what it is, and the object that proved it.
#[derive(Debug, PartialEq, Eq)]
pub struct Anchor {
    kind: AnchorKind,
    pin: PinnedObject,
}

/// The content of an [`Anchor`].
pub struct AnchorView {
    /// Which anchor this is.
    pub kind: AnchorKind,
    /// The pinned directory object.
    pub pin: PinnedObjectView,
}

impl View for Anchor {
    type V = AnchorView;

    closed spec fn view(&self) -> AnchorView {
        AnchorView { kind: self.kind, pin: self.pin@ }
    }
}

impl Clone for Anchor {
    fn clone(&self) -> (r: Self)
        ensures
            r@ == self@,
    {
        Anchor { kind: self.kind, pin: self.pin.clone() }
    }
}

impl Anchor {
    /// Which anchor this is.
    pub fn kind(&self) -> (r: AnchorKind)
        ensures
            r == self@.kind,
    {
        self.kind
    }

    /// The pinned directory object.
    pub fn pin(&self) -> (r: &PinnedObject)
        ensures
            r@ == self@.pin,
    {
        &self.pin
    }

    /// The runtime binding published to a consumer. It never names a physical path.
    pub fn binding(&self, mint: &HandleMint) -> (r: RuntimeDirectoryBinding)
        ensures
            r@ == (RuntimeDirectoryBindingView {
                handle: token_bytes(mint.serial(), self@.pin.handle),
                physical_path: None,
            }),
    {
        RuntimeDirectoryBinding { handle: mint.issue(self.pin.handle()), physical_path: None }
    }
}

/// Mints and validates the opaque [`StorageHandle`] tokens one session issues.
///
/// A session serial is folded into every token, so a handle from a closed session
/// is rejected on presentation.
#[derive(Clone, Copy, Debug, PartialEq, Eq, Structural)]
pub struct HandleMint {
    session: u64,
}

/// Token layout version.
pub const TOKEN_VERSION: u8 = 1;

/// The four bytes every token begins with.
pub open spec fn token_magic() -> Seq<u8> {
    seq![85u8, 78u8, 70u8, 83u8]
}

/// The two halves of a run id folded into one word.
pub open spec fn folded_run(run: Seq<u8>) -> Seq<u8> {
    Seq::new(8, |i: int| run[i] ^ run[i + 8])
}

/// The serial of one session of one run.
pub open spec fn session_serial(run: Seq<u8>, serial: u64) -> u64 {
    (be_value(folded_run(run)) as u64) ^ rotated(serial, 17)
}

/// The token a session issues for a filehandle.
pub open spec fn token_bytes(session: u64, handle: Seq<u8>) -> Seq<u8> {
    token_magic() + seq![TOKEN_VERSION] + be_bytes(session as nat, 8) + handle
}

/// The failure of a token another session issued.
pub open spec fn stale_token() -> UmbraErrorView {
    umbra(
        ErrorKind::StaleHandle,
        "storage_handle"@,
        "this token was not issued by the current provider session"@,
    )
}

/// What presenting a token to a session yields.
pub open spec fn accept_token(session: u64, token: Seq<u8>) -> Result<Seq<u8>, UmbraErrorView> {
    if token.len() <= 13 || token.take(4) != token_magic() || token[4] != TOKEN_VERSION {
        Err(stale_token())
    } else if be_value(token.subrange(5, 13)) as u64 != session {
        Err(stale_token())
    } else {
        match adopt_handle(token.skip(13)) {
            Err(error) => Err(to_umbra(error, "storage_handle"@)),
            Ok(handle) => Ok(handle),
        }
    }
}

fn stale() -> (r: UmbraError)
    ensures
        r@ == stale_token(),
{
    UmbraError::new(
        ErrorKind::StaleHandle,
        "storage_handle",
        "this token was not issued by the current provider session",
    )
}

impl HandleMint {
    /// The serial every token of this session carries.
    pub closed spec fn serial(&self) -> u64 {
        self.session
    }

    /// A mint for one session of one run.
    ///
    /// The serial distinguishes successive sessions over the same run, so a token
    /// issued before the run is closed cannot be used after it.
    pub fn for_session(run_id: RunId, serial: u64) -> (r: Self)
        ensures
            r.serial() == session_serial(run_id.0@, serial),
    {
        let mut folded: Vec<u8> = Vec::new();
        let mut i: usize = 0;
        while i < 8
            invariant
                i <= 8,
                folded@.len() == i,
                forall|j: int| 0 <= j < i ==> folded@[j] == run_id.0@[j] ^ run_id.0@[j + 8],
            decreases 8 - i,
        {
            folded.push(run_id.0[i] ^ run_id.0[i + 8]);
            i += 1;
        }
        proof {
            assert(folded@ =~= folded_run(run_id.0@));
        }
        HandleMint { session: from_big_endian(folded.as_slice()) ^ rotate(serial, 17) }
    }

    /// Wrap a filehandle in a session-bound token.
    pub fn issue(&self, handle: &FileHandle) -> (r: StorageHandle)
        ensures
            r@ == token_bytes(self.serial(), handle@),
    {
        let mut token: Vec<u8> = vec![85u8, 78u8, 70u8, 83u8, TOKEN_VERSION];
        proof {
            assert(token@ =~= token_magic() + seq![TOKEN_VERSION]);
        }
        append_bytes(&mut token, big_endian(self.session, 8).as_slice());
        append_bytes(&mut token, handle.as_bytes());
        StorageHandle(token)
    }

    /// Recover the filehandle from a token this session issued.
    pub fn accept(&self, token: &StorageHandle) -> (r: StorageResult<FileHandle>)
        ensures
            res_view(r) == accept_token(self.serial(), token@),
    {
        let bytes = &token.0;
        if bytes.len() <= 13 || bytes[0] != 85 || bytes[1] != 78 || bytes[2] != 70 || bytes[3]
            != 83 || bytes[4] != TOKEN_VERSION {
            proof {
                if bytes@.len() > 13 && bytes@.take(4) == token_magic() {
                    assert(bytes@.take(4)[0] == token_magic()[0]);
                    assert(bytes@.take(4)[1] == token_magic()[1]);
                    assert(bytes@.take(4)[2] == token_magic()[2]);
                    assert(bytes@.take(4)[3] == token_magic()[3]);
                }
            }
            return Err(stale());
        }
        proof {
            assert(bytes@.take(4) =~= token_magic());
        }
        let session: u64 = from_big_endian(copy_range(bytes.as_slice(), 5, 13).as_slice());
        if session != self.session {
            return Err(stale());
        }
        let handle = copy_range(bytes.as_slice(), 13, bytes.len());
        proof {
            assert(handle@ =~= bytes@.skip(13));
        }
        match FileHandle::from_wire(handle) {
            Ok(handle) => Ok(handle),
            Err(error) => Err(error.to_umbra("storage_handle")),
        }
    }
}

/// A session recovers the filehandle from every token it issued.
pub proof fn a_session_accepts_its_own_tokens(session: u64, handle: Seq<u8>)
    requires
        adopt_handle(handle) is Ok,
    ensures
        accept_token(session, token_bytes(session, handle)) == Ok::<Seq<u8>, UmbraErrorView>(
            handle,
        ),
{
    radix_of_eight();
    big_endian_round_trip(session as nat, 8);
    let token = token_bytes(session, handle);
    assert(token.take(4) =~= token_magic());
    assert(token.subrange(5, 13) =~= be_bytes(session as nat, 8));
    assert(token.skip(13) =~= handle);
}

/// Two sessions of one run reject each other's tokens, whatever the filehandle.
pub proof fn a_token_from_another_session_is_stale(
    run: Seq<u8>,
    issued: u64,
    presented: u64,
    handle: Seq<u8>,
)
    requires
        issued != presented,
    ensures
        accept_token(
            session_serial(run, presented),
            token_bytes(session_serial(run, issued), handle),
        ) == Err::<Seq<u8>, UmbraErrorView>(stale_token()),
{
    let word = be_value(folded_run(run)) as u64;
    let session = session_serial(run, issued);
    let (a, b) = (issued, presented);
    assert(a != b ==> word ^ ((a << 17) | (a >> 47)) != word ^ ((b << 17) | (b >> 47)))
        by (bit_vector);
    assert(session != session_serial(run, presented));
    radix_of_eight();
    big_endian_round_trip(session as nat, 8);
    let token = token_bytes(session, handle);
    assert(token.subrange(5, 13) =~= be_bytes(session as nat, 8));
}

/// The four anchors of one opened run.
#[derive(Debug, PartialEq, Eq)]
pub struct RunAnchors {
    run: Anchor,
    root: Anchor,
    control: Anchor,
    private: Option<Anchor>,
    filesystem: Fsid,
}

/// The content of [`RunAnchors`].
pub struct RunAnchorsView {
    /// The run anchor.
    pub run: AnchorView,
    /// The tracee-visible root anchor.
    pub root: AnchorView,
    /// The control anchor.
    pub control: AnchorView,
    /// The provider-private anchor, when the run has one.
    pub private: Option<AnchorView>,
    /// The one server file system every object in this run must live on.
    pub filesystem: Fsid,
}

impl View for RunAnchors {
    type V = RunAnchorsView;

    closed spec fn view(&self) -> RunAnchorsView {
        RunAnchorsView {
            run: self.run@,
            root: self.root@,
            control: self.control@,
            private: opt_view(self.private),
            filesystem: self.filesystem,
        }
    }
}

/// What validating one path component yields.
pub open spec fn component_of(bytes: Seq<u8>) -> Result<Seq<u8>, UmbraErrorView> {
    match adopt_name(bytes) {
        Ok(name) => Ok(name),
        Err(error) => Err(to_umbra(FacadeErrorView::Transport(error), "path_component"@)),
    }
}

/// Validate one path component for the wire.
pub fn component(bytes: Vec<u8>) -> (r: StorageResult<ComponentName>)
    ensures
        res_view(r) == component_of(bytes@),
{
    match ComponentName::new(bytes) {
        Ok(name) => Ok(name),
        Err(error) => Err(FacadeError::Transport(error).to_umbra("path_component")),
    }
}

/// Validate a name of the run layout for the wire.
pub(crate) fn layout_component(name: &str) -> (r: StorageResult<ComponentName>)
    ensures
        res_view(r) == component_of(vstd::utf8::encode_utf8(name@)),
{
    component(copy_bytes(name.as_bytes()))
}

/// The first component of `parts`, from `from` on, that is refused.
pub open spec fn refused_component(parts: Seq<Seq<u8>>, from: int) -> Option<UmbraErrorView>
    decreases parts.len() - from,
{
    if from >= parts.len() {
        None
    } else {
        match component_of(parts[from]) {
            Err(error) => Some(error),
            Ok(_) => refused_component(parts, from + 1),
        }
    }
}

/// Split a relative path into components, each valid for the wire.
fn components(relative: &[u8]) -> (r: StorageResult<Vec<ComponentName>>)
    ensures
        match refused_component(split_path(relative@), 0) {
            Some(error) => r is Err && r->Err_0@ == error,
            None => r is Ok && seq_view(r->Ok_0@) == split_path(relative@),
        },
{
    let parts = split_components(relative);
    let ghost whole = split_path(relative@);
    let mut names: Vec<ComponentName> = Vec::new();
    let mut i: usize = 0;
    while i < parts.len()
        invariant
            i <= parts@.len(),
            seq_view(parts@) == whole,
            whole == split_path(relative@),
            names@.len() == i,
            forall|j: int| 0 <= j < i ==> #[trigger] names@[j]@ == whole[j],
            refused_component(whole, 0) == refused_component(whole, i as int),
        decreases parts@.len() - i,
    {
        proof {
            assert(whole[i as int] == parts@[i as int]@);
        }
        match component(copy_bytes(parts[i].as_slice())) {
            Err(error) => {
                return Err(error);
            },
            Ok(name) => names.push(name),
        }
        i += 1;
    }
    proof {
        assert(seq_view(names@) =~= whole);
    }
    Ok(names)
}

/// Look one name up and pin whatever it is.
pub open spec fn descend_any_run<T: RawTransport>(
    world: T::World,
    parent: PinnedObjectView,
    name: Seq<u8>,
    deadline: Deadline,
) -> (Result<PinnedObjectView, UmbraErrorView>, T::World) {
    if parent.kind != Nfs4Type::Directory {
        (
            Err(
                umbra(
                    ErrorKind::InvalidPath,
                    "resolve"@,
                    "a path component was resolved against a non-directory"@,
                ),
            ),
            world,
        )
    } else {
        let call = lookup_call(parent.handle, name, AttrMask(AttrMask::STAT));
        (
            match lookup_answer(T::answer(world, call, deadline)) {
                Err(error) => Err(to_umbra(error, "resolve"@)),
                Ok((handle, attributes)) => match adopt_pin(handle, attributes) {
                    Err(error) => Err(to_umbra(error, "resolve"@)),
                    Ok(pin) => Ok(pin),
                },
            },
            T::after(world, call, deadline),
        )
    }
}

/// A pin that has to be a directory: a symlink is never followed.
pub open spec fn directory_only(pin: PinnedObjectView, name: Seq<u8>) -> Result<
    PinnedObjectView,
    UmbraErrorView,
> {
    match pin.kind {
        Nfs4Type::Directory => Ok(pin),
        Nfs4Type::Symlink => Err(
            umbra(
                ErrorKind::InvalidPath,
                "resolve"@,
                quoted(utf8_lossy(name))
                    + " is a server-side symlink; the anchor walk never follows one"@,
            ),
        ),
        other => Err(
            umbra(
                ErrorKind::InvalidPath,
                "resolve"@,
                quoted(utf8_lossy(name)) + " is "@ + other.name() + ", not a directory"@,
            ),
        ),
    }
}

/// The failure of an object on another file system.
pub open spec fn foreign_filesystem(
    observed: Fsid,
    filesystem: Fsid,
    label: Seq<char>,
    operation: Seq<char>,
) -> UmbraErrorView {
    umbra(
        ErrorKind::InvalidPath,
        operation,
        quoted(label) + " is on filesystem "@ + decimal(observed.major as nat) + ":"@ + decimal(
            observed.minor as nat,
        ) + ", not the run's "@ + decimal(filesystem.major as nat) + ":"@ + decimal(
            filesystem.minor as nat,
        ) + "; the walk does not cross into another exported filesystem"@,
    )
}

/// A pin that has to be on `filesystem`.
pub open spec fn on_filesystem(
    pin: PinnedObjectView,
    filesystem: Fsid,
    label: Seq<char>,
    operation: Seq<char>,
) -> Result<PinnedObjectView, UmbraErrorView> {
    if pin.identity.fsid != filesystem {
        Err(foreign_filesystem(pin.identity.fsid, filesystem, label, operation))
    } else {
        Ok(pin)
    }
}

/// Look one name up and require it to be a directory, on `filesystem` where one is
/// given.
pub open spec fn descend_run<T: RawTransport>(
    world: T::World,
    parent: PinnedObjectView,
    name: Seq<u8>,
    filesystem: Option<Fsid>,
    deadline: Deadline,
) -> (Result<PinnedObjectView, UmbraErrorView>, T::World) {
    let (found, after) = descend_any_run::<T>(world, parent, name, deadline);
    (
        match found {
            Err(error) => Err(error),
            Ok(pin) => match directory_only(pin, name) {
                Err(error) => Err(error),
                Ok(directory) => match filesystem {
                    None => Ok(directory),
                    Some(home) => on_filesystem(
                        directory,
                        home,
                        utf8_lossy(name),
                        "resolve"@,
                    ),
                },
            },
        },
        after,
    )
}

/// Descend through `names`, from `from` on.
pub open spec fn walk_run<T: RawTransport>(
    world: T::World,
    current: PinnedObjectView,
    names: Seq<Seq<u8>>,
    from: int,
    filesystem: Option<Fsid>,
    deadline: Deadline,
) -> (Result<PinnedObjectView, UmbraErrorView>, T::World)
    decreases names.len() - from,
{
    if from >= names.len() {
        (Ok(current), world)
    } else {
        let (found, after) = descend_run::<T>(world, current, names[from], filesystem, deadline);
        match found {
            Err(error) => (Err(error), after),
            Ok(next) => walk_run::<T>(after, next, names, from + 1, filesystem, deadline),
        }
    }
}

/// Look one name up and pin whatever it is.
pub fn descend_file<T: RawTransport>(
    transport: &mut T,
    parent: &PinnedObject,
    name: &ComponentName,
    deadline: Deadline,
) -> (r: StorageResult<PinnedObject>)
    ensures
        (res_view(r), final(transport).world()) == descend_any_run::<T>(
            old(transport).world(),
            parent@,
            name@,
            deadline,
        ),
{
    if !parent.is_directory() {
        return Err(
            UmbraError::new(
                ErrorKind::InvalidPath,
                "resolve",
                "a path component was resolved against a non-directory",
            ),
        );
    }
    match transport.lookup(parent.handle(), name, AttrMask(AttrMask::STAT), deadline) {
        Err(error) => Err(error.to_umbra("resolve")),
        Ok((handle, attributes)) => match PinnedObject::adopt(handle, &attributes) {
            Err(error) => Err(error.to_umbra("resolve")),
            Ok(pin) => Ok(pin),
        },
    }
}

/// Look one name up and require it to be a directory, without a boundary check.
///
/// Used for provider-private children, which are resolved from an anchor already
/// proven on the run's file system.
pub fn descend_directory<T: RawTransport>(
    transport: &mut T,
    parent: &PinnedObject,
    name: &ComponentName,
    deadline: Deadline,
) -> (r: StorageResult<PinnedObject>)
    ensures
        (res_view(r), final(transport).world()) == descend_run::<T>(
            old(transport).world(),
            parent@,
            name@,
            None,
            deadline,
        ),
{
    let pin = match descend_file(transport, parent, name, deadline) {
        Ok(pin) => pin,
        Err(error) => {
            return Err(error);
        },
    };
    match pin.kind() {
        Nfs4Type::Directory => Ok(pin),
        Nfs4Type::Symlink => Err(
            UmbraError::new(
                ErrorKind::InvalidPath,
                "resolve",
                join(
                    quoted_text(lossy_text(name.as_bytes()).as_str()).as_str(),
                    " is a server-side symlink; the anchor walk never follows one",
                ).as_str(),
            ),
        ),
        other => Err(
            UmbraError::new(
                ErrorKind::InvalidPath,
                "resolve",
                join3(
                    quoted_text(lossy_text(name.as_bytes()).as_str()).as_str(),
                    " is ",
                    other.text().as_str(),
                ).concat(", not a directory").as_str(),
            ),
        ),
    }
}

/// Look one name up, require a directory, and require it to be on `filesystem`.
fn descend_within<T: RawTransport>(
    transport: &mut T,
    parent: &PinnedObject,
    name: &ComponentName,
    filesystem: Fsid,
    deadline: Deadline,
) -> (r: StorageResult<PinnedObject>)
    ensures
        (res_view(r), final(transport).world()) == descend_run::<T>(
            old(transport).world(),
            parent@,
            name@,
            Some(filesystem),
            deadline,
        ),
{
    match descend_directory(transport, parent, name, deadline) {
        Err(error) => Err(error),
        Ok(pin) => within(pin, filesystem, name),
    }
}

/// Reject a pin that is not on the run's pinned file system.
fn within(pin: PinnedObject, filesystem: Fsid, name: &ComponentName) -> (r: StorageResult<
    PinnedObject,
>)
    ensures
        res_view(r) == on_filesystem(pin@, filesystem, utf8_lossy(name@), "resolve"@),
{
    within_labelled(pin, filesystem, lossy_text(name.as_bytes()).as_str(), "resolve")
}

/// Reject an object on another file system, naming it however the caller wants.
pub(crate) fn foreign(observed: Fsid, filesystem: Fsid, label: &str, operation: &str) -> (r:
    UmbraError)
    ensures
        r@ == foreign_filesystem(observed, filesystem, label@, operation@),
{
    UmbraError::new(
        ErrorKind::InvalidPath,
        operation,
        join3(
            quoted_text(label).as_str(),
            " is on filesystem ",
            decimal_text(observed.major).as_str(),
        ).concat(":").concat(decimal_text(observed.minor).as_str()).concat(
            ", not the run's ",
        ).concat(decimal_text(filesystem.major).as_str()).concat(":").concat(
            decimal_text(filesystem.minor).as_str(),
        ).concat("; the walk does not cross into another exported filesystem").as_str(),
    )
}

/// Reject a pin that is not on `filesystem`, naming it however the caller wants.
///
/// A boundary enforced on one path is no boundary, so every place that adopts an
/// object calls this one check.
pub fn within_labelled(
    pin: PinnedObject,
    filesystem: Fsid,
    label: &str,
    operation: &str,
) -> (r: StorageResult<PinnedObject>)
    ensures
        res_view(r) == on_filesystem(pin@, filesystem, label@, operation@),
{
    let observed = pin.identity().fsid;
    if observed != filesystem {
        return Err(foreign(observed, filesystem, label, operation));
    }
    Ok(pin)
}

/// Descend through every name in turn, without a boundary check.
fn walk<T: RawTransport>(
    transport: &mut T,
    start: PinnedObject,
    names: &Vec<ComponentName>,
    filesystem: Option<Fsid>,
    deadline: Deadline,
) -> (r: StorageResult<PinnedObject>)
    ensures
        (res_view(r), final(transport).world()) == walk_run::<T>(
            old(transport).world(),
            start@,
            seq_view(names@),
            0,
            filesystem,
            deadline,
        ),
{
    let ghost path = seq_view(names@);
    let ghost whole = walk_run::<T>(transport.world(), start@, path, 0, filesystem, deadline);
    let mut current = start;
    let mut i: usize = 0;
    while i < names.len()
        invariant
            i <= names@.len(),
            path == seq_view(names@),
            whole == walk_run::<T>(
                old(transport).world(),
                start@,
                path,
                0,
                filesystem,
                deadline,
            ),
            whole == walk_run::<T>(
                transport.world(),
                current@,
                path,
                i as int,
                filesystem,
                deadline,
            ),
        decreases names@.len() - i,
    {
        proof {
            assert(path[i as int] == names@[i as int]@);
        }
        let found = match filesystem {
            None => descend_directory(transport, &current, &names[i], deadline),
            Some(home) => descend_within(transport, &current, &names[i], home, deadline),
        };
        match found {
            Err(error) => {
                return Err(error);
            },
            Ok(next) => {
                current = next;
            },
        }
        i += 1;
    }
    Ok(current)
}

/// `PUTFH; CREATE; GETFH`, of a directory.
pub open spec fn make_directory_call(parent: Seq<u8>, name: Seq<u8>) -> CompoundView {
    CompoundView {
        tag: "mkanchor"@,
        ops: seq![
            OpView::PutFh(parent),
            OpView::Create {
                object_type: CreateType::Directory,
                name,
                attributes: AttrValuesView { mode: Some(layout::DIRECTORY_MODE), ..no_values() },
            },
            OpView::GetFh,
        ],
    }
}

/// The handle an answered [`make_directory_call`] created.
pub open spec fn made_directory(answer: Answer) -> Result<Seq<u8>, UmbraErrorView> {
    match answer {
        Err(error) => Err(to_umbra(FacadeErrorView::Transport(error), "open_run"@)),
        Ok(reply) => match reply_at(reply, 1) {
            Err(error) => Err(to_umbra(error, "open_run"@)),
            Ok(ReplyView::Create { .. }) => match reply_at(reply, 2) {
                Err(error) => Err(to_umbra(error, "open_run"@)),
                Ok(ReplyView::GetFh(handle)) => Ok(handle),
                Ok(other) => Err(
                    umbra(
                        ErrorKind::ProtocolMismatch,
                        "open_run"@,
                        "expected a GETFH reply, got "@ + reply_code(other).name(),
                    ),
                ),
            },
            Ok(other) => Err(
                umbra(
                    ErrorKind::ProtocolMismatch,
                    "open_run"@,
                    "expected a CREATE reply, got "@ + reply_code(other).name(),
                ),
            ),
        },
    }
}

/// Make one directory and pin it.
pub open spec fn make_directory_run<T: RawTransport>(
    world: T::World,
    parent: Seq<u8>,
    name: Seq<u8>,
    deadline: Deadline,
) -> (Result<PinnedObjectView, UmbraErrorView>, T::World) {
    let call = make_directory_call(parent, name);
    let made = T::after(world, call, deadline);
    match made_directory(T::answer(world, call, deadline)) {
        Err(error) => (Err(error), made),
        Ok(handle) => {
            let (pinned, after) = pin_run::<T>(made, handle, deadline);
            (
                match pinned {
                    Err(error) => Err(to_umbra(error, "open_run"@)),
                    Ok(pin) => Ok(pin),
                },
                after,
            )
        },
    }
}

/// `PUTFH; CREATE; GETFH`, then GETATTR: make one directory and pin it.
///
/// The pin is taken from the CREATE reply's own GETFH, so it is the object this
/// call created and not whatever the name resolves to a moment later.
fn create_directory_at<T: RawTransport>(
    transport: &mut T,
    parent: &FileHandle,
    name: &ComponentName,
    deadline: Deadline,
) -> (r: StorageResult<PinnedObject>)
    ensures
        (res_view(r), final(transport).world()) == make_directory_run::<T>(
            old(transport).world(),
            parent@,
            name@,
            deadline,
        ),
{
    let mut attributes = AttrValues::none();
    attributes.mode = Some(layout::DIRECTORY_MODE);
    let call = Compound::new(
        "mkanchor",
        vec![
            Nfs4Op::PutFh(parent.clone()),
            Nfs4Op::Create {
                object_type: CreateType::Directory,
                name: name.clone(),
                attributes,
            },
            Nfs4Op::GetFh,
        ],
    );
    proof {
        assert(call@ =~= make_directory_call(parent@, name@));
    }
    let reply = match transport.submit(call, deadline) {
        Ok(reply) => reply,
        Err(error) => {
            return Err(FacadeError::Transport(error).to_umbra("open_run"));
        },
    };
    match reply.expect(1) {
        Err(error) => {
            return Err(error.to_umbra("open_run"));
        },
        Ok(OpReply::Create { .. }) => {},
        Ok(other) => {
            return Err(
                UmbraError::new(
                    ErrorKind::ProtocolMismatch,
                    "open_run",
                    join("expected a CREATE reply, got ", other.opcode().label()).as_str(),
                ),
            );
        },
    }
    let handle = match reply.expect(2) {
        Err(error) => {
            return Err(error.to_umbra("open_run"));
        },
        Ok(OpReply::GetFh(handle)) => handle.clone(),
        Ok(other) => {
            return Err(
                UmbraError::new(
                    ErrorKind::ProtocolMismatch,
                    "open_run",
                    join("expected a GETFH reply, got ", other.opcode().label()).as_str(),
                ),
            );
        },
    };
    match PinnedObject::pin(transport, handle, deadline) {
        Ok(pin) => Ok(pin),
        Err(error) => Err(error.to_umbra("open_run")),
    }
}

/// Make one directory, pin it, and require it to be on `filesystem`.
pub open spec fn make_within_run<T: RawTransport>(
    world: T::World,
    parent: PinnedObjectView,
    name: Seq<u8>,
    filesystem: Fsid,
    deadline: Deadline,
) -> (Result<PinnedObjectView, UmbraErrorView>, T::World) {
    let (made, after) = make_directory_run::<T>(world, parent.handle, name, deadline);
    (
        match made {
            Err(error) => Err(error),
            Ok(pin) => on_filesystem(pin, filesystem, utf8_lossy(name), "resolve"@),
        },
        after,
    )
}

/// Resolve an anchor child, creating it when the run is being created.
pub open spec fn child_run<T: RawTransport>(
    world: T::World,
    run: PinnedObjectView,
    name: Seq<u8>,
    creating: bool,
    filesystem: Fsid,
    deadline: Deadline,
) -> (Result<PinnedObjectView, UmbraErrorView>, T::World) {
    if creating {
        make_within_run::<T>(world, run, name, filesystem, deadline)
    } else {
        descend_run::<T>(world, run, name, Some(filesystem), deadline)
    }
}

fn anchor_child<T: RawTransport>(
    transport: &mut T,
    run: &PinnedObject,
    name: &ComponentName,
    creating: bool,
    filesystem: Fsid,
    deadline: Deadline,
) -> (r: StorageResult<PinnedObject>)
    ensures
        (res_view(r), final(transport).world()) == child_run::<T>(
            old(transport).world(),
            run@,
            name@,
            creating,
            filesystem,
            deadline,
        ),
{
    if creating {
        match create_directory_at(transport, run.handle(), name, deadline) {
            Err(error) => Err(error),
            Ok(pin) => within(pin, filesystem, name),
        }
    } else {
        descend_within(transport, run, name, filesystem, deadline)
    }
}

/// Resolve the configured run parent from the export root: its pin, and the file
/// system of the export it lies under.
///
/// Walking the configured export is the one transition that may change file
/// system; from the resolved export down the file system is pinned.
pub open spec fn run_parent_run<T: RawTransport>(
    world: T::World,
    config: NfsUserspaceConfigView,
    deadline: Deadline,
) -> (Result<(PinnedObjectView, Fsid), UmbraErrorView>, T::World) {
    let rooted = T::after(world, root_call(), deadline);
    match root_answer(T::answer(world, root_call(), deadline)) {
        Err(error) => (Err(to_umbra(error, "open_run"@)), rooted),
        Ok(handle) => {
            let (pinned, at_root) = pin_run::<T>(rooted, handle, deadline);
            match pinned {
                Err(error) => (Err(to_umbra(error, "open_run"@)), at_root),
                Ok(start) => match refused_component(split_path(config.export), 0) {
                    Some(error) => (Err(error), at_root),
                    None => {
                        let (exported, at_export) = walk_run::<T>(
                            at_root,
                            start,
                            split_path(config.export),
                            0,
                            None,
                            deadline,
                        );
                        match exported {
                            Err(error) => (Err(error), at_export),
                            Ok(export) => match refused_component(
                                split_path(config.run_parent),
                                0,
                            ) {
                                Some(error) => (Err(error), at_export),
                                None => {
                                    let (found, at_parent) = walk_run::<T>(
                                        at_export,
                                        export,
                                        split_path(config.run_parent),
                                        0,
                                        Some(export.identity.fsid),
                                        deadline,
                                    );
                                    (
                                        match found {
                                            Err(error) => Err(error),
                                            Ok(parent) => Ok((parent, export.identity.fsid)),
                                        },
                                        at_parent,
                                    )
                                },
                            },
                        }
                    },
                },
            }
        },
    }
}

/// The name of a run's directory.
pub open spec fn run_name(run_id: RunId) -> Seq<u8> {
    vstd::utf8::encode_utf8(hyphenated(run_id.0@))
}

/// Resolve or create the run directory below its parent. Creating one that already
/// exists is a collision, not a resumption.
pub open spec fn run_directory_run<T: RawTransport>(
    world: T::World,
    parent: PinnedObjectView,
    run_id: RunId,
    creating: bool,
    filesystem: Fsid,
    deadline: Deadline,
) -> (Result<PinnedObjectView, UmbraErrorView>, T::World) {
    match component_of(run_name(run_id)) {
        Err(error) => (Err(error), world),
        Ok(name) => if creating {
            let (existing, probed) = descend_any_run::<T>(world, parent, name, deadline);
            if existing is Ok {
                (
                    Err(
                        umbra(
                            ErrorKind::AlreadyExists,
                            "open_run"@,
                            "run RunId("@ + hyphenated(run_id.0@)
                                + ") already exists under the configured run parent"@,
                        ),
                    ),
                    probed,
                )
            } else {
                make_within_run::<T>(probed, parent, name, filesystem, deadline)
            }
        } else {
            descend_run::<T>(world, parent, name, Some(filesystem), deadline)
        },
    }
}

/// Resolve or create a child of the run under a configured name.
pub open spec fn named_child_run<T: RawTransport>(
    world: T::World,
    run: PinnedObjectView,
    name: Seq<u8>,
    creating: bool,
    filesystem: Fsid,
    deadline: Deadline,
) -> (Result<PinnedObjectView, UmbraErrorView>, T::World) {
    match component_of(name) {
        Err(error) => (Err(error), world),
        Ok(checked) => child_run::<T>(world, run, checked, creating, filesystem, deadline),
    }
}

/// Resolve or create the provider-private directory. An existing run may lack it;
/// only an absent name is that state.
pub open spec fn private_child_run<T: RawTransport>(
    world: T::World,
    run: PinnedObjectView,
    creating: bool,
    filesystem: Fsid,
    deadline: Deadline,
) -> (Result<Option<PinnedObjectView>, UmbraErrorView>, T::World) {
    let (found, after) = named_child_run::<T>(
        world,
        run,
        vstd::utf8::encode_utf8(layout::PRIVATE_DIR@),
        creating,
        filesystem,
        deadline,
    );
    (
        match found {
            Ok(pin) => Ok(Some(pin)),
            Err(error) => if !creating && error.kind == ErrorKind::NotFound {
                Ok(None)
            } else {
                Err(error)
            },
        },
        after,
    )
}

/// Resolve every anchor of a run from the export root.
#[verifier::opaque]
pub open spec fn open_anchors_run<T: RawTransport>(
    world: T::World,
    config: NfsUserspaceConfigView,
    run_id: RunId,
    intent: OpenRunIntent,
    deadline: Deadline,
) -> (Result<RunAnchorsView, UmbraErrorView>, T::World) {
    let creating = intent == OpenRunIntent::CreateNew;
    let (placed, at_parent) = run_parent_run::<T>(world, config, deadline);
    match placed {
        Err(error) => (Err(error), at_parent),
        Ok((parent, filesystem)) => {
            let (found, at_run) = run_directory_run::<T>(
                at_parent,
                parent,
                run_id,
                creating,
                filesystem,
                deadline,
            );
            match found {
                Err(error) => (Err(error), at_run),
                Ok(run) => run_children_run::<T>(
                    at_run,
                    config,
                    run,
                    creating,
                    filesystem,
                    deadline,
                ),
            }
        },
    }
}

/// Resolve or create the three children of a run.
pub open spec fn run_children_run<T: RawTransport>(
    world: T::World,
    config: NfsUserspaceConfigView,
    run: PinnedObjectView,
    creating: bool,
    filesystem: Fsid,
    deadline: Deadline,
) -> (Result<RunAnchorsView, UmbraErrorView>, T::World) {
    let (rooted, at_root) = named_child_run::<T>(
        world,
        run,
        config.root_anchor,
        creating,
        filesystem,
        deadline,
    );
    match rooted {
        Err(error) => (Err(error), at_root),
        Ok(root) => {
            let (controlled, at_control) = named_child_run::<T>(
                at_root,
                run,
                config.control_anchor,
                creating,
                filesystem,
                deadline,
            );
            match controlled {
                Err(error) => (Err(error), at_control),
                Ok(control) => {
                    let (hidden, after) = private_child_run::<T>(
                        at_control,
                        run,
                        creating,
                        filesystem,
                        deadline,
                    );
                    (
                        match hidden {
                            Err(error) => Err(error),
                            Ok(private) => Ok(
                                RunAnchorsView {
                                    run: AnchorView { kind: AnchorKind::Run, pin: run },
                                    root: AnchorView { kind: AnchorKind::Root, pin: root },
                                    control: AnchorView {
                                        kind: AnchorKind::Control,
                                        pin: control,
                                    },
                                    private: match private {
                                        Some(pin) => Some(
                                            AnchorView { kind: AnchorKind::Private, pin },
                                        ),
                                        None => None,
                                    },
                                    filesystem,
                                },
                            ),
                        },
                        after,
                    )
                },
            }
        },
    }
}

fn run_parent<T: RawTransport>(
    transport: &mut T,
    config: &NfsUserspaceConfig,
    deadline: Deadline,
) -> (r: StorageResult<(PinnedObject, Fsid)>)
    ensures
        (
            match r {
                Ok((pin, filesystem)) => Ok((pin@, filesystem)),
                Err(error) => Err(error@),
            },
            final(transport).world(),
        ) == run_parent_run::<T>(old(transport).world(), config@, deadline),
{
    let export_root = match transport.root_filehandle(deadline) {
        Ok(handle) => handle,
        Err(error) => {
            return Err(error.to_umbra("open_run"));
        },
    };
    let start = match PinnedObject::pin(transport, export_root, deadline) {
        Ok(pin) => pin,
        Err(error) => {
            return Err(error.to_umbra("open_run"));
        },
    };
    let export_names = match components(config.export.as_bytes()) {
        Ok(names) => names,
        Err(error) => {
            return Err(error);
        },
    };
    let export = match walk(transport, start, &export_names, None, deadline) {
        Ok(pin) => pin,
        Err(error) => {
            return Err(error);
        },
    };
    let filesystem = export.identity().fsid;
    let parent_names = match components(config.run_parent.as_bytes()) {
        Ok(names) => names,
        Err(error) => {
            return Err(error);
        },
    };
    match walk(transport, export, &parent_names, Some(filesystem), deadline) {
        Ok(parent) => Ok((parent, filesystem)),
        Err(error) => Err(error),
    }
}

fn run_directory<T: RawTransport>(
    transport: &mut T,
    parent: &PinnedObject,
    run_id: RunId,
    creating: bool,
    filesystem: Fsid,
    deadline: Deadline,
) -> (r: StorageResult<PinnedObject>)
    ensures
        (res_view(r), final(transport).world()) == run_directory_run::<T>(
            old(transport).world(),
            parent@,
            run_id,
            creating,
            filesystem,
            deadline,
        ),
{
    let name = match layout_component(run_id.text().as_str()) {
        Ok(name) => name,
        Err(error) => {
            return Err(error);
        },
    };
    if creating {
        let existing = descend_file(transport, parent, &name, deadline);
        if existing.is_ok() {
            return Err(
                UmbraError::new(
                    ErrorKind::AlreadyExists,
                    "open_run",
                    join3(
                        "run RunId(",
                        run_id.text().as_str(),
                        ") already exists under the configured run parent",
                    ).as_str(),
                ),
            );
        }
    }
    anchor_child(transport, parent, &name, creating, filesystem, deadline)
}

fn named_child<T: RawTransport>(
    transport: &mut T,
    run: &PinnedObject,
    name: &[u8],
    creating: bool,
    filesystem: Fsid,
    deadline: Deadline,
) -> (r: StorageResult<PinnedObject>)
    ensures
        (res_view(r), final(transport).world()) == named_child_run::<T>(
            old(transport).world(),
            run@,
            name@,
            creating,
            filesystem,
            deadline,
        ),
{
    match component(copy_bytes(name)) {
        Err(error) => Err(error),
        Ok(checked) => anchor_child(transport, run, &checked, creating, filesystem, deadline),
    }
}

/// What a contract path resolves to before its final component is looked up.
#[verifier::opaque]
pub open spec fn resolve_parent_run<T: RawTransport>(
    anchors: RunAnchorsView,
    world: T::World,
    path: StoragePathView,
    deadline: Deadline,
) -> (Result<TargetView, UmbraErrorView>, T::World) {
    let anchor = contract_anchor_of(anchors, path.anchor);
    let parts = split_path(path.bytes);
    if path.bytes.len() == 0 {
        (Ok(TargetView::Anchor(anchor.pin)), world)
    } else {
        match refused_component(parts, 0) {
            Some(error) => (Err(error), world),
            None => {
                let (found, after) = walk_run::<T>(
                    world,
                    anchor.pin,
                    parts.drop_last(),
                    0,
                    Some(anchors.filesystem),
                    deadline,
                );
                (
                    match found {
                        Err(error) => Err(error),
                        Ok(parent) => Ok(TargetView::Named { parent, name: parts.last() }),
                    },
                    after,
                )
            },
        }
    }
}

/// What a contract path resolves to.
#[verifier::opaque]
pub open spec fn resolve_run<T: RawTransport>(
    anchors: RunAnchorsView,
    world: T::World,
    path: StoragePathView,
    deadline: Deadline,
) -> (Result<PinnedObjectView, UmbraErrorView>, T::World) {
    let (target, at_parent) = resolve_parent_run::<T>(anchors, world, path, deadline);
    match target {
        Err(error) => (Err(error), at_parent),
        Ok(TargetView::Anchor(pin)) => (Ok(pin), at_parent),
        Ok(TargetView::Named { parent, name }) => {
            let (found, after) = descend_any_run::<T>(at_parent, parent, name, deadline);
            (
                match found {
                    Err(error) => Err(error),
                    Ok(pin) => on_filesystem(
                        pin,
                        anchors.filesystem,
                        utf8_lossy(name),
                        "resolve"@,
                    ),
                },
                after,
            )
        },
    }
}

/// The anchor a contract path is relative to.
pub open spec fn contract_anchor_of(anchors: RunAnchorsView, anchor: StorageAnchor) -> AnchorView {
    match anchor {
        StorageAnchor::Root => anchors.root,
        StorageAnchor::Control => anchors.control,
    }
}

impl RunAnchors {
    /// Resolve every anchor of a run from the export root.
    ///
    /// [`OpenRunIntent::CreateNew`] creates the run directory and its children. The
    /// export and run-parent directories are not created: they are deployment
    /// configuration, and creating a missing one would relocate every run.
    pub fn open<T: RawTransport>(
        transport: &mut T,
        config: &NfsUserspaceConfig,
        run_id: RunId,
        intent: OpenRunIntent,
        deadline: Deadline,
    ) -> (r: StorageResult<Self>)
        ensures
            (res_view(r), final(transport).world()) == open_anchors_run::<T>(
                old(transport).world(),
                config@,
                run_id,
                intent,
                deadline,
            ),
    {
        proof {
            reveal(open_anchors_run);
        }
        let creating = intent == OpenRunIntent::CreateNew;
        let (parent, filesystem) = match run_parent(transport, config, deadline) {
            Ok(placed) => placed,
            Err(error) => {
                return Err(error);
            },
        };
        let run = match run_directory(
            transport,
            &parent,
            run_id,
            creating,
            filesystem,
            deadline,
        ) {
            Ok(pin) => pin,
            Err(error) => {
                return Err(error);
            },
        };
        let root = match named_child(
            transport,
            &run,
            config.root_anchor.as_bytes(),
            creating,
            filesystem,
            deadline,
        ) {
            Ok(pin) => pin,
            Err(error) => {
                return Err(error);
            },
        };
        let control = match named_child(
            transport,
            &run,
            config.control_anchor.as_bytes(),
            creating,
            filesystem,
            deadline,
        ) {
            Ok(pin) => pin,
            Err(error) => {
                return Err(error);
            },
        };
        // Only an absent name says that a run has no private directory: a lookup
        // that failed is no answer about what is there.
        let private = match named_child(
            transport,
            &run,
            layout::PRIVATE_DIR.as_bytes(),
            creating,
            filesystem,
            deadline,
        ) {
            Ok(pin) => Some(Anchor { kind: AnchorKind::Private, pin }),
            Err(error) => {
                if creating || error.kind != ErrorKind::NotFound {
                    return Err(error);
                }
                None
            },
        };
        Ok(
            RunAnchors {
                run: Anchor { kind: AnchorKind::Run, pin: run },
                root: Anchor { kind: AnchorKind::Root, pin: root },
                control: Anchor { kind: AnchorKind::Control, pin: control },
                private,
                filesystem,
            },
        )
    }

    /// The run anchor.
    pub fn run(&self) -> (r: &Anchor)
        ensures
            r@ == self@.run,
    {
        &self.run
    }

    /// The tracee-visible root anchor.
    pub fn root(&self) -> (r: &Anchor)
        ensures
            r@ == self@.root,
    {
        &self.root
    }

    /// The control anchor.
    pub fn control(&self) -> (r: &Anchor)
        ensures
            r@ == self@.control,
    {
        &self.control
    }

    /// The provider-private anchor, when the run has one.
    pub fn private(&self) -> (r: Option<&Anchor>)
        ensures
            match r {
                Some(anchor) => self@.private == Some(anchor@),
                None => self@.private is None,
            },
    {
        match &self.private {
            Some(anchor) => Some(anchor),
            None => None,
        }
    }

    /// The anchor a contract path is relative to.
    pub fn for_contract(&self, anchor: StorageAnchor) -> (r: &Anchor)
        ensures
            r@ == contract_anchor_of(self@, anchor),
    {
        match anchor {
            StorageAnchor::Root => &self.root,
            StorageAnchor::Control => &self.control,
        }
    }

    /// The server file system every object in this run must live on.
    pub fn filesystem(&self) -> (r: Fsid)
        ensures
            r == self@.filesystem,
    {
        self.filesystem
    }

    /// Resolve a contract path to the object it names.
    ///
    /// Every intermediate component must be a directory, and every component,
    /// the last one too, must be on the run's file system.
    pub fn resolve<T: RawTransport>(
        &self,
        transport: &mut T,
        path: &StoragePath,
        deadline: Deadline,
    ) -> (r: StorageResult<PinnedObject>)
        ensures
            (res_view(r), final(transport).world()) == resolve_run::<T>(
                self@,
                old(transport).world(),
                path@,
                deadline,
            ),
    {
        proof {
            reveal(resolve_run);
        }
        match self.resolve_parent(transport, path, deadline) {
            Err(error) => Err(error),
            Ok(Target::Anchor(pin)) => Ok(pin),
            Ok(Target::Named { parent, name }) => match descend_file(
                transport,
                &parent,
                &name,
                deadline,
            ) {
                Err(error) => Err(error),
                Ok(pin) => within(pin, self.filesystem, &name),
            },
        }
    }

    /// Resolve everything but the final component of a contract path.
    ///
    /// This is what a create, a rename or a remove needs: NFSv4 names an object to
    /// mutate as a parent filehandle plus a byte name, never as a path.
    pub fn resolve_parent<T: RawTransport>(
        &self,
        transport: &mut T,
        path: &StoragePath,
        deadline: Deadline,
    ) -> (r: StorageResult<Target>)
        ensures
            (res_view(r), final(transport).world()) == resolve_parent_run::<T>(
                self@,
                old(transport).world(),
                path@,
                deadline,
            ),
    {
        proof {
            reveal(resolve_parent_run);
        }
        let anchor = self.for_contract(path.anchor());
        let bytes = path.as_bytes();
        if bytes.len() == 0 {
            return Ok(Target::Anchor(anchor.pin.clone()));
        }
        let mut parts = match components(bytes) {
            Ok(parts) => parts,
            Err(error) => {
                return Err(error);
            },
        };
        let ghost whole = split_path(bytes@);
        proof {
            split_is_not_empty(bytes@, 0);
            assert(seq_view(parts@).len() == whole.len());
            assert(seq_view(parts@).last() == parts@.last()@);
        }
        match parts.pop() {
            None => Ok(Target::Anchor(anchor.pin.clone())),
            Some(name) => {
                proof {
                    assert(seq_view(parts@) =~= whole.drop_last());
                    assert(name@ == whole.last());
                }
                match walk(
                    transport,
                    anchor.pin.clone(),
                    &parts,
                    Some(self.filesystem),
                    deadline,
                ) {
                    Ok(parent) => Ok(Target::Named { parent, name }),
                    Err(error) => Err(error),
                }
            },
        }
    }
}

/// What a path resolved to before its final component was looked up.
#[derive(Debug, PartialEq, Eq)]
pub enum Target {
    /// The path named the anchor itself.
    Anchor(PinnedObject),
    /// The path named `name` inside `parent`.
    Named {
        /// The directory holding the name.
        parent: PinnedObject,
        /// The final byte-exact component.
        name: ComponentName,
    },
}

/// The content of a [`Target`].
pub enum TargetView {
    /// See [`Target::Anchor`].
    Anchor(PinnedObjectView),
    /// See [`Target::Named`].
    Named {
        /// The directory holding the name.
        parent: PinnedObjectView,
        /// The final byte-exact component.
        name: Seq<u8>,
    },
}

impl View for Target {
    type V = TargetView;

    open spec fn view(&self) -> TargetView {
        match *self {
            Target::Anchor(pin) => TargetView::Anchor(pin@),
            Target::Named { parent, name } => TargetView::Named { parent: parent@, name: name@ },
        }
    }
}

impl Clone for Target {
    fn clone(&self) -> (r: Self)
        ensures
            r@ == self@,
    {
        match self {
            Target::Anchor(pin) => Target::Anchor(pin.clone()),
            Target::Named { parent, name } => Target::Named {
                parent: parent.clone(),
                name: name.clone(),
            },
        }
    }
}

/// Whether every anchor of a run is on the run's file system.
pub open spec fn anchored(anchors: RunAnchorsView) -> bool {
    &&& anchors.run.pin.identity.fsid == anchors.filesystem
    &&& anchors.root.pin.identity.fsid == anchors.filesystem
    &&& anchors.control.pin.identity.fsid == anchors.filesystem
    &&& anchors.private is Some ==> anchors.private->0.pin.identity.fsid == anchors.filesystem
}

/// Every anchor of an opened run is on the file system of the configured export,
/// whatever the server answered.
pub proof fn an_opened_run_is_on_one_filesystem<T: RawTransport>(
    world: T::World,
    config: NfsUserspaceConfigView,
    run_id: RunId,
    intent: OpenRunIntent,
    deadline: Deadline,
)
    ensures
        open_anchors_run::<T>(world, config, run_id, intent, deadline).0 matches Ok(anchors)
            ==> anchored(anchors),
{
    reveal(open_anchors_run);
}

/// A walk bounded to a file system never leaves it.
pub proof fn a_bounded_walk_stays_on_its_filesystem<T: RawTransport>(
    world: T::World,
    current: PinnedObjectView,
    names: Seq<Seq<u8>>,
    from: int,
    filesystem: Fsid,
    deadline: Deadline,
)
    requires
        current.identity.fsid == filesystem,
    ensures
        walk_run::<T>(world, current, names, from, Some(filesystem), deadline).0 matches Ok(pin)
            ==> pin.identity.fsid == filesystem,
    decreases names.len() - from,
{
    if from < names.len() {
        let (found, after) = descend_run::<T>(
            world,
            current,
            names[from],
            Some(filesystem),
            deadline,
        );
        if let Ok(next) = found {
            a_bounded_walk_stays_on_its_filesystem::<T>(
                after,
                next,
                names,
                from + 1,
                filesystem,
                deadline,
            );
        }
    }
}

/// Whether a walk looks every name up in a directory.
pub open spec fn through_directories<T: RawTransport>(
    world: T::World,
    current: PinnedObjectView,
    names: Seq<Seq<u8>>,
    from: int,
    filesystem: Option<Fsid>,
    deadline: Deadline,
) -> bool
    decreases names.len() - from,
{
    from < names.len() ==> {
        let (found, after) = descend_run::<T>(world, current, names[from], filesystem, deadline);
        &&& current.kind == Nfs4Type::Directory
        &&& found matches Ok(next) && next.kind == Nfs4Type::Directory
        &&& through_directories::<T>(after, found->Ok_0, names, from + 1, filesystem, deadline)
    }
}

proof fn a_walk_goes_through_directories<T: RawTransport>(
    world: T::World,
    current: PinnedObjectView,
    names: Seq<Seq<u8>>,
    from: int,
    filesystem: Option<Fsid>,
    deadline: Deadline,
)
    ensures
        walk_run::<T>(world, current, names, from, filesystem, deadline).0 is Ok
            ==> through_directories::<T>(world, current, names, from, filesystem, deadline),
    decreases names.len() - from,
{
    if from < names.len() {
        let (found, after) = descend_run::<T>(world, current, names[from], filesystem, deadline);
        if let Ok(next) = found {
            a_walk_goes_through_directories::<T>(
                after,
                next,
                names,
                from + 1,
                filesystem,
                deadline,
            );
        }
    }
}

proof fn no_refused_component(parts: Seq<Seq<u8>>, from: int, at: int)
    requires
        refused_component(parts, from) is None,
        0 <= from <= at < parts.len(),
    ensures
        valid_component(parts[at]),
    decreases at - from,
{
    if from < at {
        no_refused_component(parts, from + 1, at);
    }
}

/// A contract path never leaves its anchor: every component of a path that resolves
/// is a plain name, and every directory on the way was proven to be one, so a
/// server-side symlink stops the walk.
pub proof fn a_path_is_contained_in_its_anchor<T: RawTransport>(
    anchors: RunAnchorsView,
    world: T::World,
    path: StoragePathView,
    deadline: Deadline,
)
    requires
        path.bytes.len() > 0,
    ensures
        resolve_run::<T>(anchors, world, path, deadline).0 is Ok ==> {
            let parts = split_path(path.bytes);
            let anchor = contract_anchor_of(anchors, path.anchor).pin;
            let home = Some(anchors.filesystem);
            let (parent, _) = walk_run::<T>(world, anchor, parts.drop_last(), 0, home, deadline);
            &&& forall|i: int| 0 <= i < parts.len() ==> valid_component(#[trigger] parts[i])
            &&& through_directories::<T>(world, anchor, parts.drop_last(), 0, home, deadline)
            &&& parent matches Ok(pin) && pin.kind == Nfs4Type::Directory
        },
{
    reveal(resolve_run);
    reveal(resolve_parent_run);
    let parts = split_path(path.bytes);
    let anchor = contract_anchor_of(anchors, path.anchor).pin;
    a_walk_goes_through_directories::<T>(
        world,
        anchor,
        parts.drop_last(),
        0,
        Some(anchors.filesystem),
        deadline,
    );
    if refused_component(parts, 0) is None {
        assert forall|i: int| 0 <= i < parts.len() implies valid_component(
            #[trigger] parts[i],
        ) by {
            no_refused_component(parts, 0, i);
        }
    }
}

/// No contract path resolves to an object outside the run's file system, nor to a
/// name in a directory outside it.
pub proof fn resolution_stays_on_the_run_filesystem<T: RawTransport>(
    anchors: RunAnchorsView,
    world: T::World,
    path: StoragePathView,
    deadline: Deadline,
)
    requires
        anchored(anchors),
    ensures
        resolve_run::<T>(anchors, world, path, deadline).0 matches Ok(pin)
            ==> pin.identity.fsid == anchors.filesystem,
        resolve_parent_run::<T>(anchors, world, path, deadline).0 matches Ok(TargetView::Named {
            parent,
            ..
        }) ==> parent.identity.fsid == anchors.filesystem,
{
    reveal(resolve_run);
    reveal(resolve_parent_run);
    a_bounded_walk_stays_on_its_filesystem::<T>(
        world,
        contract_anchor_of(anchors, path.anchor).pin,
        split_path(path.bytes).drop_last(),
        0,
        anchors.filesystem,
        deadline,
    );
}

/// `GUARDED4` create one file and write its whole contents.
pub open spec fn create_file_run<T: RawTransport>(
    owners: RegistryView,
    world: T::World,
    parent: PinnedObjectView,
    name: Seq<u8>,
    bytes: Seq<u8>,
    deadline: Deadline,
) -> (Result<(), UmbraErrorView>, RegistryView, T::World) {
    let (opened, minted, at_open) = open_object_run::<T>(
        owners,
        world,
        parent,
        name,
        CreateDisposition::CreateNew { mode: 0o600 },
        ShareAccess::WRITE,
        deadline,
    );
    match opened {
        Err(error) => (Err(to_umbra(error, "open_run"@)), minted, at_open),
        Ok(open) => match stateid_answer(open.file, minted.session) {
            Err(error) => (
                Err(to_umbra(error, "open_run"@)),
                minted,
                close_run::<T>(open.file, minted.session, at_open, deadline).1,
            ),
            Ok(stateid) => {
                let call = write_call(open.file.handle, stateid, 0, Stability::FileSync, bytes);
                let written = T::after(at_open, call, deadline);
                let result = whole_write(T::answer(at_open, call, deadline), name, bytes.len());
                let (outcome, after) = close_run::<T>(
                    open.file,
                    minted.session,
                    written,
                    deadline,
                );
                (
                    match (result, close_failure(outcome)) {
                        (Ok(()), Some(error)) => Err(to_umbra(error, "open_run"@)),
                        _ => result,
                    },
                    minted,
                    after,
                )
            },
        },
    }
}

/// What the answer to a write of a whole private file amounts to: a short write
/// is a failure, because it would leave a truncated file.
pub open spec fn whole_write(answer: Answer, name: Seq<u8>, length: nat) -> Result<
    (),
    UmbraErrorView,
> {
    match write_answer(answer) {
        Err(error) => Err(to_umbra(error, "open_run"@)),
        Ok(reply) => if reply.count == length {
            Ok(())
        } else {
            Err(
                umbra(
                    ErrorKind::Io,
                    "open_run"@,
                    "the server accepted "@ + decimal(reply.count as nat) + " of "@ + decimal(
                        length,
                    ) + " bytes of "@ + utf8_lossy(name),
                ),
            )
        },
    }
}

fn create_file<T: RawTransport>(
    transport: &mut T,
    owners: &mut OpenOwnerRegistry,
    parent: &PinnedObject,
    name: &ComponentName,
    bytes: &[u8],
    deadline: Deadline,
) -> (r: StorageResult<()>)
    ensures
        (res_view(r), final(owners)@, final(transport).world()) == create_file_run::<T>(
            old(owners)@,
            old(transport).world(),
            parent@,
            name@,
            bytes@,
            deadline,
        ),
{
    let open = match OpenObject::open(
        owners,
        transport,
        parent,
        name,
        CreateDisposition::CreateNew { mode: 0o600 },
        ShareAccess::WRITE,
        deadline,
    ) {
        Ok(open) => open,
        Err(error) => {
            return Err(error.to_umbra("open_run"));
        },
    };
    let stateid = match open.stateid(owners.session()) {
        Ok(stateid) => stateid,
        Err(error) => {
            let _ = open.close(owners.session(), transport, deadline);
            return Err(error.to_umbra("open_run"));
        },
    };
    // Stable, because this is run-identifying state a later reader must find and
    // no COMMIT follows. It is a request for stability, not a durability claim.
    let written = transport.write(
        open.handle(),
        stateid,
        0,
        Stability::FileSync,
        copy_bytes(bytes),
        deadline,
    );
    let result: StorageResult<()> = match written {
        Err(error) => Err(error.to_umbra("open_run")),
        Ok(reply) => {
            if reply.count as u64 == bytes.len() as u64 {
                Ok(())
            } else {
                Err(
                    UmbraError::new(
                        ErrorKind::Io,
                        "open_run",
                        join3(
                            "the server accepted ",
                            decimal_text(reply.count as u64).as_str(),
                            " of ",
                        ).concat(decimal_text(bytes.len() as u64).as_str()).concat(
                            " bytes of ",
                        ).concat(lossy_text(name.as_bytes()).as_str()).as_str(),
                    ),
                )
            }
        },
    };
    // A CLOSE the server refused leaves the open live; the write's own error still
    // wins when there is one.
    match open.close(owners.session(), transport, deadline).failure() {
        None => result,
        Some(error) => match result {
            Ok(()) => Err(error.to_umbra("open_run")),
            Err(earlier) => Err(earlier),
        },
    }
}

/// Create the named directory or file of a private directory.
pub open spec fn private_name_run<T: RawTransport>(
    owners: RegistryView,
    world: T::World,
    private: PinnedObjectView,
    name: Seq<char>,
    bytes: Seq<u8>,
    deadline: Deadline,
) -> (Result<(), UmbraErrorView>, RegistryView, T::World) {
    match component_of(vstd::utf8::encode_utf8(name)) {
        Err(error) => (Err(error), owners, world),
        Ok(checked) => create_file_run::<T>(owners, world, private, checked, bytes, deadline),
    }
}

/// The failure of a manifest that could not be encoded.
pub open spec fn unencoded_manifest(reason: Seq<char>) -> UmbraErrorView {
    umbra(
        ErrorKind::InvalidState,
        "open_run"@,
        "the run manifest could not be encoded: "@ + reason,
    )
}

/// Write the provider-private state a newly created run must carry: the retry
/// directory, the writer epoch as a little-endian zero, and the manifest.
pub open spec fn provision_run<T: RawTransport>(
    owners: RegistryView,
    world: T::World,
    private: PinnedObjectView,
    manifest: Result<Seq<u8>, Seq<char>>,
    deadline: Deadline,
) -> (Result<(), UmbraErrorView>, RegistryView, T::World) {
    match component_of(vstd::utf8::encode_utf8(layout::RETRIES_DIR@)) {
        Err(error) => (Err(error), owners, world),
        Ok(retries) => {
            let (made, at_retries) = make_directory_run::<T>(
                world,
                private.handle,
                retries,
                deadline,
            );
            match made {
                Err(error) => (Err(error), owners, at_retries),
                Ok(_) => {
                    let (counted, minted, at_epoch) = private_name_run::<T>(
                        owners,
                        at_retries,
                        private,
                        layout::EPOCH_FILE@,
                        le_bytes(0, 8),
                        deadline,
                    );
                    match counted {
                        Err(error) => (Err(error), minted, at_epoch),
                        Ok(()) => match manifest {
                            Err(reason) => (
                                Err(unencoded_manifest(reason)),
                                minted,
                                at_epoch,
                            ),
                            Ok(bytes) => private_name_run::<T>(
                                minted,
                                at_epoch,
                                private,
                                layout::MANIFEST_FILE@,
                                bytes,
                                deadline,
                            ),
                        },
                    }
                },
            }
        },
    }
}

fn create_private_file<T: RawTransport>(
    transport: &mut T,
    owners: &mut OpenOwnerRegistry,
    private: &PinnedObject,
    name: &str,
    bytes: &[u8],
    deadline: Deadline,
) -> (r: StorageResult<()>)
    ensures
        (res_view(r), final(owners)@, final(transport).world()) == private_name_run::<T>(
            old(owners)@,
            old(transport).world(),
            private@,
            name@,
            bytes@,
            deadline,
        ),
{
    match layout_component(name) {
        Err(error) => Err(error),
        Ok(checked) => create_file(transport, owners, private, &checked, bytes, deadline),
    }
}

/// Write the provider-private state a newly created run must carry.
///
/// `manifest` is the encoding of run id, immutable base and format version, or why
/// there is none. The writer lock is not written here: admission creates it
/// exclusively, and creating it beforehand would turn every acquisition into a
/// collision.
pub fn provision_private_state<T: RawTransport>(
    transport: &mut T,
    owners: &mut OpenOwnerRegistry,
    private: &Anchor,
    manifest: Result<Vec<u8>, String>,
    deadline: Deadline,
) -> (r: StorageResult<()>)
    ensures
        (res_view(r), final(owners)@, final(transport).world()) == provision_run::<T>(
            old(owners)@,
            old(transport).world(),
            private@.pin,
            res_view(manifest),
            deadline,
        ),
{
    let retries = match layout_component(layout::RETRIES_DIR) {
        Ok(name) => name,
        Err(error) => {
            return Err(error);
        },
    };
    match create_directory_at(transport, private.pin.handle(), &retries, deadline) {
        Ok(_) => {},
        Err(error) => {
            return Err(error);
        },
    }
    match create_private_file(
        transport,
        owners,
        &private.pin,
        layout::EPOCH_FILE,
        little_endian(0, 8).as_slice(),
        deadline,
    ) {
        Ok(()) => {},
        Err(error) => {
            return Err(error);
        },
    }
    match manifest {
        Err(reason) => Err(
            UmbraError::new(
                ErrorKind::InvalidState,
                "open_run",
                join("the run manifest could not be encoded: ", reason.as_str()).as_str(),
            ),
        ),
        Ok(bytes) => create_private_file(
            transport,
            owners,
            &private.pin,
            layout::MANIFEST_FILE,
            bytes.as_slice(),
            deadline,
        ),
    }
}

/// Bound on the private files a run's identity is read from.
pub const MAX_PRIVATE_FILE_BYTES: u32 = 65536;

/// The failure of a private file past the bound.
pub open spec fn oversized_private_file(name: Seq<char>) -> UmbraErrorView {
    umbra(
        ErrorKind::CorruptJournal,
        "open_run"@,
        "the run's .provider/"@ + name + " exceeds the "@ + decimal(MAX_PRIVATE_FILE_BYTES as nat)
            + "-byte bound before end of file; it is refused rather than read as a truncated one"@,
    )
}

/// Read one whole private file, following short replies to end of file, or nothing
/// when the name is absent. A file past the bound is refused.
pub open spec fn read_private_run<T: RawTransport>(
    world: T::World,
    private: PinnedObjectView,
    name: Seq<char>,
    deadline: Deadline,
) -> (Result<Option<Seq<u8>>, UmbraErrorView>, T::World) {
    match component_of(vstd::utf8::encode_utf8(name)) {
        Err(error) => (Err(error), world),
        Ok(checked) => {
            let (found, at_file) = descend_any_run::<T>(world, private, checked, deadline);
            match found {
                Err(error) => (
                    if error.kind == ErrorKind::NotFound {
                        Ok(None)
                    } else {
                        Err(error)
                    },
                    at_file,
                ),
                Ok(pin) => {
                    let (read, after) = whole_run::<T>(
                        at_file,
                        pin.handle,
                        anonymous(),
                        MAX_PRIVATE_FILE_BYTES,
                        deadline,
                    );
                    (
                        match read {
                            Err(error) => Err(to_umbra(error, "open_run"@)),
                            Ok(whole) => if whole.complete {
                                Ok(Some(whole.data))
                            } else {
                                Err(oversized_private_file(name))
                            },
                        },
                        after,
                    )
                },
            }
        },
    }
}

fn read_private_file<T: RawTransport>(
    transport: &mut T,
    private: &Anchor,
    name: &str,
    deadline: Deadline,
) -> (r: StorageResult<Option<Vec<u8>>>)
    ensures
        (
            match r {
                Ok(found) => Ok(opt_view(found)),
                Err(error) => Err(error@),
            },
            final(transport).world(),
        ) == read_private_run::<T>(old(transport).world(), private@.pin, name@, deadline),
{
    let checked = match layout_component(name) {
        Ok(checked) => checked,
        Err(error) => {
            return Err(error);
        },
    };
    let pinned = match descend_file(transport, &private.pin, &checked, deadline) {
        Ok(pinned) => pinned,
        Err(error) => {
            if error.kind == ErrorKind::NotFound {
                return Ok(None);
            }
            return Err(error);
        },
    };
    match read_whole(
        transport,
        pinned.handle(),
        Stateid::anonymous(),
        MAX_PRIVATE_FILE_BYTES,
        deadline,
    ) {
        Err(error) => Err(error.to_umbra("open_run")),
        Ok(whole) => {
            if whole.complete {
                return Ok(Some(whole.data));
            }
            Err(
                UmbraError::new(
                    ErrorKind::CorruptJournal,
                    "open_run",
                    join3("the run's .provider/", name, " exceeds the ").concat(
                        decimal_text(MAX_PRIVATE_FILE_BYTES as u64).as_str(),
                    ).concat(
                        "-byte bound before end of file; it is refused rather than read as a truncated one",
                    ).as_str(),
                ),
            )
        },
    }
}

/// What reading a run's manifest bytes yields. A run without one is refused.
pub open spec fn read_manifest_run<T: RawTransport>(
    world: T::World,
    private: PinnedObjectView,
    deadline: Deadline,
) -> (Result<Seq<u8>, UmbraErrorView>, T::World) {
    let (found, after) = read_private_run::<T>(world, private, layout::MANIFEST_FILE@, deadline);
    (
        match found {
            Err(error) => Err(error),
            Ok(Some(bytes)) => Ok(bytes),
            Ok(None) => Err(
                umbra(
                    ErrorKind::CorruptJournal,
                    "open_run"@,
                    "the run has no .provider/manifest, so its identity cannot be proven; an existing run without one is refused rather than adopted"@,
                ),
            ),
        },
        after,
    )
}

/// Read the bytes of a run's manifest, which [`read_persisted_state`] judges once
/// they are decoded.
pub fn read_manifest<T: RawTransport>(
    transport: &mut T,
    private: &Anchor,
    deadline: Deadline,
) -> (r: StorageResult<Vec<u8>>)
    ensures
        (res_view(r), final(transport).world()) == read_manifest_run::<T>(
            old(transport).world(),
            private@.pin,
            deadline,
        ),
{
    match read_private_file(transport, private, layout::MANIFEST_FILE, deadline) {
        Err(error) => Err(error),
        Ok(Some(bytes)) => Ok(bytes),
        Ok(None) => Err(
            UmbraError::new(
                ErrorKind::CorruptJournal,
                "open_run",
                "the run has no .provider/manifest, so its identity cannot be proven; an existing run without one is refused rather than adopted",
            ),
        ),
    }
}

/// What a run's manifest records.
#[derive(Debug, PartialEq, Eq)]
pub struct RunManifest {
    /// Run identity.
    pub run_id: RunId,
    /// Immutable base.
    pub immutable_base: ImmutableBaseContract,
    /// Format version.
    pub format_version: u32,
}

/// The content of a [`RunManifest`].
pub struct RunManifestView {
    /// Run identity.
    pub run_id: RunId,
    /// Immutable base.
    pub immutable_base: ImmutableBaseContractView,
    /// Format version.
    pub format_version: u32,
}

impl View for RunManifest {
    type V = RunManifestView;

    open spec fn view(&self) -> RunManifestView {
        RunManifestView {
            run_id: self.run_id,
            immutable_base: self.immutable_base@,
            format_version: self.format_version,
        }
    }
}

/// What a run's persisted private state says about its identity.
#[derive(Debug, PartialEq, Eq)]
pub struct PersistedRunState {
    /// Run identity the manifest records.
    pub run_id: RunId,
    /// Immutable base the manifest records.
    pub immutable_base: ImmutableBaseContract,
    /// Format version the manifest records.
    pub format_version: u32,
    /// Writer epoch the epoch file records.
    pub epoch: LeaseEpoch,
}

/// The content of a [`PersistedRunState`].
pub struct PersistedRunStateView {
    /// Run identity the manifest records.
    pub run_id: RunId,
    /// Immutable base the manifest records.
    pub immutable_base: ImmutableBaseContractView,
    /// Format version the manifest records.
    pub format_version: u32,
    /// Writer epoch the epoch file records.
    pub epoch: LeaseEpoch,
}

impl View for PersistedRunState {
    type V = PersistedRunStateView;

    open spec fn view(&self) -> PersistedRunStateView {
        PersistedRunStateView {
            run_id: self.run_id,
            immutable_base: self.immutable_base@,
            format_version: self.format_version,
            epoch: self.epoch,
        }
    }
}

impl Clone for PersistedRunState {
    fn clone(&self) -> (r: Self)
        ensures
            r@ == self@,
    {
        PersistedRunState {
            run_id: self.run_id,
            immutable_base: self.immutable_base.clone(),
            format_version: self.format_version,
            epoch: self.epoch,
        }
    }
}

/// Why a decoded manifest does not identify the requested run, if it does not.
pub open spec fn manifest_fault(
    decoded: Result<RunManifestView, Seq<char>>,
    expected: RunManifestView,
) -> Option<UmbraErrorView> {
    match decoded {
        Err(reason) => Some(
            umbra(
                ErrorKind::CorruptJournal,
                "open_run"@,
                "the run manifest does not decode ("@ + reason
                    + "); the bytes are retained on the server for inspection and the run is refused"@,
            ),
        ),
        Ok(found) => if found.run_id != expected.run_id {
            Some(
                umbra(
                    ErrorKind::InvalidState,
                    "open_run"@,
                    "the run directory's manifest records run "@ + hyphenated(found.run_id.0@)
                        + ", not the requested "@ + hyphenated(expected.run_id.0@),
                ),
            )
        } else if found.format_version != expected.format_version {
            Some(
                umbra(
                    ErrorKind::ProtocolMismatch,
                    "open_run"@,
                    "the run on the server was written at format version "@ + decimal(
                        found.format_version as nat,
                    ) + ", not the "@ + decimal(expected.format_version as nat)
                        + " this request declares"@,
                ),
            )
        } else if found.immutable_base != expected.immutable_base {
            Some(
                umbra(
                    ErrorKind::InvalidState,
                    "open_run"@,
                    "the run was created over immutable base "@ + quoted(
                        found.immutable_base.identity,
                    ) + ", not the "@ + quoted(expected.immutable_base.identity)
                        + " this request declares; the run is refused rather than rebound to a different base"@,
                ),
            )
        } else {
            None
        },
    }
}

/// The writer epoch an epoch file's bytes record. A missing or misshapen file is
/// missing recovery evidence, never a run that had no writer.
pub open spec fn recorded_epoch(found: Option<Seq<u8>>, format_version: u32) -> Result<
    LeaseEpoch,
    UmbraErrorView,
> {
    match found {
        None => Err(
            umbra(
                ErrorKind::CorruptJournal,
                "open_run"@,
                "this run has a valid format-"@ + decimal(format_version as nat)
                    + " manifest but no .provider/epoch; every run this provider or the mounted adapter creates writes that file, so its absence is missing recovery evidence rather than a run that never had a writer. The run is refused rather than admitted at epoch 1, which could regress an epoch ladder it already reached."@,
            ),
        ),
        Some(bytes) => if bytes.len() != 8 {
            Err(
                umbra(
                    ErrorKind::CorruptJournal,
                    "open_run"@,
                    "the run's .provider/epoch is "@ + decimal(bytes.len())
                        + " bytes, not the 8 a little-endian u64 occupies; the recorded writer epoch cannot be read and the run is refused rather than restarted at epoch 1"@,
                ),
            )
        } else {
            Ok(LeaseEpoch(le_value(bytes) as u64))
        },
    }
}

/// Judge a decoded manifest, and then read the writer epoch.
pub open spec fn persisted_state_run<T: RawTransport>(
    world: T::World,
    private: PinnedObjectView,
    decoded: Result<RunManifestView, Seq<char>>,
    expected: RunManifestView,
    deadline: Deadline,
) -> (Result<PersistedRunStateView, UmbraErrorView>, T::World) {
    match manifest_fault(decoded, expected) {
        Some(error) => (Err(error), world),
        None => {
            let (found, after) = read_private_run::<T>(
                world,
                private,
                layout::EPOCH_FILE@,
                deadline,
            );
            (
                match found {
                    Err(error) => Err(error),
                    Ok(bytes) => match recorded_epoch(bytes, expected.format_version) {
                        Err(error) => Err(error),
                        Ok(epoch) => Ok(
                            PersistedRunStateView {
                                run_id: expected.run_id,
                                immutable_base: expected.immutable_base,
                                format_version: expected.format_version,
                                epoch,
                            },
                        ),
                    },
                },
                after,
            )
        },
    }
}

fn check_manifest(
    decoded: &Result<RunManifest, String>,
    expected_run: RunId,
    expected_base: &ImmutableBaseContract,
    expected_format: u32,
) -> (r: StorageResult<()>)
    ensures
        match manifest_fault(
            res_view(*decoded),
            RunManifestView {
                run_id: expected_run,
                immutable_base: expected_base@,
                format_version: expected_format,
            },
        ) {
            Some(error) => r is Err && r->Err_0@ == error,
            None => r is Ok,
        },
{
    let found = match decoded {
        Ok(found) => found,
        Err(reason) => {
            return Err(
                UmbraError::new(
                    ErrorKind::CorruptJournal,
                    "open_run",
                    join3(
                        "the run manifest does not decode (",
                        reason.as_str(),
                        "); the bytes are retained on the server for inspection and the run is refused",
                    ).as_str(),
                ),
            );
        },
    };
    if !found.run_id.same(&expected_run) {
        return Err(
            UmbraError::new(
                ErrorKind::InvalidState,
                "open_run",
                join3(
                    "the run directory's manifest records run ",
                    found.run_id.text().as_str(),
                    ", not the requested ",
                ).concat(expected_run.text().as_str()).as_str(),
            ),
        );
    }
    if found.format_version != expected_format {
        return Err(
            UmbraError::new(
                ErrorKind::ProtocolMismatch,
                "open_run",
                join3(
                    "the run on the server was written at format version ",
                    decimal_text(found.format_version as u64).as_str(),
                    ", not the ",
                ).concat(decimal_text(expected_format as u64).as_str()).concat(
                    " this request declares",
                ).as_str(),
            ),
        );
    }
    if !found.immutable_base.same(expected_base) {
        return Err(
            UmbraError::new(
                ErrorKind::InvalidState,
                "open_run",
                join3(
                    "the run was created over immutable base ",
                    quoted_text(found.immutable_base.identity.as_str()).as_str(),
                    ", not the ",
                ).concat(quoted_text(expected_base.identity.as_str()).as_str()).concat(
                    " this request declares; the run is refused rather than rebound to a different base",
                ).as_str(),
            ),
        );
    }
    Ok(())
}

fn read_epoch(found: Option<Vec<u8>>, format_version: u32) -> (r: StorageResult<LeaseEpoch>)
    ensures
        (match r {
            Ok(epoch) => Ok(epoch),
            Err(error) => Err(error@),
        }) == recorded_epoch(opt_view(found), format_version),
{
    match found {
        None => Err(
            UmbraError::new(
                ErrorKind::CorruptJournal,
                "open_run",
                join3(
                    "this run has a valid format-",
                    decimal_text(format_version as u64).as_str(),
                    " manifest but no .provider/epoch; every run this provider or the mounted adapter creates writes that file, so its absence is missing recovery evidence rather than a run that never had a writer. The run is refused rather than admitted at epoch 1, which could regress an epoch ladder it already reached.",
                ).as_str(),
            ),
        ),
        Some(bytes) => {
            if bytes.len() != 8 {
                return Err(
                    UmbraError::new(
                        ErrorKind::CorruptJournal,
                        "open_run",
                        join3(
                            "the run's .provider/epoch is ",
                            decimal_text(bytes.len() as u64).as_str(),
                            " bytes, not the 8 a little-endian u64 occupies; the recorded writer epoch cannot be read and the run is refused rather than restarted at epoch 1",
                        ).as_str(),
                    ),
                );
            }
            Ok(LeaseEpoch(from_little_endian(bytes.as_slice())))
        },
    }
}

/// Read and validate a run's persisted identity before admitting a session.
///
/// `decoded` is what the bytes of [`read_manifest`] decode to, or why they do not.
/// A manifest that names another run, another immutable base or another format
/// version is refused, and so is a missing or misshapen epoch: evidence is
/// preserved, never inferred.
pub fn read_persisted_state<T: RawTransport>(
    transport: &mut T,
    private: &Anchor,
    decoded: Result<RunManifest, String>,
    expected_run: RunId,
    expected_base: &ImmutableBaseContract,
    expected_format: u32,
    deadline: Deadline,
) -> (r: StorageResult<PersistedRunState>)
    ensures
        (res_view(r), final(transport).world()) == persisted_state_run::<T>(
            old(transport).world(),
            private@.pin,
            res_view(decoded),
            RunManifestView {
                run_id: expected_run,
                immutable_base: expected_base@,
                format_version: expected_format,
            },
            deadline,
        ),
{
    match check_manifest(&decoded, expected_run, expected_base, expected_format) {
        Err(error) => {
            return Err(error);
        },
        Ok(()) => {},
    }
    let found = match read_private_file(transport, private, layout::EPOCH_FILE, deadline) {
        Ok(found) => found,
        Err(error) => {
            return Err(error);
        },
    };
    match read_epoch(found, expected_format) {
        Err(error) => Err(error),
        Ok(epoch) => Ok(
            PersistedRunState {
                run_id: expected_run,
                immutable_base: expected_base.clone(),
                format_version: expected_format,
                epoch,
            },
        ),
    }
}

/// The epoch that provisioning writes reads back as zero.
pub proof fn a_provisioned_epoch_reads_back_as_zero(format_version: u32)
    ensures
        recorded_epoch(Some(le_bytes(0, 8)), format_version) == Ok::<LeaseEpoch, UmbraErrorView>(
            LeaseEpoch(0),
        ),
{
    radix_of_eight();
    little_endian_round_trip(0, 8);
}

/// A persisted state is only ever admitted for the run, base and format that were
/// asked for.
pub proof fn an_admitted_run_is_the_requested_run<T: RawTransport>(
    world: T::World,
    private: PinnedObjectView,
    decoded: Result<RunManifestView, Seq<char>>,
    expected: RunManifestView,
    deadline: Deadline,
)
    ensures
        persisted_state_run::<T>(world, private, decoded, expected, deadline).0 is Ok ==> decoded
            == Ok::<RunManifestView, Seq<char>>(expected),
{
}

} // verus!
