//! The storage contract's vocabulary: identities, paths, requests, responses and
//! the error a caller receives.
use vstd::prelude::*;

pub mod paths;

use crate::bytes::{copy_bytes, copy_range, same_bytes};
use crate::text::{hex, join3};

verus! {

/// The view of an optional value.
pub open spec fn opt_view<T: View>(value: Option<T>) -> Option<T::V> {
    match value {
        Some(inner) => Some(inner@),
        None => None,
    }
}

/// The view of an outcome, success or failure.
pub open spec fn res_view<T: View, E: View>(value: Result<T, E>) -> Result<T::V, E::V> {
    match value {
        Ok(inner) => Ok(inner@),
        Err(error) => Err(error@),
    }
}

/// The view of every element, in order.
pub open spec fn seq_view<T: View>(items: Seq<T>) -> Seq<T::V> {
    Seq::new(items.len(), |i: int| items[i]@)
}

/// Failure kinds the contract distinguishes.
#[derive(Clone, Copy, Debug, PartialEq, Eq, Structural)]
pub enum ErrorKind {
    /// Nothing has that name.
    NotFound,
    /// The name is taken.
    AlreadyExists,
    /// A guarantee this provider does not offer.
    UnsupportedCapability,
    /// The caller may not do this.
    Denied,
    /// The request itself is wrong.
    InvalidInput,
    /// A handle or cursor no longer names what it did.
    StaleHandle,
    /// Writer authority is missing or lost.
    LeaseLost,
    /// The path cannot be resolved inside its anchor.
    InvalidPath,
    /// The peer and this provider disagree about the protocol.
    ProtocolMismatch,
    /// A server-side I/O failure.
    Io,
    /// The server cannot be reached or cannot answer now.
    StorageUnavailable,
    /// Authorised but not wired.
    NotImplemented,
    /// Recorded evidence is missing or unreadable.
    CorruptJournal,
    /// The state contradicts the request.
    InvalidState,
}

/// What a caller of the contract receives when an operation fails.
#[derive(Debug, PartialEq, Eq)]
pub struct UmbraError {
    /// The failure kind.
    pub kind: ErrorKind,
    /// The operation that failed.
    pub operation: String,
    /// The full diagnosis.
    pub context: String,
}

/// The content of an [`UmbraError`].
pub struct UmbraErrorView {
    /// The failure kind.
    pub kind: ErrorKind,
    /// The operation that failed.
    pub operation: Seq<char>,
    /// The full diagnosis.
    pub context: Seq<char>,
}

impl View for UmbraError {
    type V = UmbraErrorView;

    open spec fn view(&self) -> UmbraErrorView {
        UmbraErrorView {
            kind: self.kind,
            operation: self.operation@,
            context: self.context@,
        }
    }
}

/// The failure with these three parts.
pub open spec fn umbra(
    kind: ErrorKind,
    operation: Seq<char>,
    context: Seq<char>,
) -> UmbraErrorView {
    UmbraErrorView { kind, operation, context }
}

impl UmbraError {
    /// A failure of `kind` in `operation`, explained by `context`.
    pub fn new(kind: ErrorKind, operation: &str, context: &str) -> (r: Self)
        ensures
            r@ == umbra(kind, operation@, context@),
    {
        UmbraError { kind, operation: operation.to_owned(), context: context.to_owned() }
    }
}

impl Clone for UmbraError {
    fn clone(&self) -> (r: Self)
        ensures
            r == *self,
    {
        UmbraError {
            kind: self.kind,
            operation: self.operation.clone(),
            context: self.context.clone(),
        }
    }
}

/// Result of a contract operation.
pub type StorageResult<T> = Result<T, UmbraError>;

/// The canonical text of a 128-bit identifier: five groups of lower-case
/// hexadecimal digits of eight, four, four, four and twelve.
pub open spec fn hyphenated(id: Seq<u8>) -> Seq<char> {
    hex(id.subrange(0, 4)) + "-"@ + hex(id.subrange(4, 6)) + "-"@ + hex(id.subrange(6, 8)) + "-"@
        + hex(id.subrange(8, 10)) + "-"@ + hex(id.subrange(10, 16))
}

/// Render a 128-bit identifier in its canonical text form.
///
/// Wraps `uuid::Uuid::from_bytes` and the `Display` of `uuid::Uuid::hyphenated`,
/// which the crate documents as lower-case hexadecimal in the 8-4-4-4-12 grouping
/// over the sixteen bytes in order.
#[verifier::external_body]
pub(crate) fn hyphenated_text(id: &[u8; 16]) -> (r: String)
    ensures
        r@ == hyphenated(id@),
{
    uuid::Uuid::from_bytes(*id).hyphenated().to_string()
}

/// Whether two 128-bit identifiers are the same.
pub fn same_id(a: &[u8; 16], b: &[u8; 16]) -> (r: bool)
    ensures
        r == (a == b),
{
    let mut i: usize = 0;
    while i < 16
        invariant
            i <= 16,
            forall|j: int| 0 <= j < i ==> a@[j] == b@[j],
        decreases 16 - i,
    {
        if a[i] != b[i] {
            return false;
        }
        i += 1;
    }
    proof {
        assert(a@ =~= b@);
        assert(a =~= b);
    }
    true
}

/// Identity of one run.
#[derive(Clone, Copy, Debug, PartialEq, Eq, PartialOrd, Ord, Hash)]
pub struct RunId(pub [u8; 16]);

/// Identity of one operation.
#[derive(Clone, Copy, Debug, PartialEq, Eq, PartialOrd, Ord, Hash)]
pub struct OperationId(pub [u8; 16]);

/// Identity of one object, opaque.
#[derive(Clone, Copy, Debug, PartialEq, Eq, PartialOrd, Ord, Hash)]
pub struct ObjectId(pub [u8; 16]);

/// Writer epoch: a rung of the ownership ladder.
#[derive(Clone, Copy, Debug, PartialEq, Eq, PartialOrd, Ord, Hash, Structural)]
pub struct LeaseEpoch(pub u64);

/// The identity a retry is matched on.
#[derive(Debug, PartialEq, Eq, PartialOrd, Ord, Hash)]
pub struct IdempotencyKey(pub String);

/// A writer's name.
#[derive(Debug, PartialEq, Eq, PartialOrd, Ord, Hash)]
pub struct WriterId(pub String);

impl View for IdempotencyKey {
    type V = Seq<char>;

    open spec fn view(&self) -> Seq<char> {
        self.0@
    }
}

impl Clone for IdempotencyKey {
    fn clone(&self) -> (r: Self)
        ensures
            r == *self,
    {
        IdempotencyKey(self.0.clone())
    }
}

impl IdempotencyKey {
    /// Whether two keys are the same text.
    pub fn same(&self, other: &IdempotencyKey) -> (r: bool)
        ensures
            r == (self@ == other@),
    {
        self.0 == other.0
    }
}

impl View for WriterId {
    type V = Seq<char>;

    open spec fn view(&self) -> Seq<char> {
        self.0@
    }
}

impl Clone for WriterId {
    fn clone(&self) -> (r: Self)
        ensures
            r == *self,
    {
        WriterId(self.0.clone())
    }
}

impl RunId {
    /// Whether two runs are the same run.
    pub fn same(&self, other: &RunId) -> (r: bool)
        ensures
            r == (*self == *other),
    {
        same_id(&self.0, &other.0)
    }

    /// The run's canonical text.
    pub fn text(&self) -> (r: String)
        ensures
            r@ == hyphenated(self.0@),
    {
        hyphenated_text(&self.0)
    }

    /// The run as a diagnostic names it.
    pub fn diagnostic(&self) -> (r: String)
        ensures
            r@ == "RunId("@ + hyphenated(self.0@) + ")"@,
    {
        join3("RunId(", self.text().as_str(), ")")
    }
}

impl OperationId {
    /// Whether two operations are the same operation.
    pub fn same(&self, other: &OperationId) -> (r: bool)
        ensures
            r == (*self == *other),
    {
        same_id(&self.0, &other.0)
    }

    /// The operation's canonical text.
    pub fn text(&self) -> (r: String)
        ensures
            r@ == hyphenated(self.0@),
    {
        hyphenated_text(&self.0)
    }
}

/// How an acquirer asks to treat an existing owner.
#[derive(Debug, PartialEq, Eq)]
pub enum TakeoverPolicy {
    /// Never take over.
    Refuse,
    /// Take over on evidence that the former writer terminated.
    ConfirmedTermination {
        /// Opaque evidence.
        evidence: Vec<u8>,
    },
    /// Fence the former writer first.
    FencePreviousWriter,
}

impl Clone for TakeoverPolicy {
    fn clone(&self) -> (r: Self)
        ensures
            match *self {
                TakeoverPolicy::Refuse => r is Refuse,
                TakeoverPolicy::ConfirmedTermination { evidence } => r matches
                    TakeoverPolicy::ConfirmedTermination { evidence: copied }
                    && copied@ == evidence@,
                TakeoverPolicy::FencePreviousWriter => r is FencePreviousWriter,
            },
    {
        match self {
            TakeoverPolicy::Refuse => TakeoverPolicy::Refuse,
            TakeoverPolicy::ConfirmedTermination { evidence } => {
                TakeoverPolicy::ConfirmedTermination {
                    evidence: copy_bytes(evidence.as_slice()),
                }
            },
            TakeoverPolicy::FencePreviousWriter => TakeoverPolicy::FencePreviousWriter,
        }
    }
}

/// Whether a rename may replace an existing destination.
#[derive(Clone, Copy, Debug, PartialEq, Eq, Structural)]
pub enum RenameMode {
    /// An existing destination is replaced.
    Replace,
    /// An existing destination is an error.
    NoReplace,
}

/// A requested change of metadata. Absent fields are left alone.
#[derive(Clone, Copy, Debug, PartialEq, Eq, Structural)]
pub struct MetadataUpdate {
    /// Mode bits.
    pub mode: Option<u32>,
    /// Owner.
    pub uid: Option<u32>,
    /// Owning group.
    pub gid: Option<u32>,
    /// Access time, in nanoseconds since the epoch.
    pub accessed_nanos: Option<i128>,
    /// Modification time, in nanoseconds since the epoch.
    pub modified_nanos: Option<i128>,
}

/// The two anchors a contract path can be relative to.
#[derive(Clone, Copy, Debug, PartialEq, Eq, Structural)]
pub enum StorageAnchor {
    /// The tracee-visible run root.
    Root,
    /// The control namespace.
    Control,
}

/// The slash byte that separates path components.
pub const SLASH: u8 = 47;

/// The dot byte.
pub const DOT: u8 = 46;

/// Where the component that starts at `from` ends: the next slash, or the end.
pub open spec fn component_end(bytes: Seq<u8>, from: int) -> int
    decreases bytes.len() - from,
{
    if from >= bytes.len() || bytes[from] == SLASH {
        from
    } else {
        component_end(bytes, from + 1)
    }
}

/// The components of `bytes` from position `from` on: its pieces between slashes.
pub open spec fn split_from(bytes: Seq<u8>, from: int) -> Seq<Seq<u8>>
    decreases bytes.len() - from,
    when 0 <= from <= bytes.len()
    via split_from_decreases
{
    let end = component_end(bytes, from);
    if end >= bytes.len() {
        seq![bytes.subrange(from, bytes.len() as int)]
    } else {
        seq![bytes.subrange(from, end)] + split_from(bytes, end + 1)
    }
}

#[via_fn]
proof fn split_from_decreases(bytes: Seq<u8>, from: int) {
    component_end_bounds(bytes, from);
}

proof fn component_end_bounds(bytes: Seq<u8>, from: int)
    requires
        0 <= from <= bytes.len(),
    ensures
        from <= component_end(bytes, from) <= bytes.len(),
        component_end(bytes, from) < bytes.len() ==> bytes[component_end(bytes, from)] == SLASH,
        forall|i: int| from <= i < component_end(bytes, from) ==> bytes[i] != SLASH,
    decreases bytes.len() - from,
{
    if from < bytes.len() && bytes[from] != SLASH {
        component_end_bounds(bytes, from + 1);
    }
}

/// The components of a byte path.
pub open spec fn split_path(bytes: Seq<u8>) -> Seq<Seq<u8>> {
    split_from(bytes, 0)
}

/// A path always has at least one component.
pub proof fn split_is_not_empty(bytes: Seq<u8>, from: int)
    requires
        0 <= from <= bytes.len(),
    ensures
        split_from(bytes, from).len() >= 1,
    decreases bytes.len() - from,
{
    component_end_bounds(bytes, from);
    if component_end(bytes, from) < bytes.len() {
        split_is_not_empty(bytes, component_end(bytes, from) + 1);
    }
}

/// No component holds a slash.
pub proof fn split_has_no_slash(bytes: Seq<u8>, from: int)
    requires
        0 <= from <= bytes.len(),
    ensures
        forall|k: int, j: int|
            0 <= k < split_from(bytes, from).len() && 0 <= j < split_from(bytes, from)[k].len()
                ==> #[trigger] split_from(bytes, from)[k][j] != SLASH,
    decreases bytes.len() - from,
{
    component_end_bounds(bytes, from);
    let end = component_end(bytes, from);
    if end < bytes.len() {
        split_has_no_slash(bytes, end + 1);
        let rest = split_from(bytes, end + 1);
        let all = split_from(bytes, from);
        assert forall|k: int, j: int|
            0 <= k < all.len() && 0 <= j < all[k].len() implies #[trigger] all[k][j] != SLASH by {
            if k > 0 {
                assert(all[k] == rest[k - 1]);
                assert(rest[k - 1][j] != SLASH);
            }
        }
    }
}

/// Split a byte path into its components.
pub fn split_components(bytes: &[u8]) -> (r: Vec<Vec<u8>>)
    ensures
        seq_view(r@) == split_path(bytes@),
        r@.len() >= 1,
{
    let mut r: Vec<Vec<u8>> = Vec::new();
    let mut from: usize = 0;
    loop
        invariant
            0 <= from <= bytes@.len(),
            seq_view(r@) + split_from(bytes@, from as int) == split_path(bytes@),
        decreases bytes@.len() - from,
    {
        let mut end: usize = from;
        while end < bytes.len() && bytes[end] != SLASH
            invariant
                from <= end <= bytes@.len(),
                component_end(bytes@, from as int) == component_end(bytes@, end as int),
            decreases bytes@.len() - end,
        {
            end += 1;
        }
        let ghost before = seq_view(r@);
        r.push(copy_range(bytes, from, end));
        proof {
            component_end_bounds(bytes@, from as int);
            let piece = bytes@.subrange(from as int, end as int);
            assert(seq_view(r@) =~= before.push(piece));
            if end >= bytes@.len() {
                assert(before + split_from(bytes@, from as int) =~= seq_view(r@));
            } else {
                assert(before + split_from(bytes@, from as int) =~= seq_view(r@) + split_from(
                    bytes@,
                    end + 1,
                ));
            }
        }
        if end >= bytes.len() {
            return r;
        }
        from = end + 1;
    }
}

/// Whether one path component can name a child: not empty, not `.`, not `..`.
pub open spec fn plain_component(name: Seq<u8>) -> bool {
    name.len() > 0 && name != seq![DOT] && name != seq![DOT, DOT]
}

/// Whether one path component can name a child.
pub fn is_plain_component(name: &[u8]) -> (r: bool)
    ensures
        r == plain_component(name@),
{
    if name.len() == 0 {
        return false;
    }
    if name.len() == 1 && name[0] == DOT {
        proof {
            assert(name@ =~= seq![DOT]);
        }
        return false;
    }
    if name.len() == 2 && name[0] == DOT && name[1] == DOT {
        proof {
            assert(name@ =~= seq![DOT, DOT]);
        }
        return false;
    }
    proof {
        assert(name@.len() == 1 ==> name@[0] != DOT);
    }
    true
}

/// Whether a byte string holds the byte `wanted`.
pub fn holds_byte(bytes: &[u8], wanted: u8) -> (r: bool)
    ensures
        r == bytes@.contains(wanted),
{
    let mut i: usize = 0;
    while i < bytes.len()
        invariant
            i <= bytes@.len(),
            forall|j: int| 0 <= j < i ==> bytes@[j] != wanted,
        decreases bytes@.len() - i,
    {
        if bytes[i] == wanted {
            return true;
        }
        i += 1;
    }
    false
}

/// A byte-exact relative path or name.
#[derive(Debug, PartialEq, Eq)]
pub struct BytePath {
    bytes: Vec<u8>,
}

impl View for BytePath {
    type V = Seq<u8>;

    closed spec fn view(&self) -> Seq<u8> {
        self.bytes@
    }
}

/// What making a byte path of `bytes` yields.
pub open spec fn byte_path(bytes: Seq<u8>) -> Result<Seq<u8>, UmbraErrorView> {
    if bytes.len() == 0 || bytes.contains(0u8) {
        Err(
            umbra(
                ErrorKind::InvalidPath,
                "byte_path"@,
                "a byte path is neither empty nor holds a NUL"@,
            ),
        )
    } else {
        Ok(bytes)
    }
}

impl BytePath {
    /// A byte path, which is neither empty nor holds a NUL.
    pub fn new(bytes: Vec<u8>) -> (r: StorageResult<Self>)
        ensures
            res_view(r) == byte_path(bytes@),
    {
        if bytes.len() == 0 || holds_byte(bytes.as_slice(), 0) {
            return Err(
                UmbraError::new(
                    ErrorKind::InvalidPath,
                    "byte_path",
                    "a byte path is neither empty nor holds a NUL",
                ),
            );
        }
        Ok(BytePath { bytes })
    }

    /// The exact bytes.
    pub fn as_bytes(&self) -> (r: &[u8])
        ensures
            r@ == self@,
    {
        self.bytes.as_slice()
    }
}

impl Clone for BytePath {
    fn clone(&self) -> (r: Self)
        ensures
            r@ == self@,
    {
        BytePath { bytes: copy_bytes(self.bytes.as_slice()) }
    }
}

/// Whether a path below an anchor resolves inside it: empty, or made of plain
/// components.
pub open spec fn contained_path(bytes: Seq<u8>) -> bool {
    bytes.len() == 0 || forall|k: int|
        0 <= k < split_path(bytes).len() ==> plain_component(#[trigger] split_path(bytes)[k])
}

/// A contract path: an anchor and the byte path below it.
///
/// No component is empty, `.` or `..`, so a path cannot name anything outside
/// its anchor. The empty path names the anchor itself.
#[derive(Debug, PartialEq, Eq)]
pub struct StoragePath {
    anchor: StorageAnchor,
    bytes: Vec<u8>,
}

/// The content of a [`StoragePath`].
pub struct StoragePathView {
    /// The anchor.
    pub anchor: StorageAnchor,
    /// The bytes below it.
    pub bytes: Seq<u8>,
}

impl View for StoragePath {
    type V = StoragePathView;

    closed spec fn view(&self) -> StoragePathView {
        StoragePathView { anchor: self.anchor, bytes: self.bytes@ }
    }
}

impl StoragePath {
    /// A path below `anchor`, refused when a component could leave it.
    pub fn new(anchor: StorageAnchor, bytes: Vec<u8>) -> (r: StorageResult<Self>)
        ensures
            res_view(r) == (if contained_path(bytes@) {
                Ok::<StoragePathView, UmbraErrorView>(StoragePathView { anchor, bytes: bytes@ })
            } else {
                Err(
                    umbra(
                        ErrorKind::InvalidPath,
                        "storage_path"@,
                        "a storage path has no empty, . or .. component"@,
                    ),
                )
            }),
    {
        if bytes.len() == 0 {
            return Ok(StoragePath { anchor, bytes });
        }
        let parts = split_components(bytes.as_slice());
        let mut i: usize = 0;
        while i < parts.len()
            invariant
                i <= parts@.len(),
                bytes@.len() > 0,
                seq_view(parts@) == split_path(bytes@),
                forall|k: int| 0 <= k < i ==> plain_component(#[trigger] split_path(bytes@)[k]),
            decreases parts@.len() - i,
        {
            proof {
                assert(seq_view(parts@)[i as int] == parts@[i as int]@);
            }
            if !is_plain_component(parts[i].as_slice()) {
                proof {
                    assert(!plain_component(split_path(bytes@)[i as int]));
                }
                return Err(
                    UmbraError::new(
                        ErrorKind::InvalidPath,
                        "storage_path",
                        "a storage path has no empty, . or .. component",
                    ),
                );
            }
            i += 1;
        }
        proof {
            assert(seq_view(parts@).len() == parts@.len());
        }
        Ok(StoragePath { anchor, bytes })
    }

    /// The anchor this path is relative to.
    pub fn anchor(&self) -> (r: StorageAnchor)
        ensures
            r == self@.anchor,
    {
        self.anchor
    }

    /// The bytes below the anchor.
    pub fn as_bytes(&self) -> (r: &[u8])
        ensures
            r@ == self@.bytes,
    {
        self.bytes.as_slice()
    }

    /// Whether two paths are the same path.
    pub fn same(&self, other: &StoragePath) -> (r: bool)
        ensures
            r == (self@ == other@),
    {
        self.anchor == other.anchor && same_bytes(self.bytes.as_slice(), other.bytes.as_slice())
    }
}

impl Clone for StoragePath {
    fn clone(&self) -> (r: Self)
        ensures
            r@ == self@,
    {
        StoragePath { anchor: self.anchor, bytes: copy_bytes(self.bytes.as_slice()) }
    }
}

/// The object kinds the contract knows.
#[derive(Clone, Copy, Debug, PartialEq, Eq, Structural)]
pub enum ObjectKind {
    /// A regular file.
    File,
    /// A directory.
    Directory,
    /// An overlay-owned symbolic link.
    LogicalSymlink,
}

/// What a stat reports of one object.
#[derive(Clone, Copy, Debug, PartialEq, Eq)]
pub struct BlobStat {
    /// Stable object identity.
    pub object_id: ObjectId,
    /// Object kind.
    pub kind: ObjectKind,
    /// Length in bytes.
    pub len: u64,
    /// Number of names.
    pub link_count: u64,
    /// Mode bits.
    pub mode: u32,
    /// Owner.
    pub uid: u32,
    /// Owning group.
    pub gid: u32,
    /// Modification time, in nanoseconds since the epoch.
    pub modified_nanos: i128,
}

impl View for BlobStat {
    type V = BlobStat;

    open spec fn view(&self) -> BlobStat {
        *self
    }
}

impl ObjectId {
    /// Whether two objects are the same object.
    pub fn same(&self, other: &ObjectId) -> (r: bool)
        ensures
            r == (*self == *other),
    {
        same_id(&self.0, &other.0)
    }
}

/// An opaque token owned by one provider session.
#[derive(Debug, PartialEq, Eq)]
pub struct StorageHandle(pub Vec<u8>);

impl View for StorageHandle {
    type V = Seq<u8>;

    open spec fn view(&self) -> Seq<u8> {
        self.0@
    }
}

impl Clone for StorageHandle {
    fn clone(&self) -> (r: Self)
        ensures
            r@ == self@,
    {
        StorageHandle(copy_bytes(self.0.as_slice()))
    }
}

impl StorageHandle {
    /// Whether two tokens are the same bytes.
    pub fn same(&self, other: &StorageHandle) -> (r: bool)
        ensures
            r == (self@ == other@),
    {
        same_bytes(self.0.as_slice(), other.0.as_slice())
    }
}

/// An opaque directory continuation.
#[derive(Debug, PartialEq, Eq)]
pub struct ListCursor(pub Vec<u8>);

impl View for ListCursor {
    type V = Seq<u8>;

    open spec fn view(&self) -> Seq<u8> {
        self.0@
    }
}

impl Clone for ListCursor {
    fn clone(&self) -> (r: Self)
        ensures
            r@ == self@,
    {
        ListCursor(copy_bytes(self.0.as_slice()))
    }
}

impl ListCursor {
    /// Whether two continuations are the same bytes.
    pub fn same(&self, other: &ListCursor) -> (r: bool)
        ensures
            r == (self@ == other@),
    {
        same_bytes(self.0.as_slice(), other.0.as_slice())
    }
}

impl BytePath {
    /// Whether two paths are the same bytes.
    pub fn same(&self, other: &BytePath) -> (r: bool)
        ensures
            r == (self@ == other@),
    {
        same_bytes(self.bytes.as_slice(), other.bytes.as_slice())
    }
}

/// What a consumer is handed for one anchor.
#[derive(Debug, PartialEq, Eq)]
pub struct RuntimeDirectoryBinding {
    /// The session token.
    pub handle: StorageHandle,
    /// A kernel-visible path, when one exists.
    pub physical_path: Option<BytePath>,
}

/// The content of a [`RuntimeDirectoryBinding`].
pub struct RuntimeDirectoryBindingView {
    /// The session token.
    pub handle: Seq<u8>,
    /// A kernel-visible path, when one exists.
    pub physical_path: Option<Seq<u8>>,
}

impl View for RuntimeDirectoryBinding {
    type V = RuntimeDirectoryBindingView;

    open spec fn view(&self) -> RuntimeDirectoryBindingView {
        RuntimeDirectoryBindingView {
            handle: self.handle@,
            physical_path: opt_view(self.physical_path),
        }
    }
}

/// What a create makes.
#[derive(Debug, PartialEq, Eq)]
pub enum CreateKind {
    /// A regular file.
    File,
    /// A directory.
    Directory,
    /// An overlay-owned symbolic link.
    LogicalSymlink {
        /// Target.
        target: BytePath,
    },
}

/// The content of a [`CreateKind`].
pub enum CreateKindView {
    /// A regular file.
    File,
    /// A directory.
    Directory,
    /// An overlay-owned symbolic link.
    LogicalSymlink {
        /// Target.
        target: Seq<u8>,
    },
}

impl View for CreateKind {
    type V = CreateKindView;

    open spec fn view(&self) -> CreateKindView {
        match *self {
            CreateKind::File => CreateKindView::File,
            CreateKind::Directory => CreateKindView::Directory,
            CreateKind::LogicalSymlink { target } => CreateKindView::LogicalSymlink {
                target: target@,
            },
        }
    }
}

impl Clone for CreateKind {
    fn clone(&self) -> (r: Self)
        ensures
            r@ == self@,
    {
        match self {
            CreateKind::File => CreateKind::File,
            CreateKind::Directory => CreateKind::Directory,
            CreateKind::LogicalSymlink { target } => CreateKind::LogicalSymlink {
                target: target.clone(),
            },
        }
    }
}

impl CreateKind {
    /// Whether two values are the same.
    pub fn same(&self, other: &CreateKind) -> (r: bool)
        ensures
            r == (self@ == other@),
    {
        match (self, other) {
            (CreateKind::File, CreateKind::File) => true,
            (CreateKind::Directory, CreateKind::Directory) => true,
            (
                CreateKind::LogicalSymlink { target: target_a },
                CreateKind::LogicalSymlink { target: target_b },
            ) => target_a.same(target_b),
            _ => false,
        }
    }
}

/// How a create makes it.
#[derive(Debug, PartialEq, Eq)]
pub struct CreateOptions {
    /// What is made.
    pub kind: CreateKind,
    /// Its mode bits.
    pub mode: u32,
}

/// The content of a [`CreateOptions`].
pub struct CreateOptionsView {
    /// What is made.
    pub kind: CreateKindView,
    /// Its mode bits.
    pub mode: u32,
}

impl View for CreateOptions {
    type V = CreateOptionsView;

    open spec fn view(&self) -> CreateOptionsView {
        CreateOptionsView {
            kind: self.kind@,
            mode: self.mode,
        }
    }
}

impl Clone for CreateOptions {
    fn clone(&self) -> (r: Self)
        ensures
            r@ == self@,
    {
        CreateOptions {
            kind: self.kind.clone(),
            mode: self.mode,
        }
    }
}

impl CreateOptions {
    /// Whether two values are the same.
    pub fn same(&self, other: &CreateOptions) -> (r: bool)
        ensures
            r == (self@ == other@),
    {
        self.kind.same(&other.kind) && self.mode == other.mode
    }
}

/// An object of the immutable base a copy-up may read.
#[derive(Debug, PartialEq, Eq)]
pub struct ApprovedBaseObject {
    /// Its identity.
    pub object_id: ObjectId,
    /// Its token.
    pub handle: StorageHandle,
}

/// The content of a [`ApprovedBaseObject`].
pub struct ApprovedBaseObjectView {
    /// Its identity.
    pub object_id: ObjectId,
    /// Its token.
    pub handle: Seq<u8>,
}

impl View for ApprovedBaseObject {
    type V = ApprovedBaseObjectView;

    open spec fn view(&self) -> ApprovedBaseObjectView {
        ApprovedBaseObjectView {
            object_id: self.object_id,
            handle: self.handle@,
        }
    }
}

impl Clone for ApprovedBaseObject {
    fn clone(&self) -> (r: Self)
        ensures
            r@ == self@,
    {
        ApprovedBaseObject {
            object_id: self.object_id,
            handle: self.handle.clone(),
        }
    }
}

impl ApprovedBaseObject {
    /// Whether two values are the same.
    pub fn same(&self, other: &ApprovedBaseObject) -> (r: bool)
        ensures
            r == (self@ == other@),
    {
        self.object_id.same(&other.object_id) && self.handle.same(&other.handle)
    }
}

/// One storage primitive.
#[allow(inconsistent_fields)]
#[derive(Debug, PartialEq, Eq)]
pub enum StorageOperation {
    /// Resolve a path.
    Lookup {
        /// Path.
        path: StoragePath,
    },
    /// Read metadata.
    Stat {
        /// Path.
        path: StoragePath,
    },
    /// Read one directory page.
    List {
        /// Path.
        path: StoragePath,
        /// Cursor.
        cursor: Option<ListCursor>,
        /// Limit.
        limit: u32,
    },
    /// Read bytes.
    ReadAt {
        /// Path.
        path: StoragePath,
        /// Offset.
        offset: u64,
        /// Len.
        len: u32,
    },
    /// Write bytes.
    WriteAt {
        /// Path.
        path: StoragePath,
        /// Offset.
        offset: u64,
        /// Bytes.
        bytes: Vec<u8>,
    },
    /// Create a new object.
    Create {
        /// Path.
        path: StoragePath,
        /// Options.
        options: CreateOptions,
    },
    /// Create every missing directory of a path.
    CreateParents {
        /// Path.
        path: StoragePath,
        /// Mode.
        mode: u32,
    },
    /// Copy a base object up.
    CopyUp {
        /// Source.
        source: ApprovedBaseObject,
        /// Destination.
        destination: StoragePath,
    },
    /// Remove a file name.
    Unlink {
        /// Path.
        path: StoragePath,
    },
    /// Remove an empty directory.
    RemoveDirectory {
        /// Path.
        path: StoragePath,
    },
    /// Move a name.
    Rename {
        /// Source.
        source: StoragePath,
        /// Destination.
        destination: StoragePath,
        /// Mode.
        mode: RenameMode,
    },
    /// Add a name.
    Link {
        /// Source.
        source: StoragePath,
        /// Destination.
        destination: StoragePath,
    },
    /// Read a logical symlink.
    ReadLink {
        /// Path.
        path: StoragePath,
    },
    /// Change metadata.
    SetMetadata {
        /// Path.
        path: StoragePath,
        /// Update.
        update: MetadataUpdate,
    },
    /// Set a length.
    Truncate {
        /// Path.
        path: StoragePath,
        /// Len.
        len: u64,
    },
    /// Read an extended attribute.
    GetXattr {
        /// Path.
        path: StoragePath,
        /// Name.
        name: Vec<u8>,
        /// Max bytes.
        max_bytes: u32,
    },
    /// Set an extended attribute.
    SetXattr {
        /// Path.
        path: StoragePath,
        /// Name.
        name: Vec<u8>,
        /// Value.
        value: Vec<u8>,
    },
    /// Remove an extended attribute.
    RemoveXattr {
        /// Path.
        path: StoragePath,
        /// Name.
        name: Vec<u8>,
    },
    /// Read a whiteout.
    GetWhiteout {
        /// Path.
        path: StoragePath,
    },
    /// Set a whiteout.
    SetWhiteout {
        /// Path.
        path: StoragePath,
        /// Present.
        present: bool,
    },
    /// Exchange two objects.
    AtomicSwap {
        /// Left.
        left: StoragePath,
        /// Right.
        right: StoragePath,
    },
}

/// The content of a [`StorageOperation`].
#[allow(inconsistent_fields)]
pub enum StorageOperationView {
    /// Resolve a path.
    Lookup {
        /// Path.
        path: StoragePathView,
    },
    /// Read metadata.
    Stat {
        /// Path.
        path: StoragePathView,
    },
    /// Read one directory page.
    List {
        /// Path.
        path: StoragePathView,
        /// Cursor.
        cursor: Option<Seq<u8>>,
        /// Limit.
        limit: u32,
    },
    /// Read bytes.
    ReadAt {
        /// Path.
        path: StoragePathView,
        /// Offset.
        offset: u64,
        /// Len.
        len: u32,
    },
    /// Write bytes.
    WriteAt {
        /// Path.
        path: StoragePathView,
        /// Offset.
        offset: u64,
        /// Bytes.
        bytes: Seq<u8>,
    },
    /// Create a new object.
    Create {
        /// Path.
        path: StoragePathView,
        /// Options.
        options: CreateOptionsView,
    },
    /// Create every missing directory of a path.
    CreateParents {
        /// Path.
        path: StoragePathView,
        /// Mode.
        mode: u32,
    },
    /// Copy a base object up.
    CopyUp {
        /// Source.
        source: ApprovedBaseObjectView,
        /// Destination.
        destination: StoragePathView,
    },
    /// Remove a file name.
    Unlink {
        /// Path.
        path: StoragePathView,
    },
    /// Remove an empty directory.
    RemoveDirectory {
        /// Path.
        path: StoragePathView,
    },
    /// Move a name.
    Rename {
        /// Source.
        source: StoragePathView,
        /// Destination.
        destination: StoragePathView,
        /// Mode.
        mode: RenameMode,
    },
    /// Add a name.
    Link {
        /// Source.
        source: StoragePathView,
        /// Destination.
        destination: StoragePathView,
    },
    /// Read a logical symlink.
    ReadLink {
        /// Path.
        path: StoragePathView,
    },
    /// Change metadata.
    SetMetadata {
        /// Path.
        path: StoragePathView,
        /// Update.
        update: MetadataUpdate,
    },
    /// Set a length.
    Truncate {
        /// Path.
        path: StoragePathView,
        /// Len.
        len: u64,
    },
    /// Read an extended attribute.
    GetXattr {
        /// Path.
        path: StoragePathView,
        /// Name.
        name: Seq<u8>,
        /// Max bytes.
        max_bytes: u32,
    },
    /// Set an extended attribute.
    SetXattr {
        /// Path.
        path: StoragePathView,
        /// Name.
        name: Seq<u8>,
        /// Value.
        value: Seq<u8>,
    },
    /// Remove an extended attribute.
    RemoveXattr {
        /// Path.
        path: StoragePathView,
        /// Name.
        name: Seq<u8>,
    },
    /// Read a whiteout.
    GetWhiteout {
        /// Path.
        path: StoragePathView,
    },
    /// Set a whiteout.
    SetWhiteout {
        /// Path.
        path: StoragePathView,
        /// Present.
        present: bool,
    },
    /// Exchange two objects.
    AtomicSwap {
        /// Left.
        left: StoragePathView,
        /// Right.
        right: StoragePathView,
    },
}

impl View for StorageOperation {
    type V = StorageOperationView;

    open spec fn view(&self) -> StorageOperationView {
        match *self {
            StorageOperation::Lookup { path } => StorageOperationView::Lookup { path: path@ },
            StorageOperation::Stat { path } => StorageOperationView::Stat { path: path@ },
            StorageOperation::List { path, cursor, limit } => StorageOperationView::List {
                path: path@,
                cursor: opt_view(cursor),
                limit,
            },
            StorageOperation::ReadAt { path, offset, len } => StorageOperationView::ReadAt {
                path: path@,
                offset,
                len,
            },
            StorageOperation::WriteAt { path, offset, bytes } => StorageOperationView::WriteAt {
                path: path@,
                offset,
                bytes: bytes@,
            },
            StorageOperation::Create { path, options } => StorageOperationView::Create {
                path: path@,
                options: options@,
            },
            StorageOperation::CreateParents { path, mode } => StorageOperationView::CreateParents {
                path: path@,
                mode,
            },
            StorageOperation::CopyUp { source, destination } => StorageOperationView::CopyUp {
                source: source@,
                destination: destination@,
            },
            StorageOperation::Unlink { path } => StorageOperationView::Unlink { path: path@ },
            StorageOperation::RemoveDirectory { path } => StorageOperationView::RemoveDirectory {
                path: path@,
            },
            StorageOperation::Rename { source, destination, mode } => StorageOperationView::Rename {
                source: source@,
                destination: destination@,
                mode,
            },
            StorageOperation::Link { source, destination } => StorageOperationView::Link {
                source: source@,
                destination: destination@,
            },
            StorageOperation::ReadLink { path } => StorageOperationView::ReadLink { path: path@ },
            StorageOperation::SetMetadata { path, update } => StorageOperationView::SetMetadata {
                path: path@,
                update,
            },
            StorageOperation::Truncate { path, len } => StorageOperationView::Truncate {
                path: path@,
                len,
            },
            StorageOperation::GetXattr { path, name, max_bytes } => StorageOperationView::GetXattr {
                path: path@,
                name: name@,
                max_bytes,
            },
            StorageOperation::SetXattr { path, name, value } => StorageOperationView::SetXattr {
                path: path@,
                name: name@,
                value: value@,
            },
            StorageOperation::RemoveXattr { path, name } => StorageOperationView::RemoveXattr {
                path: path@,
                name: name@,
            },
            StorageOperation::GetWhiteout { path } => StorageOperationView::GetWhiteout {
                path: path@,
            },
            StorageOperation::SetWhiteout { path, present } => StorageOperationView::SetWhiteout {
                path: path@,
                present,
            },
            StorageOperation::AtomicSwap { left, right } => StorageOperationView::AtomicSwap {
                left: left@,
                right: right@,
            },
        }
    }
}

impl Clone for StorageOperation {
    fn clone(&self) -> (r: Self)
        ensures
            r@ == self@,
    {
        match self {
            StorageOperation::Lookup { path } => StorageOperation::Lookup { path: path.clone() },
            StorageOperation::Stat { path } => StorageOperation::Stat { path: path.clone() },
            StorageOperation::List { path, cursor, limit } => StorageOperation::List {
                path: path.clone(),
                cursor: match cursor {
                    Some(inner) => Some(inner.clone()),
                    None => None,
                },
                limit: *limit,
            },
            StorageOperation::ReadAt { path, offset, len } => StorageOperation::ReadAt {
                path: path.clone(),
                offset: *offset,
                len: *len,
            },
            StorageOperation::WriteAt { path, offset, bytes } => StorageOperation::WriteAt {
                path: path.clone(),
                offset: *offset,
                bytes: copy_bytes(bytes.as_slice()),
            },
            StorageOperation::Create { path, options } => StorageOperation::Create {
                path: path.clone(),
                options: options.clone(),
            },
            StorageOperation::CreateParents { path, mode } => StorageOperation::CreateParents {
                path: path.clone(),
                mode: *mode,
            },
            StorageOperation::CopyUp { source, destination } => StorageOperation::CopyUp {
                source: source.clone(),
                destination: destination.clone(),
            },
            StorageOperation::Unlink { path } => StorageOperation::Unlink { path: path.clone() },
            StorageOperation::RemoveDirectory { path } => StorageOperation::RemoveDirectory {
                path: path.clone(),
            },
            StorageOperation::Rename { source, destination, mode } => StorageOperation::Rename {
                source: source.clone(),
                destination: destination.clone(),
                mode: *mode,
            },
            StorageOperation::Link { source, destination } => StorageOperation::Link {
                source: source.clone(),
                destination: destination.clone(),
            },
            StorageOperation::ReadLink { path } => StorageOperation::ReadLink {
                path: path.clone(),
            },
            StorageOperation::SetMetadata { path, update } => StorageOperation::SetMetadata {
                path: path.clone(),
                update: *update,
            },
            StorageOperation::Truncate { path, len } => StorageOperation::Truncate {
                path: path.clone(),
                len: *len,
            },
            StorageOperation::GetXattr { path, name, max_bytes } => StorageOperation::GetXattr {
                path: path.clone(),
                name: copy_bytes(name.as_slice()),
                max_bytes: *max_bytes,
            },
            StorageOperation::SetXattr { path, name, value } => StorageOperation::SetXattr {
                path: path.clone(),
                name: copy_bytes(name.as_slice()),
                value: copy_bytes(value.as_slice()),
            },
            StorageOperation::RemoveXattr { path, name } => StorageOperation::RemoveXattr {
                path: path.clone(),
                name: copy_bytes(name.as_slice()),
            },
            StorageOperation::GetWhiteout { path } => StorageOperation::GetWhiteout {
                path: path.clone(),
            },
            StorageOperation::SetWhiteout { path, present } => StorageOperation::SetWhiteout {
                path: path.clone(),
                present: *present,
            },
            StorageOperation::AtomicSwap { left, right } => StorageOperation::AtomicSwap {
                left: left.clone(),
                right: right.clone(),
            },
        }
    }
}

impl StorageOperation {
    /// Whether two values are the same.
    pub fn same(&self, other: &StorageOperation) -> (r: bool)
        ensures
            r == (self@ == other@),
    {
        match (self, other) {
            (
                StorageOperation::Lookup { path: path_a },
                StorageOperation::Lookup { path: path_b },
            ) => path_a.same(path_b),
            (StorageOperation::Stat { path: path_a }, StorageOperation::Stat { path: path_b }) => {
                path_a.same(path_b)
            },
            (
                StorageOperation::List { path: path_a, cursor: cursor_a, limit: limit_a },
                StorageOperation::List { path: path_b, cursor: cursor_b, limit: limit_b },
            ) => {
                let same_cursor = match (cursor_a, cursor_b) {
                    (Some(a), Some(b)) => a.same(b),
                    (None, None) => true,
                    _ => false,
                };
                path_a.same(path_b) && same_cursor && *limit_a == *limit_b
            },
            (
                StorageOperation::ReadAt { path: path_a, offset: offset_a, len: len_a },
                StorageOperation::ReadAt { path: path_b, offset: offset_b, len: len_b },
            ) => path_a.same(path_b) && *offset_a == *offset_b && *len_a == *len_b,
            (
                StorageOperation::WriteAt { path: path_a, offset: offset_a, bytes: bytes_a },
                StorageOperation::WriteAt { path: path_b, offset: offset_b, bytes: bytes_b },
            ) => {
                path_a.same(path_b)
                    && *offset_a == *offset_b
                    && same_bytes(bytes_a.as_slice(), bytes_b.as_slice())
            },
            (
                StorageOperation::Create { path: path_a, options: options_a },
                StorageOperation::Create { path: path_b, options: options_b },
            ) => path_a.same(path_b) && options_a.same(options_b),
            (
                StorageOperation::CreateParents { path: path_a, mode: mode_a },
                StorageOperation::CreateParents { path: path_b, mode: mode_b },
            ) => path_a.same(path_b) && *mode_a == *mode_b,
            (
                StorageOperation::CopyUp { source: source_a, destination: destination_a },
                StorageOperation::CopyUp { source: source_b, destination: destination_b },
            ) => source_a.same(source_b) && destination_a.same(destination_b),
            (
                StorageOperation::Unlink { path: path_a },
                StorageOperation::Unlink { path: path_b },
            ) => path_a.same(path_b),
            (
                StorageOperation::RemoveDirectory { path: path_a },
                StorageOperation::RemoveDirectory { path: path_b },
            ) => path_a.same(path_b),
            (
                StorageOperation::Rename {
                    source: source_a,
                    destination: destination_a,
                    mode: mode_a,
                },
                StorageOperation::Rename {
                    source: source_b,
                    destination: destination_b,
                    mode: mode_b,
                },
            ) => source_a.same(source_b) && destination_a.same(destination_b) && *mode_a == *mode_b,
            (
                StorageOperation::Link { source: source_a, destination: destination_a },
                StorageOperation::Link { source: source_b, destination: destination_b },
            ) => source_a.same(source_b) && destination_a.same(destination_b),
            (
                StorageOperation::ReadLink { path: path_a },
                StorageOperation::ReadLink { path: path_b },
            ) => path_a.same(path_b),
            (
                StorageOperation::SetMetadata { path: path_a, update: update_a },
                StorageOperation::SetMetadata { path: path_b, update: update_b },
            ) => path_a.same(path_b) && *update_a == *update_b,
            (
                StorageOperation::Truncate { path: path_a, len: len_a },
                StorageOperation::Truncate { path: path_b, len: len_b },
            ) => path_a.same(path_b) && *len_a == *len_b,
            (
                StorageOperation::GetXattr { path: path_a, name: name_a, max_bytes: max_bytes_a },
                StorageOperation::GetXattr { path: path_b, name: name_b, max_bytes: max_bytes_b },
            ) => {
                path_a.same(path_b)
                    && same_bytes(name_a.as_slice(), name_b.as_slice())
                    && *max_bytes_a == *max_bytes_b
            },
            (
                StorageOperation::SetXattr { path: path_a, name: name_a, value: value_a },
                StorageOperation::SetXattr { path: path_b, name: name_b, value: value_b },
            ) => {
                path_a.same(path_b)
                    && same_bytes(name_a.as_slice(), name_b.as_slice())
                    && same_bytes(value_a.as_slice(), value_b.as_slice())
            },
            (
                StorageOperation::RemoveXattr { path: path_a, name: name_a },
                StorageOperation::RemoveXattr { path: path_b, name: name_b },
            ) => {
                path_a.same(path_b)
                    && same_bytes(name_a.as_slice(), name_b.as_slice())
            },
            (
                StorageOperation::GetWhiteout { path: path_a },
                StorageOperation::GetWhiteout { path: path_b },
            ) => path_a.same(path_b),
            (
                StorageOperation::SetWhiteout { path: path_a, present: present_a },
                StorageOperation::SetWhiteout { path: path_b, present: present_b },
            ) => path_a.same(path_b) && *present_a == *present_b,
            (
                StorageOperation::AtomicSwap { left: left_a, right: right_a },
                StorageOperation::AtomicSwap { left: left_b, right: right_b },
            ) => left_a.same(left_b) && right_a.same(right_b),
            _ => false,
        }
    }
}

/// Whether an operation changes anything.
pub open spec fn mutates(operation: StorageOperationView) -> bool {
    !(operation is Lookup || operation is Stat || operation is List || operation is ReadAt
        || operation is ReadLink || operation is GetXattr || operation is GetWhiteout)
}

impl StorageOperation {
    /// Whether this operation changes anything.
    pub fn is_mutation(&self) -> (r: bool)
        ensures
            r == mutates(self@),
    {
        match self {
            StorageOperation::Lookup { .. }
            | StorageOperation::Stat { .. }
            | StorageOperation::List { .. }
            | StorageOperation::ReadAt { .. }
            | StorageOperation::ReadLink { .. }
            | StorageOperation::GetXattr { .. }
            | StorageOperation::GetWhiteout { .. } => false,
            _ => true,
        }
    }
}

/// The identities one request carries.
#[derive(Debug, PartialEq, Eq)]
pub struct RequestContext {
    /// Run the request belongs to.
    pub run_id: RunId,
    /// Operation identity.
    pub operation_id: OperationId,
    /// Key a retry is matched on.
    pub idempotency_key: IdempotencyKey,
    /// Writer epoch, when authority is held.
    pub writer_epoch: Option<LeaseEpoch>,
}

/// The content of a [`RequestContext`].
pub struct RequestContextView {
    /// Run the request belongs to.
    pub run_id: RunId,
    /// Operation identity.
    pub operation_id: OperationId,
    /// Key a retry is matched on.
    pub idempotency_key: Seq<char>,
    /// Writer epoch, when authority is held.
    pub writer_epoch: Option<LeaseEpoch>,
}

impl View for RequestContext {
    type V = RequestContextView;

    open spec fn view(&self) -> RequestContextView {
        RequestContextView {
            run_id: self.run_id,
            operation_id: self.operation_id,
            idempotency_key: self.idempotency_key@,
            writer_epoch: self.writer_epoch,
        }
    }
}

impl Clone for RequestContext {
    fn clone(&self) -> (r: Self)
        ensures
            r@ == self@,
    {
        RequestContext {
            run_id: self.run_id,
            operation_id: self.operation_id,
            idempotency_key: self.idempotency_key.clone(),
            writer_epoch: self.writer_epoch,
        }
    }
}

impl RequestContext {
    /// Whether two values are the same.
    pub fn same(&self, other: &RequestContext) -> (r: bool)
        ensures
            r == (self@ == other@),
    {
        self.run_id.same(&other.run_id)
            && self.operation_id.same(&other.operation_id)
            && self.idempotency_key.same(&other.idempotency_key)
            && self.writer_epoch == other.writer_epoch
    }
}

/// One request.
#[derive(Debug, PartialEq, Eq)]
pub struct StorageRequest {
    /// Its identities.
    pub context: RequestContext,
    /// What it asks for.
    pub operation: StorageOperation,
}

/// The content of a [`StorageRequest`].
pub struct StorageRequestView {
    /// Its identities.
    pub context: RequestContextView,
    /// What it asks for.
    pub operation: StorageOperationView,
}

impl View for StorageRequest {
    type V = StorageRequestView;

    open spec fn view(&self) -> StorageRequestView {
        StorageRequestView {
            context: self.context@,
            operation: self.operation@,
        }
    }
}

impl Clone for StorageRequest {
    fn clone(&self) -> (r: Self)
        ensures
            r@ == self@,
    {
        StorageRequest {
            context: self.context.clone(),
            operation: self.operation.clone(),
        }
    }
}

impl StorageRequest {
    /// Whether two values are the same.
    pub fn same(&self, other: &StorageRequest) -> (r: bool)
        ensures
            r == (self@ == other@),
    {
        self.context.same(&other.context) && self.operation.same(&other.operation)
    }
}

/// One object as an operation reports it.
#[derive(Debug, PartialEq, Eq)]
pub struct ObjectResult {
    /// Its metadata.
    pub stat: BlobStat,
    /// A path an open could be rewritten to, when one exists.
    pub rewrite_target: Option<BytePath>,
}

/// The content of a [`ObjectResult`].
pub struct ObjectResultView {
    /// Its metadata.
    pub stat: BlobStat,
    /// A path an open could be rewritten to, when one exists.
    pub rewrite_target: Option<Seq<u8>>,
}

impl View for ObjectResult {
    type V = ObjectResultView;

    open spec fn view(&self) -> ObjectResultView {
        ObjectResultView {
            stat: self.stat,
            rewrite_target: opt_view(self.rewrite_target),
        }
    }
}

impl Clone for ObjectResult {
    fn clone(&self) -> (r: Self)
        ensures
            r@ == self@,
    {
        ObjectResult {
            stat: self.stat,
            rewrite_target: match &self.rewrite_target {
                Some(inner) => Some(inner.clone()),
                None => None,
            },
        }
    }
}

/// One directory entry.
#[derive(Debug, PartialEq, Eq)]
pub struct DirectoryEntry {
    /// Its byte-exact name.
    pub name: BytePath,
    /// Its metadata.
    pub stat: BlobStat,
}

/// The content of a [`DirectoryEntry`].
pub struct DirectoryEntryView {
    /// Its byte-exact name.
    pub name: Seq<u8>,
    /// Its metadata.
    pub stat: BlobStat,
}

impl View for DirectoryEntry {
    type V = DirectoryEntryView;

    open spec fn view(&self) -> DirectoryEntryView {
        DirectoryEntryView {
            name: self.name@,
            stat: self.stat,
        }
    }
}

impl Clone for DirectoryEntry {
    fn clone(&self) -> (r: Self)
        ensures
            r@ == self@,
    {
        DirectoryEntry {
            name: self.name.clone(),
            stat: self.stat,
        }
    }
}

/// One page of a directory.
#[derive(Debug, PartialEq, Eq)]
pub struct DirectoryPage {
    /// The entries, in order.
    pub entries: Vec<DirectoryEntry>,
    /// A continuation, when more remain.
    pub next: Option<ListCursor>,
}

/// The content of a [`DirectoryPage`].
pub struct DirectoryPageView {
    /// The entries, in order.
    pub entries: Seq<DirectoryEntryView>,
    /// A continuation, when more remain.
    pub next: Option<Seq<u8>>,
}

impl View for DirectoryPage {
    type V = DirectoryPageView;

    open spec fn view(&self) -> DirectoryPageView {
        DirectoryPageView {
            entries: seq_view(self.entries@),
            next: opt_view(self.next),
        }
    }
}

/// What an operation answers.
#[derive(Debug, PartialEq, Eq)]
pub enum StorageResponse {
    /// A resolved object.
    Lookup(ObjectResult),
    /// Metadata.
    Stat(BlobStat),
    /// One directory page.
    List(DirectoryPage),
    /// The bytes read.
    ReadAt(Vec<u8>),
    /// The number of bytes accepted.
    WriteAt(u32),
    /// The created object.
    Created(ObjectResult),
    /// The name is gone.
    Unlinked,
    /// The directory is gone.
    DirectoryRemoved,
    /// The moved object.
    Renamed(ObjectResult),
    /// The metadata after the change.
    MetadataSet(BlobStat),
    /// The metadata after the truncation.
    Truncated(BlobStat),
}

/// The content of a [`StorageResponse`].
pub enum StorageResponseView {
    /// A resolved object.
    Lookup(ObjectResultView),
    /// Metadata.
    Stat(BlobStat),
    /// One directory page.
    List(DirectoryPageView),
    /// The bytes read.
    ReadAt(Seq<u8>),
    /// The number of bytes accepted.
    WriteAt(u32),
    /// The created object.
    Created(ObjectResultView),
    /// The name is gone.
    Unlinked,
    /// The directory is gone.
    DirectoryRemoved,
    /// The moved object.
    Renamed(ObjectResultView),
    /// The metadata after the change.
    MetadataSet(BlobStat),
    /// The metadata after the truncation.
    Truncated(BlobStat),
}

impl View for StorageResponse {
    type V = StorageResponseView;

    open spec fn view(&self) -> StorageResponseView {
        match *self {
            StorageResponse::Lookup(inner) => StorageResponseView::Lookup(inner@),
            StorageResponse::Stat(inner) => StorageResponseView::Stat(inner),
            StorageResponse::List(inner) => StorageResponseView::List(inner@),
            StorageResponse::ReadAt(inner) => StorageResponseView::ReadAt(inner@),
            StorageResponse::WriteAt(inner) => StorageResponseView::WriteAt(inner),
            StorageResponse::Created(inner) => StorageResponseView::Created(inner@),
            StorageResponse::Unlinked => StorageResponseView::Unlinked,
            StorageResponse::DirectoryRemoved => StorageResponseView::DirectoryRemoved,
            StorageResponse::Renamed(inner) => StorageResponseView::Renamed(inner@),
            StorageResponse::MetadataSet(inner) => StorageResponseView::MetadataSet(inner),
            StorageResponse::Truncated(inner) => StorageResponseView::Truncated(inner),
        }
    }
}

/// The policy a run is opened under.
#[derive(Clone, Copy, Debug, PartialEq, Eq, Structural)]
pub struct StoragePolicy {
    /// Whether the run takes no mutations.
    pub read_only: bool,
    /// Whether strict remote persistence is required.
    pub require_strict_remote_persistence: bool,
    /// Whether a kernel-visible shadow is required.
    pub require_kernel_shadow: bool,
    /// Run format version.
    pub format_version: u32,
}

/// Whether a run is made or found.
#[derive(Clone, Copy, Debug, PartialEq, Eq, Structural)]
pub enum OpenRunIntent {
    /// The run must not exist yet.
    CreateNew,
    /// The run must exist.
    OpenExisting,
}

/// The immutable base a run is layered over.
#[derive(Debug, PartialEq, Eq)]
pub struct ImmutableBaseContract {
    /// Its name.
    pub identity: String,
    /// Its fingerprint.
    pub fingerprint: Vec<u8>,
}

/// The content of a [`ImmutableBaseContract`].
pub struct ImmutableBaseContractView {
    /// Its name.
    pub identity: Seq<char>,
    /// Its fingerprint.
    pub fingerprint: Seq<u8>,
}

impl View for ImmutableBaseContract {
    type V = ImmutableBaseContractView;

    open spec fn view(&self) -> ImmutableBaseContractView {
        ImmutableBaseContractView {
            identity: self.identity@,
            fingerprint: self.fingerprint@,
        }
    }
}

impl Clone for ImmutableBaseContract {
    fn clone(&self) -> (r: Self)
        ensures
            r@ == self@,
    {
        ImmutableBaseContract {
            identity: self.identity.clone(),
            fingerprint: copy_bytes(self.fingerprint.as_slice()),
        }
    }
}

impl ImmutableBaseContract {
    /// Whether two values are the same.
    pub fn same(&self, other: &ImmutableBaseContract) -> (r: bool)
        ensures
            r == (self@ == other@),
    {
        self.identity == other.identity
            && same_bytes(self.fingerprint.as_slice(), other.fingerprint.as_slice())
    }
}

/// A request to open a run.
#[derive(Debug, PartialEq, Eq)]
pub struct OpenRunRequest {
    /// The run.
    pub run_id: RunId,
    /// Whether it is made or found.
    pub intent: OpenRunIntent,
    /// The base it is layered over.
    pub immutable_base: ImmutableBaseContract,
    /// The policy it is opened under.
    pub policy: StoragePolicy,
}

/// The content of a [`OpenRunRequest`].
pub struct OpenRunRequestView {
    /// The run.
    pub run_id: RunId,
    /// Whether it is made or found.
    pub intent: OpenRunIntent,
    /// The base it is layered over.
    pub immutable_base: ImmutableBaseContractView,
    /// The policy it is opened under.
    pub policy: StoragePolicy,
}

impl View for OpenRunRequest {
    type V = OpenRunRequestView;

    open spec fn view(&self) -> OpenRunRequestView {
        OpenRunRequestView {
            run_id: self.run_id,
            intent: self.intent,
            immutable_base: self.immutable_base@,
            policy: self.policy,
        }
    }
}

impl Clone for OpenRunRequest {
    fn clone(&self) -> (r: Self)
        ensures
            r@ == self@,
    {
        OpenRunRequest {
            run_id: self.run_id,
            intent: self.intent,
            immutable_base: self.immutable_base.clone(),
            policy: self.policy,
        }
    }
}

/// How durable acknowledged data is claimed to be.
#[derive(Clone, Copy, Debug, PartialEq, Eq, Structural)]
pub enum Durability {
    /// Nothing is claimed.
    NoClaim,
    /// It survives this process.
    Local,
    /// It survives this host.
    Remote,
}

/// How a former writer is kept out.
#[derive(Clone, Copy, Debug, PartialEq, Eq, Structural)]
pub enum Fencing {
    /// Nothing fences a former writer; only reads are safe without authority.
    ReadOnly,
    /// The server fences a former writer.
    ServerFenced,
}

/// What an opened run offers.
#[derive(Debug, PartialEq, Eq)]
pub struct StorageCapabilities {
    /// Named optional features.
    pub features: Vec<String>,
    /// Claimed durability.
    pub durability: Durability,
    /// Whether strict remote persistence is offered.
    pub strict_remote_persistence: bool,
    /// How a former writer is kept out.
    pub fencing: Fencing,
    /// Whether a kernel-visible shadow exists.
    pub kernel_shadow: bool,
    /// Whether every system call is emulated.
    pub complete_emulation: bool,
    /// Whether hard links are offered.
    pub hard_links: bool,
    /// Whether logical symlinks are offered.
    pub logical_symlinks: bool,
    /// Whether extended attributes are offered.
    pub xattrs: bool,
    /// Whether atomic replacement is offered.
    pub atomic_replace: bool,
    /// Whether atomic exchange is offered.
    pub atomic_swap: bool,
    /// Largest single read or write.
    pub max_io_bytes: u32,
    /// Largest directory page.
    pub max_directory_entries: u32,
}

/// The content of a [`StorageCapabilities`].
pub struct StorageCapabilitiesView {
    /// Named optional features.
    pub features: Seq<Seq<char>>,
    /// Claimed durability.
    pub durability: Durability,
    /// Whether strict remote persistence is offered.
    pub strict_remote_persistence: bool,
    /// How a former writer is kept out.
    pub fencing: Fencing,
    /// Whether a kernel-visible shadow exists.
    pub kernel_shadow: bool,
    /// Whether every system call is emulated.
    pub complete_emulation: bool,
    /// Whether hard links are offered.
    pub hard_links: bool,
    /// Whether logical symlinks are offered.
    pub logical_symlinks: bool,
    /// Whether extended attributes are offered.
    pub xattrs: bool,
    /// Whether atomic replacement is offered.
    pub atomic_replace: bool,
    /// Whether atomic exchange is offered.
    pub atomic_swap: bool,
    /// Largest single read or write.
    pub max_io_bytes: u32,
    /// Largest directory page.
    pub max_directory_entries: u32,
}

impl View for StorageCapabilities {
    type V = StorageCapabilitiesView;

    open spec fn view(&self) -> StorageCapabilitiesView {
        StorageCapabilitiesView {
            features: seq_view(self.features@),
            durability: self.durability,
            strict_remote_persistence: self.strict_remote_persistence,
            fencing: self.fencing,
            kernel_shadow: self.kernel_shadow,
            complete_emulation: self.complete_emulation,
            hard_links: self.hard_links,
            logical_symlinks: self.logical_symlinks,
            xattrs: self.xattrs,
            atomic_replace: self.atomic_replace,
            atomic_swap: self.atomic_swap,
            max_io_bytes: self.max_io_bytes,
            max_directory_entries: self.max_directory_entries,
        }
    }
}

/// What opening a run publishes.
#[derive(Debug, PartialEq, Eq)]
pub struct RunBinding {
    /// The run.
    pub run_id: RunId,
    /// The tracee-visible root.
    pub root: RuntimeDirectoryBinding,
    /// The control namespace.
    pub control: RuntimeDirectoryBinding,
    /// What the run offers.
    pub capabilities: StorageCapabilities,
}

/// The content of a [`RunBinding`].
pub struct RunBindingView {
    /// The run.
    pub run_id: RunId,
    /// The tracee-visible root.
    pub root: RuntimeDirectoryBindingView,
    /// The control namespace.
    pub control: RuntimeDirectoryBindingView,
    /// What the run offers.
    pub capabilities: StorageCapabilitiesView,
}

impl View for RunBinding {
    type V = RunBindingView;

    open spec fn view(&self) -> RunBindingView {
        RunBindingView {
            run_id: self.run_id,
            root: self.root@,
            control: self.control@,
            capabilities: self.capabilities@,
        }
    }
}

/// Largest single read or write the contract permits.
pub const MAX_IO_BYTES: u32 = 1_048_576;

/// Largest directory page the contract permits.
pub const MAX_DIRECTORY_ENTRIES: u32 = 4096;

/// What holds of a request whatever provider serves it: reads, writes and pages
/// stay within the advertised limits, and a mutation names a writer epoch.
pub open spec fn request_fault(
    max_io_bytes: u32,
    max_directory_entries: u32,
    request: StorageRequestView,
    operation: Seq<char>,
) -> Option<UmbraErrorView> {
    if request.operation matches StorageOperationView::ReadAt { len, .. } && len > max_io_bytes {
        Some(
            umbra(
                ErrorKind::InvalidInput,
                operation,
                "the read is longer than this run's I/O limit"@,
            ),
        )
    } else if request.operation matches StorageOperationView::WriteAt { bytes, .. } && bytes.len()
        > max_io_bytes {
        Some(
            umbra(
                ErrorKind::InvalidInput,
                operation,
                "the write is longer than this run's I/O limit"@,
            ),
        )
    } else if request.operation matches StorageOperationView::List { limit, .. } && (limit == 0
        || limit > max_directory_entries) {
        Some(
            umbra(
                ErrorKind::InvalidInput,
                operation,
                "the page limit is zero or past this run's page limit"@,
            ),
        )
    } else if mutates(request.operation) && request.context.writer_epoch is None {
        Some(umbra(ErrorKind::LeaseLost, operation, "a mutation needs a writer epoch"@))
    } else {
        None
    }
}

/// Check what holds of a request whatever provider serves it.
pub fn validate_request(
    capabilities: &StorageCapabilities,
    request: &StorageRequest,
    operation: &str,
) -> (r: StorageResult<()>)
    ensures
        res_view(r) == (match request_fault(
            capabilities.max_io_bytes,
            capabilities.max_directory_entries,
            request@,
            operation@,
        ) {
            Some(error) => Err::<(), UmbraErrorView>(error),
            None => Ok(()),
        }),
{
    match &request.operation {
        StorageOperation::ReadAt { len, .. } => {
            if *len > capabilities.max_io_bytes {
                return Err(
                    UmbraError::new(
                        ErrorKind::InvalidInput,
                        operation,
                        "the read is longer than this run's I/O limit",
                    ),
                );
            }
        },
        StorageOperation::WriteAt { bytes, .. } => {
            if bytes.len() as u64 > capabilities.max_io_bytes as u64 {
                return Err(
                    UmbraError::new(
                        ErrorKind::InvalidInput,
                        operation,
                        "the write is longer than this run's I/O limit",
                    ),
                );
            }
        },
        StorageOperation::List { limit, .. } => {
            if *limit == 0 || *limit > capabilities.max_directory_entries {
                return Err(
                    UmbraError::new(
                        ErrorKind::InvalidInput,
                        operation,
                        "the page limit is zero or past this run's page limit",
                    ),
                );
            }
        },
        _ => {},
    }
    if request.operation.is_mutation() && request.context.writer_epoch.is_none() {
        return Err(
            UmbraError::new(ErrorKind::LeaseLost, operation, "a mutation needs a writer epoch"),
        );
    }
    Ok(())
}

} // verus!
