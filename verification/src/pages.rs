//! Bounded directory pages: cookie continuity, noise filtering, no whole-directory
//! materialisation.
//!
//! One [`page`] call issues at most [`MAX_SERVER_PAGES`] READDIR operations and
//! returns at most `limit` entries. A cookie is only meaningful under the verifier
//! that produced it, so a [`PageCursor`] carries the directory's identity, the
//! cookie and the verifier, and all three are checked before a continuation is
//! issued. [`NoiseFilter`] drops `.` and `..`, and provider-private names at the
//! run anchor; it does not hide dotfiles generally.
use vstd::prelude::*;

pub mod faithful;
pub mod listing;
pub mod rotation;

use crate::bytes::{
    append_bytes, be_bytes, be_value, big_endian, big_endian_round_trip, copy_bytes, copy_range,
    from_big_endian, radix_of_eight, same_bytes,
};
use crate::contract::{
    byte_path, res_view, seq_view, umbra, BytePath, DirectoryEntry, DirectoryEntryView,
    DirectoryPage, DirectoryPageView, ErrorKind, ListCursor, StorageResult, UmbraError,
    UmbraErrorView, DOT,
};
use crate::error::{status_of, to_umbra, FacadeErrorView, Nfs4Status};
use crate::handle::ObjectIdentity;
use crate::identity::{blob_stat, identity_in, identity_of, stat_of, PinnedObject, PinnedObjectView};
use crate::layout;
use crate::text::{
    decimal, decimal_text, join, join3, lossy_text, quoted, quoted_text, utf8_lossy,
};
use crate::transport::{
    readdir_answer, readdir_call, same_verifier, AttrMask, Deadline, DirCookie, DirEntry,
    DirEntryView, DirVerifier, Fsid, Nfs4Type, RawTransport, ReadDirRequest, TransportLimits,
};

verus! {

/// Server READDIR operations one [`page`] call may issue. A hard bound, not a
/// retry policy.
pub const MAX_SERVER_PAGES: u32 = 4;

/// Bytes budgeted per entry when sizing a READDIR reply.
pub const BYTES_PER_ENTRY: u32 = 512;

/// Names removed from an enumeration before it reaches a consumer.
#[derive(Debug, Default, PartialEq, Eq)]
pub struct NoiseFilter {
    private: Vec<Vec<u8>>,
}

impl View for NoiseFilter {
    type V = Seq<Seq<u8>>;

    closed spec fn view(&self) -> Seq<Seq<u8>> {
        seq_view(self.private@)
    }
}

impl Clone for NoiseFilter {
    fn clone(&self) -> (r: Self)
        ensures
            r@ == self@,
    {
        let mut private: Vec<Vec<u8>> = Vec::new();
        let mut i: usize = 0;
        while i < self.private.len()
            invariant
                i <= self.private@.len(),
                private@.len() == i,
                forall|j: int| 0 <= j < i ==> #[trigger] private@[j]@ == self.private@[j]@,
            decreases self.private@.len() - i,
        {
            private.push(copy_bytes(self.private[i].as_slice()));
            i += 1;
        }
        let r = NoiseFilter { private };
        proof {
            assert(r@ =~= self@);
        }
        r
    }
}

/// Whether an entry name is filtered by a filter that hides `private`.
pub open spec fn is_noise(private: Seq<Seq<u8>>, name: Seq<u8>) -> bool {
    name == seq![DOT] || name == seq![DOT, DOT] || private.contains(name)
}

/// The bytes of the provider-private directory name.
pub open spec fn private_name() -> Seq<u8> {
    vstd::utf8::encode_utf8(layout::PRIVATE_DIR@)
}

impl NoiseFilter {
    /// Remove only the protocol noise every directory carries: `.` and `..`.
    pub fn protocol_only() -> (r: Self)
        ensures
            r@ == Seq::<Seq<u8>>::empty(),
    {
        let r = NoiseFilter { private: Vec::new() };
        proof {
            assert(r@ =~= Seq::<Seq<u8>>::empty());
        }
        r
    }

    /// Also remove provider-private names.
    pub fn with_private_state() -> (r: Self)
        ensures
            r@ == seq![private_name()],
    {
        let r = NoiseFilter { private: vec![copy_bytes(layout::PRIVATE_DIR.as_bytes())] };
        proof {
            assert(r@ =~= seq![private_name()]);
        }
        r
    }

    /// Whether an entry name is filtered.
    pub fn is_noise(&self, name: &[u8]) -> (r: bool)
        ensures
            r == is_noise(self@, name@),
    {
        if name.len() == 1 && name[0] == DOT {
            proof {
                assert(name@ =~= seq![DOT]);
            }
            return true;
        }
        if name.len() == 2 && name[0] == DOT && name[1] == DOT {
            proof {
                assert(name@ =~= seq![DOT, DOT]);
            }
            return true;
        }
        let mut i: usize = 0;
        while i < self.private.len()
            invariant
                i <= self.private@.len(),
                forall|j: int| 0 <= j < i ==> #[trigger] self@[j] != name@,
            decreases self.private@.len() - i,
        {
            proof {
                assert(self@[i as int] == self.private@[i as int]@);
            }
            if same_bytes(self.private[i].as_slice(), name) {
                return true;
            }
            i += 1;
        }
        false
    }
}

/// An opaque continuation for one directory in one session.
#[derive(Clone, Copy, Debug, PartialEq, Eq)]
pub struct PageCursor {
    directory: ObjectIdentity,
    cookie: DirCookie,
    verifier: DirVerifier,
}

/// The content of a [`PageCursor`].
pub struct PageCursorView {
    /// The directory this cursor belongs to.
    pub directory: ObjectIdentity,
    /// The resume cookie.
    pub cookie: DirCookie,
    /// The verifier the cookie is only valid under.
    pub verifier: DirVerifier,
}

impl View for PageCursor {
    type V = PageCursorView;

    closed spec fn view(&self) -> PageCursorView {
        PageCursorView {
            directory: self.directory,
            cookie: self.cookie,
            verifier: self.verifier,
        }
    }
}

/// Cursor encoding version.
pub const CURSOR_VERSION: u8 = 1;

/// Encoded cursor length: magic, version, file system pair, file id, cookie,
/// verifier.
pub const CURSOR_LEN: usize = 45;

/// The four bytes every cursor begins with.
pub open spec fn cursor_magic() -> Seq<u8> {
    seq![85u8, 68u8, 73u8, 82u8]
}

/// The encoding of a cursor.
pub open spec fn cursor_bytes(cursor: PageCursorView) -> Seq<u8> {
    cursor_magic() + seq![CURSOR_VERSION] + be_bytes(cursor.directory.fsid.major as nat, 8)
        + be_bytes(cursor.directory.fsid.minor as nat, 8) + be_bytes(
        cursor.directory.fileid as nat,
        8,
    ) + be_bytes(cursor.cookie.0 as nat, 8) + cursor.verifier.0@
}

/// The eight-byte word at `offset`.
pub open spec fn word_at(bytes: Seq<u8>, offset: int) -> u64 {
    be_value(bytes.subrange(offset, offset + 8)) as u64
}

/// The cursor an encoding of the right shape holds.
pub open spec fn cursor_in(bytes: Seq<u8>) -> PageCursorView {
    PageCursorView {
        directory: ObjectIdentity {
            fsid: Fsid { major: word_at(bytes, 5), minor: word_at(bytes, 13) },
            fileid: word_at(bytes, 21),
        },
        cookie: DirCookie(word_at(bytes, 29)),
        verifier: DirVerifier(
            [
                bytes[37],
                bytes[38],
                bytes[39],
                bytes[40],
                bytes[41],
                bytes[42],
                bytes[43],
                bytes[44],
            ],
        ),
    }
}

/// What decoding a continuation for `directory` yields.
pub open spec fn decode_cursor(bytes: Seq<u8>, directory: ObjectIdentity) -> Result<
    PageCursorView,
    UmbraErrorView,
> {
    if bytes.len() != CURSOR_LEN || bytes.take(4) != cursor_magic() || bytes[4]
        != CURSOR_VERSION {
        Err(void_cursor("the cursor was not issued by this provider"@))
    } else if cursor_in(bytes).directory != directory {
        Err(
            void_cursor(
                "the cursor belongs to a different directory and cannot be continued here"@,
            ),
        )
    } else {
        Ok(cursor_in(bytes))
    }
}

/// The failure of a cursor that can no longer be used.
pub open spec fn void_cursor(context: Seq<char>) -> UmbraErrorView {
    umbra(ErrorKind::StaleHandle, "list"@, context)
}

fn invalidated(context: &str) -> (r: UmbraError)
    ensures
        r@ == void_cursor(context@),
{
    UmbraError::new(ErrorKind::StaleHandle, "list", context)
}

fn word(bytes: &Vec<u8>, offset: usize) -> (r: u64)
    requires
        offset + 8 <= bytes@.len() <= usize::MAX,
    ensures
        r == word_at(bytes@, offset as int),
{
    let piece = copy_range(bytes.as_slice(), offset, offset + 8);
    let value: u64 = from_big_endian(piece.as_slice());
    value
}

impl PageCursor {
    /// Mint a cursor for the next page of `directory`.
    pub fn new(directory: ObjectIdentity, cookie: DirCookie, verifier: DirVerifier) -> (r: Self)
        ensures
            r@ == (PageCursorView { directory, cookie, verifier }),
    {
        PageCursor { directory, cookie, verifier }
    }

    /// The directory this cursor belongs to.
    pub fn directory(&self) -> (r: ObjectIdentity)
        ensures
            r == self@.directory,
    {
        self.directory
    }

    /// The resume cookie.
    pub fn cookie(&self) -> (r: DirCookie)
        ensures
            r == self@.cookie,
    {
        self.cookie
    }

    /// The verifier the cookie is only valid under.
    pub fn cookie_verifier(&self) -> (r: DirVerifier)
        ensures
            r == self@.verifier,
    {
        self.verifier
    }

    /// Encode into the contract's opaque continuation.
    pub fn encode(&self) -> (r: ListCursor)
        ensures
            r@ == cursor_bytes(self@),
            r@.len() == CURSOR_LEN,
    {
        let mut bytes: Vec<u8> = vec![85u8, 68u8, 73u8, 82u8, CURSOR_VERSION];
        proof {
            assert(bytes@ =~= cursor_magic() + seq![CURSOR_VERSION]);
            big_endian_round_trip(self.directory.fsid.major as nat, 8);
            big_endian_round_trip(self.directory.fsid.minor as nat, 8);
            big_endian_round_trip(self.directory.fileid as nat, 8);
            big_endian_round_trip(self.cookie.0 as nat, 8);
        }
        append_bytes(&mut bytes, big_endian(self.directory.fsid.major, 8).as_slice());
        append_bytes(&mut bytes, big_endian(self.directory.fsid.minor, 8).as_slice());
        append_bytes(&mut bytes, big_endian(self.directory.fileid, 8).as_slice());
        append_bytes(&mut bytes, big_endian(self.cookie.0, 8).as_slice());
        append_bytes(&mut bytes, &self.verifier.0);
        ListCursor(bytes)
    }

    /// Decode a continuation and prove it belongs to `directory`.
    pub fn decode(cursor: &ListCursor, directory: ObjectIdentity) -> (r: StorageResult<Self>)
        ensures
            res_view(r) == decode_cursor(cursor@, directory),
    {
        let bytes = &cursor.0;
        if bytes.len() != CURSOR_LEN || bytes[0] != 85 || bytes[1] != 68 || bytes[2] != 73
            || bytes[3] != 82 || bytes[4] != CURSOR_VERSION {
            proof {
                if bytes@.len() == CURSOR_LEN && bytes@.take(4) == cursor_magic() {
                    assert(bytes@.take(4)[0] == cursor_magic()[0]);
                    assert(bytes@.take(4)[1] == cursor_magic()[1]);
                    assert(bytes@.take(4)[2] == cursor_magic()[2]);
                    assert(bytes@.take(4)[3] == cursor_magic()[3]);
                }
            }
            return Err(invalidated("the cursor was not issued by this provider"));
        }
        proof {
            assert(bytes@.take(4) =~= cursor_magic());
        }
        let decoded = PageCursor {
            directory: ObjectIdentity {
                fsid: Fsid { major: word(bytes, 5), minor: word(bytes, 13) },
                fileid: word(bytes, 21),
            },
            cookie: DirCookie(word(bytes, 29)),
            verifier: DirVerifier(
                [
                    bytes[37],
                    bytes[38],
                    bytes[39],
                    bytes[40],
                    bytes[41],
                    bytes[42],
                    bytes[43],
                    bytes[44],
                ],
            ),
        };
        if decoded.directory != directory {
            return Err(
                invalidated(
                    "the cursor belongs to a different directory and cannot be continued here",
                ),
            );
        }
        Ok(decoded)
    }
}

/// A cursor survives its encoding, and no cursor can be continued in another
/// directory.
pub proof fn a_cursor_round_trips_in_its_own_directory_only(
    cursor: PageCursorView,
    elsewhere: ObjectIdentity,
)
    ensures
        decode_cursor(cursor_bytes(cursor), cursor.directory) == Ok::<
            PageCursorView,
            UmbraErrorView,
        >(cursor),
        elsewhere != cursor.directory ==> decode_cursor(cursor_bytes(cursor), elsewhere) is Err,
{
    let bytes = cursor_bytes(cursor);
    radix_of_eight();
    big_endian_round_trip(cursor.directory.fsid.major as nat, 8);
    big_endian_round_trip(cursor.directory.fsid.minor as nat, 8);
    big_endian_round_trip(cursor.directory.fileid as nat, 8);
    big_endian_round_trip(cursor.cookie.0 as nat, 8);
    assert(bytes.len() == 45);
    assert(bytes.take(4) =~= cursor_magic());
    assert(bytes.subrange(5, 13) =~= be_bytes(cursor.directory.fsid.major as nat, 8));
    assert(bytes.subrange(13, 21) =~= be_bytes(cursor.directory.fsid.minor as nat, 8));
    assert(bytes.subrange(21, 29) =~= be_bytes(cursor.directory.fileid as nat, 8));
    assert(bytes.subrange(29, 37) =~= be_bytes(cursor.cookie.0 as nat, 8));
    assert(cursor_in(bytes).verifier.0@ =~= cursor.verifier.0@);
    assert(cursor_in(bytes).verifier.0 =~= cursor.verifier.0);
}

/// What translating one server entry yields.
pub open spec fn translated(entry: DirEntryView) -> Result<DirectoryEntryView, UmbraErrorView> {
    if entry.attributes.rdattr_error is Some && (entry.attributes.rdattr_error->0).0 != 0 {
        Err(
            umbra(
                ErrorKind::Io,
                "list"@,
                "the server reported rdattr_error "@ + decimal((entry.attributes.rdattr_error->0).0 as nat)
                    + " for entry "@
                    + quoted(utf8_lossy(entry.name)),
            ),
        )
    } else {
        match identity_in(entry.attributes) {
            Err(error) => Err(to_umbra(error, "list"@)),
            Ok(identity) => match byte_path(entry.name) {
                Err(error) => Err(error),
                Ok(name) => match stat_of(identity, entry.attributes) {
                    Err(error) => Err(error),
                    Ok(stat) => Ok(DirectoryEntryView { name, stat }),
                },
            },
        }
    }
}

/// Translate one server entry, preserving its byte name and stable identity.
fn translate(entry: &DirEntry) -> (r: StorageResult<DirectoryEntry>)
    ensures
        res_view(r) == translated(entry@),
{
    // The server saying it could not answer for this entry fails the page: passing
    // it along with defaulted attributes would present a guess as a stat.
    if let Some(status) = entry.attributes.rdattr_error {
        if !status.is_ok() {
            return Err(
                UmbraError::new(
                    ErrorKind::Io,
                    "list",
                    join(
                        join3(
                            "the server reported rdattr_error ",
                            decimal_text(status.0 as u64).as_str(),
                            " for entry ",
                        ).as_str(),
                        quoted_text(lossy_text(entry.name.as_bytes()).as_str()).as_str(),
                    ).as_str(),
                ),
            );
        }
    }
    let identity = match identity_of(&entry.attributes) {
        Ok(identity) => identity,
        Err(error) => {
            return Err(error.to_umbra("list"));
        },
    };
    let name = match BytePath::new(copy_bytes(entry.name.as_bytes())) {
        Ok(name) => name,
        Err(error) => {
            return Err(error);
        },
    };
    match blob_stat(identity, &entry.attributes) {
        Ok(stat) => Ok(DirectoryEntry { name, stat }),
        Err(error) => Err(error),
    }
}

/// How far a page has come.
pub struct PageProgress {
    /// The resume position: after the last entry taken.
    pub position: DirCookie,
    /// The entries delivered.
    pub entries: Seq<DirectoryEntryView>,
    /// Whether every entry of the server page was taken.
    pub drained: bool,
}

/// Take entries of one server page, from `from` on, until `limit` are delivered.
/// The position advances only for entries actually taken.
pub open spec fn drain_from(
    server: Seq<DirEntryView>,
    from: int,
    private: Seq<Seq<u8>>,
    limit: u32,
    position: DirCookie,
    entries: Seq<DirectoryEntryView>,
) -> Result<PageProgress, UmbraErrorView>
    decreases server.len() - from,
{
    if from >= server.len() {
        Ok(PageProgress { position, entries, drained: true })
    } else if entries.len() == limit {
        Ok(PageProgress { position, entries, drained: false })
    } else {
        let entry = server[from];
        if is_noise(private, entry.name) {
            drain_from(server, from + 1, private, limit, entry.cookie, entries)
        } else {
            match translated(entry) {
                Err(error) => Err(error),
                Ok(item) => drain_from(
                    server,
                    from + 1,
                    private,
                    limit,
                    entry.cookie,
                    entries.push(item),
                ),
            }
        }
    }
}

/// The READDIR one step of a page asks for.
pub open spec fn page_request(
    position: DirCookie,
    expected: Option<DirVerifier>,
    max_count: u32,
) -> ReadDirRequest {
    ReadDirRequest {
        cookie: position,
        verifier: match expected {
            Some(verifier) => verifier,
            None => zero_verifier(),
        },
        dir_count: max_count,
        max_count,
        attrs: AttrMask(AttrMask::STAT_OR_ERROR),
    }
}

/// The verifier of no cookie.
pub open spec fn zero_verifier() -> DirVerifier {
    DirVerifier([0u8, 0u8, 0u8, 0u8, 0u8, 0u8, 0u8, 0u8])
}

/// The failure of a READDIR. A cookie the server invalidated is reported as a void
/// cursor that carries the server's own words.
pub open spec fn page_failure(error: FacadeErrorView) -> UmbraErrorView {
    if status_of(error) == Some(Nfs4Status(Nfs4Status::BAD_COOKIE)) {
        void_cursor(
            "the server invalidated this cursor ("@ + to_umbra(error, "list"@).context + ")"@,
        )
    } else {
        to_umbra(error, "list"@)
    }
}

/// A page that ended before the directory did.
pub open spec fn unfinished(
    directory: ObjectIdentity,
    position: DirCookie,
    expected: Option<DirVerifier>,
    entries: Seq<DirectoryEntryView>,
) -> DirectoryPageView {
    DirectoryPageView {
        entries,
        next: Some(
            cursor_bytes(
                PageCursorView {
                    directory,
                    cookie: position,
                    verifier: match expected {
                        Some(verifier) => verifier,
                        None => zero_verifier(),
                    },
                },
            ),
        ),
    }
}

/// Read server pages until the page is full, the directory ends, the server makes
/// no progress, or `budget` pages were read.
pub open spec fn page_from<T: RawTransport>(
    world: T::World,
    directory: PinnedObjectView,
    private: Seq<Seq<u8>>,
    limit: u32,
    max_count: u32,
    position: DirCookie,
    expected: Option<DirVerifier>,
    entries: Seq<DirectoryEntryView>,
    budget: nat,
    deadline: Deadline,
) -> (Result<DirectoryPageView, UmbraErrorView>, T::World)
    decreases budget,
{
    if budget == 0 {
        (Ok(unfinished(directory.identity, position, expected, entries)), world)
    } else {
        let call = readdir_call(directory.handle, page_request(position, expected, max_count));
        let after = T::after(world, call, deadline);
        match readdir_answer(T::answer(world, call, deadline)) {
            Err(error) => (Err(page_failure(error)), after),
            Ok(server) => if expected is Some && expected->0 != server.verifier {
                (
                    Err(
                        void_cursor(
                            "the directory cookie verifier changed; outstanding cursors are void"@,
                        ),
                    ),
                    after,
                )
            } else if server.entries.len() == 0 && !server.eof {
                (
                    Ok(
                        unfinished(
                            directory.identity,
                            position,
                            Some(server.verifier),
                            entries,
                        ),
                    ),
                    after,
                )
            } else {
                match drain_from(server.entries, 0, private, limit, position, entries) {
                    Err(error) => (Err(error), after),
                    Ok(progress) => if progress.drained && server.eof {
                        (
                            Ok(DirectoryPageView { entries: progress.entries, next: None }),
                            after,
                        )
                    } else if !progress.drained || progress.entries.len() == limit {
                        (
                            Ok(
                                unfinished(
                                    directory.identity,
                                    progress.position,
                                    Some(server.verifier),
                                    progress.entries,
                                ),
                            ),
                            after,
                        )
                    } else {
                        page_from::<T>(
                            after,
                            directory,
                            private,
                            limit,
                            max_count,
                            progress.position,
                            Some(server.verifier),
                            progress.entries,
                            (budget - 1) as nat,
                            deadline,
                        )
                    },
                }
            },
        }
    }
}

/// The reply size one READDIR of a page asks for.
pub open spec fn page_bytes(limit: u32, limits: TransportLimits) -> u32 {
    let wanted = if limit * BYTES_PER_ENTRY > u32::MAX {
        u32::MAX as int
    } else if limit * BYTES_PER_ENTRY < BYTES_PER_ENTRY {
        BYTES_PER_ENTRY as int
    } else {
        limit * BYTES_PER_ENTRY
    };
    if wanted <= limits.max_reply_bytes {
        wanted as u32
    } else {
        limits.max_reply_bytes as u32
    }
}

/// Read one bounded page of a directory.
#[verifier::opaque]
pub open spec fn page_run<T: RawTransport>(
    world: T::World,
    directory: PinnedObjectView,
    cursor: Option<Seq<u8>>,
    limit: u32,
    private: Seq<Seq<u8>>,
    deadline: Deadline,
) -> (Result<DirectoryPageView, UmbraErrorView>, T::World) {
    if directory.kind != Nfs4Type::Directory {
        (
            Err(
                umbra(
                    ErrorKind::InvalidPath,
                    "list"@,
                    "the path does not name a directory"@,
                ),
            ),
            world,
        )
    } else if limit == 0 {
        (
            Err(
                umbra(
                    ErrorKind::InvalidInput,
                    "list"@,
                    "a page limit of zero requests nothing"@,
                ),
            ),
            world,
        )
    } else {
        let max_count = page_bytes(limit, T::limits_of(world));
        match cursor {
            None => page_from::<T>(
                world,
                directory,
                private,
                limit,
                max_count,
                DirCookie(0),
                None,
                Seq::empty(),
                MAX_SERVER_PAGES as nat,
                deadline,
            ),
            Some(bytes) => match decode_cursor(bytes, directory.identity) {
                Err(error) => (Err(error), world),
                Ok(resume) => page_from::<T>(
                    world,
                    directory,
                    private,
                    limit,
                    max_count,
                    resume.cookie,
                    Some(resume.verifier),
                    Seq::empty(),
                    MAX_SERVER_PAGES as nat,
                    deadline,
                ),
            },
        }
    }
}

fn continuation(directory: ObjectIdentity, position: DirCookie, expected: Option<DirVerifier>) -> (r:
    ListCursor)
    ensures
        Some(r@) == unfinished(directory, position, expected, Seq::empty()).next,
{
    let verifier = match expected {
        Some(verifier) => verifier,
        None => DirVerifier([0u8, 0u8, 0u8, 0u8, 0u8, 0u8, 0u8, 0u8]),
    };
    PageCursor::new(directory, position, verifier).encode()
}

/// Read one bounded page of a directory.
///
/// Returns at most `limit` entries plus a continuation when more remain. A page
/// that spends its budget on filtered entries alone returns no entries and a
/// cursor, which is a correct answer rather than an error.
pub fn page<T: RawTransport>(
    transport: &mut T,
    directory: &PinnedObject,
    cursor: Option<&ListCursor>,
    limit: u32,
    filter: &NoiseFilter,
    deadline: Deadline,
) -> (r: StorageResult<DirectoryPage>)
    ensures
        (res_view(r), final(transport).world()) == page_run::<T>(
            old(transport).world(),
            directory@,
            match cursor {
                Some(bytes) => Some(bytes@),
                None => None,
            },
            limit,
            filter@,
            deadline,
        ),
{
    proof {
        reveal(page_run);
    }
    if !directory.is_directory() {
        return Err(
            UmbraError::new(ErrorKind::InvalidPath, "list", "the path does not name a directory"),
        );
    }
    if limit == 0 {
        return Err(
            UmbraError::new(
                ErrorKind::InvalidInput,
                "list",
                "a page limit of zero requests nothing",
            ),
        );
    }
    let mut position = DirCookie(0);
    // A first page has no verifier to honour; a continuation does.
    let mut expected: Option<DirVerifier> = None;
    if let Some(bytes) = cursor {
        match PageCursor::decode(bytes, directory.identity()) {
            Err(error) => {
                return Err(error);
            },
            Ok(resume) => {
                position = resume.cookie();
                expected = Some(resume.cookie_verifier());
            },
        }
    }
    let limits = transport.limits();
    let product: u64 = limit as u64 * BYTES_PER_ENTRY as u64;
    let wanted: u32 = if product > u32::MAX as u64 {
        u32::MAX
    } else {
        product as u32
    };
    let max_count: u32 = if wanted as u64 <= limits.max_reply_bytes as u64 {
        wanted
    } else {
        limits.max_reply_bytes as u32
    };
    let mut entries: Vec<DirectoryEntry> = Vec::new();
    let mut budget: u32 = MAX_SERVER_PAGES;
    let ghost given = match cursor {
        Some(bytes) => Some(bytes@),
        None => None,
    };
    let ghost whole = page_run::<T>(
        transport.world(),
        directory@,
        given,
        limit,
        filter@,
        deadline,
    );
    proof {
        assert(seq_view(entries@) =~= Seq::<DirectoryEntryView>::empty());
    }
    while budget > 0
        invariant
            whole == page_run::<T>(
                old(transport).world(),
                directory@,
                given,
                limit,
                filter@,
                deadline,
            ),
            given == (match cursor {
                Some(bytes) => Some(bytes@),
                None => None,
            }),
            whole == page_from::<T>(
                transport.world(),
                directory@,
                filter@,
                limit,
                max_count,
                position,
                expected,
                seq_view(entries@),
                budget as nat,
                deadline,
            ),
            entries@.len() <= limit,
        decreases budget,
    {
        let request = ReadDirRequest {
            cookie: position,
            verifier: match expected {
                Some(verifier) => verifier,
                None => DirVerifier([0u8, 0u8, 0u8, 0u8, 0u8, 0u8, 0u8, 0u8]),
            },
            dir_count: max_count,
            max_count,
            attrs: AttrMask(AttrMask::STAT_OR_ERROR),
        };
        proof {
            assert(request == page_request(position, expected, max_count));
        }
        let server = match transport.readdir(directory.handle(), request, deadline) {
            Ok(server) => server,
            Err(error) => {
                // The server invalidated the cookie itself. Reporting anything but
                // a void cursor would invite a retry of the same cookie forever.
                if error.is_status(Nfs4Status::BAD_COOKIE) {
                    return Err(
                        invalidated(
                            join3(
                                "the server invalidated this cursor (",
                                error.to_umbra("list").context.as_str(),
                                ")",
                            ).as_str(),
                        ),
                    );
                }
                return Err(error.to_umbra("list"));
            },
        };
        if let Some(verifier) = expected {
            if !same_verifier(&verifier.0, &server.verifier.0) {
                return Err(
                    invalidated(
                        "the directory cookie verifier changed; outstanding cursors are void",
                    ),
                );
            }
        }
        expected = Some(server.verifier);
        if server.entries.len() == 0 && !server.eof {
            // No progress and not finished: stop rather than spin.
            return Ok(
                DirectoryPage {
                    entries,
                    next: Some(continuation(directory.identity(), position, expected)),
                },
            );
        }
        let ghost start = seq_view(entries@);
        let ghost listed = seq_view(server.entries@);
        let ghost drained_as = drain_from(listed, 0, filter@, limit, position, start);
        let mut drained = true;
        let mut i: usize = 0;
        while drained && i < server.entries.len()
            invariant
                i <= server.entries@.len(),
                listed == seq_view(server.entries@),
                entries@.len() <= limit,
                drained ==> drained_as == drain_from(
                    listed,
                    i as int,
                    filter@,
                    limit,
                    position,
                    seq_view(entries@),
                ),
                !drained ==> drained_as == Ok::<PageProgress, UmbraErrorView>(
                    PageProgress { position, entries: seq_view(entries@), drained: false },
                ),
                whole == page_run::<T>(
                    old(transport).world(),
                    directory@,
                    given,
                    limit,
                    filter@,
                    deadline,
                ),
                given == (match cursor {
                    Some(bytes) => Some(bytes@),
                    None => None,
                }),
                drained_as is Err ==> whole == (
                    Err::<DirectoryPageView, UmbraErrorView>(drained_as->Err_0),
                    transport.world(),
                ),
            decreases
                (server.entries@.len() - i) + if drained {
                    1int
                } else {
                    0int
                },
        {
            let entry = &server.entries[i];
            proof {
                assert(listed[i as int] == entry@);
            }
            if entries.len() as u64 == limit as u64 {
                drained = false;
            } else {
                if !filter.is_noise(entry.name.as_bytes()) {
                    match translate(entry) {
                        Err(error) => {
                            return Err(error);
                        },
                        Ok(item) => {
                            let ghost earlier = seq_view(entries@);
                            let ghost added = item@;
                            entries.push(item);
                            proof {
                                assert(seq_view(entries@) =~= earlier.push(added));
                            }
                        },
                    }
                }
                position = entry.cookie;
                i += 1;
            }
        }
        if drained && server.eof {
            return Ok(DirectoryPage { entries, next: None });
        }
        if !drained || entries.len() as u64 == limit as u64 {
            return Ok(
                DirectoryPage {
                    entries,
                    next: Some(continuation(directory.identity(), position, expected)),
                },
            );
        }
        budget -= 1;
    }
    Ok(
        DirectoryPage {
            entries,
            next: Some(continuation(directory.identity(), position, expected)),
        },
    )
}

/// Whether delivered entries respect a filter and a limit.
pub open spec fn within_page(
    entries: Seq<DirectoryEntryView>,
    private: Seq<Seq<u8>>,
    limit: u32,
) -> bool {
    &&& entries.len() <= limit
    &&& forall|i: int|
        0 <= i < entries.len() ==> !is_noise(private, #[trigger] entries[i].name)
}

/// Draining a server page keeps what is delivered within the filter and the limit.
proof fn draining_stays_within(
    server: Seq<DirEntryView>,
    from: int,
    private: Seq<Seq<u8>>,
    limit: u32,
    position: DirCookie,
    entries: Seq<DirectoryEntryView>,
)
    requires
        within_page(entries, private, limit),
    ensures
        drain_from(server, from, private, limit, position, entries) matches Ok(
            progress,
        ) ==> within_page(progress.entries, private, limit),
    decreases server.len() - from,
{
    if from < server.len() && entries.len() != limit {
        let entry = server[from];
        if is_noise(private, entry.name) {
            draining_stays_within(server, from + 1, private, limit, entry.cookie, entries);
        } else if let Ok(item) = translated(entry) {
            draining_stays_within(
                server,
                from + 1,
                private,
                limit,
                entry.cookie,
                entries.push(item),
            );
        }
    }
}

proof fn paging_stays_within<T: RawTransport>(
    world: T::World,
    directory: PinnedObjectView,
    private: Seq<Seq<u8>>,
    limit: u32,
    max_count: u32,
    position: DirCookie,
    expected: Option<DirVerifier>,
    entries: Seq<DirectoryEntryView>,
    budget: nat,
    deadline: Deadline,
)
    requires
        within_page(entries, private, limit),
    ensures
        page_from::<T>(
            world,
            directory,
            private,
            limit,
            max_count,
            position,
            expected,
            entries,
            budget,
            deadline,
        ).0 matches Ok(page) ==> within_page(page.entries, private, limit),
    decreases budget,
{
    if budget > 0 {
        let call = readdir_call(directory.handle, page_request(position, expected, max_count));
        let after = T::after(world, call, deadline);
        if let Ok(server) = readdir_answer(T::answer(world, call, deadline)) {
            draining_stays_within(server.entries, 0, private, limit, position, entries);
            if let Ok(progress) = drain_from(
                server.entries,
                0,
                private,
                limit,
                position,
                entries,
            ) {
                paging_stays_within::<T>(
                    after,
                    directory,
                    private,
                    limit,
                    max_count,
                    progress.position,
                    Some(server.verifier),
                    progress.entries,
                    (budget - 1) as nat,
                    deadline,
                );
            }
        }
    }
}

/// A page never holds more entries than its limit, and never a filtered name,
/// whatever the server answers.
pub proof fn a_page_is_bounded_and_filtered<T: RawTransport>(
    world: T::World,
    directory: PinnedObjectView,
    cursor: Option<Seq<u8>>,
    limit: u32,
    private: Seq<Seq<u8>>,
    deadline: Deadline,
)
    ensures
        page_run::<T>(world, directory, cursor, limit, private, deadline).0 matches Ok(
            page,
        ) ==> within_page(page.entries, private, limit),
{
    reveal(page_run);
    let max_count = page_bytes(limit, T::limits_of(world));
    let (position, expected) = match cursor {
        None => (DirCookie(0), None),
        Some(bytes) => match decode_cursor(bytes, directory.identity) {
            Err(_) => (DirCookie(0), None),
            Ok(resume) => (resume.cookie, Some(resume.verifier)),
        },
    };
    paging_stays_within::<T>(
        world,
        directory,
        private,
        limit,
        max_count,
        position,
        expected,
        Seq::empty(),
        MAX_SERVER_PAGES as nat,
        deadline,
    );
}

/// A continuation made for one directory is refused in another before any request
/// is sent.
pub proof fn a_foreign_cursor_is_refused_without_a_request<T: RawTransport>(
    world: T::World,
    directory: PinnedObjectView,
    cursor: PageCursorView,
    limit: u32,
    private: Seq<Seq<u8>>,
    deadline: Deadline,
)
    requires
        cursor.directory != directory.identity,
        directory.kind == Nfs4Type::Directory,
        limit > 0,
    ensures
        page_run::<T>(world, directory, Some(cursor_bytes(cursor)), limit, private, deadline).0
            matches Err(error) && error.kind == ErrorKind::StaleHandle,
        page_run::<T>(
            world,
            directory,
            Some(cursor_bytes(cursor)),
            limit,
            private,
            deadline,
        ).1 == world,
{
    reveal(page_run);
    a_cursor_round_trips_in_its_own_directory_only(cursor, directory.identity);
}

/// How many entries of a server page are taken, from `from` on, by a page that
/// already delivers `have`.
pub open spec fn taken_of(
    server: Seq<DirEntryView>,
    from: int,
    private: Seq<Seq<u8>>,
    limit: u32,
    have: nat,
) -> int
    decreases server.len() - from,
{
    if from >= server.len() || have == limit {
        from
    } else if is_noise(private, server[from].name) {
        taken_of(server, from + 1, private, limit, have)
    } else {
        taken_of(server, from + 1, private, limit, have + 1)
    }
}

/// What a consumer is shown of the server entries `taken`: the unfiltered ones, in
/// order.
pub open spec fn shown(taken: Seq<DirEntryView>, private: Seq<Seq<u8>>) -> Seq<
    DirectoryEntryView,
>
    decreases taken.len(),
{
    if taken.len() == 0 {
        Seq::empty()
    } else {
        let earlier = shown(taken.drop_last(), private);
        if is_noise(private, taken.last().name) {
            earlier
        } else {
            earlier.push(translated(taken.last())->Ok_0)
        }
    }
}

/// Where a listing stands once `taken` was taken, having started at `start`.
pub open spec fn position_after(start: DirCookie, taken: Seq<DirEntryView>) -> DirCookie {
    if taken.len() == 0 {
        start
    } else {
        taken.last().cookie
    }
}

proof fn draining_passes_over_nothing(
    server: Seq<DirEntryView>,
    from: int,
    private: Seq<Seq<u8>>,
    limit: u32,
    start: DirCookie,
    earlier: Seq<DirEntryView>,
)
    requires
        0 <= from <= server.len(),
        shown(earlier + server.take(from), private).len() <= limit,
    ensures
        ({
            let before = earlier + server.take(from);
            let taken = taken_of(server, from, private, limit, shown(before, private).len());
            let after = earlier + server.take(taken);
            &&& from <= taken <= server.len()
            &&& drain_from(
                server,
                from,
                private,
                limit,
                position_after(start, before),
                shown(before, private),
            ) matches Ok(progress) ==> {
                &&& progress.entries == shown(after, private)
                &&& progress.position == position_after(start, after)
                &&& progress.drained == (taken == server.len())
                &&& progress.entries.len() <= limit
                &&& !progress.drained ==> progress.entries.len() == limit
            }
        }),
    decreases server.len() - from,
{
    let before = earlier + server.take(from);
    if from < server.len() && shown(before, private).len() != limit {
        let next = earlier + server.take(from + 1);
        assert(next.drop_last() =~= before);
        assert(next.last() == server[from]);
        if is_noise(private, server[from].name) || translated(server[from]) is Ok {
            draining_passes_over_nothing(server, from + 1, private, limit, start, earlier);
        } else {
            counting_stays_within(
                server,
                from + 1,
                private,
                limit,
                (shown(before, private).len() + 1) as nat,
            );
        }
    }
}

proof fn counting_stays_within(
    server: Seq<DirEntryView>,
    from: int,
    private: Seq<Seq<u8>>,
    limit: u32,
    have: nat,
)
    requires
        0 <= from <= server.len(),
    ensures
        from <= taken_of(server, from, private, limit, have) <= server.len(),
    decreases server.len() - from,
{
    if from < server.len() && have != limit {
        if is_noise(private, server[from].name) {
            counting_stays_within(server, from + 1, private, limit, have);
        } else {
            counting_stays_within(server, from + 1, private, limit, have + 1);
        }
    }
}

/// The server entries a page takes, in order: of each server page it reads, those
/// from the resume position on, up to where the page is full.
pub open spec fn taken_from<T: RawTransport>(
    world: T::World,
    directory: PinnedObjectView,
    private: Seq<Seq<u8>>,
    limit: u32,
    max_count: u32,
    start: DirCookie,
    expected: Option<DirVerifier>,
    taken: Seq<DirEntryView>,
    budget: nat,
    deadline: Deadline,
) -> Seq<DirEntryView>
    decreases budget,
{
    if budget == 0 {
        taken
    } else {
        let call = readdir_call(
            directory.handle,
            page_request(position_after(start, taken), expected, max_count),
        );
        match readdir_answer(T::answer(world, call, deadline)) {
            Err(_) => taken,
            Ok(server) => {
                let have = shown(taken, private).len();
                let count = taken_of(server.entries, 0, private, limit, have);
                let after = taken + server.entries.take(count);
                if server.entries.len() == 0 || server.eof || shown(after, private).len()
                    == limit {
                    after
                } else {
                    taken_from::<T>(
                        T::after(world, call, deadline),
                        directory,
                        private,
                        limit,
                        max_count,
                        start,
                        Some(server.verifier),
                        after,
                        (budget - 1) as nat,
                        deadline,
                    )
                }
            },
        }
    }
}

proof fn paging_passes_over_nothing<T: RawTransport>(
    world: T::World,
    directory: PinnedObjectView,
    private: Seq<Seq<u8>>,
    limit: u32,
    max_count: u32,
    start: DirCookie,
    expected: Option<DirVerifier>,
    taken: Seq<DirEntryView>,
    budget: nat,
    deadline: Deadline,
)
    requires
        shown(taken, private).len() <= limit,
    ensures
        page_from::<T>(
            world,
            directory,
            private,
            limit,
            max_count,
            position_after(start, taken),
            expected,
            shown(taken, private),
            budget,
            deadline,
        ).0 matches Ok(page) ==> {
            let passed = taken_from::<T>(
                world,
                directory,
                private,
                limit,
                max_count,
                start,
                expected,
                taken,
                budget,
                deadline,
            );
            &&& page.entries == shown(passed, private)
            &&& page.next matches Some(bytes) ==> decode_cursor(bytes, directory.identity) is Ok
                && (decode_cursor(bytes, directory.identity)->Ok_0).cookie == position_after(
                start,
                passed,
            )
        },
    decreases budget,
{
    if budget == 0 {
        resumed_where_it_stopped(directory.identity, position_after(start, taken), expected);
    } else {
        let position = position_after(start, taken);
        let call = readdir_call(directory.handle, page_request(position, expected, max_count));
        let after = T::after(world, call, deadline);
        if let Ok(server) = readdir_answer(T::answer(world, call, deadline)) {
            assert(taken + server.entries.take(0) =~= taken);
            draining_passes_over_nothing(server.entries, 0, private, limit, start, taken);
            let have = shown(taken, private).len();
            let count = taken_of(server.entries, 0, private, limit, have);
            let now = taken + server.entries.take(count);
            resumed_where_it_stopped(
                directory.identity,
                position_after(start, now),
                Some(server.verifier),
            );
            if server.entries.len() == 0 {
                assert(now =~= taken);
            }
            if let Ok(progress) = drain_from(
                server.entries,
                0,
                private,
                limit,
                position,
                shown(taken, private),
            ) {
                if progress.drained && !server.eof && progress.entries.len() != limit {
                    paging_passes_over_nothing::<T>(
                        after,
                        directory,
                        private,
                        limit,
                        max_count,
                        start,
                        Some(server.verifier),
                        now,
                        (budget - 1) as nat,
                        deadline,
                    );
                }
            }
        }
    }
}

proof fn resumed_where_it_stopped(
    directory: ObjectIdentity,
    position: DirCookie,
    expected: Option<DirVerifier>,
)
    ensures
        ({
            let page = unfinished(directory, position, expected, Seq::empty());
            decode_cursor(page.next->0, directory) is Ok && (decode_cursor(
                page.next->0,
                directory,
            )->Ok_0).cookie == position
        }),
{
    let cursor = PageCursorView {
        directory,
        cookie: position,
        verifier: match expected {
            Some(verifier) => verifier,
            None => zero_verifier(),
        },
    };
    a_cursor_round_trips_in_its_own_directory_only(cursor, directory);
}

/// A page passes over nothing: it shows every unfiltered entry of what it took from
/// the server, in order, and its cursor resumes right after the last one taken, so
/// no entry falls between two pages.
pub proof fn no_entry_falls_between_pages<T: RawTransport>(
    world: T::World,
    directory: PinnedObjectView,
    cursor: Option<PageCursorView>,
    limit: u32,
    private: Seq<Seq<u8>>,
    deadline: Deadline,
)
    requires
        cursor matches Some(resume) ==> resume.directory == directory.identity,
    ensures
        ({
            let bytes = match cursor {
                Some(resume) => Some(cursor_bytes(resume)),
                None => None,
            };
            let start = match cursor {
                Some(resume) => resume.cookie,
                None => DirCookie(0),
            };
            let passed = taken_from::<T>(
                world,
                directory,
                private,
                limit,
                page_bytes(limit, T::limits_of(world)),
                start,
                match cursor {
                    Some(resume) => Some(resume.verifier),
                    None => None,
                },
                Seq::empty(),
                MAX_SERVER_PAGES as nat,
                deadline,
            );
            page_run::<T>(world, directory, bytes, limit, private, deadline).0 matches Ok(page) ==> {
                &&& page.entries == shown(passed, private)
                &&& page.next matches Some(next) ==> decode_cursor(next, directory.identity) is Ok
                    && (decode_cursor(next, directory.identity)->Ok_0).cookie == position_after(
                    start,
                    passed,
                )
            }
        }),
{
    reveal(page_run);
    let (start, expected) = match cursor {
        None => (DirCookie(0), None),
        Some(resume) => (resume.cookie, Some(resume.verifier)),
    };
    if let Some(resume) = cursor {
        a_cursor_round_trips_in_its_own_directory_only(resume, directory.identity);
    }
    paging_passes_over_nothing::<T>(
        world,
        directory,
        private,
        limit,
        page_bytes(limit, T::limits_of(world)),
        start,
        expected,
        Seq::empty(),
        MAX_SERVER_PAGES as nat,
        deadline,
    );
}

} // verus!
