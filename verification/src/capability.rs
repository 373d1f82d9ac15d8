//! What this provider offers, what it refuses, and what is deferred.
//!
//! A [`Support::Supported`] operation is implemented over the transport seam. An
//! [`Support::Unsupported`] one has semantics this provider will not offer, and
//! answering [`ErrorKind::UnsupportedCapability`] is the whole contract: no silent
//! fallback, no empty-but-successful answer, no discarded write. A
//! [`Support::Deferred`] one is authorised but needs a bound namespace dispatcher,
//! and answers [`ErrorKind::NotImplemented`] naming the owner when none is bound.
use vstd::prelude::*;

pub mod verdicts;

use crate::contract::{
    res_view, umbra, CreateKind, CreateKindView, ErrorKind, StorageOperation,
    StorageOperationView, StorageResult, UmbraError, UmbraErrorView,
};
use crate::text::join3;

verus! {

/// The node that owns closing a deferred gap in the wire vocabulary.
pub const CONTRACTS_REVISION: &'static str = "contracts (frozen transport facade)";

/// The node that owns binding a live transport into the provider.
pub const M1_INTEGRATE: &'static str = "m1_integrate";

/// Why a deferred namespace mutation cannot be dispatched without a dispatcher.
pub const NO_WIRE_OPERATION: &'static str =
    "the frozen Nfs4Op carries no argument variant for this NFSv4.0 operation, so no COMPOUND in this crate can encode it";

/// Why logical symlinks are not served.
pub const OVERLAY_OWNED: &'static str =
    "logical symlinks are overlay-owned; this provider resolves no server-side symlink and creates none, so it cannot escape the anchor";

/// What this provider does with one operation.
#[derive(Clone, Copy, Debug, PartialEq, Eq)]
pub enum Support {
    /// Implemented over the transport seam.
    Supported,
    /// Refused outright. The reason is reported verbatim to the caller.
    Unsupported {
        /// Why the semantics are not offered.
        reason: &'static str,
    },
    /// Authorised but unreachable without a dispatcher.
    Deferred {
        /// Node that owns closing the gap.
        owner: &'static str,
        /// Why it is unreachable.
        reason: &'static str,
    },
}

/// The content of a [`Support`].
pub enum SupportView {
    /// See [`Support::Supported`].
    Supported,
    /// See [`Support::Unsupported`].
    Unsupported {
        /// Why the semantics are not offered.
        reason: Seq<char>,
    },
    /// See [`Support::Deferred`].
    Deferred {
        /// Node that owns closing the gap.
        owner: Seq<char>,
        /// Why it is unreachable.
        reason: Seq<char>,
    },
}

impl View for Support {
    type V = SupportView;

    open spec fn view(&self) -> SupportView {
        match *self {
            Support::Supported => SupportView::Supported,
            Support::Unsupported { reason } => SupportView::Unsupported { reason: reason@ },
            Support::Deferred { owner, reason } => SupportView::Deferred {
                owner: owner@,
                reason: reason@,
            },
        }
    }
}

/// The failure a verdict amounts to for `operation`.
pub open spec fn refusal(support: SupportView, operation: Seq<char>) -> UmbraErrorView {
    match support {
        SupportView::Supported => umbra(
            ErrorKind::ProtocolMismatch,
            operation,
            "the capability table marks this operation supported, so it has no                  refusal; the table and the dispatch have drifted apart"@,
        ),
        SupportView::Unsupported { reason } => umbra(
            ErrorKind::UnsupportedCapability,
            operation,
            reason,
        ),
        SupportView::Deferred { owner, reason } => umbra(
            ErrorKind::NotImplemented,
            operation,
            reason + "; "@ + owner + " owns closing this"@,
        ),
    }
}

/// The contract kind a verdict answers with, if it refuses.
pub open spec fn refusal_kind(support: SupportView) -> Option<ErrorKind> {
    match support {
        SupportView::Supported => None,
        SupportView::Unsupported { .. } => Some(ErrorKind::UnsupportedCapability),
        SupportView::Deferred { .. } => Some(ErrorKind::NotImplemented),
    }
}

impl Support {
    /// The contract error kind this verdict produces.
    pub fn error_kind(self) -> (r: Option<ErrorKind>)
        ensures
            r == refusal_kind(self@),
    {
        match self {
            Support::Supported => None,
            Support::Unsupported { .. } => Some(ErrorKind::UnsupportedCapability),
            Support::Deferred { .. } => Some(ErrorKind::NotImplemented),
        }
    }

    /// Turn a non-supported verdict into the failure the caller receives.
    pub fn admit_operation(self, operation: &str) -> (r: StorageResult<()>)
        ensures
            res_view(r) == (if self@ is Supported {
                Ok::<(), UmbraErrorView>(())
            } else {
                Err(refusal(self@, operation@))
            }),
    {
        match self {
            Support::Supported => Ok(()),
            other => other.refuse(operation),
        }
    }

    /// Refuse an operation, in whatever result type the call site returns.
    ///
    /// Asking a supported verdict for a refusal means the table and the dispatch
    /// have drifted apart, which reports itself rather than fabricating a response.
    pub fn refuse<T>(self, operation: &str) -> (r: StorageResult<T>)
        ensures
            r is Err,
            r->Err_0@ == refusal(self@, operation@),
    {
        match self {
            Support::Supported => Err(
                UmbraError::new(
                    ErrorKind::ProtocolMismatch,
                    operation,
                    "the capability table marks this operation supported, so it has no                  refusal; the table and the dispatch have drifted apart",
                ),
            ),
            Support::Unsupported { reason } => Err(
                UmbraError::new(ErrorKind::UnsupportedCapability, operation, reason),
            ),
            Support::Deferred { owner, reason } => Err(
                UmbraError::new(
                    ErrorKind::NotImplemented,
                    operation,
                    join3(reason, "; ", owner).concat(" owns closing this").as_str(),
                ),
            ),
        }
    }
}

/// One row of the published capability matrix.
#[derive(Clone, Copy, Debug, PartialEq, Eq)]
pub struct CapabilityRow {
    /// The operation, or the sub-case within one.
    pub operation: &'static str,
    /// The system calls this row serves.
    pub syscalls: &'static [&'static str],
    /// The verdict.
    pub support: Support,
}

/// The content of a [`CapabilityRow`].
pub struct CapabilityRowView {
    /// The operation, or the sub-case within one.
    pub operation: Seq<char>,
    /// The system calls this row serves.
    pub syscalls: Seq<Seq<char>>,
    /// The verdict.
    pub support: SupportView,
}

impl View for CapabilityRow {
    type V = CapabilityRowView;

    open spec fn view(&self) -> CapabilityRowView {
        CapabilityRowView {
            operation: self.operation@,
            syscalls: Seq::new(self.syscalls@.len(), |i: int| self.syscalls@[i]@),
            support: self.support@,
        }
    }
}

/// A system call with no representation on the storage contract.
#[derive(Clone, Copy, Debug, PartialEq, Eq)]
pub struct SurfaceNote {
    /// The system calls.
    pub syscalls: &'static [&'static str],
    /// The verdict.
    pub support: Support,
}

/// The content of a [`SurfaceNote`].
pub struct SurfaceNoteView {
    /// The system calls.
    pub syscalls: Seq<Seq<char>>,
    /// The verdict.
    pub support: SupportView,
}

impl View for SurfaceNote {
    type V = SurfaceNoteView;

    open spec fn view(&self) -> SurfaceNoteView {
        SurfaceNoteView {
            syscalls: Seq::new(self.syscalls@.len(), |i: int| self.syscalls@[i]@),
            support: self.support@,
        }
    }
}

/// The rows of the capability matrix, in order.
pub open spec fn surface_row(index: int) -> CapabilityRowView {
    if index == 0 {
        CapabilityRowView {
            operation: "Lookup"@,
            syscalls: seq!["open, openat (P->H resolution)"@, "access, faccessat"@],
            support: SupportView::Supported,
        }
    } else if index == 1 {
        CapabilityRowView {
            operation: "Stat"@,
            syscalls: seq![
                "stat, fstatat, lstat"@,
                "fstat"@,
                "getattrlist (bounded attribute subset)"@,
            ],
            support: SupportView::Supported,
        }
    } else if index == 2 {
        CapabilityRowView {
            operation: "List"@,
            syscalls: seq![
                "opendir, readdir, closedir"@,
                "getdents64"@,
                "getdirentries, getdirentries64"@,
                "getattrlistbulk (bounded attribute subset)"@,
            ],
            support: SupportView::Supported,
        }
    } else if index == 3 {
        CapabilityRowView {
            operation: "ReadAt"@,
            syscalls: seq!["read"@, "pread"@],
            support: SupportView::Supported,
        }
    } else if index == 4 {
        CapabilityRowView {
            operation: "WriteAt"@,
            syscalls: seq!["write"@, "pwrite"@],
            support: SupportView::Supported,
        }
    } else if index == 5 {
        CapabilityRowView {
            operation: "Create { kind: File }"@,
            syscalls: seq!["open, openat with O_CREAT"@, "open, openat with O_CREAT|O_EXCL"@],
            support: SupportView::Supported,
        }
    } else if index == 6 {
        CapabilityRowView {
            operation: "Create { kind: Directory }"@,
            syscalls: seq!["mkdir, mkdirat"@],
            support: SupportView::Deferred {
                owner: CONTRACTS_REVISION@,
                reason: NO_WIRE_OPERATION@,
            },
        }
    } else if index == 7 {
        CapabilityRowView {
            operation: "Create { kind: LogicalSymlink }"@,
            syscalls: seq!["symlink, symlinkat"@],
            support: SupportView::Unsupported { reason: OVERLAY_OWNED@ },
        }
    } else if index == 8 {
        CapabilityRowView {
            operation: "CreateParents"@,
            syscalls: seq!["mkdir, mkdirat (recursive)"@],
            support: SupportView::Deferred {
                owner: CONTRACTS_REVISION@,
                reason: NO_WIRE_OPERATION@,
            },
        }
    } else if index == 9 {
        CapabilityRowView {
            operation: "CopyUp"@,
            syscalls: seq!["immutable-base materialisation (no direct syscall)"@],
            support: SupportView::Deferred {
                owner: M1_INTEGRATE@,
                reason:
                    "this provider issues no ApprovedBaseObject handle, so a presented one names nothing it can prove"@,
            },
        }
    } else if index == 10 {
        CapabilityRowView {
            operation: "Unlink"@,
            syscalls: seq!["unlink, unlinkat"@],
            support: SupportView::Deferred {
                owner: CONTRACTS_REVISION@,
                reason: NO_WIRE_OPERATION@,
            },
        }
    } else if index == 11 {
        CapabilityRowView {
            operation: "RemoveDirectory"@,
            syscalls: seq!["rmdir"@, "unlinkat with AT_REMOVEDIR"@],
            support: SupportView::Deferred {
                owner: CONTRACTS_REVISION@,
                reason: NO_WIRE_OPERATION@,
            },
        }
    } else if index == 12 {
        CapabilityRowView {
            operation: "Rename"@,
            syscalls: seq!["rename, renameat"@, "renameat2 with flags = 0"@],
            support: SupportView::Deferred {
                owner: CONTRACTS_REVISION@,
                reason: NO_WIRE_OPERATION@,
            },
        }
    } else if index == 13 {
        CapabilityRowView {
            operation: "Link"@,
            syscalls: seq!["link, linkat"@],
            support: SupportView::Unsupported {
                reason:
                    "the syscall matrix sets the M2 hard-link capability false; no copy-as-link substitution is offered"@,
            },
        }
    } else if index == 14 {
        CapabilityRowView {
            operation: "ReadLink"@,
            syscalls: seq!["readlink, readlinkat"@],
            support: SupportView::Unsupported { reason: OVERLAY_OWNED@ },
        }
    } else if index == 15 {
        CapabilityRowView {
            operation: "SetMetadata"@,
            syscalls: seq![
                "chmod, fchmodat"@,
                "fchmod"@,
                "chown, fchownat"@,
                "fchown"@,
                "utimensat, futimens"@,
            ],
            support: SupportView::Deferred {
                owner: CONTRACTS_REVISION@,
                reason: NO_WIRE_OPERATION@,
            },
        }
    } else if index == 16 {
        CapabilityRowView {
            operation: "Truncate"@,
            syscalls: seq!["truncate, ftruncate"@, "open, openat with O_TRUNC"@],
            support: SupportView::Deferred {
                owner: CONTRACTS_REVISION@,
                reason: NO_WIRE_OPERATION@,
            },
        }
    } else if index == 17 {
        CapabilityRowView {
            operation: "GetXattr"@,
            syscalls: seq!["getxattr, listxattr"@],
            support: SupportView::Unsupported {
                reason:
                    "the syscall matrix sets the initial xattr capability false; an empty successful list would be a false answer"@,
            },
        }
    } else if index == 18 {
        CapabilityRowView {
            operation: "SetXattr"@,
            syscalls: seq!["setxattr"@],
            support: SupportView::Unsupported {
                reason:
                    "the syscall matrix sets the initial xattr capability false; a discarded write would be a false success"@,
            },
        }
    } else if index == 19 {
        CapabilityRowView {
            operation: "RemoveXattr"@,
            syscalls: seq!["removexattr"@],
            support: SupportView::Unsupported {
                reason: "the syscall matrix sets the initial xattr capability false"@,
            },
        }
    } else if index == 20 {
        CapabilityRowView {
            operation: "GetWhiteout"@,
            syscalls: seq!["overlay whiteout policy (no direct syscall)"@],
            support: SupportView::Unsupported {
                reason: "whiteouts stay overlay policy; storage holds no whiteout state"@,
            },
        }
    } else if index == 21 {
        CapabilityRowView {
            operation: "SetWhiteout"@,
            syscalls: seq!["overlay whiteout policy (no direct syscall)"@],
            support: SupportView::Unsupported {
                reason: "whiteouts stay overlay policy; storage holds no whiteout state"@,
            },
        }
    } else {
        CapabilityRowView {
            operation: "AtomicSwap"@,
            syscalls: seq![
                "exchangedata"@,
                "renameat2 with RENAME_EXCHANGE"@,
                "renamex_np, renameatx_np"@,
            ],
            support: SupportView::Unsupported {
                reason:
                    "no qualified atomic data exchange exists in NFSv4.0; several renames are not a substitute"@,
            },
        }
    }
}

/// The notes on what has no surface, in order.
pub open spec fn surface_note(index: int) -> SurfaceNoteView {
    if index == 0 {
        SurfaceNoteView {
            syscalls: seq!["kqueue, kevent with EVFILT_VNODE"@, "FSEvents"@],
            support: SupportView::Unsupported {
                reason:
                    "remote file-change notification is out of scope by the syscall matrix's notifications decision: NFS reads yield no complete change-event stream, and no local mirror is manufactured"@,
            },
        }
    } else if index == 1 {
        SurfaceNoteView {
            syscalls: seq!["mmap, munmap, msync (file-backed)"@],
            support: SupportView::Unsupported {
                reason:
                    "file-backed mapping is behind the M2 mmap design gate; syscall interception alone does not observe CPU loads and stores"@,
            },
        }
    } else if index == 2 {
        SurfaceNoteView {
            syscalls: seq!["acl_get_file, acl_set_file and the ACL attribute family"@],
            support: SupportView::Unsupported {
                reason:
                    "no ACL model is qualified; POSIX mode bits are the only permission surface this provider reports"@,
            },
        }
    } else if index == 3 {
        SurfaceNoteView {
            syscalls: seq!["flock"@],
            support: SupportView::Unsupported {
                reason:
                    "the syscall matrix holds flock at the M2 locking gate; a private mutex must never be reported as a cross-client lock"@,
            },
        }
    } else if index == 4 {
        SurfaceNoteView {
            syscalls: seq!["getdirentriesattr"@],
            support: SupportView::Unsupported {
                reason: "legacy bulk directory API; no fabricated records"@,
            },
        }
    } else if index == 5 {
        SurfaceNoteView {
            syscalls: seq!["fclonefileat"@],
            support: SupportView::Unsupported {
                reason: "no reflink or clone guarantee exists on NFSv4.0"@,
            },
        }
    } else {
        SurfaceNoteView {
            syscalls: seq!["fsync, fdatasync"@, "flush receipts"@],
            support: SupportView::Deferred {
                owner: "authority_recovery"@,
                reason:
                    "a durability receipt asserts a persistence boundary this node does not own; WRITE/COMMIT verifier accounting is wired here but the receipt is not"@,
            },
        }
    }
}

/// Every storage operation, with its verdict.
pub fn contract_surface() -> (r: Vec<CapabilityRow>)
    ensures
        r@.len() == 23,
        forall|i: int| 0 <= i < 23 ==> (#[trigger] r@[i])@ == surface_row(i),
        forall|operation: StorageOperationView|
            #![trigger row_index(operation)]
            r@[row_index(operation)].support@ == support_of(operation),
        forall|i: int| 0 <= i < 23 ==> (#[trigger] r@[i]).syscalls@.len() > 0,
{
    let mut r: Vec<CapabilityRow> = Vec::new();
    r.push(
        CapabilityRow {
            operation: "Lookup",
            syscalls: &["open, openat (P->H resolution)", "access, faccessat"],
            support: Support::Supported,
        },
    );
    r.push(
        CapabilityRow {
            operation: "Stat",
            syscalls: &["stat, fstatat, lstat", "fstat", "getattrlist (bounded attribute subset)"],
            support: Support::Supported,
        },
    );
    r.push(
        CapabilityRow {
            operation: "List",
            syscalls: &[
                "opendir, readdir, closedir",
                "getdents64",
                "getdirentries, getdirentries64",
                "getattrlistbulk (bounded attribute subset)",
            ],
            support: Support::Supported,
        },
    );
    r.push(
        CapabilityRow {
            operation: "ReadAt",
            syscalls: &["read", "pread"],
            support: Support::Supported,
        },
    );
    r.push(
        CapabilityRow {
            operation: "WriteAt",
            syscalls: &["write", "pwrite"],
            support: Support::Supported,
        },
    );
    r.push(
        CapabilityRow {
            operation: "Create { kind: File }",
            syscalls: &["open, openat with O_CREAT", "open, openat with O_CREAT|O_EXCL"],
            support: Support::Supported,
        },
    );
    r.push(
        CapabilityRow {
            operation: "Create { kind: Directory }",
            syscalls: &["mkdir, mkdirat"],
            support: Support::Deferred { owner: CONTRACTS_REVISION, reason: NO_WIRE_OPERATION },
        },
    );
    r.push(
        CapabilityRow {
            operation: "Create { kind: LogicalSymlink }",
            syscalls: &["symlink, symlinkat"],
            support: Support::Unsupported { reason: OVERLAY_OWNED },
        },
    );
    r.push(
        CapabilityRow {
            operation: "CreateParents",
            syscalls: &["mkdir, mkdirat (recursive)"],
            support: Support::Deferred { owner: CONTRACTS_REVISION, reason: NO_WIRE_OPERATION },
        },
    );
    r.push(
        CapabilityRow {
            operation: "CopyUp",
            syscalls: &["immutable-base materialisation (no direct syscall)"],
            support: Support::Deferred {
                owner: M1_INTEGRATE,
                reason:
                    "this provider issues no ApprovedBaseObject handle, so a presented one names nothing it can prove",
            },
        },
    );
    r.push(
        CapabilityRow {
            operation: "Unlink",
            syscalls: &["unlink, unlinkat"],
            support: Support::Deferred { owner: CONTRACTS_REVISION, reason: NO_WIRE_OPERATION },
        },
    );
    r.push(
        CapabilityRow {
            operation: "RemoveDirectory",
            syscalls: &["rmdir", "unlinkat with AT_REMOVEDIR"],
            support: Support::Deferred { owner: CONTRACTS_REVISION, reason: NO_WIRE_OPERATION },
        },
    );
    r.push(
        CapabilityRow {
            operation: "Rename",
            syscalls: &["rename, renameat", "renameat2 with flags = 0"],
            support: Support::Deferred { owner: CONTRACTS_REVISION, reason: NO_WIRE_OPERATION },
        },
    );
    r.push(
        CapabilityRow {
            operation: "Link",
            syscalls: &["link, linkat"],
            support: Support::Unsupported {
                reason:
                    "the syscall matrix sets the M2 hard-link capability false; no copy-as-link substitution is offered",
            },
        },
    );
    r.push(
        CapabilityRow {
            operation: "ReadLink",
            syscalls: &["readlink, readlinkat"],
            support: Support::Unsupported { reason: OVERLAY_OWNED },
        },
    );
    r.push(
        CapabilityRow {
            operation: "SetMetadata",
            syscalls: &[
                "chmod, fchmodat",
                "fchmod",
                "chown, fchownat",
                "fchown",
                "utimensat, futimens",
            ],
            support: Support::Deferred { owner: CONTRACTS_REVISION, reason: NO_WIRE_OPERATION },
        },
    );
    r.push(
        CapabilityRow {
            operation: "Truncate",
            syscalls: &["truncate, ftruncate", "open, openat with O_TRUNC"],
            support: Support::Deferred { owner: CONTRACTS_REVISION, reason: NO_WIRE_OPERATION },
        },
    );
    r.push(
        CapabilityRow {
            operation: "GetXattr",
            syscalls: &["getxattr, listxattr"],
            support: Support::Unsupported {
                reason:
                    "the syscall matrix sets the initial xattr capability false; an empty successful list would be a false answer",
            },
        },
    );
    r.push(
        CapabilityRow {
            operation: "SetXattr",
            syscalls: &["setxattr"],
            support: Support::Unsupported {
                reason:
                    "the syscall matrix sets the initial xattr capability false; a discarded write would be a false success",
            },
        },
    );
    r.push(
        CapabilityRow {
            operation: "RemoveXattr",
            syscalls: &["removexattr"],
            support: Support::Unsupported {
                reason: "the syscall matrix sets the initial xattr capability false",
            },
        },
    );
    r.push(
        CapabilityRow {
            operation: "GetWhiteout",
            syscalls: &["overlay whiteout policy (no direct syscall)"],
            support: Support::Unsupported {
                reason: "whiteouts stay overlay policy; storage holds no whiteout state",
            },
        },
    );
    r.push(
        CapabilityRow {
            operation: "SetWhiteout",
            syscalls: &["overlay whiteout policy (no direct syscall)"],
            support: Support::Unsupported {
                reason: "whiteouts stay overlay policy; storage holds no whiteout state",
            },
        },
    );
    r.push(
        CapabilityRow {
            operation: "AtomicSwap",
            syscalls: &[
                "exchangedata",
                "renameat2 with RENAME_EXCHANGE",
                "renamex_np, renameatx_np",
            ],
            support: Support::Unsupported {
                reason:
                    "no qualified atomic data exchange exists in NFSv4.0; several renames are not a substitute",
            },
        },
    );
    proof {
        assert(r@[0]@.syscalls =~= surface_row(0).syscalls);
        assert(r@[1]@.syscalls =~= surface_row(1).syscalls);
        assert(r@[2]@.syscalls =~= surface_row(2).syscalls);
        assert(r@[3]@.syscalls =~= surface_row(3).syscalls);
        assert(r@[4]@.syscalls =~= surface_row(4).syscalls);
        assert(r@[5]@.syscalls =~= surface_row(5).syscalls);
        assert(r@[6]@.syscalls =~= surface_row(6).syscalls);
        assert(r@[7]@.syscalls =~= surface_row(7).syscalls);
        assert(r@[8]@.syscalls =~= surface_row(8).syscalls);
        assert(r@[9]@.syscalls =~= surface_row(9).syscalls);
        assert(r@[10]@.syscalls =~= surface_row(10).syscalls);
        assert(r@[11]@.syscalls =~= surface_row(11).syscalls);
        assert(r@[12]@.syscalls =~= surface_row(12).syscalls);
        assert(r@[13]@.syscalls =~= surface_row(13).syscalls);
        assert(r@[14]@.syscalls =~= surface_row(14).syscalls);
        assert(r@[15]@.syscalls =~= surface_row(15).syscalls);
        assert(r@[16]@.syscalls =~= surface_row(16).syscalls);
        assert(r@[17]@.syscalls =~= surface_row(17).syscalls);
        assert(r@[18]@.syscalls =~= surface_row(18).syscalls);
        assert(r@[19]@.syscalls =~= surface_row(19).syscalls);
        assert(r@[20]@.syscalls =~= surface_row(20).syscalls);
        assert(r@[21]@.syscalls =~= surface_row(21).syscalls);
        assert(r@[22]@.syscalls =~= surface_row(22).syscalls);
    }
    r
}

/// System calls with no representation on the storage contract at all.
pub fn out_of_surface() -> (r: Vec<SurfaceNote>)
    ensures
        r@.len() == 7,
        forall|i: int| 0 <= i < 7 ==> (#[trigger] r@[i])@ == surface_note(i),
        forall|i: int|
            0 <= i < 7 ==> (#[trigger] r@[i]).syscalls@.len() > 0 && !(r@[i].support@ is Supported),
{
    let mut r: Vec<SurfaceNote> = Vec::new();
    r.push(
        SurfaceNote {
            syscalls: &["kqueue, kevent with EVFILT_VNODE", "FSEvents"],
            support: Support::Unsupported {
                reason:
                    "remote file-change notification is out of scope by the syscall matrix's notifications decision: NFS reads yield no complete change-event stream, and no local mirror is manufactured",
            },
        },
    );
    r.push(
        SurfaceNote {
            syscalls: &["mmap, munmap, msync (file-backed)"],
            support: Support::Unsupported {
                reason:
                    "file-backed mapping is behind the M2 mmap design gate; syscall interception alone does not observe CPU loads and stores",
            },
        },
    );
    r.push(
        SurfaceNote {
            syscalls: &["acl_get_file, acl_set_file and the ACL attribute family"],
            support: Support::Unsupported {
                reason:
                    "no ACL model is qualified; POSIX mode bits are the only permission surface this provider reports",
            },
        },
    );
    r.push(
        SurfaceNote {
            syscalls: &["flock"],
            support: Support::Unsupported {
                reason:
                    "the syscall matrix holds flock at the M2 locking gate; a private mutex must never be reported as a cross-client lock",
            },
        },
    );
    r.push(
        SurfaceNote {
            syscalls: &["getdirentriesattr"],
            support: Support::Unsupported {
                reason: "legacy bulk directory API; no fabricated records",
            },
        },
    );
    r.push(
        SurfaceNote {
            syscalls: &["fclonefileat"],
            support: Support::Unsupported {
                reason: "no reflink or clone guarantee exists on NFSv4.0",
            },
        },
    );
    r.push(
        SurfaceNote {
            syscalls: &["fsync, fdatasync", "flush receipts"],
            support: Support::Deferred {
                owner: "authority_recovery",
                reason:
                    "a durability receipt asserts a persistence boundary this node does not own; WRITE/COMMIT verifier accounting is wired here but the receipt is not",
            },
        },
    );
    proof {
        assert(r@[0]@.syscalls =~= surface_note(0).syscalls);
        assert(r@[1]@.syscalls =~= surface_note(1).syscalls);
        assert(r@[2]@.syscalls =~= surface_note(2).syscalls);
        assert(r@[3]@.syscalls =~= surface_note(3).syscalls);
        assert(r@[4]@.syscalls =~= surface_note(4).syscalls);
        assert(r@[5]@.syscalls =~= surface_note(5).syscalls);
        assert(r@[6]@.syscalls =~= surface_note(6).syscalls);
    }
    r
}

/// The row of the capability matrix that answers for an operation.
pub open spec fn row_index(operation: StorageOperationView) -> int {
    match operation {
        StorageOperationView::Lookup { .. } => 0,
        StorageOperationView::Stat { .. } => 1,
        StorageOperationView::List { .. } => 2,
        StorageOperationView::ReadAt { .. } => 3,
        StorageOperationView::WriteAt { .. } => 4,
        StorageOperationView::Create { options, .. } => match options.kind {
            CreateKindView::File => 5,
            CreateKindView::Directory => 6,
            CreateKindView::LogicalSymlink { .. } => 7,
        },
        StorageOperationView::CreateParents { .. } => 8,
        StorageOperationView::CopyUp { .. } => 9,
        StorageOperationView::Unlink { .. } => 10,
        StorageOperationView::RemoveDirectory { .. } => 11,
        StorageOperationView::Rename { .. } => 12,
        StorageOperationView::Link { .. } => 13,
        StorageOperationView::ReadLink { .. } => 14,
        StorageOperationView::SetMetadata { .. } => 15,
        StorageOperationView::Truncate { .. } => 16,
        StorageOperationView::GetXattr { .. } => 17,
        StorageOperationView::SetXattr { .. } => 18,
        StorageOperationView::RemoveXattr { .. } => 19,
        StorageOperationView::GetWhiteout { .. } => 20,
        StorageOperationView::SetWhiteout { .. } => 21,
        StorageOperationView::AtomicSwap { .. } => 22,
    }
}

/// The verdict for an operation.
pub open spec fn support_of(operation: StorageOperationView) -> SupportView {
    match operation {
        StorageOperationView::Lookup { .. } => SupportView::Supported,
        StorageOperationView::Stat { .. } => SupportView::Supported,
        StorageOperationView::List { .. } => SupportView::Supported,
        StorageOperationView::ReadAt { .. } => SupportView::Supported,
        StorageOperationView::WriteAt { .. } => SupportView::Supported,
        StorageOperationView::Create { options, .. } => match options.kind {
            CreateKindView::File => SupportView::Supported,
            CreateKindView::Directory => SupportView::Deferred {
                owner: CONTRACTS_REVISION@,
                reason: NO_WIRE_OPERATION@,
            },
            CreateKindView::LogicalSymlink { .. } => SupportView::Unsupported {
                reason: OVERLAY_OWNED@,
            },
        },
        StorageOperationView::CreateParents { .. } => SupportView::Deferred {
            owner: CONTRACTS_REVISION@,
            reason: NO_WIRE_OPERATION@,
        },
        StorageOperationView::CopyUp { .. } => SupportView::Deferred { owner: M1_INTEGRATE@, reason: "this provider issues no ApprovedBaseObject handle, so a presented one names nothing it can prove"@ },
        StorageOperationView::Unlink { .. } => SupportView::Deferred {
            owner: CONTRACTS_REVISION@,
            reason: NO_WIRE_OPERATION@,
        },
        StorageOperationView::RemoveDirectory { .. } => SupportView::Deferred {
            owner: CONTRACTS_REVISION@,
            reason: NO_WIRE_OPERATION@,
        },
        StorageOperationView::Rename { .. } => SupportView::Deferred {
            owner: CONTRACTS_REVISION@,
            reason: NO_WIRE_OPERATION@,
        },
        StorageOperationView::Link { .. } => SupportView::Unsupported { reason: "the syscall matrix sets the M2 hard-link capability false; no copy-as-link substitution is offered"@ },
        StorageOperationView::ReadLink { .. } => SupportView::Unsupported {
            reason: OVERLAY_OWNED@,
        },
        StorageOperationView::SetMetadata { .. } => SupportView::Deferred {
            owner: CONTRACTS_REVISION@,
            reason: NO_WIRE_OPERATION@,
        },
        StorageOperationView::Truncate { .. } => SupportView::Deferred {
            owner: CONTRACTS_REVISION@,
            reason: NO_WIRE_OPERATION@,
        },
        StorageOperationView::GetXattr { .. } => SupportView::Unsupported { reason: "the syscall matrix sets the initial xattr capability false; an empty successful list would be a false answer"@ },
        StorageOperationView::SetXattr { .. } => SupportView::Unsupported { reason: "the syscall matrix sets the initial xattr capability false; a discarded write would be a false success"@ },
        StorageOperationView::RemoveXattr { .. } => SupportView::Unsupported { reason: "the syscall matrix sets the initial xattr capability false"@ },
        StorageOperationView::GetWhiteout { .. } => SupportView::Unsupported { reason: "whiteouts stay overlay policy; storage holds no whiteout state"@ },
        StorageOperationView::SetWhiteout { .. } => SupportView::Unsupported { reason: "whiteouts stay overlay policy; storage holds no whiteout state"@ },
        StorageOperationView::AtomicSwap { .. } => SupportView::Unsupported { reason: "no qualified atomic data exchange exists in NFSv4.0; several renames are not a substitute"@ },
    }
}

/// The published name of an operation.
pub open spec fn name_of(operation: StorageOperationView) -> Seq<char> {
    match operation {
        StorageOperationView::Lookup { .. } => "execute.lookup"@,
        StorageOperationView::Stat { .. } => "execute.stat"@,
        StorageOperationView::List { .. } => "execute.list"@,
        StorageOperationView::ReadAt { .. } => "execute.read_at"@,
        StorageOperationView::WriteAt { .. } => "execute.write_at"@,
        StorageOperationView::Create { .. } => "execute.create"@,
        StorageOperationView::CreateParents { .. } => "execute.create_parents"@,
        StorageOperationView::CopyUp { .. } => "execute.copy_up"@,
        StorageOperationView::Unlink { .. } => "execute.unlink"@,
        StorageOperationView::RemoveDirectory { .. } => "execute.remove_directory"@,
        StorageOperationView::Rename { .. } => "execute.rename"@,
        StorageOperationView::Link { .. } => "execute.link"@,
        StorageOperationView::ReadLink { .. } => "execute.read_link"@,
        StorageOperationView::SetMetadata { .. } => "execute.set_metadata"@,
        StorageOperationView::Truncate { .. } => "execute.truncate"@,
        StorageOperationView::GetXattr { .. } => "execute.get_xattr"@,
        StorageOperationView::SetXattr { .. } => "execute.set_xattr"@,
        StorageOperationView::RemoveXattr { .. } => "execute.remove_xattr"@,
        StorageOperationView::GetWhiteout { .. } => "execute.get_whiteout"@,
        StorageOperationView::SetWhiteout { .. } => "execute.set_whiteout"@,
        StorageOperationView::AtomicSwap { .. } => "execute.atomic_swap"@,
    }
}

/// The verdict for one storage operation, read from the capability matrix.
pub fn storage_support(operation: &StorageOperation) -> (r: Support)
    ensures
        r@ == support_of(operation@),
{
    let index: usize = match operation {
        StorageOperation::Lookup { .. } => 0,
        StorageOperation::Stat { .. } => 1,
        StorageOperation::List { .. } => 2,
        StorageOperation::ReadAt { .. } => 3,
        StorageOperation::WriteAt { .. } => 4,
        StorageOperation::Create { options, .. } => match &options.kind {
            CreateKind::File => 5,
            CreateKind::Directory => 6,
            CreateKind::LogicalSymlink { .. } => 7,
        },
        StorageOperation::CreateParents { .. } => 8,
        StorageOperation::CopyUp { .. } => 9,
        StorageOperation::Unlink { .. } => 10,
        StorageOperation::RemoveDirectory { .. } => 11,
        StorageOperation::Rename { .. } => 12,
        StorageOperation::Link { .. } => 13,
        StorageOperation::ReadLink { .. } => 14,
        StorageOperation::SetMetadata { .. } => 15,
        StorageOperation::Truncate { .. } => 16,
        StorageOperation::GetXattr { .. } => 17,
        StorageOperation::SetXattr { .. } => 18,
        StorageOperation::RemoveXattr { .. } => 19,
        StorageOperation::GetWhiteout { .. } => 20,
        StorageOperation::SetWhiteout { .. } => 21,
        StorageOperation::AtomicSwap { .. } => 22,
    };
    proof {
        assert(index as int == row_index(operation@));
    }
    contract_surface()[index].support
}

/// The published name of one storage operation, for diagnostics.
pub fn operation_name(operation: &StorageOperation) -> (r: &'static str)
    ensures
        r@ == name_of(operation@),
{
    match operation {
        StorageOperation::Lookup { .. } => "execute.lookup",
        StorageOperation::Stat { .. } => "execute.stat",
        StorageOperation::List { .. } => "execute.list",
        StorageOperation::ReadAt { .. } => "execute.read_at",
        StorageOperation::WriteAt { .. } => "execute.write_at",
        StorageOperation::Create { .. } => "execute.create",
        StorageOperation::CreateParents { .. } => "execute.create_parents",
        StorageOperation::CopyUp { .. } => "execute.copy_up",
        StorageOperation::Unlink { .. } => "execute.unlink",
        StorageOperation::RemoveDirectory { .. } => "execute.remove_directory",
        StorageOperation::Rename { .. } => "execute.rename",
        StorageOperation::Link { .. } => "execute.link",
        StorageOperation::ReadLink { .. } => "execute.read_link",
        StorageOperation::SetMetadata { .. } => "execute.set_metadata",
        StorageOperation::Truncate { .. } => "execute.truncate",
        StorageOperation::GetXattr { .. } => "execute.get_xattr",
        StorageOperation::SetXattr { .. } => "execute.set_xattr",
        StorageOperation::RemoveXattr { .. } => "execute.remove_xattr",
        StorageOperation::GetWhiteout { .. } => "execute.get_whiteout",
        StorageOperation::SetWhiteout { .. } => "execute.set_whiteout",
        StorageOperation::AtomicSwap { .. } => "execute.atomic_swap",
    }
}

/// Every verdict but [`Support::Supported`] refuses with the kind it promises.
pub proof fn a_refusal_carries_its_kind(support: SupportView, operation: Seq<char>)
    ensures
        refusal_kind(support) matches Some(kind) ==> refusal(support, operation).kind == kind,
        refusal_kind(support) is None ==> refusal(support, operation).kind
            == ErrorKind::ProtocolMismatch,
{
}

} // verus!
