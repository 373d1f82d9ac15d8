//! Names of the run layout on the export.
//!
//! A run this provider creates has to be one the mounted adapter can open, and
//! the other way round, so the names are fixed here.
use vstd::prelude::*;

verus! {

/// Private per-run subdirectory holding provider state.
pub const PRIVATE_DIR: &'static str = ".provider";

/// Directory holding retry records, one file per idempotency key.
pub const RETRIES_DIR: &'static str = "retries";

/// Little-endian `u64` writer epoch, created as zero.
pub const EPOCH_FILE: &'static str = "epoch";

/// Identifies the run: run id, immutable base and format version.
pub const MANIFEST_FILE: &'static str = "manifest";

/// Exclusively created file holding the current writer's marker.
pub const WRITER_LOCK_FILE: &'static str = "writer.lock";

/// Prefix of a retry record file, followed by the hexadecimal idempotency key.
pub const RETRY_KEY_PREFIX: &'static str = "key-";

/// Prefix of an operation-id index file, followed by the hyphenated identifier.
pub const RETRY_OP_PREFIX: &'static str = "op-";

/// Mode applied to every directory the run layout creates.
pub const DIRECTORY_MODE: u32 = 0o700;

} // verus!
