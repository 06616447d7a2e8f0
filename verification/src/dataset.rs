//! Dataset kinds, the error taxonomy, and the accessor decision logic.
//!
//! The native layer reports a dataset's kind as a numeric code (a one-bit
//! bitmask value, `0` meaning invalid) and its name as an optional string
//! (absent when the native lookup returns nothing).  The functions here turn
//! those raw answers into typed results; an invalid answer is surfaced as a
//! [`ZfsError::MissingData`] error, never silently defaulted.

use vstd::prelude::*;

verus! {

/// The error taxonomy of the traversal core.
#[derive(Clone, Copy, Debug, PartialEq, Eq, Structural)]
pub enum ZfsError {
    /// Session acquisition returned a null/invalid session.
    InitFailure,
    /// A native enumeration call reported a nonzero status.
    EnumerationFailure,
    /// An accessor returned a null/invalid sentinel for a live handle.
    MissingData,
}

/// The kind of one dataset node in the pool hierarchy.
#[derive(Clone, Copy, Debug, PartialEq, Eq, Structural)]
pub enum DatasetType {
    Filesystem,
    Snapshot,
    Volume,
}

/// Native type code for a filesystem dataset.
pub const TYPE_CODE_FILESYSTEM: u64 = 1;
/// Native type code for a snapshot dataset.
pub const TYPE_CODE_SNAPSHOT: u64 = 2;
/// Native type code for a volume dataset.
pub const TYPE_CODE_VOLUME: u64 = 4;

impl DatasetType {
    /// What [`DatasetType::from_code`] returns: the three dataset kinds have
    /// the native bitmask codes 1, 2 and 4; every other code (in particular
    /// the invalid sentinel `0`) carries no dataset kind.
    pub open spec fn spec_from_code(code: u64) -> Result<DatasetType, ZfsError> {
        if code == TYPE_CODE_FILESYSTEM {
            Ok(DatasetType::Filesystem)
        } else if code == TYPE_CODE_SNAPSHOT {
            Ok(DatasetType::Snapshot)
        } else if code == TYPE_CODE_VOLUME {
            Ok(DatasetType::Volume)
        } else {
            Err(ZfsError::MissingData)
        }
    }

    /// Decide a dataset's kind from the code the native type accessor
    /// reported.
    pub fn from_code(code: u64) -> (r: Result<DatasetType, ZfsError>)
        ensures
            r == Self::spec_from_code(code),
    {
        if code == TYPE_CODE_FILESYSTEM {
            Ok(DatasetType::Filesystem)
        } else if code == TYPE_CODE_SNAPSHOT {
            Ok(DatasetType::Snapshot)
        } else if code == TYPE_CODE_VOLUME {
            Ok(DatasetType::Volume)
        } else {
            Err(ZfsError::MissingData)
        }
    }

    /// The native code of this kind.
    pub open spec fn spec_code(self) -> u64 {
        match self {
            DatasetType::Filesystem => TYPE_CODE_FILESYSTEM,
            DatasetType::Snapshot => TYPE_CODE_SNAPSHOT,
            DatasetType::Volume => TYPE_CODE_VOLUME,
        }
    }

    /// The native code of this kind.
    pub fn code(self) -> (c: u64)
        ensures
            c == self.spec_code(),
    {
        match self {
            DatasetType::Filesystem => TYPE_CODE_FILESYSTEM,
            DatasetType::Snapshot => TYPE_CODE_SNAPSHOT,
            DatasetType::Volume => TYPE_CODE_VOLUME,
        }
    }
}

/// Every dataset kind survives the trip through its native code.
pub proof fn lemma_type_code_round_trip(t: DatasetType)
    ensures
        DatasetType::spec_from_code(t.spec_code()) == Ok::<DatasetType, ZfsError>(t),
{
}

/// Decide a dataset's name from what the native name accessor reported:
/// the name itself when one came back, [`ZfsError::MissingData`] when the
/// native layer returned nothing.
pub fn name_from_native(looked_up: Option<String>) -> (r: Result<String, ZfsError>)
    ensures
        (looked_up matches Some(n) ==> r == Ok::<String, ZfsError>(n)),
        looked_up is None ==> r == Err::<String, ZfsError>(ZfsError::MissingData),
{
    match looked_up {
        Some(n) => Ok(n),
        None => Err(ZfsError::MissingData),
    }
}

} // verus!
