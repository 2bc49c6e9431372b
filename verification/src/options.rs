//! The arguments of a scan.

use vstd::prelude::*;
use polars_io::cloud::CloudOptions;
use polars_io::RowIndex;

verus! {

/// The name and first value of a synthetic row-number column. The library
/// carries it from the scan arguments to the scan node and never looks inside.
#[verifier::external_type_specification]
#[verifier::external_body]
pub struct ExRowIndex(polars_io::RowIndex);

/// Options for hive partitioning.
#[derive(Clone, Copy, Debug, PartialEq, Eq, Hash)]
pub struct HiveOptions {
    /// `None` leaves the decision to the scan: hive partitioning is then
    /// enabled for a scan of a single directory and disabled otherwise.
    /// `Some` is the caller's decision and is never overridden.
    pub enabled: Option<bool>,
    /// The index, among the components of each resolved path, of the first
    /// partition directory. Filled in by the scan; a value given by the
    /// caller is ignored.
    pub hive_start_idx: Option<usize>,
}

impl HiveOptions {
    /// The options of a finished scan are decided, and carry a start index
    /// exactly when partitioning is enabled.
    pub open spec fn is_resolved(self) -> bool {
        match self.enabled {
            Some(enabled) => self.hive_start_idx.is_some() == enabled,
            None => false,
        }
    }
}

impl Default for HiveOptions {
    fn default() -> (r: Self)
        ensures
            r == (HiveOptions { enabled: None, hive_start_idx: None }),
    {
        HiveOptions { enabled: None, hive_start_idx: None }
    }
}

/// Options specific to the IPC format.
#[derive(Clone, Copy, Debug, PartialEq, Eq, Hash)]
pub struct IpcScanOptions {
    /// Map the file into memory instead of copying it.
    pub memory_map: bool,
}

/// Everything a caller can tune about an IPC scan.
#[derive(Clone, Debug, PartialEq, Eq)]
pub struct ScanArgsIpc {
    /// Read at most this many rows; `None` reads all.
    pub n_rows: Option<usize>,
    /// Let identical scans in one query plan share a single read.
    pub cache: bool,
    /// Coalesce the chunks of each column after reading.
    pub rechunk: bool,
    /// Add a row-number column.
    pub row_index: Option<RowIndex>,
    /// Map the file into memory instead of copying it.
    pub memory_map: bool,
    /// Options for paths on a remote object store.
    pub cloud_options: Option<CloudOptions>,
    /// Hive partitioning.
    pub hive_options: HiveOptions,
}

impl ScanArgsIpc {
    /// The arguments of a scan that sets nothing: all rows, cached, not
    /// rechunked, no row index, memory-mapped, no cloud options, hive
    /// partitioning left to the scan.
    pub open spec fn spec_default() -> ScanArgsIpc {
        ScanArgsIpc {
            n_rows: None,
            cache: true,
            rechunk: false,
            row_index: None,
            memory_map: true,
            cloud_options: None,
            hive_options: HiveOptions { enabled: None, hive_start_idx: None },
        }
    }
}

impl Default for ScanArgsIpc {
    fn default() -> (r: Self)
        ensures
            r == ScanArgsIpc::spec_default(),
    {
        ScanArgsIpc {
            n_rows: None,
            cache: true,
            rechunk: false,
            row_index: None,
            memory_map: true,
            cloud_options: None,
            hive_options: HiveOptions::default(),
        }
    }
}

} // verus!
