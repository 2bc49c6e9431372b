//! The deferred scan: the node that describes it and the handle that owns
//! the node.

use vstd::prelude::*;
use polars_io::cloud::CloudOptions;
use polars_io::RowIndex;
use crate::options::{HiveOptions, IpcScanOptions};
use crate::paths::texts;

verus! {

/// The options of a scan that do not depend on the file format.
#[derive(Clone, Debug, PartialEq, Eq)]
pub struct FileScanOptions {
    /// Read at most this many rows; `None` reads all.
    pub n_rows: Option<usize>,
    /// Let identical scans in one query plan share a single read.
    pub cache: bool,
    /// Add a row-number column.
    pub row_index: Option<RowIndex>,
    /// Coalesce the chunks of each column after reading.
    pub rechunk: bool,
    /// Hive partitioning, decided.
    pub hive_options: HiveOptions,
}

/// A scan of IPC files that has not run yet.
#[derive(Clone, Debug, PartialEq, Eq)]
pub struct ScanNode {
    /// The files to read, in the order of the expansion.
    pub paths: Vec<String>,
    /// Options of the IPC format.
    pub options: IpcScanOptions,
    /// Options shared by all formats.
    pub file_options: FileScanOptions,
    /// Options for paths on a remote object store.
    pub cloud_options: Option<CloudOptions>,
}

/// A [`ScanNode`] with its paths as text.
pub struct ScanNodeView {
    pub paths: Seq<Seq<char>>,
    pub options: IpcScanOptions,
    pub file_options: FileScanOptions,
    pub cloud_options: Option<CloudOptions>,
}

impl View for ScanNode {
    type V = ScanNodeView;

    open spec fn view(&self) -> ScanNodeView {
        ScanNodeView {
            paths: texts(self.paths@),
            options: self.options,
            file_options: self.file_options,
            cloud_options: self.cloud_options,
        }
    }
}

impl ScanNode {
    /// A scan of `paths` with the given options.
    pub fn scan_ipc(
        paths: Vec<String>,
        options: IpcScanOptions,
        n_rows: Option<usize>,
        cache: bool,
        row_index: Option<RowIndex>,
        rechunk: bool,
        cloud_options: Option<CloudOptions>,
        hive_options: HiveOptions,
    ) -> (node: ScanNode)
        ensures
            node.paths == paths,
            node.options == options,
            node.file_options == (FileScanOptions {
                n_rows,
                cache,
                row_index,
                rechunk,
                hive_options,
            }),
            node.cloud_options == cloud_options,
    {
        ScanNode {
            paths,
            options,
            file_options: FileScanOptions { n_rows, cache, row_index, rechunk, hive_options },
            cloud_options,
        }
    }
}

/// What the optimizer may do with a plan.
#[derive(Clone, Copy, Debug, PartialEq, Eq)]
pub struct OptState {
    /// Scans of the same files with the same options share one file handle.
    pub file_caching: bool,
}

impl Default for OptState {
    fn default() -> (r: Self)
        ensures
            r == (OptState { file_caching: false }),
    {
        OptState { file_caching: false }
    }
}

/// The handle of a deferred query: a plan and the state of its optimizer.
#[derive(Clone, Debug, PartialEq, Eq)]
pub struct LazyFrame {
    /// The plan that runs when the query is collected.
    pub logical_plan: ScanNode,
    /// What the optimizer may do with the plan.
    pub opt_state: OptState,
}

/// A [`LazyFrame`] with the paths of its plan as text.
pub struct LazyFrameView {
    pub logical_plan: ScanNodeView,
    pub opt_state: OptState,
}

impl LazyFrameView {
    /// The hive options of the plan.
    pub open spec fn hive_options(self) -> HiveOptions {
        self.logical_plan.file_options.hive_options
    }
}

impl View for LazyFrame {
    type V = LazyFrameView;

    open spec fn view(&self) -> LazyFrameView {
        LazyFrameView { logical_plan: self.logical_plan@, opt_state: self.opt_state }
    }
}

impl LazyFrame {
    /// The handle of `plan`, with the optimizer in its default state.
    pub fn from_plan(plan: ScanNode) -> (lf: LazyFrame)
        ensures
            lf.logical_plan == plan,
            lf.opt_state == (OptState { file_caching: false }),
    {
        LazyFrame { logical_plan: plan, opt_state: OptState::default() }
    }
}

} // verus!
