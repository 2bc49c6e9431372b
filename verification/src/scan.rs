//! Building the scan, one answer at a time.
//!
//! A scan starts from a [`LazyIpcReader`]. [`LazyIpcReader::finish`] asks for
//! the expansion of the input paths; [`LazyIpcReader::expanded`] takes the
//! answer and either finishes the scan or asks whether the input is a
//! directory; [`DirectoryProbe::checked`] takes that answer and finishes. The
//! caller does the work between the steps.

use vstd::prelude::*;
use polars_io::cloud::CloudOptions;
use polars_io::RowIndex;
use crate::error::ResolutionError;
use crate::options::{IpcScanOptions, ScanArgsIpc};
use crate::partitioning::{
    directory_decides, needs_directory_check, resolve_hive_options, resolved_hive_options,
};
use crate::paths::texts;
use crate::plan::{FileScanOptions, LazyFrame, LazyFrameView, OptState, ScanNode, ScanNodeView};

verus! {

/// What the expansion of the input paths found.
#[derive(Clone, Debug, PartialEq, Eq)]
pub struct Expansion {
    /// The concrete files, in order and without repetition.
    pub paths: Vec<String>,
    /// The index of the first partition component, where the expansion
    /// looked for partition directories and found it.
    pub hive_start_idx: Option<usize>,
}

/// An [`Expansion`] with its paths as text.
pub struct ExpansionView {
    pub paths: Seq<Seq<char>>,
    pub hive_start_idx: Option<usize>,
}

impl View for Expansion {
    type V = ExpansionView;

    open spec fn view(&self) -> ExpansionView {
        ExpansionView { paths: texts(self.paths@), hive_start_idx: self.hive_start_idx }
    }
}

/// The scan that `args` describe over `inputs`, once the inputs have
/// expanded to `expansion` and `directory` says whether the single input is a
/// directory.
///
/// The node reads the expanded paths with the caller's options; only the
/// hive options are decided here. The handle allows file caching.
pub open spec fn resolved_scan(
    args: ScanArgsIpc,
    inputs: Seq<Seq<char>>,
    expansion: ExpansionView,
    directory: bool,
) -> LazyFrameView {
    LazyFrameView {
        logical_plan: ScanNodeView {
            paths: expansion.paths,
            options: IpcScanOptions { memory_map: args.memory_map },
            file_options: FileScanOptions {
                n_rows: args.n_rows,
                cache: args.cache,
                row_index: args.row_index,
                rechunk: args.rechunk,
                hive_options: resolved_hive_options(
                    args.hive_options.enabled,
                    inputs,
                    expansion.paths,
                    expansion.hive_start_idx,
                    directory,
                ),
            },
            cloud_options: args.cloud_options,
        },
        opt_state: OptState { file_caching: true },
    }
}

/// A scan in the making: its arguments and its input paths.
#[derive(Clone, Debug, PartialEq, Eq)]
pub struct LazyIpcReader {
    /// The arguments of the scan.
    pub args: ScanArgsIpc,
    /// The input paths: files, directories or glob patterns.
    pub paths: Vec<String>,
}

/// A scan that waits to learn whether its single input is a directory.
#[derive(Debug, PartialEq, Eq)]
pub struct DirectoryProbe {
    reader: LazyIpcReader,
    expansion: Expansion,
}

/// What a scan needs next.
#[derive(Debug, PartialEq, Eq)]
pub enum ScanStep {
    /// Expand the reader's paths, then call [`LazyIpcReader::expanded`].
    Expand(LazyIpcReader),
    /// Find out whether the probe's path is a directory, then call
    /// [`DirectoryProbe::checked`].
    CheckDirectory(DirectoryProbe),
    /// The scan is built, or has failed.
    Done(Result<LazyFrame, ResolutionError>),
}

impl LazyIpcReader {
    /// The input paths as text.
    pub open spec fn inputs(&self) -> Seq<Seq<char>> {
        texts(self.paths@)
    }

    /// A reader with the given arguments and no path yet.
    pub fn new(args: ScanArgsIpc) -> (r: Self)
        ensures
            r.args == args,
            r.paths@.len() == 0,
    {
        LazyIpcReader { args, paths: Vec::new() }
    }

    /// Starts the scan. A reader without paths fails at once; any other asks
    /// for the expansion of its paths.
    pub fn finish(self) -> (step: ScanStep)
        ensures
            self.paths@.len() == 0 ==> step == ScanStep::Done(Err(ResolutionError::NoPaths)),
            self.paths@.len() > 0 ==> step == ScanStep::Expand(self),
    {
        if self.paths.len() == 0 {
            ScanStep::Done(Err(ResolutionError::NoPaths))
        } else {
            ScanStep::Expand(self)
        }
    }

    /// Whether the expansion should look for partition directories: only
    /// where the caller asked for hive partitioning.
    pub fn discover_partitions(&self) -> (r: bool)
        ensures
            r == (self.args.hive_options.enabled == Some(true)),
    {
        match self.args.hive_options.enabled {
            Some(enabled) => enabled,
            None => false,
        }
    }

    /// Takes the outcome of the expansion.
    ///
    /// A failure is handed on unchanged. After a success the scan is built,
    /// unless hive partitioning hangs on whether the input is a directory:
    /// then the next step asks for that.
    pub fn expanded(self, outcome: Result<Expansion, ResolutionError>) -> (step: ScanStep)
        ensures
            self.paths@.len() == 0 ==> step == ScanStep::Done(Err(ResolutionError::NoPaths)),
            self.paths@.len() > 0 ==> match outcome {
                Err(e) => step == ScanStep::Done(Err(e)),
                Ok(found) => if directory_decides(
                    self.args.hive_options.enabled,
                    self.inputs(),
                    found@.paths,
                ) {
                    &&& step matches ScanStep::CheckDirectory(probe)
                    &&& probe.reader() == self
                    &&& probe.expansion() == found
                } else {
                    &&& step matches ScanStep::Done(Ok(lf))
                    &&& lf@ == resolved_scan(self.args, self.inputs(), found@, false)
                },
            },
    {
        if self.paths.len() == 0 {
            return ScanStep::Done(Err(ResolutionError::NoPaths));
        }
        match outcome {
            Err(e) => ScanStep::Done(Err(e)),
            Ok(found) => {
                if needs_directory_check(self.args.hive_options.enabled, &self.paths, &found.paths) {
                    assert(self.inputs().len() == self.paths@.len());
                    ScanStep::CheckDirectory(DirectoryProbe { reader: self, expansion: found })
                } else {
                    ScanStep::Done(Ok(self.resolve(found, false)))
                }
            },
        }
    }

    /// Builds the scan from the expansion and the answer to whether the
    /// single input is a directory.
    fn resolve(self, expansion: Expansion, is_directory: bool) -> (lf: LazyFrame)
        ensures
            lf@ == resolved_scan(self.args, self.inputs(), expansion@, is_directory),
    {
        let hive_options = resolve_hive_options(
            self.args.hive_options.enabled,
            &self.paths,
            &expansion.paths,
            expansion.hive_start_idx,
            is_directory,
        );
        let args = self.args;
        let options = IpcScanOptions { memory_map: args.memory_map };
        let plan = ScanNode::scan_ipc(
            expansion.paths,
            options,
            args.n_rows,
            args.cache,
            args.row_index,
            args.rechunk,
            args.cloud_options,
            hive_options,
        );
        let mut lf = LazyFrame::from_plan(plan);
        lf.opt_state.file_caching = true;
        lf
    }

    /// The input paths.
    pub fn paths(&self) -> (r: &Vec<String>)
        ensures
            r == self.paths,
    {
        &self.paths
    }

    /// The reader with `paths` in place of its input paths.
    pub fn with_paths(self, paths: Vec<String>) -> (r: Self)
        ensures
            r == (LazyIpcReader { paths, ..self }),
    {
        let mut reader = self;
        reader.paths = paths;
        reader
    }

    /// The reader with `n_rows` as its row limit.
    pub fn with_n_rows(self, n_rows: Option<usize>) -> (r: Self)
        ensures
            r == (LazyIpcReader { args: ScanArgsIpc { n_rows, ..self.args }, ..self }),
    {
        let mut reader = self;
        reader.args.n_rows = n_rows;
        reader
    }

    /// The reader with `row_index` as its row-number column.
    pub fn with_row_index(self, row_index: Option<RowIndex>) -> (r: Self)
        ensures
            r == (LazyIpcReader { args: ScanArgsIpc { row_index, ..self.args }, ..self }),
    {
        let mut reader = self;
        reader.args.row_index = row_index;
        reader
    }

    /// Whether the columns are rechunked after reading.
    pub fn rechunk(&self) -> (r: bool)
        ensures
            r == self.args.rechunk,
    {
        self.args.rechunk
    }

    /// The reader with rechunking switched on or off.
    pub fn with_rechunk(self, toggle: bool) -> (r: Self)
        ensures
            r == (LazyIpcReader { args: ScanArgsIpc { rechunk: toggle, ..self.args }, ..self }),
    {
        let mut reader = self;
        reader.args.rechunk = toggle;
        reader
    }

    /// The row limit.
    pub fn n_rows(&self) -> (r: Option<usize>)
        ensures
            r == self.args.n_rows,
    {
        self.args.n_rows
    }

    /// The row-number column.
    pub fn row_index(&self) -> (r: Option<&RowIndex>)
        ensures
            r == match self.args.row_index {
                Some(row_index) => Some(&row_index),
                None => None,
            },
    {
        self.args.row_index.as_ref()
    }

    /// The options with which remote paths are listed.
    pub fn cloud_options(&self) -> (r: Option<&CloudOptions>)
        ensures
            r == match self.args.cloud_options {
                Some(cloud_options) => Some(&cloud_options),
                None => None,
            },
    {
        self.args.cloud_options.as_ref()
    }
}

impl DirectoryProbe {
    #[verifier::type_invariant]
    spec fn inv(&self) -> bool {
        self.reader.paths@.len() == 1
    }

    /// The reader whose scan waits.
    pub closed spec fn reader(&self) -> LazyIpcReader {
        self.reader
    }

    /// The expansion that the scan was given.
    pub closed spec fn expansion(&self) -> Expansion {
        self.expansion
    }

    /// The path to check: the single input of the scan.
    pub fn path(&self) -> (r: &String)
        ensures
            self.reader().paths@.len() == 1,
            *r == self.reader().paths@[0],
    {
        proof {
            use_type_invariant(self);
        }
        &self.reader.paths[0]
    }

    /// Takes the answer and builds the scan.
    pub fn checked(self, is_directory: bool) -> (lf: LazyFrame)
        ensures
            lf@ == resolved_scan(
                self.reader().args,
                self.reader().inputs(),
                self.expansion()@,
                is_directory,
            ),
    {
        self.reader.resolve(self.expansion, is_directory)
    }
}

impl LazyFrame {
    /// Starts a scan of the IPC file, directory or glob pattern at `path`.
    pub fn scan_ipc(path: &str, args: ScanArgsIpc) -> (step: ScanStep)
        ensures
            step matches ScanStep::Expand(reader) && reader.args == args && reader.inputs()
                == seq![path@],
    {
        let paths: Vec<String> = vec![path.to_owned()];
        assert(texts(paths@) =~= seq![path@]);
        LazyIpcReader::new(args).with_paths(paths).finish()
    }

    /// Starts a scan of the IPC files at `paths`. Without a path the scan
    /// fails at once.
    pub fn scan_ipc_files(paths: Vec<String>, args: ScanArgsIpc) -> (step: ScanStep)
        ensures
            paths@.len() == 0 ==> step == ScanStep::Done(Err(ResolutionError::NoPaths)),
            paths@.len() > 0 ==> step == ScanStep::Expand(LazyIpcReader { args, paths }),
    {
        LazyIpcReader::new(args).with_paths(paths).finish()
    }
}

} // verus!
