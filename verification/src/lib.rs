//! Construction of a deferred scan over Arrow IPC files.
//!
//! A scan is described by its input paths and a [`ScanArgsIpc`]. Building it
//! takes two answers from the outside world: the expansion of the input paths
//! into concrete files and, sometimes, whether the input is a directory. The
//! library never touches the file system itself. It says which answer it needs
//! next ([`ScanStep`]) and decides, from the answers, whether hive partitioning
//! applies and where the partition components start.

pub mod cloud;
pub mod components;
pub mod error;
pub mod glob_syntax;
pub mod laws;
pub mod options;
pub mod partitioning;
pub mod paths;
pub mod plan;
pub mod scan;

pub use error::ResolutionError;
pub use options::{HiveOptions, IpcScanOptions, ScanArgsIpc};
pub use plan::{FileScanOptions, LazyFrame, OptState, ScanNode};
pub use scan::{DirectoryProbe, Expansion, LazyIpcReader, ScanStep};
