//! What holds of every scan, whatever the paths and the file system.
//!
//! The statements speak of [`resolved_scan`], to which the contracts of the
//! scan's steps tie what those steps return.

use vstd::prelude::*;
use crate::cloud::has_cloud_scheme;
use crate::components::{agree_to, path_components};
use crate::glob_syntax::has_glob_syntax;
use crate::options::{HiveOptions, ScanArgsIpc};
use crate::partitioning::{directory_decides, lemma_partition_start, partition_start, shared_by_all};
use crate::paths::path_bytes;
use crate::scan::{resolved_scan, ExpansionView};

verus! {

/// Whether `path` lies inside `directory`: its components are those of the
/// directory followed by at least one more.
pub open spec fn is_inside(path: Seq<char>, directory: Seq<char>) -> bool {
    let outer = path_components(directory);
    let inner = path_components(path);
    outer.len() < inner.len() && agree_to(outer, inner, outer.len() as int)
}

/// A scan of one literal, local directory that holds at least one file is
/// hive partitioned, and its partition components start right below the
/// directory: at the index that equals the number of the directory's own
/// components.
///
/// This is the case in which the caller left the decision open, so that the
/// expansion was not asked for a start index and reported none.
pub proof fn lemma_local_directory_is_partitioned(
    args: ScanArgsIpc,
    input: Seq<char>,
    expansion: ExpansionView,
)
    requires
        args.hive_options.enabled.is_none(),
        !has_glob_syntax(path_bytes(input)),
        !has_cloud_scheme(input),
        expansion.paths.len() > 0,
        forall|i: int|
            0 <= i < expansion.paths.len() ==> is_inside(#[trigger] expansion.paths[i], input),
        expansion.hive_start_idx.is_none(),
        path_components(input).len() <= usize::MAX,
    ensures
        resolved_scan(args, seq![input], expansion, true).hive_options() == (HiveOptions {
            enabled: Some(true),
            hive_start_idx: Some(path_components(input).len() as usize),
        }),
{
    let inputs = seq![input];
    let reference = path_components(input);
    lemma_partition_start(inputs, expansion.paths);
    assert forall|i: int| 0 <= i < (inputs + expansion.paths).len() implies agree_to(
        reference,
        path_components(#[trigger] (inputs + expansion.paths)[i]),
        reference.len() as int,
    ) by {
        if i > 0 {
            assert((inputs + expansion.paths)[i] == expansion.paths[i - 1]);
            assert(is_inside(expansion.paths[i - 1], input));
        }
    }
    assert(shared_by_all(reference, inputs + expansion.paths, reference.len() as int));
    assert(partition_start(inputs, expansion.paths) == reference.len());
}

/// A scan of one literal path that resolved to itself and is no directory,
/// that is of a single file, is not hive partitioned, however deep the file
/// lies.
pub proof fn lemma_literal_file_is_not_partitioned(
    args: ScanArgsIpc,
    input: Seq<char>,
    expansion: ExpansionView,
)
    requires
        args.hive_options.enabled.is_none(),
        !has_glob_syntax(path_bytes(input)),
        expansion.paths == seq![input],
    ensures
        resolved_scan(args, seq![input], expansion, false).hive_options() == (HiveOptions {
            enabled: Some(false),
            hive_start_idx: None,
        }),
{
}

/// A scan of one glob pattern is not hive partitioned, whatever the pattern
/// matched, even a single file.
pub proof fn lemma_glob_is_not_partitioned(
    args: ScanArgsIpc,
    input: Seq<char>,
    expansion: ExpansionView,
    directory: bool,
)
    requires
        args.hive_options.enabled.is_none(),
        has_glob_syntax(path_bytes(input)),
    ensures
        resolved_scan(args, seq![input], expansion, directory).hive_options() == (HiveOptions {
            enabled: Some(false),
            hive_start_idx: None,
        }),
{
}

/// A scan of several inputs is not hive partitioned unless the caller asks
/// for it.
pub proof fn lemma_several_inputs_are_not_partitioned(
    args: ScanArgsIpc,
    inputs: Seq<Seq<char>>,
    expansion: ExpansionView,
    directory: bool,
)
    requires
        args.hive_options.enabled.is_none(),
        inputs.len() != 1,
    ensures
        resolved_scan(args, inputs, expansion, directory).hive_options() == (HiveOptions {
            enabled: Some(false),
            hive_start_idx: None,
        }),
{
}

/// The caller's decision stands: with hive partitioning set, the scan is
/// partitioned exactly as asked, whatever the paths are, and nothing is
/// asked about the file system to decide it.
pub proof fn lemma_explicit_decision_stands(
    args: ScanArgsIpc,
    enabled: bool,
    inputs: Seq<Seq<char>>,
    expansion: ExpansionView,
    directory: bool,
)
    requires
        args.hive_options.enabled == Some(enabled),
    ensures
        resolved_scan(args, inputs, expansion, directory).hive_options().enabled == Some(enabled),
        !directory_decides(args.hive_options.enabled, inputs, expansion.paths),
{
}

/// Where the scan does not ask whether the input is a directory, the answer
/// would not have changed it.
pub proof fn lemma_unasked_answer_is_irrelevant(
    args: ScanArgsIpc,
    inputs: Seq<Seq<char>>,
    expansion: ExpansionView,
    one: bool,
    other: bool,
)
    requires
        !directory_decides(args.hive_options.enabled, inputs, expansion.paths),
    ensures
        resolved_scan(args, inputs, expansion, one) == resolved_scan(
            args,
            inputs,
            expansion,
            other,
        ),
{
}

/// Where the scan asks whether the input is a directory, the answer is the
/// decision.
pub proof fn lemma_asked_answer_decides(
    args: ScanArgsIpc,
    inputs: Seq<Seq<char>>,
    expansion: ExpansionView,
    directory: bool,
)
    requires
        directory_decides(args.hive_options.enabled, inputs, expansion.paths),
    ensures
        resolved_scan(args, inputs, expansion, directory).hive_options().enabled == Some(
            directory,
        ),
{
}

/// A finished scan has decided on hive partitioning, and has a start index
/// exactly when partitioning is enabled.
pub proof fn lemma_start_index_iff_enabled(
    args: ScanArgsIpc,
    inputs: Seq<Seq<char>>,
    expansion: ExpansionView,
    directory: bool,
)
    ensures
        resolved_scan(args, inputs, expansion, directory).hive_options().is_resolved(),
{
}

/// A finished scan reads the expanded paths, in their order, and its handle
/// allows file caching.
pub proof fn lemma_scan_reads_expansion(
    args: ScanArgsIpc,
    inputs: Seq<Seq<char>>,
    expansion: ExpansionView,
    directory: bool,
)
    ensures
        resolved_scan(args, inputs, expansion, directory).logical_plan.paths == expansion.paths,
        resolved_scan(args, inputs, expansion, directory).opt_state.file_caching,
{
}

/// The same scan, run again on an unchanged file system, ends the same way.
/// The resolved paths and the hive options depend on the inputs, the
/// caller's decision on partitioning and the two answers alone: two scans
/// that differ only in other arguments agree on them.
pub proof fn lemma_scan_is_repeatable(
    first: ScanArgsIpc,
    second: ScanArgsIpc,
    inputs: Seq<Seq<char>>,
    expansion: ExpansionView,
    directory: bool,
)
    requires
        first.hive_options.enabled == second.hive_options.enabled,
    ensures
        resolved_scan(first, inputs, expansion, directory).logical_plan.paths == resolved_scan(
            second,
            inputs,
            expansion,
            directory,
        ).logical_plan.paths,
        resolved_scan(first, inputs, expansion, directory).hive_options() == resolved_scan(
            second,
            inputs,
            expansion,
            directory,
        ).hive_options(),
        first == second ==> resolved_scan(first, inputs, expansion, directory) == resolved_scan(
            second,
            inputs,
            expansion,
            directory,
        ),
{
}

} // verus!
