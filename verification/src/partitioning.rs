//! Whether a scan is hive partitioned, and where its partition components
//! start.
//!
//! Everything here is a function of the input paths, the resolved paths and
//! one fact about the file system: whether the single input is a directory.

use vstd::prelude::*;
use crate::cloud::{has_cloud_scheme, is_cloud_url};
use crate::components::{
    agree_to, common_prefix_len, component_views, lemma_common_prefix_len, path_components,
    shared_components, split_components,
};
use crate::glob_syntax::{get_glob_start_idx, has_glob_syntax};
use crate::options::HiveOptions;
use crate::paths::{path_bytes, paths_equal, same_path, texts};

verus! {

/// The decision taken when the caller left hive partitioning open.
///
/// Partitioning is enabled for a single input without glob syntax that
/// resolved to at least one file, provided that the input is a local
/// directory or that the first resolved path is not the input itself.
pub open spec fn inferred_enabled(
    inputs: Seq<Seq<char>>,
    resolved: Seq<Seq<char>>,
    directory: bool,
) -> bool {
    &&& inputs.len() == 1
    &&& !has_glob_syntax(path_bytes(inputs[0]))
    &&& resolved.len() > 0
    &&& ((!has_cloud_scheme(inputs[0]) && directory) || !same_path(resolved[0], inputs[0]))
}

/// Whether hive partitioning is enabled: the caller's decision where there is
/// one, the inferred one otherwise.
pub open spec fn hive_enabled(
    requested: Option<bool>,
    inputs: Seq<Seq<char>>,
    resolved: Seq<Seq<char>>,
    directory: bool,
) -> bool {
    match requested {
        Some(enabled) => enabled,
        None => inferred_enabled(inputs, resolved, directory),
    }
}

/// Whether the decision hangs on the input being a directory: the caller
/// left it open, and the single, literal, local input resolved to itself.
pub open spec fn directory_decides(
    requested: Option<bool>,
    inputs: Seq<Seq<char>>,
    resolved: Seq<Seq<char>>,
) -> bool {
    &&& requested.is_none()
    &&& inputs.len() == 1
    &&& !has_glob_syntax(path_bytes(inputs[0]))
    &&& resolved.len() > 0
    &&& !has_cloud_scheme(inputs[0])
    &&& same_path(resolved[0], inputs[0])
}

/// `depth`, lowered to the number of leading components that `reference`
/// shares with each of `paths`.
pub open spec fn narrow_depth(reference: Seq<Seq<u8>>, depth: nat, paths: Seq<Seq<char>>) -> nat
    decreases paths.len(),
{
    if paths.len() == 0 {
        depth
    } else {
        let rest = narrow_depth(reference, depth, paths.drop_last());
        let shared = common_prefix_len(reference, path_components(paths.last()));
        if shared < rest {
            shared
        } else {
            rest
        }
    }
}

/// The index of the first partition component: the number of leading
/// components of the first input that every input and every resolved path
/// shares.
pub open spec fn partition_start(inputs: Seq<Seq<char>>, resolved: Seq<Seq<char>>) -> nat {
    if inputs.len() == 0 {
        0
    } else {
        let reference = path_components(inputs[0]);
        narrow_depth(reference, reference.len(), inputs + resolved)
    }
}

/// Whether each of `paths` has at least `k` components and shares its first
/// `k` with `reference`.
pub open spec fn shared_by_all(reference: Seq<Seq<u8>>, paths: Seq<Seq<char>>, k: int) -> bool {
    forall|i: int|
        0 <= i < paths.len() ==> agree_to(reference, path_components(#[trigger] paths[i]), k)
}

/// The options of the finished scan: the decision, and the start index where
/// partitioning is enabled. An index that the expansion computed is kept.
pub open spec fn resolved_hive_options(
    requested: Option<bool>,
    inputs: Seq<Seq<char>>,
    resolved: Seq<Seq<char>>,
    precomputed: Option<usize>,
    directory: bool,
) -> HiveOptions {
    let enabled = hive_enabled(requested, inputs, resolved, directory);
    HiveOptions {
        enabled: Some(enabled),
        hive_start_idx: if enabled {
            match precomputed {
                Some(index) => Some(index),
                None => Some(partition_start(inputs, resolved) as usize),
            }
        } else {
            None
        },
    }
}

/// Narrowing by a list is narrowing by its parts in turn.
pub proof fn lemma_narrow_depth_concat(
    reference: Seq<Seq<u8>>,
    depth: nat,
    a: Seq<Seq<char>>,
    b: Seq<Seq<char>>,
)
    ensures
        narrow_depth(reference, depth, a + b) == narrow_depth(
            reference,
            narrow_depth(reference, depth, a),
            b,
        ),
    decreases b.len(),
{
    if b.len() == 0 {
        assert(a + b =~= a);
    } else {
        assert((a + b).drop_last() =~= a + b.drop_last());
        assert((a + b).last() == b.last());
        lemma_narrow_depth_concat(reference, depth, a, b.drop_last());
    }
}

/// Narrowing `depth` by `paths` gives the greatest depth, no greater than
/// `depth`, to which all of `paths` agree with `reference`.
pub proof fn lemma_narrow_depth(reference: Seq<Seq<u8>>, depth: nat, paths: Seq<Seq<char>>)
    requires
        depth <= reference.len(),
    ensures
        narrow_depth(reference, depth, paths) <= depth,
        shared_by_all(reference, paths, narrow_depth(reference, depth, paths) as int),
        forall|k: int|
            0 <= k <= depth && shared_by_all(reference, paths, k) ==> k <= narrow_depth(
                reference,
                depth,
                paths,
            ),
    decreases paths.len(),
{
    if paths.len() > 0 {
        let init = paths.drop_last();
        let last = path_components(paths.last());
        let lowest = narrow_depth(reference, depth, paths);
        lemma_narrow_depth(reference, depth, init);
        lemma_common_prefix_len(reference, last);
        assert forall|i: int| 0 <= i < paths.len() implies agree_to(
            reference,
            path_components(#[trigger] paths[i]),
            lowest as int,
        ) by {
            if i < init.len() {
                assert(init[i] == paths[i]);
            }
        }
        assert forall|k: int| 0 <= k <= depth && shared_by_all(reference, paths, k) implies k
            <= lowest by {
            assert forall|i: int| 0 <= i < init.len() implies agree_to(
                reference,
                path_components(#[trigger] init[i]),
                k,
            ) by {
                assert(init[i] == paths[i]);
            }
            assert(shared_by_all(reference, init, k));
            assert(paths[paths.len() - 1] == paths.last());
            assert(agree_to(reference, last, k));
        }
    }
}

/// The start index is the greatest depth to which every input and every
/// resolved path agrees with the first input.
pub proof fn lemma_partition_start(inputs: Seq<Seq<char>>, resolved: Seq<Seq<char>>)
    requires
        inputs.len() > 0,
    ensures
        partition_start(inputs, resolved) <= path_components(inputs[0]).len(),
        shared_by_all(
            path_components(inputs[0]),
            inputs + resolved,
            partition_start(inputs, resolved) as int,
        ),
        forall|k: int|
            shared_by_all(path_components(inputs[0]), inputs + resolved, k) ==> k
                <= partition_start(inputs, resolved),
{
    let reference = path_components(inputs[0]);
    lemma_narrow_depth(reference, reference.len(), inputs + resolved);
    assert forall|k: int| shared_by_all(reference, inputs + resolved, k) implies k
        <= partition_start(inputs, resolved) by {
        assert(agree_to(reference, path_components((inputs + resolved)[0]), k));
    }
}

/// Lowers `depth` to the number of leading components that `reference`
/// shares with each of `paths`.
fn narrow(reference: &Vec<Vec<u8>>, depth: usize, paths: &Vec<String>) -> (r: usize)
    ensures
        r == narrow_depth(component_views(reference@), depth as nat, texts(paths@)),
{
    let mut lowest: usize = depth;
    let mut i: usize = 0;
    assert(texts(paths@).take(0) =~= Seq::<Seq<char>>::empty());
    while i < paths.len()
        invariant
            i <= paths.len(),
            lowest == narrow_depth(
                component_views(reference@),
                depth as nat,
                texts(paths@).take(i as int),
            ),
        decreases paths.len() - i,
    {
        let parts = split_components(paths[i].as_str().as_bytes());
        let shared = shared_components(reference, &parts);
        proof {
            let next = texts(paths@).take(i + 1);
            assert(next.drop_last() =~= texts(paths@).take(i as int));
            assert(next.last() == paths@[i as int]@);
        }
        if shared < lowest {
            lowest = shared;
        }
        i += 1;
    }
    assert(texts(paths@).take(i as int) =~= texts(paths@));
    lowest
}

/// The index of the first partition component of a scan of `inputs` that
/// resolved to `resolved`.
pub fn partition_start_index(inputs: &Vec<String>, resolved: &Vec<String>) -> (k: usize)
    ensures
        k == partition_start(texts(inputs@), texts(resolved@)),
{
    if inputs.len() == 0 {
        return 0;
    }
    let reference = split_components(inputs[0].as_str().as_bytes());
    let among_inputs = narrow(&reference, reference.len(), inputs);
    let k = narrow(&reference, among_inputs, resolved);
    proof {
        lemma_narrow_depth_concat(
            component_views(reference@),
            reference@.len() as nat,
            texts(inputs@),
            texts(resolved@),
        );
    }
    k
}

/// What the decision on hive partitioning reads of a scan.
#[derive(Clone, Copy, Debug, PartialEq, Eq)]
pub struct ScanShape {
    /// The number of input paths.
    pub n_inputs: usize,
    /// The single input holds a glob metacharacter.
    pub has_glob: bool,
    /// The expansion found at least one file.
    pub resolved_any: bool,
    /// The single input is a cloud URL.
    pub remote: bool,
    /// The first resolved path is not the single input.
    pub first_differs: bool,
}

impl ScanShape {
    /// The shape describes a scan of `inputs` that resolved to `resolved`.
    /// The three facts about the single input are false where there is no
    /// single input, and so is the fact about the first resolved path where
    /// nothing was resolved.
    pub open spec fn describes(self, inputs: Seq<Seq<char>>, resolved: Seq<Seq<char>>) -> bool {
        let single = inputs.len() == 1;
        &&& self.n_inputs == inputs.len()
        &&& self.resolved_any == (resolved.len() > 0)
        &&& self.has_glob == (single && has_glob_syntax(path_bytes(inputs[0])))
        &&& self.remote == (single && has_cloud_scheme(inputs[0]))
        &&& self.first_differs == (single && resolved.len() > 0 && !same_path(
            resolved[0],
            inputs[0],
        ))
    }

    /// The decision taken when the caller left hive partitioning open.
    pub open spec fn spec_infer_enabled(self, directory: bool) -> bool {
        &&& self.n_inputs == 1
        &&& !self.has_glob
        &&& self.resolved_any
        &&& ((!self.remote && directory) || self.first_differs)
    }

    /// Whether the inferred decision hangs on the input being a directory.
    pub open spec fn spec_directory_decides(self) -> bool {
        &&& self.n_inputs == 1
        &&& !self.has_glob
        &&& self.resolved_any
        &&& !self.remote
        &&& !self.first_differs
    }

    /// Looks at a scan of `inputs` that resolved to `resolved`.
    pub fn of(inputs: &Vec<String>, resolved: &Vec<String>) -> (shape: ScanShape)
        ensures
            shape.describes(texts(inputs@), texts(resolved@)),
    {
        let resolved_any = resolved.len() > 0;
        if inputs.len() != 1 {
            return ScanShape {
                n_inputs: inputs.len(),
                has_glob: false,
                resolved_any,
                remote: false,
                first_differs: false,
            };
        }
        let input = &inputs[0];
        ScanShape {
            n_inputs: 1,
            has_glob: get_glob_start_idx(input.as_str().as_bytes()).is_some(),
            resolved_any,
            remote: is_cloud_url(input),
            first_differs: resolved_any && !paths_equal(&resolved[0], input),
        }
    }

    /// Decides hive partitioning for a scan of this shape whose caller left
    /// the decision open: enabled for a single input without glob syntax
    /// that resolved to at least one file, provided that the input is a
    /// local directory or that the first resolved path is not the input.
    pub fn infer_enabled(&self, directory: bool) -> (r: bool)
        ensures
            r == self.spec_infer_enabled(directory),
    {
        self.n_inputs == 1 && !self.has_glob && self.resolved_any && ((!self.remote && directory)
            || self.first_differs)
    }

    /// Whether [`ScanShape::infer_enabled`] hangs on `directory`: it does
    /// for a single, literal, local input that resolved to itself, and then
    /// the decision is `directory`.
    pub fn directory_decides(&self) -> (r: bool)
        ensures
            r == self.spec_directory_decides(),
            r ==> forall|directory: bool| self.spec_infer_enabled(directory) == directory,
            !r ==> self.spec_infer_enabled(true) == self.spec_infer_enabled(false),
    {
        self.n_inputs == 1 && !self.has_glob && self.resolved_any && !self.remote
            && !self.first_differs
    }
}

/// A shape that describes a scan decides as the scan's paths do.
pub proof fn lemma_shape_decides(
    shape: ScanShape,
    inputs: Seq<Seq<char>>,
    resolved: Seq<Seq<char>>,
    directory: bool,
)
    requires
        shape.describes(inputs, resolved),
    ensures
        shape.spec_infer_enabled(directory) == inferred_enabled(inputs, resolved, directory),
        shape.spec_directory_decides() == directory_decides(None, inputs, resolved),
{
}

/// Whether the decision on hive partitioning hangs on the input being a
/// directory.
pub fn needs_directory_check(
    requested: Option<bool>,
    inputs: &Vec<String>,
    resolved: &Vec<String>,
) -> (r: bool)
    ensures
        r == directory_decides(requested, texts(inputs@), texts(resolved@)),
{
    match requested {
        Some(_) => false,
        None => {
            let shape = ScanShape::of(inputs, resolved);
            proof {
                lemma_shape_decides(shape, texts(inputs@), texts(resolved@), false);
            }
            shape.directory_decides()
        },
    }
}

/// Decides hive partitioning for a scan of `inputs` that resolved to
/// `resolved`: the caller's decision where there is one, the inferred one
/// otherwise. `directory` says whether the single input is a directory; it
/// is read only where [`directory_decides`] holds.
pub fn resolve_hive_enabled(
    requested: Option<bool>,
    inputs: &Vec<String>,
    resolved: &Vec<String>,
    directory: bool,
) -> (r: bool)
    ensures
        r == hive_enabled(requested, texts(inputs@), texts(resolved@), directory),
{
    match requested {
        Some(enabled) => enabled,
        None => {
            let shape = ScanShape::of(inputs, resolved);
            proof {
                lemma_shape_decides(shape, texts(inputs@), texts(resolved@), directory);
            }
            shape.infer_enabled(directory)
        },
    }
}

/// Settles the hive options of a scan of `inputs` that resolved to
/// `resolved`.
///
/// The decision is that of [`resolve_hive_enabled`]. Where partitioning is
/// enabled, the start index is the one that the expansion computed, or else
/// the depth at which the resolved paths leave the inputs; where it is
/// disabled, there is no start index.
pub fn resolve_hive_options(
    requested: Option<bool>,
    inputs: &Vec<String>,
    resolved: &Vec<String>,
    precomputed: Option<usize>,
    directory: bool,
) -> (options: HiveOptions)
    ensures
        options == resolved_hive_options(
            requested,
            texts(inputs@),
            texts(resolved@),
            precomputed,
            directory,
        ),
        options.is_resolved(),
{
    let enabled = resolve_hive_enabled(requested, inputs, resolved, directory);
    let hive_start_idx = if enabled {
        match precomputed {
            Some(index) => Some(index),
            None => Some(partition_start_index(inputs, resolved)),
        }
    } else {
        None
    };
    HiveOptions { enabled: Some(enabled), hive_start_idx }
}

} // verus!
