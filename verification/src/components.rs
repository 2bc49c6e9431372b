//! The components of a path and the depth to which paths agree.
//!
//! A component is a maximal run of bytes other than `/`. Separators carry no
//! component of their own, so `/data//events/` has the two components `data`
//! and `events`.

use vstd::prelude::*;
use crate::paths::path_bytes;

verus! {

/// The byte `/`, which separates the components of a path.
pub const SEPARATOR: u8 = 0x2f;

/// The components of `s`, in order.
///
/// Defined by the last byte: a separator adds nothing, a byte that follows
/// another component byte extends the last component, and any other byte
/// opens a new one.
pub open spec fn components(s: Seq<u8>) -> Seq<Seq<u8>>
    decreases s.len(),
{
    if s.len() == 0 {
        Seq::empty()
    } else {
        let init = s.drop_last();
        let head = components(init);
        if s.last() == SEPARATOR {
            head
        } else if init.len() > 0 && init.last() != SEPARATOR {
            head.drop_last().push(head.last().push(s.last()))
        } else {
            head.push(seq![s.last()])
        }
    }
}

/// The components of a path given by its text.
pub open spec fn path_components(text: Seq<char>) -> Seq<Seq<u8>> {
    components(path_bytes(text))
}

/// The contents of a vector of components.
pub open spec fn component_views(v: Seq<Vec<u8>>) -> Seq<Seq<u8>> {
    v.map_values(|c: Vec<u8>| c@)
}

/// Whether `a` and `b` both have at least `k` components and the same
/// first `k`.
pub open spec fn agree_to(a: Seq<Seq<u8>>, b: Seq<Seq<u8>>, k: int) -> bool {
    &&& 0 <= k <= a.len()
    &&& k <= b.len()
    &&& forall|i: int| 0 <= i < k ==> a[i] == b[i]
}

/// The number of leading components that `a` and `b` share, counted from
/// position `k` on, given that they share the first `k`.
pub open spec fn common_prefix_from(a: Seq<Seq<u8>>, b: Seq<Seq<u8>>, k: nat) -> nat
    decreases a.len() - k,
{
    if k < a.len() && k < b.len() && a[k as int] == b[k as int] {
        common_prefix_from(a, b, k + 1)
    } else {
        k
    }
}

/// The number of leading components that `a` and `b` share.
pub open spec fn common_prefix_len(a: Seq<Seq<u8>>, b: Seq<Seq<u8>>) -> nat {
    common_prefix_from(a, b, 0)
}

/// Whether `s` is a single component: not empty, and without a separator.
pub open spec fn is_component(s: Seq<u8>) -> bool {
    s.len() > 0 && forall|i: int| 0 <= i < s.len() ==> s[i] != SEPARATOR
}

/// Every component of a path is one: not empty, and without a separator.
pub proof fn lemma_components_are_components(s: Seq<u8>)
    ensures
        forall|i: int| 0 <= i < components(s).len() ==> is_component(#[trigger] components(s)[i]),
        s.len() > 0 && s.last() != SEPARATOR ==> components(s).len() > 0,
    decreases s.len(),
{
    if s.len() > 0 {
        let init = s.drop_last();
        let head = components(init);
        lemma_components_are_components(init);
        assert forall|i: int| 0 <= i < components(s).len() implies is_component(
            #[trigger] components(s)[i],
        ) by {
            if s.last() == SEPARATOR {
            } else if init.len() > 0 && init.last() != SEPARATOR {
                if i == head.len() - 1 {
                    assert(is_component(head[head.len() - 1]));
                } else {
                    assert(components(s)[i] == head[i]);
                }
            } else {
                if i < head.len() {
                    assert(components(s)[i] == head[i]);
                }
            }
        }
    }
}

/// A text without a separator is its own single component.
pub proof fn lemma_components_of_component(s: Seq<u8>)
    requires
        is_component(s),
    ensures
        components(s) == seq![s],
    decreases s.len(),
{
    let init = s.drop_last();
    if init.len() > 0 {
        lemma_components_of_component(init);
        assert(seq![init].drop_last().push(init.push(s.last())) =~= seq![init.push(s.last())]);
        assert(init.push(s.last()) =~= s);
    } else {
        assert(components(init) =~= Seq::<Seq<u8>>::empty());
        assert(seq![s.last()] =~= s);
        assert(Seq::<Seq<u8>>::empty().push(s) =~= seq![s]);
    }
}

/// A separator splits: the components of two texts joined by a separator are
/// those of the first followed by those of the second.
pub proof fn lemma_components_join(a: Seq<u8>, b: Seq<u8>)
    ensures
        components(a + seq![SEPARATOR] + b) == components(a) + components(b),
    decreases b.len(),
{
    let whole = a + seq![SEPARATOR] + b;
    if b.len() == 0 {
        assert(whole.drop_last() =~= a);
        assert(components(a) + components(b) =~= components(a));
    } else {
        let init = b.drop_last();
        let before = a + seq![SEPARATOR] + init;
        assert(whole.drop_last() =~= before);
        assert(whole.last() == b.last());
        lemma_components_join(a, init);
        if b.last() == SEPARATOR {
        } else if init.len() > 0 && init.last() != SEPARATOR {
            lemma_components_are_components(init);
            assert(before.last() == init.last());
            let left = components(a);
            let right = components(init);
            assert((left + right).drop_last() =~= left + right.drop_last());
            assert((left + right).last() == right.last());
            assert((left + right.drop_last()).push(right.last().push(b.last())) =~= left
                + right.drop_last().push(right.last().push(b.last())));
        } else {
            assert(before.last() == SEPARATOR);
            assert((components(a) + components(init)).push(seq![b.last()]) =~= components(a)
                + components(init).push(seq![b.last()]));
        }
    }
}

/// Counting on from a shared prefix ends at a shared prefix that cannot be
/// extended.
proof fn lemma_common_prefix_from(a: Seq<Seq<u8>>, b: Seq<Seq<u8>>, k: nat)
    requires
        agree_to(a, b, k as int),
    ensures
        k <= common_prefix_from(a, b, k),
        agree_to(a, b, common_prefix_from(a, b, k) as int),
        !agree_to(a, b, common_prefix_from(a, b, k) as int + 1),
    decreases a.len() - k,
{
    if k < a.len() && k < b.len() && a[k as int] == b[k as int] {
        lemma_common_prefix_from(a, b, k + 1);
    }
}

/// Counting on from any shared prefix gives the same number.
proof fn lemma_common_prefix_from_any(a: Seq<Seq<u8>>, b: Seq<Seq<u8>>, k: nat)
    requires
        agree_to(a, b, k as int),
    ensures
        common_prefix_from(a, b, k) == common_prefix_len(a, b),
    decreases k,
{
    if k > 0 {
        lemma_common_prefix_from_any(a, b, (k - 1) as nat);
    }
}

/// `common_prefix_len(a, b)` is the greatest number of leading components
/// that `a` and `b` share: they agree to it, and to nothing beyond it.
pub proof fn lemma_common_prefix_len(a: Seq<Seq<u8>>, b: Seq<Seq<u8>>)
    ensures
        agree_to(a, b, common_prefix_len(a, b) as int),
        forall|k: int| agree_to(a, b, k) ==> k <= common_prefix_len(a, b),
{
    lemma_common_prefix_from(a, b, 0);
    assert forall|k: int| agree_to(a, b, k) implies k <= common_prefix_len(a, b) by {
        lemma_common_prefix_from_any(a, b, k as nat);
        lemma_common_prefix_from(a, b, k as nat);
    }
}

/// Splits `path` into its components.
pub fn split_components(path: &[u8]) -> (r: Vec<Vec<u8>>)
    ensures
        component_views(r@) == components(path@),
{
    let mut done: Vec<Vec<u8>> = Vec::new();
    let mut current: Vec<u8> = Vec::new();
    let mut i: usize = 0;
    assert(path@.take(0) =~= Seq::<u8>::empty());
    assert(component_views(done@) =~= Seq::<Seq<u8>>::empty());
    while i < path.len()
        invariant
            i <= path.len(),
            current@.len() > 0 <==> (i > 0 && path@[i - 1] != SEPARATOR),
            components(path@.take(i as int)) == if current@.len() > 0 {
                component_views(done@).push(current@)
            } else {
                component_views(done@)
            },
        decreases path.len() - i,
    {
        let b: u8 = path[i];
        proof {
            let next = path@.take(i + 1);
            assert(next.drop_last() =~= path@.take(i as int));
            assert(next.last() == b);
            if i > 0 {
                assert(path@.take(i as int).last() == path@[i - 1]);
            }
        }
        if b == SEPARATOR {
            if current.len() > 0 {
                let ghost before = component_views(done@).push(current@);
                done.push(current);
                current = Vec::new();
                assert(component_views(done@) =~= before);
            }
        } else {
            let ghost open = current@.len() > 0;
            let ghost before = current@;
            current.push(b);
            proof {
                let views = component_views(done@);
                if open {
                    assert(views.push(before).drop_last() =~= views);
                    assert(views.push(before).last() == before);
                } else {
                    assert(current@ =~= seq![b]);
                }
            }
        }
        i += 1;
    }
    assert(path@.take(i as int) =~= path@);
    if current.len() > 0 {
        let ghost before = component_views(done@).push(current@);
        done.push(current);
        assert(component_views(done@) =~= before);
    }
    done
}

/// Whether two byte strings are equal.
pub fn bytes_equal(a: &Vec<u8>, b: &Vec<u8>) -> (r: bool)
    ensures
        r == (a@ == b@),
{
    if a.len() != b.len() {
        return false;
    }
    let mut i: usize = 0;
    while i < a.len()
        invariant
            i <= a.len(),
            a.len() == b.len(),
            forall|j: int| 0 <= j < i ==> a@[j] == b@[j],
        decreases a.len() - i,
    {
        if a[i] != b[i] {
            return false;
        }
        i += 1;
    }
    assert(a@ =~= b@);
    true
}

/// The number of leading components that `a` and `b` share.
pub fn shared_components(a: &Vec<Vec<u8>>, b: &Vec<Vec<u8>>) -> (k: usize)
    ensures
        k == common_prefix_len(component_views(a@), component_views(b@)),
{
    let mut k: usize = 0;
    while k < a.len() && k < b.len() && bytes_equal(&a[k], &b[k])
        invariant
            k <= a.len(),
            k <= b.len(),
            common_prefix_from(component_views(a@), component_views(b@), k as nat)
                == common_prefix_len(component_views(a@), component_views(b@)),
        decreases a.len() - k,
    {
        k += 1;
    }
    k
}

} // verus!
