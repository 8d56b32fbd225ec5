//! The file resolver: which manifests of a snapshot are read, in which order,
//! and the forward-only sequence of their entries.

use vstd::prelude::*;
use crate::manifest::ManifestEntry;

verus! {

/// Whether manifest `i` is kept by the pruning mask: a `true` at `i` prunes
/// manifest `i`; every other manifest is read.
pub open spec fn kept(filter: Option<Seq<bool>>, i: int) -> bool {
    match filter {
        Some(mask) => !(i < mask.len() && mask[i]),
        None => true,
    }
}

/// The indices below `k` of the manifests that the filter keeps, in order.
pub open spec fn selected_upto(filter: Option<Seq<bool>>, k: nat) -> Seq<int>
    decreases k,
{
    if k == 0 {
        Seq::<int>::empty()
    } else if kept(filter, k - 1) {
        selected_upto(filter, (k - 1) as nat).push(k - 1)
    } else {
        selected_upto(filter, (k - 1) as nat)
    }
}

/// The indices of the `n` manifests of a list that the filter keeps, in
/// order: those without a `true` in the pruning mask.
pub open spec fn selected(n: nat, filter: Option<Seq<bool>>) -> Seq<int> {
    selected_upto(filter, n)
}

/// The entries of the chosen manifests, one manifest after the other.
pub open spec fn flatten(contents: Seq<Seq<ManifestEntry>>, chosen: Seq<int>) -> Seq<ManifestEntry>
    decreases chosen.len(),
{
    if chosen.len() == 0 {
        Seq::<ManifestEntry>::empty()
    } else {
        flatten(contents, chosen.drop_last()) + contents[chosen.last()]
    }
}

/// The reverse of a sequence.
pub open spec fn reversed<T>(s: Seq<T>) -> Seq<T> {
    Seq::new(s.len(), |i: int| s[s.len() - 1 - i])
}

/// The opt-view of a mask.
pub open spec fn mask_view(filter: &Option<Vec<bool>>) -> Option<Seq<bool>> {
    match filter {
        Some(m) => Some(m@),
        None => None,
    }
}

/// The indices of the manifests of a list of `n` that `filter` keeps, in order.
pub fn select_manifests(n: usize, filter: &Option<Vec<bool>>) -> (r: Vec<usize>)
    ensures
        r@.map_values(|i: usize| i as int) == selected(n as nat, mask_view(filter)),
{
    let mut r: Vec<usize> = Vec::new();
    let mut i: usize = 0;
    while i < n
        invariant
            i <= n,
            r@.map_values(|x: usize| x as int) == selected_upto(mask_view(filter), i as nat),
        decreases n - i,
    {
        let keep = match filter {
            Some(mask) => !(i < mask.len() && mask[i]),
            None => true,
        };
        if keep {
            let ghost before = r@;
            r.push(i);
            assert(r@.map_values(|x: usize| x as int) =~= before.map_values(|x: usize| x as int).push(i as int));
        }
        i = i + 1;
    }
    r
}

/// A lazy, forward-only sequence of the entries of the manifests of a
/// snapshot. The caller asks which manifest to read next, reads it, hands its
/// entries over, and takes them one by one.
pub struct DataFileStream {
    manifests: Vec<usize>,
    next: usize,
    buffer: Vec<ManifestEntry>,
}

impl DataFileStream {
    /// The manifests still to be read, by index in the manifest list.
    pub closed spec fn pending(&self) -> Seq<int> {
        self.manifests@.subrange(self.next as int, self.manifests@.len() as int).map_values(|i: usize| i as int)
    }

    /// The entries read but not yet taken, in order.
    pub closed spec fn buffered(&self) -> Seq<ManifestEntry> {
        reversed(self.buffer@)
    }

    /// Whether the cursor is consistent.
    pub closed spec fn wf(&self) -> bool {
        self.next <= self.manifests@.len()
    }

    /// A stream over a manifest list of `manifest_count` manifests, of which
    /// those with a `true` in the pruning mask `filter` are left out.
    pub fn new(manifest_count: usize, filter: Option<Vec<bool>>) -> (r: DataFileStream)
        ensures
            r.wf(),
            r.pending() == selected(manifest_count as nat, mask_view(&filter)),
            r.buffered().len() == 0,
    {
        let manifests = select_manifests(manifest_count, &filter);
        let r = DataFileStream { manifests, next: 0, buffer: Vec::new() };
        assert(r.manifests@.subrange(0, r.manifests@.len() as int) =~= r.manifests@);
        assert(r.buffered() =~= Seq::<ManifestEntry>::empty());
        r
    }

    /// The next entry of the manifest being read, if any is left.
    pub fn next_entry(&mut self) -> (r: Option<ManifestEntry>)
        requires
            old(self).wf(),
        ensures
            final(self).wf(),
            final(self).pending() == old(self).pending(),
            old(self).buffered().len() == 0 ==> r is None && final(self).buffered() == old(self).buffered(),
            old(self).buffered().len() > 0 ==> r == Some(old(self).buffered()[0])
                && final(self).buffered() == old(self).buffered().drop_first(),
    {
        let r = self.buffer.pop();
        proof {
            if old(self).buffer@.len() > 0 {
                assert(reversed(self.buffer@) =~= reversed(old(self).buffer@).drop_first());
            }
        }
        r
    }

    /// The index of the next manifest to read, once the entries read so far
    /// are taken; `None` when every kept manifest has been read.
    pub fn next_manifest(&mut self) -> (r: Option<usize>)
        requires
            old(self).wf(),
            old(self).buffered().len() == 0,
        ensures
            final(self).wf(),
            final(self).buffered() == old(self).buffered(),
            old(self).pending().len() == 0 ==> r is None && final(self).pending() == old(self).pending(),
            old(self).pending().len() > 0 ==> r is Some && r->Some_0 as int == old(self).pending()[0]
                && final(self).pending() == old(self).pending().drop_first(),
    {
        if self.next < self.manifests.len() {
            let i = self.manifests[self.next];
            self.next = self.next + 1;
            assert(self.pending() =~= old(self).pending().drop_first());
            Some(i)
        } else {
            None
        }
    }

    /// Hand over the entries of the manifest just read, in file order.
    pub fn load(&mut self, entries: Vec<ManifestEntry>)
        requires
            old(self).wf(),
            old(self).buffered().len() == 0,
        ensures
            final(self).wf(),
            final(self).pending() == old(self).pending(),
            final(self).buffered() == entries@,
    {
        let mut rest = entries;
        let ghost orig = rest@;
        self.buffer = Vec::new();
        while rest.len() > 0
            invariant
                rest@ == orig.subrange(0, rest@.len() as int),
                self.buffer@.len() + rest@.len() == orig.len(),
                forall|k: int| 0 <= k < self.buffer@.len() ==> #[trigger] self.buffer@[k] == orig[orig.len() - 1 - k],
                self.next == old(self).next,
                self.manifests == old(self).manifests,
            decreases rest@.len(),
        {
            let e = rest.pop().unwrap();
            self.buffer.push(e);
        }
        assert(reversed(self.buffer@) =~= orig);
    }
}

/// With a mask of one `false` entry, at `j`, only manifest `j` is read.
pub proof fn lemma_single_false_mask(n: nat, mask: Seq<bool>, j: int)
    requires
        mask.len() == n,
        0 <= j < n,
        !mask[j],
        forall|i: int| 0 <= i < n && i != j ==> #[trigger] mask[i],
    ensures
        selected(n, Some(mask)) == seq![j],
{
    lemma_selected_single(mask, j, n);
}

proof fn lemma_selected_single(mask: Seq<bool>, j: int, k: nat)
    requires
        0 <= j < mask.len(),
        k <= mask.len(),
        !mask[j],
        forall|i: int| 0 <= i < mask.len() && i != j ==> #[trigger] mask[i],
    ensures
        k <= j ==> selected_upto(Some(mask), k) == Seq::<int>::empty(),
        k > j ==> selected_upto(Some(mask), k) == seq![j],
    decreases k,
{
    if k > 0 {
        lemma_selected_single(mask, j, (k - 1) as nat);
        if k - 1 == j {
            assert(Seq::<int>::empty().push(j) =~= seq![j]);
        }
    }
}

/// With a pruning mask of one `true` entry, at `j`, every manifest but `j` is
/// read, in list order: the files of manifest `j`, and those alone, are left out.
pub proof fn lemma_single_true_mask(contents: Seq<Seq<ManifestEntry>>, mask: Seq<bool>, j: int)
    requires
        mask.len() == contents.len(),
        0 <= j < contents.len(),
        mask[j],
        forall|i: int| 0 <= i < contents.len() && i != j ==> !#[trigger] mask[i],
    ensures
        flatten(contents, selected(contents.len(), Some(mask)))
            == flatten(contents, selected(j as nat, None))
                + flatten(contents, selected(contents.len(), None)).subrange(
                    flatten(contents, selected((j + 1) as nat, None)).len() as int,
                    flatten(contents, selected(contents.len(), None)).len() as int,
                ),
{
    lemma_skip_one(contents, mask, j, contents.len());
}

proof fn lemma_prefix_flatten(contents: Seq<Seq<ManifestEntry>>, a: nat, b: nat)
    requires
        a <= b <= contents.len(),
    ensures
        flatten(contents, selected_upto(None, b)) == flatten(contents, selected_upto(None, a))
            + flatten(contents, selected_upto(None, b)).subrange(
                flatten(contents, selected_upto(None, a)).len() as int,
                flatten(contents, selected_upto(None, b)).len() as int,
            ),
        flatten(contents, selected_upto(None, a)).len() <= flatten(contents, selected_upto(None, b)).len(),
    decreases b,
{
    if b > a {
        lemma_prefix_flatten(contents, a, (b - 1) as nat);
        let s = selected_upto(None, b);
        assert(s.drop_last() == selected_upto(None, (b - 1) as nat));
    }
    let fa = flatten(contents, selected_upto(None, a));
    let fb = flatten(contents, selected_upto(None, b));
    assert(fb =~= fa + fb.subrange(fa.len() as int, fb.len() as int));
}

proof fn lemma_skip_one(contents: Seq<Seq<ManifestEntry>>, mask: Seq<bool>, j: int, k: nat)
    requires
        mask.len() == contents.len(),
        0 <= j < contents.len(),
        k <= contents.len(),
        mask[j],
        forall|i: int| 0 <= i < contents.len() && i != j ==> !#[trigger] mask[i],
    ensures
        k <= j ==> flatten(contents, selected_upto(Some(mask), k)) == flatten(contents, selected_upto(None, k)),
        k > j ==> flatten(contents, selected_upto(Some(mask), k))
            == flatten(contents, selected_upto(None, j as nat))
                + flatten(contents, selected_upto(None, k)).subrange(
                    flatten(contents, selected_upto(None, (j + 1) as nat)).len() as int,
                    flatten(contents, selected_upto(None, k)).len() as int,
                ),
    decreases k,
{
    if k > 0 {
        let k1 = (k - 1) as nat;
        lemma_skip_one(contents, mask, j, k1);
        let sm = selected_upto(Some(mask), k);
        let sn = selected_upto(None, k);
        assert(sn.drop_last() == selected_upto(None, k1));
        if k1 == j {
            lemma_prefix_flatten(contents, j as nat, k);
            let fj = flatten(contents, selected_upto(None, j as nat));
            let fk = flatten(contents, sn);
            assert(fk.subrange(fk.len() as int, fk.len() as int) =~= Seq::<ManifestEntry>::empty());
            assert(fj + Seq::<ManifestEntry>::empty() =~= fj);
        } else if k1 > j {
            assert(sm.drop_last() == selected_upto(Some(mask), k1));
            lemma_prefix_flatten(contents, (j + 1) as nat, k1);
            lemma_prefix_flatten(contents, (j + 1) as nat, k);
            let fj = flatten(contents, selected_upto(None, j as nat));
            let fj1 = flatten(contents, selected_upto(None, (j + 1) as nat));
            let fk1 = flatten(contents, selected_upto(None, k1));
            let fk = flatten(contents, sn);
            assert(fk == fk1 + contents[k1 as int]);
            assert(fk.subrange(fj1.len() as int, fk.len() as int)
                =~= fk1.subrange(fj1.len() as int, fk1.len() as int) + contents[k1 as int]);
        } else {
            assert(sm.drop_last() == selected_upto(Some(mask), k1));
        }
    }
}

/// Appending one manifest to a list that is read without a filter adds its
/// entries after those of every earlier manifest.
pub proof fn lemma_appended_manifest_read_last(contents: Seq<Seq<ManifestEntry>>, added: Seq<ManifestEntry>)
    ensures
        flatten(contents.push(added), selected(contents.len() + 1, None))
            == flatten(contents, selected(contents.len(), None)) + added,
{
    let c2 = contents.push(added);
    lemma_flatten_prefix_same(contents, added, contents.len());
    assert(selected_upto(None, contents.len() + 1).drop_last() == selected_upto(None, contents.len()));
}

proof fn lemma_selected_none(k: nat)
    ensures
        selected_upto(None, k).len() == k,
        forall|i: int| 0 <= i < k ==> #[trigger] selected_upto(None, k)[i] == i,
    decreases k,
{
    if k > 0 {
        lemma_selected_none((k - 1) as nat);
    }
}

proof fn lemma_flatten_prefix_same(contents: Seq<Seq<ManifestEntry>>, added: Seq<ManifestEntry>, k: nat)
    requires
        k <= contents.len(),
    ensures
        flatten(contents.push(added), selected_upto(None, k)) == flatten(contents, selected_upto(None, k)),
    decreases k,
{
    if k > 0 {
        lemma_flatten_prefix_same(contents, added, (k - 1) as nat);
        lemma_selected_none(k);
        let s = selected_upto(None, k);
        assert(s.drop_last() == selected_upto(None, (k - 1) as nat));
        assert(s.last() == k - 1);
        assert(contents.push(added)[k - 1] == contents[k - 1]);
    }
}

} // verus!
