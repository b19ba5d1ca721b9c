//! The mapping protocol over a four-level page-table tree: map, unmap,
//! translate and update-flags per size class, with an explicit TLB-flush
//! token for every structural mutation.
//!
//! The tree owns its tables. The root table is held directly; every child
//! table lives in a per-level arena together with the physical address of its
//! backing frame, so an entry's frame-address field is the key under which
//! the child table is found. Mathematically the tree is a [`TreeView`]: the
//! root as a sequence of raw entries and, per level, a map from backing-frame
//! address to table contents.

use vstd::prelude::*;

use crate::addr::{
    index1_of_addr, index2_of_addr, index3_of_addr, index4_of_addr, is_canonical, offset_of_addr,
    PhysAddr, VirtAddr,
};
use crate::page_flags::PageTableFlags;
use crate::page_table::{entry_addr, entry_flag_bits, entry_huge, entry_present, PageTable, PageTableEntry};
use crate::paging::{
    FlagUpdateError, Frame, FrameAllocator, MapToError, Page, PageSize, TranslateError,
    TranslationResult, UnmapError,
};

verus! {

/// The mathematical content of a page-table tree: the root table and, for
/// each lower level, the association from backing-frame address to table
/// contents. Each table is the sequence of its 512 raw entry values.
#[verifier::ext_equal]
pub ghost struct TreeView {
    /// The level-4 (root) table.
    pub root: Seq<u64>,
    /// The level-3 tables, keyed by backing-frame address.
    pub l3: Map<u64, Seq<u64>>,
    /// The level-2 tables, keyed by backing-frame address.
    pub l2: Map<u64, Seq<u64>>,
    /// The level-1 tables, keyed by backing-frame address.
    pub l1: Map<u64, Seq<u64>>,
}

/// Sanity of a tree view: every table has 512 entries, and every present,
/// non-huge entry above level 1 points to a table of the level below it.
pub open spec fn view_ok(v: TreeView) -> bool {
    &&& v.root.len() == 512
    &&& forall|k: u64| #[trigger] v.l3.contains_key(k) ==> v.l3[k].len() == 512
    &&& forall|k: u64| #[trigger] v.l2.contains_key(k) ==> v.l2[k].len() == 512
    &&& forall|k: u64| #[trigger] v.l1.contains_key(k) ==> v.l1[k].len() == 512
    &&& forall|i: int|
        0 <= i < 512 && entry_present(#[trigger] v.root[i]) && !entry_huge(v.root[i])
            ==> v.l3.contains_key(entry_addr(v.root[i]))
    &&& forall|k: u64, i: int|
        v.l3.contains_key(k) && 0 <= i < 512 && entry_present(#[trigger] v.l3[k][i])
            && !entry_huge(v.l3[k][i]) ==> v.l2.contains_key(entry_addr(v.l3[k][i]))
    &&& forall|k: u64, i: int|
        v.l2.contains_key(k) && 0 <= i < 512 && entry_present(#[trigger] v.l2[k][i])
            && !entry_huge(v.l2[k][i]) ==> v.l1.contains_key(entry_addr(v.l2[k][i]))
}

/// The backing-frame address of the level-3 table on the walk for `va`.
pub open spec fn l3_key(v: TreeView, va: u64) -> u64 {
    entry_addr(v.root[index4_of_addr(va) as int])
}

/// The backing-frame address of the level-2 table on the walk for `va`.
pub open spec fn l2_key(v: TreeView, va: u64) -> u64 {
    entry_addr(v.l3[l3_key(v, va)][index3_of_addr(va) as int])
}

/// The backing-frame address of the level-1 table on the walk for `va`.
pub open spec fn l1_key(v: TreeView, va: u64) -> u64 {
    entry_addr(v.l2[l2_key(v, va)][index2_of_addr(va) as int])
}

/// What a top-down walk towards the terminal entry of size class `s` finds.
pub ghost enum LeafSearch {
    /// The walk reached the terminal cell; carries its raw value, which may
    /// or may not be present.
    Found { entry: u64 },
    /// An entry above the terminal level is not present.
    MissingParent,
    /// An entry above the terminal level maps a huge page.
    HugeParent,
    /// An entry above the terminal level points to a frame address that
    /// backs no table of the level below.
    DanglingParent { addr: u64 },
}

/// The top-down walk: follows present, non-huge entries from the root to the
/// level at which size class `s` terminates, and reports the terminal cell
/// or the first obstruction.
pub open spec fn leaf_search(v: TreeView, s: PageSize, va: u64) -> LeafSearch {
    let e4 = v.root[index4_of_addr(va) as int];
    if !entry_present(e4) {
        LeafSearch::MissingParent
    } else if entry_huge(e4) {
        LeafSearch::HugeParent
    } else if !v.l3.contains_key(entry_addr(e4)) {
        LeafSearch::DanglingParent { addr: entry_addr(e4) }
    } else {
        let e3 = v.l3[entry_addr(e4)][index3_of_addr(va) as int];
        if s is Size1GB {
            LeafSearch::Found { entry: e3 }
        } else if !entry_present(e3) {
            LeafSearch::MissingParent
        } else if entry_huge(e3) {
            LeafSearch::HugeParent
        } else if !v.l2.contains_key(entry_addr(e3)) {
            LeafSearch::DanglingParent { addr: entry_addr(e3) }
        } else {
            let e2 = v.l2[entry_addr(e3)][index2_of_addr(va) as int];
            if s is Size2MB {
                LeafSearch::Found { entry: e2 }
            } else if !entry_present(e2) {
                LeafSearch::MissingParent
            } else if entry_huge(e2) {
                LeafSearch::HugeParent
            } else if !v.l1.contains_key(entry_addr(e2)) {
                LeafSearch::DanglingParent { addr: entry_addr(e2) }
            } else {
                LeafSearch::Found { entry: v.l1[entry_addr(e2)][index1_of_addr(va) as int] }
            }
        }
    }
}

/// The raw entry value that maps `frame` with `flags` at size class `s`:
/// the frame address united with the flag bits, and for the huge size
/// classes also the huge-page bit.
pub open spec fn install_bits(frame: Frame, flags: PageTableFlags, s: PageSize) -> u64 {
    if s is Size4KB {
        frame.addr@ | flags.bits
    } else {
        frame.addr@ | flags.bits | 0x80
    }
}

/// Whether the walk for size class `s` ends at a present terminal entry of
/// exactly that size class: huge for 2 MiB and 1 GiB, non-huge for 4 KiB.
pub open spec fn leaf_mapped(v: TreeView, s: PageSize, va: u64) -> bool {
    match leaf_search(v, s, va) {
        LeafSearch::Found { entry } => entry_present(entry) && (if s is Size4KB {
            !entry_huge(entry)
        } else {
            entry_huge(entry)
        }),
        _ => false,
    }
}

/// The result of a read-only translation of one page at size class `s`.
pub open spec fn translate_page_at(v: TreeView, s: PageSize, va: u64) -> Result<
    Frame,
    TranslateError,
> {
    match leaf_search(v, s, va) {
        LeafSearch::MissingParent => Err(TranslateError::PageNotMapped),
        LeafSearch::HugeParent => Err(TranslateError::ParentEntryHugePage),
        LeafSearch::DanglingParent { addr } => Err(
            TranslateError::InvalidFrameAddress(PhysAddr(addr)),
        ),
        LeafSearch::Found { entry } => {
            if !entry_present(entry) {
                Err(TranslateError::PageNotMapped)
            } else if (s is Size4KB) && entry_huge(entry) {
                Err(TranslateError::ParentEntryHugePage)
            } else if !(s is Size4KB) && !entry_huge(entry) {
                Err(TranslateError::PageNotMapped)
            } else if entry_addr(entry) as int % s.bytes() as int != 0 {
                Err(TranslateError::InvalidFrameAddress(PhysAddr(entry_addr(entry))))
            } else {
                Ok(Frame { addr: PhysAddr(entry_addr(entry)), size: s })
            }
        },
    }
}

/// The result of unmapping one page at size class `s` (without the tree
/// change, which [`leaf_written`] with a zero entry gives).
pub open spec fn unmap_at(v: TreeView, s: PageSize, va: u64) -> Result<Frame, UnmapError> {
    match leaf_search(v, s, va) {
        LeafSearch::MissingParent => Err(UnmapError::PageNotMapped),
        LeafSearch::HugeParent => Err(UnmapError::ParentEntryHugePage),
        LeafSearch::DanglingParent { addr } => Err(UnmapError::InvalidFrameAddress(PhysAddr(addr))),
        LeafSearch::Found { entry } => {
            if !entry_present(entry) {
                Err(UnmapError::PageNotMapped)
            } else if ((s is Size4KB) && entry_huge(entry)) || (!(s is Size4KB) && !entry_huge(
                entry,
            )) {
                Err(UnmapError::ParentEntryHugePage)
            } else if entry_addr(entry) as int % s.bytes() as int != 0 {
                Err(UnmapError::InvalidFrameAddress(PhysAddr(entry_addr(entry))))
            } else {
                Ok(Frame { addr: PhysAddr(entry_addr(entry)), size: s })
            }
        },
    }
}

/// The tree with the terminal cell of the walk for (`s`, `va`) replaced by
/// the raw value `e`. Meaningful when the walk reaches that cell.
pub open spec fn leaf_written(v: TreeView, s: PageSize, va: u64, e: u64) -> TreeView {
    if s is Size1GB {
        let k = l3_key(v, va);
        TreeView { l3: v.l3.insert(k, v.l3[k].update(index3_of_addr(va) as int, e)), ..v }
    } else if s is Size2MB {
        let k = l2_key(v, va);
        TreeView { l2: v.l2.insert(k, v.l2[k].update(index2_of_addr(va) as int, e)), ..v }
    } else {
        let k = l1_key(v, va);
        TreeView { l1: v.l1.insert(k, v.l1[k].update(index1_of_addr(va) as int, e)), ..v }
    }
}

/// The result of re-encoding the flags of the terminal entry: the update
/// applies only to a present terminal entry of exactly the requested size
/// class; everything else reports the page as not mapped.
pub open spec fn update_flags_at(v: TreeView, s: PageSize, va: u64) -> Result<
    (),
    FlagUpdateError,
> {
    if leaf_mapped(v, s, va) {
        Ok(())
    } else {
        Err(FlagUpdateError::PageNotMapped)
    }
}

/// The result of the size-class-agnostic translation of one address: the
/// walk follows present entries downwards and stops at the first huge entry
/// (level 3 or 2) or at a present level-1 entry, returning the frame of the
/// matching size class and the offset of `va` inside it.
pub open spec fn translate_at(v: TreeView, va: u64) -> TranslationResult {
    let e4 = v.root[index4_of_addr(va) as int];
    if !entry_present(e4) {
        TranslationResult::PageNotMapped
    } else if entry_huge(e4) {
        TranslationResult::InvalidFrameAddress(PhysAddr(entry_addr(e4)))
    } else if !v.l3.contains_key(entry_addr(e4)) {
        TranslationResult::InvalidFrameAddress(PhysAddr(entry_addr(e4)))
    } else {
        let e3 = v.l3[entry_addr(e4)][index3_of_addr(va) as int];
        if !entry_present(e3) {
            TranslationResult::PageNotMapped
        } else if entry_huge(e3) {
            if entry_addr(e3) as int % 0x4000_0000int == 0 {
                TranslationResult::Frame1GB {
                    frame: Frame { addr: PhysAddr(entry_addr(e3)), size: PageSize::Size1GB },
                    offset: va & 0x3FFF_FFFF,
                }
            } else {
                TranslationResult::InvalidFrameAddress(PhysAddr(entry_addr(e3)))
            }
        } else if !v.l2.contains_key(entry_addr(e3)) {
            TranslationResult::InvalidFrameAddress(PhysAddr(entry_addr(e3)))
        } else {
            let e2 = v.l2[entry_addr(e3)][index2_of_addr(va) as int];
            if !entry_present(e2) {
                TranslationResult::PageNotMapped
            } else if entry_huge(e2) {
                if entry_addr(e2) as int % 0x20_0000int == 0 {
                    TranslationResult::Frame2MB {
                        frame: Frame { addr: PhysAddr(entry_addr(e2)), size: PageSize::Size2MB },
                        offset: va & 0x1F_FFFF,
                    }
                } else {
                    TranslationResult::InvalidFrameAddress(PhysAddr(entry_addr(e2)))
                }
            } else if !v.l1.contains_key(entry_addr(e2)) {
                TranslationResult::InvalidFrameAddress(PhysAddr(entry_addr(e2)))
            } else {
                let e1 = v.l1[entry_addr(e2)][index1_of_addr(va) as int];
                if !entry_present(e1) {
                    TranslationResult::PageNotMapped
                } else {
                    TranslationResult::Frame4KB {
                        frame: Frame { addr: PhysAddr(entry_addr(e1)), size: PageSize::Size4KB },
                        offset: va & 0xFFF,
                    }
                }
            }
        }
    }
}

/// The four table indices of an address are below 512, and its in-page
/// offset below 4096.
pub proof fn lemma_indices_bounded(va: u64)
    by (bit_vector)
    ensures
        index1_of_addr(va) < 512,
        index2_of_addr(va) < 512,
        index3_of_addr(va) < 512,
        index4_of_addr(va) < 512,
        offset_of_addr(va) < 4096,
{
}

/// A token returned by every structural mutation of a tree. It must be
/// resolved exactly once: by invalidating the page's TLB entry on the
/// affected core, or by `ignore` when a broader invalidation is already
/// guaranteed.
#[must_use]
#[derive(Clone, Copy, Debug, PartialEq, Eq, Structural)]
pub struct MapperFlush(pub Page);

impl MapperFlush {
    /// Wraps the page whose translation may be stale.
    pub fn new(page: Page) -> (r: MapperFlush)
        ensures
            r == MapperFlush(page),
    {
        MapperFlush(page)
    }

    /// The page whose translation must be invalidated.
    pub fn page(&self) -> (r: Page)
        ensures
            r == self.0,
    {
        self.0
    }

    /// Resolves the token without invalidating: for callers that already
    /// guarantee a broader invalidation, such as a full address-space
    /// switch.
    pub fn ignore(self) {
    }
}

/// Whether a sequence of keys holds no value twice.
spec fn distinct_keys(addrs: Seq<u64>) -> bool {
    forall|i: int, j: int| 0 <= i < j < addrs.len() ==> addrs[i] != addrs[j]
}

/// The association from backing-frame address to table contents that a pair
/// of parallel sequences represents.
spec fn amap_of(addrs: Seq<u64>, tables: Seq<PageTable>) -> Map<u64, Seq<u64>>
    decreases addrs.len(),
{
    if addrs.len() == 0 {
        Map::empty()
    } else {
        amap_of(addrs.drop_last(), tables.drop_last()).insert(addrs.last(), tables.last()@)
    }
}

/// The keys of the association are exactly the members of `addrs`.
proof fn lemma_amap_dom(addrs: Seq<u64>, tables: Seq<PageTable>)
    requires
        addrs.len() == tables.len(),
    ensures
        forall|a: u64| #[trigger] amap_of(addrs, tables).contains_key(a) <==> addrs.contains(a),
    decreases addrs.len(),
{
    if addrs.len() == 0 {
        assert(forall|a: u64| !addrs.contains(a));
    } else {
        lemma_amap_dom(addrs.drop_last(), tables.drop_last());
        assert forall|a: u64| #[trigger]
            amap_of(addrs, tables).contains_key(a) <==> addrs.contains(a) by {
            let rec = amap_of(addrs.drop_last(), tables.drop_last());
            if amap_of(addrs, tables).contains_key(a) {
                if a == addrs.last() {
                    assert(addrs[addrs.len() - 1] == a);
                    assert(addrs.contains(a));
                } else {
                    assert(rec.contains_key(a));
                    assert(addrs.drop_last().contains(a));
                    let i = choose|i: int|
                        0 <= i < addrs.drop_last().len() && addrs.drop_last()[i] == a;
                    assert(addrs.drop_last()[i] == addrs[i]);
                    assert(addrs.contains(a));
                }
            }
            if addrs.contains(a) {
                let i = choose|i: int| 0 <= i < addrs.len() && addrs[i] == a;
                if i < addrs.len() - 1 {
                    assert(addrs.drop_last()[i] == a);
                    assert(addrs.drop_last().contains(a));
                    assert(rec.contains_key(a));
                } else {
                    assert(a == addrs.last());
                }
                assert(amap_of(addrs, tables).contains_key(a));
            }
        }
    }
}

/// Under distinct keys, the association maps the `i`-th key to the contents
/// of the `i`-th table.
proof fn lemma_amap_index(addrs: Seq<u64>, tables: Seq<PageTable>, i: int)
    requires
        addrs.len() == tables.len(),
        distinct_keys(addrs),
        0 <= i < addrs.len(),
    ensures
        amap_of(addrs, tables).contains_key(addrs[i]),
        amap_of(addrs, tables)[addrs[i]] == tables[i]@,
    decreases addrs.len(),
{
    if i == addrs.len() - 1 {
    } else {
        assert(addrs.drop_last()[i] == addrs[i]);
        lemma_amap_index(addrs.drop_last(), tables.drop_last(), i);
        assert(addrs[i] != addrs.last());
    }
}

/// Appending a fresh key and its table extends the association by that pair.
proof fn lemma_amap_push(addrs: Seq<u64>, tables: Seq<PageTable>, a: u64, t: PageTable)
    requires
        addrs.len() == tables.len(),
    ensures
        amap_of(addrs.push(a), tables.push(t)) == amap_of(addrs, tables).insert(a, t@),
{
    assert(addrs.push(a).drop_last() =~= addrs);
    assert(tables.push(t).drop_last() =~= tables);
    assert(addrs.push(a).last() == a);
}

/// Replacing the `i`-th table re-points the `i`-th key at the new contents
/// and changes nothing else.
proof fn lemma_amap_update(addrs: Seq<u64>, tables: Seq<PageTable>, i: int, nt: PageTable)
    requires
        addrs.len() == tables.len(),
        distinct_keys(addrs),
        0 <= i < addrs.len(),
    ensures
        amap_of(addrs, tables.update(i, nt)) == amap_of(addrs, tables).insert(addrs[i], nt@),
    decreases addrs.len(),
{
    let n = addrs.len() as int;
    if i == n - 1 {
        assert(tables.update(i, nt).drop_last() =~= tables.drop_last());
        assert(tables.update(i, nt).last() == nt);
        assert(amap_of(addrs, tables.update(i, nt)) =~= amap_of(addrs, tables).insert(
            addrs[i],
            nt@,
        ));
    } else {
        assert(addrs.drop_last()[i] == addrs[i]);
        assert(tables.update(i, nt).drop_last() =~= tables.drop_last().update(i, nt));
        assert(tables.update(i, nt).last() == tables.last());
        lemma_amap_update(addrs.drop_last(), tables.drop_last(), i, nt);
        assert(addrs[i] != addrs.last());
        assert(amap_of(addrs, tables.update(i, nt)) =~= amap_of(addrs, tables).insert(
            addrs[i],
            nt@,
        ));
    }
}

/// One level's table store: the tables of that level and, in step, the
/// physical addresses of their backing frames.
struct Arena {
    addrs: Vec<u64>,
    tables: Vec<PageTable>,
}

impl Arena {
    /// Validity: the two columns run in step, no backing address appears
    /// twice, and every table has its 512 entries.
    spec fn wf(&self) -> bool {
        &&& self.addrs@.len() == self.tables@.len()
        &&& distinct_keys(self.addrs@)
        &&& forall|i: int| 0 <= i < self.tables@.len() ==> (#[trigger] self.tables@[i]).wf()
    }

    /// The association this store represents.
    spec fn amap(&self) -> Map<u64, Seq<u64>> {
        amap_of(self.addrs@, self.tables@)
    }

    /// Every table of the association has 512 entries.
    proof fn lemma_values_wf(&self)
        requires
            self.wf(),
        ensures
            forall|k: u64| #[trigger] self.amap().contains_key(k) ==> self.amap()[k].len() == 512,
    {
        lemma_amap_dom(self.addrs@, self.tables@);
        assert forall|k: u64| #[trigger]
            self.amap().contains_key(k) implies self.amap()[k].len() == 512 by {
            let i = choose|i: int| 0 <= i < self.addrs@.len() && self.addrs@[i] == k;
            lemma_amap_index(self.addrs@, self.tables@, i);
        }
    }

    /// An empty store.
    fn new() -> (r: Arena)
        ensures
            r.wf(),
            r.amap() == Map::<u64, Seq<u64>>::empty(),
            r.addrs@.len() == 0,
    {
        Arena { addrs: Vec::new(), tables: Vec::new() }
    }

    /// Finds the position of the table backed by `a`, or reports that no
    /// table of this level is.
    fn find(&self, a: u64) -> (r: Option<usize>)
        requires
            self.wf(),
        ensures
            match r {
                Some(i) => {
                    &&& (i as int) < self.addrs@.len()
                    &&& self.addrs@[i as int] == a
                    &&& self.amap().contains_key(a)
                    &&& self.amap()[a] == self.tables@[i as int]@
                },
                None => !self.amap().contains_key(a),
            },
    {
        let n = self.addrs.len();
        let mut i: usize = 0;
        while i < n
            invariant
                self.wf(),
                n == self.addrs@.len(),
                i <= n,
                forall|j: int| 0 <= j < i ==> self.addrs@[j] != a,
            decreases n - i,
        {
            if self.addrs[i] == a {
                proof {
                    lemma_amap_index(self.addrs@, self.tables@, i as int);
                }
                return Some(i);
            }
            i = i + 1;
        }
        proof {
            lemma_amap_dom(self.addrs@, self.tables@);
            if self.amap().contains_key(a) {
                let j = choose|j: int| 0 <= j < self.addrs@.len() && self.addrs@[j] == a;
                assert(false);
            }
        }
        None
    }

    /// The raw value of entry `idx` of the table at position `i`.
    fn entry_of(&self, i: usize, idx: usize) -> (e: u64)
        requires
            self.wf(),
            (i as int) < self.tables@.len(),
            idx < 512,
        ensures
            e == self.amap()[self.addrs@[i as int]][idx as int],
    {
        proof {
            lemma_amap_index(self.addrs@, self.tables@, i as int);
        }
        self.tables[i].entry(idx).entry
    }

    /// Writes entry `idx` of the table at position `i`: the association
    /// changes at that one key, and there at that one entry.
    fn set_entry(&mut self, i: usize, idx: usize, e: u64)
        requires
            old(self).wf(),
            (i as int) < old(self).tables@.len(),
            idx < 512,
        ensures
            final(self).wf(),
            final(self).addrs@ == old(self).addrs@,
            final(self).amap() == old(self).amap().insert(
                old(self).addrs@[i as int],
                old(self).amap()[old(self).addrs@[i as int]].update(idx as int, e),
            ),
    {
        let mut t = PageTable::new();
        self.tables.set_and_swap(i, &mut t);
        t.set_entry(idx, PageTableEntry { entry: e });
        self.tables.set_and_swap(i, &mut t);
        proof {
            lemma_amap_index(old(self).addrs@, old(self).tables@, i as int);
            assert(self.tables@ =~= old(self).tables@.update(i as int, self.tables@[i as int]));
            lemma_amap_update(
                old(self).addrs@,
                old(self).tables@,
                i as int,
                self.tables@[i as int],
            );
        }
    }

    /// Adds a table backed by a fresh address: the association is extended
    /// by exactly that pair.
    fn push_table(&mut self, a: u64, t: PageTable) -> (i: usize)
        requires
            old(self).wf(),
            t.wf(),
            !old(self).amap().contains_key(a),
        ensures
            final(self).wf(),
            final(self).addrs@ == old(self).addrs@.push(a),
            i as int == old(self).addrs@.len(),
            final(self).addrs@[i as int] == a,
            final(self).amap() == old(self).amap().insert(a, t@),
    {
        proof {
            lemma_amap_dom(old(self).addrs@, old(self).tables@);
            lemma_amap_push(old(self).addrs@, old(self).tables@, a, t);
            assert forall|x: int, y: int|
                0 <= x < y < old(self).addrs@.push(a).len() implies old(self).addrs@.push(a)[x]
                != old(self).addrs@.push(a)[y] by {
                if y == old(self).addrs@.len() {
                    assert(old(self).addrs@[x] == old(self).addrs@.push(a)[x]);
                    if old(self).addrs@.push(a)[x] == a {
                        assert(old(self).addrs@.contains(a));
                    }
                }
            }
        }
        let i = self.addrs.len();
        self.addrs.push(a);
        self.tables.push(t);
        i
    }
}

} // verus!

verus! {

/// A zeroed table as a sequence.
pub open spec fn zero_table() -> Seq<u64> {
    Seq::new(512, |i: int| 0u64)
}

/// The zero entry is neither present nor huge and holds no address.
pub proof fn lemma_zero_entry()
    by (bit_vector)
    ensures
        !entry_present(0),
        !entry_huge(0),
        entry_addr(0) == 0,
{
}

/// The entry that links a parent level to a child table backed by the
/// page-aligned frame address `fa`: present, writable, not huge, and its
/// address field reads back exactly `fa`.
proof fn lemma_link_entry(fa: u64)
    by (bit_vector)
    requires
        fa & 0xFFF == 0,
        fa >> 52 == 0,
    ensures
        entry_present(fa | 0x3),
        !entry_huge(fa | 0x3),
        entry_addr(fa | 0x3) == fa,
{
}

/// Field readback of an installed terminal entry: with a page-aligned,
/// in-range frame address and bits confined to the flag field, address and
/// flags decode separately.
proof fn lemma_install_fields(fa: u64, b: u64)
    by (bit_vector)
    requires
        fa & 0xFFF == 0,
        fa >> 52 == 0,
        b & crate::page_flags::FLAG_BITS == b,
    ensures
        entry_addr(fa | b) == fa,
        entry_present(fa | b) <==> b & 0x1 == 0x1,
        entry_huge(fa | b) <==> b & 0x80 == 0x80,
        entry_addr(fa | b | 0x80) == fa,
        entry_present(fa | b | 0x80) <==> b & 0x1 == 0x1,
        entry_huge(fa | b | 0x80),
        entry_flag_bits(fa | b) == b,
        entry_flag_bits(fa | b | 0x80) == b | 0x80,
{
}

/// Every page-size class is a power of two of at least page size.
proof fn lemma_size_pow2(s: PageSize)
    ensures
        crate::addr::is_power_of_two(s.bytes()),
        s.bytes() >= 0x1000,
{
    let b = s.bytes();
    assert(b == 0x1000 || b == 0x20_0000 || b == 0x4000_0000 ==> b != 0 && b & ((b - 1) as u64)
        == 0 && b >= 0x1000) by (bit_vector);
}

/// An address aligned to a size class is page-aligned.
proof fn lemma_size_aligned_page_aligned(fa: u64, b: u64)
    by (bit_vector)
    requires
        b == 0x1000 || b == 0x20_0000 || b == 0x4000_0000,
        fa & ((b - 1) as u64) == 0,
    ensures
        fa & 0xFFF == 0,
{
}

/// The obstruction a read-only walk step reports.
enum ChildErr {
    /// The parent entry is not present.
    Missing,
    /// The parent entry maps a huge page.
    Huge,
}

/// A verified page-table tree that owns its tables.
///
/// The root is held directly; each child table lives in the arena of its
/// level keyed by the physical address of its backing frame. Entries written
/// by the mapping operations are bit-exact page-table entries, so the tree's
/// contents could be copied into physical frames verbatim.
pub struct PageTableTree {
    root: PageTable,
    l3: Arena,
    l2: Arena,
    l1: Arena,
}

impl PageTableTree {
    /// The mathematical tree.
    pub closed spec fn tree_view(&self) -> TreeView {
        TreeView {
            root: self.root@,
            l3: self.l3.amap(),
            l2: self.l2.amap(),
            l1: self.l1.amap(),
        }
    }

    /// Validity: the table stores are coherent and the view is sane.
    pub closed spec fn wf(&self) -> bool {
        &&& self.root.wf()
        &&& self.l3.wf()
        &&& self.l2.wf()
        &&& self.l1.wf()
        &&& view_ok(self.tree_view())
    }

    /// An empty tree: a zeroed root table and no child tables.
    pub fn new() -> (r: PageTableTree)
        ensures
            r.wf(),
            view_ok(r.tree_view()),
            r.tree_view().root =~= zero_table(),
            r.tree_view().l3 == Map::<u64, Seq<u64>>::empty(),
            r.tree_view().l2 == Map::<u64, Seq<u64>>::empty(),
            r.tree_view().l1 == Map::<u64, Seq<u64>>::empty(),
    {
        let r = PageTableTree {
            root: PageTable::new(),
            l3: Arena::new(),
            l2: Arena::new(),
            l1: Arena::new(),
        };
        proof {
            lemma_zero_entry();
        }
        r
    }

    /// Follows the root entry at index `i4` down to its level-3 table.
    fn child_of_root(&self, i4: usize) -> (r: Result<usize, ChildErr>)
        requires
            self.wf(),
            i4 < 512,
        ensures
            ({
                let e = self.tree_view().root[i4 as int];
                match r {
                    Ok(ti) => {
                        &&& entry_present(e)
                        &&& !entry_huge(e)
                        &&& (ti as int) < self.l3.tables@.len()
                        &&& self.l3.addrs@[ti as int] == entry_addr(e)
                    },
                    Err(ChildErr::Missing) => !entry_present(e),
                    Err(ChildErr::Huge) => entry_present(e) && entry_huge(e),
                }
            }),
    {
        let e = self.root.entry(i4).entry;
        if e & 0x1 != 0x1 {
            return Err(ChildErr::Missing);
        }
        if e & 0x80 == 0x80 {
            return Err(ChildErr::Huge);
        }
        match self.l3.find(e & crate::page_flags::ADDR_BITS) {
            Some(ti) => Ok(ti),
            None => {
                proof {
                    assert(false);
                }
                Err(ChildErr::Missing)
            },
        }
    }

    /// Follows entry `i3` of the level-3 table at position `ti` down to its
    /// level-2 table.
    fn child_of_l3(&self, ti: usize, i3: usize) -> (r: Result<usize, ChildErr>)
        requires
            self.wf(),
            (ti as int) < self.l3.tables@.len(),
            i3 < 512,
        ensures
            ({
                let e = self.tree_view().l3[self.l3.addrs@[ti as int]][i3 as int];
                match r {
                    Ok(tj) => {
                        &&& entry_present(e)
                        &&& !entry_huge(e)
                        &&& (tj as int) < self.l2.tables@.len()
                        &&& self.l2.addrs@[tj as int] == entry_addr(e)
                    },
                    Err(ChildErr::Missing) => !entry_present(e),
                    Err(ChildErr::Huge) => entry_present(e) && entry_huge(e),
                }
            }),
    {
        let e = self.l3.entry_of(ti, i3);
        proof {
            lemma_amap_index(self.l3.addrs@, self.l3.tables@, ti as int);
        }
        if e & 0x1 != 0x1 {
            return Err(ChildErr::Missing);
        }
        if e & 0x80 == 0x80 {
            return Err(ChildErr::Huge);
        }
        match self.l2.find(e & crate::page_flags::ADDR_BITS) {
            Some(tj) => Ok(tj),
            None => {
                proof {
                    let v = self.tree_view();
                    let k = self.l3.addrs@[ti as int];
                    assert(v.l3 == self.l3.amap());
                    assert(v.l3.contains_key(k));
                    assert(e == v.l3[k][i3 as int]);
                    assert(entry_present(v.l3[k][i3 as int]));
                    assert(!entry_huge(v.l3[k][i3 as int]));
                    assert(v.l2.contains_key(entry_addr(v.l3[k][i3 as int])));
                    assert(false);
                }
                Err(ChildErr::Missing)
            },
        }
    }

    /// Follows entry `i2` of the level-2 table at position `ti` down to its
    /// level-1 table.
    fn child_of_l2(&self, ti: usize, i2: usize) -> (r: Result<usize, ChildErr>)
        requires
            self.wf(),
            (ti as int) < self.l2.tables@.len(),
            i2 < 512,
        ensures
            ({
                let e = self.tree_view().l2[self.l2.addrs@[ti as int]][i2 as int];
                match r {
                    Ok(tj) => {
                        &&& entry_present(e)
                        &&& !entry_huge(e)
                        &&& (tj as int) < self.l1.tables@.len()
                        &&& self.l1.addrs@[tj as int] == entry_addr(e)
                    },
                    Err(ChildErr::Missing) => !entry_present(e),
                    Err(ChildErr::Huge) => entry_present(e) && entry_huge(e),
                }
            }),
    {
        let e = self.l2.entry_of(ti, i2);
        proof {
            lemma_amap_index(self.l2.addrs@, self.l2.tables@, ti as int);
        }
        if e & 0x1 != 0x1 {
            return Err(ChildErr::Missing);
        }
        if e & 0x80 == 0x80 {
            return Err(ChildErr::Huge);
        }
        match self.l1.find(e & crate::page_flags::ADDR_BITS) {
            Some(tj) => Ok(tj),
            None => {
                proof {
                    let v = self.tree_view();
                    let k = self.l2.addrs@[ti as int];
                    assert(v.l2 == self.l2.amap());
                    assert(v.l2.contains_key(k));
                    assert(e == v.l2[k][i2 as int]);
                    assert(entry_present(v.l2[k][i2 as int]));
                    assert(!entry_huge(v.l2[k][i2 as int]));
                    assert(v.l1.contains_key(entry_addr(v.l2[k][i2 as int])));
                    assert(false);
                }
                Err(ChildErr::Missing)
            },
        }
    }
}

} // verus!

verus! {

/// The terminal decode of a translation: how one reached terminal cell is
/// read at size class `s`.
pub open spec fn found_translate(entry: u64, s: PageSize) -> Result<Frame, TranslateError> {
    if !entry_present(entry) {
        Err(TranslateError::PageNotMapped)
    } else if (s is Size4KB) && entry_huge(entry) {
        Err(TranslateError::ParentEntryHugePage)
    } else if !(s is Size4KB) && !entry_huge(entry) {
        Err(TranslateError::PageNotMapped)
    } else if entry_addr(entry) as int % s.bytes() as int != 0 {
        Err(TranslateError::InvalidFrameAddress(PhysAddr(entry_addr(entry))))
    } else {
        Ok(Frame { addr: PhysAddr(entry_addr(entry)), size: s })
    }
}

/// The terminal decode of an unmap: as for translation, but a terminal entry
/// of the wrong size class is the structural mismatch error.
pub open spec fn found_unmap(entry: u64, s: PageSize) -> Result<Frame, UnmapError> {
    if !entry_present(entry) {
        Err(UnmapError::PageNotMapped)
    } else if ((s is Size4KB) && entry_huge(entry)) || (!(s is Size4KB) && !entry_huge(entry)) {
        Err(UnmapError::ParentEntryHugePage)
    } else if entry_addr(entry) as int % s.bytes() as int != 0 {
        Err(UnmapError::InvalidFrameAddress(PhysAddr(entry_addr(entry))))
    } else {
        Ok(Frame { addr: PhysAddr(entry_addr(entry)), size: s })
    }
}

/// The terminal entry of the walk, where the walk reaches one.
pub open spec fn leaf_entry_of(v: TreeView, s: PageSize, va: u64) -> u64 {
    match leaf_search(v, s, va) {
        LeafSearch::Found { entry } => entry,
        _ => 0,
    }
}

/// The raw value of a terminal entry after its flags are re-encoded: the
/// frame-address field is kept, the flag field replaced, and for the huge
/// size classes the huge-page bit is kept set.
pub open spec fn refreshed_bits(e: u64, flags: PageTableFlags, s: PageSize) -> u64 {
    if s is Size4KB {
        entry_addr(e) | flags.bits
    } else {
        entry_addr(e) | flags.bits | 0x80
    }
}

/// What a successful mapping attempt promises when the terminal cell was
/// free: on success the flush token names the page and the walk now ends at
/// the installed entry; on failure only frame allocation can be to blame and
/// the page is still not mapped.
pub open spec fn map_attempt(
    v1: TreeView,
    r: Result<MapperFlush, MapToError>,
    page: Page,
    frame: Frame,
    flags: PageTableFlags,
) -> bool {
    match r {
        Ok(fl) => {
            &&& fl == MapperFlush(page)
            &&& leaf_search(v1, page.size, page.addr@) == (LeafSearch::Found {
                entry: install_bits(frame, flags, page.size),
            })
        },
        Err(e) => {
            &&& e == MapToError::FrameAllocationFailed
            &&& !leaf_mapped(v1, page.size, page.addr@)
        },
    }
}

/// The whole promise of `map_to`, by the state the walk found: a huge entry
/// above the terminal level is fatal and changes nothing; a present terminal
/// entry is reported with its frame and changes nothing; a reached terminal
/// entry that is free is mapped outright, since no allocation is needed;
/// and only a walk with absent parents can fail, as [`map_attempt`] says,
/// when the allocator cannot supply a usable table frame. Intermediate
/// tables created before such a failure remain installed; the page itself
/// is then still unmapped.
pub open spec fn map_to_post(
    v0: TreeView,
    v1: TreeView,
    r: Result<MapperFlush, MapToError>,
    page: Page,
    frame: Frame,
    flags: PageTableFlags,
) -> bool {
    let s = page.size;
    let va = page.addr@;
    match leaf_search(v0, s, va) {
        LeafSearch::HugeParent => r == Err::<MapperFlush, MapToError>(
            MapToError::ParentEntryHugePage,
        ) && v1 == v0,
        LeafSearch::DanglingParent { addr } => false,
        LeafSearch::Found { entry } => {
            if entry_present(entry) {
                &&& r == Err::<MapperFlush, MapToError>(
                    MapToError::PageAlreadyMapped(
                        Frame {
                            addr: PhysAddr(crate::addr::align_down_spec(
                                entry_addr(entry),
                                s.bytes(),
                            )),
                            size: s,
                        },
                    ),
                )
                &&& v1 == v0
            } else {
                &&& r == Ok::<MapperFlush, MapToError>(MapperFlush(page))
                &&& leaf_search(v1, s, va) == (LeafSearch::Found {
                    entry: install_bits(frame, flags, s),
                })
            }
        },
        LeafSearch::MissingParent => map_attempt(v1, r, page, frame, flags),
    }
}

/// The mapping protocol of one page-table tree. All operations are bounded
/// walks of at most four levels; every structural mutation returns a
/// [`MapperFlush`] token that the caller must resolve. A tree requires
/// exclusive access for every mutating call; the caller provides the
/// synchronization.
pub trait Mapper {
    /// Validity of the representation; constructors establish it and every
    /// operation preserves it.
    spec fn inv(&self) -> bool;

    /// The mathematical tree the operations are specified over.
    spec fn tview(&self) -> TreeView;

    /// Creates a mapping from `page` to `frame` with the given flags,
    /// walking top-down and allocating a zeroed table from `allocator` for
    /// every absent entry above the terminal level. A huge entry on the way
    /// is a fatal structural conflict; an already-present terminal entry is
    /// reported, carrying the prior frame, and the tree is left unchanged.
    /// For the 2 MiB and 1 GiB size classes the huge-page bit is set on the
    /// terminal entry; the caller does not pass it.
    fn map_to<A: FrameAllocator>(
        &mut self,
        page: Page,
        frame: Frame,
        flags: PageTableFlags,
        allocator: &mut A,
    ) -> (r: Result<MapperFlush, MapToError>)
        requires
            old(self).inv(),
            page.wf(),
            frame.wf(),
            page.size == frame.size,
            flags.wf(),
            !flags.spec_contains(PageTableFlags { bits: 0x80 }),
        ensures
            final(self).inv(),
            view_ok(final(self).tview()),
            map_to_post(old(self).tview(), final(self).tview(), r, page, frame, flags),
            forall|s2: PageSize, va2: u64| #[trigger]
                leaf_mapped(old(self).tview(), s2, va2) ==> leaf_search(
                    final(self).tview(),
                    s2,
                    va2,
                ) == leaf_search(old(self).tview(), s2, va2),
    ;

    /// Removes the mapping of `page` and returns the frame it mapped — the
    /// frame is not freed, ownership reverts to the caller — together with
    /// the flush token. Performs no allocation; on any failure the tree is
    /// unchanged.
    fn unmap(&mut self, page: Page) -> (r: Result<(Frame, MapperFlush), UnmapError>)
        requires
            old(self).inv(),
            page.wf(),
        ensures
            final(self).inv(),
            view_ok(final(self).tview()),
            ({
                let v0 = old(self).tview();
                let v1 = final(self).tview();
                match unmap_at(v0, page.size, page.addr@) {
                    Ok(f) => r == Ok::<(Frame, MapperFlush), UnmapError>((f, MapperFlush(page)))
                        && v1 == leaf_written(v0, page.size, page.addr@, 0),
                    Err(e) => r == Err::<(Frame, MapperFlush), UnmapError>(e) && v1 == v0,
                }
            }),
    ;

    /// Re-encodes the flags of the existing terminal entry for `page`,
    /// preserving its frame address; for the huge size classes the huge-page
    /// bit is kept set. Fails, changing nothing, if no terminal entry of
    /// exactly this size class is present.
    fn update_flags(&mut self, page: Page, flags: PageTableFlags) -> (r: Result<
        MapperFlush,
        FlagUpdateError,
    >)
        requires
            old(self).inv(),
            page.wf(),
            flags.wf(),
        ensures
            final(self).inv(),
            view_ok(final(self).tview()),
            ({
                let v0 = old(self).tview();
                let v1 = final(self).tview();
                match update_flags_at(v0, page.size, page.addr@) {
                    Ok(u) => r == Ok::<MapperFlush, FlagUpdateError>(MapperFlush(page)) && v1
                        == leaf_written(
                        v0,
                        page.size,
                        page.addr@,
                        refreshed_bits(leaf_entry_of(v0, page.size, page.addr@), flags, page.size),
                    ),
                    Err(e) => r == Err::<MapperFlush, FlagUpdateError>(e) && v1 == v0,
                }
            }),
    ;

    /// The frame that `page` maps to, by a read-only walk: never allocates
    /// and never changes the tree.
    fn translate_page(&mut self, page: Page) -> (r: Result<Frame, TranslateError>)
        requires
            old(self).inv(),
            page.wf(),
        ensures
            final(self).inv(),
            final(self).tview() == old(self).tview(),
            r == translate_page_at(old(self).tview(), page.size, page.addr@),
    ;

    /// Maps `frame` at the page whose virtual address is numerically equal
    /// to the frame's physical address; meaningful only where that number is
    /// canonical, which the caller guarantees.
    fn identity_map<A: FrameAllocator>(
        &mut self,
        frame: Frame,
        flags: PageTableFlags,
        allocator: &mut A,
    ) -> (r: Result<MapperFlush, MapToError>)
        requires
            old(self).inv(),
            frame.wf(),
            is_canonical(frame.addr@),
            flags.wf(),
            !flags.spec_contains(PageTableFlags { bits: 0x80 }),
        ensures
            final(self).inv(),
            view_ok(final(self).tview()),
            map_to_post(
                old(self).tview(),
                final(self).tview(),
                r,
                Page { addr: VirtAddr(frame.addr@), size: frame.size },
                frame,
                flags,
            ),
            forall|s2: PageSize, va2: u64| #[trigger]
                leaf_mapped(old(self).tview(), s2, va2) ==> leaf_search(
                    final(self).tview(),
                    s2,
                    va2,
                ) == leaf_search(old(self).tview(), s2, va2),
    ;
}

/// Size-class-agnostic translation over a tree that supports every size
/// class: tries the levels top-down and returns the first matching
/// translation tagged with its size class and in-frame offset.
pub trait MapAllSize: Mapper {
    /// Translates one virtual address, reporting the mapping frame, its size
    /// class and the offset inside it, or a structured failure.
    fn translate(&self, addr: VirtAddr) -> (r: TranslationResult)
        requires
            self.inv(),
        ensures
            r == translate_at(self.tview(), addr@),
    ;

    /// The physical address that `addr` maps to, or `None` where no present
    /// mapping of any size class covers it.
    fn translate_addr(&self, addr: VirtAddr) -> (r: Option<PhysAddr>)
        requires
            self.inv(),
        ensures
            r == match translate_at(self.tview(), addr@) {
                TranslationResult::Frame4KB { frame, offset } => Some(
                    PhysAddr((frame.addr@ + offset) as u64),
                ),
                TranslationResult::Frame2MB { frame, offset } => Some(
                    PhysAddr((frame.addr@ + offset) as u64),
                ),
                TranslationResult::Frame1GB { frame, offset } => Some(
                    PhysAddr((frame.addr@ + offset) as u64),
                ),
                TranslationResult::PageNotMapped => None::<PhysAddr>,
                TranslationResult::InvalidFrameAddress(a) => None::<PhysAddr>,
            },
    ;
}

impl PageTableTree {
    /// Reads a reached terminal cell as a translation result.
    fn decode_translate(e: u64, s: PageSize) -> (r: Result<Frame, TranslateError>)
        ensures
            r == found_translate(e, s),
    {
        let four_kb = s == PageSize::Size4KB;
        if e & 0x1 != 0x1 {
            return Err(TranslateError::PageNotMapped);
        }
        if four_kb && e & 0x80 == 0x80 {
            return Err(TranslateError::ParentEntryHugePage);
        }
        if !four_kb && e & 0x80 != 0x80 {
            return Err(TranslateError::PageNotMapped);
        }
        let b = s.size();
        let a = e & crate::page_flags::ADDR_BITS;
        proof {
            lemma_size_pow2(s);
            crate::addr::lemma_masked_is_multiple(a, b);
            crate::page_table::lemma_entry_fields(e);
        }
        if a & (b - 1) != 0 {
            return Err(TranslateError::InvalidFrameAddress(PhysAddr::new(a)));
        }
        Ok(Frame::from_start_address(PhysAddr::new(a), s))
    }

    /// Reads a reached terminal cell as an unmap result.
    fn decode_unmap(e: u64, s: PageSize) -> (r: Result<Frame, UnmapError>)
        ensures
            r == found_unmap(e, s),
    {
        let four_kb = s == PageSize::Size4KB;
        if e & 0x1 != 0x1 {
            return Err(UnmapError::PageNotMapped);
        }
        if (four_kb && e & 0x80 == 0x80) || (!four_kb && e & 0x80 != 0x80) {
            return Err(UnmapError::ParentEntryHugePage);
        }
        let b = s.size();
        let a = e & crate::page_flags::ADDR_BITS;
        proof {
            lemma_size_pow2(s);
            crate::addr::lemma_masked_is_multiple(a, b);
            crate::page_table::lemma_entry_fields(e);
        }
        if a & (b - 1) != 0 {
            return Err(UnmapError::InvalidFrameAddress(PhysAddr::new(a)));
        }
        Ok(Frame::from_start_address(PhysAddr::new(a), s))
    }

    /// Walks to the terminal cell for (`page.size`, `page.addr`) and returns
    /// the arena position and entry index of that cell, or the walk
    /// obstruction. Read-only.
    fn find_terminal(&self, page: Page) -> (r: Result<(usize, usize), ChildErr>)
        requires
            self.wf(),
        ensures
            ({
                let v = self.tree_view();
                let s = page.size;
                let va = page.addr@;
                match r {
                    Ok((ti, ci)) => {
                        let key = if s is Size1GB {
                            l3_key(v, va)
                        } else if s is Size2MB {
                            l2_key(v, va)
                        } else {
                            l1_key(v, va)
                        };
                        let cell = if s is Size1GB {
                            index3_of_addr(va)
                        } else if s is Size2MB {
                            index2_of_addr(va)
                        } else {
                            index1_of_addr(va)
                        };
                        &&& ci as u64 == cell
                        &&& ci < 512
                        &&& match s {
                            PageSize::Size1GB => {
                                &&& (ti as int) < self.l3.tables@.len()
                                &&& self.l3.addrs@[ti as int] == key
                                &&& v.l3.contains_key(key)
                                &&& leaf_search(v, s, va) == (LeafSearch::Found {
                                    entry: v.l3[key][ci as int],
                                })
                            },
                            PageSize::Size2MB => {
                                &&& (ti as int) < self.l2.tables@.len()
                                &&& self.l2.addrs@[ti as int] == key
                                &&& v.l2.contains_key(key)
                                &&& leaf_search(v, s, va) == (LeafSearch::Found {
                                    entry: v.l2[key][ci as int],
                                })
                            },
                            PageSize::Size4KB => {
                                &&& (ti as int) < self.l1.tables@.len()
                                &&& self.l1.addrs@[ti as int] == key
                                &&& v.l1.contains_key(key)
                                &&& leaf_search(v, s, va) == (LeafSearch::Found {
                                    entry: v.l1[key][ci as int],
                                })
                            },
                        }
                    },
                    Err(ChildErr::Missing) => leaf_search(v, s, va) == LeafSearch::MissingParent,
                    Err(ChildErr::Huge) => leaf_search(v, s, va) == LeafSearch::HugeParent,
                }
            }),
    {
        let va = page.start_address();
        let s = page.size();
        let i4 = va.page4_index().as_usize();
        let i3 = va.page3_index().as_usize();
        let t3 = match self.child_of_root(i4) {
            Ok(t) => t,
            Err(e) => {
                return Err(e);
            },
        };
        proof {
            lemma_amap_index(self.l3.addrs@, self.l3.tables@, t3 as int);
        }
        if s == PageSize::Size1GB {
            return Ok((t3, i3));
        }
        let i2 = va.page2_index().as_usize();
        let t2 = match self.child_of_l3(t3, i3) {
            Ok(t) => t,
            Err(e) => {
                return Err(e);
            },
        };
        proof {
            lemma_amap_index(self.l2.addrs@, self.l2.tables@, t2 as int);
        }
        if s == PageSize::Size2MB {
            return Ok((t2, i2));
        }
        let i1 = va.page1_index().as_usize();
        let t1 = match self.child_of_l2(t2, i2) {
            Ok(t) => t,
            Err(e) => {
                return Err(e);
            },
        };
        proof {
            lemma_amap_index(self.l1.addrs@, self.l1.tables@, t1 as int);
        }
        Ok((t1, i1))
    }
}

} // verus!

verus! {

/// Writing a reached terminal cell preserves the sanity of the view,
/// provided a present value written at the huge levels carries the huge bit
/// (so it is never mistaken for a table pointer).
proof fn lemma_view_ok_after_leaf_write(v: TreeView, s: PageSize, va: u64, e: u64)
    requires
        view_ok(v),
        leaf_search(v, s, va) is Found,
        !(s is Size4KB) ==> (entry_present(e) ==> entry_huge(e)),
    ensures
        view_ok(leaf_written(v, s, va, e)),
{
    lemma_indices_bounded(va);
    let v1 = leaf_written(v, s, va, e);
    if s is Size1GB {
        let k = l3_key(v, va);
        let ci = index3_of_addr(va) as int;
        assert(v.l3.contains_key(k));
        assert(v1.l3.dom() =~= v.l3.dom());
        assert forall|k2: u64| #[trigger] v1.l3.contains_key(k2) implies v1.l3[k2].len()
            == 512 by {
            assert(v.l3.contains_key(k2));
            if k2 != k {
                assert(v1.l3[k2] == v.l3[k2]);
            }
        }
        assert forall|i: int|
            0 <= i < 512 && entry_present(#[trigger] v1.root[i]) && !entry_huge(v1.root[i])
                implies v1.l3.contains_key(entry_addr(v1.root[i])) by {
            assert(v.l3.contains_key(entry_addr(v.root[i])));
        }
        assert forall|k2: u64, i: int|
            v1.l3.contains_key(k2) && 0 <= i < 512 && entry_present(#[trigger] v1.l3[k2][i])
                && !entry_huge(v1.l3[k2][i]) implies v1.l2.contains_key(
            entry_addr(v1.l3[k2][i]),
        ) by {
            if k2 == k && i == ci {
                assert(false);
            } else if k2 == k {
                assert(v1.l3[k2][i] == v.l3[k2][i]);
            } else {
                assert(v1.l3[k2] == v.l3[k2]);
            }
        }
    } else if s is Size2MB {
        let k = l2_key(v, va);
        let ci = index2_of_addr(va) as int;
        assert(v.l2.contains_key(k));
        assert(v1.l2.dom() =~= v.l2.dom());
        assert forall|k2: u64| #[trigger] v1.l2.contains_key(k2) implies v1.l2[k2].len()
            == 512 by {
            assert(v.l2.contains_key(k2));
            if k2 != k {
                assert(v1.l2[k2] == v.l2[k2]);
            }
        }
        assert forall|k2: u64, i: int|
            v1.l3.contains_key(k2) && 0 <= i < 512 && entry_present(#[trigger] v1.l3[k2][i])
                && !entry_huge(v1.l3[k2][i]) implies v1.l2.contains_key(
            entry_addr(v1.l3[k2][i]),
        ) by {
            assert(v.l2.contains_key(entry_addr(v.l3[k2][i])));
        }
        assert forall|k2: u64, i: int|
            v1.l2.contains_key(k2) && 0 <= i < 512 && entry_present(#[trigger] v1.l2[k2][i])
                && !entry_huge(v1.l2[k2][i]) implies v1.l1.contains_key(
            entry_addr(v1.l2[k2][i]),
        ) by {
            if k2 == k && i == ci {
                assert(false);
            } else if k2 == k {
                assert(v1.l2[k2][i] == v.l2[k2][i]);
            } else {
                assert(v1.l2[k2] == v.l2[k2]);
            }
        }
    } else {
        let k = l1_key(v, va);
        assert(v.l1.contains_key(k));
        assert(v1.l1.dom() =~= v.l1.dom());
        assert forall|k2: u64| #[trigger] v1.l1.contains_key(k2) implies v1.l1[k2].len()
            == 512 by {
            assert(v.l1.contains_key(k2));
            if k2 != k {
                assert(v1.l1[k2] == v.l1[k2]);
            }
        }
        assert forall|k2: u64, i: int|
            v1.l2.contains_key(k2) && 0 <= i < 512 && entry_present(#[trigger] v1.l2[k2][i])
                && !entry_huge(v1.l2[k2][i]) implies v1.l1.contains_key(
            entry_addr(v1.l2[k2][i]),
        ) by {
            assert(v.l1.contains_key(entry_addr(v.l2[k2][i])));
        }
    }
}

impl PageTableTree {
    /// Follows the root entry at `i4` to its level-3 table, allocating and
    /// installing a fresh zeroed one when the entry is absent. The frame the
    /// allocator hands out is validated here: it must be of the smallest
    /// size class, page-aligned, inside the physical range and not already
    /// backing a table of this tree; otherwise the attempt counts as an
    /// allocation failure.
    fn child_of_root_create<A: FrameAllocator>(&mut self, i4: usize, allocator: &mut A) -> (r:
        Result<usize, MapToError>)
        requires
            old(self).wf(),
            i4 < 512,
        ensures
            final(self).wf(),
            ({
                let v0 = old(self).tree_view();
                let v1 = final(self).tree_view();
                let e0 = v0.root[i4 as int];
                match r {
                    Ok(ti) => {
                        let e1 = v1.root[i4 as int];
                        &&& entry_present(e1)
                        &&& !entry_huge(e1)
                        &&& (ti as int) < final(self).l3.tables@.len()
                        &&& final(self).l3.addrs@[ti as int] == entry_addr(e1)
                        &&& v1.l3.contains_key(entry_addr(e1))
                        &&& if entry_present(e0) {
                            &&& !entry_huge(e0)
                            &&& *final(self) == *old(self)
                        } else {
                            &&& v1.root == v0.root.update(i4 as int, e1)
                            &&& !v0.l3.contains_key(entry_addr(e1))
                            &&& v1.l3 == v0.l3.insert(entry_addr(e1), zero_table())
                            &&& v1.l3[entry_addr(e1)] == zero_table()
                            &&& v1.l2 == v0.l2
                            &&& v1.l1 == v0.l1
                        }
                    },
                    Err(MapToError::ParentEntryHugePage) => *final(self) == *old(self)
                        && entry_present(e0) && entry_huge(e0),
                    Err(MapToError::FrameAllocationFailed) => *final(self) == *old(self)
                        && !entry_present(e0),
                    Err(_) => false,
                }
            }),
    {
        let e = self.root.entry(i4).entry;
        if e & 0x1 == 0x1 {
            if e & 0x80 == 0x80 {
                return Err(MapToError::ParentEntryHugePage);
            }
            match self.l3.find(e & crate::page_flags::ADDR_BITS) {
                Some(ti) => Ok(ti),
                None => {
                    proof {
                        assert(false);
                    }
                    Err(MapToError::FrameAllocationFailed)
                },
            }
        } else {
            let f = match allocator.allocate_frame() {
                Some(f) => f,
                None => {
                    return Err(MapToError::FrameAllocationFailed);
                },
            };
            if !(f.size() == PageSize::Size4KB) {
                return Err(MapToError::FrameAllocationFailed);
            }
            let fa = f.start_address().as_u64();
            if fa & 0xFFF != 0 || fa >> 52 != 0 {
                return Err(MapToError::FrameAllocationFailed);
            }
            if self.l3.find(fa).is_some() || self.l2.find(fa).is_some() || self.l1.find(
                fa,
            ).is_some() {
                return Err(MapToError::FrameAllocationFailed);
            }
            let t = PageTable::new();
            proof {
                assert(t@ =~= zero_table());
            }
            let ti = self.l3.push_table(fa, t);
            self.root.set_entry(i4, PageTableEntry { entry: fa | 0x3 });
            proof {
                lemma_link_entry(fa);
                lemma_zero_entry();
                let v0 = old(self).tree_view();
                let v1 = self.tree_view();
                assert(v1.root == v0.root.update(i4 as int, fa | 0x3));
                assert(v1.l3 == v0.l3.insert(fa, zero_table()));
                assert(v1.l2 == v0.l2);
                assert(v1.l1 == v0.l1);
                assert forall|k2: u64| #[trigger] v1.l2.contains_key(k2) implies v1.l2[k2].len()
                    == 512 by {
                    assert(v0.l2.contains_key(k2));
                }
                assert forall|k2: u64| #[trigger] v1.l1.contains_key(k2) implies v1.l1[k2].len()
                    == 512 by {
                    assert(v0.l1.contains_key(k2));
                }
                assert forall|k2: u64, i: int|
                    v1.l2.contains_key(k2) && 0 <= i < 512 && entry_present(
                        #[trigger] v1.l2[k2][i],
                    ) && !entry_huge(v1.l2[k2][i]) implies v1.l1.contains_key(
                    entry_addr(v1.l2[k2][i]),
                ) by {
                    assert(v0.l2.contains_key(k2));
                    assert(v0.l1.contains_key(entry_addr(v0.l2[k2][i])));
                }
                assert forall|k2: u64| #[trigger] v1.l3.contains_key(k2) implies v1.l3[k2].len()
                    == 512 by {
                    if k2 != fa {
                        assert(v0.l3.contains_key(k2));
                    }
                }
                assert forall|i: int|
                    0 <= i < 512 && entry_present(#[trigger] v1.root[i]) && !entry_huge(
                        v1.root[i],
                    ) implies v1.l3.contains_key(entry_addr(v1.root[i])) by {
                    if i != i4 {
                        assert(v1.root[i] == v0.root[i]);
                        assert(v0.l3.contains_key(entry_addr(v0.root[i])));
                    }
                }
                assert forall|k2: u64, i: int|
                    v1.l3.contains_key(k2) && 0 <= i < 512 && entry_present(
                        #[trigger] v1.l3[k2][i],
                    ) && !entry_huge(v1.l3[k2][i]) implies v1.l2.contains_key(
                    entry_addr(v1.l3[k2][i]),
                ) by {
                    if k2 == fa {
                        assert(v1.l3[k2][i] == 0);
                        assert(false);
                    } else {
                        assert(v1.l3[k2] == v0.l3[k2]);
                    }
                }
            }
            Ok(ti)
        }
    }

    /// Follows entry `i3` of the level-3 table at position `ti` to its
    /// level-2 table, allocating and installing a fresh zeroed one when the
    /// entry is absent; allocator frames are validated as in the root step.
    fn child_of_l3_create<A: FrameAllocator>(
        &mut self,
        ti: usize,
        i3: usize,
        allocator: &mut A,
    ) -> (r: Result<usize, MapToError>)
        requires
            old(self).wf(),
            (ti as int) < old(self).l3.tables@.len(),
            i3 < 512,
        ensures
            final(self).wf(),
            final(self).l3.addrs@ == old(self).l3.addrs@,
            ({
                let v0 = old(self).tree_view();
                let v1 = final(self).tree_view();
                let k = old(self).l3.addrs@[ti as int];
                let e0 = v0.l3[k][i3 as int];
                match r {
                    Ok(tj) => {
                        let e1 = v1.l3[k][i3 as int];
                        &&& entry_present(e1)
                        &&& !entry_huge(e1)
                        &&& (tj as int) < final(self).l2.tables@.len()
                        &&& final(self).l2.addrs@[tj as int] == entry_addr(e1)
                        &&& v1.l2.contains_key(entry_addr(e1))
                        &&& if entry_present(e0) {
                            &&& !entry_huge(e0)
                            &&& *final(self) == *old(self)
                        } else {
                            &&& v1.root == v0.root
                            &&& v1.l3 == v0.l3.insert(k, v0.l3[k].update(i3 as int, e1))
                            &&& !v0.l2.contains_key(entry_addr(e1))
                            &&& v1.l2 == v0.l2.insert(entry_addr(e1), zero_table())
                            &&& v1.l2[entry_addr(e1)] == zero_table()
                            &&& v1.l1 == v0.l1
                        }
                    },
                    Err(MapToError::ParentEntryHugePage) => *final(self) == *old(self)
                        && entry_present(e0) && entry_huge(e0),
                    Err(MapToError::FrameAllocationFailed) => *final(self) == *old(self)
                        && !entry_present(e0),
                    Err(_) => false,
                }
            }),
    {
        let e = self.l3.entry_of(ti, i3);
        proof {
            lemma_amap_index(self.l3.addrs@, self.l3.tables@, ti as int);
        }
        if e & 0x1 == 0x1 {
            if e & 0x80 == 0x80 {
                return Err(MapToError::ParentEntryHugePage);
            }
            match self.l2.find(e & crate::page_flags::ADDR_BITS) {
                Some(tj) => Ok(tj),
                None => {
                    proof {
                        let v = self.tree_view();
                        let k = self.l3.addrs@[ti as int];
                        assert(v.l3.contains_key(k));
                        assert(entry_present(v.l3[k][i3 as int]));
                        assert(!entry_huge(v.l3[k][i3 as int]));
                        assert(v.l2.contains_key(entry_addr(v.l3[k][i3 as int])));
                        assert(false);
                    }
                    Err(MapToError::FrameAllocationFailed)
                },
            }
        } else {
            let f = match allocator.allocate_frame() {
                Some(f) => f,
                None => {
                    return Err(MapToError::FrameAllocationFailed);
                },
            };
            if !(f.size() == PageSize::Size4KB) {
                return Err(MapToError::FrameAllocationFailed);
            }
            let fa = f.start_address().as_u64();
            if fa & 0xFFF != 0 || fa >> 52 != 0 {
                return Err(MapToError::FrameAllocationFailed);
            }
            if self.l3.find(fa).is_some() || self.l2.find(fa).is_some() || self.l1.find(
                fa,
            ).is_some() {
                return Err(MapToError::FrameAllocationFailed);
            }
            let t = PageTable::new();
            proof {
                assert(t@ =~= zero_table());
            }
            let tj = self.l2.push_table(fa, t);
            self.l3.set_entry(ti, i3, fa | 0x3);
            proof {
                lemma_link_entry(fa);
                lemma_zero_entry();
                let v0 = old(self).tree_view();
                let v1 = self.tree_view();
                let k = old(self).l3.addrs@[ti as int];
                lemma_amap_index(old(self).l3.addrs@, old(self).l3.tables@, ti as int);
                assert(v1.l3 == v0.l3.insert(k, v0.l3[k].update(i3 as int, fa | 0x3)));
                assert(v1.l2 == v0.l2.insert(fa, zero_table()));
                assert(v1.root == v0.root);
                assert(v1.l1 == v0.l1);
                assert(v1.l3.dom() =~= v0.l3.dom());
                assert forall|k2: u64| #[trigger] v1.l1.contains_key(k2) implies v1.l1[k2].len()
                    == 512 by {
                    assert(v0.l1.contains_key(k2));
                }
                assert forall|k2: u64| #[trigger] v1.l3.contains_key(k2) implies v1.l3[k2].len()
                    == 512 by {
                    assert(v0.l3.contains_key(k2));
                    if k2 != k {
                        assert(v1.l3[k2] == v0.l3[k2]);
                    }
                }
                assert forall|k2: u64| #[trigger] v1.l2.contains_key(k2) implies v1.l2[k2].len()
                    == 512 by {
                    if k2 != fa {
                        assert(v0.l2.contains_key(k2));
                    }
                }
                assert forall|i: int|
                    0 <= i < 512 && entry_present(#[trigger] v1.root[i]) && !entry_huge(
                        v1.root[i],
                    ) implies v1.l3.contains_key(entry_addr(v1.root[i])) by {
                    assert(v0.l3.contains_key(entry_addr(v0.root[i])));
                }
                assert forall|k2: u64, i: int|
                    v1.l3.contains_key(k2) && 0 <= i < 512 && entry_present(
                        #[trigger] v1.l3[k2][i],
                    ) && !entry_huge(v1.l3[k2][i]) implies v1.l2.contains_key(
                    entry_addr(v1.l3[k2][i]),
                ) by {
                    if k2 == k && i == i3 {
                        assert(entry_addr(v1.l3[k2][i]) == fa);
                    } else {
                        if k2 == k {
                            assert(v1.l3[k2][i] == v0.l3[k2][i]);
                        } else {
                            assert(v1.l3[k2] == v0.l3[k2]);
                        }
                        assert(v0.l2.contains_key(entry_addr(v0.l3[k2][i])));
                    }
                }
                assert forall|k2: u64, i: int|
                    v1.l2.contains_key(k2) && 0 <= i < 512 && entry_present(
                        #[trigger] v1.l2[k2][i],
                    ) && !entry_huge(v1.l2[k2][i]) implies v1.l1.contains_key(
                    entry_addr(v1.l2[k2][i]),
                ) by {
                    if k2 == fa {
                        assert(v1.l2[k2][i] == 0);
                        assert(false);
                    } else {
                        assert(v1.l2[k2] == v0.l2[k2]);
                        assert(v0.l1.contains_key(entry_addr(v0.l2[k2][i])));
                    }
                }
            }
            Ok(tj)
        }
    }

    /// Follows entry `i2` of the level-2 table at position `ti` to its
    /// level-1 table, allocating and installing a fresh zeroed one when the
    /// entry is absent; allocator frames are validated as in the root step.
    fn child_of_l2_create<A: FrameAllocator>(
        &mut self,
        ti: usize,
        i2: usize,
        allocator: &mut A,
    ) -> (r: Result<usize, MapToError>)
        requires
            old(self).wf(),
            (ti as int) < old(self).l2.tables@.len(),
            i2 < 512,
        ensures
            final(self).wf(),
            final(self).l2.addrs@ == old(self).l2.addrs@,
            ({
                let v0 = old(self).tree_view();
                let v1 = final(self).tree_view();
                let k = old(self).l2.addrs@[ti as int];
                let e0 = v0.l2[k][i2 as int];
                match r {
                    Ok(tj) => {
                        let e1 = v1.l2[k][i2 as int];
                        &&& entry_present(e1)
                        &&& !entry_huge(e1)
                        &&& (tj as int) < final(self).l1.tables@.len()
                        &&& final(self).l1.addrs@[tj as int] == entry_addr(e1)
                        &&& v1.l1.contains_key(entry_addr(e1))
                        &&& if entry_present(e0) {
                            &&& !entry_huge(e0)
                            &&& *final(self) == *old(self)
                        } else {
                            &&& v1.root == v0.root
                            &&& v1.l3 == v0.l3
                            &&& v1.l2 == v0.l2.insert(k, v0.l2[k].update(i2 as int, e1))
                            &&& !v0.l1.contains_key(entry_addr(e1))
                            &&& v1.l1 == v0.l1.insert(entry_addr(e1), zero_table())
                            &&& v1.l1[entry_addr(e1)] == zero_table()
                        }
                    },
                    Err(MapToError::ParentEntryHugePage) => *final(self) == *old(self)
                        && entry_present(e0) && entry_huge(e0),
                    Err(MapToError::FrameAllocationFailed) => *final(self) == *old(self)
                        && !entry_present(e0),
                    Err(_) => false,
                }
            }),
    {
        let e = self.l2.entry_of(ti, i2);
        proof {
            lemma_amap_index(self.l2.addrs@, self.l2.tables@, ti as int);
        }
        if e & 0x1 == 0x1 {
            if e & 0x80 == 0x80 {
                return Err(MapToError::ParentEntryHugePage);
            }
            match self.l1.find(e & crate::page_flags::ADDR_BITS) {
                Some(tj) => Ok(tj),
                None => {
                    proof {
                        let v = self.tree_view();
                        let k = self.l2.addrs@[ti as int];
                        assert(v.l2.contains_key(k));
                        assert(entry_present(v.l2[k][i2 as int]));
                        assert(!entry_huge(v.l2[k][i2 as int]));
                        assert(v.l1.contains_key(entry_addr(v.l2[k][i2 as int])));
                        assert(false);
                    }
                    Err(MapToError::FrameAllocationFailed)
                },
            }
        } else {
            let f = match allocator.allocate_frame() {
                Some(f) => f,
                None => {
                    return Err(MapToError::FrameAllocationFailed);
                },
            };
            if !(f.size() == PageSize::Size4KB) {
                return Err(MapToError::FrameAllocationFailed);
            }
            let fa = f.start_address().as_u64();
            if fa & 0xFFF != 0 || fa >> 52 != 0 {
                return Err(MapToError::FrameAllocationFailed);
            }
            if self.l3.find(fa).is_some() || self.l2.find(fa).is_some() || self.l1.find(
                fa,
            ).is_some() {
                return Err(MapToError::FrameAllocationFailed);
            }
            let t = PageTable::new();
            proof {
                assert(t@ =~= zero_table());
            }
            let tj = self.l1.push_table(fa, t);
            self.l2.set_entry(ti, i2, fa | 0x3);
            proof {
                lemma_link_entry(fa);
                lemma_zero_entry();
                let v0 = old(self).tree_view();
                let v1 = self.tree_view();
                let k = old(self).l2.addrs@[ti as int];
                lemma_amap_index(old(self).l2.addrs@, old(self).l2.tables@, ti as int);
                assert(v1.l2 == v0.l2.insert(k, v0.l2[k].update(i2 as int, fa | 0x3)));
                assert(v1.l1 == v0.l1.insert(fa, zero_table()));
                assert(v1.root == v0.root);
                assert(v1.l3 == v0.l3);
                assert(v1.l2.dom() =~= v0.l2.dom());
                assert forall|k2: u64| #[trigger] v1.l3.contains_key(k2) implies v1.l3[k2].len()
                    == 512 by {
                    assert(v0.l3.contains_key(k2));
                }
                assert forall|k2: u64| #[trigger] v1.l2.contains_key(k2) implies v1.l2[k2].len()
                    == 512 by {
                    assert(v0.l2.contains_key(k2));
                    if k2 != k {
                        assert(v1.l2[k2] == v0.l2[k2]);
                    }
                }
                assert forall|k2: u64| #[trigger] v1.l1.contains_key(k2) implies v1.l1[k2].len()
                    == 512 by {
                    if k2 != fa {
                        assert(v0.l1.contains_key(k2));
                    }
                }
                assert forall|i: int|
                    0 <= i < 512 && entry_present(#[trigger] v1.root[i]) && !entry_huge(
                        v1.root[i],
                    ) implies v1.l3.contains_key(entry_addr(v1.root[i])) by {
                    assert(v0.l3.contains_key(entry_addr(v0.root[i])));
                }
                assert forall|k2: u64, i: int|
                    v1.l3.contains_key(k2) && 0 <= i < 512 && entry_present(
                        #[trigger] v1.l3[k2][i],
                    ) && !entry_huge(v1.l3[k2][i]) implies v1.l2.contains_key(
                    entry_addr(v1.l3[k2][i]),
                ) by {
                    assert(v0.l2.contains_key(entry_addr(v0.l3[k2][i])));
                }
                assert forall|k2: u64, i: int|
                    v1.l2.contains_key(k2) && 0 <= i < 512 && entry_present(
                        #[trigger] v1.l2[k2][i],
                    ) && !entry_huge(v1.l2[k2][i]) implies v1.l1.contains_key(
                    entry_addr(v1.l2[k2][i]),
                ) by {
                    if k2 == k && i == i2 {
                        assert(entry_addr(v1.l2[k2][i]) == fa);
                    } else {
                        if k2 == k {
                            assert(v1.l2[k2][i] == v0.l2[k2][i]);
                        } else {
                            assert(v1.l2[k2] == v0.l2[k2]);
                        }
                        assert(v0.l1.contains_key(entry_addr(v0.l2[k2][i])));
                    }
                }
            }
            Ok(tj)
        }
    }
}

} // verus!

verus! {

impl Mapper for PageTableTree {
    open spec fn inv(&self) -> bool {
        self.wf()
    }

    open spec fn tview(&self) -> TreeView {
        self.tree_view()
    }

    fn map_to<A: FrameAllocator>(
        &mut self,
        page: Page,
        frame: Frame,
        flags: PageTableFlags,
        allocator: &mut A,
    ) -> (r: Result<MapperFlush, MapToError>) {
        let va = page.start_address();
        let s = page.size();
        let i4 = va.page4_index().as_usize();
        let i3 = va.page3_index().as_usize();
        let ghost v0 = self.tree_view();
        let fa = frame.start_address().as_u64();
        proof {
            lemma_indices_bounded(va@);
            lemma_size_pow2(s);
            crate::addr::lemma_masked_is_multiple(fa, s.bytes());
            lemma_size_aligned_page_aligned(fa, s.bytes());
            lemma_install_fields(fa, flags.bits);
        }
        let t3 = match self.child_of_root_create(i4, allocator) {
            Ok(t) => t,
            Err(e) => {
                return Err(e);
            },
        };
        let ghost v1 = self.tree_view();
        let ghost k3 = self.l3.addrs@[t3 as int];
        proof {
            if !entry_present(v0.root[i4 as int]) {
                lemma_root_create_preserves(v0, v1, i4 as int, v1.root[i4 as int]);
            }
            assert forall|s2: PageSize, va2: u64| #[trigger]
                leaf_mapped(v0, s2, va2) implies leaf_search(v1, s2, va2) == leaf_search(
                v0,
                s2,
                va2,
            ) by {}
        }
        if s == PageSize::Size1GB {
            let e0 = self.l3.entry_of(t3, i3);
            proof {
                lemma_amap_index(self.l3.addrs@, self.l3.tables@, t3 as int);
                assert(leaf_search(v1, s, va@) == (LeafSearch::Found { entry: e0 }));
                if !entry_present(v0.root[i4 as int]) {
                    assert(v1.l3[k3] == zero_table());
                    assert(e0 == 0);
                    lemma_zero_entry();
                    assert(leaf_search(v0, s, va@) is MissingParent);
                } else {
                    assert(v1 == v0);
                }
            }
            if e0 & 0x1 == 0x1 {
                let a = e0 & crate::page_flags::ADDR_BITS;
                proof {
                    crate::page_table::lemma_entry_fields(e0);
                }
                return Err(
                    MapToError::PageAlreadyMapped(
                        Frame::include_address(PhysAddr::new(a), PageSize::Size1GB),
                    ),
                );
            }
            let bits = fa | flags.bits() | 0x80;
            proof {
                lemma_view_ok_after_leaf_write(v1, s, va@, bits);
                lemma_leaf_install_preserves(v1, s, va@, bits);
            }
            self.l3.set_entry(t3, i3, bits);
            proof {
                let v2 = self.tree_view();
                assert(v2 =~= leaf_written(v1, s, va@, bits));
                assert(leaf_search(v2, s, va@) == (LeafSearch::Found { entry: bits }));
                assert(bits == install_bits(frame, flags, s));
                lemma_chain_preserved(v0, v1, v2);
            }
            return Ok(MapperFlush::new(page));
        }
        let i2 = va.page2_index().as_usize();
        let t2 = match self.child_of_l3_create(t3, i3, allocator) {
            Ok(t) => t,
            Err(e) => {
                proof {
                    let vf = self.tree_view();
                    if !entry_present(v0.root[i4 as int]) {
                        lemma_zero_entry();
                        assert(v1.l3[k3] == zero_table());
                        assert(leaf_search(v0, s, va@) is MissingParent);
                        assert(e is FrameAllocationFailed);
                        assert(vf == v1);
                        assert(leaf_search(vf, s, va@) is MissingParent);
                    } else {
                        assert(v1 == v0);
                        let e3 = v1.l3[k3][i3 as int];
                        if entry_present(e3) {
                            assert(leaf_search(v0, s, va@) is HugeParent);
                        } else {
                            assert(leaf_search(v0, s, va@) is MissingParent);
                        }
                    }
                }
                return Err(e);
            },
        };
        let ghost v2 = self.tree_view();
        let ghost k2 = self.l2.addrs@[t2 as int];
        proof {
            if !entry_present(v1.l3[k3][i3 as int]) {
                lemma_l3_create_preserves(v1, v2, k3, i3 as int, v2.l3[k3][i3 as int]);
            }
            assert forall|s2: PageSize, va2: u64| #[trigger]
                leaf_mapped(v1, s2, va2) implies leaf_search(v2, s2, va2) == leaf_search(
                v1,
                s2,
                va2,
            ) by {}
            lemma_chain_preserved(v0, v1, v2);
            assert(v2.root == v1.root);
            assert(k3 == l3_key(v2, va@));
            if !entry_present(v0.root[i4 as int]) {
                lemma_zero_entry();
                assert(v1.l3[k3] == zero_table());
                assert(leaf_search(v0, s, va@) is MissingParent);
            } else {
                assert(v1 == v0);
            }
        }
        if s == PageSize::Size2MB {
            let e0 = self.l2.entry_of(t2, i2);
            proof {
                lemma_amap_index(self.l2.addrs@, self.l2.tables@, t2 as int);
                assert(leaf_search(v2, s, va@) == (LeafSearch::Found { entry: e0 }));
                if !entry_present(v1.l3[k3][i3 as int]) {
                    assert(v2.l2[k2] == zero_table());
                    assert(e0 == 0);
                    lemma_zero_entry();
                } else {
                    assert(v2 == v1);
                }
            }
            if e0 & 0x1 == 0x1 {
                proof {
                    assert(v2 == v1 && v1 == v0);
                    assert(leaf_search(v0, s, va@) == (LeafSearch::Found { entry: e0 }));
                }
                let a = e0 & crate::page_flags::ADDR_BITS;
                proof {
                    crate::page_table::lemma_entry_fields(e0);
                }
                return Err(
                    MapToError::PageAlreadyMapped(
                        Frame::include_address(PhysAddr::new(a), PageSize::Size2MB),
                    ),
                );
            }
            let bits = fa | flags.bits() | 0x80;
            proof {
                lemma_view_ok_after_leaf_write(v2, s, va@, bits);
                lemma_leaf_install_preserves(v2, s, va@, bits);
            }
            self.l2.set_entry(t2, i2, bits);
            proof {
                let v3 = self.tree_view();
                assert(v3 =~= leaf_written(v2, s, va@, bits));
                assert(leaf_search(v3, s, va@) == (LeafSearch::Found { entry: bits }));
                assert(bits == install_bits(frame, flags, s));
                lemma_chain_preserved(v0, v2, v3);
            }
            return Ok(MapperFlush::new(page));
        }
        let i1 = va.page1_index().as_usize();
        let t1 = match self.child_of_l2_create(t2, i2, allocator) {
            Ok(t) => t,
            Err(e) => {
                proof {
                    let vf = self.tree_view();
                    assert(vf == v2);
                    let e3 = v1.l3[k3][i3 as int];
                    if !entry_present(v0.root[i4 as int]) {
                        lemma_zero_entry();
                        assert(leaf_search(vf, s, va@) is MissingParent);
                        assert(e is FrameAllocationFailed);
                    } else if !entry_present(e3) {
                        lemma_zero_entry();
                        assert(v2.l2[k2] == zero_table());
                        assert(leaf_search(vf, s, va@) is MissingParent);
                        assert(e is FrameAllocationFailed);
                    } else {
                        assert(v2 == v0);
                        let e2 = v2.l2[k2][i2 as int];
                        if entry_present(e2) {
                            assert(leaf_search(v0, s, va@) is HugeParent);
                        } else {
                            assert(leaf_search(v0, s, va@) is MissingParent);
                        }
                    }
                }
                return Err(e);
            },
        };
        let ghost v3 = self.tree_view();
        let ghost k1 = self.l1.addrs@[t1 as int];
        proof {
            if !entry_present(v2.l2[k2][i2 as int]) {
                lemma_l2_create_preserves(v2, v3, k2, i2 as int, v3.l2[k2][i2 as int]);
            }
            assert forall|s2: PageSize, va2: u64| #[trigger]
                leaf_mapped(v2, s2, va2) implies leaf_search(v3, s2, va2) == leaf_search(
                v2,
                s2,
                va2,
            ) by {}
            lemma_chain_preserved(v0, v2, v3);
            assert(v3.root == v1.root);
            assert(v3.l3 == v2.l3);
            assert(k3 == l3_key(v3, va@));
            assert(k2 == l2_key(v3, va@));
            assert(k1 == l1_key(v3, va@));
        }
        let e0 = self.l1.entry_of(t1, i1);
        proof {
            lemma_amap_index(self.l1.addrs@, self.l1.tables@, t1 as int);
            assert(leaf_search(v3, s, va@) == (LeafSearch::Found { entry: e0 }));
            lemma_zero_entry();
            if !entry_present(v2.l2[k2][i2 as int]) {
                assert(v3.l1[k1] == zero_table());
                assert(e0 == 0);
            } else {
                assert(v3 == v2);
            }
            if !entry_present(v0.root[i4 as int]) {
                assert(v1.l3[k3] == zero_table());
            } else if !entry_present(v1.l3[k3][i3 as int]) {
                assert(v2.l2[k2] == zero_table());
            }
        }
        if e0 & 0x1 == 0x1 {
            proof {
                assert(v3 == v2 && v2 == v1 && v1 == v0);
                assert(leaf_search(v0, s, va@) == (LeafSearch::Found { entry: e0 }));
            }
            let a = e0 & crate::page_flags::ADDR_BITS;
            proof {
                crate::page_table::lemma_entry_fields(e0);
            }
            return Err(
                MapToError::PageAlreadyMapped(
                    Frame::include_address(PhysAddr::new(a), PageSize::Size4KB),
                ),
            );
        }
        let bits = fa | flags.bits();
        proof {
            lemma_view_ok_after_leaf_write(v3, s, va@, bits);
            lemma_leaf_install_preserves(v3, s, va@, bits);
        }
        self.l1.set_entry(t1, i1, bits);
        proof {
            let v4 = self.tree_view();
            assert(v4 =~= leaf_written(v3, s, va@, bits));
            assert(leaf_search(v4, s, va@) == (LeafSearch::Found { entry: bits }));
            assert(bits == install_bits(frame, flags, s));
            lemma_chain_preserved(v0, v3, v4);
        }
        Ok(MapperFlush::new(page))
    }

    fn unmap(&mut self, page: Page) -> (r: Result<(Frame, MapperFlush), UnmapError>) {
        let s = page.size();
        let (ti, ci) = match self.find_terminal(page) {
            Err(ChildErr::Missing) => {
                return Err(UnmapError::PageNotMapped);
            },
            Err(ChildErr::Huge) => {
                return Err(UnmapError::ParentEntryHugePage);
            },
            Ok(p) => p,
        };
        let e = match s {
            PageSize::Size1GB => self.l3.entry_of(ti, ci),
            PageSize::Size2MB => self.l2.entry_of(ti, ci),
            PageSize::Size4KB => self.l1.entry_of(ti, ci),
        };
        let frame = match Self::decode_unmap(e, s) {
            Ok(f) => f,
            Err(er) => {
                return Err(er);
            },
        };
        let ghost v0 = self.tree_view();
        proof {
            lemma_zero_entry();
            lemma_view_ok_after_leaf_write(v0, s, page.addr@, 0);
        }
        match s {
            PageSize::Size1GB => self.l3.set_entry(ti, ci, 0),
            PageSize::Size2MB => self.l2.set_entry(ti, ci, 0),
            PageSize::Size4KB => self.l1.set_entry(ti, ci, 0),
        }
        proof {
            assert(self.tree_view() =~= leaf_written(v0, s, page.addr@, 0));
        }
        Ok((frame, MapperFlush::new(page)))
    }

    fn update_flags(&mut self, page: Page, flags: PageTableFlags) -> (r: Result<
        MapperFlush,
        FlagUpdateError,
    >) {
        let s = page.size();
        let four_kb = s == PageSize::Size4KB;
        let (ti, ci) = match self.find_terminal(page) {
            Err(e) => {
                return Err(FlagUpdateError::PageNotMapped);
            },
            Ok(p) => p,
        };
        let e = match s {
            PageSize::Size1GB => self.l3.entry_of(ti, ci),
            PageSize::Size2MB => self.l2.entry_of(ti, ci),
            PageSize::Size4KB => self.l1.entry_of(ti, ci),
        };
        if e & 0x1 != 0x1 {
            return Err(FlagUpdateError::PageNotMapped);
        }
        if four_kb && e & 0x80 == 0x80 {
            return Err(FlagUpdateError::PageNotMapped);
        }
        if !four_kb && e & 0x80 != 0x80 {
            return Err(FlagUpdateError::PageNotMapped);
        }
        let a = e & crate::page_flags::ADDR_BITS;
        let nb = if four_kb {
            a | flags.bits()
        } else {
            a | flags.bits() | 0x80
        };
        let ghost v0 = self.tree_view();
        proof {
            crate::page_table::lemma_entry_fields(e);
            lemma_install_fields(entry_addr(e), flags.bits);
            lemma_view_ok_after_leaf_write(v0, s, page.addr@, nb);
            assert(nb == refreshed_bits(e, flags, s));
        }
        match s {
            PageSize::Size1GB => self.l3.set_entry(ti, ci, nb),
            PageSize::Size2MB => self.l2.set_entry(ti, ci, nb),
            PageSize::Size4KB => self.l1.set_entry(ti, ci, nb),
        }
        proof {
            assert(self.tree_view() =~= leaf_written(v0, s, page.addr@, nb));
        }
        Ok(MapperFlush::new(page))
    }

    fn translate_page(&mut self, page: Page) -> (r: Result<Frame, TranslateError>) {
        let s = page.size();
        match self.find_terminal(page) {
            Err(ChildErr::Missing) => Err(TranslateError::PageNotMapped),
            Err(ChildErr::Huge) => Err(TranslateError::ParentEntryHugePage),
            Ok((ti, ci)) => {
                let e = match s {
                    PageSize::Size1GB => self.l3.entry_of(ti, ci),
                    PageSize::Size2MB => self.l2.entry_of(ti, ci),
                    PageSize::Size4KB => self.l1.entry_of(ti, ci),
                };
                Self::decode_translate(e, s)
            },
        }
    }

    fn identity_map<A: FrameAllocator>(
        &mut self,
        frame: Frame,
        flags: PageTableFlags,
        allocator: &mut A,
    ) -> (r: Result<MapperFlush, MapToError>) {
        let va = VirtAddr::new(frame.start_address().as_u64());
        let page = Page::from_start_address(va, frame.size());
        self.map_to(page, frame, flags, allocator)
    }
}

} // verus!

verus! {

/// Adding an in-frame offset to a valid frame base aligned to the offset's
/// window keeps the sum within the physical range.
proof fn lemma_offset_fits(a: u64, va: u64, m: u64)
    by (bit_vector)
    requires
        m == 0xFFF || m == 0x1F_FFFF || m == 0x3FFF_FFFF,
        a >> 52 == 0,
        a & m == 0,
    ensures
        (va & m) <= m,
        a + (va & m) <= 0xFFFF_FFFF_FFFF_FFFF,
        ((a + (va & m)) as u64) >> 52 == 0,
{
}

/// The frame and offset of every successful agnostic translation sum to a
/// valid physical address.
proof fn lemma_translate_fits(v: TreeView, va: u64)
    ensures
        match translate_at(v, va) {
            TranslationResult::Frame4KB { frame, offset } => offset == (va & 0xFFF) && frame.addr@
                + offset <= u64::MAX && crate::addr::is_valid_phys((frame.addr@ + offset) as u64),
            TranslationResult::Frame2MB { frame, offset } => offset == (va & 0x1F_FFFF)
                && frame.addr@ + offset <= u64::MAX && crate::addr::is_valid_phys(
                (frame.addr@ + offset) as u64,
            ),
            TranslationResult::Frame1GB { frame, offset } => offset == (va & 0x3FFF_FFFF)
                && frame.addr@ + offset <= u64::MAX && crate::addr::is_valid_phys(
                (frame.addr@ + offset) as u64,
            ),
            _ => true,
        },
{
    let e4 = v.root[index4_of_addr(va) as int];
    if entry_present(e4) && !entry_huge(e4) && v.l3.contains_key(entry_addr(e4)) {
        let e3 = v.l3[entry_addr(e4)][index3_of_addr(va) as int];
        if entry_present(e3) {
            if entry_huge(e3) {
                let a = entry_addr(e3);
                crate::page_table::lemma_entry_fields(e3);
                if a as int % 0x4000_0000int == 0 {
                    lemma_size_pow2(PageSize::Size1GB);
                    crate::addr::lemma_masked_is_multiple(a, 0x4000_0000);
                    lemma_offset_fits(a, va, 0x3FFF_FFFF);
                }
            } else if v.l2.contains_key(entry_addr(e3)) {
                let e2 = v.l2[entry_addr(e3)][index2_of_addr(va) as int];
                if entry_present(e2) {
                    if entry_huge(e2) {
                        let a = entry_addr(e2);
                        crate::page_table::lemma_entry_fields(e2);
                        if a as int % 0x20_0000int == 0 {
                            lemma_size_pow2(PageSize::Size2MB);
                            crate::addr::lemma_masked_is_multiple(a, 0x20_0000);
                            lemma_offset_fits(a, va, 0x1F_FFFF);
                        }
                    } else if v.l1.contains_key(entry_addr(e2)) {
                        let e1 = v.l1[entry_addr(e2)][index1_of_addr(va) as int];
                        if entry_present(e1) {
                            let a = entry_addr(e1);
                            crate::page_table::lemma_entry_fields(e1);
                            lemma_offset_fits(a, va, 0xFFF);
                        }
                    }
                }
            }
        }
    }
}

impl MapAllSize for PageTableTree {
    fn translate(&self, addr: VirtAddr) -> (r: TranslationResult) {
        let va = addr.as_u64();
        let i4 = addr.page4_index().as_usize();
        let i3 = addr.page3_index().as_usize();
        let t3 = match self.child_of_root(i4) {
            Err(ChildErr::Missing) => {
                return TranslationResult::PageNotMapped;
            },
            Err(ChildErr::Huge) => {
                let e4 = self.root.entry(i4).entry;
                proof {
                    crate::page_table::lemma_entry_fields(e4);
                }
                return TranslationResult::InvalidFrameAddress(
                    PhysAddr::new(e4 & crate::page_flags::ADDR_BITS),
                );
            },
            Ok(t) => t,
        };
        proof {
            lemma_amap_index(self.l3.addrs@, self.l3.tables@, t3 as int);
        }
        let t2 = match self.child_of_l3(t3, i3) {
            Err(ChildErr::Missing) => {
                return TranslationResult::PageNotMapped;
            },
            Err(ChildErr::Huge) => {
                let e3 = self.l3.entry_of(t3, i3);
                let a = e3 & crate::page_flags::ADDR_BITS;
                proof {
                    crate::page_table::lemma_entry_fields(e3);
                    lemma_size_pow2(PageSize::Size1GB);
                    crate::addr::lemma_masked_is_multiple(a, 0x4000_0000);
                }
                if a & 0x3FFF_FFFF != 0 {
                    return TranslationResult::InvalidFrameAddress(PhysAddr::new(a));
                }
                return TranslationResult::Frame1GB {
                    frame: Frame::from_start_address(PhysAddr::new(a), PageSize::Size1GB),
                    offset: va & 0x3FFF_FFFF,
                };
            },
            Ok(t) => t,
        };
        let i2 = addr.page2_index().as_usize();
        proof {
            lemma_amap_index(self.l2.addrs@, self.l2.tables@, t2 as int);
        }
        let t1 = match self.child_of_l2(t2, i2) {
            Err(ChildErr::Missing) => {
                return TranslationResult::PageNotMapped;
            },
            Err(ChildErr::Huge) => {
                let e2 = self.l2.entry_of(t2, i2);
                let a = e2 & crate::page_flags::ADDR_BITS;
                proof {
                    crate::page_table::lemma_entry_fields(e2);
                    lemma_size_pow2(PageSize::Size2MB);
                    crate::addr::lemma_masked_is_multiple(a, 0x20_0000);
                }
                if a & 0x1F_FFFF != 0 {
                    return TranslationResult::InvalidFrameAddress(PhysAddr::new(a));
                }
                return TranslationResult::Frame2MB {
                    frame: Frame::from_start_address(PhysAddr::new(a), PageSize::Size2MB),
                    offset: va & 0x1F_FFFF,
                };
            },
            Ok(t) => t,
        };
        let i1 = addr.page1_index().as_usize();
        proof {
            lemma_amap_index(self.l1.addrs@, self.l1.tables@, t1 as int);
        }
        let e1 = self.l1.entry_of(t1, i1);
        if e1 & 0x1 != 0x1 {
            return TranslationResult::PageNotMapped;
        }
        let a = e1 & crate::page_flags::ADDR_BITS;
        proof {
            crate::page_table::lemma_entry_fields(e1);
            lemma_size_pow2(PageSize::Size4KB);
            crate::addr::lemma_masked_is_multiple(a, 0x1000);
        }
        TranslationResult::Frame4KB {
            frame: Frame::from_start_address(PhysAddr::new(a), PageSize::Size4KB),
            offset: va & 0xFFF,
        }
    }

    fn translate_addr(&self, addr: VirtAddr) -> (r: Option<PhysAddr>) {
        proof {
            lemma_translate_fits(self.tree_view(), addr@);
        }
        match self.translate(addr) {
            TranslationResult::Frame4KB { frame, offset } => Some(
                PhysAddr::new(frame.start_address().as_u64() + offset),
            ),
            TranslationResult::Frame2MB { frame, offset } => Some(
                PhysAddr::new(frame.start_address().as_u64() + offset),
            ),
            TranslationResult::Frame1GB { frame, offset } => Some(
                PhysAddr::new(frame.start_address().as_u64() + offset),
            ),
            TranslationResult::PageNotMapped => None,
            TranslationResult::InvalidFrameAddress(a) => None,
        }
    }
}

} // verus!

verus! {

/// Law: after a mapping of `page` to `frame` with `flags` is installed —
/// the walk for the page ends at exactly the entry that `map_to` writes —
/// translating that page returns `frame`, the page counts as mapped, and the
/// flag field of the terminal entry, with the automatically set huge-page
/// bit discounted, is exactly the requested flag set.
pub proof fn lemma_map_then_translate(v: TreeView, page: Page, frame: Frame, flags: PageTableFlags)
    requires
        page.wf(),
        frame.wf(),
        page.size == frame.size,
        flags.wf(),
        !flags.spec_contains(PageTableFlags { bits: 0x80 }),
        flags.spec_contains(PageTableFlags { bits: 0x1 }),
        leaf_search(v, page.size, page.addr@) == (LeafSearch::Found {
            entry: install_bits(frame, flags, page.size),
        }),
    ensures
        translate_page_at(v, page.size, page.addr@) == Ok::<Frame, TranslateError>(frame),
        leaf_mapped(v, page.size, page.addr@),
        entry_flag_bits(leaf_entry_of(v, page.size, page.addr@)) & !(0x80u64) == flags.bits,
{
    let s = page.size;
    let fa = frame.addr@;
    let b = flags.bits;
    lemma_size_pow2(s);
    crate::addr::lemma_masked_is_multiple(fa, s.bytes());
    lemma_size_aligned_page_aligned(fa, s.bytes());
    lemma_install_fields(fa, b);
    assert(b & 0x80 != 0x80 ==> (b & !(0x80u64) == b && (b | 0x80) & !(0x80u64) == b))
        by (bit_vector);
    assert(entry_addr(install_bits(frame, flags, s)) as int % s.bytes() as int == 0);
    assert(frame == (Frame { addr: PhysAddr(fa), size: s }));
}

} // verus!

verus! {

/// Walks that end at a present terminal entry never read the root cell that
/// a root-level create writes (it was absent) nor the fresh level-3 table it
/// installs, so they are unchanged by it.
proof fn lemma_root_create_preserves(v0: TreeView, v1: TreeView, i4w: int, e1: u64)
    requires
        view_ok(v0),
        0 <= i4w < 512,
        !entry_present(v0.root[i4w]),
        v1.root == v0.root.update(i4w, e1),
        !v0.l3.contains_key(entry_addr(e1)),
        v1.l3 == v0.l3.insert(entry_addr(e1), zero_table()),
        v1.l2 == v0.l2,
        v1.l1 == v0.l1,
    ensures
        forall|s2: PageSize, va2: u64| #[trigger]
            leaf_mapped(v0, s2, va2) ==> leaf_search(v1, s2, va2) == leaf_search(v0, s2, va2),
{
    assert forall|s2: PageSize, va2: u64| #[trigger]
        leaf_mapped(v0, s2, va2) implies leaf_search(v1, s2, va2) == leaf_search(
        v0,
        s2,
        va2,
    ) by {
        lemma_indices_bounded(va2);
        let j4 = index4_of_addr(va2) as int;
        let e4 = v0.root[j4];
        assert(j4 != i4w);
        assert(v1.root[j4] == e4);
        if entry_present(e4) && !entry_huge(e4) {
            assert(v0.l3.contains_key(entry_addr(e4)));
            assert(entry_addr(e4) != entry_addr(e1));
            assert(v1.l3.contains_key(entry_addr(e4)));
            assert(v1.l3[entry_addr(e4)] == v0.l3[entry_addr(e4)]);
        }
    }
}

/// Walks that end at a present terminal entry never read the absent level-3
/// cell that a level-3 create writes nor the fresh level-2 table it
/// installs.
proof fn lemma_l3_create_preserves(v0: TreeView, v1: TreeView, k3: u64, i3w: int, e1: u64)
    requires
        view_ok(v0),
        0 <= i3w < 512,
        v0.l3.contains_key(k3),
        !entry_present(v0.l3[k3][i3w]),
        v1.root == v0.root,
        v1.l3 == v0.l3.insert(k3, v0.l3[k3].update(i3w, e1)),
        !v0.l2.contains_key(entry_addr(e1)),
        v1.l2 == v0.l2.insert(entry_addr(e1), zero_table()),
        v1.l1 == v0.l1,
    ensures
        forall|s2: PageSize, va2: u64| #[trigger]
            leaf_mapped(v0, s2, va2) ==> leaf_search(v1, s2, va2) == leaf_search(v0, s2, va2),
{
    assert forall|s2: PageSize, va2: u64| #[trigger]
        leaf_mapped(v0, s2, va2) implies leaf_search(v1, s2, va2) == leaf_search(
        v0,
        s2,
        va2,
    ) by {
        lemma_indices_bounded(va2);
        let j4 = index4_of_addr(va2) as int;
        let j3 = index3_of_addr(va2) as int;
        let e4 = v0.root[j4];
        if entry_present(e4) && !entry_huge(e4) && v0.l3.contains_key(entry_addr(e4)) {
            let k4 = entry_addr(e4);
            assert(v1.l3.contains_key(k4));
            if k4 == k3 {
                assert(v1.l3[k4] == v0.l3[k3].update(i3w, e1));
                assert(j3 != i3w);
                assert(v1.l3[k4][j3] == v0.l3[k4][j3]);
            } else {
                assert(v1.l3[k4] == v0.l3[k4]);
            }
            let e3 = v0.l3[k4][j3];
            if !(s2 is Size1GB) && entry_present(e3) && !entry_huge(e3) && v0.l2.contains_key(
                entry_addr(e3),
            ) {
                assert(entry_addr(e3) != entry_addr(e1));
                assert(v1.l2.contains_key(entry_addr(e3)));
                assert(v1.l2[entry_addr(e3)] == v0.l2[entry_addr(e3)]);
            }
        }
    }
}

/// Walks that end at a present terminal entry never read the absent level-2
/// cell that a level-2 create writes nor the fresh level-1 table it
/// installs.
proof fn lemma_l2_create_preserves(v0: TreeView, v1: TreeView, k2: u64, i2w: int, e1: u64)
    requires
        view_ok(v0),
        0 <= i2w < 512,
        v0.l2.contains_key(k2),
        !entry_present(v0.l2[k2][i2w]),
        v1.root == v0.root,
        v1.l3 == v0.l3,
        v1.l2 == v0.l2.insert(k2, v0.l2[k2].update(i2w, e1)),
        !v0.l1.contains_key(entry_addr(e1)),
        v1.l1 == v0.l1.insert(entry_addr(e1), zero_table()),
    ensures
        forall|s2: PageSize, va2: u64| #[trigger]
            leaf_mapped(v0, s2, va2) ==> leaf_search(v1, s2, va2) == leaf_search(v0, s2, va2),
{
    assert forall|s2: PageSize, va2: u64| #[trigger]
        leaf_mapped(v0, s2, va2) implies leaf_search(v1, s2, va2) == leaf_search(
        v0,
        s2,
        va2,
    ) by {
        lemma_indices_bounded(va2);
        let j4 = index4_of_addr(va2) as int;
        let j3 = index3_of_addr(va2) as int;
        let j2 = index2_of_addr(va2) as int;
        let e4 = v0.root[j4];
        if entry_present(e4) && !entry_huge(e4) && v0.l3.contains_key(entry_addr(e4)) {
            let e3 = v0.l3[entry_addr(e4)][j3];
            if !(s2 is Size1GB) && entry_present(e3) && !entry_huge(e3) && v0.l2.contains_key(
                entry_addr(e3),
            ) {
                let k3 = entry_addr(e3);
                assert(v1.l2.contains_key(k3));
                if k3 == k2 {
                    assert(v1.l2[k3] == v0.l2[k2].update(i2w, e1));
                    assert(j2 != i2w);
                    assert(v1.l2[k3][j2] == v0.l2[k3][j2]);
                } else {
                    assert(v1.l2[k3] == v0.l2[k3]);
                }
                let e2 = v0.l2[k3][j2];
                if (s2 is Size4KB) && entry_present(e2) && !entry_huge(e2) && v0.l1.contains_key(
                    entry_addr(e2),
                ) {
                    assert(entry_addr(e2) != entry_addr(e1));
                    assert(v1.l1.contains_key(entry_addr(e2)));
                    assert(v1.l1[entry_addr(e2)] == v0.l1[entry_addr(e2)]);
                }
            }
        }
    }
}

/// Writing a reached terminal cell that is not present is invisible to every
/// walk that ends at a present terminal entry: such a walk only reads
/// present cells.
proof fn lemma_leaf_install_preserves(v0: TreeView, s: PageSize, va: u64, bits: u64)
    requires
        view_ok(v0),
        leaf_search(v0, s, va) is Found,
        !entry_present(leaf_entry_of(v0, s, va)),
    ensures
        forall|s2: PageSize, va2: u64| #[trigger]
            leaf_mapped(v0, s2, va2) ==> leaf_search(leaf_written(v0, s, va, bits), s2, va2)
                == leaf_search(v0, s2, va2),
{
    lemma_indices_bounded(va);
    let v1 = leaf_written(v0, s, va, bits);
    assert forall|s2: PageSize, va2: u64| #[trigger]
        leaf_mapped(v0, s2, va2) implies leaf_search(v1, s2, va2) == leaf_search(
        v0,
        s2,
        va2,
    ) by {
        lemma_indices_bounded(va2);
        let j4 = index4_of_addr(va2) as int;
        let j3 = index3_of_addr(va2) as int;
        let j2 = index2_of_addr(va2) as int;
        let j1 = index1_of_addr(va2) as int;
        let e4 = v0.root[j4];
        if entry_present(e4) && !entry_huge(e4) && v0.l3.contains_key(entry_addr(e4)) {
            let k4 = entry_addr(e4);
            if s is Size1GB {
                let kw = l3_key(v0, va);
                let iw = index3_of_addr(va) as int;
                assert(v1.l3.contains_key(k4));
                if k4 == kw {
                    if j3 == iw {
                        assert(!entry_present(v0.l3[k4][j3]));
                    } else {
                        assert(v1.l3[k4][j3] == v0.l3[k4][j3]);
                    }
                } else {
                    assert(v1.l3[k4] == v0.l3[k4]);
                }
            } else if s is Size2MB {
                let kw = l2_key(v0, va);
                let iw = index2_of_addr(va) as int;
                let e3 = v0.l3[k4][j3];
                if !(s2 is Size1GB) && entry_present(e3) && !entry_huge(e3) && v0.l2.contains_key(
                    entry_addr(e3),
                ) {
                    let k3 = entry_addr(e3);
                    assert(v1.l2.contains_key(k3));
                    if k3 == kw {
                        if j2 == iw {
                            assert(!entry_present(v0.l2[k3][j2]));
                        } else {
                            assert(v1.l2[k3][j2] == v0.l2[k3][j2]);
                        }
                    } else {
                        assert(v1.l2[k3] == v0.l2[k3]);
                    }
                }
            } else {
                let kw = l1_key(v0, va);
                let iw = index1_of_addr(va) as int;
                let e3 = v0.l3[k4][j3];
                if !(s2 is Size1GB) && entry_present(e3) && !entry_huge(e3) && v0.l2.contains_key(
                    entry_addr(e3),
                ) {
                    let e2 = v0.l2[entry_addr(e3)][j2];
                    if (s2 is Size4KB) && entry_present(e2) && !entry_huge(e2)
                        && v0.l1.contains_key(entry_addr(e2)) {
                        let k2 = entry_addr(e2);
                        assert(v1.l1.contains_key(k2));
                        if k2 == kw {
                            if j1 == iw {
                                assert(!entry_present(v0.l1[k2][j1]));
                            } else {
                                assert(v1.l1[k2][j1] == v0.l1[k2][j1]);
                            }
                        } else {
                            assert(v1.l1[k2] == v0.l1[k2]);
                        }
                    }
                }
            }
        }
    }
}

/// Chains two preservation steps.
proof fn lemma_chain_preserved(v0: TreeView, va: TreeView, vb: TreeView)
    requires
        forall|s2: PageSize, va2: u64| #[trigger]
            leaf_mapped(v0, s2, va2) ==> leaf_search(va, s2, va2) == leaf_search(v0, s2, va2),
        forall|s2: PageSize, va2: u64| #[trigger]
            leaf_mapped(va, s2, va2) ==> leaf_search(vb, s2, va2) == leaf_search(va, s2, va2),
    ensures
        forall|s2: PageSize, va2: u64| #[trigger]
            leaf_mapped(v0, s2, va2) ==> leaf_search(vb, s2, va2) == leaf_search(v0, s2, va2),
{
    assert forall|s2: PageSize, va2: u64| #[trigger]
        leaf_mapped(v0, s2, va2) implies leaf_search(vb, s2, va2) == leaf_search(
        v0,
        s2,
        va2,
    ) by {
        assert(leaf_search(va, s2, va2) == leaf_search(v0, s2, va2));
        assert(leaf_mapped(va, s2, va2));
    }
}

} // verus!

verus! {

/// Whether the walks for `va` and `va2` at size class `s` end at the same
/// terminal cell: the same table of the terminal level at the same index.
pub open spec fn same_terminal_cell(v: TreeView, s: PageSize, va: u64, va2: u64) -> bool {
    if s is Size1GB {
        l3_key(v, va2) == l3_key(v, va) && index3_of_addr(va2) == index3_of_addr(va)
    } else if s is Size2MB {
        l2_key(v, va2) == l2_key(v, va) && index2_of_addr(va2) == index2_of_addr(va)
    } else {
        l1_key(v, va2) == l1_key(v, va) && index1_of_addr(va2) == index1_of_addr(va)
    }
}

/// Law: writing the reached terminal cell of one page — what `unmap` and
/// `update_flags` do — changes the walk of no other mapped page. Any page
/// mapped at any size class whose walk does not end at that very cell finds
/// the same terminal entry afterwards. At the huge size classes this relies
/// on the written cell carrying a huge terminal entry, so that no finer walk
/// can have been threaded through it.
pub proof fn lemma_leaf_write_preserves_others(
    v: TreeView,
    s: PageSize,
    va: u64,
    e: u64,
    s2: PageSize,
    va2: u64,
)
    requires
        view_ok(v),
        leaf_search(v, s, va) is Found,
        !(s is Size4KB) ==> entry_huge(leaf_entry_of(v, s, va)),
        leaf_mapped(v, s2, va2),
        !(s2 == s && same_terminal_cell(v, s, va, va2)),
    ensures
        leaf_search(leaf_written(v, s, va, e), s2, va2) == leaf_search(v, s2, va2),
        leaf_mapped(leaf_written(v, s, va, e), s2, va2),
{
    lemma_indices_bounded(va);
    lemma_indices_bounded(va2);
    let v1 = leaf_written(v, s, va, e);
    let j4 = index4_of_addr(va2) as int;
    let j3 = index3_of_addr(va2) as int;
    let j2 = index2_of_addr(va2) as int;
    let j1 = index1_of_addr(va2) as int;
    let e4 = v.root[j4];
    if entry_present(e4) && !entry_huge(e4) && v.l3.contains_key(entry_addr(e4)) {
        let k4 = entry_addr(e4);
        if s is Size1GB {
            let kw = l3_key(v, va);
            let iw = index3_of_addr(va) as int;
            assert(v1.l3.contains_key(k4));
            if k4 == kw && j3 == iw {
                assert(entry_huge(v.l3[k4][j3]));
                assert(s2 is Size1GB ==> !same_terminal_cell(v, s, va, va2));
                assert(!(s2 is Size1GB) ==> leaf_search(v, s2, va2) is HugeParent);
                assert(false);
            } else if k4 == kw {
                assert(v1.l3[k4][j3] == v.l3[k4][j3]);
            } else {
                assert(v1.l3[k4] == v.l3[k4]);
            }
        } else if s is Size2MB {
            let kw = l2_key(v, va);
            let iw = index2_of_addr(va) as int;
            let e3 = v.l3[k4][j3];
            if !(s2 is Size1GB) && entry_present(e3) && !entry_huge(e3) && v.l2.contains_key(
                entry_addr(e3),
            ) {
                let k3 = entry_addr(e3);
                assert(v1.l2.contains_key(k3));
                if k3 == kw && j2 == iw {
                    assert(entry_huge(v.l2[k3][j2]));
                    assert(s2 is Size2MB ==> !same_terminal_cell(v, s, va, va2));
                    assert(s2 is Size4KB ==> leaf_search(v, s2, va2) is HugeParent);
                    assert(false);
                } else if k3 == kw {
                    assert(v1.l2[k3][j2] == v.l2[k3][j2]);
                } else {
                    assert(v1.l2[k3] == v.l2[k3]);
                }
            }
        } else {
            let kw = l1_key(v, va);
            let iw = index1_of_addr(va) as int;
            let e3 = v.l3[k4][j3];
            if !(s2 is Size1GB) && entry_present(e3) && !entry_huge(e3) && v.l2.contains_key(
                entry_addr(e3),
            ) {
                let e2 = v.l2[entry_addr(e3)][j2];
                if (s2 is Size4KB) && entry_present(e2) && !entry_huge(e2) && v.l1.contains_key(
                    entry_addr(e2),
                ) {
                    let k2 = entry_addr(e2);
                    assert(v1.l1.contains_key(k2));
                    if k2 == kw && j1 == iw {
                        assert(!same_terminal_cell(v, s, va, va2));
                        assert(false);
                    } else if k2 == kw {
                        assert(v1.l1[k2][j1] == v.l1[k2][j1]);
                    } else {
                        assert(v1.l1[k2] == v.l1[k2]);
                    }
                }
            }
        }
    }
}

} // verus!
