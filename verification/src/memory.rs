//! Firmware memory-map records: typed address ranges, an explicitly owned,
//! caller-constructed collection of them, and a cursor that walks the areas
//! of one type.

use vstd::prelude::*;

verus! {

/// The kind of a firmware memory area.
#[derive(Copy, Clone, Debug, Eq, PartialEq, Structural)]
pub enum MemoryType {
    /// No area.
    EmptyArea,
    /// Usable memory.
    FreeArea,
    /// Memory already in use.
    UsedArea,
    /// Reserved by the platform.
    ReservedArea,
    /// Advanced-configuration tables.
    ACPIArea,
    /// Advanced-configuration reserved memory.
    ACPIReservedArea,
    /// Preserved across hibernation.
    ReservedHibernate,
    /// Known-bad memory.
    Defective,
    /// Firmware runtime code.
    UefiRunTimeCode,
    /// Firmware runtime data.
    UefiRunTimeData,
    /// Memory-mapped device registers.
    MMIO,
    /// Memory-mapped port space.
    MMIOPortArea,
    /// A record the firmware reported in error.
    ErrorArea,
}

impl Default for MemoryType {
    /// The default kind is the empty area.
    fn default() -> (r: MemoryType)
        ensures
            r == MemoryType::EmptyArea,
    {
        MemoryType::EmptyArea
    }
}

/// One memory-map area: a typed address range with its recorded length.
#[derive(Copy, Clone, Debug, PartialEq, Eq, Structural)]
pub struct MemoryArea {
    /// The first address of the area.
    pub start_addr: u64,
    /// The first address after the area.
    pub end_addr: u64,
    /// The recorded byte length.
    pub length: u64,
    /// The kind of the area.
    pub ty: MemoryType,
}

impl Default for MemoryArea {
    /// The default area is empty and zero-sized.
    fn default() -> (r: MemoryArea)
        ensures
            r == (MemoryArea { start_addr: 0, end_addr: 0, length: 0, ty: MemoryType::EmptyArea }),
    {
        MemoryArea { start_addr: 0, end_addr: 0, length: 0, ty: MemoryType::EmptyArea }
    }
}

impl MemoryArea {
    /// Builds an area record from its bounds, kind and length.
    pub fn new(start_addr: u64, end_addr: u64, ty: MemoryType, len: u64) -> (r: MemoryArea)
        ensures
            r == (MemoryArea { start_addr, end_addr, length: len, ty }),
    {
        MemoryArea { start_addr, end_addr, ty, length: len }
    }

    /// The recorded byte length.
    pub fn size(&self) -> (r: u64)
        ensures
            r == self.length,
    {
        self.length
    }

    /// The first address of the area.
    pub fn start_address(&self) -> (r: u64)
        ensures
            r == self.start_addr,
    {
        self.start_addr
    }
}

/// An explicitly owned memory map: the areas in the order they were added.
pub struct MemorySpace {
    pub(crate) space: Vec<MemoryArea>,
}

impl View for MemorySpace {
    type V = Seq<MemoryArea>;

    closed spec fn view(&self) -> Seq<MemoryArea> {
        self.space@
    }
}

impl MemorySpace {
    /// An empty memory map.
    pub fn new() -> (r: MemorySpace)
        ensures
            r@ == Seq::<MemoryArea>::empty(),
    {
        MemorySpace { space: Vec::new() }
    }

    /// The areas, in insertion order.
    pub fn iter(&self) -> (r: &Vec<MemoryArea>)
        ensures
            r@ == self@,
    {
        &self.space
    }

    /// Appends one area built from its bounds, kind and length.
    pub fn add_area(&mut self, start_addr: u64, end_addr: u64, ty: MemoryType, len: u64)
        ensures
            final(self)@ == old(self)@.push(
                MemoryArea { start_addr, end_addr, length: len, ty },
            ),
    {
        self.space.push(MemoryArea::new(start_addr, end_addr, ty, len));
    }
}

/// A cursor over the areas of one kind within a memory map.
#[derive(Clone, Debug, PartialEq, Eq, Structural)]
pub struct MemoryAreaIter {
    /// The kind this cursor selects.
    pub ty: MemoryType,
    /// The position of the next record to inspect.
    pub index: usize,
}

impl MemoryAreaIter {
    /// A cursor for the given kind, starting before the first record.
    pub fn new(ty: MemoryType) -> (r: MemoryAreaIter)
        ensures
            r == (MemoryAreaIter { ty, index: 0 }),
    {
        MemoryAreaIter { ty, index: 0 }
    }

    /// The next area of the cursor's kind at or after its position, walking
    /// the given memory map; `None` once no further record matches, with the
    /// cursor then standing at the end.
    pub fn next_area(&mut self, space: &MemorySpace) -> (r: Option<MemoryArea>)
        ensures
            match r {
                Some(a) => {
                    &&& old(self).index <= final(self).index - 1 < space@.len()
                    &&& a == space@[final(self).index - 1]
                    &&& a.ty == old(self).ty
                    &&& forall|j: int|
                        old(self).index <= j < final(self).index - 1 ==> (#[trigger] space@[j]).ty
                            != old(self).ty
                },
                None => {
                    &&& final(self).index == space@.len() || old(self).index > space@.len()
                    &&& forall|j: int|
                        old(self).index <= j < space@.len() ==> (#[trigger] space@[j]).ty
                            != old(self).ty
                },
            },
            final(self).ty == old(self).ty,
    {
        let n = space.space.len();
        while self.index < n
            invariant
                n == space@.len(),
                old(self).index <= self.index,
                old(self).index <= n ==> self.index <= n,
                old(self).index > n ==> self.index == old(self).index,
                self.ty == old(self).ty,
                forall|j: int|
                    old(self).index <= j < self.index ==> (#[trigger] space@[j]).ty != self.ty,
            decreases n - self.index,
        {
            let entry = space.space[self.index];
            self.index = self.index + 1;
            if entry.ty == self.ty {
                return Some(entry);
            }
        }
        None
    }
}

} // verus!
