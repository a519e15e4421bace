use vstd::prelude::*;
use x86_64::structures::paging::PageTableFlags;
use x86_64::VirtAddr;

verus! {

/// The bits of a page-table entry that hold the physical address it points to.
pub const ENTRY_ADDR_MASK: u64 = 0x000f_ffff_ffff_f000;

/// Entry flag: the entry maps a frame or a next-level table.
pub const FLAG_PRESENT: u64 = 0x1;

/// Entry flag: the entry maps a huge frame rather than a next-level table.
pub const FLAG_HUGE_PAGE: u64 = 0x80;

/// An address in the canonical form the CPU accepts: bits 47..64 all equal.
pub open spec fn is_canonical(addr: u64) -> bool {
    addr >> 47u64 == 0 || addr >> 47u64 == 0x1ffff
}

/// The 9-bit index into the table of the given level (4 is the top) that translates `addr`.
pub open spec fn table_index(addr: u64, level: int) -> u16 {
    if level == 4 {
        ((addr >> 39u64) % 512) as u16
    } else if level == 3 {
        ((addr >> 30u64) % 512) as u16
    } else if level == 2 {
        ((addr >> 21u64) % 512) as u16
    } else {
        ((addr >> 12u64) % 512) as u16
    }
}

/// The offset of `addr` within its 4 KiB page.
pub open spec fn page_offset(addr: u64) -> u64 {
    addr % 4096
}

/// The physical address a page-table entry points to.
pub open spec fn entry_frame(entry: u64) -> u64 {
    entry & ENTRY_ADDR_MASK
}

/// Whether all bits of `flag` are set in `entry`.
pub open spec fn has_flag(entry: u64, flag: u64) -> bool {
    entry & flag == flag
}

/// `VirtAddr::p4_index` of x86_64: the level-4 table index of a canonical address,
/// bits 39..48 of it.
#[verifier::external_body]
fn p4_index(addr: u64) -> (r: u16)
    requires
        is_canonical(addr),
    ensures
        r == table_index(addr, 4),
{
    u16::from(VirtAddr::new(addr).p4_index())
}

/// `VirtAddr::p3_index` of x86_64: the level-3 table index, bits 30..39.
#[verifier::external_body]
fn p3_index(addr: u64) -> (r: u16)
    requires
        is_canonical(addr),
    ensures
        r == table_index(addr, 3),
{
    u16::from(VirtAddr::new(addr).p3_index())
}

/// `VirtAddr::p2_index` of x86_64: the level-2 table index, bits 21..30.
#[verifier::external_body]
fn p2_index(addr: u64) -> (r: u16)
    requires
        is_canonical(addr),
    ensures
        r == table_index(addr, 2),
{
    u16::from(VirtAddr::new(addr).p2_index())
}

/// `VirtAddr::p1_index` of x86_64: the level-1 table index, bits 12..21.
#[verifier::external_body]
fn p1_index(addr: u64) -> (r: u16)
    requires
        is_canonical(addr),
    ensures
        r == table_index(addr, 1),
{
    u16::from(VirtAddr::new(addr).p1_index())
}

/// `VirtAddr::page_offset` of x86_64: the low 12 bits of a canonical address.
#[verifier::external_body]
fn virt_page_offset(addr: u64) -> (r: u64)
    requires
        is_canonical(addr),
    ensures
        r == page_offset(addr),
{
    u64::from(VirtAddr::new(addr).page_offset())
}

/// `PageTableFlags::contains` of x86_64 (bitflags): whether every bit of `flag` is set in
/// the raw entry `entry`.
#[verifier::external_body]
fn flags_contain(entry: u64, flag: u64) -> (r: bool)
    ensures
        r == has_flag(entry, flag),
{
    PageTableFlags::from_bits_retain(entry).contains(PageTableFlags::from_bits_retain(flag))
}

/// An address translation in progress: the address being translated, the level of the
/// table to read next (4 is the top), and that table's physical address.
pub struct PageWalk {
    addr: u64,
    level: u8,
    table: u64,
}

/// What one read entry decides.
pub enum WalkStep {
    /// The entry points to the next-level table; read from it next.
    Next(PageWalk),
    /// The address translates to this physical address.
    Translated(u64),
    /// The entry is not present: the address is not mapped.
    NotPresent,
    /// The entry maps a huge frame, which this walk does not support.
    HugeFrame,
}

/// The outcome of a whole translation.
pub enum Translation {
    Mapped(u64),
    NotMapped,
    HugeFrame,
}

/// Translation of `addr`, starting at the table of `level` at physical address `table`,
/// where `mem(t, i)` is the entry at index `i` of the table at physical address `t`.
pub open spec fn walk_from(addr: u64, level: nat, table: u64, mem: spec_fn(u64, u16) -> u64) -> Translation
    decreases level,
{
    let entry = mem(table, table_index(addr, level as int));
    if !has_flag(entry, FLAG_PRESENT) {
        Translation::NotMapped
    } else if has_flag(entry, FLAG_HUGE_PAGE) {
        Translation::HugeFrame
    } else if level <= 1 {
        Translation::Mapped((entry_frame(entry) + page_offset(addr)) as u64)
    } else {
        walk_from(addr, (level - 1) as nat, entry_frame(entry), mem)
    }
}

/// Translation of `addr` through the four-level hierarchy whose top table is at `l4_table`.
pub open spec fn translate(addr: u64, l4_table: u64, mem: spec_fn(u64, u16) -> u64) -> Translation {
    walk_from(addr, 4, l4_table, mem)
}

impl PageWalk {
    #[verifier::type_invariant]
    spec fn inv(self) -> bool {
        &&& is_canonical(self.addr)
        &&& 1 <= self.level <= 4
    }

    /// The address being translated.
    pub closed spec fn address(self) -> u64 {
        self.addr
    }

    /// The level of the table read next.
    pub closed spec fn level(self) -> nat {
        self.level as nat
    }

    /// The physical address of the table read next.
    pub closed spec fn table_addr(self) -> u64 {
        self.table
    }

    /// What the walk decides from the entry it reads.
    pub open spec fn step_spec(self, entry: u64) -> WalkStep {
        if !has_flag(entry, FLAG_PRESENT) {
            WalkStep::NotPresent
        } else if has_flag(entry, FLAG_HUGE_PAGE) {
            WalkStep::HugeFrame
        } else if self.level() <= 1 {
            WalkStep::Translated((entry_frame(entry) + page_offset(self.address())) as u64)
        } else {
            WalkStep::Next(PageWalk::spec_walk(self.address(), (self.level() - 1) as u8, entry_frame(entry)))
        }
    }

    /// The walk with the given fields.
    pub closed spec fn spec_walk(addr: u64, level: u8, table: u64) -> PageWalk {
        PageWalk { addr, level, table }
    }

    /// The walk built by `spec_walk` has the given address, level and table.
    pub proof fn lemma_spec_walk_fields(addr: u64, level: u8, table: u64)
        ensures
            PageWalk::spec_walk(addr, level, table).address() == addr,
            PageWalk::spec_walk(addr, level, table).level() == level,
            PageWalk::spec_walk(addr, level, table).table_addr() == table,
    {
    }

    /// The walk that translates the canonical address `addr` through the hierarchy whose
    /// top table is at physical address `l4_table`.
    pub fn new(addr: u64, l4_table: u64) -> (r: PageWalk)
        requires
            is_canonical(addr),
        ensures
            r.address() == addr,
            r.level() == 4,
            r.table_addr() == l4_table,
    {
        PageWalk { addr, level: 4, table: l4_table }
    }

    /// The physical address of the table to read next.
    pub fn table(&self) -> (r: u64)
        ensures
            r == self.table_addr(),
    {
        self.table
    }

    /// The index of the entry to read next in that table.
    pub fn index(&self) -> (r: u16)
        ensures
            r == table_index(self.address(), self.level() as int),
            r < 512,
    {
        proof { use_type_invariant(self); }
        if self.level == 4 {
            p4_index(self.addr)
        } else if self.level == 3 {
            p3_index(self.addr)
        } else if self.level == 2 {
            p2_index(self.addr)
        } else {
            p1_index(self.addr)
        }
    }

    /// Decides on the entry read at `table()` / `index()`: a missing entry ends the walk
    /// unmapped, a huge-frame entry ends it unsupported, an entry of the level-1 table
    /// gives the frame plus the page offset, and any other entry leads one level down.
    pub fn step(self, entry: u64) -> (r: WalkStep)
        ensures
            r == self.step_spec(entry),
            r matches WalkStep::Translated(p) ==> p % 4096 == page_offset(self.address()) && p < 0x10_0000_0000_0000,
            r matches WalkStep::Next(next) ==> next.address() == self.address() && next.level() == self.level() - 1
                && next.table_addr() == entry_frame(entry),
    {
        proof { use_type_invariant(&self); }
        if !flags_contain(entry, FLAG_PRESENT) {
            WalkStep::NotPresent
        } else if flags_contain(entry, FLAG_HUGE_PAGE) {
            WalkStep::HugeFrame
        } else {
            let frame = entry & ENTRY_ADDR_MASK;
            assert(frame % 4096 == 0 && frame < 0x10_0000_0000_0000) by (bit_vector)
                requires
                    frame == entry & 0x000f_ffff_ffff_f000u64,
            ;
            if self.level <= 1 {
                let offset = virt_page_offset(self.addr);
                WalkStep::Translated(frame + offset)
            } else {
                WalkStep::Next(PageWalk { addr: self.addr, level: self.level - 1, table: frame })
            }
        }
    }
}

/// Reading each entry where the walk asks for it and following its steps gives the
/// translation: the walk's outcome from any state agrees with `walk_from` from that state.
pub proof fn lemma_step_follows_translation(w: PageWalk, mem: spec_fn(u64, u16) -> u64)
    requires
        1 <= w.level() <= 4,
    ensures
        ({
            let entry = mem(w.table_addr(), table_index(w.address(), w.level() as int));
            let expected = walk_from(w.address(), w.level(), w.table_addr(), mem);
            match w.step_spec(entry) {
                WalkStep::Next(next) => next.address() == w.address()
                    && next.level() == w.level() - 1
                    && walk_from(next.address(), next.level(), next.table_addr(), mem) == expected,
                WalkStep::Translated(p) => expected == Translation::Mapped(p),
                WalkStep::NotPresent => expected == Translation::NotMapped,
                WalkStep::HugeFrame => expected == Translation::HugeFrame,
            }
        }),
{
}

/// Two outcomes of translating addresses on one page agree: both unmapped, both huge
/// frames, or both mapped with the same distance between physical and page offset.
pub open spec fn same_page_outcomes(t1: Translation, off1: u64, t2: Translation, off2: u64) -> bool {
    match (t1, t2) {
        (Translation::Mapped(p1), Translation::Mapped(p2)) => p1 - off1 == p2 - off2,
        (Translation::NotMapped, Translation::NotMapped) => true,
        (Translation::HugeFrame, Translation::HugeFrame) => true,
        _ => false,
    }
}

proof fn lemma_same_page_indices(a1: u64, a2: u64, level: int)
    requires
        a1 >> 12u64 == a2 >> 12u64,
    ensures
        table_index(a1, level) == table_index(a2, level),
{
    assert(a1 >> 12u64 == a2 >> 12u64 ==> a1 >> 39u64 == a2 >> 39u64) by (bit_vector);
    assert(a1 >> 12u64 == a2 >> 12u64 ==> a1 >> 30u64 == a2 >> 30u64) by (bit_vector);
    assert(a1 >> 12u64 == a2 >> 12u64 ==> a1 >> 21u64 == a2 >> 21u64) by (bit_vector);
}

proof fn lemma_same_page_walk(a1: u64, a2: u64, level: nat, table: u64, mem: spec_fn(u64, u16) -> u64)
    requires
        a1 >> 12u64 == a2 >> 12u64,
    ensures
        same_page_outcomes(walk_from(a1, level, table, mem), page_offset(a1), walk_from(a2, level, table, mem), page_offset(a2)),
    decreases level,
{
    lemma_same_page_indices(a1, a2, level as int);
    let entry = mem(table, table_index(a1, level as int));
    let frame = entry_frame(entry);
    assert(entry & 0x000f_ffff_ffff_f000u64 < 0x10_0000_0000_0000u64) by (bit_vector);
    if level > 1 {
        lemma_same_page_walk(a1, a2, (level - 1) as nat, frame, mem);
    }
}

/// Addresses on one 4 KiB page translate alike: both unmapped, both into a huge frame,
/// or both mapped, each to its own page offset within one physical frame.
pub proof fn lemma_same_page_translation(a1: u64, a2: u64, l4_table: u64, mem: spec_fn(u64, u16) -> u64)
    requires
        a1 >> 12u64 == a2 >> 12u64,
    ensures
        same_page_outcomes(translate(a1, l4_table, mem), page_offset(a1), translate(a2, l4_table, mem), page_offset(a2)),
{
    lemma_same_page_walk(a1, a2, 4, l4_table, mem);
}

} // verus!
