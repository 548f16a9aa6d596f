//! Virtualises a full 32-bit (4 GiB) address space using pages.

use vstd::prelude::*;
use crate::instr::bits::field;
use crate::instr::bits::get_field;
use crate::instr::bits::pow2;
use vstd::string::*;

verus! {

/// The number of entries in every table of the page tree.
pub const PAGE_ENTRIES: usize = 1024;

/// The number of words in the address space.
pub const WORD_COUNT: usize = 0x4000_0000;

/// The word that unmapped memory reads as unless another is chosen.
pub const DEFAULT_WORD: u32 = 0xAAAA_AAAA;

/// A leaf of the page tree: 1024 words, 4 KiB of memory.
pub struct PageTable {
    entries: Vec<u32>,
}

/// An inner node of the page tree: up to 1024 page tables, 4 MiB of memory.
pub struct PageDir {
    entries: Vec<Option<Box<PageTable>>>,
}

/// Virtualises a full 32-bit address space using pages, as a tree of three
/// levels: ten bits of the address select the directory, ten the table, ten
/// the word, and the last two the byte in the word.
/// Every word reads as the default word until it is written.
/// Memory is little-endian.
/// It doesn't try to reclaim pages that are reset to the default.
pub struct Memory {
    root: Vec<Option<Box<PageDir>>>,
    default_word: u32,
}

/// The byte in lane `lane` (0 to 3) of a little-endian word.
pub open spec fn byte_of_word(word: u32, lane: u32) -> u8 {
    field(word, (8 * lane) as u32, 8) as u8
}

/// A word with the byte in lane `lane` (0 to 3) replaced: the old byte is
/// taken off at the lane's weight and the new one put on.
pub open spec fn word_with_byte(word: u32, lane: u32, byte: u8) -> u32 {
    (word - byte_of_word(word, lane) * pow2((8 * lane) as u32) + byte * pow2(
        (8 * lane) as u32,
    )) as u32
}

/// What masking a byte out of a word and putting another in gives, for
/// each of the four lanes.
proof fn lemma_lane_cases(word: u32, byte: u32)
    by (bit_vector)
    requires
        byte < 256,
    ensures
        ((word & !(0xFFu32 << 0u32)) | (byte << 0u32)) as u64 + (word % 0x100u32) as u64
            == word as u64 + byte as u64,
        ((word & !(0xFFu32 << 8u32)) | (byte << 8u32)) as u64 + (((word / 0x100u32)
            % 0x100u32) as u64 * 0x100u64) as u64 == word as u64 + (byte as u64 * 0x100u64) as u64,
        ((word & !(0xFFu32 << 16u32)) | (byte << 16u32)) as u64 + (((word / 0x1_0000u32)
            % 0x100u32) as u64 * 0x1_0000u64) as u64 == word as u64 + (byte as u64
            * 0x1_0000u64) as u64,
        ((word & !(0xFFu32 << 24u32)) | (byte << 24u32)) as u64 + (((word / 0x100_0000u32)
            % 0x100u32) as u64 * 0x100_0000u64) as u64 == word as u64 + (byte as u64
            * 0x100_0000u64) as u64,
{
}

/// What shifting and masking reads out of a word, for each of the four
/// lanes.
proof fn lemma_lane_reads(word: u32)
    by (bit_vector)
    ensures
        (word >> 0u32) & 0xFFu32 == word % 0x100u32,
        (word >> 8u32) & 0xFFu32 == (word / 0x100u32) % 0x100u32,
        (word >> 16u32) & 0xFFu32 == (word / 0x1_0000u32) % 0x100u32,
        (word >> 24u32) & 0xFFu32 == (word / 0x100_0000u32) % 0x100u32,
{
}

/// A byte put into a word at one shift is read back at that shift, and at
/// the other shifts what was there before.
proof fn lemma_lane_replaced(word: u32, shift: u32, byte: u32, other: u32)
    by (bit_vector)
    requires
        shift == 0 || shift == 8 || shift == 16 || shift == 24,
        other == 0 || other == 8 || other == 16 || other == 24,
        byte < 256,
    ensures
        (((word & !(0xFFu32 << shift)) | (byte << shift)) >> other) & 0xFFu32 == (if other
            == shift {
            byte
        } else {
            (word >> other) & 0xFFu32
        }),
{
}

/// Replacing a byte changes that byte and no other.
pub proof fn lemma_word_with_byte(word: u32, lane: u32, byte: u8, other: u32)
    requires
        lane < 4,
        other < 4,
    ensures
        byte_of_word(word_with_byte(word, lane, byte), other) == (if other == lane {
            byte
        } else {
            byte_of_word(word, other)
        }),
{
    let shift = (8 * lane) as u32;
    let after = (word & !(0xFFu32 << shift)) | ((byte as u32) << shift);
    lemma_lane_cases(word, byte as u32);
    assert(after == word_with_byte(word, lane, byte));
    lemma_lane_reads(word);
    lemma_lane_reads(after);
    lemma_lane_replaced(word, shift, byte as u32, (8 * other) as u32);
}

/// The word that a table slot holds at `index`, or the default.
pub closed spec fn table_word(table: Option<Box<PageTable>>, index: int, default_word: u32)
    -> u32 {
    match table {
        Some(table) => table.entries@[index],
        None => default_word,
    }
}

/// The word that a directory slot holds at table `table`, word `index`, or
/// the default.
pub closed spec fn dir_word(dir: Option<Box<PageDir>>, table: int, index: int, default_word: u32)
    -> u32 {
    match dir {
        Some(dir) => table_word(dir.entries@[table], index, default_word),
        None => default_word,
    }
}

/// How many of the slots hold a table.
pub closed spec fn count_tables(entries: Seq<Option<Box<PageTable>>>) -> nat
    decreases entries.len(),
{
    if entries.len() == 0 {
        0
    } else {
        count_tables(entries.drop_last()) + (if entries.last() is Some {
            1nat
        } else {
            0nat
        })
    }
}

/// How many pages the slots hold: each directory and each of its tables.
pub closed spec fn count_dirs(entries: Seq<Option<Box<PageDir>>>) -> nat
    decreases entries.len(),
{
    if entries.len() == 0 {
        0
    } else {
        count_dirs(entries.drop_last()) + (match entries.last() {
            Some(dir) => 1 + count_tables(dir.entries@),
            None => 0nat,
        })
    }
}

proof fn lemma_count_tables_bound(entries: Seq<Option<Box<PageTable>>>)
    ensures
        count_tables(entries) <= entries.len(),
    decreases entries.len(),
{
    if entries.len() > 0 {
        lemma_count_tables_bound(entries.drop_last());
    }
}

proof fn lemma_count_dirs_bound(entries: Seq<Option<Box<PageDir>>>)
    requires
        forall|i: int|
            0 <= i < entries.len() && entries[i] is Some ==> (#[trigger] entries[i]).unwrap().wf(),
    ensures
        count_dirs(entries) <= entries.len() * 1025,
    decreases entries.len(),
{
    if entries.len() > 0 {
        lemma_count_dirs_bound(entries.drop_last());
        if entries.last() is Some {
            lemma_count_tables_bound(entries.last().unwrap().entries@);
        }
    }
}

impl PageTable {
    /// Whether the table has its 1024 entries.
    pub closed spec fn wf(&self) -> bool {
        self.entries@.len() == PAGE_ENTRIES
    }

    /// A table whose words all hold `word`.
    fn filled(word: u32) -> (r: PageTable)
        ensures
            r.wf(),
            forall|i: int| 0 <= i < PAGE_ENTRIES ==> r.entries@[i] == word,
    {
        let mut entries: Vec<u32> = Vec::new();
        let mut i: usize = 0;
        while i < PAGE_ENTRIES
            invariant
                i <= PAGE_ENTRIES,
                entries@.len() == i,
                forall|k: int| 0 <= k < i ==> entries@[k] == word,
            decreases PAGE_ENTRIES - i,
        {
            entries.push(word);
            i += 1;
        }
        PageTable { entries }
    }
}

impl PageDir {
    /// Whether the directory has its 1024 slots, and each table in it is
    /// well formed.
    pub closed spec fn wf(&self) -> bool {
        &&& self.entries@.len() == PAGE_ENTRIES
        &&& forall|i: int|
            0 <= i < PAGE_ENTRIES && self.entries@[i] is Some ==> (
            #[trigger] self.entries@[i]).unwrap().wf()
    }

    /// A directory without tables.
    fn empty() -> (r: PageDir)
        ensures
            r.wf(),
            forall|i: int| 0 <= i < PAGE_ENTRIES ==> r.entries@[i] is None,
    {
        let mut entries: Vec<Option<Box<PageTable>>> = Vec::new();
        let mut i: usize = 0;
        while i < PAGE_ENTRIES
            invariant
                i <= PAGE_ENTRIES,
                entries@.len() == i,
                forall|k: int| 0 <= k < i ==> entries@[k] is None,
            decreases PAGE_ENTRIES - i,
        {
            entries.push(None);
            i += 1;
        }
        PageDir { entries }
    }

    /// Writes the word at table `table`, word `index`, making the table if
    /// it is not there yet.
    fn set(&mut self, table: usize, index: usize, value: u32, default_word: u32)
        requires
            old(self).wf(),
            table < PAGE_ENTRIES,
            index < PAGE_ENTRIES,
        ensures
            final(self).wf(),
            forall|t: int, i: int|
                0 <= t < PAGE_ENTRIES && 0 <= i < PAGE_ENTRIES ==> #[trigger] table_word(
                    final(self).entries@[t],
                    i,
                    default_word,
                ) == (if t == table && i == index {
                    value
                } else {
                    table_word(old(self).entries@[t], i, default_word)
                }),
    {
        let mut slot: Option<Box<PageTable>> = None;
        core::mem::swap(&mut self.entries[table], &mut slot);
        let mut page = match slot {
            Some(page) => page,
            None => Box::new(PageTable::filled(default_word)),
        };
        page.entries[index] = value;
        self.entries[table] = Some(page);
    }
}

/// The page indices of an address, together with the byte offset in the
/// word (0, 1, 2, or 3).
pub fn to_indices(addr: u32) -> (r: (usize, usize, usize, u32))
    ensures
        r.0 == (addr / 4) / 0x10_0000,
        r.1 == (addr / 4) / 1024 % 1024,
        r.2 == (addr / 4) % 1024,
        r.3 == addr % 4,
        r.0 < PAGE_ENTRIES,
        r.1 < PAGE_ENTRIES,
        r.2 < PAGE_ENTRIES,
{
    let word: u32 = addr / 4;
    ((word / 0x10_0000) as usize, (word / 1024 % 1024) as usize, (word % 1024) as usize, addr % 4)
}

impl View for Memory {
    type V = Seq<u32>;

    /// The memory as its 2^30 words; the word at byte address `a` is at
    /// index `a / 4`.
    open spec fn view(&self) -> Seq<u32> {
        Seq::new(WORD_COUNT as nat, |word: int| self.word_at(word))
    }
}

impl Default for Memory {
    /// An empty memory with the usual default word.
    fn default() -> (r: Self)
        ensures
            r.wf(),
            r.spec_default_word() == DEFAULT_WORD,
            r@ == Seq::new(WORD_COUNT as nat, |word: int| DEFAULT_WORD),
    {
        Memory::with_default_word(DEFAULT_WORD)
    }
}

impl Memory {
    /// Whether the page tree is well formed: every node has its 1024 slots.
    pub closed spec fn wf(&self) -> bool {
        &&& self.root@.len() == PAGE_ENTRIES
        &&& forall|i: int|
            0 <= i < PAGE_ENTRIES && self.root@[i] is Some ==> (#[trigger] self.root@[i]).unwrap().wf()
    }

    /// The word that unmapped memory reads as.
    pub closed spec fn spec_default_word(&self) -> u32 {
        self.default_word
    }

    /// The word with the given word index.
    pub closed spec fn word_at(&self, word: int) -> u32 {
        dir_word(self.root@[word / 0x10_0000], word / 1024 % 1024, word % 1024, self.default_word)
    }

    /// The number of pages in use: the root, each directory, each table.
    pub closed spec fn spec_count_pages(&self) -> nat {
        1 + count_dirs(self.root@)
    }

    /// A memory in which every word reads as `default_word`.
    pub fn with_default_word(default_word: u32) -> (r: Memory)
        ensures
            r.wf(),
            r.spec_default_word() == default_word,
            r@ == Seq::new(WORD_COUNT as nat, |word: int| default_word),
            r.spec_count_pages() == 1,
    {
        let mut root: Vec<Option<Box<PageDir>>> = Vec::new();
        let mut i: usize = 0;
        while i < PAGE_ENTRIES
            invariant
                i <= PAGE_ENTRIES,
                root@.len() == i,
                forall|k: int| 0 <= k < i ==> root@[k] is None,
                count_dirs(root@) == 0,
            decreases PAGE_ENTRIES - i,
        {
            let ghost before = root@;
            root.push(None);
            assert(root@.drop_last() =~= before);
            i += 1;
        }
        let r = Memory { root, default_word };
        assert(r@ =~= Seq::new(WORD_COUNT as nat, |word: int| default_word));
        r
    }

    /// A memory that holds `data` from address 0 on, and the usual default
    /// word everywhere else.
    pub fn new(data: &[u32]) -> (r: Memory)
        requires
            data@.len() <= WORD_COUNT,
        ensures
            r.wf(),
            r.spec_default_word() == DEFAULT_WORD,
            r@ == Seq::new(
                WORD_COUNT as nat,
                |word: int| if word < data@.len() { data@[word] } else { DEFAULT_WORD },
            ),
    {
        let mut result = Memory::with_default_word(DEFAULT_WORD);
        result.set_words_aligned(0, data);
        assert(result@ =~= Seq::new(
            WORD_COUNT as nat,
            |word: int| if word < data@.len() { data@[word] } else { DEFAULT_WORD },
        ));
        result
    }

    /// The word that unmapped memory reads as.
    pub fn default_word(&self) -> (r: u32)
        ensures
            r == self.spec_default_word(),
    {
        self.default_word
    }

    /// Access the word at a word-aligned (4-byte aligned) address. The two
    /// lowest bits of the address are ignored.
    pub fn get_word_aligned(&self, addr: u32) -> (r: u32)
        requires
            self.wf(),
        ensures
            r == self@[(addr / 4) as int],
    {
        let (a, b, c, _) = to_indices(addr);
        match &self.root[a] {
            Some(dir) => {
                assert(dir.wf());
                match &dir.entries[b] {
                    Some(table) => {
                        assert(table.wf());
                        table.entries[c]
                    },
                    None => self.default_word,
                }
            },
            None => self.default_word,
        }
    }

    /// Writes the word at a word-aligned (4-byte aligned) address. The two
    /// lowest bits of the address are ignored.
    pub fn set_word_aligned(&mut self, addr: u32, value: u32)
        requires
            old(self).wf(),
        ensures
            final(self).wf(),
            final(self).spec_default_word() == old(self).spec_default_word(),
            final(self)@ == old(self)@.update((addr / 4) as int, value),
    {
        let (a, b, c, _) = to_indices(addr);
        let mut slot: Option<Box<PageDir>> = None;
        core::mem::swap(&mut self.root[a], &mut slot);
        let mut dir = match slot {
            Some(dir) => dir,
            None => Box::new(PageDir::empty()),
        };
        let ghost before = Some(dir);
        dir.set(b, c, value, self.default_word);
        self.root[a] = Some(dir);
        proof {
            let target = (addr / 4) as int;
            assert forall|word: int| 0 <= word < WORD_COUNT implies final(self).word_at(word) == (
            if word == target {
                value
            } else {
                old(self).word_at(word)
            }) by {
                let wa = word / 0x10_0000;
                let wb = word / 1024 % 1024;
                let wc = word % 1024;
                if wa == a {
                    assert(table_word(dir.entries@[wb], wc, self.default_word) == (if wb == b
                        && wc == c {
                        value
                    } else {
                        table_word(before.unwrap().entries@[wb], wc, self.default_word)
                    }));
                }
            }
            assert(final(self)@ =~= old(self)@.update(target, value));
        }
    }

    /// Writes `data` to consecutive words from a word-aligned address on.
    pub fn set_words_aligned(&mut self, addr: u32, data: &[u32])
        requires
            old(self).wf(),
            addr / 4 + data@.len() <= WORD_COUNT,
        ensures
            final(self).wf(),
            final(self).spec_default_word() == old(self).spec_default_word(),
            final(self)@ == Seq::new(
                WORD_COUNT as nat,
                |word: int| if addr / 4 <= word < addr / 4 + data@.len() {
                    data@[word - addr / 4]
                } else {
                    old(self)@[word]
                },
            ),
    {
        let base: u32 = addr / 4;
        let mut i: usize = 0;
        while i < data.len()
            invariant
                i <= data@.len(),
                base == addr / 4,
                base + data@.len() <= WORD_COUNT,
                self.wf(),
                self.spec_default_word() == old(self).spec_default_word(),
                self@ == Seq::new(
                    WORD_COUNT as nat,
                    |word: int| if base <= word < base + i {
                        data@[word - base]
                    } else {
                        old(self)@[word]
                    },
                ),
            decreases data@.len() - i,
        {
            let ghost previous = self@;
            let at: u32 = (base + i as u32) * 4;
            self.set_word_aligned(at, data[i]);
            i += 1;
            assert(self@ =~= Seq::new(
                WORD_COUNT as nat,
                |word: int| if base <= word < base + i {
                    data@[word - base]
                } else {
                    old(self)@[word]
                },
            ));
        }
        assert(self@ =~= Seq::new(
            WORD_COUNT as nat,
            |word: int| if addr / 4 <= word < addr / 4 + data@.len() {
                data@[word - addr / 4]
            } else {
                old(self)@[word]
            },
        ));
    }

    /// Reads the byte at an address: the lane `addr % 4` of the word that
    /// holds it.
    pub fn get_byte(&self, addr: u32) -> (r: u8)
        requires
            self.wf(),
        ensures
            r == byte_of_word(self@[(addr / 4) as int], addr % 4),
    {
        let word = self.get_word_aligned(addr);
        let lane: u32 = addr % 4;
        get_field(word, 8 * lane, 8) as u8
    }

    /// Writes the byte at an address: the lane `addr % 4` of the word that
    /// holds it; the other three bytes of the word stay.
    pub fn set_byte(&mut self, addr: u32, value: u8)
        requires
            old(self).wf(),
        ensures
            final(self).wf(),
            final(self).spec_default_word() == old(self).spec_default_word(),
            final(self)@ == old(self)@.update(
                (addr / 4) as int,
                word_with_byte(old(self)@[(addr / 4) as int], addr % 4, value),
            ),
    {
        let word = self.get_word_aligned(addr);
        let lane: u32 = addr % 4;
        proof {
            lemma_lane_cases(word, value as u32);
        }
        let new_word: u32 = (word & !(0xFFu32 << (8 * lane))) | ((value as u32) << (8 * lane));
        self.set_word_aligned(addr, new_word);
    }

    /// The memory as text, for a person to read: how many pages it uses.
    pub fn describe(&self) -> (r: String)
        requires
            self.wf(),
        ensures
            r@ == crate::instr::display::decimal_text(
                "<memory using "@,
                self.spec_count_pages(),
            ) + " x 4KiB pages>"@,
    {
        let mut text = String::from_str("<memory using ");
        crate::instr::display::write_decimal(&mut text, self.count_pages() as u32);
        text.append(" x 4KiB pages>");
        text
    }

    /// Return the number of pages in use to represent the memory of this processor.
    pub fn count_pages(&self) -> (r: usize)
        requires
            self.wf(),
        ensures
            r == self.spec_count_pages(),
            r <= 1 + PAGE_ENTRIES * (PAGE_ENTRIES + 1),
    {
        let mut total: usize = 1;
        let mut i: usize = 0;
        while i < PAGE_ENTRIES
            invariant
                i <= PAGE_ENTRIES,
                self.wf(),
                total == 1 + count_dirs(self.root@.take(i as int)),
                total <= 1 + i * 1025,
            decreases PAGE_ENTRIES - i,
        {
            proof {
                assert(self.root@.take(i + 1).drop_last() =~= self.root@.take(i as int));
            }
            match &self.root[i] {
                Some(dir) => {
                    assert(dir.wf());
                    let mut tables: usize = 0;
                    let mut j: usize = 0;
                    while j < PAGE_ENTRIES
                        invariant
                            j <= PAGE_ENTRIES,
                            dir.entries@.len() == PAGE_ENTRIES,
                            tables == count_tables(dir.entries@.take(j as int)),
                            tables <= j,
                        decreases PAGE_ENTRIES - j,
                    {
                        proof {
                            assert(dir.entries@.take(j + 1).drop_last() =~= dir.entries@.take(
                                j as int,
                            ));
                        }
                        if dir.entries[j].is_some() {
                            tables += 1;
                        }
                        j += 1;
                    }
                    assert(dir.entries@.take(PAGE_ENTRIES as int) =~= dir.entries@);
                    total += 1 + tables;
                },
                None => {},
            }
            i += 1;
        }
        assert(self.root@.take(PAGE_ENTRIES as int) =~= self.root@);
        total
    }
}

} // verus!
