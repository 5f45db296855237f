//! Info tables: the static descriptions of closures, their flags and the
//! bitmaps that tell pointer words from non-pointer words.
use vstd::prelude::*;
use crate::types::{StgClosureType, StgFunType, StgHalfInt, StgHalfWord, StgInt, StgWord, StgWord16};
use crate::util::offset_from_end;

verus! {

// ------------------------------------------------------------------------
// Closure flags
// ------------------------------------------------------------------------

/// Bit `bit` of the flag word `flags`.
pub open spec fn flag_bit(flags: u16, bit: u16) -> bool {
    (flags >> bit) & 1 == 1
}

/// The flag word that the runtime keeps for each closure type.
#[derive(Debug)]
pub struct ClosureFlag(pub StgWord16);

impl ClosureFlag {
    /// Bit positions of the flags.
    pub const HNF_BIT: u16 = 0;
    pub const BTM_BIT: u16 = 1;
    pub const NS_BIT: u16 = 2;
    pub const THU_BIT: u16 = 3;
    pub const MUT_BIT: u16 = 4;
    pub const UPT_BIT: u16 = 5;
    pub const SRT_BIT: u16 = 6;
    pub const IND_BIT: u16 = 7;

    /// Masks of the flags: head normal form, uses a bitmap layout,
    /// non-sparkable, thunk, mutable, unpointed, has an SRT, indirection.
    const _HNF: StgWord16 = 0x01;
    const _BTM: StgWord16 = 0x02;
    const _NS: StgWord16 = 0x04;
    const _THU: StgWord16 = 0x08;
    const _MUT: StgWord16 = 0x10;
    const _UPT: StgWord16 = 0x20;
    const _SRT: StgWord16 = 0x40;
    const _IND: StgWord16 = 0x80;

    #[inline(always)]
    pub fn isMUTABLE(&self) -> (r: bool)
        ensures
            r == flag_bit(self.0, Self::MUT_BIT),
    {
        let f = self.0;
        assert((f & 0x10u16) != 0 <==> (f >> 4u16) & 1 == 1) by (bit_vector);
        (self.0 & Self::_MUT) != 0
    }

    #[inline(always)]
    pub fn isBITMAP(&self) -> (r: bool)
        ensures
            r == flag_bit(self.0, Self::BTM_BIT),
    {
        let f = self.0;
        assert((f & 0x02u16) != 0 <==> (f >> 1u16) & 1 == 1) by (bit_vector);
        (self.0 & Self::_BTM) != 0
    }

    #[inline(always)]
    pub fn isTHUNK(&self) -> (r: bool)
        ensures
            r == flag_bit(self.0, Self::THU_BIT),
    {
        let f = self.0;
        assert((f & 0x08u16) != 0 <==> (f >> 3u16) & 1 == 1) by (bit_vector);
        (self.0 & Self::_THU) != 0
    }

    #[inline(always)]
    pub fn isUNPOINTED(&self) -> (r: bool)
        ensures
            r == flag_bit(self.0, Self::UPT_BIT),
    {
        let f = self.0;
        assert((f & 0x20u16) != 0 <==> (f >> 5u16) & 1 == 1) by (bit_vector);
        (self.0 & Self::_UPT) != 0
    }

    #[inline(always)]
    pub fn hasSRT(&self) -> (r: bool)
        ensures
            r == flag_bit(self.0, Self::SRT_BIT),
    {
        let f = self.0;
        assert((f & 0x40u16) != 0 <==> (f >> 6u16) & 1 == 1) by (bit_vector);
        (self.0 & Self::_SRT) != 0
    }
}

// ------------------------------------------------------------------------
// Small bitmaps
// ------------------------------------------------------------------------

/// Whether slot `i` of a bitmap word holds a pointer: a clear bit marks a
/// pointer, a set bit a non-pointer word.
pub open spec fn is_pointer_slot(word: usize, i: int) -> bool {
    (word >> (i as usize)) & 1 == 0
}

/// A bitmap packed into one word: the low six bits hold the number of
/// slots, the bits above them one bit per slot.
#[derive(Clone, Copy, Debug)]
pub struct StgSmallBitmap(pub StgWord);

impl StgSmallBitmap {
    pub const BITMAP_BITS_SHIFT: StgWord = 6;
    pub const BITMAP_SIZE_MASK: StgWord = 0x3f;

    /// The number of slots the bitmap describes.
    pub open spec fn size_spec(self) -> usize {
        self.0 % 64
    }

    /// The slot bits, slot 0 in the least significant bit.
    pub open spec fn bits_spec(self) -> usize {
        self.0 / 64
    }

    /// The bitmap word made of a size and slot bits.
    pub open spec fn make_spec(size: usize, bits: usize) -> StgSmallBitmap {
        StgSmallBitmap((bits << 6usize) | size)
    }

    #[inline(always)]
    pub fn make_small_bitmap(size: StgWord, bits: StgWord) -> (r: Self)
        ensures
            r == Self::make_spec(size, bits),
            size < 64 && bits * 64 + size <= usize::MAX ==> r.0 == bits * 64 + size,
    {
        proof {
            if size < 64 && bits * 64 + size <= usize::MAX {
                let m: usize = usize::MAX;
                assert(((bits << 6usize) | size) == bits * 64 + size) by (bit_vector)
                    requires
                        size < 64,
                        bits * 64 + size <= m,
                ;
            }
        }
        StgSmallBitmap((bits << Self::BITMAP_BITS_SHIFT) | size)
    }

    #[inline(always)]
    pub fn size(&self) -> (r: StgWord)
        ensures
            r == self.size_spec(),
    {
        let w = self.0;
        assert(w & 0x3f == w % 64) by (bit_vector);
        self.0 & Self::BITMAP_SIZE_MASK
    }

    #[inline(always)]
    pub fn bits(&self) -> (r: StgWord)
        ensures
            r == self.bits_spec(),
    {
        let w = self.0;
        assert(w >> 6usize == w / 64) by (bit_vector);
        self.0 >> Self::BITMAP_BITS_SHIFT
    }
}

/// Packing a size below 64 and slot bits that fit above the size field, and
/// reading them back, gives the same size and bits.
pub proof fn lemma_small_bitmap_make_then_read(size: usize, bits: usize)
    requires
        size < 64,
        bits * 64 + size <= usize::MAX,
    ensures
        StgSmallBitmap::make_spec(size, bits).size_spec() == size,
        StgSmallBitmap::make_spec(size, bits).bits_spec() == bits,
{
    let m: usize = usize::MAX;
    assert(((bits << 6usize) | size) % 64 == size && ((bits << 6usize) | size) / 64 == bits)
        by (bit_vector)
        requires
            size < 64,
            bits * 64 + size <= m,
    ;
}

/// Every bitmap word is the packing of its own size and slot bits.
pub proof fn lemma_small_bitmap_read_then_make(b: StgSmallBitmap)
    ensures
        StgSmallBitmap::make_spec(b.size_spec(), b.bits_spec()) == b,
{
    let w = b.0;
    assert(((w / 64) << 6usize) | (w % 64) == w) by (bit_vector);
}


/// The argument bitmap of a standard argument pattern, as (number of words,
/// bits): one slot per argument word, the bit set for a non-pointer word.
/// The general patterns, which carry their own bitmap, have none.
spec fn arg_bitmap_parts(t: StgFunType) -> (usize, usize) {
    match t {
        StgFunType::ARG_GEN => (0, 0),
        StgFunType::ARG_GEN_BIG => (0, 0),
        StgFunType::ARG_BCO => (0, 0),
        StgFunType::ARG_NONE => (0, 0),
        StgFunType::ARG_N => (1, 1),
        StgFunType::ARG_P => (1, 0),
        StgFunType::ARG_F => (1, 1),
        StgFunType::ARG_D => (1, 1),
        StgFunType::ARG_L => (1, 1),
        StgFunType::ARG_V16 => (2, 3),
        StgFunType::ARG_V32 => (4, 15),
        StgFunType::ARG_V64 => (8, 255),
        StgFunType::ARG_NN => (2, 3),
        StgFunType::ARG_NP => (2, 1),
        StgFunType::ARG_PN => (2, 2),
        StgFunType::ARG_PP => (2, 0),
        StgFunType::ARG_NNN => (3, 7),
        StgFunType::ARG_NNP => (3, 3),
        StgFunType::ARG_NPN => (3, 5),
        StgFunType::ARG_NPP => (3, 1),
        StgFunType::ARG_PNN => (3, 6),
        StgFunType::ARG_PNP => (3, 2),
        StgFunType::ARG_PPN => (3, 4),
        StgFunType::ARG_PPP => (3, 0),
        StgFunType::ARG_PPPP => (4, 0),
        StgFunType::ARG_PPPPP => (5, 0),
        StgFunType::ARG_PPPPPP => (6, 0),
        StgFunType::ARG_PPPPPPP => (7, 0),
        StgFunType::ARG_PPPPPPPP => (8, 0),
    }
}

/// The argument bitmap of a standard argument pattern, packed.
spec fn arg_small_bitmap(t: StgFunType) -> StgSmallBitmap {
    StgSmallBitmap::make_spec(arg_bitmap_parts(t).0, arg_bitmap_parts(t).1)
}

impl StgFunType {
    /// The small bitmap that describes the arguments of this pattern: one
    /// slot per argument word, marking exactly the pointer words as pointers.
    pub fn get_small_bitmap(&self) -> (r: StgSmallBitmap)
        ensures
            r.size_spec() == arg_pattern(*self).len(),
            forall|i: int|
                0 <= i < arg_pattern(*self).len() ==> is_pointer_slot(r.bits_spec(), i)
                    == #[trigger] arg_pattern(*self)[i],
    {
        let (size, bits): (usize, usize) = match *self {
            StgFunType::ARG_GEN => (0, 0),
            StgFunType::ARG_GEN_BIG => (0, 0),
            StgFunType::ARG_BCO => (0, 0),
            StgFunType::ARG_NONE => (0, 0),
            StgFunType::ARG_N => (1, 1),
            StgFunType::ARG_P => (1, 0),
            StgFunType::ARG_F => (1, 1),
            StgFunType::ARG_D => (1, 1),
            StgFunType::ARG_L => (1, 1),
            StgFunType::ARG_V16 => (2, 3),
            StgFunType::ARG_V32 => (4, 15),
            StgFunType::ARG_V64 => (8, 255),
            StgFunType::ARG_NN => (2, 3),
            StgFunType::ARG_NP => (2, 1),
            StgFunType::ARG_PN => (2, 2),
            StgFunType::ARG_PP => (2, 0),
            StgFunType::ARG_NNN => (3, 7),
            StgFunType::ARG_NNP => (3, 3),
            StgFunType::ARG_NPN => (3, 5),
            StgFunType::ARG_NPP => (3, 1),
            StgFunType::ARG_PNN => (3, 6),
            StgFunType::ARG_PNP => (3, 2),
            StgFunType::ARG_PPN => (3, 4),
            StgFunType::ARG_PPP => (3, 0),
            StgFunType::ARG_PPPP => (4, 0),
            StgFunType::ARG_PPPPP => (5, 0),
            StgFunType::ARG_PPPPPP => (6, 0),
            StgFunType::ARG_PPPPPPP => (7, 0),
            StgFunType::ARG_PPPPPPPP => (8, 0),
        };
        proof {
            lemma_arg_bitmap_matches_pattern(*self);
        }
        StgSmallBitmap::make_small_bitmap(size, bits)
    }
}

/// The argument words of a standard argument pattern, in order: `true` for
/// a pointer, `false` for a non-pointer word. The general patterns, which
/// carry their own bitmap, list none.
pub open spec fn arg_pattern(t: StgFunType) -> Seq<bool> {
    match t {
        StgFunType::ARG_GEN => Seq::empty(),
        StgFunType::ARG_GEN_BIG => Seq::empty(),
        StgFunType::ARG_BCO => Seq::empty(),
        StgFunType::ARG_NONE => Seq::empty(),
        StgFunType::ARG_N => seq![false],
        StgFunType::ARG_P => seq![true],
        StgFunType::ARG_F => seq![false],
        StgFunType::ARG_D => seq![false],
        StgFunType::ARG_L => seq![false],
        StgFunType::ARG_V16 => seq![false, false],
        StgFunType::ARG_V32 => seq![false, false, false, false],
        StgFunType::ARG_V64 => seq![false, false, false, false, false, false, false, false],
        StgFunType::ARG_NN => seq![false, false],
        StgFunType::ARG_NP => seq![false, true],
        StgFunType::ARG_PN => seq![true, false],
        StgFunType::ARG_PP => seq![true, true],
        StgFunType::ARG_NNN => seq![false, false, false],
        StgFunType::ARG_NNP => seq![false, false, true],
        StgFunType::ARG_NPN => seq![false, true, false],
        StgFunType::ARG_NPP => seq![false, true, true],
        StgFunType::ARG_PNN => seq![true, false, false],
        StgFunType::ARG_PNP => seq![true, false, true],
        StgFunType::ARG_PPN => seq![true, true, false],
        StgFunType::ARG_PPP => seq![true, true, true],
        StgFunType::ARG_PPPP => seq![true, true, true, true],
        StgFunType::ARG_PPPPP => seq![true, true, true, true, true],
        StgFunType::ARG_PPPPPP => seq![true, true, true, true, true, true],
        StgFunType::ARG_PPPPPPP => seq![true, true, true, true, true, true, true],
        StgFunType::ARG_PPPPPPPP => seq![true, true, true, true, true, true, true, true],
    }
}

/// The argument patterns follow the names of the function types, read left
/// to right: a `P` is one pointer word; an `N`, `F`, `D` or `L` one
/// non-pointer word; a vector of 16, 32 or 64 bytes two, four or eight
/// non-pointer words; a name of several letters is the patterns of its
/// letters one after another; the general patterns list no words.
pub proof fn lemma_arg_pattern_follows_name()
    ensures
        arg_pattern(StgFunType::ARG_P) == seq![true],
        arg_pattern(StgFunType::ARG_N) == seq![false],
        arg_pattern(StgFunType::ARG_F) == arg_pattern(StgFunType::ARG_N),
        arg_pattern(StgFunType::ARG_D) == arg_pattern(StgFunType::ARG_N),
        arg_pattern(StgFunType::ARG_L) == arg_pattern(StgFunType::ARG_N),
        arg_pattern(StgFunType::ARG_V16) == arg_pattern(StgFunType::ARG_NN),
        arg_pattern(StgFunType::ARG_V32) == arg_pattern(StgFunType::ARG_NN) + arg_pattern(StgFunType::ARG_NN),
        arg_pattern(StgFunType::ARG_V64) == arg_pattern(StgFunType::ARG_V32) + arg_pattern(StgFunType::ARG_V32),
        arg_pattern(StgFunType::ARG_NN) == arg_pattern(StgFunType::ARG_N) + arg_pattern(StgFunType::ARG_N),
        arg_pattern(StgFunType::ARG_NP) == arg_pattern(StgFunType::ARG_N) + arg_pattern(StgFunType::ARG_P),
        arg_pattern(StgFunType::ARG_PN) == arg_pattern(StgFunType::ARG_P) + arg_pattern(StgFunType::ARG_N),
        arg_pattern(StgFunType::ARG_PP) == arg_pattern(StgFunType::ARG_P) + arg_pattern(StgFunType::ARG_P),
        arg_pattern(StgFunType::ARG_NNN) == arg_pattern(StgFunType::ARG_NN) + arg_pattern(StgFunType::ARG_N),
        arg_pattern(StgFunType::ARG_NNP) == arg_pattern(StgFunType::ARG_NN) + arg_pattern(StgFunType::ARG_P),
        arg_pattern(StgFunType::ARG_NPN) == arg_pattern(StgFunType::ARG_NP) + arg_pattern(StgFunType::ARG_N),
        arg_pattern(StgFunType::ARG_NPP) == arg_pattern(StgFunType::ARG_NP) + arg_pattern(StgFunType::ARG_P),
        arg_pattern(StgFunType::ARG_PNN) == arg_pattern(StgFunType::ARG_PN) + arg_pattern(StgFunType::ARG_N),
        arg_pattern(StgFunType::ARG_PNP) == arg_pattern(StgFunType::ARG_PN) + arg_pattern(StgFunType::ARG_P),
        arg_pattern(StgFunType::ARG_PPN) == arg_pattern(StgFunType::ARG_PP) + arg_pattern(StgFunType::ARG_N),
        arg_pattern(StgFunType::ARG_PPP) == arg_pattern(StgFunType::ARG_PP) + arg_pattern(StgFunType::ARG_P),
        arg_pattern(StgFunType::ARG_PPPP) == arg_pattern(StgFunType::ARG_PPP) + arg_pattern(StgFunType::ARG_P),
        arg_pattern(StgFunType::ARG_PPPPP) == arg_pattern(StgFunType::ARG_PPPP) + arg_pattern(StgFunType::ARG_P),
        arg_pattern(StgFunType::ARG_PPPPPP) == arg_pattern(StgFunType::ARG_PPPPP) + arg_pattern(StgFunType::ARG_P),
        arg_pattern(StgFunType::ARG_PPPPPPP) == arg_pattern(StgFunType::ARG_PPPPPP) + arg_pattern(StgFunType::ARG_P),
        arg_pattern(StgFunType::ARG_PPPPPPPP) == arg_pattern(StgFunType::ARG_PPPPPPP) + arg_pattern(StgFunType::ARG_P),
        arg_pattern(StgFunType::ARG_NONE).len() == 0,
        arg_pattern(StgFunType::ARG_GEN).len() == 0,
        arg_pattern(StgFunType::ARG_GEN_BIG).len() == 0,
        arg_pattern(StgFunType::ARG_BCO).len() == 0,
{
    assert(arg_pattern(StgFunType::ARG_V32) =~= arg_pattern(StgFunType::ARG_NN) + arg_pattern(StgFunType::ARG_NN));
    assert(arg_pattern(StgFunType::ARG_V64) =~= arg_pattern(StgFunType::ARG_V32) + arg_pattern(StgFunType::ARG_V32));
    assert(arg_pattern(StgFunType::ARG_NN) =~= arg_pattern(StgFunType::ARG_N) + arg_pattern(StgFunType::ARG_N));
    assert(arg_pattern(StgFunType::ARG_NP) =~= arg_pattern(StgFunType::ARG_N) + arg_pattern(StgFunType::ARG_P));
    assert(arg_pattern(StgFunType::ARG_PN) =~= arg_pattern(StgFunType::ARG_P) + arg_pattern(StgFunType::ARG_N));
    assert(arg_pattern(StgFunType::ARG_PP) =~= arg_pattern(StgFunType::ARG_P) + arg_pattern(StgFunType::ARG_P));
    assert(arg_pattern(StgFunType::ARG_NNN) =~= arg_pattern(StgFunType::ARG_NN) + arg_pattern(StgFunType::ARG_N));
    assert(arg_pattern(StgFunType::ARG_NNP) =~= arg_pattern(StgFunType::ARG_NN) + arg_pattern(StgFunType::ARG_P));
    assert(arg_pattern(StgFunType::ARG_NPN) =~= arg_pattern(StgFunType::ARG_NP) + arg_pattern(StgFunType::ARG_N));
    assert(arg_pattern(StgFunType::ARG_NPP) =~= arg_pattern(StgFunType::ARG_NP) + arg_pattern(StgFunType::ARG_P));
    assert(arg_pattern(StgFunType::ARG_PNN) =~= arg_pattern(StgFunType::ARG_PN) + arg_pattern(StgFunType::ARG_N));
    assert(arg_pattern(StgFunType::ARG_PNP) =~= arg_pattern(StgFunType::ARG_PN) + arg_pattern(StgFunType::ARG_P));
    assert(arg_pattern(StgFunType::ARG_PPN) =~= arg_pattern(StgFunType::ARG_PP) + arg_pattern(StgFunType::ARG_N));
    assert(arg_pattern(StgFunType::ARG_PPP) =~= arg_pattern(StgFunType::ARG_PP) + arg_pattern(StgFunType::ARG_P));
    assert(arg_pattern(StgFunType::ARG_PPPP) =~= arg_pattern(StgFunType::ARG_PPP) + arg_pattern(StgFunType::ARG_P));
    assert(arg_pattern(StgFunType::ARG_PPPPP) =~= arg_pattern(StgFunType::ARG_PPPP) + arg_pattern(StgFunType::ARG_P));
    assert(arg_pattern(StgFunType::ARG_PPPPPP) =~= arg_pattern(StgFunType::ARG_PPPPP) + arg_pattern(StgFunType::ARG_P));
    assert(arg_pattern(StgFunType::ARG_PPPPPPP) =~= arg_pattern(StgFunType::ARG_PPPPPP) + arg_pattern(StgFunType::ARG_P));
    assert(arg_pattern(StgFunType::ARG_PPPPPPPP) =~= arg_pattern(StgFunType::ARG_PPPPPPP) + arg_pattern(StgFunType::ARG_P));
}

/// The first eight slots of a bitmap word, read arithmetically.
proof fn lemma_low_slots(b: usize)
    ensures
        is_pointer_slot(b, 0) == (b % 2 == 0),
        is_pointer_slot(b, 1) == ((b / 2) % 2 == 0),
        is_pointer_slot(b, 2) == ((b / 4) % 2 == 0),
        is_pointer_slot(b, 3) == ((b / 8) % 2 == 0),
        is_pointer_slot(b, 4) == ((b / 16) % 2 == 0),
        is_pointer_slot(b, 5) == ((b / 32) % 2 == 0),
        is_pointer_slot(b, 6) == ((b / 64) % 2 == 0),
        is_pointer_slot(b, 7) == ((b / 128) % 2 == 0),
{
    assert(((b >> 0usize) & 1 == 0) == (b % 2 == 0) && ((b >> 1usize) & 1 == 0) == ((b / 2) % 2 == 0)
        && ((b >> 2usize) & 1 == 0) == ((b / 4) % 2 == 0) && ((b >> 3usize) & 1 == 0) == ((b / 8) % 2
        == 0) && ((b >> 4usize) & 1 == 0) == ((b / 16) % 2 == 0) && ((b >> 5usize) & 1 == 0) == ((b
        / 32) % 2 == 0) && ((b >> 6usize) & 1 == 0) == ((b / 64) % 2 == 0) && ((b >> 7usize) & 1
        == 0) == ((b / 128) % 2 == 0)) by (bit_vector);
}

/// The argument bitmap of a standard pattern has one slot per argument
/// word and marks exactly the pointer words of the pattern as pointers.
proof fn lemma_arg_bitmap_matches_pattern(t: StgFunType)
    ensures
        arg_small_bitmap(t).size_spec() == arg_pattern(t).len(),
        forall|i: int|
            0 <= i < arg_pattern(t).len() ==> is_pointer_slot(arg_small_bitmap(t).bits_spec(), i)
                == #[trigger] arg_pattern(t)[i],
{
    let bits = arg_bitmap_parts(t).1;
    lemma_small_bitmap_make_then_read(arg_bitmap_parts(t).0, bits);
    lemma_low_slots(bits);
    assert forall|i: int| 0 <= i < arg_pattern(t).len() implies is_pointer_slot(
        arg_small_bitmap(t).bits_spec(),
        i,
    ) == #[trigger] arg_pattern(t)[i] by {
        assert(i == 0 || i == 1 || i == 2 || i == 3 || i == 4 || i == 5 || i == 6 || i == 7);
    }
}

// ------------------------------------------------------------------------
// Large bitmaps
// ------------------------------------------------------------------------

/// The words of a large bitmap; slot `k` is bit `k % BITS` of word `k / BITS`.
#[derive(Debug)]
pub struct LargeBitMapPayload(pub Vec<StgWord>);

impl LargeBitMapPayload {
    /// Word `i` of the bitmap.
    pub fn get_w(&self, i: usize) -> (r: StgWord)
        requires
            i < self.0.len(),
        ensures
            r == self.0@[i as int],
    {
        self.0[i]
    }
}

/// A bitmap too long for one word: the number of slots, then the slot bits.
#[derive(Debug)]
pub struct StgLargeBitmap {
    pub size: StgWord,
    pub bitmap: LargeBitMapPayload,
}

/// The bytes a large-bitmap reference takes in an info table.
pub const SIZEOF_STG_LARGE_BITMAP_REF: usize = 8;

/// Where a large bitmap lies, as a byte offset from the end of the reference.
#[derive(Clone, Copy, Debug)]
pub struct StgLargeBitmapRef {
    pub offset: StgInt,
}

impl StgLargeBitmapRef {
    /// The address of the large bitmap of the info table `itbl`: the offset
    /// held in the table's layout word, counted from the end of this
    /// reference, which is stored at `self_addr`.
    pub fn deref(&self, itbl: &StgInfoTable, self_addr: usize) -> (r: usize)
        requires
            self_addr + SIZEOF_STG_LARGE_BITMAP_REF <= usize::MAX,
            isize::MIN <= (itbl.layout.0 as i64) <= isize::MAX,
            0 <= self_addr + SIZEOF_STG_LARGE_BITMAP_REF + (itbl.layout.0 as i64) <= usize::MAX,
        ensures
            r == self_addr + SIZEOF_STG_LARGE_BITMAP_REF + (itbl.layout.0 as i64),
    {
        let offset: isize = itbl.layout.large_bitmap().offset as isize;
        offset_from_end(self_addr, SIZEOF_STG_LARGE_BITMAP_REF, offset)
    }
}

// ------------------------------------------------------------------------
// Info tables
// ------------------------------------------------------------------------

/// The layout of a closure whose pointers come first in its payload.
#[derive(Clone, Copy, Debug)]
pub struct StgPointerFirst {
    /// number of pointers
    pub ptrs: StgHalfWord,
    /// number of non-pointers
    pub nptrs: StgHalfWord,
}

/// The layout field of an info table: one 64-bit word that is read, by the
/// closure type, as pointer and non-pointer counts, a small bitmap, a
/// large-bitmap reference or a selector offset (a little-endian machine: the
/// first half-word is the low half).
#[derive(Clone, Copy, Debug)]
pub struct StgClosureInfo(pub u64);

impl StgClosureInfo {
    /// The word read as pointer and non-pointer counts.
    pub fn payload(&self) -> (r: StgPointerFirst)
        ensures
            r.ptrs == self.0 % 0x1_0000_0000,
            r.nptrs == self.0 / 0x1_0000_0000,
            self.0 == r.ptrs + r.nptrs * 0x1_0000_0000,
    {
        let w = self.0;
        assert(w & 0xffff_ffffu64 == w % 0x1_0000_0000) by (bit_vector);
        assert(w >> 32u64 == w / 0x1_0000_0000) by (bit_vector);
        StgPointerFirst {
            ptrs: (self.0 & 0xffff_ffff) as StgHalfWord,
            nptrs: (self.0 >> 32) as StgHalfWord,
        }
    }

    /// The word read as a small bitmap.
    pub fn small_bitmap(&self) -> (r: StgSmallBitmap)
        ensures
            r.0 == self.0 as usize,
    {
        StgSmallBitmap(self.0 as usize)
    }

    /// The word read as a large-bitmap reference.
    pub fn large_bitmap(&self) -> (r: StgLargeBitmapRef)
        ensures
            r.offset == self.0 as i64,
    {
        StgLargeBitmapRef { offset: self.0 as i64 }
    }

    /// The word read as the field offset of a selector thunk.
    pub fn selector_offset(&self) -> (r: StgWord)
        ensures
            r == self.0 as usize,
    {
        self.0 as usize
    }
}

/// The argument bitmap of a function info table: one 64-bit word read as a
/// small bitmap or as a large-bitmap reference.
#[derive(Clone, Copy, Debug)]
pub struct Bitmap(pub u64);

impl Bitmap {
    pub fn small_bitmap(&self) -> (r: StgSmallBitmap)
        ensures
            r.0 == self.0 as usize,
    {
        StgSmallBitmap(self.0 as usize)
    }

    pub fn large_bitmap_ref(&self) -> (r: StgLargeBitmapRef)
        ensures
            r.offset == self.0 as i64,
    {
        StgLargeBitmapRef { offset: self.0 as i64 }
    }
}

/// The static reference table field: a byte offset from the end of the
/// info table, zero when there is no table.
#[derive(Clone, Copy, Debug)]
pub struct StgSRTField {
    pub srt: StgHalfInt,
}

/// Profiling information (empty in a non-profiling runtime).
#[derive(Clone, Copy, Debug)]
pub struct StgProfInfo {}

/// An info table laid out apart from the entry code.
#[derive(Clone, Copy, Debug)]
pub struct StgInfoTable {
    /// address of the entry code
    pub code: usize,
    pub prof: StgProfInfo,
    pub layout: StgClosureInfo,
    pub type_: StgClosureType,
    pub srt: StgSRTField,
}

/// Byte sizes of the info tables in the memory of a 64-bit runtime.
pub const SIZEOF_STG_INFO_TABLE: usize = 24;
pub const SIZEOF_STG_FUN_INFO_EXTRA: usize = 24;
pub const SIZEOF_STG_FUN_INFO_TABLE: usize = 48;
pub const SIZEOF_STG_RET_INFO_TABLE: usize = 24;
pub const SIZEOF_STG_THUNK_INFO_TABLE: usize = 24;

/// The address `srt` bytes past the end of an info table of `size` bytes
/// placed at `addr`, where its static reference table lies.
pub open spec fn srt_address(addr: usize, size: usize, srt: i32) -> usize {
    (addr + size + srt) as usize
}

/// Whether that address lies in the address space.
pub open spec fn srt_address_in_range(addr: usize, size: usize, srt: i32) -> bool {
    &&& addr + size <= usize::MAX
    &&& 0 <= addr + size + srt <= usize::MAX
}

/// The address `srt` bytes past the end of an info table of `size` bytes at
/// `addr`.
fn srt_of(addr: usize, size: usize, srt: StgHalfInt) -> (r: usize)
    requires
        srt_address_in_range(addr, size, srt),
    ensures
        r == srt_address(addr, size, srt),
{
    offset_from_end(addr, size, srt as isize)
}

/// The extra fields of a function info table.
#[derive(Clone, Copy, Debug)]
pub struct StgFunInfoExtra {
    pub slow_apply: StgInt,
    pub bitmap: Bitmap,
    pub fun_type: StgFunType,
    pub arity: StgHalfWord,
}

/// A function info table.
#[derive(Clone, Copy, Debug)]
pub struct StgFunInfoTable {
    pub f: StgFunInfoExtra,
    pub i: StgInfoTable,
}

impl StgFunInfoTable {
    /// The address of the static reference table of this table, placed at
    /// `self_addr`: `srt` bytes past the end of the table.
    pub fn get_srt(&self, self_addr: usize) -> (r: usize)
        requires
            srt_address_in_range(self_addr, SIZEOF_STG_FUN_INFO_TABLE, self.i.srt.srt),
        ensures
            r == srt_address(self_addr, SIZEOF_STG_FUN_INFO_TABLE, self.i.srt.srt),
    {
        srt_of(self_addr, SIZEOF_STG_FUN_INFO_TABLE, self.i.srt.srt)
    }
}

/// A return-frame info table.
#[derive(Clone, Copy, Debug)]
pub struct StgRetInfoTable {
    pub i: StgInfoTable,
}

impl StgRetInfoTable {
    /// The address of the static reference table of this table, placed at
    /// `self_addr`: `srt` bytes past the end of the table.
    pub fn get_srt(&self, self_addr: usize) -> (r: usize)
        requires
            srt_address_in_range(self_addr, SIZEOF_STG_RET_INFO_TABLE, self.i.srt.srt),
        ensures
            r == srt_address(self_addr, SIZEOF_STG_RET_INFO_TABLE, self.i.srt.srt),
    {
        srt_of(self_addr, SIZEOF_STG_RET_INFO_TABLE, self.i.srt.srt)
    }
}

/// A thunk info table.
#[derive(Clone, Copy, Debug)]
pub struct StgThunkInfoTable {
    pub i: StgInfoTable,
}

impl StgThunkInfoTable {
    /// The thunk info table that a plain info table is.
    pub fn from_info_table(itbl: &StgInfoTable) -> (r: StgThunkInfoTable)
        ensures
            r.i == *itbl,
    {
        StgThunkInfoTable { i: *itbl }
    }

    /// The address of the static reference table of this table, placed at
    /// `self_addr`: `srt` bytes past the end of the table.
    pub fn get_srt(&self, self_addr: usize) -> (r: usize)
        requires
            srt_address_in_range(self_addr, SIZEOF_STG_THUNK_INFO_TABLE, self.i.srt.srt),
        ensures
            r == srt_address(self_addr, SIZEOF_STG_THUNK_INFO_TABLE, self.i.srt.srt),
    {
        srt_of(self_addr, SIZEOF_STG_THUNK_INFO_TABLE, self.i.srt.srt)
    }
}

/// A constructor info table.
#[derive(Clone, Copy, Debug)]
pub struct StgConInfoTable {
    pub con_desc_offset: StgInt,
    pub i: StgInfoTable,
}

} // verus!
