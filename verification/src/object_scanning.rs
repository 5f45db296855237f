//! The scanning rules: which words of a closure, a stack frame or a thread
//! the collector visits as pointers, and in which order.
use vstd::prelude::*;
use crate::stg_closures::{
    info_table_address, info_table_ref_ok, info_table_ref_valid, ClosurePayload, StgClosure, StgHeader,
    StgProfHeader, StgMutArrPtrs, StgRetFun,
    StgTSO, StgUpdateFrame,
};
use crate::stg_info_table::{
    arg_pattern, is_pointer_slot, srt_address, srt_address_in_range, StgFunInfoTable, StgLargeBitmap,
    StgInfoTable, StgRetInfoTable, StgSRTField, StgSmallBitmap, lemma_small_bitmap_make_then_read, StgThunkInfoTable, SIZEOF_STG_FUN_INFO_TABLE,
    SIZEOF_STG_RET_INFO_TABLE, SIZEOF_STG_THUNK_INFO_TABLE,
};
use crate::types::{StgClosureType, StgFunType, StgTSOBlocked};

verus! {

/// Collects the edges it is shown, in order.
#[derive(Debug)]
pub struct CollectPointerVisitor {
    pub pointers: Vec<usize>,
}

impl CollectPointerVisitor {
    pub fn new() -> (r: Self)
        ensures
            r.pointers@ == Seq::<usize>::empty(),
    {
        CollectPointerVisitor { pointers: Vec::new() }
    }

    pub fn visit_edge(&mut self, edge: usize)
        ensures
            final(self).pointers@ == old(self).pointers@.push(edge),
    {
        self.pointers.push(edge);
    }
}

/// The edges that a bitmap word selects among the first `n` payload words:
/// word `i` for each `i < n` whose bit is clear, in increasing order.
pub open spec fn bitmap_edges(payload: Seq<usize>, word: usize, n: nat) -> Seq<usize>
    decreases n,
{
    if n == 0 {
        Seq::empty()
    } else {
        let prev = bitmap_edges(payload, word, (n - 1) as nat);
        if is_pointer_slot(word, n - 1) {
            prev.push(payload[n - 1])
        } else {
            prev
        }
    }
}

/// The payload words that a pattern of pointer (`true`) and non-pointer
/// (`false`) words selects among the first `n`, in increasing order.
pub open spec fn pattern_edges(payload: Seq<usize>, pattern: Seq<bool>, n: nat) -> Seq<usize>
    decreases n,
{
    if n == 0 {
        Seq::empty()
    } else {
        let prev = pattern_edges(payload, pattern, (n - 1) as nat);
        if pattern[n - 1] {
            prev.push(payload[n - 1])
        } else {
            prev
        }
    }
}

/// A bitmap word whose first `n` slots agree with a pattern selects the
/// same payload words as the pattern.
proof fn lemma_bitmap_edges_follow_pattern(payload: Seq<usize>, word: usize, pattern: Seq<bool>, n: nat)
    requires
        n <= pattern.len(),
        forall|i: int| 0 <= i < pattern.len() ==> is_pointer_slot(word, i) == #[trigger] pattern[i],
    ensures
        bitmap_edges(payload, word, n) == pattern_edges(payload, pattern, n),
    decreases n,
{
    if n > 0 {
        lemma_bitmap_edges_follow_pattern(payload, word, pattern, (n - 1) as nat);
        assert(is_pointer_slot(word, n - 1) == pattern[n - 1]);
    }
}

/// The number of bitmap slots in a word.
pub open spec fn word_bits() -> nat {
    usize::BITS as nat
}

/// The edges that a large bitmap selects for `size` slots: each of its words
/// in turn covers the next `min(size left, BITS)` slots, and the slots a word
/// covers are matched against the payload from its first word.
pub open spec fn large_bitmap_edges(payload: Seq<usize>, words: Seq<usize>, size: nat) -> Seq<usize>
    decreases size,
{
    if size == 0 || words.len() == 0 {
        Seq::empty()
    } else {
        let len = if size < word_bits() { size } else { word_bits() };
        bitmap_edges(payload, words[0], len) + large_bitmap_edges(
            payload,
            words.drop_first(),
            (size - len) as nat,
        )
    }
}

proof fn lemma_shift_step(w: usize, i: usize)
    requires
        i < usize::MAX,
    ensures
        (w >> i) >> 1usize == w >> ((i + 1) as usize),
        ((w >> i) & 1usize == 0) == is_pointer_slot(w, i as int),
{
    let j: usize = (i + 1) as usize;
    assert((w >> i) >> 1usize == w >> j) by (bit_vector)
        requires
            j == i + 1,
    ;
}

/// A bitmap word with no bit set marks every slot as a pointer: over the
/// first `n` payload words it selects exactly those words, as scanning the
/// first `n` words of a payload does.
pub proof fn lemma_zero_bitmap_selects_prefix(payload: Seq<usize>, n: nat)
    requires
        n <= payload.len(),
    ensures
        bitmap_edges(payload, 0, n) == payload.take(n as int),
    decreases n,
{
    if n > 0 {
        lemma_zero_bitmap_selects_prefix(payload, (n - 1) as nat);
        let i: usize = (n - 1) as usize;
        assert((0usize >> i) & 1 == 0) by (bit_vector);
        assert(payload.take(n as int) =~= payload.take(n - 1).push(payload[n - 1]));
    } else {
        assert(payload.take(0) =~= Seq::<usize>::empty());
    }
}

/// A bitmap word with every bit set marks no slot as a pointer: it selects
/// nothing among up to a word's worth of slots.
pub proof fn lemma_full_bitmap_selects_nothing(payload: Seq<usize>, n: nat)
    requires
        n <= word_bits(),
    ensures
        bitmap_edges(payload, !0usize, n) == Seq::<usize>::empty(),
    decreases n,
{
    if n > 0 {
        lemma_full_bitmap_selects_nothing(payload, (n - 1) as nat);
        let i: usize = (n - 1) as usize;
        assert(i < usize::BITS ==> ((!0usize) >> i) & 1 == 1) by (bit_vector);
    }
}

/// A large bitmap over at most one word's worth of slots selects the same
/// edges as its first word read as a small bitmap of that many slots.
pub proof fn lemma_large_bitmap_within_one_word(payload: Seq<usize>, words: Seq<usize>, size: nat)
    requires
        size <= word_bits(),
        words.len() >= 1,
    ensures
        large_bitmap_edges(payload, words, size) == bitmap_edges(payload, words[0], size),
{
    if size > 0 {
        assert(large_bitmap_edges(payload, words.drop_first(), 0) =~= Seq::<usize>::empty());
        assert(bitmap_edges(payload, words[0], size) + Seq::<usize>::empty()
            =~= bitmap_edges(payload, words[0], size));
    }
}

/// Visits the payload words that the first `len` bits of `word` mark as
/// pointers.
fn scan_bitmap_word(payload: &ClosurePayload, word: usize, len: usize, ev: &mut CollectPointerVisitor)
    requires
        len <= payload.0.len(),
    ensures
        final(ev).pointers@ == old(ev).pointers@ + bitmap_edges(payload.0@, word, len as nat),
{
    let mut bitmap = word;
    let mut i: usize = 0;
    assert(word >> 0usize == word) by (bit_vector);
    while i < len
        invariant
            i <= len,
            len <= payload.0.len(),
            bitmap == word >> i,
            ev.pointers@ == old(ev).pointers@ + bitmap_edges(payload.0@, word, i as nat),
        decreases len - i,
    {
        proof {
            lemma_shift_step(word, i);
        }
        if (bitmap & 1) == 0 {
            ev.visit_edge(payload.get(i));
        }
        bitmap = bitmap >> 1;
        i += 1;
        proof {
            assert(bitmap_edges(payload.0@, word, i as nat) == if is_pointer_slot(word, i - 1) {
                bitmap_edges(payload.0@, word, (i - 1) as nat).push(payload.0@[i - 1])
            } else {
                bitmap_edges(payload.0@, word, (i - 1) as nat)
            });
        }
    }
}

/// Visits the payload words whose bit in the small bitmap is clear.
pub fn scan_small_bitmap(payload: &ClosurePayload, small_bitmap: StgSmallBitmap, ev: &mut CollectPointerVisitor)
    requires
        small_bitmap.size_spec() <= payload.0.len(),
    ensures
        final(ev).pointers@ == old(ev).pointers@ + bitmap_edges(
            payload.0@,
            small_bitmap.bits_spec(),
            small_bitmap.size_spec() as nat,
        ),
{
    let size = small_bitmap.size();
    let bitmap = small_bitmap.bits();
    scan_bitmap_word(payload, bitmap, size, ev);
}

/// Whether a large bitmap of `nwords` words covers `size` slots.
pub open spec fn large_bitmap_covers(nwords: nat, size: nat) -> bool {
    size <= nwords * word_bits()
}

/// Visits, for each word of the large bitmap in turn, the payload words that
/// its bits mark as pointers, over `size` slots in all.
pub fn scan_large_bitmap(
    payload: &ClosurePayload,
    large_bitmap: &StgLargeBitmap,
    size: usize,
    ev: &mut CollectPointerVisitor,
)
    requires
        size <= large_bitmap.size,
        large_bitmap_covers(large_bitmap.bitmap.0.len() as nat, size as nat),
        size <= payload.0.len() || word_bits() <= payload.0.len(),
    ensures
        final(ev).pointers@ == old(ev).pointers@ + large_bitmap_edges(
            payload.0@,
            large_bitmap.bitmap.0@,
            size as nat,
        ),
{
    let ghost words = large_bitmap.bitmap.0@;
    let wbits: usize = usize::BITS as usize;
    let mut b: usize = 0;
    let mut i: usize = 0;
    assert(words.skip(0) =~= words);
    while i < size
        invariant
            i <= size,
            words == large_bitmap.bitmap.0@,
            wbits == word_bits(),
            wbits > 0,
            large_bitmap_covers(words.len(), size as nat),
            size <= payload.0.len() || word_bits() <= payload.0.len(),
            b <= words.len(),
            i < size ==> i == b * wbits,
            old(ev).pointers@ + large_bitmap_edges(payload.0@, words, size as nat)
                == ev.pointers@ + large_bitmap_edges(payload.0@, words.skip(b as int), (size - i) as nat),
        decreases size - i,
    {
        proof {
            let nw = words.len() as int;
            let bb = b as int;
            let wb = wbits as int;
            assert(bb < nw) by (nonlinear_arith)
                requires
                    bb * wb < nw * wb,
                    wb > 0,
            ;
        }
        let bitmap = large_bitmap.bitmap.get_w(b);
        // the slots this word covers: the rest, at most one word's worth
        let word_len = if size - i < wbits { size - i } else { wbits };
        proof {
            let rest = words.skip(b as int);
            assert(rest[0] == bitmap);
            assert(rest.drop_first() =~= words.skip(b + 1));
            assert(large_bitmap_edges(payload.0@, rest, (size - i) as nat)
                == bitmap_edges(payload.0@, bitmap, word_len as nat)
                    + large_bitmap_edges(payload.0@, words.skip(b + 1), (size - i - word_len) as nat));
        }
        let ghost before = ev.pointers@;
        scan_bitmap_word(payload, bitmap, word_len, ev);
        proof {
            let tail = large_bitmap_edges(payload.0@, words.skip(b + 1), (size - i - word_len) as nat);
            let mid = bitmap_edges(payload.0@, bitmap, word_len as nat);
            assert(before + (mid + tail) =~= (before + mid) + tail);
            if word_len == wbits {
                let bb = b as int;
                let wb = wbits as int;
                assert((bb + 1) * wb == bb * wb + wb) by (nonlinear_arith);
            }
        }
        i += word_len;
        b += 1;
    }
    proof {
        assert(large_bitmap_edges(payload.0@, words.skip(b as int), 0) =~= Seq::<usize>::empty());
        assert(ev.pointers@ + Seq::<usize>::empty() =~= ev.pointers@);
    }
}

/// Visits the first `n_ptrs` payload words.
pub fn scan_closure_payload(payload: &ClosurePayload, n_ptrs: u32, ev: &mut CollectPointerVisitor)
    requires
        n_ptrs <= payload.0.len(),
    ensures
        final(ev).pointers@ == old(ev).pointers@ + payload.0@.take(n_ptrs as int),
{
    let mut n: u32 = 0;
    while n < n_ptrs
        invariant
            n <= n_ptrs,
            n_ptrs <= payload.0.len(),
            ev.pointers@ == old(ev).pointers@ + payload.0@.take(n as int),
        decreases n_ptrs - n,
    {
        let edge = payload.get(n as usize);
        ev.visit_edge(edge);
        proof {
            assert(payload.0@.take(n + 1) =~= payload.0@.take(n as int).push(edge));
        }
        n += 1;
    }
}

/// A mutable array's pointers are grouped into cards of
/// `1 << MUT_ARR_PTRS_CARD_BITS` elements.
pub const MUT_ARR_PTRS_CARD_BITS: usize = 7;

/// Visits the pointers of a mutable array card by card: each full card, then
/// the part of the last card that holds pointers.
pub fn scan_mut_arr_ptrs(array: &StgMutArrPtrs, ev: &mut CollectPointerVisitor)
    requires
        1 <= array.ptrs,
        array.ptrs <= array.payload.0.len(),
        array.ptrs + 128 <= usize::MAX,
    ensures
        final(ev).pointers@ == old(ev).pointers@ + array.payload.0@.take(array.ptrs as int),
{
    let ghost payload = array.payload.0@;
    let ptrs = array.ptrs;
    assert(1usize << 7usize == 128usize) by (bit_vector);
    let card: usize = 1usize << MUT_ARR_PTRS_CARD_BITS;
    assert(card == 128);
    let sum: usize = ptrs + card - 1;
    assert(sum >> 7usize == sum / 128) by (bit_vector);
    // number of cards in the array
    let n_cards: usize = sum >> MUT_ARR_PTRS_CARD_BITS;
    assert(1 <= n_cards && (n_cards - 1) * 128 < ptrs && ptrs <= n_cards * 128) by (nonlinear_arith)
        requires
            n_cards == (ptrs + 127) / 128,
            ptrs >= 1,
    ;
    assert(payload.take(0) =~= Seq::<usize>::empty());
    assert(old(ev).pointers@ + Seq::<usize>::empty() =~= old(ev).pointers@);
    // the full cards 0 .. n_cards - 1
    let mut m: usize = 0;
    while m < n_cards - 1
        invariant
            m <= n_cards - 1,
            card == 128,
            1 <= n_cards,
            (n_cards - 1) * 128 < ptrs,
            ptrs == array.ptrs,
            payload == array.payload.0@,
            ptrs <= payload.len(),
            ev.pointers@ == old(ev).pointers@ + payload.take(m * 128),
        decreases n_cards - 1 - m,
    {
        let mut p: usize = m * card;
        let end: usize = (m + 1) * card;
        while p < end
            invariant
                m * 128 <= p <= end,
                end == (m + 1) * 128,
                end <= ptrs,
                ptrs == array.ptrs,
                payload == array.payload.0@,
                ptrs <= payload.len(),
                ev.pointers@ == old(ev).pointers@ + payload.take(p as int),
            decreases end - p,
        {
            let edge = array.payload.get(p);
            ev.visit_edge(edge);
            proof {
                assert(payload.take(p + 1) =~= payload.take(p as int).push(edge));
            }
            p += 1;
        }
        m += 1;
    }
    // the last card, up to the last pointer
    let mut p: usize = (n_cards - 1) * card;
    while p < ptrs
        invariant
            p <= ptrs,
            ptrs == array.ptrs,
            payload == array.payload.0@,
            ptrs <= payload.len(),
            ev.pointers@ == old(ev).pointers@ + payload.take(p as int),
        decreases ptrs - p,
    {
        let edge = array.payload.get(p);
        ev.visit_edge(edge);
        proof {
            assert(payload.take(p + 1) =~= payload.take(p as int).push(edge));
        }
        p += 1;
    }
}

/// Whether a thread blocked this way refers to a closure in its block info.
pub open spec fn blocked_on_closure(why: StgTSOBlocked) -> bool {
    ||| why == StgTSOBlocked::BLOCKED_ON_MVAR
    ||| why == StgTSOBlocked::BLOCKED_ON_MVAR_READ
    ||| why == StgTSOBlocked::BLOCKED_ON_BLACK_HOLE
    ||| why == StgTSOBlocked::BLOCKED_ON_MSG_THROW_TO
    ||| why == StgTSOBlocked::NOT_BLOCKED
}

/// The edges of a thread, in the order they are visited.
pub open spec fn tso_edges(tso: StgTSO) -> Seq<usize> {
    seq![tso.blocked_exceptions, tso.blocking_queue, tso.trec, tso.stackobj, tso.link]
        + (if blocked_on_closure(tso.why_blocked) {
        seq![tso.block_info.closure]
    } else {
        Seq::empty()
    }) + seq![tso.tso_link_prev, tso.tso_link_next]
}

/// A thread's edges are its blocked exceptions, blocking queue, transaction
/// record, stack and link, in that order; then the closure it is blocked on
/// when it waits on an MVar (a take or a read), a black hole or a throw-to
/// message, or is not blocked; then its previous and next thread links.
pub proof fn lemma_tso_edges_by_block_reason(tso: StgTSO)
    ensures
        tso_edges(tso).take(5) == seq![tso.blocked_exceptions, tso.blocking_queue, tso.trec, tso.stackobj, tso.link],
        (tso.why_blocked == StgTSOBlocked::BLOCKED_ON_MVAR || tso.why_blocked == StgTSOBlocked::BLOCKED_ON_MVAR_READ
            || tso.why_blocked == StgTSOBlocked::BLOCKED_ON_BLACK_HOLE || tso.why_blocked
            == StgTSOBlocked::BLOCKED_ON_MSG_THROW_TO || tso.why_blocked == StgTSOBlocked::NOT_BLOCKED)
            ==> tso_edges(tso) == seq![
                tso.blocked_exceptions,
                tso.blocking_queue,
                tso.trec,
                tso.stackobj,
                tso.link,
                tso.block_info.closure,
                tso.tso_link_prev,
                tso.tso_link_next,
            ],
        !(tso.why_blocked == StgTSOBlocked::BLOCKED_ON_MVAR || tso.why_blocked == StgTSOBlocked::BLOCKED_ON_MVAR_READ
            || tso.why_blocked == StgTSOBlocked::BLOCKED_ON_BLACK_HOLE || tso.why_blocked
            == StgTSOBlocked::BLOCKED_ON_MSG_THROW_TO || tso.why_blocked == StgTSOBlocked::NOT_BLOCKED)
            ==> tso_edges(tso) == seq![
                tso.blocked_exceptions,
                tso.blocking_queue,
                tso.trec,
                tso.stackobj,
                tso.link,
                tso.tso_link_prev,
                tso.tso_link_next,
            ],
{
    assert(tso_edges(tso).take(5) =~= seq![tso.blocked_exceptions, tso.blocking_queue, tso.trec, tso.stackobj, tso.link]);
    if blocked_on_closure(tso.why_blocked) {
        assert(tso_edges(tso) =~= seq![
            tso.blocked_exceptions,
            tso.blocking_queue,
            tso.trec,
            tso.stackobj,
            tso.link,
            tso.block_info.closure,
            tso.tso_link_prev,
            tso.tso_link_next,
        ]);
    } else {
        assert(tso_edges(tso) =~= seq![
            tso.blocked_exceptions,
            tso.blocking_queue,
            tso.trec,
            tso.stackobj,
            tso.link,
            tso.tso_link_prev,
            tso.tso_link_next,
        ]);
    }
}

/// Visits the pointers of a thread. The bound call's thread pointer is only
/// reached through a null `bound`, which cannot be read, so a thread must
/// have a non-null `bound`.
pub fn scan_TSO(tso: &StgTSO, ev: &mut CollectPointerVisitor)
    requires
        tso.bound != 0,
    ensures
        final(ev).pointers@ == old(ev).pointers@ + tso_edges(*tso),
{
    ev.visit_edge(tso.blocked_exceptions);
    ev.visit_edge(tso.blocking_queue);
    ev.visit_edge(tso.trec);
    ev.visit_edge(tso.stackobj);
    ev.visit_edge(tso.link);
    let ghost mid = ev.pointers@;
    if tso.why_blocked == StgTSOBlocked::BLOCKED_ON_MVAR || tso.why_blocked
        == StgTSOBlocked::BLOCKED_ON_MVAR_READ || tso.why_blocked
        == StgTSOBlocked::BLOCKED_ON_BLACK_HOLE || tso.why_blocked
        == StgTSOBlocked::BLOCKED_ON_MSG_THROW_TO || tso.why_blocked
        == StgTSOBlocked::NOT_BLOCKED {
        ev.visit_edge(tso.block_info.closure);
    }
    ev.visit_edge(tso.tso_link_prev);
    ev.visit_edge(tso.tso_link_next);
    assert(ev.pointers@ =~= old(ev).pointers@ + tso_edges(*tso));
}

/// Whether a static reference table can be reached from an info table of
/// `size` bytes at `addr`: a zero offset means there is none; any other
/// offset must lead to an address.
pub open spec fn srt_in_range(addr: usize, size: usize, srt: i32) -> bool {
    srt != 0 ==> srt_address_in_range(addr, size, srt)
}

/// The edge to the static reference table of an info table of `size` bytes
/// at `addr`: none for a zero offset, else the table `srt` bytes past its end.
pub open spec fn srt_edges(addr: usize, size: usize, srt: i32) -> Seq<usize> {
    if srt == 0 {
        Seq::empty()
    } else {
        seq![srt_address(addr, size, srt)]
    }
}

/// Visits the static reference table of a return frame's info table, placed
/// at `itbl_addr`.
pub fn scan_srt(ret_info_table: &StgRetInfoTable, itbl_addr: usize, ev: &mut CollectPointerVisitor)
    requires
        srt_in_range(itbl_addr, SIZEOF_STG_RET_INFO_TABLE, ret_info_table.i.srt.srt),
    ensures
        final(ev).pointers@ == old(ev).pointers@ + srt_edges(itbl_addr, SIZEOF_STG_RET_INFO_TABLE, ret_info_table.i.srt.srt),
{
    if ret_info_table.i.srt.srt != 0 {
        let srt = ret_info_table.get_srt(itbl_addr);
        ev.visit_edge(srt);
        assert(ev.pointers@ =~= old(ev).pointers@ + seq![srt]);
    } else {
        assert(old(ev).pointers@ + Seq::<usize>::empty() =~= old(ev).pointers@);
    }
}

/// Visits the static reference table of a thunk info table placed at
/// `itbl_addr`.
pub fn scan_srt_thunk(thunk_info_table: &StgThunkInfoTable, itbl_addr: usize, ev: &mut CollectPointerVisitor)
    requires
        srt_in_range(itbl_addr, SIZEOF_STG_THUNK_INFO_TABLE, thunk_info_table.i.srt.srt),
    ensures
        final(ev).pointers@ == old(ev).pointers@ + srt_edges(itbl_addr, SIZEOF_STG_THUNK_INFO_TABLE, thunk_info_table.i.srt.srt),
{
    if thunk_info_table.i.srt.srt != 0 {
        let srt = thunk_info_table.get_srt(itbl_addr);
        ev.visit_edge(srt);
        assert(ev.pointers@ =~= old(ev).pointers@ + seq![srt]);
    } else {
        assert(old(ev).pointers@ + Seq::<usize>::empty() =~= old(ev).pointers@);
    }
}

/// Visits the static reference table of a function info table placed at
/// `itbl_addr`.
pub fn scan_srt_fun(fun_info_table: &StgFunInfoTable, itbl_addr: usize, ev: &mut CollectPointerVisitor)
    requires
        srt_in_range(itbl_addr, SIZEOF_STG_FUN_INFO_TABLE, fun_info_table.i.srt.srt),
    ensures
        final(ev).pointers@ == old(ev).pointers@ + srt_edges(itbl_addr, SIZEOF_STG_FUN_INFO_TABLE, fun_info_table.i.srt.srt),
{
    if fun_info_table.i.srt.srt != 0 {
        let srt = fun_info_table.get_srt(itbl_addr);
        ev.visit_edge(srt);
        assert(ev.pointers@ =~= old(ev).pointers@ + seq![srt]);
    } else {
        assert(old(ev).pointers@ + Seq::<usize>::empty() =~= old(ev).pointers@);
    }
}

// ------------------------------------------------------------------------
// Partial applications
// ------------------------------------------------------------------------

/// Whether the payload of a partial application can be scanned with the
/// layout of the applied function: its bitmap fits the payload, and for a
/// large bitmap, the bitmap is given and covers `size` slots.
pub open spec fn pap_payload_scannable(
    fun_info: StgFunInfoTable,
    large_bitmap: Option<&StgLargeBitmap>,
    payload: Seq<usize>,
    size: usize,
) -> bool {
    match fun_info.f.fun_type {
        StgFunType::ARG_GEN => StgSmallBitmap(fun_info.f.bitmap.0 as usize).size_spec() <= payload.len(),
        StgFunType::ARG_GEN_BIG => match large_bitmap {
            Some(lb) => {
                &&& size <= lb.size
                &&& large_bitmap_covers(lb.bitmap.0@.len(), size as nat)
                &&& (size <= payload.len() || word_bits() <= payload.len())
            },
            None => false,
        },
        _ => arg_pattern(fun_info.f.fun_type).len() <= payload.len(),
    }
}

/// The edges of a partial application's payload: the function's own small
/// bitmap, its large bitmap over `size` slots, or the bitmap of its standard
/// argument pattern.
pub open spec fn pap_payload_edges(
    fun_info: StgFunInfoTable,
    large_bitmap: Option<&StgLargeBitmap>,
    payload: Seq<usize>,
    size: usize,
) -> Seq<usize> {
    match fun_info.f.fun_type {
        StgFunType::ARG_GEN => {
            let sb = StgSmallBitmap(fun_info.f.bitmap.0 as usize);
            bitmap_edges(payload, sb.bits_spec(), sb.size_spec() as nat)
        },
        StgFunType::ARG_GEN_BIG => large_bitmap_edges(
            payload,
            large_bitmap.unwrap().bitmap.0@,
            size as nat,
        ),
        _ => pattern_edges(payload, arg_pattern(fun_info.f.fun_type), arg_pattern(fun_info.f.fun_type).len()),
    }
}

/// Visits the pointers among the arguments of a partial application, laid
/// out as the applied function's info table says. `large_bitmap` is the
/// bitmap that the function's large-bitmap reference leads to; only a
/// function of type `ARG_GEN_BIG` has one.
pub fn scan_PAP_payload(
    fun_info: &StgFunInfoTable,
    large_bitmap: Option<&StgLargeBitmap>,
    payload: &ClosurePayload,
    size: usize,
    ev: &mut CollectPointerVisitor,
)
    requires
        fun_info.i.type_ != StgClosureType::PAP,
        pap_payload_scannable(*fun_info, large_bitmap, payload.0@, size),
    ensures
        final(ev).pointers@ == old(ev).pointers@ + pap_payload_edges(
            *fun_info,
            large_bitmap,
            payload.0@,
            size,
        ),
{
    match fun_info.f.fun_type {
        StgFunType::ARG_GEN => {
            let small_bitmap: StgSmallBitmap = fun_info.f.bitmap.small_bitmap();
            scan_small_bitmap(payload, small_bitmap, ev);
        },
        StgFunType::ARG_GEN_BIG => {
            match large_bitmap {
                Some(lb) => {
                    scan_large_bitmap(payload, lb, size, ev);
                },
                None => {},
            }
        },
        _ => {
            let small_bitmap = fun_info.f.fun_type.get_small_bitmap();
            scan_small_bitmap(payload, small_bitmap, ev);
            proof {
                lemma_bitmap_edges_follow_pattern(
                    payload.0@,
                    small_bitmap.bits_spec(),
                    arg_pattern(fun_info.f.fun_type),
                    arg_pattern(fun_info.f.fun_type).len(),
                );
            }
        },
    }
}

// ------------------------------------------------------------------------
// Stacks
// ------------------------------------------------------------------------

/// A stack frame as the stack walk presents it: the frame, and for return
/// frames the bitmap that describes their payload and the return info table
/// that their info pointer leads to.
#[derive(Debug)]
pub enum StackFrame {
    UPD_FRAME(StgUpdateFrame),
    RET_SMALL(StgClosure, StgSmallBitmap, StgRetInfoTable),
    RET_BIG(StgClosure, StgLargeBitmap, StgRetInfoTable),
    RET_FUN_SMALL(StgRetFun, StgSmallBitmap, StgRetInfoTable),
    RET_FUN_LARGE(StgRetFun, StgLargeBitmap, StgRetInfoTable),
    /// a frame of any other type, which the scan does not handle
    OTHER_FRAME(StgClosureType),
}

/// Whether the stack scan handles a frame and can read all it needs of it:
/// a return frame comes with a return info table of its own frame type.
pub open spec fn frame_scannable(frame: StackFrame) -> bool {
    match frame {
        StackFrame::UPD_FRAME(_) => true,
        StackFrame::RET_SMALL(f, bm, itbl) => {
            &&& itbl.i.type_ == StgClosureType::RET_SMALL
            &&& bm.size_spec() <= f.payload.0@.len()
            &&& info_table_ref_ok(f.header.info_table)
            &&& srt_in_range(info_table_address(f.header.info_table), SIZEOF_STG_RET_INFO_TABLE, itbl.i.srt.srt)
        },
        StackFrame::RET_BIG(f, lb, itbl) => {
            &&& itbl.i.type_ == StgClosureType::RET_BIG
            &&& large_bitmap_covers(lb.bitmap.0@.len(), lb.size as nat)
            &&& (lb.size <= f.payload.0@.len() || word_bits() <= f.payload.0@.len())
            &&& info_table_ref_ok(f.header.info_table)
            &&& srt_in_range(info_table_address(f.header.info_table), SIZEOF_STG_RET_INFO_TABLE, itbl.i.srt.srt)
        },
        StackFrame::RET_FUN_SMALL(f, bm, itbl) => {
            &&& itbl.i.type_ == StgClosureType::RET_FUN
            &&& bm.size_spec() <= f.payload.0@.len()
            &&& info_table_ref_ok(f.info_table)
            &&& srt_in_range(info_table_address(f.info_table), SIZEOF_STG_RET_INFO_TABLE, itbl.i.srt.srt)
        },
        StackFrame::RET_FUN_LARGE(f, lb, itbl) => {
            &&& itbl.i.type_ == StgClosureType::RET_FUN
            &&& large_bitmap_covers(lb.bitmap.0@.len(), lb.size as nat)
            &&& (lb.size <= f.payload.0@.len() || word_bits() <= f.payload.0@.len())
            &&& info_table_ref_ok(f.info_table)
            &&& srt_in_range(info_table_address(f.info_table), SIZEOF_STG_RET_INFO_TABLE, itbl.i.srt.srt)
        },
        StackFrame::OTHER_FRAME(_) => false,
    }
}

/// The edges of one stack frame, in the order they are visited.
pub open spec fn frame_edges(frame: StackFrame) -> Seq<usize> {
    match frame {
        StackFrame::UPD_FRAME(f) => seq![f.updatee],
        StackFrame::RET_SMALL(f, bm, itbl) => bitmap_edges(f.payload.0@, bm.bits_spec(), bm.size_spec() as nat)
            + srt_edges(info_table_address(f.header.info_table), SIZEOF_STG_RET_INFO_TABLE, itbl.i.srt.srt),
        StackFrame::RET_BIG(f, lb, itbl) => large_bitmap_edges(f.payload.0@, lb.bitmap.0@, lb.size as nat)
            + srt_edges(info_table_address(f.header.info_table), SIZEOF_STG_RET_INFO_TABLE, itbl.i.srt.srt),
        StackFrame::RET_FUN_SMALL(f, bm, itbl) => seq![f.fun]
            + bitmap_edges(f.payload.0@, bm.bits_spec(), bm.size_spec() as nat)
            + srt_edges(info_table_address(f.info_table), SIZEOF_STG_RET_INFO_TABLE, itbl.i.srt.srt),
        StackFrame::RET_FUN_LARGE(f, lb, itbl) => seq![f.fun]
            + large_bitmap_edges(f.payload.0@, lb.bitmap.0@, lb.size as nat)
            + srt_edges(info_table_address(f.info_table), SIZEOF_STG_RET_INFO_TABLE, itbl.i.srt.srt),
        StackFrame::OTHER_FRAME(_) => Seq::empty(),
    }
}

/// The same return info table with a zero static-reference-table offset.
pub open spec fn without_srt(itbl: StgRetInfoTable) -> StgRetInfoTable {
    StgRetInfoTable {
        i: StgInfoTable {
            code: itbl.i.code,
            prof: itbl.i.prof,
            layout: itbl.i.layout,
            type_: itbl.i.type_,
            srt: StgSRTField { srt: 0 },
        },
    }
}

/// The address of the return info table that a return frame's info pointer
/// leads to.
pub open spec fn frame_info_table_address(frame: StackFrame) -> usize {
    match frame {
        StackFrame::RET_SMALL(f, _, _) => info_table_address(f.header.info_table),
        StackFrame::RET_BIG(f, _, _) => info_table_address(f.header.info_table),
        StackFrame::RET_FUN_SMALL(f, _, _) => info_table_address(f.info_table),
        StackFrame::RET_FUN_LARGE(f, _, _) => info_table_address(f.info_table),
        _ => 0,
    }
}

/// Every kind of return frame, small or large bitmap, with or without a
/// function, visits its static reference table last: a non-zero offset adds
/// exactly the table's address, just past the return info table, to the
/// edges the frame has without one.
pub proof fn lemma_return_frame_visits_srt_last(frame: StackFrame)
    ensures
        ({
            let addr = frame_info_table_address(frame);
            match frame {
                StackFrame::RET_SMALL(f, bm, itbl) => itbl.i.srt.srt != 0 ==> frame_edges(frame)
                    == frame_edges(StackFrame::RET_SMALL(f, bm, without_srt(itbl))).push(
                    (addr + SIZEOF_STG_RET_INFO_TABLE + itbl.i.srt.srt) as usize,
                ),
                StackFrame::RET_BIG(f, lb, itbl) => itbl.i.srt.srt != 0 ==> frame_edges(frame)
                    == frame_edges(StackFrame::RET_BIG(f, lb, without_srt(itbl))).push(
                    (addr + SIZEOF_STG_RET_INFO_TABLE + itbl.i.srt.srt) as usize,
                ),
                StackFrame::RET_FUN_SMALL(f, bm, itbl) => itbl.i.srt.srt != 0 ==> frame_edges(frame)
                    == frame_edges(StackFrame::RET_FUN_SMALL(f, bm, without_srt(itbl))).push(
                    (addr + SIZEOF_STG_RET_INFO_TABLE + itbl.i.srt.srt) as usize,
                ),
                StackFrame::RET_FUN_LARGE(f, lb, itbl) => itbl.i.srt.srt != 0 ==> frame_edges(frame)
                    == frame_edges(StackFrame::RET_FUN_LARGE(f, lb, without_srt(itbl))).push(
                    (addr + SIZEOF_STG_RET_INFO_TABLE + itbl.i.srt.srt) as usize,
                ),
                _ => true,
            }
        }),
{
    let addr = frame_info_table_address(frame);
    match frame {
        StackFrame::RET_SMALL(f, bm, itbl) => {
            let base = bitmap_edges(f.payload.0@, bm.bits_spec(), bm.size_spec() as nat);
            assert(base + Seq::<usize>::empty() =~= base);
            assert(base + seq![(addr + SIZEOF_STG_RET_INFO_TABLE + itbl.i.srt.srt) as usize] =~= base.push(
                (addr + SIZEOF_STG_RET_INFO_TABLE + itbl.i.srt.srt) as usize,
            ));
        },
        StackFrame::RET_BIG(f, lb, itbl) => {
            let base = large_bitmap_edges(f.payload.0@, lb.bitmap.0@, lb.size as nat);
            assert(base + Seq::<usize>::empty() =~= base);
            assert(base + seq![(addr + SIZEOF_STG_RET_INFO_TABLE + itbl.i.srt.srt) as usize] =~= base.push(
                (addr + SIZEOF_STG_RET_INFO_TABLE + itbl.i.srt.srt) as usize,
            ));
        },
        StackFrame::RET_FUN_SMALL(f, bm, itbl) => {
            let base = seq![f.fun] + bitmap_edges(f.payload.0@, bm.bits_spec(), bm.size_spec() as nat);
            assert(base + Seq::<usize>::empty() =~= base);
            assert(base + seq![(addr + SIZEOF_STG_RET_INFO_TABLE + itbl.i.srt.srt) as usize] =~= base.push(
                (addr + SIZEOF_STG_RET_INFO_TABLE + itbl.i.srt.srt) as usize,
            ));
        },
        StackFrame::RET_FUN_LARGE(f, lb, itbl) => {
            let base = seq![f.fun] + large_bitmap_edges(f.payload.0@, lb.bitmap.0@, lb.size as nat);
            assert(base + Seq::<usize>::empty() =~= base);
            assert(base + seq![(addr + SIZEOF_STG_RET_INFO_TABLE + itbl.i.srt.srt) as usize] =~= base.push(
                (addr + SIZEOF_STG_RET_INFO_TABLE + itbl.i.srt.srt) as usize,
            ));
        },
        _ => {},
    }
}

/// A return frame with a large bitmap of at most one word's worth of slots
/// visits what the same frame visits with that word as a small bitmap of
/// that many slots; and a return frame of a function visits the function
/// first, then what a plain return frame with the same info pointer,
/// payload, bitmap and table visits.
pub proof fn lemma_return_frame_kinds_agree(
    f: StgClosure,
    rf: StgRetFun,
    lb: StgLargeBitmap,
    itbl: StgRetInfoTable,
)
    requires
        lb.size < 64,
        lb.size <= word_bits(),
        lb.bitmap.0@.len() >= 1,
        lb.bitmap.0@[0] * 64 + lb.size <= usize::MAX,
    ensures
        frame_edges(StackFrame::RET_BIG(f, lb, itbl)) == frame_edges(
            StackFrame::RET_SMALL(f, StgSmallBitmap::make_spec(lb.size, lb.bitmap.0@[0]), itbl),
        ),
        frame_edges(StackFrame::RET_FUN_LARGE(rf, lb, itbl)) == seq![rf.fun] + frame_edges(
            StackFrame::RET_BIG(
                StgClosure {
                    header: StgHeader { info_table: rf.info_table, prof_header: StgProfHeader {} },
                    payload: rf.payload,
                },
                lb,
                itbl,
            ),
        ),
{
    lemma_large_bitmap_within_one_word(f.payload.0@, lb.bitmap.0@, lb.size as nat);
    lemma_small_bitmap_make_then_read(lb.size, lb.bitmap.0@[0]);
    let g = StgClosure {
        header: StgHeader { info_table: rf.info_table, prof_header: StgProfHeader {} },
        payload: rf.payload,
    };
    let l = large_bitmap_edges(rf.payload.0@, lb.bitmap.0@, lb.size as nat);
    let t = srt_edges(info_table_address(rf.info_table), SIZEOF_STG_RET_INFO_TABLE, itbl.i.srt.srt);
    assert(seq![rf.fun] + l + t =~= seq![rf.fun] + (l + t));
}

/// The edges of the first `n` frames of a stack, frame after frame.
pub open spec fn stack_edges(frames: Seq<StackFrame>, n: nat) -> Seq<usize>
    decreases n,
{
    if n == 0 {
        Seq::empty()
    } else {
        stack_edges(frames, (n - 1) as nat) + frame_edges(frames[n - 1])
    }
}

/// Visits the pointers of one stack frame.
fn scan_frame(frame: &StackFrame, ev: &mut CollectPointerVisitor)
    requires
        frame_scannable(*frame),
    ensures
        final(ev).pointers@ == old(ev).pointers@ + frame_edges(*frame),
{
    let ghost start = ev.pointers@;
    match frame {
        StackFrame::UPD_FRAME(f) => {
            ev.visit_edge(f.updatee);
            assert(ev.pointers@ =~= start + seq![f.updatee]);
        },
        StackFrame::RET_SMALL(f, bitmap, itbl) => {
            scan_small_bitmap(&f.payload, *bitmap, ev);
            let ghost mid = ev.pointers@;
            let itbl_addr = f.header.info_table.get_info_table();
            scan_srt(itbl, itbl_addr, ev);
            assert(ev.pointers@ =~= start + frame_edges(*frame));
        },
        StackFrame::RET_BIG(f, bitmap_ref, itbl) => {
            let size: usize = bitmap_ref.size;
            scan_large_bitmap(&f.payload, bitmap_ref, size, ev);
            let itbl_addr = f.header.info_table.get_info_table();
            scan_srt(itbl, itbl_addr, ev);
            assert(ev.pointers@ =~= start + frame_edges(*frame));
        },
        StackFrame::RET_FUN_SMALL(f, bitmap, itbl) => {
            ev.visit_edge(f.fun);
            scan_small_bitmap(&f.payload, *bitmap, ev);
            let itbl_addr = f.info_table.get_info_table();
            scan_srt(itbl, itbl_addr, ev);
            assert(ev.pointers@ =~= start + frame_edges(*frame));
        },
        StackFrame::RET_FUN_LARGE(f, bitmap_ref, itbl) => {
            ev.visit_edge(f.fun);
            let size: usize = bitmap_ref.size;
            scan_large_bitmap(&f.payload, bitmap_ref, size, ev);
            let itbl_addr = f.info_table.get_info_table();
            scan_srt(itbl, itbl_addr, ev);
            assert(ev.pointers@ =~= start + frame_edges(*frame));
        },
        StackFrame::OTHER_FRAME(_) => {
            assert(false);
        },
    }
}

/// Visits the pointers of every frame of a stack, frame after frame.
pub fn scan_stack(stack: &Vec<StackFrame>, ev: &mut CollectPointerVisitor)
    requires
        forall|i: int| 0 <= i < stack@.len() ==> frame_scannable(#[trigger] stack@[i]),
    ensures
        final(ev).pointers@ == old(ev).pointers@ + stack_edges(stack@, stack@.len()),
{
    let mut i: usize = 0;
    assert(old(ev).pointers@ + Seq::<usize>::empty() =~= old(ev).pointers@);
    while i < stack.len()
        invariant
            i <= stack@.len(),
            forall|k: int| 0 <= k < stack@.len() ==> frame_scannable(#[trigger] stack@[k]),
            ev.pointers@ == old(ev).pointers@ + stack_edges(stack@, i as nat),
        decreases stack@.len() - i,
    {
        let ghost before = ev.pointers@;
        scan_frame(&stack[i], ev);
        proof {
            assert(stack_edges(stack@, (i + 1) as nat) == stack_edges(stack@, i as nat) + frame_edges(stack@[i as int]));
            assert(old(ev).pointers@ + (stack_edges(stack@, i as nat) + frame_edges(stack@[i as int]))
                =~= (old(ev).pointers@ + stack_edges(stack@, i as nat)) + frame_edges(stack@[i as int]));
        }
        i += 1;
    }
}

// ------------------------------------------------------------------------
// Checks that a caller makes before scanning
// ------------------------------------------------------------------------

/// Whether a static reference table can be reached: `srt_in_range`.
pub fn srt_reachable(addr: usize, size: usize, srt: i32) -> (r: bool)
    ensures
        r == srt_in_range(addr, size, srt),
{
    if srt == 0 {
        return true;
    }
    if addr > usize::MAX - size {
        return false;
    }
    let end: usize = addr + size;
    if srt >= 0 {
        let fwd: usize = srt as usize;
        end <= usize::MAX - fwd
    } else {
        let back: usize = (-(srt as i64)) as usize;
        end >= back
    }
}

/// Whether a large bitmap of `nwords` words covers `size` slots.
pub fn large_bitmap_covers_check(nwords: usize, size: usize) -> (r: bool)
    ensures
        r == large_bitmap_covers(nwords as nat, size as nat),
{
    let bits: u128 = usize::BITS as u128;
    assert((nwords as int) * (bits as int) <= 0xffff_ffff_ffff_ffffint * 64) by (nonlinear_arith)
        requires
            nwords <= 0xffff_ffff_ffff_ffffint,
            bits <= 64,
            0 <= nwords,
            0 <= bits,
    ;
    let total: u128 = (nwords as u128) * bits;
    (size as u128) <= total
}

/// Whether the stack scan handles a frame: `frame_scannable`.
pub fn frame_can_be_scanned(frame: &StackFrame) -> (r: bool)
    ensures
        r == frame_scannable(*frame),
{
    match frame {
        StackFrame::UPD_FRAME(_) => true,
        StackFrame::RET_SMALL(f, bm, itbl) => {
            itbl.i.type_ == StgClosureType::RET_SMALL && bm.size() <= f.payload.0.len()
                && info_table_ref_valid(f.header.info_table) && srt_reachable(
                f.header.info_table.get_info_table(),
                SIZEOF_STG_RET_INFO_TABLE,
                itbl.i.srt.srt,
            )
        },
        StackFrame::RET_BIG(f, lb, itbl) => {
            itbl.i.type_ == StgClosureType::RET_BIG && large_bitmap_covers_check(lb.bitmap.0.len(), lb.size)
                && (lb.size <= f.payload.0.len() || (usize::BITS as usize) <= f.payload.0.len())
                && info_table_ref_valid(f.header.info_table) && srt_reachable(
                f.header.info_table.get_info_table(),
                SIZEOF_STG_RET_INFO_TABLE,
                itbl.i.srt.srt,
            )
        },
        StackFrame::RET_FUN_SMALL(f, bm, itbl) => {
            itbl.i.type_ == StgClosureType::RET_FUN && bm.size() <= f.payload.0.len()
                && info_table_ref_valid(f.info_table) && srt_reachable(
                f.info_table.get_info_table(),
                SIZEOF_STG_RET_INFO_TABLE,
                itbl.i.srt.srt,
            )
        },
        StackFrame::RET_FUN_LARGE(f, lb, itbl) => {
            itbl.i.type_ == StgClosureType::RET_FUN && large_bitmap_covers_check(lb.bitmap.0.len(), lb.size)
                && (lb.size <= f.payload.0.len() || (usize::BITS as usize) <= f.payload.0.len())
                && info_table_ref_valid(f.info_table) && srt_reachable(
                f.info_table.get_info_table(),
                SIZEOF_STG_RET_INFO_TABLE,
                itbl.i.srt.srt,
            )
        },
        StackFrame::OTHER_FRAME(_) => false,
    }
}

/// Whether the stack scan handles every frame of a stack.
pub fn stack_can_be_scanned(stack: &Vec<StackFrame>) -> (r: bool)
    ensures
        r == (forall|i: int| 0 <= i < stack@.len() ==> frame_scannable(#[trigger] stack@[i])),
{
    let mut i: usize = 0;
    while i < stack.len()
        invariant
            i <= stack@.len(),
            forall|k: int| 0 <= k < i ==> frame_scannable(#[trigger] stack@[k]),
        decreases stack@.len() - i,
    {
        if !frame_can_be_scanned(&stack[i]) {
            return false;
        }
        i += 1;
    }
    true
}

/// Whether a partial application's payload can be scanned with the applied
/// function's layout: `pap_payload_scannable`, for a function that is not
/// itself a partial application.
pub fn pap_payload_can_be_scanned(
    fun_info: &StgFunInfoTable,
    large_bitmap: Option<&StgLargeBitmap>,
    payload: &ClosurePayload,
    size: usize,
) -> (r: bool)
    ensures
        r == (fun_info.i.type_ != StgClosureType::PAP && pap_payload_scannable(
            *fun_info,
            large_bitmap,
            payload.0@,
            size,
        )),
{
    if fun_info.i.type_ == StgClosureType::PAP {
        return false;
    }
    match fun_info.f.fun_type {
        StgFunType::ARG_GEN => fun_info.f.bitmap.small_bitmap().size() <= payload.0.len(),
        StgFunType::ARG_GEN_BIG => match large_bitmap {
            Some(lb) => size <= lb.size && large_bitmap_covers_check(lb.bitmap.0.len(), size) && (size
                <= payload.0.len() || (usize::BITS as usize) <= payload.0.len()),
            None => false,
        },
        _ => fun_info.f.fun_type.get_small_bitmap().size() <= payload.0.len(),
    }
}

} // verus!
