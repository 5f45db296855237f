//! Visiting the pointers inside a closure, chosen by its closure type.
use vstd::prelude::*;
use crate::object_scanning::{
    pap_payload_edges, pap_payload_scannable, scan_PAP_payload, scan_TSO,
    scan_closure_payload, scan_mut_arr_ptrs, scan_srt_fun, scan_srt_thunk, scan_stack, srt_edges,
    srt_in_range, srt_reachable, stack_can_be_scanned, pap_payload_can_be_scanned,
    stack_edges, tso_edges, frame_scannable, CollectPointerVisitor, StackFrame,
};
use crate::stg_closures::{
    info_table_address, info_table_ref_ok, info_table_ref_valid, StgAP, StgAP_STACK, StgArrBytes, StgBlockingQueue,
    StgClosure, StgInd, StgIndStatic, StgMVar, StgMutArrPtrs, StgMutVar, StgSelector,
    StgSmallMutArrPtrs, StgStack, StgThunkHeader, StgTRecChunk, StgTSO, StgTVar, StgThunk, StgPAP, StgWeak,
    TRecEntry, TREC_CHUNK_NUM_ENTRIES,
};
use crate::stg_info_table::{
    StgFunInfoExtra, StgFunInfoTable, StgInfoTable, StgLargeBitmap,
    StgThunkInfoTable, SIZEOF_STG_FUN_INFO_EXTRA, SIZEOF_STG_FUN_INFO_TABLE,
    SIZEOF_STG_THUNK_INFO_TABLE,
};
use crate::types::StgClosureType;

verus! {

/// The scanning side of the collector binding.
#[derive(Debug)]
pub struct VMScanning {}

/// The layout of the function that a partial application applies, as read
/// through the function's info pointer: its info table and, for a function
/// of type `ARG_GEN_BIG`, the large bitmap its reference leads to.
#[derive(Debug)]
pub struct FunLayout {
    pub info: StgFunInfoTable,
    pub large_bitmap: Option<StgLargeBitmap>,
}

/// A closure as the scanner sees it, by closure type. A stack, or the stack
/// chunk of an `AP_STACK`, comes with its frames as the stack walk presents
/// them; a static function with the extra fields of its info table.
#[derive(Debug)]
pub enum Closure {
    MVar(StgMVar),
    TVar(StgTVar),
    Thunk(StgThunk),
    Constr(StgClosure),
    Fun(StgClosure),
    Weak(StgWeak),
    MutVar(StgMutVar),
    BlockingQueue(StgBlockingQueue),
    ThunkSelector(StgSelector),
    ApStack(StgAP_STACK, Vec<StackFrame>),
    PartialAP(StgPAP, FunLayout),
    AP(StgAP, FunLayout),
    ArrBytes(StgArrBytes),
    ArrMutPtr(StgMutArrPtrs),
    ArrMutPtrSmall(StgSmallMutArrPtrs),
    TSO(StgTSO),
    Stack(StgStack, Vec<StackFrame>),
    TRecChunk(StgTRecChunk),
    Indirect(StgInd),
    IndirectStatic(StgIndStatic),
    ThunkStatic(StgThunk),
    FunStatic(StgClosure, StgFunInfoExtra),
    /// a closure of any other type, which the scanner does not handle
    Other(StgClosureType),
}

/// The large bitmap of a function layout, as an optional reference.
pub open spec fn layout_large_bitmap(layout: &FunLayout) -> Option<&StgLargeBitmap> {
    match &layout.large_bitmap {
        Some(lb) => Some(lb),
        None => None,
    }
}

/// The edges of the first `n` entries of a transaction-record chunk: the
/// variable, the expected value and the new value of each.
pub open spec fn trec_entry_edges(entries: Seq<TRecEntry>, n: nat) -> Seq<usize>
    decreases n,
{
    if n == 0 {
        Seq::empty()
    } else {
        let e = entries[n - 1];
        trec_entry_edges(entries, (n - 1) as nat) + seq![e.tvar, e.expected_value, e.new_value]
    }
}

/// Whether a closure's variant is the one of the closure type `t` that its
/// info table gives.
pub open spec fn closure_has_type(closure: &Closure, t: StgClosureType) -> bool {
    match closure {
        Closure::MVar(_) => t == StgClosureType::MVAR_CLEAN || t == StgClosureType::MVAR_DIRTY,
        Closure::TVar(_) => t == StgClosureType::TVAR,
        Closure::Thunk(_) => t == StgClosureType::THUNK || t == StgClosureType::THUNK_1_0 || t == StgClosureType::THUNK_0_1 || t == StgClosureType::THUNK_2_0 || t == StgClosureType::THUNK_1_1 || t == StgClosureType::THUNK_0_2,
        Closure::Constr(_) => t == StgClosureType::CONSTR || t == StgClosureType::CONSTR_1_0 || t == StgClosureType::CONSTR_0_1 || t == StgClosureType::CONSTR_2_0 || t == StgClosureType::CONSTR_1_1 || t == StgClosureType::CONSTR_0_2 || t == StgClosureType::CONSTR_NOCAF,
        Closure::Fun(_) => t == StgClosureType::FUN || t == StgClosureType::FUN_1_0 || t == StgClosureType::FUN_0_1 || t == StgClosureType::FUN_2_0 || t == StgClosureType::FUN_1_1 || t == StgClosureType::FUN_0_2,
        Closure::Weak(_) => t == StgClosureType::WEAK,
        Closure::MutVar(_) => t == StgClosureType::MUT_VAR_CLEAN || t == StgClosureType::MUT_VAR_DIRTY,
        Closure::BlockingQueue(_) => t == StgClosureType::BLOCKING_QUEUE,
        Closure::ThunkSelector(_) => t == StgClosureType::THUNK_SELECTOR,
        Closure::ApStack(_, _) => t == StgClosureType::AP_STACK,
        Closure::PartialAP(_, _) => t == StgClosureType::PAP,
        Closure::AP(_, _) => t == StgClosureType::AP,
        Closure::ArrBytes(_) => t == StgClosureType::ARR_WORDS,
        Closure::ArrMutPtr(_) => t == StgClosureType::MUT_ARR_PTRS_CLEAN || t == StgClosureType::MUT_ARR_PTRS_DIRTY || t == StgClosureType::MUT_ARR_PTRS_FROZEN_DIRTY || t == StgClosureType::MUT_ARR_PTRS_FROZEN_CLEAN,
        Closure::ArrMutPtrSmall(_) => t == StgClosureType::SMALL_MUT_ARR_PTRS_CLEAN || t == StgClosureType::SMALL_MUT_ARR_PTRS_DIRTY || t == StgClosureType::SMALL_MUT_ARR_PTRS_FROZEN_DIRTY || t == StgClosureType::SMALL_MUT_ARR_PTRS_FROZEN_CLEAN,
        Closure::TSO(_) => t == StgClosureType::TSO,
        Closure::Stack(_, _) => t == StgClosureType::STACK,
        Closure::TRecChunk(_) => t == StgClosureType::TREC_CHUNK,
        Closure::Indirect(_) => t == StgClosureType::IND,
        Closure::IndirectStatic(_) => t == StgClosureType::IND_STATIC,
        Closure::ThunkStatic(_) => t == StgClosureType::THUNK_STATIC,
        Closure::FunStatic(_, _) => t == StgClosureType::FUN_STATIC,
        Closure::Other(u) => *u == t,
    }
}

/// Whether the scanner handles a closure, described by the info table
/// `itbl`, and can read all it needs of it.
pub open spec fn closure_scannable(closure: &Closure, itbl: StgInfoTable) -> bool {
    let n_ptrs = itbl.layout.0 % 0x1_0000_0000;
    match closure {
        Closure::Thunk(t) => n_ptrs <= t.payload.0@.len(),
        Closure::Constr(c) => n_ptrs <= c.payload.0@.len(),
        Closure::Fun(c) => n_ptrs <= c.payload.0@.len(),
        Closure::ApStack(_, frames) => forall|i: int|
            0 <= i < frames@.len() ==> frame_scannable(#[trigger] frames@[i]),
        Closure::PartialAP(pap, layout) => {
            &&& layout.info.i.type_ != StgClosureType::PAP
            &&& pap_payload_scannable(layout.info, layout_large_bitmap(layout), pap.payload.0@, pap.n_args as usize)
        },
        Closure::AP(ap, layout) => {
            &&& layout.info.i.type_ != StgClosureType::PAP
            &&& pap_payload_scannable(layout.info, layout_large_bitmap(layout), ap.payload.0@, ap.n_args as usize)
        },
        Closure::ArrMutPtr(a) => {
            &&& 1 <= a.ptrs
            &&& a.ptrs <= a.payload.0@.len()
            &&& a.ptrs + 128 <= usize::MAX
        },
        Closure::ArrMutPtrSmall(a) => (a.ptrs as u32) <= a.payload.0@.len(),
        Closure::TSO(tso) => tso.bound != 0,
        Closure::Stack(_, frames) => forall|i: int|
            0 <= i < frames@.len() ==> frame_scannable(#[trigger] frames@[i]),
        Closure::TRecChunk(chunk) => chunk.next_entry_idx <= TREC_CHUNK_NUM_ENTRIES,
        Closure::ThunkStatic(t) => {
            &&& info_table_ref_ok(t.header.info_table)
            &&& srt_in_range(info_table_address(t.header.info_table), SIZEOF_STG_THUNK_INFO_TABLE, itbl.srt.srt)
        },
        Closure::FunStatic(c, _) => {
            &&& info_table_ref_ok(c.header.info_table)
            &&& info_table_address(c.header.info_table) >= SIZEOF_STG_FUN_INFO_EXTRA
            &&& srt_in_range(
                (info_table_address(c.header.info_table) - SIZEOF_STG_FUN_INFO_EXTRA) as usize,
                SIZEOF_STG_FUN_INFO_TABLE,
                itbl.srt.srt,
            )
        },
        Closure::Other(_) => false,
        _ => true,
    }
}

/// The edges of a closure, described by the info table `itbl`, in the
/// order they are visited.
pub open spec fn closure_edges(closure: &Closure, itbl: StgInfoTable) -> Seq<usize> {
    let n_ptrs = itbl.layout.0 % 0x1_0000_0000;
    match closure {
        Closure::MVar(mvar) => seq![mvar.head, mvar.tail, mvar.value],
        Closure::TVar(tvar) => seq![tvar.current_value, tvar.first_watch_queue_entry],
        Closure::Thunk(t) => t.payload.0@.take(n_ptrs as int),
        Closure::Constr(c) => c.payload.0@.take(n_ptrs as int),
        Closure::Fun(c) => c.payload.0@.take(n_ptrs as int),
        Closure::Weak(w) => seq![w.value, w.key, w.finalizer, w.cfinalizers],
        Closure::MutVar(v) => seq![v.var],
        Closure::BlockingQueue(bq) => seq![bq.bh, bq.owner, bq.queue, bq.link],
        Closure::ThunkSelector(s) => seq![s.selectee],
        Closure::ApStack(ap, frames) => seq![ap.fun] + stack_edges(frames@, frames@.len()),
        Closure::PartialAP(pap, layout) => seq![pap.fun] + pap_payload_edges(
            layout.info,
            layout_large_bitmap(layout),
            pap.payload.0@,
            pap.n_args as usize,
        ),
        Closure::AP(ap, layout) => seq![ap.fun] + pap_payload_edges(
            layout.info,
            layout_large_bitmap(layout),
            ap.payload.0@,
            ap.n_args as usize,
        ),
        Closure::ArrBytes(_) => Seq::empty(),
        Closure::ArrMutPtr(a) => a.payload.0@.take(a.ptrs as int),
        Closure::ArrMutPtrSmall(a) => a.payload.0@.take((a.ptrs as u32) as int),
        Closure::TSO(tso) => tso_edges(*tso),
        Closure::Stack(_, frames) => stack_edges(frames@, frames@.len()),
        Closure::TRecChunk(chunk) => seq![chunk.prev_chunk] + trec_entry_edges(
            chunk.entries@,
            chunk.next_entry_idx as nat,
        ),
        Closure::Indirect(ind) => seq![ind.indirectee],
        Closure::IndirectStatic(ind) => seq![ind.indirectee],
        Closure::ThunkStatic(t) => srt_edges(
            info_table_address(t.header.info_table),
            SIZEOF_STG_THUNK_INFO_TABLE,
            itbl.srt.srt,
        ),
        Closure::FunStatic(c, _) => srt_edges(
            (info_table_address(c.header.info_table) - SIZEOF_STG_FUN_INFO_EXTRA) as usize,
            SIZEOF_STG_FUN_INFO_TABLE,
            itbl.srt.srt,
        ),
        Closure::Other(_) => Seq::empty(),
    }
}

/// What a closure's visit finds does not depend on which of its closure types
/// the info table names (clean or dirty, frozen or not, and so on): two info
/// tables with the same layout word and static-reference-table offset give
/// the same edges.
pub proof fn lemma_closure_edges_ignore_closure_type(closure: &Closure, itbl1: StgInfoTable, itbl2: StgInfoTable)
    requires
        itbl1.layout == itbl2.layout,
        itbl1.srt == itbl2.srt,
    ensures
        closure_edges(closure, itbl1) == closure_edges(closure, itbl2),
{
}

/// A mutable variable, clean or dirty, has exactly one edge: its contents.
pub proof fn lemma_mut_var_visits_its_contents(v: StgMutVar, itbl: StgInfoTable)
    requires
        itbl.type_ == StgClosureType::MUT_VAR_CLEAN || itbl.type_ == StgClosureType::MUT_VAR_DIRTY,
    ensures
        closure_edges(&Closure::MutVar(v), itbl) == seq![v.var],
{
}

/// A mutable array of pointers, whatever its clean, dirty or frozen state,
/// visits exactly its first `ptrs` payload words, in order: the same as a
/// small array with those words and that count.
pub proof fn lemma_mut_arr_visits_all_pointers(a: StgMutArrPtrs, itbl: StgInfoTable)
    requires
        itbl.type_ == StgClosureType::MUT_ARR_PTRS_CLEAN || itbl.type_ == StgClosureType::MUT_ARR_PTRS_DIRTY
            || itbl.type_ == StgClosureType::MUT_ARR_PTRS_FROZEN_DIRTY || itbl.type_
            == StgClosureType::MUT_ARR_PTRS_FROZEN_CLEAN,
        a.ptrs <= a.payload.0@.len(),
    ensures
        closure_edges(&Closure::ArrMutPtr(a), itbl).len() == a.ptrs,
        forall|i: int| 0 <= i < a.ptrs ==> #[trigger] closure_edges(&Closure::ArrMutPtr(a), itbl)[i] == a.payload.0@[i],
        a.ptrs <= u32::MAX ==> closure_edges(&Closure::ArrMutPtr(a), itbl) == closure_edges(
            &Closure::ArrMutPtrSmall(StgSmallMutArrPtrs { header: a.header, ptrs: a.ptrs, payload: a.payload }),
            itbl,
        ),
{
}

/// Closures whose pointers come first in their payload visit the same
/// words whether they are constructors, functions or thunks: the first
/// `ptrs` words of the layout. An indirection, static or not, visits its
/// indirectee; an application visits its function, then its arguments,
/// partial or not; a stack chunk applied to a function visits the function,
/// then what the same frames visit as a stack.
pub proof fn lemma_closure_kinds_agree(
    c: StgClosure,
    th: StgThunkHeader,
    ind: StgInd,
    ind_static: StgIndStatic,
    pap: StgPAP,
    ap_header: StgThunkHeader,
    layout: FunLayout,
    ap_stack: StgAP_STACK,
    stack: StgStack,
    frames: Vec<StackFrame>,
    itbl: StgInfoTable,
)
    requires
        itbl.layout.0 % 0x1_0000_0000 <= c.payload.0@.len(),
        ind_static.indirectee == ind.indirectee,
    ensures
        closure_edges(&Closure::Constr(c), itbl) == closure_edges(&Closure::Fun(c), itbl),
        closure_edges(&Closure::Thunk(StgThunk { header: th, payload: c.payload }), itbl)
            == closure_edges(&Closure::Constr(c), itbl),
        closure_edges(&Closure::Constr(c), itbl).len() == itbl.layout.0 % 0x1_0000_0000,
        forall|i: int|
            0 <= i < itbl.layout.0 % 0x1_0000_0000 ==> #[trigger] closure_edges(&Closure::Constr(c), itbl)[i]
                == c.payload.0@[i],
        closure_edges(&Closure::Indirect(ind), itbl) == seq![ind.indirectee],
        closure_edges(&Closure::IndirectStatic(ind_static), itbl) == closure_edges(&Closure::Indirect(ind), itbl),
        closure_edges(&Closure::PartialAP(pap, layout), itbl)[0] == pap.fun,
        closure_edges(&Closure::PartialAP(pap, layout), itbl) == closure_edges(
            &Closure::AP(
                StgAP {
                    header: ap_header,
                    arity: pap.arity,
                    n_args: pap.n_args,
                    fun: pap.fun,
                    payload: pap.payload,
                },
                layout,
            ),
            itbl,
        ),
        closure_edges(&Closure::ApStack(ap_stack, frames), itbl) == seq![ap_stack.fun] + closure_edges(
            &Closure::Stack(stack, frames),
            itbl,
        ),
{
}

/// The fields a fixed-layout closure's visit finds, whatever its closure
/// type: an MVar's queue head and tail, then its value; a TVar's value, then
/// its watch queue; a weak pointer's value, key, finalizer and C finalizers
/// (not its link); a blocking queue's black hole, owner, message queue and
/// link; a selector thunk's selectee; a byte array nothing.
pub proof fn lemma_fixed_closures_visit_their_pointer_fields(
    mvar: StgMVar,
    tvar: StgTVar,
    weak: StgWeak,
    bq: StgBlockingQueue,
    sel: StgSelector,
    bytes: StgArrBytes,
    itbl: StgInfoTable,
)
    ensures
        closure_edges(&Closure::MVar(mvar), itbl) == seq![mvar.head, mvar.tail, mvar.value],
        closure_edges(&Closure::TVar(tvar), itbl) == seq![tvar.current_value, tvar.first_watch_queue_entry],
        closure_edges(&Closure::Weak(weak), itbl) == seq![weak.value, weak.key, weak.finalizer, weak.cfinalizers],
        closure_edges(&Closure::BlockingQueue(bq), itbl) == seq![bq.bh, bq.owner, bq.queue, bq.link],
        closure_edges(&Closure::ThunkSelector(sel), itbl) == seq![sel.selectee],
        closure_edges(&Closure::ArrBytes(bytes), itbl).len() == 0,
{
}

proof fn lemma_trec_entry_edges_layout(entries: Seq<TRecEntry>, n: nat)
    requires
        n <= entries.len(),
    ensures
        trec_entry_edges(entries, n).len() == 3 * n,
        forall|k: int|
            0 <= k < n ==> {
                &&& #[trigger] trec_entry_edges(entries, n)[3 * k] == entries[k].tvar
                &&& trec_entry_edges(entries, n)[3 * k + 1] == entries[k].expected_value
                &&& trec_entry_edges(entries, n)[3 * k + 2] == entries[k].new_value
            },
    decreases n,
{
    if n > 0 {
        lemma_trec_entry_edges_layout(entries, (n - 1) as nat);
        let prev = trec_entry_edges(entries, (n - 1) as nat);
        let e = entries[n - 1];
        assert(trec_entry_edges(entries, n) == prev + seq![e.tvar, e.expected_value, e.new_value]);
        assert forall|k: int| 0 <= k < n implies {
            &&& #[trigger] trec_entry_edges(entries, n)[3 * k] == entries[k].tvar
            &&& trec_entry_edges(entries, n)[3 * k + 1] == entries[k].expected_value
            &&& trec_entry_edges(entries, n)[3 * k + 2] == entries[k].new_value
        } by {
            if k < n - 1 {
                assert(prev[3 * k] == entries[k].tvar);
            }
        }
    }
}

/// A transaction-record chunk visits the previous chunk, then, for each of
/// its first `next_entry_idx` entries in order, the variable, the expected
/// value and the new value; nothing of the entries past that index.
pub proof fn lemma_trec_chunk_visits_used_entries(chunk: StgTRecChunk, itbl: StgInfoTable)
    requires
        chunk.next_entry_idx <= TREC_CHUNK_NUM_ENTRIES,
    ensures
        closure_edges(&Closure::TRecChunk(chunk), itbl).len() == 1 + 3 * chunk.next_entry_idx,
        closure_edges(&Closure::TRecChunk(chunk), itbl)[0] == chunk.prev_chunk,
        forall|k: int|
            0 <= k < chunk.next_entry_idx ==> {
                &&& #[trigger] closure_edges(&Closure::TRecChunk(chunk), itbl)[1 + 3 * k] == chunk.entries@[k].tvar
                &&& closure_edges(&Closure::TRecChunk(chunk), itbl)[2 + 3 * k] == chunk.entries@[k].expected_value
                &&& closure_edges(&Closure::TRecChunk(chunk), itbl)[3 + 3 * k] == chunk.entries@[k].new_value
            },
{
    lemma_trec_entry_edges_layout(chunk.entries@, chunk.next_entry_idx as nat);
    let tail = trec_entry_edges(chunk.entries@, chunk.next_entry_idx as nat);
    let edges = closure_edges(&Closure::TRecChunk(chunk), itbl);
    assert(edges == seq![chunk.prev_chunk] + tail);
    assert forall|k: int| 0 <= k < chunk.next_entry_idx implies {
        &&& #[trigger] edges[1 + 3 * k] == chunk.entries@[k].tvar
        &&& edges[2 + 3 * k] == chunk.entries@[k].expected_value
        &&& edges[3 + 3 * k] == chunk.entries@[k].new_value
    } by {
        assert(tail[3 * k] == chunk.entries@[k].tvar);
        assert(edges[1 + 3 * k] == tail[3 * k]);
        assert(edges[2 + 3 * k] == tail[3 * k + 1]);
        assert(edges[3 + 3 * k] == tail[3 * k + 2]);
    }
}

/// Visits the pointers inside a closure, described by its info table
/// `itbl`, as its closure type lays them out.
pub fn visit_closure(closure: &Closure, itbl: &StgInfoTable, ev: &mut CollectPointerVisitor)
    requires
        closure_has_type(closure, itbl.type_),
        closure_scannable(closure, *itbl),
    ensures
        final(ev).pointers@ == old(ev).pointers@ + closure_edges(closure, *itbl),
{
    let ghost start = ev.pointers@;
    match closure {
        Closure::MVar(mvar) => {
            ev.visit_edge(mvar.head);
            ev.visit_edge(mvar.tail);
            ev.visit_edge(mvar.value);
            assert(ev.pointers@ =~= start + closure_edges(closure, *itbl));
        },
        Closure::TVar(tvar) => {
            ev.visit_edge(tvar.current_value);
            ev.visit_edge(tvar.first_watch_queue_entry);
            assert(ev.pointers@ =~= start + closure_edges(closure, *itbl));
        },
        Closure::Thunk(thunk) => {
            let n_ptrs: u32 = itbl.layout.payload().ptrs;
            scan_closure_payload(&thunk.payload, n_ptrs, ev);
        },
        Closure::Constr(c) => {
            let n_ptrs: u32 = itbl.layout.payload().ptrs;
            scan_closure_payload(&c.payload, n_ptrs, ev);
        },
        Closure::Fun(fun) => {
            let n_ptrs: u32 = itbl.layout.payload().ptrs;
            scan_closure_payload(&fun.payload, n_ptrs, ev);
        },
        Closure::Weak(weak) => {
            ev.visit_edge(weak.value);
            ev.visit_edge(weak.key);
            ev.visit_edge(weak.finalizer);
            ev.visit_edge(weak.cfinalizers);
            assert(ev.pointers@ =~= start + closure_edges(closure, *itbl));
        },
        Closure::MutVar(mut_var) => {
            ev.visit_edge(mut_var.var);
            assert(ev.pointers@ =~= start + closure_edges(closure, *itbl));
        },
        Closure::BlockingQueue(bq) => {
            ev.visit_edge(bq.bh);
            ev.visit_edge(bq.owner);
            ev.visit_edge(bq.queue);
            ev.visit_edge(bq.link);
            assert(ev.pointers@ =~= start + closure_edges(closure, *itbl));
        },
        Closure::ThunkSelector(selector) => {
            ev.visit_edge(selector.selectee);
            assert(ev.pointers@ =~= start + closure_edges(closure, *itbl));
        },
        Closure::ApStack(ap, frames) => {
            ev.visit_edge(ap.fun);
            scan_stack(frames, ev);
            assert(ev.pointers@ =~= start + closure_edges(closure, *itbl));
        },
        Closure::PartialAP(pap, layout) => {
            ev.visit_edge(pap.fun);
            let size: usize = pap.n_args as usize;
            let large_bitmap: Option<&StgLargeBitmap> = match &layout.large_bitmap {
                Some(lb) => Some(lb),
                None => None,
            };
            scan_PAP_payload(&layout.info, large_bitmap, &pap.payload, size, ev);
            assert(ev.pointers@ =~= start + closure_edges(closure, *itbl));
        },
        Closure::AP(ap, layout) => {
            ev.visit_edge(ap.fun);
            let size: usize = ap.n_args as usize;
            let large_bitmap: Option<&StgLargeBitmap> = match &layout.large_bitmap {
                Some(lb) => Some(lb),
                None => None,
            };
            scan_PAP_payload(&layout.info, large_bitmap, &ap.payload, size, ev);
            assert(ev.pointers@ =~= start + closure_edges(closure, *itbl));
        },
        Closure::ArrBytes(_) => {
            assert(ev.pointers@ =~= start + closure_edges(closure, *itbl));
        },
        Closure::ArrMutPtr(array) => {
            scan_mut_arr_ptrs(array, ev);
        },
        Closure::ArrMutPtrSmall(array) => {
            scan_closure_payload(&array.payload, array.ptrs as u32, ev);
        },
        Closure::TSO(tso) => {
            scan_TSO(tso, ev);
        },
        Closure::Stack(_, frames) => {
            scan_stack(frames, ev);
        },
        Closure::TRecChunk(trec_chunk) => {
            ev.visit_edge(trec_chunk.prev_chunk);
            let n_ptrs = trec_chunk.next_entry_idx;
            let mut n: usize = 0;
            while n < n_ptrs
                invariant
                    n <= n_ptrs,
                    n_ptrs == trec_chunk.next_entry_idx,
                    n_ptrs <= TREC_CHUNK_NUM_ENTRIES,
                    ev.pointers@ == start + seq![trec_chunk.prev_chunk] + trec_entry_edges(
                        trec_chunk.entries@,
                        n as nat,
                    ),
                decreases n_ptrs - n,
            {
                let trec_entry = &trec_chunk.entries[n];
                ev.visit_edge(trec_entry.tvar);
                ev.visit_edge(trec_entry.expected_value);
                ev.visit_edge(trec_entry.new_value);
                proof {
                    let prefix = start + seq![trec_chunk.prev_chunk];
                    let done = trec_entry_edges(trec_chunk.entries@, n as nat);
                    assert(trec_entry_edges(trec_chunk.entries@, (n + 1) as nat) == done + seq![
                        trec_entry.tvar,
                        trec_entry.expected_value,
                        trec_entry.new_value,
                    ]);
                    assert(ev.pointers@ =~= prefix + (done + seq![
                        trec_entry.tvar,
                        trec_entry.expected_value,
                        trec_entry.new_value,
                    ]));
                }
                n += 1;
            }
            assert(ev.pointers@ =~= start + closure_edges(closure, *itbl));
        },
        Closure::Indirect(ind) => {
            ev.visit_edge(ind.indirectee);
            assert(ev.pointers@ =~= start + closure_edges(closure, *itbl));
        },
        Closure::IndirectStatic(ind) => {
            ev.visit_edge(ind.indirectee);
            assert(ev.pointers@ =~= start + closure_edges(closure, *itbl));
        },
        Closure::ThunkStatic(thunk) => {
            let thunk_info = StgThunkInfoTable::from_info_table(itbl);
            let itbl_addr = thunk.header.info_table.get_info_table();
            scan_srt_thunk(&thunk_info, itbl_addr, ev);
        },
        Closure::FunStatic(fun, extra) => {
            let fun_info = StgFunInfoTable { f: *extra, i: *itbl };
            let itbl_addr = fun.header.info_table.get_info_table();
            scan_srt_fun(&fun_info, itbl_addr - SIZEOF_STG_FUN_INFO_EXTRA, ev);
        },
        Closure::Other(_) => {
            assert(false);
        },
    }
}

/// Whether `closure` has the variant of its info table's closure type.
pub fn closure_type_matches(closure: &Closure, itbl: &StgInfoTable) -> (r: bool)
    ensures
        r == closure_has_type(closure, itbl.type_),
{
    let t = itbl.type_;
    match closure {
        Closure::MVar(_) => t == StgClosureType::MVAR_CLEAN || t == StgClosureType::MVAR_DIRTY,
        Closure::TVar(_) => t == StgClosureType::TVAR,
        Closure::Thunk(_) => t == StgClosureType::THUNK || t == StgClosureType::THUNK_1_0 || t == StgClosureType::THUNK_0_1 || t == StgClosureType::THUNK_2_0 || t == StgClosureType::THUNK_1_1 || t == StgClosureType::THUNK_0_2,
        Closure::Constr(_) => t == StgClosureType::CONSTR || t == StgClosureType::CONSTR_1_0 || t == StgClosureType::CONSTR_0_1 || t == StgClosureType::CONSTR_2_0 || t == StgClosureType::CONSTR_1_1 || t == StgClosureType::CONSTR_0_2 || t == StgClosureType::CONSTR_NOCAF,
        Closure::Fun(_) => t == StgClosureType::FUN || t == StgClosureType::FUN_1_0 || t == StgClosureType::FUN_0_1 || t == StgClosureType::FUN_2_0 || t == StgClosureType::FUN_1_1 || t == StgClosureType::FUN_0_2,
        Closure::Weak(_) => t == StgClosureType::WEAK,
        Closure::MutVar(_) => t == StgClosureType::MUT_VAR_CLEAN || t == StgClosureType::MUT_VAR_DIRTY,
        Closure::BlockingQueue(_) => t == StgClosureType::BLOCKING_QUEUE,
        Closure::ThunkSelector(_) => t == StgClosureType::THUNK_SELECTOR,
        Closure::ApStack(_, _) => t == StgClosureType::AP_STACK,
        Closure::PartialAP(_, _) => t == StgClosureType::PAP,
        Closure::AP(_, _) => t == StgClosureType::AP,
        Closure::ArrBytes(_) => t == StgClosureType::ARR_WORDS,
        Closure::ArrMutPtr(_) => t == StgClosureType::MUT_ARR_PTRS_CLEAN || t == StgClosureType::MUT_ARR_PTRS_DIRTY || t == StgClosureType::MUT_ARR_PTRS_FROZEN_DIRTY || t == StgClosureType::MUT_ARR_PTRS_FROZEN_CLEAN,
        Closure::ArrMutPtrSmall(_) => t == StgClosureType::SMALL_MUT_ARR_PTRS_CLEAN || t == StgClosureType::SMALL_MUT_ARR_PTRS_DIRTY || t == StgClosureType::SMALL_MUT_ARR_PTRS_FROZEN_DIRTY || t == StgClosureType::SMALL_MUT_ARR_PTRS_FROZEN_CLEAN,
        Closure::TSO(_) => t == StgClosureType::TSO,
        Closure::Stack(_, _) => t == StgClosureType::STACK,
        Closure::TRecChunk(_) => t == StgClosureType::TREC_CHUNK,
        Closure::Indirect(_) => t == StgClosureType::IND,
        Closure::IndirectStatic(_) => t == StgClosureType::IND_STATIC,
        Closure::ThunkStatic(_) => t == StgClosureType::THUNK_STATIC,
        Closure::FunStatic(_, _) => t == StgClosureType::FUN_STATIC,
        Closure::Other(u) => *u == t,
    }
}

/// Whether `visit_closure` may be called: the variant matches the closure
/// type and the scanner handles the closure and can read all it needs.
pub fn closure_can_be_visited(closure: &Closure, itbl: &StgInfoTable) -> (r: bool)
    ensures
        r == (closure_has_type(closure, itbl.type_) && closure_scannable(closure, *itbl)),
{
    if !closure_type_matches(closure, itbl) {
        return false;
    }
    let n_ptrs: usize = itbl.layout.payload().ptrs as usize;
    match closure {
        Closure::Thunk(t) => n_ptrs <= t.payload.0.len(),
        Closure::Constr(c) => n_ptrs <= c.payload.0.len(),
        Closure::Fun(c) => n_ptrs <= c.payload.0.len(),
        Closure::ApStack(_, frames) => stack_can_be_scanned(frames),
        Closure::PartialAP(pap, layout) => {
            let large_bitmap: Option<&StgLargeBitmap> = match &layout.large_bitmap {
                Some(lb) => Some(lb),
                None => None,
            };
            pap_payload_can_be_scanned(&layout.info, large_bitmap, &pap.payload, pap.n_args as usize)
        },
        Closure::AP(ap, layout) => {
            let large_bitmap: Option<&StgLargeBitmap> = match &layout.large_bitmap {
                Some(lb) => Some(lb),
                None => None,
            };
            pap_payload_can_be_scanned(&layout.info, large_bitmap, &ap.payload, ap.n_args as usize)
        },
        Closure::ArrMutPtr(a) => 1 <= a.ptrs && a.ptrs <= a.payload.0.len() && a.ptrs <= usize::MAX - 128,
        Closure::ArrMutPtrSmall(a) => (a.ptrs as u32) as usize <= a.payload.0.len(),
        Closure::TSO(tso) => tso.bound != 0,
        Closure::Stack(_, frames) => stack_can_be_scanned(frames),
        Closure::TRecChunk(chunk) => chunk.next_entry_idx <= TREC_CHUNK_NUM_ENTRIES,
        Closure::ThunkStatic(t) => info_table_ref_valid(t.header.info_table) && srt_reachable(
            t.header.info_table.get_info_table(),
            SIZEOF_STG_THUNK_INFO_TABLE,
            itbl.srt.srt,
        ),
        Closure::FunStatic(c, _) => {
            if !info_table_ref_valid(c.header.info_table) {
                return false;
            }
            let addr = c.header.info_table.get_info_table();
            addr >= SIZEOF_STG_FUN_INFO_EXTRA && srt_reachable(
                addr - SIZEOF_STG_FUN_INFO_EXTRA,
                SIZEOF_STG_FUN_INFO_TABLE,
                itbl.srt.srt,
            )
        },
        Closure::Other(_) => false,
        _ => true,
    }
}

} // verus!
