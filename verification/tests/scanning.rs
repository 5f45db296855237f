use mmtk_ghc::object_scanning::{
    scan_PAP_payload, scan_TSO, scan_closure_payload, scan_large_bitmap, scan_mut_arr_ptrs,
    frame_can_be_scanned, large_bitmap_covers_check, pap_payload_can_be_scanned, scan_small_bitmap,
    scan_srt, scan_srt_fun, scan_srt_thunk, scan_stack, srt_reachable, stack_can_be_scanned,
    CollectPointerVisitor, StackFrame,
};
use mmtk_ghc::scanning::{closure_can_be_visited, closure_type_matches, visit_closure, Closure, FunLayout};
use mmtk_ghc::stg_closures::{
    ClosurePayload, InCall, StgAP, StgAP_STACK, StgArrBytes, StgBlockingQueue, StgClosure,
    StgHeader, StgInd, StgIndStatic, StgInfoTableRef, StgMVar, StgMutArrPtrs, StgMutVar, StgPAP,
    StgProfHeader, StgRetFun, StgSMPThunkHeader, StgSelector, StgSmallMutArrPtrs, StgStack,
    StgStackPayload, StgTRecChunk, StgTSO, StgTSOBlockInfo, StgTVar, StgThreadID, StgThunk,
    StgThunkHeader, StgUpdateFrame, StgWeak, TRecEntry,
};
use mmtk_ghc::stg_info_table::{
    Bitmap, LargeBitMapPayload, StgClosureInfo, StgFunInfoExtra, StgFunInfoTable, StgInfoTable,
    StgLargeBitmap, StgProfInfo, StgRetInfoTable, StgSRTField, StgSmallBitmap, StgThunkInfoTable,
};
use mmtk_ghc::types::{StgClosureType, StgFunType, StgTSOBlocked, StgTSOFlag, StgTSONext};

fn header(info: usize) -> StgHeader {
    StgHeader { info_table: StgInfoTableRef(info), prof_header: StgProfHeader {} }
}

fn thunk_header(info: usize) -> StgThunkHeader {
    StgThunkHeader {
        info_table: StgInfoTableRef(info),
        prof_header: StgProfHeader {},
        smp: StgSMPThunkHeader { pad: 0 },
    }
}

fn itbl(layout: u64, type_: StgClosureType, srt: i32) -> StgInfoTable {
    StgInfoTable {
        code: 0x4000,
        prof: StgProfInfo {},
        layout: StgClosureInfo(layout),
        type_,
        srt: StgSRTField { srt },
    }
}

fn fun_info(fun_type: StgFunType, bitmap: u64) -> StgFunInfoTable {
    StgFunInfoTable {
        f: StgFunInfoExtra { slow_apply: 0, bitmap: Bitmap(bitmap), fun_type, arity: 3 },
        i: itbl(0, StgClosureType::FUN, 0),
    }
}

fn words(n: usize, base: usize) -> Vec<usize> {
    (0..n).map(|i| base + 8 * i).collect()
}

fn tso(why: StgTSOBlocked) -> StgTSO {
    StgTSO {
        header: header(0x10),
        link: 1,
        global_link: 99,
        tso_link_prev: 7,
        tso_link_next: 8,
        stackobj: 4,
        what_next: StgTSONext::THREAD_RUN_GHC,
        why_blocked: why,
        flags: StgTSOFlag(0),
        block_info: StgTSOBlockInfo { closure: 6 },
        id: StgThreadID(1),
        saved_errno: 0,
        dirty: 0,
        bound: 0x500,
        cap: 0x600,
        trec: 3,
        blocked_exceptions: 5,
        blocking_queue: 2,
        alloc_limit: 0,
        tot_stack_size: 0,
    }
}

#[test]
fn closure_payload_scan_visits_leading_pointers() {
    let payload = ClosurePayload(vec![10, 20, 30, 40]);
    assert_eq!(payload.get(2), 30);
    let mut ev = CollectPointerVisitor::new();
    scan_closure_payload(&payload, 2, &mut ev);
    assert_eq!(ev.pointers, vec![10, 20]);
    let mut none = CollectPointerVisitor::new();
    scan_closure_payload(&payload, 0, &mut none);
    assert!(none.pointers.is_empty());
}

#[test]
fn visitor_appends_edges_in_order() {
    let mut ev = CollectPointerVisitor::new();
    ev.visit_edge(3);
    ev.visit_edge(1);
    assert_eq!(ev.pointers, vec![3, 1]);
}

#[test]
fn small_bitmap_visits_clear_bits() {
    let payload = ClosurePayload(vec![100, 200, 300, 400, 500]);
    let mut ev = CollectPointerVisitor::new();
    // four slots: slots 0 and 2 are non-pointers
    scan_small_bitmap(&payload, StgSmallBitmap::make_small_bitmap(4, 0b0101), &mut ev);
    assert_eq!(ev.pointers, vec![200, 400]);
}

#[test]
fn zero_small_bitmap_visits_every_slot() {
    let payload = ClosurePayload(vec![1, 2, 3]);
    let mut a = CollectPointerVisitor::new();
    scan_small_bitmap(&payload, StgSmallBitmap::make_small_bitmap(3, 0), &mut a);
    let mut b = CollectPointerVisitor::new();
    scan_closure_payload(&payload, 3, &mut b);
    assert_eq!(a.pointers, b.pointers);
    assert_eq!(a.pointers, vec![1, 2, 3]);
}

#[test]
fn large_bitmap_within_one_word_scans_like_small() {
    let payload = ClosurePayload(vec![11, 22, 33, 44, 55]);
    let lb = StgLargeBitmap { size: 5, bitmap: LargeBitMapPayload(vec![0b10010]) };
    let mut a = CollectPointerVisitor::new();
    scan_large_bitmap(&payload, &lb, 5, &mut a);
    let mut b = CollectPointerVisitor::new();
    scan_small_bitmap(&payload, StgSmallBitmap::make_small_bitmap(5, 0b10010), &mut b);
    assert_eq!(a.pointers, vec![11, 33, 44]);
    assert_eq!(a.pointers, b.pointers);
}

#[test]
fn large_bitmap_scans_fewer_slots_than_it_has() {
    let payload = ClosurePayload(vec![11, 22, 33, 44, 55]);
    let lb = StgLargeBitmap { size: 5, bitmap: LargeBitMapPayload(vec![0]) };
    let mut ev = CollectPointerVisitor::new();
    scan_large_bitmap(&payload, &lb, 2, &mut ev);
    assert_eq!(ev.pointers, vec![11, 22]);
}

#[test]
fn large_bitmap_each_word_reads_payload_from_its_start() {
    let bits = usize::BITS as usize;
    let payload = ClosurePayload(words(bits + 6, 0x1000));
    // word 0: only slot 2 is a pointer; word 1 covers six slots, only its slot 0 is a pointer
    let w0 = !0usize & !(1usize << 2);
    let w1 = 0b111110usize;
    let lb = StgLargeBitmap { size: bits + 6, bitmap: LargeBitMapPayload(vec![w0, w1]) };
    let mut ev = CollectPointerVisitor::new();
    scan_large_bitmap(&payload, &lb, bits + 6, &mut ev);
    assert_eq!(ev.pointers, vec![0x1000 + 16, 0x1000]);
}

#[test]
fn mut_array_scan_visits_every_pointer_across_cards() {
    let mut payload = words(300, 0x8000);
    payload.extend_from_slice(&[0xc0, 0xc1, 0xc2]);
    let array = StgMutArrPtrs {
        header: header(0x20),
        ptrs: 300,
        size: 303,
        payload: ClosurePayload(payload.clone()),
    };
    let mut ev = CollectPointerVisitor::new();
    scan_mut_arr_ptrs(&array, &mut ev);
    assert_eq!(ev.pointers, payload[..300].to_vec());
}

#[test]
fn mut_array_scan_of_a_partial_single_card() {
    let array = StgMutArrPtrs {
        header: header(0x20),
        ptrs: 3,
        size: 4,
        payload: ClosurePayload(vec![1, 2, 3, 0]),
    };
    let mut ev = CollectPointerVisitor::new();
    scan_mut_arr_ptrs(&array, &mut ev);
    assert_eq!(ev.pointers, vec![1, 2, 3]);
}

#[test]
fn mut_array_scan_of_exactly_one_card() {
    let payload = words(128, 0x100);
    let array = StgMutArrPtrs {
        header: header(0x20),
        ptrs: 128,
        size: 129,
        payload: ClosurePayload(payload.clone()),
    };
    let mut ev = CollectPointerVisitor::new();
    scan_mut_arr_ptrs(&array, &mut ev);
    assert_eq!(ev.pointers, payload);
}

#[test]
fn thread_scan_visits_block_info_when_blocked_on_a_closure() {
    let mut ev = CollectPointerVisitor::new();
    scan_TSO(&tso(StgTSOBlocked::BLOCKED_ON_MVAR), &mut ev);
    assert_eq!(ev.pointers, vec![5, 2, 3, 4, 1, 6, 7, 8]);
    let mut ev2 = CollectPointerVisitor::new();
    scan_TSO(&tso(StgTSOBlocked::NOT_BLOCKED), &mut ev2);
    assert_eq!(ev2.pointers, vec![5, 2, 3, 4, 1, 6, 7, 8]);
}

#[test]
fn thread_scan_skips_block_info_otherwise() {
    let mut ev = CollectPointerVisitor::new();
    scan_TSO(&tso(StgTSOBlocked::BLOCKED_ON_DELAY), &mut ev);
    assert_eq!(ev.pointers, vec![5, 2, 3, 4, 1, 7, 8]);
    let _ = InCall {};
}

#[test]
fn srt_scans_visit_the_table_when_present() {
    let mut ev = CollectPointerVisitor::new();
    scan_srt(&StgRetInfoTable { i: itbl(0, StgClosureType::RET_SMALL, 8) }, 1000, &mut ev);
    scan_srt(&StgRetInfoTable { i: itbl(0, StgClosureType::RET_SMALL, 0) }, 1000, &mut ev);
    scan_srt_thunk(&StgThunkInfoTable { i: itbl(0, StgClosureType::THUNK_STATIC, 16) }, 2000, &mut ev);
    let mut f = fun_info(StgFunType::ARG_P, 0);
    f.i.srt = StgSRTField { srt: -40 };
    scan_srt_fun(&f, 3000, &mut ev);
    assert_eq!(ev.pointers, vec![1032, 2040, 3008]);
}

#[test]
fn pap_payload_with_own_small_bitmap() {
    let payload = ClosurePayload(vec![1, 2, 3, 4]);
    let bm = StgSmallBitmap::make_small_bitmap(3, 0b010).0 as u64;
    let mut ev = CollectPointerVisitor::new();
    scan_PAP_payload(&fun_info(StgFunType::ARG_GEN, bm), None, &payload, 4, &mut ev);
    assert_eq!(ev.pointers, vec![1, 3]);
}

#[test]
fn pap_payload_with_large_bitmap() {
    let payload = ClosurePayload(vec![1, 2, 3, 4]);
    let lb = StgLargeBitmap { size: 4, bitmap: LargeBitMapPayload(vec![0b1001]) };
    let mut ev = CollectPointerVisitor::new();
    scan_PAP_payload(&fun_info(StgFunType::ARG_GEN_BIG, 0), Some(&lb), &payload, 4, &mut ev);
    assert_eq!(ev.pointers, vec![2, 3]);
}

#[test]
fn pap_payload_with_standard_pattern() {
    let payload = ClosurePayload(vec![1, 2, 3]);
    let mut ev = CollectPointerVisitor::new();
    scan_PAP_payload(&fun_info(StgFunType::ARG_PNP, 0), None, &payload, 3, &mut ev);
    assert_eq!(ev.pointers, vec![1, 3]);
    let mut ev2 = CollectPointerVisitor::new();
    scan_PAP_payload(&fun_info(StgFunType::ARG_NN, 0), None, &payload, 2, &mut ev2);
    assert!(ev2.pointers.is_empty());
}

fn sample_stack() -> Vec<StackFrame> {
    let ret = |t: StgClosureType, srt: i32| StgRetInfoTable { i: itbl(0, t, srt) };
    vec![
        StackFrame::UPD_FRAME(StgUpdateFrame { header: header(0x100), updatee: 0xaa }),
        StackFrame::RET_SMALL(
            StgClosure { header: header(0x200), payload: ClosurePayload(vec![21, 22, 23]) },
            StgSmallBitmap::make_small_bitmap(3, 0b010),
            ret(StgClosureType::RET_SMALL, 8),
        ),
        StackFrame::RET_BIG(
            StgClosure { header: header(0x300), payload: ClosurePayload(vec![31, 32]) },
            StgLargeBitmap { size: 2, bitmap: LargeBitMapPayload(vec![0b01]) },
            ret(StgClosureType::RET_BIG, 0),
        ),
        StackFrame::RET_FUN_SMALL(
            StgRetFun {
                info_table: StgInfoTableRef(0x400),
                size: 1,
                fun: 0xf1,
                payload: ClosurePayload(vec![41]),
            },
            StgSmallBitmap::make_small_bitmap(1, 0),
            ret(StgClosureType::RET_FUN, 0),
        ),
        StackFrame::RET_FUN_LARGE(
            StgRetFun {
                info_table: StgInfoTableRef(0x500),
                size: 1,
                fun: 0xf2,
                payload: ClosurePayload(vec![51]),
            },
            StgLargeBitmap { size: 1, bitmap: LargeBitMapPayload(vec![1]) },
            ret(StgClosureType::RET_FUN, -8),
        ),
    ]
}

fn sample_stack_edges() -> Vec<usize> {
    vec![0xaa, 21, 23, 0x200 + 24 + 8, 32, 0xf1, 41, 0xf2, 0x500 + 24 - 8]
}

#[test]
fn stack_scan_visits_frames_in_order() {
    let mut ev = CollectPointerVisitor::new();
    scan_stack(&sample_stack(), &mut ev);
    assert_eq!(ev.pointers, sample_stack_edges());
    let mut empty = CollectPointerVisitor::new();
    scan_stack(&Vec::new(), &mut empty);
    assert!(empty.pointers.is_empty());
}

fn visit(c: &Closure, t: &StgInfoTable) -> Vec<usize> {
    assert!(closure_can_be_visited(c, t));
    let mut ev = CollectPointerVisitor::new();
    visit_closure(c, t, &mut ev);
    ev.pointers
}

#[test]
fn visit_closure_fixed_fields() {
    let t = |ty: StgClosureType| itbl(0, ty, 0);
    let h = header(0x10);
    assert_eq!(
        visit(&Closure::MVar(StgMVar { header: h, head: 1, tail: 2, value: 3 }), &t(StgClosureType::MVAR_CLEAN)),
        vec![1, 2, 3]
    );
    assert_eq!(
        visit(
            &Closure::TVar(StgTVar { header: h, current_value: 4, first_watch_queue_entry: 5, num_updates: 0 }),
            &t(StgClosureType::TVAR)
        ),
        vec![4, 5]
    );
    assert_eq!(
        visit(
            &Closure::Weak(StgWeak { header: h, cfinalizers: 1, key: 2, value: 3, finalizer: 4, link: 5 }),
            &t(StgClosureType::WEAK)
        ),
        vec![3, 2, 4, 1]
    );
    assert_eq!(visit(&Closure::MutVar(StgMutVar { header: h, var: 9 }), &t(StgClosureType::MUT_VAR_DIRTY)), vec![9]);
    assert_eq!(
        visit(
            &Closure::BlockingQueue(StgBlockingQueue { header: h, link: 1, bh: 2, owner: 3, queue: 4 }),
            &t(StgClosureType::BLOCKING_QUEUE)
        ),
        vec![2, 3, 4, 1]
    );
    assert_eq!(
        visit(
            &Closure::ThunkSelector(StgSelector { header: thunk_header(0x10), selectee: 7 }),
            &t(StgClosureType::THUNK_SELECTOR)
        ),
        vec![7]
    );
    assert_eq!(visit(&Closure::Indirect(StgInd { header: h, indirectee: 8 }), &t(StgClosureType::IND)), vec![8]);
    assert_eq!(
        visit(
            &Closure::IndirectStatic(StgIndStatic {
                header: h,
                indirectee: 6,
                static_link: 60,
                saved_info_table: StgInfoTableRef(0),
            }),
            &t(StgClosureType::IND_STATIC)
        ),
        vec![6]
    );
    assert!(visit(&Closure::ArrBytes(StgArrBytes { header: h, bytes: 16 }), &t(StgClosureType::ARR_WORDS)).is_empty());
}

#[test]
fn visit_closure_payloads_by_pointer_count() {
    // two pointers, one non-pointer
    let t = |ty: StgClosureType| itbl(0x0000_0001_0000_0002, ty, 0);
    let payload = || ClosurePayload(vec![1, 2, 3]);
    assert_eq!(
        visit(&Closure::Constr(StgClosure { header: header(0), payload: payload() }), &t(StgClosureType::CONSTR_2_0)),
        vec![1, 2]
    );
    assert_eq!(
        visit(&Closure::Fun(StgClosure { header: header(0), payload: payload() }), &t(StgClosureType::FUN_2_0)),
        vec![1, 2]
    );
    assert_eq!(
        visit(&Closure::Thunk(StgThunk { header: thunk_header(0), payload: payload() }), &t(StgClosureType::THUNK_2_0)),
        vec![1, 2]
    );
    let small = StgSmallMutArrPtrs { header: header(0), ptrs: 2, payload: payload() };
    assert_eq!(visit(&Closure::ArrMutPtrSmall(small), &t(StgClosureType::SMALL_MUT_ARR_PTRS_CLEAN)), vec![1, 2]);
    let big = StgMutArrPtrs { header: header(0), ptrs: 3, size: 4, payload: ClosurePayload(vec![1, 2, 3, 0]) };
    assert_eq!(visit(&Closure::ArrMutPtr(big), &t(StgClosureType::MUT_ARR_PTRS_DIRTY)), vec![1, 2, 3]);
}

#[test]
fn visit_closure_partial_applications() {
    let t = itbl(0, StgClosureType::PAP, 0);
    let t_ap = itbl(0, StgClosureType::AP, 0);
    let pap = StgPAP { header: header(0), arity: 1, n_args: 3, fun: 0xf, payload: ClosurePayload(vec![1, 2, 3]) };
    let layout = FunLayout { info: fun_info(StgFunType::ARG_PPN, 0), large_bitmap: None };
    assert_eq!(visit(&Closure::PartialAP(pap, layout), &t), vec![0xf, 1, 2]);
    let ap = StgAP {
        header: thunk_header(0),
        arity: 1,
        n_args: 2,
        fun: 0xe,
        payload: ClosurePayload(vec![1, 2, 3]),
    };
    let big = FunLayout {
        info: fun_info(StgFunType::ARG_GEN_BIG, 0),
        large_bitmap: Some(StgLargeBitmap { size: 3, bitmap: LargeBitMapPayload(vec![0b001]) }),
    };
    assert_eq!(visit(&Closure::AP(ap, big), &t_ap), vec![0xe, 2]);
}

#[test]
fn visit_closure_threads_and_stacks() {
    let t = itbl(0, StgClosureType::STACK, 0);
    let t_tso = itbl(0, StgClosureType::TSO, 0);
    let t_ap_stack = itbl(0, StgClosureType::AP_STACK, 0);
    assert_eq!(visit(&Closure::TSO(tso(StgTSOBlocked::BLOCKED_ON_STM)), &t_tso), vec![5, 2, 3, 4, 1, 7, 8]);
    let stack = StgStack {
        header: header(0),
        stack_size: 64,
        dirty: 0,
        marking: 0,
        sp: 0x9000,
        stack: StgStackPayload {},
    };
    assert_eq!(visit(&Closure::Stack(stack, sample_stack()), &t), sample_stack_edges());
    let ap_stack = StgAP_STACK { header: thunk_header(0), size: 4, fun: 0xfa, payload: ClosurePayload(vec![]) };
    let mut expected = vec![0xfa];
    expected.extend(sample_stack_edges());
    assert_eq!(visit(&Closure::ApStack(ap_stack, sample_stack()), &t_ap_stack), expected);
}

#[test]
fn visit_closure_transaction_chunk() {
    let t = itbl(0, StgClosureType::TREC_CHUNK, 0);
    let mut entries = [TRecEntry { tvar: 0, expected_value: 0, new_value: 0 }; 16];
    entries[0] = TRecEntry { tvar: 1, expected_value: 2, new_value: 3 };
    entries[1] = TRecEntry { tvar: 4, expected_value: 5, new_value: 6 };
    entries[2] = TRecEntry { tvar: 7, expected_value: 8, new_value: 9 };
    let chunk = StgTRecChunk { header: header(0), prev_chunk: 0x77, next_entry_idx: 2, entries };
    assert_eq!(visit(&Closure::TRecChunk(chunk), &t), vec![0x77, 1, 2, 3, 4, 5, 6]);
}

#[test]
fn visit_closure_static_thunks_and_functions() {
    let thunk_tbl = itbl(0, StgClosureType::THUNK_STATIC, 16);
    let st = StgThunk { header: thunk_header(0x3000), payload: ClosurePayload(vec![]) };
    assert_eq!(visit(&Closure::ThunkStatic(st), &thunk_tbl), vec![0x3000 + 24 + 16]);
    let fun_tbl = itbl(0, StgClosureType::FUN_STATIC, 8);
    let extra = StgFunInfoExtra { slow_apply: 0, bitmap: Bitmap(0), fun_type: StgFunType::ARG_NONE, arity: 0 };
    let sf = StgClosure { header: header(0x3000), payload: ClosurePayload(vec![]) };
    // the function table begins with its extra fields, before the plain table
    assert_eq!(visit(&Closure::FunStatic(sf, extra), &fun_tbl), vec![0x3000 - 24 + 48 + 8]);
    let no_srt = itbl(0, StgClosureType::THUNK_STATIC, 0);
    let st2 = StgThunk { header: thunk_header(0x3000), payload: ClosurePayload(vec![]) };
    assert!(visit(&Closure::ThunkStatic(st2), &no_srt).is_empty());
}

#[test]
fn checks_accept_what_the_scanners_handle() {
    assert!(stack_can_be_scanned(&sample_stack()));
    let t = itbl(0x0000_0001_0000_0002, StgClosureType::CONSTR_2_0, 0);
    let c = Closure::Constr(StgClosure { header: header(0), payload: ClosurePayload(vec![1, 2]) });
    assert!(closure_type_matches(&c, &t));
    assert!(closure_can_be_visited(&c, &t));
    assert!(srt_reachable(1000, 24, 0));
    assert!(srt_reachable(1000, 24, -1024));
    assert!(large_bitmap_covers_check(2, 2 * usize::BITS as usize));
    let payload = ClosurePayload(vec![1, 2, 3]);
    assert!(pap_payload_can_be_scanned(&fun_info(StgFunType::ARG_PNP, 0), None, &payload, 3));
}

#[test]
fn checks_refuse_what_the_scanners_cannot_handle() {
    // the variant must be the one of the closure type
    let c = Closure::Constr(StgClosure { header: header(0), payload: ClosurePayload(vec![1, 2]) });
    let wrong = itbl(0x0000_0001_0000_0002, StgClosureType::FUN, 0);
    assert!(!closure_type_matches(&c, &wrong));
    assert!(!closure_can_be_visited(&c, &wrong));
    // more pointers than payload words
    let short = itbl(0x0000_0000_0000_0003, StgClosureType::CONSTR, 0);
    assert!(!closure_can_be_visited(&c, &short));
    // an empty mutable array
    let empty = StgMutArrPtrs { header: header(0), ptrs: 0, size: 0, payload: ClosurePayload(vec![]) };
    assert!(!closure_can_be_visited(&Closure::ArrMutPtr(empty), &itbl(0, StgClosureType::MUT_ARR_PTRS_CLEAN, 0)));
    // a transaction chunk with an entry index past its entries
    let chunk = StgTRecChunk {
        header: header(0),
        prev_chunk: 0,
        next_entry_idx: 17,
        entries: [TRecEntry { tvar: 0, expected_value: 0, new_value: 0 }; 16],
    };
    assert!(!closure_can_be_visited(&Closure::TRecChunk(chunk), &itbl(0, StgClosureType::TREC_CHUNK, 0)));
    // a thread with a null bound call
    let mut t = tso(StgTSOBlocked::NOT_BLOCKED);
    t.bound = 0;
    assert!(!closure_can_be_visited(&Closure::TSO(t), &itbl(0, StgClosureType::TSO, 0)));
    // a frame type the stack scan does not handle, and a frame with the wrong table type
    assert!(!frame_can_be_scanned(&StackFrame::OTHER_FRAME(StgClosureType::CATCH_FRAME)));
    let mis = StackFrame::RET_SMALL(
        StgClosure { header: header(0x200), payload: ClosurePayload(vec![]) },
        StgSmallBitmap::make_small_bitmap(0, 0),
        StgRetInfoTable { i: itbl(0, StgClosureType::RET_BIG, 0) },
    );
    assert!(!frame_can_be_scanned(&mis));
    // an SRT offset that leads out of the address space
    assert!(!srt_reachable(10, 24, -40));
    assert!(!srt_reachable(usize::MAX - 10, 24, 8));
    assert!(!large_bitmap_covers_check(1, usize::BITS as usize + 1));
    // a large-bitmap function without its bitmap, and a function that is itself a PAP
    let payload = ClosurePayload(vec![1, 2, 3]);
    assert!(!pap_payload_can_be_scanned(&fun_info(StgFunType::ARG_GEN_BIG, 0), None, &payload, 3));
    let mut pap_fun = fun_info(StgFunType::ARG_P, 0);
    pap_fun.i.type_ = StgClosureType::PAP;
    assert!(!pap_payload_can_be_scanned(&pap_fun, None, &payload, 1));
    // an unhandled closure
    assert!(!closure_can_be_visited(&Closure::Other(StgClosureType::BCO), &itbl(0, StgClosureType::BCO, 0)));
}
