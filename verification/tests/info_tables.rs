use mmtk_ghc::stg_closures::{
    FinalizerCall, FinalizerFn, StgCFinalizerList, StgHeader, StgInfoTableRef, StgProfHeader,
    TaggedClosureRef,
};
use mmtk_ghc::stg_info_table::{
    Bitmap, ClosureFlag, LargeBitMapPayload, StgClosureInfo, StgFunInfoExtra, StgFunInfoTable,
    StgInfoTable, StgLargeBitmapRef, StgProfInfo, StgRetInfoTable, StgSRTField, StgSmallBitmap,
    StgThunkInfoTable,
};
use mmtk_ghc::types::{StgClosureType, StgFunType};
use mmtk_ghc::util::{offset_bytes, offset_from_end, offset_words};

fn itbl(layout: u64, type_: StgClosureType, srt: i32) -> StgInfoTable {
    StgInfoTable {
        code: 0x4000,
        prof: StgProfInfo {},
        layout: StgClosureInfo(layout),
        type_,
        srt: StgSRTField { srt },
    }
}

#[test]
fn closure_flags_read_their_bits() {
    let mutable = ClosureFlag(0x10);
    assert!(mutable.isMUTABLE());
    assert!(!mutable.isBITMAP());
    assert!(!mutable.isTHUNK());
    assert!(!mutable.isUNPOINTED());
    assert!(!mutable.hasSRT());

    // bitmap layout, thunk, has an SRT
    let thunk = ClosureFlag(0x02 | 0x08 | 0x40);
    assert!(thunk.isBITMAP());
    assert!(thunk.isTHUNK());
    assert!(thunk.hasSRT());
    assert!(!thunk.isMUTABLE());
    assert!(!thunk.isUNPOINTED());

    let unpointed = ClosureFlag(0x20 | 0x04);
    assert!(unpointed.isUNPOINTED());
    assert!(!unpointed.isMUTABLE());
}

#[test]
fn small_bitmap_packs_size_below_bits() {
    let b = StgSmallBitmap::make_small_bitmap(3, 0b101);
    assert_eq!(b.0, (0b101 << 6) | 3);
    assert_eq!(b.0, 323);
    assert_eq!(b.size(), 3);
    assert_eq!(b.bits(), 0b101);
}

#[test]
fn small_bitmap_read_back_and_repack() {
    let w: usize = 0xdead_beef;
    let b = StgSmallBitmap(w);
    assert_eq!(b.size(), w % 64);
    assert_eq!(b.bits(), w / 64);
    let again = StgSmallBitmap::make_small_bitmap(b.size(), b.bits());
    assert_eq!(again.0, w);
}

#[test]
fn small_bitmap_size_field_is_six_bits() {
    let b = StgSmallBitmap::make_small_bitmap(63, 1);
    assert_eq!(b.size(), 63);
    assert_eq!(b.bits(), 1);
    let empty = StgSmallBitmap::make_small_bitmap(0, 0);
    assert_eq!(empty.0, 0);
}

#[test]
fn closure_info_reads_pointer_counts() {
    let info = StgClosureInfo(0x0000_0002_0000_0005);
    let p = info.payload();
    assert_eq!(p.ptrs, 5);
    assert_eq!(p.nptrs, 2);
    assert_eq!(info.small_bitmap().0, 0x0000_0002_0000_0005);
    assert_eq!(info.selector_offset(), 0x0000_0002_0000_0005);
}

#[test]
fn closure_info_reads_negative_large_bitmap_offset() {
    let info = StgClosureInfo((-48i64) as u64);
    assert_eq!(info.large_bitmap().offset, -48);
    let bm = Bitmap((-16i64) as u64);
    assert_eq!(bm.large_bitmap_ref().offset, -16);
    assert_eq!(Bitmap(0x83).small_bitmap().0, 0x83);
}

#[test]
fn large_bitmap_ref_points_past_its_own_end() {
    // the offset comes from the info table's layout word, not from the reference
    let r = StgLargeBitmapRef { offset: 0 };
    let forward = itbl(40, StgClosureType::RET_BIG, 0);
    assert_eq!(r.deref(&forward, 2000), 2048);
    let back = itbl((-24i64) as u64, StgClosureType::RET_BIG, 0);
    assert_eq!(r.deref(&back, 2000), 1984);
}

#[test]
fn large_bitmap_payload_words() {
    let p = LargeBitMapPayload(vec![7, 8, 9]);
    assert_eq!(p.get_w(0), 7);
    assert_eq!(p.get_w(2), 9);
}

#[test]
fn standard_argument_patterns_have_their_bitmaps() {
    let npn = StgFunType::ARG_NPN.get_small_bitmap();
    assert_eq!(npn.size(), 3);
    assert_eq!(npn.bits(), 0b101);
    let ppp = StgFunType::ARG_PPP.get_small_bitmap();
    assert_eq!(ppp.size(), 3);
    assert_eq!(ppp.bits(), 0);
    let v64 = StgFunType::ARG_V64.get_small_bitmap();
    assert_eq!(v64.size(), 8);
    assert_eq!(v64.bits(), 0xff);
    let pn = StgFunType::ARG_PN.get_small_bitmap();
    assert_eq!(pn.size(), 2);
    assert_eq!(pn.bits(), 0b10);
    let none = StgFunType::ARG_NONE.get_small_bitmap();
    assert_eq!(none.size(), 0);
    let p8 = StgFunType::ARG_PPPPPPPP.get_small_bitmap();
    assert_eq!(p8.size(), 8);
    assert_eq!(p8.bits(), 0);
}

#[test]
fn srt_of_return_table_follows_its_end() {
    let ret = StgRetInfoTable { i: itbl(0, StgClosureType::RET_SMALL, 16) };
    assert_eq!(ret.get_srt(1000), 1000 + 24 + 16);
    let back = StgRetInfoTable { i: itbl(0, StgClosureType::RET_SMALL, -8) };
    assert_eq!(back.get_srt(1000), 1016);
    let none = StgRetInfoTable { i: itbl(0, StgClosureType::RET_SMALL, 0) };
    // a zero offset still names the address just past the table
    assert_eq!(none.get_srt(1000), 1024);
}

#[test]
fn srt_of_thunk_and_function_tables() {
    let plain = itbl(0, StgClosureType::THUNK_STATIC, 32);
    let thunk = StgThunkInfoTable::from_info_table(&plain);
    assert_eq!(thunk.get_srt(5000), 5000 + 24 + 32);
    let fun = StgFunInfoTable {
        f: StgFunInfoExtra {
            slow_apply: 0,
            bitmap: Bitmap(0),
            fun_type: StgFunType::ARG_P,
            arity: 1,
        },
        i: itbl(0, StgClosureType::FUN_STATIC, 32),
    };
    assert_eq!(fun.get_srt(5000), 5000 + 48 + 32);
    let fun_none = StgFunInfoTable { i: itbl(0, StgClosureType::FUN_STATIC, 0), ..fun };
    assert_eq!(fun_none.get_srt(5000), 5048);
}

#[test]
fn info_pointer_leads_to_table() {
    let r = StgInfoTableRef(0x7000);
    assert_eq!(r.get_info_table(), 0x7000);
}

#[test]
fn address_offsets() {
    assert_eq!(offset_bytes(100, 20), 120);
    assert_eq!(offset_bytes(100, -20), 80);
    assert_eq!(offset_bytes(100, -100), 0);
    assert_eq!(offset_words(100, 2), 100 + 2 * std::mem::size_of::<usize>());
    assert_eq!(offset_words(100, -1), 100 - std::mem::size_of::<usize>());
    assert_eq!(offset_from_end(100, 24, 8), 132);
    assert_eq!(offset_from_end(100, 24, -24), 100);
}

#[test]
fn tagged_pointer_splits_into_address_and_tag() {
    let t = TaggedClosureRef::from_ptr(0x1003);
    assert_eq!(t.to_ptr(), 0x1000);
    assert_eq!(t.get_tag(), 3);
    let plain = TaggedClosureRef::from_ptr(0x2000);
    assert_eq!(plain.to_ptr(), 0x2000);
    assert_eq!(plain.get_tag(), 0);
}

#[test]
fn c_finalizer_call_by_flag() {
    let header = StgHeader { info_table: StgInfoTableRef(0x10), prof_header: StgProfHeader {} };
    let without = StgCFinalizerList {
        header,
        link: 0,
        finalize: FinalizerFn(0xf00),
        ptr: 0xaaa,
        eptr: 0xbbb,
        flag: 0,
    };
    assert_eq!(without.run(), FinalizerCall::WithoutEnv { fun: 0xf00, ptr: 0xaaa });
    let with = StgCFinalizerList { flag: 1, ..without };
    assert_eq!(with.run(), FinalizerCall::WithEnv { fun: 0xf00, eptr: 0xbbb, ptr: 0xaaa });
}
