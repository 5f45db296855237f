//! The layouts of heap closures, stack frames, threads and messages. A field
//! that the runtime holds as a pointer is held here as the address it
//! points to; a payload is held as its words.
use vstd::prelude::*;
use crate::types::{
    StgHalfWord, StgInt, StgInt64, StgPtr, StgTSOBlocked, StgTSOFlag, StgTSONext, StgWord,
    StgWord32, StgWord64, StgWord8,
};
use crate::stg_info_table::{StgLargeBitmap, SIZEOF_STG_INFO_TABLE};

verus! {

/// Whether info tables are laid out right before the entry code, with the
/// header pointing at the end of the table. This build lays them apart.
pub const TABLES_NEXT_TO_CODE: bool = false;

// ------------ Tagged closure pointers ------------

/// The low bits of a closure pointer that hold its tag (three on a 64-bit
/// runtime, where closures are word aligned).
pub const TAG_BITS: usize = 3;
pub const TAG_MASK: usize = 7;

/// A closure pointer that may carry a tag in its low bits.
#[derive(Clone, Copy, PartialEq, Eq, Structural, Debug)]
pub struct TaggedClosureRef(pub usize);

impl TaggedClosureRef {
    pub fn from_ptr(ptr: usize) -> (r: TaggedClosureRef)
        ensures
            r.0 == ptr,
    {
        TaggedClosureRef(ptr)
    }

    /// The address of the closure: the pointer without its tag.
    pub fn to_ptr(&self) -> (r: usize)
        ensures
            r == self.0 - self.0 % 8,
            r % 8 == 0,
    {
        let w = self.0;
        assert(w & !7usize == w - w % 8 && (w & !7usize) % 8 == 0) by (bit_vector);
        self.0 & !TAG_MASK
    }

    /// The tag of the pointer.
    pub fn get_tag(&self) -> (r: usize)
        ensures
            r == self.0 % 8,
    {
        let w = self.0;
        assert(w & 7usize == w % 8) by (bit_vector);
        self.0 & TAG_MASK
    }
}

// ------------ Closure headers ------------

/// Profiling header (empty in a non-profiling runtime).
#[derive(Clone, Copy, Debug)]
pub struct StgProfHeader {}

#[derive(Clone, Copy, Debug)]
pub struct StgSMPThunkHeader {
    pub pad: StgWord,
}

/// The info pointer of a closure header: the address stored in it.
#[derive(Clone, Copy, Debug)]
pub struct StgInfoTableRef(pub usize);

/// Whether the info pointer leads to an info table address.
pub open spec fn info_table_ref_ok(r: StgInfoTableRef) -> bool {
    TABLES_NEXT_TO_CODE ==> r.0 >= SIZEOF_STG_INFO_TABLE
}

/// The address of the info table that an info pointer leads to: the pointer
/// itself, or, when tables lie right before the code, one table before it.
pub open spec fn info_table_address(r: StgInfoTableRef) -> usize {
    if TABLES_NEXT_TO_CODE {
        (r.0 - SIZEOF_STG_INFO_TABLE) as usize
    } else {
        r.0
    }
}

/// Whether the info pointer leads to an info table address:
/// `info_table_ref_ok`.
pub fn info_table_ref_valid(r: StgInfoTableRef) -> (b: bool)
    ensures
        b == info_table_ref_ok(r),
{
    !TABLES_NEXT_TO_CODE || r.0 >= SIZEOF_STG_INFO_TABLE
}

impl StgInfoTableRef {
    /// The address of the info table that the header refers to.
    pub fn get_info_table(&self) -> (r: usize)
        requires
            info_table_ref_ok(*self),
        ensures
            r == info_table_address(*self),
    {
        if TABLES_NEXT_TO_CODE {
            self.0 - SIZEOF_STG_INFO_TABLE
        } else {
            self.0
        }
    }
}

#[derive(Clone, Copy, Debug)]
pub struct StgHeader {
    pub info_table: StgInfoTableRef,
    pub prof_header: StgProfHeader,
}

#[derive(Clone, Copy, Debug)]
pub struct StgThunkHeader {
    pub info_table: StgInfoTableRef,
    pub prof_header: StgProfHeader,
    pub smp: StgSMPThunkHeader,
}

// ------------ payload ------------

/// The words that follow a closure's header.
#[derive(Debug)]
pub struct ClosurePayload(pub Vec<StgWord>);

impl ClosurePayload {
    /// Word `i` of the payload.
    pub fn get(&self, i: usize) -> (r: StgWord)
        requires
            i < self.0.len(),
        ensures
            r == self.0@[i as int],
    {
        self.0[i]
    }
}

// ------------ Closure types ------------

#[derive(Debug)]
pub struct StgClosure {
    pub header: StgHeader,
    pub payload: ClosurePayload,
}

/// Closure types: THUNK, THUNK_<X>_<Y>
#[derive(Debug)]
pub struct StgThunk {
    pub header: StgThunkHeader,
    pub payload: ClosurePayload,
}

/// Closure types: THUNK_SELECTOR
#[derive(Clone, Copy, Debug)]
pub struct StgSelector {
    pub header: StgThunkHeader,
    pub selectee: StgPtr,
}

/// Closure types: PAP
#[derive(Debug)]
pub struct StgPAP {
    pub header: StgHeader,
    pub arity: StgHalfWord,
    pub n_args: StgHalfWord,
    pub fun: StgPtr,
    pub payload: ClosurePayload,
}

/// Closure types: AP
#[derive(Debug)]
pub struct StgAP {
    pub header: StgThunkHeader,
    pub arity: StgHalfWord,
    pub n_args: StgHalfWord,
    pub fun: StgPtr,
    pub payload: ClosurePayload,
}

/// Closure types: AP_STACK
#[derive(Debug)]
pub struct StgAP_STACK {
    pub header: StgThunkHeader,
    pub size: StgWord,
    pub fun: StgPtr,
    pub payload: ClosurePayload,
}

/// Closure types: IND
#[derive(Clone, Copy, Debug)]
pub struct StgInd {
    pub header: StgHeader,
    pub indirectee: StgPtr,
}

/// Closure types: IND_STATIC
#[derive(Clone, Copy, Debug)]
pub struct StgIndStatic {
    pub header: StgHeader,
    pub indirectee: StgPtr,
    pub static_link: StgPtr,
    pub saved_info_table: StgInfoTableRef,
}

/// Closure types: BLOCKING_QUEUE
#[derive(Clone, Copy, Debug)]
pub struct StgBlockingQueue {
    pub header: StgHeader,
    pub link: StgPtr,
    pub bh: StgPtr,
    pub owner: StgPtr,
    pub queue: StgPtr,
}

/// A thread state object.
#[derive(Clone, Copy, Debug)]
pub struct StgTSO {
    pub header: StgHeader,
    pub link: StgPtr,
    pub global_link: StgPtr,
    pub tso_link_prev: StgPtr,
    pub tso_link_next: StgPtr,
    pub stackobj: StgPtr,
    pub what_next: StgTSONext,
    pub why_blocked: StgTSOBlocked,
    pub flags: StgTSOFlag,
    pub block_info: StgTSOBlockInfo,
    pub id: StgThreadID,
    pub saved_errno: StgWord32,
    pub dirty: StgWord32,
    pub bound: StgPtr,
    pub cap: StgPtr,
    pub trec: StgPtr,
    pub blocked_exceptions: StgPtr,
    pub blocking_queue: StgPtr,
    pub alloc_limit: StgInt64,
    pub tot_stack_size: StgWord32,
}

#[derive(Clone, Copy, Debug)]
pub struct StgThreadID(pub StgWord64);

#[derive(Clone, Copy, Debug)]
pub struct InCall {}

/// What a blocked thread waits on, read as the closure it refers to.
#[derive(Clone, Copy, Debug)]
pub struct StgTSOBlockInfo {
    pub closure: StgPtr,
}

#[derive(Clone, Copy, Debug)]
pub struct Capability {}

/// Closure types: ARR_WORDS (an array of bytes)
#[derive(Clone, Copy, Debug)]
pub struct StgArrBytes {
    pub header: StgHeader,
    /// number of bytes in the payload
    pub bytes: StgWord,
}

/// Closure types: MUT_ARR_PTRS_CLEAN, MUT_ARR_PTRS_DIRTY,
/// MUT_ARR_PTRS_FROZEN_DIRTY, MUT_ARR_PTRS_FROZEN_CLEAN
#[derive(Debug)]
pub struct StgMutArrPtrs {
    pub header: StgHeader,
    pub ptrs: StgWord,
    pub size: StgWord,
    pub payload: ClosurePayload,
}

/// Closure types: SMALL_MUT_ARR_PTRS_CLEAN, SMALL_MUT_ARR_PTRS_DIRTY,
/// SMALL_MUT_ARR_PTRS_FROZEN_DIRTY, SMALL_MUT_ARR_PTRS_FROZEN_CLEAN
#[derive(Debug)]
pub struct StgSmallMutArrPtrs {
    pub header: StgHeader,
    pub ptrs: StgWord,
    pub payload: ClosurePayload,
}

/// Closure types: MUT_VAR_CLEAN, MUT_VAR_DIRTY
#[derive(Clone, Copy, Debug)]
pub struct StgMutVar {
    pub header: StgHeader,
    pub var: StgPtr,
}

// ------ stack frames -----------

/// Closure types: UPDATE_FRAME
#[derive(Clone, Copy, Debug)]
pub struct StgUpdateFrame {
    pub header: StgHeader,
    pub updatee: StgPtr,
}

/// Closure types: CATCH_FRAME
#[derive(Clone, Copy, Debug)]
pub struct StgCatchFrame {
    pub header: StgHeader,
    pub exceptions_blocked: StgWord,
    pub handler: StgPtr,
}

#[derive(Clone, Copy, Debug)]
pub struct StgStackPayload {}

#[derive(Clone, Copy, Debug)]
pub struct StgStack {
    pub header: StgHeader,
    pub stack_size: StgWord32,
    pub dirty: StgWord8,
    pub marking: StgWord8,
    pub sp: StgPtr,
    pub stack: StgStackPayload,
}

/// Closure types: UNDERFLOW_FRAME
#[derive(Clone, Copy, Debug)]
pub struct StgUnderflowFrame {
    pub info_table: StgInfoTableRef,
    pub next_chunk: StgPtr,
}

/// Closure types: STOP_FRAME
#[derive(Clone, Copy, Debug)]
pub struct StgStopFrame {
    pub header: StgHeader,
}

/// Closure types: RET_FUN
#[derive(Debug)]
pub struct StgRetFun {
    pub info_table: StgInfoTableRef,
    pub size: StgWord,
    pub fun: StgPtr,
    pub payload: ClosurePayload,
}

/// Closure type: CONSTR_0_1
#[derive(Clone, Copy, Debug)]
pub struct StgIntCharlikeClosure {
    pub header: StgHeader,
    pub data: StgWord,
}

/// Stable name, StableName# v
#[derive(Clone, Copy, Debug)]
pub struct StgStableName {
    pub header: StgHeader,
    pub sn: StgWord,
}

/// Closure types: WEAK
#[derive(Clone, Copy, Debug)]
pub struct StgWeak {
    pub header: StgHeader,
    pub cfinalizers: StgPtr,
    pub key: StgPtr,
    pub value: StgPtr,
    pub finalizer: StgPtr,
    pub link: StgPtr,
}

/// The C function of a finalizer: its address, called with one argument
/// (`ptr`) or with two (`eptr`, `ptr`).
#[derive(Clone, Copy, Debug)]
pub struct FinalizerFn(pub usize);

/// How a C finalizer is to be called.
#[derive(Clone, Copy, PartialEq, Eq, Structural, Debug)]
pub enum FinalizerCall {
    /// call `fun(ptr)`
    WithoutEnv { fun: usize, ptr: usize },
    /// call `fun(eptr, ptr)`
    WithEnv { fun: usize, eptr: usize, ptr: usize },
}

/// Closure type: CONSTR
#[derive(Clone, Copy, Debug)]
pub struct StgCFinalizerList {
    pub header: StgHeader,
    pub link: StgPtr,
    pub finalize: FinalizerFn,
    pub ptr: usize,
    pub eptr: usize,
    pub flag: StgWord,
}

impl StgCFinalizerList {
    /// The call that runs this finalizer: flag 0 calls it on `ptr` alone,
    /// flag 1 on `eptr` and `ptr`.
    pub fn run(&self) -> (r: FinalizerCall)
        requires
            self.flag <= 1,
        ensures
            self.flag == 0 ==> r == (FinalizerCall::WithoutEnv { fun: self.finalize.0, ptr: self.ptr }),
            self.flag == 1 ==> r == (FinalizerCall::WithEnv {
                fun: self.finalize.0,
                eptr: self.eptr,
                ptr: self.ptr,
            }),
    {
        if self.flag == 0 {
            FinalizerCall::WithoutEnv { fun: self.finalize.0, ptr: self.ptr }
        } else {
            FinalizerCall::WithEnv { fun: self.finalize.0, eptr: self.eptr, ptr: self.ptr }
        }
    }
}

/// Closure types: BCO
#[derive(Debug)]
pub struct StgBCO {
    pub header: StgHeader,
    pub instrs: StgPtr,
    pub literals: StgPtr,
    pub ptrs: StgPtr,
    pub arity: StgHalfWord,
    pub size: StgHalfWord,
    pub bitmap: StgLargeBitmap,
}

#[derive(Clone, Copy, Debug)]
pub struct StgMVarTSOQueue {
    pub header: StgHeader,
    pub link: StgPtr,
    pub tso: StgPtr,
}

/// Closure types: MVAR_CLEAN, MVAR_DIRTY
#[derive(Clone, Copy, Debug)]
pub struct StgMVar {
    pub header: StgHeader,
    pub head: StgPtr,
    pub tail: StgPtr,
    pub value: StgPtr,
}

#[derive(Clone, Copy, Debug)]
pub struct StgTVarWatchQueue {
    pub header: StgHeader,
    pub closure: StgPtr,
    pub next_queue_entry: StgPtr,
    pub prev_queue_entry: StgPtr,
}

#[derive(Clone, Copy, Debug)]
pub struct StgTVar {
    pub header: StgHeader,
    pub current_value: StgPtr,
    pub first_watch_queue_entry: StgPtr,
    pub num_updates: StgInt,
}

#[derive(Clone, Copy, Debug)]
pub struct TRecEntry {
    pub tvar: StgPtr,
    pub expected_value: StgPtr,
    pub new_value: StgPtr,
}

pub const TREC_CHUNK_NUM_ENTRIES: usize = 16;

/// A chunk of transaction-record entries.
#[derive(Clone, Copy, Debug)]
pub struct StgTRecChunk {
    pub header: StgHeader,
    pub prev_chunk: StgPtr,
    pub next_entry_idx: StgWord,
    pub entries: [TRecEntry; TREC_CHUNK_NUM_ENTRIES],
}

#[derive(Clone, Copy, PartialEq, Eq, Structural, Debug)]
pub enum TRecState {
    /// Transaction in progress, outcome undecided
    TrecActive,
    /// Transaction in progress, inconsistent / out of date reads
    TrecCondemned,
    /// Transaction has committed, now updating tvars
    TrecCommitted,
    /// Transaction has aborted, now reverting tvars
    TrecAborted,
    /// Transaction currently waiting
    TrecWaiting,
}

#[derive(Clone, Copy, Debug)]
pub struct StgTRecHeader {
    pub header: StgHeader,
    pub enclosing_trec: StgPtr,
    pub current_chunk: StgPtr,
    pub state: TRecState,
}

#[derive(Clone, Copy, Debug)]
pub struct StgAtomicallyFrame {
    pub header: StgHeader,
    pub code: StgPtr,
    pub result: StgPtr,
}

#[derive(Clone, Copy, Debug)]
pub struct StgCatchSTMFrame {
    pub header: StgHeader,
    pub code: StgPtr,
    pub handler: StgPtr,
}

#[derive(Clone, Copy, Debug)]
pub struct StgCatchRetryFrame {
    pub header: StgHeader,
    pub running_alt_code: StgWord,
    pub first_code: StgPtr,
    pub alt_code: StgPtr,
}

// ------------ Messages ------------

#[derive(Clone, Copy, Debug)]
pub struct Message {
    pub header: StgHeader,
    pub link: StgPtr,
}

#[derive(Clone, Copy, Debug)]
pub struct MessageWakeup {
    pub header: StgHeader,
    pub link: StgPtr,
    pub tso: StgPtr,
}

#[derive(Clone, Copy, Debug)]
pub struct MessageThrowTo {
    pub header: StgHeader,
    pub link: StgPtr,
    pub source: StgPtr,
    pub target: StgPtr,
    pub exception: StgPtr,
}

#[derive(Clone, Copy, Debug)]
pub struct MessageBlackHole {
    pub header: StgHeader,
    pub link: StgPtr,
    pub tso: StgPtr,
    pub bh: StgPtr,
}

#[derive(Clone, Copy, Debug)]
pub struct MessageCloneStack {
    pub header: StgHeader,
    pub link: StgPtr,
    pub result: StgPtr,
    pub tso: StgPtr,
}

// ------------ Compact regions ------------

#[derive(Clone, Copy, Debug)]
pub struct StgCompactNFDataBlock {
    pub self_: StgPtr,
    pub owner: StgPtr,
    pub next: StgPtr,
}

#[derive(Clone, Copy, Debug)]
pub struct Hashtable {}

#[derive(Clone, Copy, Debug)]
pub struct StgCompactNFData {
    pub header: StgHeader,
    pub totalW: StgWord,
    pub autoBlockW: StgWord,
    pub hp: StgPtr,
    pub hpLim: StgPtr,
    pub nursery: StgPtr,
    pub last: StgPtr,
    pub hash: StgPtr,
    pub result: StgPtr,
    pub link: StgPtr,
}

} // verus!
