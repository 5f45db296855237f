//! Word types and the closure-type and argument-pattern enumerations of the
//! GHC runtime.
use vstd::prelude::*;

verus! {

pub type StgWord = usize;
pub type StgHalfWord = u32;
pub type StgWord16 = u16;
pub type StgWord8 = u8;
pub type StgWord32 = u32;
pub type StgWord64 = u64;
pub type StgInt = i64;
pub type StgInt64 = i64;
pub type StgHalfInt = i32;
/// An address in the heap.
pub type StgPtr = usize;

/// The closure type stored in an info table, in the order of the runtime's
/// numbering (the first variant is number 0).
#[derive(PartialEq, Eq, Structural, Clone, Copy, Debug)]
pub enum StgClosureType {
    INVALID_OBJECT,
    CONSTR,
    CONSTR_1_0,
    CONSTR_0_1,
    CONSTR_2_0,
    CONSTR_1_1,
    CONSTR_0_2,
    CONSTR_NOCAF,
    FUN,
    FUN_1_0,
    FUN_0_1,
    FUN_2_0,
    FUN_1_1,
    FUN_0_2,
    FUN_STATIC,
    THUNK,
    THUNK_1_0,
    THUNK_0_1,
    THUNK_2_0,
    THUNK_1_1,
    THUNK_0_2,
    THUNK_STATIC,
    THUNK_SELECTOR,
    BCO,
    AP,
    PAP,
    AP_STACK,
    IND,
    IND_STATIC,
    RET_BCO,
    RET_SMALL,
    RET_BIG,
    RET_FUN,
    UPDATE_FRAME,
    CATCH_FRAME,
    UNDERFLOW_FRAME,
    STOP_FRAME,
    BLOCKING_QUEUE,
    BLACKHOLE,
    MVAR_CLEAN,
    MVAR_DIRTY,
    TVAR,
    ARR_WORDS,
    MUT_ARR_PTRS_CLEAN,
    MUT_ARR_PTRS_DIRTY,
    MUT_ARR_PTRS_FROZEN_DIRTY,
    MUT_ARR_PTRS_FROZEN_CLEAN,
    MUT_VAR_CLEAN,
    MUT_VAR_DIRTY,
    WEAK,
    PRIM,
    MUT_PRIM,
    TSO,
    STACK,
    TREC_CHUNK,
    ATOMICALLY_FRAME,
    CATCH_RETRY_FRAME,
    CATCH_STM_FRAME,
    WHITEHOLE,
    SMALL_MUT_ARR_PTRS_CLEAN,
    SMALL_MUT_ARR_PTRS_DIRTY,
    SMALL_MUT_ARR_PTRS_FROZEN_DIRTY,
    SMALL_MUT_ARR_PTRS_FROZEN_CLEAN,
    COMPACT_NFDATA,
    N_CLOSURE_TYPES,
}

/// How the arguments of a function are laid out: the general cases that carry
/// their own bitmap, and the standard patterns named by their arguments (`N` a
/// non-pointer word, `P` a pointer, `F`/`D`/`L` a float, double or 64-bit
/// word, `V16`/`V32`/`V64` a vector of that many bytes).
#[derive(PartialEq, Eq, Structural, Clone, Copy, Debug)]
pub enum StgFunType {
    ARG_GEN,
    ARG_GEN_BIG,
    ARG_BCO,
    ARG_NONE,
    ARG_N,
    ARG_P,
    ARG_F,
    ARG_D,
    ARG_L,
    ARG_V16,
    ARG_V32,
    ARG_V64,
    ARG_NN,
    ARG_NP,
    ARG_PN,
    ARG_PP,
    ARG_NNN,
    ARG_NNP,
    ARG_NPN,
    ARG_NPP,
    ARG_PNN,
    ARG_PNP,
    ARG_PPN,
    ARG_PPP,
    ARG_PPPP,
    ARG_PPPPP,
    ARG_PPPPPP,
    ARG_PPPPPPP,
    ARG_PPPPPPPP,
}

/// What a thread does next.
#[derive(PartialEq, Eq, Structural, Clone, Copy, Debug)]
pub enum StgTSONext {
    THREAD_RUN_GHC,
    THREAD_INTERPRET,
    THREAD_KILLED,
    THREAD_COMPLETE,
}

/// Why a thread is blocked.
#[derive(PartialEq, Eq, Structural, Clone, Copy, Debug)]
pub enum StgTSOBlocked {
    NOT_BLOCKED,
    BLOCKED_ON_MVAR,
    BLOCKED_ON_MVAR_READ,
    BLOCKED_ON_BLACK_HOLE,
    BLOCKED_ON_READ,
    BLOCKED_ON_WRITE,
    BLOCKED_ON_DELAY,
    BLOCKED_ON_STM,
    BLOCKED_ON_DO_PROC,
    BLOCKED_ON_CCALL,
    BLOCKED_ON_CCALL_INTERRUPTIBLE,
    BLOCKED_ON_MSG_THROW_TO,
    THREAD_MIGRATING,
}

/// The flag word of a thread.
#[derive(PartialEq, Eq, Structural, Clone, Copy, Debug)]
pub struct StgTSOFlag(pub StgWord32);

} // verus!
