use vstd::prelude::*;

verus! {

/// Formats of Thumb instructions.
#[derive(Clone, Copy, Debug, PartialEq, Eq, Structural)]
pub enum ThumbInstructionType {
    AddSub,
    MoveShiftedReg,
    DataProcessImm,
    AluOps,
    HiRegOpOrBranchExchange,
    LdrPc,
    LdrStrRegOffset,
    LdrStrSHB,
    LdrStrImmOffset,
    LdrStrHalfWord,
    LdrStrSp,
    LoadAddress,
    AddSp,
    PushPop,
    LdmStm,
    Swi,
    BranchConditional,
    Branch,
    BranchLongWithLink,
    Unknown,
}

} // verus!
