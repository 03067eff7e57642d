use vstd::prelude::*;

verus! {

/// One of the seven 8-bit registers an instruction can name.
#[derive(Clone, Copy, Debug, PartialEq, Eq, Structural)]
pub enum RegisterTarget {
    A,
    B,
    C,
    D,
    E,
    H,
    L,
}

/// A 16-bit operand of the 16-bit load and add instructions.
#[derive(Clone, Copy, Debug, PartialEq, Eq, Structural)]
pub enum RegisterTarget16 {
    BC,
    DE,
    HL,
    SP,
}

/// A register pair that can be pushed on, or popped from, the stack.
#[derive(Clone, Copy, Debug, PartialEq, Eq, Structural)]
pub enum PushPopTarget {
    AF,
    BC,
    DE,
    HL,
}

/// The flag test of a conditional jump.
#[derive(Clone, Copy, Debug, PartialEq, Eq, Structural)]
pub enum JumpCondition {
    NotZero,
    Zero,
    NotCarry,
    Carry,
}

/// A decoded instruction. It carries only the operand selectors; immediate operands
/// are read from the instruction stream when the instruction executes.
#[derive(Clone, Copy, Debug, PartialEq, Eq, Structural)]
pub enum Instruction {
    /// A <- A + R. Sets flags.
    AddRegister(RegisterTarget),
    /// A <- A + (HL). Sets flags.
    AddIndirectHl,
    /// A <- A + N, N read at PC. Sets flags.
    AddN,
    /// A <- A + R + carry. Sets flags.
    AddCarryRegister(RegisterTarget),
    /// A <- A + (HL) + carry. Sets flags.
    AdcIndirectHl,
    /// A <- A + N + carry, N read at PC. Sets flags.
    AddCarryN,
    /// A <- A - R. Sets flags.
    SubRegister(RegisterTarget),
    /// A <- A - (HL). Sets flags.
    SubIndirectHl,
    /// A <- A - N, N read at PC. Sets flags.
    SubN,
    /// HL <- HL + RR. Sets flags.
    AddHlRegister16(RegisterTarget16),
    /// First register <- second register.
    LoadRegisterRegister(RegisterTarget, RegisterTarget),
    /// R <- N, N read at PC.
    LoadRegisterN(RegisterTarget),
    /// R <- (HL).
    LoadRegisterIndirectHl(RegisterTarget),
    /// (HL) <- R.
    LoadIndirectHlRegister(RegisterTarget),
    /// (HL) <- N, N read at PC.
    LoadIndirectHlN,
    /// A <- (BC).
    LoadAIndirectBc,
    /// A <- (DE).
    LoadAIndirectDe,
    /// (BC) <- A.
    LoadIndirectBcA,
    /// (DE) <- A.
    LoadIndirectDeA,
    /// A <- (NN), NN read at PC.
    LoadANn,
    /// (NN) <- A, NN read at PC.
    LoadNnA,
    /// A <- (0xFF00 + C).
    LoadHalfAC,
    /// (0xFF00 + C) <- A.
    LoadHalfCA,
    /// A <- (0xFF00 + N), N read at PC.
    LoadHalfAN,
    /// (0xFF00 + N) <- A, N read at PC.
    LoadHalfNA,
    /// A <- (HL), then HL <- HL - 1.
    LoadAIndirectHlDecrement,
    /// (HL) <- A, then HL <- HL - 1.
    LoadIndirectHlDecrementA,
    /// A <- (HL), then HL <- HL + 1.
    LoadAIndirectHlIncrement,
    /// (HL) <- A, then HL <- HL + 1.
    LoadIndirectHlIncrementA,
    /// RR <- NN, NN read at PC.
    LoadRegister16Nn(RegisterTarget16),
    /// (NN) <- SP as a little-endian word, NN read at PC.
    LoadNnFromStackPointer,
    /// SP <- HL.
    LoadStackPointerFromHl,
    /// SP <- SP - 2, then (SP) <- RR.
    PushFromRegister(PushPopTarget),
    /// RR <- (SP), then SP <- SP + 2.
    PopIntoRegister(PushPopTarget),
    /// PC <- NN, NN read at PC.
    JumpToNn,
    /// PC <- NN when the condition holds; otherwise NN is skipped.
    JumpConditionalToNn(JumpCondition),
}

} // verus!
