use vstd::prelude::*;

verus! {

/// Register index of the program counter.
pub const REG_PC: u32 = 64;

/// Register index of the machine cycle counter (mcycle CSR).
pub const REG_MCYCLE: u32 = 69;

/// Register index of general-purpose register x10.
pub const REG_X10: u32 = 10;

/// Register index of general-purpose register x11.
pub const REG_X11: u32 = 11;

/// Register index of general-purpose register x12.
pub const REG_X12: u32 = 12;

/// Register index of general-purpose register x13.
pub const REG_X13: u32 = 13;

/// Register index of general-purpose register x14.
pub const REG_X14: u32 = 14;

/// Register index of general-purpose register x15.
pub const REG_X15: u32 = 15;

/// The register index of the program counter.
pub fn reg_pc() -> (index: u32)
    ensures
        index == REG_PC,
{
    REG_PC
}

/// The register index of the machine cycle counter (mcycle CSR).
pub fn reg_mcycle() -> (index: u32)
    ensures
        index == REG_MCYCLE,
{
    REG_MCYCLE
}

/// The register index of general-purpose register x10.
pub fn reg_x10() -> (index: u32)
    ensures
        index == REG_X10,
{
    REG_X10
}

/// The register index of general-purpose register x11.
pub fn reg_x11() -> (index: u32)
    ensures
        index == REG_X11,
{
    REG_X11
}

/// The register index of general-purpose register x12.
pub fn reg_x12() -> (index: u32)
    ensures
        index == REG_X12,
{
    REG_X12
}

/// The register index of general-purpose register x13.
pub fn reg_x13() -> (index: u32)
    ensures
        index == REG_X13,
{
    REG_X13
}

/// The register index of general-purpose register x14.
pub fn reg_x14() -> (index: u32)
    ensures
        index == REG_X14,
{
    REG_X14
}

/// The register index of general-purpose register x15.
pub fn reg_x15() -> (index: u32)
    ensures
        index == REG_X15,
{
    REG_X15
}

/// The register indices offered here are pairwise distinct, so a read or
/// write through one of them never reaches another.
pub proof fn lemma_register_indices_distinct()
    ensures
        seq![REG_PC, REG_MCYCLE, REG_X10, REG_X11, REG_X12, REG_X13, REG_X14, REG_X15].no_duplicates(),
{
}

} // verus!
