//! The guest general-purpose register file: an in-memory image of the 16
//! architectural general-purpose registers, with bit-exact sub-width views.

use vstd::prelude::*;

verus! {

/// True for the architectural indices that address a tracked register slot:
/// 0-15, excluding 4 (the stack pointer, which is not part of this structure).
pub open spec fn valid_reg_index(i: int) -> bool {
    0 <= i <= 15 && i != 4
}

/// General-purpose registers for the 64-bit x86 architecture.
///
/// The field order is the architectural register-index encoding order
/// (0=rax, 1=rcx, 2=rdx, 3=rbx, 4=rsp slot, 5=rbp, 6=rsi, 7=rdi, 8-15=r8-r15);
/// low-level save/restore sequences and index-addressed callers rely on it.
#[derive(Debug, Clone, Copy, PartialEq, Eq, Structural)]
pub struct GeneralRegisters {
    /// The RAX register, typically used for return values in functions.
    pub rax: u64,
    /// The RCX register, often used as a counter in loops.
    pub rcx: u64,
    /// The RDX register, commonly used for I/O operations.
    pub rdx: u64,
    /// The RBX register, usually used as a base pointer or to store values across function calls.
    pub rbx: u64,
    /// Placeholder keeping the RSP slot of the architectural layout; the stack
    /// pointer itself is never read or written through the indexed accessors.
    pub _unused_rsp: u64,
    /// The RBP register, often used as a frame pointer in function calls.
    pub rbp: u64,
    /// The RSI register, often used as a source index in string operations.
    pub rsi: u64,
    /// The RDI register, often used as a destination index in string operations.
    pub rdi: u64,
    /// The R8 register, an additional general-purpose register available in 64-bit mode.
    pub r8: u64,
    /// The R9 register, an additional general-purpose register available in 64-bit mode.
    pub r9: u64,
    /// The R10 register, an additional general-purpose register available in 64-bit mode.
    pub r10: u64,
    /// The R11 register, an additional general-purpose register available in 64-bit mode.
    pub r11: u64,
    /// The R12 register, an additional general-purpose register available in 64-bit mode.
    pub r12: u64,
    /// The R13 register, an additional general-purpose register available in 64-bit mode.
    pub r13: u64,
    /// The R14 register, an additional general-purpose register available in 64-bit mode.
    pub r14: u64,
    /// The R15 register, an additional general-purpose register available in 64-bit mode.
    pub r15: u64,
}

impl GeneralRegisters {
    /// The value of the register slot with architectural index `i`.
    pub open spec fn reg(self, i: int) -> u64 {
        if i == 0 {
            self.rax
        } else if i == 1 {
            self.rcx
        } else if i == 2 {
            self.rdx
        } else if i == 3 {
            self.rbx
        } else if i == 5 {
            self.rbp
        } else if i == 6 {
            self.rsi
        } else if i == 7 {
            self.rdi
        } else if i == 8 {
            self.r8
        } else if i == 9 {
            self.r9
        } else if i == 10 {
            self.r10
        } else if i == 11 {
            self.r11
        } else if i == 12 {
            self.r12
        } else if i == 13 {
            self.r13
        } else if i == 14 {
            self.r14
        } else if i == 15 {
            self.r15
        } else {
            0
        }
    }

    /// The register file with slot `i` replaced by `v` and every other slot,
    /// the reserved one included, unchanged.
    pub open spec fn with_reg(self, i: int, v: u64) -> GeneralRegisters {
        if i == 0 {
            GeneralRegisters { rax: v, ..self }
        } else if i == 1 {
            GeneralRegisters { rcx: v, ..self }
        } else if i == 2 {
            GeneralRegisters { rdx: v, ..self }
        } else if i == 3 {
            GeneralRegisters { rbx: v, ..self }
        } else if i == 5 {
            GeneralRegisters { rbp: v, ..self }
        } else if i == 6 {
            GeneralRegisters { rsi: v, ..self }
        } else if i == 7 {
            GeneralRegisters { rdi: v, ..self }
        } else if i == 8 {
            GeneralRegisters { r8: v, ..self }
        } else if i == 9 {
            GeneralRegisters { r9: v, ..self }
        } else if i == 10 {
            GeneralRegisters { r10: v, ..self }
        } else if i == 11 {
            GeneralRegisters { r11: v, ..self }
        } else if i == 12 {
            GeneralRegisters { r12: v, ..self }
        } else if i == 13 {
            GeneralRegisters { r13: v, ..self }
        } else if i == 14 {
            GeneralRegisters { r14: v, ..self }
        } else if i == 15 {
            GeneralRegisters { r15: v, ..self }
        } else {
            self
        }
    }

    /// Returns the value of the general-purpose register corresponding to the
    /// given architectural index (0=rax, 1=rcx, 2=rdx, 3=rbx, 5=rbp, 6=rsi,
    /// 7=rdi, 8-15=r8-r15). Index 4 addresses the stack-pointer slot, which is
    /// not a tracked register, so it is excluded along with indices above 15.
    pub fn get_reg_of_index(&self, index: u8) -> (r: u64)
        requires
            valid_reg_index(index as int),
        ensures
            r == self.reg(index as int),
    {
        match index {
            0 => self.rax,
            1 => self.rcx,
            2 => self.rdx,
            3 => self.rbx,
            5 => self.rbp,
            6 => self.rsi,
            7 => self.rdi,
            8 => self.r8,
            9 => self.r9,
            10 => self.r10,
            11 => self.r11,
            12 => self.r12,
            13 => self.r13,
            14 => self.r14,
            15 => self.r15,
            _ => vstd::pervasive::unreached(),
        }
    }

    /// Sets the value of the general-purpose register corresponding to the
    /// given architectural index; every other slot is left unchanged. The
    /// index must be 0-15 and not 4 (the stack-pointer slot).
    pub fn set_reg_of_index(&mut self, index: u8, value: u64)
        requires
            valid_reg_index(index as int),
        ensures
            *final(self) == old(self).with_reg(index as int, value),
    {
        match index {
            0 => self.rax = value,
            1 => self.rcx = value,
            2 => self.rdx = value,
            3 => self.rbx = value,
            5 => self.rbp = value,
            6 => self.rsi = value,
            7 => self.rdi = value,
            8 => self.r8 = value,
            9 => self.r9 = value,
            10 => self.r10 = value,
            11 => self.r11 = value,
            12 => self.r12 = value,
            13 => self.r13 = value,
            14 => self.r14 = value,
            15 => self.r15 = value,
            _ => vstd::pervasive::unreached(),
        }
    }

    /// Like `get_reg_of_index`, but total: an index that addresses no tracked
    /// register (4, or above 15) is rejected with `None` instead of being a
    /// caller error.
    pub fn try_get_reg_of_index(&self, index: u8) -> (r: Option<u64>)
        ensures
            valid_reg_index(index as int) ==> r == Some(self.reg(index as int)),
            !valid_reg_index(index as int) ==> r is None,
    {
        if index <= 15 && index != 4 {
            Some(self.get_reg_of_index(index))
        } else {
            None
        }
    }

    /// Like `set_reg_of_index`, but total: returns whether the write was
    /// performed; an index that addresses no tracked register is rejected and
    /// leaves the register file unchanged.
    pub fn try_set_reg_of_index(&mut self, index: u8, value: u64) -> (r: bool)
        ensures
            r == valid_reg_index(index as int),
            r ==> *final(self) == old(self).with_reg(index as int, value),
            !r ==> *final(self) == *old(self),
    {
        if index <= 15 && index != 4 {
            self.set_reg_of_index(index, value);
            true
        } else {
            false
        }
    }
}

impl GeneralRegisters {
    /// Returns the 32-bit view of the register with the given index
    /// (eax, ecx, ..., r15d): bits 0 to 31 of the full register.
    pub fn get_reg32(&self, index: u8) -> (r: u32)
        requires
            valid_reg_index(index as int),
        ensures
            r == self.reg(index as int) & 0xffff_ffff,
    {
        let v = self.get_reg_of_index(index);
        proof {
            assert(v as u32 == v & 0xffff_ffff) by (bit_vector);
        }
        v as u32
    }

    /// Sets the 32-bit view of the register with the given index. Following
    /// the x86-64 architecture, a 32-bit write clears the upper 32 bits of
    /// the full register, so the slot afterwards holds the value zero-extended.
    pub fn set_reg32(&mut self, index: u8, value: u32)
        requires
            valid_reg_index(index as int),
        ensures
            *final(self) == old(self).with_reg(index as int, value as u64),
    {
        self.set_reg_of_index(index, value as u64);
    }

    /// Returns the 16-bit view of the register with the given index
    /// (ax, cx, ..., r15w): bits 0 to 15 of the full register.
    pub fn get_reg16(&self, index: u8) -> (r: u16)
        requires
            valid_reg_index(index as int),
        ensures
            r == self.reg(index as int) & 0xffff,
    {
        let v = self.get_reg_of_index(index);
        proof {
            assert(v as u16 == v & 0xffff) by (bit_vector);
        }
        v as u16
    }

    /// Sets the 16-bit view of the register with the given index. Following
    /// the x86-64 architecture, a 16-bit write preserves every bit of the
    /// full register outside bits 0 to 15.
    pub fn set_reg16(&mut self, index: u8, value: u16)
        requires
            valid_reg_index(index as int),
        ensures
            *final(self) == old(self).with_reg(
                index as int,
                (old(self).reg(index as int) & 0xffff_ffff_ffff_0000) | (value as u64),
            ),
    {
        let v = self.get_reg_of_index(index);
        self.set_reg_of_index(index, (v & 0xffff_ffff_ffff_0000) | (value as u64));
    }

    /// Returns the low 8-bit view of the register with the given index
    /// (al, cl, ..., r15b): bits 0 to 7 of the full register.
    pub fn get_reg8(&self, index: u8) -> (r: u8)
        requires
            valid_reg_index(index as int),
        ensures
            r == self.reg(index as int) & 0xff,
    {
        let v = self.get_reg_of_index(index);
        proof {
            assert(v as u8 == v & 0xff) by (bit_vector);
        }
        v as u8
    }

    /// Sets the low 8-bit view of the register with the given index. Following
    /// the x86-64 architecture, an 8-bit write preserves every bit of the full
    /// register outside bits 0 to 7.
    pub fn set_reg8(&mut self, index: u8, value: u8)
        requires
            valid_reg_index(index as int),
        ensures
            *final(self) == old(self).with_reg(
                index as int,
                (old(self).reg(index as int) & 0xffff_ffff_ffff_ff00) | (value as u64),
            ),
    {
        let v = self.get_reg_of_index(index);
        self.set_reg_of_index(index, (v & 0xffff_ffff_ffff_ff00) | (value as u64));
    }

    /// Returns the high-byte view of one of the first four registers
    /// (ah, ch, dh, bh): bits 8 to 15 of the full register.
    pub fn get_reg8_high(&self, index: u8) -> (r: u8)
        requires
            0 <= index <= 3,
        ensures
            r == (self.reg(index as int) >> 8) & 0xff,
    {
        let v = self.get_reg_of_index(index);
        proof {
            assert((v >> 8) as u8 == (v >> 8) & 0xff) by (bit_vector);
        }
        (v >> 8) as u8
    }

    /// Sets the high-byte view of one of the first four registers (ah, ch,
    /// dh, bh): bits 8 to 15 of the full register; every bit outside that
    /// range, the low byte included, is preserved.
    pub fn set_reg8_high(&mut self, index: u8, value: u8)
        requires
            0 <= index <= 3,
        ensures
            *final(self) == old(self).with_reg(
                index as int,
                (old(self).reg(index as int) & 0xffff_ffff_ffff_00ff) | ((value as u64) << 8),
            ),
    {
        let v = self.get_reg_of_index(index);
        self.set_reg_of_index(index, (v & 0xffff_ffff_ffff_00ff) | ((value as u64) << 8));
    }

    /// Returns the value of the `edx:eax` register pair: the 32-bit view of
    /// rdx in the upper half, the 32-bit view of rax in the lower half.
    pub fn get_edx_eax(&self) -> (r: u64)
        ensures
            r == ((self.rdx & 0xffff_ffff) << 32) | (self.rax & 0xffff_ffff),
    {
        ((self.rdx & 0xffff_ffff) << 32) | (self.rax & 0xffff_ffff)
    }
}

/// The name of the register with architectural index `i`, in the register
/// opcode encoding order; index 4 names the stack pointer.
pub open spec fn spec_register_name(i: int) -> Seq<char> {
    if i == 0 {
        "rax"@
    } else if i == 1 {
        "rcx"@
    } else if i == 2 {
        "rdx"@
    } else if i == 3 {
        "rbx"@
    } else if i == 4 {
        "rsp"@
    } else if i == 5 {
        "rbp"@
    } else if i == 6 {
        "rsi"@
    } else if i == 7 {
        "rdi"@
    } else if i == 8 {
        "r8"@
    } else if i == 9 {
        "r9"@
    } else if i == 10 {
        "r10"@
    } else if i == 11 {
        "r11"@
    } else if i == 12 {
        "r12"@
    } else if i == 13 {
        "r13"@
    } else if i == 14 {
        "r14"@
    } else if i == 15 {
        "r15"@
    } else {
        Seq::empty()
    }
}

impl GeneralRegisters {
    /// Returns the name of the register corresponding to the given index,
    /// following the register opcode encoding order.
    pub fn register_name(index: u8) -> (r: &'static str)
        requires
            index <= 15,
        ensures
            r@ == spec_register_name(index as int),
    {
        match index {
            0 => "rax",
            1 => "rcx",
            2 => "rdx",
            3 => "rbx",
            4 => "rsp",
            5 => "rbp",
            6 => "rsi",
            7 => "rdi",
            8 => "r8",
            9 => "r9",
            10 => "r10",
            11 => "r11",
            12 => "r12",
            13 => "r13",
            14 => "r14",
            15 => "r15",
            _ => vstd::pervasive::unreached(),
        }
    }
}

impl GeneralRegisters {
    /// The register file with every slot zero.
    pub open spec fn spec_zeroed() -> GeneralRegisters {
        GeneralRegisters {
            rax: 0,
            rcx: 0,
            rdx: 0,
            rbx: 0,
            _unused_rsp: 0,
            rbp: 0,
            rsi: 0,
            rdi: 0,
            r8: 0,
            r9: 0,
            r10: 0,
            r11: 0,
            r12: 0,
            r13: 0,
            r14: 0,
            r15: 0,
        }
    }
}

impl Default for GeneralRegisters {
    /// The register file with every slot zero.
    fn default() -> (r: Self)
        ensures
            r == GeneralRegisters::spec_zeroed(),
            forall|i: int| valid_reg_index(i) ==> r.reg(i) == 0,
    {
        GeneralRegisters {
            rax: 0,
            rcx: 0,
            rdx: 0,
            rbx: 0,
            _unused_rsp: 0,
            rbp: 0,
            rsi: 0,
            rdi: 0,
            r8: 0,
            r9: 0,
            r10: 0,
            r11: 0,
            r12: 0,
            r13: 0,
            r14: 0,
            r15: 0,
        }
    }
}

/// True when the two register files agree on every tracked register; the
/// reserved stack-pointer slot, index 4, is never compared.
pub open spec fn tracked_regs_equal(a: GeneralRegisters, b: GeneralRegisters) -> bool {
    forall|i: int| valid_reg_index(i) ==> #[trigger] a.reg(i) == b.reg(i)
}

/// Agreement on every tracked register is exactly agreement on the fifteen
/// tracked fields; the reserved stack-pointer slot plays no part in it.
pub proof fn lemma_tracked_regs_equal_fields(a: GeneralRegisters, b: GeneralRegisters)
    ensures
        tracked_regs_equal(a, b) <==> (a.rax == b.rax && a.rcx == b.rcx && a.rdx == b.rdx
            && a.rbx == b.rbx && a.rbp == b.rbp && a.rsi == b.rsi && a.rdi == b.rdi && a.r8 == b.r8
            && a.r9 == b.r9 && a.r10 == b.r10 && a.r11 == b.r11 && a.r12 == b.r12 && a.r13 == b.r13
            && a.r14 == b.r14 && a.r15 == b.r15),
{
    if tracked_regs_equal(a, b) {
        assert(a.reg(0) == b.reg(0));
        assert(a.reg(1) == b.reg(1));
        assert(a.reg(2) == b.reg(2));
        assert(a.reg(3) == b.reg(3));
        assert(a.reg(5) == b.reg(5));
        assert(a.reg(6) == b.reg(6));
        assert(a.reg(7) == b.reg(7));
        assert(a.reg(8) == b.reg(8));
        assert(a.reg(9) == b.reg(9));
        assert(a.reg(10) == b.reg(10));
        assert(a.reg(11) == b.reg(11));
        assert(a.reg(12) == b.reg(12));
        assert(a.reg(13) == b.reg(13));
        assert(a.reg(14) == b.reg(14));
        assert(a.reg(15) == b.reg(15));
    }
}

/// Index 4, the stack-pointer slot, and every index outside 0 to 15 address
/// no tracked register: the indexed accessors exclude them by precondition,
/// and the total variants reject them, returning `None` and writing nothing,
/// as their contracts state.
pub proof fn lemma_reserved_indices_rejected(i: int)
    ensures
        !valid_reg_index(4),
        i < 0 || i > 15 ==> !valid_reg_index(i),
{
}

/// Writing one register slot and reading it back returns the written value,
/// and every other tracked slot keeps its prior value; the reserved
/// stack-pointer slot is untouched as well.
pub proof fn lemma_with_reg_round_trip(regs: GeneralRegisters, i: int, v: u64)
    requires
        valid_reg_index(i),
    ensures
        regs.with_reg(i, v).reg(i) == v,
        forall|j: int| valid_reg_index(j) && j != i ==> regs.with_reg(i, v).reg(j) == regs.reg(j),
        regs.with_reg(i, v)._unused_rsp == regs._unused_rsp,
{
}

/// A 32-bit write zero-extends: after setting the 32-bit view of a register
/// to `v`, the full 64-bit register holds exactly `v`, the upper 32 bits of
/// the prior value erased.
pub proof fn lemma_set_reg32_zero_extends(regs: GeneralRegisters, i: int, v: u32)
    requires
        valid_reg_index(i),
    ensures
        regs.with_reg(i, v as u64).reg(i) == v as u64,
        regs.with_reg(i, v as u64).reg(i) >> 32 == 0,
{
    assert((v as u64) >> 32 == 0) by (bit_vector);
}

/// A 16-bit write is confined to bits 0 to 15: afterwards those bits hold
/// exactly the written value and bits 16 to 63 of the full register are
/// unchanged.
pub proof fn lemma_set_reg16_confined(regs: GeneralRegisters, i: int, v: u16)
    requires
        valid_reg_index(i),
    ensures
        ({
            let updated = regs.with_reg(i, (regs.reg(i) & 0xffff_ffff_ffff_0000) | (v as u64));
            updated.reg(i) & 0xffff == v as u64 && updated.reg(i) >> 16 == regs.reg(i) >> 16
        }),
{
    let x = regs.reg(i);
    assert(((x & 0xffff_ffff_ffff_0000) | (v as u64)) & 0xffff == v as u64) by (bit_vector);
    assert(((x & 0xffff_ffff_ffff_0000) | (v as u64)) >> 16 == x >> 16) by (bit_vector);
}

/// A low-byte write is confined to bits 0 to 7: afterwards those bits hold
/// exactly the written value and bits 8 to 63 of the full register are
/// unchanged.
pub proof fn lemma_set_reg8_confined(regs: GeneralRegisters, i: int, v: u8)
    requires
        valid_reg_index(i),
    ensures
        ({
            let updated = regs.with_reg(i, (regs.reg(i) & 0xffff_ffff_ffff_ff00) | (v as u64));
            updated.reg(i) & 0xff == v as u64 && updated.reg(i) >> 8 == regs.reg(i) >> 8
        }),
{
    let x = regs.reg(i);
    assert(((x & 0xffff_ffff_ffff_ff00) | (v as u64)) & 0xff == v as u64) by (bit_vector);
    assert(((x & 0xffff_ffff_ffff_ff00) | (v as u64)) >> 8 == x >> 8) by (bit_vector);
}

/// A high-byte write is confined to bits 8 to 15: afterwards those bits hold
/// exactly the written value, while the low byte and bits 16 to 63 of the
/// full register are unchanged. The high-byte and low-byte views are thus
/// independent of each other.
pub proof fn lemma_set_reg8_high_confined(regs: GeneralRegisters, i: int, v: u8)
    requires
        0 <= i <= 3,
    ensures
        ({
            let updated = regs.with_reg(i, (regs.reg(i) & 0xffff_ffff_ffff_00ff) | ((v as u64) << 8));
            &&& (updated.reg(i) >> 8) & 0xff == v as u64
            &&& updated.reg(i) & 0xff == regs.reg(i) & 0xff
            &&& updated.reg(i) >> 16 == regs.reg(i) >> 16
        }),
{
    let x = regs.reg(i);
    assert((((x & 0xffff_ffff_ffff_00ff) | ((v as u64) << 8)) >> 8) & 0xff == v as u64)
        by (bit_vector);
    assert(((x & 0xffff_ffff_ffff_00ff) | ((v as u64) << 8)) & 0xff == x & 0xff) by (bit_vector);
    assert(((x & 0xffff_ffff_ffff_00ff) | ((v as u64) << 8)) >> 16 == x >> 16) by (bit_vector);
}

} // verus!
