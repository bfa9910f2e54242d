//! Laws of the status register, the stack-pointer banks and the control
//! registers.

use vstd::prelude::*;
use crate::cpu::{CpuCore, MFLAG_SET, SFLAG_SET};
use crate::types::CpuType;

verus! {

/// Bits of SR that any model of the family implements.
pub const SR_IMPLEMENTED: u16 = 0xF71F;

/// Bits of CCR that exist.
pub const CCR_IMPLEMENTED: u8 = 0x1F;

/// What SR reads back after `value` is written: the bits that the model has,
/// with M cleared where S is clear.
pub open spec fn stored_sr(sr_mask: u32, value: u16) -> u16 {
    let kept = value & (sr_mask as u16) & SR_IMPLEMENTED;
    if kept & 0x2000 == 0 {
        kept & !0x1000
    } else {
        kept
    }
}

proof fn lemma_ccr_bits(
    system: u32,
    x: u32,
    n: u32,
    z: u32,
    v: u32,
    c: u32,
    ccr: u8,
)
    by (bit_vector)
    requires
        system & 0xFF == 0,
        x == (if ccr & 0x10 != 0 { 0x100u32 } else { 0 }),
        n == (if ccr & 0x08 != 0 { 0x80u32 } else { 0 }),
        z == (if ccr & 0x04 != 0 { 0u32 } else { 1 }),
        v == (if ccr & 0x02 != 0 { 0x80u32 } else { 0 }),
        c == (if ccr & 0x01 != 0 { 0x100u32 } else { 0 }),
    ensures
        ((system | (((x & 0x100) >> 4) | ((n & 0x80) >> 4) | (if z == 0 { 4u32 } else { 0 }) | ((v
            & 0x80) >> 6) | ((c & 0x100) >> 8))) as u16) & 0xFF == (ccr & 0x1F) as u16,
        ((system | (((x & 0x100) >> 4) | ((n & 0x80) >> 4) | (if z == 0 { 4u32 } else { 0 }) | ((v
            & 0x80) >> 6) | ((c & 0x100) >> 8))) as u16) == (system as u16) | (ccr & 0x1F) as u16,
{
}

proof fn lemma_system_bits(t1: u32, t0: u32, s: u32, m: u32, mask: u32)
    by (bit_vector)
    ensures
        ((t1 & 0x8000) | (t0 & 0x4000) | ((s & 4) << 11) | ((m & 2) << 11) | (mask & 0x0700)) & 0xFF == 0,
{
}

/// CCR reads back what was written to it, in the five bits it has.
pub proof fn law_ccr_round_trip(cpu: CpuCore, ccr: u8)
    ensures
        cpu.spec_set_ccr(ccr).get_ccr() == ccr & CCR_IMPLEMENTED,
{
    reveal(CpuCore::spec_set_ccr);
    let c = cpu.spec_set_ccr(ccr);
    lemma_system_bits(c.sys.t1_flag, c.sys.t0_flag, c.sys.s_flag, c.sys.m_flag, c.sys.int_mask);
    lemma_ccr_bits(
        (c.sys.t1_flag & 0x8000) | (c.sys.t0_flag & 0x4000) | ((c.sys.s_flag & SFLAG_SET) << 11) | ((
        c.sys.m_flag & MFLAG_SET) << 11) | (c.sys.int_mask & 0x0700),
        c.ccr.x_flag,
        c.ccr.n_flag,
        c.ccr.not_z_flag,
        c.ccr.v_flag,
        c.ccr.c_flag,
        ccr,
    );
}

/// Writing CCR changes nothing but the condition codes.
pub proof fn law_ccr_write_keeps_the_rest(cpu: CpuCore, ccr: u8)
    ensures
        cpu.spec_set_ccr(ccr) == (CpuCore { ccr: cpu.spec_set_ccr(ccr).ccr, ..cpu }),
        cpu.spec_set_ccr(ccr).flag_x() == (ccr & 0x10 != 0),
        cpu.spec_set_ccr(ccr).flag_n() == (ccr & 0x08 != 0),
        cpu.spec_set_ccr(ccr).flag_z() == (ccr & 0x04 != 0),
        cpu.spec_set_ccr(ccr).flag_v() == (ccr & 0x02 != 0),
        cpu.spec_set_ccr(ccr).flag_c() == (ccr & 0x01 != 0),
{
    reveal(CpuCore::spec_set_ccr);
}

proof fn lemma_sr_compose(sr: u16, s: u32, m: u32, low: u16, got: u16)
    by (bit_vector)
    requires
        s == ((sr >> 11) & 6) as u32 & 4,
        m == (if ((sr >> 11) & 6) as u32 & 4 == 0 {
            ((sr >> 11) & 6) as u32 & !2 & 2
        } else {
            ((sr >> 11) & 6) as u32 & 2
        }),
        low == ((sr as u8) & 0x1F) as u16,
        got == (((((sr as u32) & 0x8000) & 0x8000) | (((sr as u32) & 0x4000) & 0x4000) | ((s & 4) << 11)
            | ((m & 2) << 11) | (((sr as u32) & 0x0700) & 0x0700)) as u16) | low,
    ensures
        got == (if sr & 0xF71F & 0x2000 == 0 {
            sr & 0xF71F & !0x1000u16
        } else {
            sr & 0xF71F
        }),
{
}

proof fn lemma_sm_bits(sm: u32)
    ensures
        (sm & !2) & 4 == sm & 4,
{
    lemma_mask_twice(sm, 0);
}

/// SR reads back what was written to it, in the bits the model has; M cannot
/// be set without S.
pub proof fn law_sr_round_trip(cpu: CpuCore, value: u16)
    ensures
        cpu.spec_set_sr(value).get_sr() == stored_sr(cpu.model.sr_mask, value),
        cpu.spec_set_sr_noint_nosp(value).get_sr() == stored_sr(cpu.model.sr_mask, value),
{
    reveal(CpuCore::spec_set_sr);
    reveal(CpuCore::spec_set_sr_noint_nosp);
    reveal(CpuCore::spec_set_ccr);
    reveal(CpuCore::spec_set_sm_flag);
    reveal(CpuCore::spec_set_sm_flag_nosp);
    reveal(CpuCore::spec_backup_sp);
    reveal(CpuCore::spec_restore_sp);
    let sr = value & (cpu.model.sr_mask as u16);
    let c = cpu.spec_set_sr(value);
    let d = cpu.spec_set_sr_noint_nosp(value);
    let system = (c.sys.t1_flag & 0x8000) | (c.sys.t0_flag & 0x4000) | ((c.sys.s_flag & SFLAG_SET)
        << 11) | ((c.sys.m_flag & MFLAG_SET) << 11) | (c.sys.int_mask & 0x0700);
    assert(d.sys == c.sys && d.ccr == c.ccr);
    lemma_sm_bits(((sr >> 11) & 6) as u32);
    lemma_system_bits(c.sys.t1_flag, c.sys.t0_flag, c.sys.s_flag, c.sys.m_flag, c.sys.int_mask);
    lemma_ccr_bits(
        system,
        c.ccr.x_flag,
        c.ccr.n_flag,
        c.ccr.not_z_flag,
        c.ccr.v_flag,
        c.ccr.c_flag,
        sr as u8,
    );
    lemma_sr_compose(sr, c.sys.s_flag, c.sys.m_flag, ((sr as u8) & 0x1F) as u16, c.get_sr());
}

/// Conditions are four bits, and their pairs differ in the lowest.
pub proof fn lemma_condition_pair(cond: u8)
    by (bit_vector)
    ensures
        cond & 0x0F < 16,
        cond < 16 ==> cond & 0x0F == cond,
        (cond ^ 1) & 0x0F == (if (cond & 0x0F) % 2 == 0 {
            (cond & 0x0F) + 1
        } else {
            (cond & 0x0F) - 1
        }),
{
}

/// The sixteen conditions come in complementary pairs. Only the low four bits
/// of a condition count.
pub proof fn law_conditions_come_in_pairs(cpu: CpuCore, cond: u8)
    ensures
        cpu.test_condition(cond ^ 1) == !cpu.test_condition(cond),
{
    lemma_condition_pair(cond);
}

/// A stopped processor is either stopped by STOP or halted by a double fault,
/// never both, and a running one is neither.
pub proof fn law_stopped_or_halted(cpu: CpuCore)
    ensures
        !(cpu.is_stopped() && cpu.is_halted()),
        (cpu.is_stopped() || cpu.is_halted()) == (cpu.run.stopped != 0),
{
}

proof fn lemma_stop_bits(stopped: u32)
    ensures
        stopped | 1 != 0,
        stopped | 2 != 0,
{
    lemma_mask_twice(stopped, 0);
}

/// STOP loads its operand into SR and stops the processor until an interrupt;
/// HALT stops it too. Neither moves the program counter.
pub proof fn law_stop_loads_sr(cpu: CpuCore, sr: u16)
    ensures
        cpu.spec_stop(sr).run.stopped != 0,
        cpu.spec_halt().run.stopped != 0,
        cpu.spec_stop(sr).get_sr() == stored_sr(cpu.model.sr_mask, sr),
        cpu.spec_stop(sr).pc == cpu.pc,
        cpu.spec_halt().pc == cpu.pc,
        cpu.spec_stop(sr).run.run_mode == cpu.run.run_mode,
{
    reveal(CpuCore::spec_stop);
    reveal(CpuCore::spec_halt);
    reveal(CpuCore::spec_clear_execution_pipeline_state);
    reveal(CpuCore::spec_set_sr);
    reveal(CpuCore::spec_set_ccr);
    reveal(CpuCore::spec_set_sm_flag);
    reveal(CpuCore::spec_backup_sp);
    reveal(CpuCore::spec_restore_sp);
    let c = cpu.spec_clear_execution_pipeline_state();
    lemma_stop_bits(c.run.stopped);
    lemma_stop_bits(c.spec_set_sr(sr).run.stopped);
    law_sr_round_trip(c, sr);
}

/// The state of the supervisor and master bits selects one of three banks.
pub open spec fn bank(cpu: CpuCore) -> int {
    cpu.sp_index() as int
}

/// S and M hold nothing but their own bits.
pub open spec fn clean_sm(cpu: CpuCore) -> bool {
    (cpu.sys.s_flag == 0 || cpu.sys.s_flag == SFLAG_SET) && (cpu.sys.m_flag == 0 || cpu.sys.m_flag
        == MFLAG_SET)
}

pub proof fn lemma_banks(s: u32, m: u32, value: u32)
    by (bit_vector)
    requires
        s == 0 || s == 4,
        m == 0 || m == 2,
    ensures
        s & 7 == s,
        (s | ((s >> 1) & m)) & 7 == (if s == 0 { 0u32 } else { 4 | m }),
        value & 4 == 0 || value & 4 == 4,
        value & 2 == 0 || value & 2 == 2,
        (s | m) & 4 == s,
        (s | m) & 2 == m,
        4u32 | 0 == 4,
        4u32 | 2 == 6,
{
}

/// Changing S and M and changing them back gives the stack pointer back, with
/// the banks of both states in place.
pub proof fn law_bank_switch_restores_stack_pointer(cpu: CpuCore, value: u32)
    requires
        clean_sm(cpu),
    ensures
        ({
            let away = cpu.spec_set_sm_flag(value);
            let back = away.spec_set_sm_flag(cpu.sys.s_flag | cpu.sys.m_flag);
            &&& away.sp[bank(cpu)] == cpu.dar[15]
            &&& back.dar[15] == cpu.dar[15]
            &&& back.sys == cpu.sys
            &&& back.sp[bank(away)] == away.dar[15]
            &&& forall|i: int| 0 <= i < 15 ==> back.dar[i] == cpu.dar[i]
        }),
{
    reveal(CpuCore::spec_set_sm_flag);
    reveal(CpuCore::spec_backup_sp);
    reveal(CpuCore::spec_restore_sp);
    lemma_banks(cpu.sys.s_flag, cpu.sys.m_flag, value);
    lemma_banks(value & 4, value & 2, value);
    let away = cpu.spec_set_sm_flag(value);
    let back = away.spec_set_sm_flag(cpu.sys.s_flag | cpu.sys.m_flag);
    assert(back.sys.s_flag == cpu.sys.s_flag);
    assert(back.sys.m_flag == cpu.sys.m_flag);
}

/// The user stack pointer reads back what was written, whether it is banked
/// or is A7 itself; in supervisor state A7 does not change.
pub proof fn law_user_stack_pointer(cpu: CpuCore, value: u32)
    ensures
        cpu.spec_set_usp(value).get_usp() == value,
        cpu.sys.s_flag != 0 ==> cpu.spec_set_usp(value).dar == cpu.dar,
        cpu.sys.s_flag == 0 ==> cpu.spec_set_usp(value).sp == cpu.sp,
{
    reveal(CpuCore::spec_set_usp);
}

/// Values that a control register can hold on its model.
pub open spec fn stored_control(cpu: CpuCore, reg: u16, value: u32) -> u32 {
    if reg == 0x000 || reg == 0x001 {
        value & 7
    } else if reg == 0x002 {
        value & crate::cpu::cacr_masks(cpu.model.cpu_type).0
    } else if reg == 0x003 && cpu.is_040() {
        value & 0xC000
    } else if reg == 0x003 && cpu.is_060() {
        value & 0xFFFE
    } else if 0x004 <= reg <= 0x007 {
        value & 0xFFFF_E364
    } else if reg == 0x008 && cpu.is_060() {
        (cpu.control.buscr & 0x5000_0000) | (value & 0xA000_0000)
    } else if reg == 0x808 {
        if cpu.is_060() {
            (cpu.control.pcr & !0x83u32) | (value & 0x83)
        } else {
            0
        }
    } else {
        value
    }
}

/// Control registers that exist on some model.
pub open spec fn control_exists(reg: u16) -> bool {
    reg <= 0x00B || (0x800 <= reg && reg <= 0x808)
}

proof fn lemma_pcr_bits()
    ensures
        0x80u32 | 0x02 | 0x01 == 0x83,
{
    lemma_mask_twice(0, 0);
}

/// A control register reads back what was written, in the bits it has. A
/// register that no model has reads zero and takes nothing.
pub proof fn law_control_round_trip(cpu: CpuCore, reg: u16, value: u32)
    ensures
        control_exists(reg) ==> cpu.spec_write_control_register(reg, value).read_control_register(reg)
            == stored_control(cpu, reg, value),
        !control_exists(reg) ==> cpu.spec_write_control_register(reg, value) == cpu
            && cpu.read_control_register(reg) == 0,
{
    reveal(CpuCore::spec_write_control_register);
    reveal(CpuCore::spec_store_control_register);
    reveal(CpuCore::spec_write_cacr);
    reveal(CpuCore::spec_write_tc);
    reveal(CpuCore::spec_flush_atc);
    reveal(CpuCore::spec_clear_branch_cache);
    reveal(CpuCore::spec_clear_user_branch_cache);
    reveal(CpuCore::spec_set_usp);
    reveal(CpuCore::spec_set_msp);
    reveal(CpuCore::spec_set_isp);
    lemma_pcr_bits();
}

proof fn lemma_strobes(value: u32, pending: u32)
    by (bit_vector)
    ensures
        (value & 0x0003) & 0x000C == 0,
        (value & 0x3313) & 0x0C0C == 0,
        (value & 0x8000_8000) & 0 == 0,
        (value & 0xF880_E000) & 0x0060_0000 == 0,
        (value & 0xF880_E000) & 0 == 0,
        (pending | (value & 0x000C)) & pending == pending,
        (pending | (value & 0x0C0C)) & pending == pending,
{
}

/// The cache-clear bits of CACR are strobes: they read back as zero, and the
/// ones that the host acts on are latched until it takes them.
pub proof fn law_cache_strobes_read_zero(cpu: CpuCore, value: u32)
    ensures
        ({
            let strobes = crate::cpu::cacr_masks(cpu.model.cpu_type).1;
            let after = cpu.spec_write_control_register(0x002, value);
            &&& after.read_control_register(0x002) & strobes == 0
            &&& after.control.cacr_pending_ops == cpu.control.cacr_pending_ops | (value & strobes)
            &&& cpu.model.cpu_type == CpuType::M68060 ==> after.read_control_register(0x002)
                & 0x0060_0000 == 0
        }),
{
    reveal(CpuCore::spec_write_control_register);
    reveal(CpuCore::spec_store_control_register);
    reveal(CpuCore::spec_write_cacr);
    reveal(CpuCore::spec_clear_branch_cache);
    reveal(CpuCore::spec_clear_user_branch_cache);
    lemma_strobes(value, cpu.control.cacr_pending_ops);
}

proof fn lemma_mask_twice(a: u32, mask: u32)
    by (bit_vector)
    ensures
        (a & mask) & mask == a & mask,
        a | 1 != 0,
        a | 2 != 0,
        (a & !2) & 4 == a & 4,
        0x80u32 | 0x02 | 0x01 == 0x83,
        a & mask <= mask,
        a & 0xFFFF_FFFF == a,
{
}

/// Addresses are reduced to the width of the model, once and for all.
pub proof fn law_address_width(cpu: CpuCore, cpu_type: CpuType, addr: u32)
    requires
        cpu_type != CpuType::Invalid,
    ensures
        ({
            let c = cpu.spec_set_cpu_type(cpu_type);
            &&& c.address(c.address(addr)) == c.address(addr)
            &&& c.address(addr) <= crate::cpu::model_address_mask(cpu_type)
        }),
{
    reveal(CpuCore::spec_set_cpu_type);
    lemma_mask_twice(addr, cpu.spec_set_cpu_type(cpu_type).model.address_mask);
}

} // verus!
