use m68k::execute::decode_boundary_hook_op;
use m68k::op_cache::{DecodedSimpleOp, UnaryOp};
use m68k::types::{CpuType, Size};

#[test]
fn boundary_hook_clr_admission_is_exact() {
    for cpu_type in [
        CpuType::M68000,
        CpuType::M68010,
        CpuType::M68020,
        CpuType::M68030,
        CpuType::M68040,
    ] {
        for opcode in 0x4240..=0x4247 {
            assert!(matches!(
                decode_boundary_hook_op(cpu_type, opcode),
                Some(DecodedSimpleOp::UnaryDataReg {
                    op: UnaryOp::Clr,
                    size: Size::Word,
                    ..
                })
            ));
        }
        for opcode in 0x4280..=0x4287 {
            assert!(matches!(
                decode_boundary_hook_op(cpu_type, opcode),
                Some(DecodedSimpleOp::UnaryDataReg {
                    op: UnaryOp::Clr,
                    size: Size::Long,
                    ..
                })
            ));
        }
        for opcode in [0x4200, 0x4248, 0x4250, 0x42C0] {
            assert!(decode_boundary_hook_op(cpu_type, opcode).is_none());
        }
    }
}
