use wasm_fault::decode::{
    freebsd_aarch64, freebsd_x86_64, linux_aarch64, linux_x86_64, macos_x86_64, read_xmm,
    set_register, XmmRegister,
};
use wasm_fault::fault_info::FaultInfo;
use wasm_fault::registers::{gpr_number, xmm_number, RegisterIndex, X64Register, GPR, XMM};

const ALL_GPRS: [GPR; 16] = [
    GPR::RAX,
    GPR::RCX,
    GPR::RDX,
    GPR::RBX,
    GPR::RSP,
    GPR::RBP,
    GPR::RSI,
    GPR::RDI,
    GPR::R8,
    GPR::R9,
    GPR::R10,
    GPR::R11,
    GPR::R12,
    GPR::R13,
    GPR::R14,
    GPR::R15,
];

const ALL_XMMS: [XMM; 16] = [
    XMM::XMM0,
    XMM::XMM1,
    XMM::XMM2,
    XMM::XMM3,
    XMM::XMM4,
    XMM::XMM5,
    XMM::XMM6,
    XMM::XMM7,
    XMM::XMM8,
    XMM::XMM9,
    XMM::XMM10,
    XMM::XMM11,
    XMM::XMM12,
    XMM::XMM13,
    XMM::XMM14,
    XMM::XMM15,
];

fn gpr(info: &FaultInfo, r: GPR) -> Option<u64> {
    info.get_register(X64Register::GPR(r))
}

fn xmm(info: &FaultInfo, r: XMM) -> Option<u64> {
    info.get_register(X64Register::XMM(r))
}

fn sample_xmm() -> [XmmRegister; 16] {
    let mut regs = [XmmRegister { element: [0; 4] }; 16];
    for (i, reg) in regs.iter_mut().enumerate() {
        let i = i as u32;
        reg.element = [0x1000 + i, 0x2000 + i, 0x3000 + i, 0x4000 + i];
    }
    regs
}

#[test]
fn registers_are_numbered_in_encoding_order() {
    for (n, r) in ALL_GPRS.iter().enumerate() {
        assert_eq!(gpr_number(*r), n);
        assert_eq!(X64Register::GPR(*r).to_index(), RegisterIndex(n));
    }
    for (n, r) in ALL_XMMS.iter().enumerate() {
        assert_eq!(xmm_number(*r), n);
        assert_eq!(X64Register::XMM(*r).to_index(), RegisterIndex(16 + n));
    }
    assert_eq!(X64Register::GPR(GPR::RSP).to_index().0, 4);
    assert_eq!(X64Register::XMM(XMM::XMM15).to_index().0, 31);
}

#[test]
fn read_xmm_joins_the_two_low_elements() {
    let reg = XmmRegister { element: [0x89ab_cdef, 0x0123_4567, 0xffff_ffff, 0xeeee_eeee] };
    assert_eq!(read_xmm(&reg), 0x0123_4567_89ab_cdef);
    let reg = XmmRegister { element: [0, 1, 0, 0] };
    assert_eq!(read_xmm(&reg), 0x1_0000_0000);
    let reg = XmmRegister { element: [u32::MAX, u32::MAX, 0, 0] };
    assert_eq!(read_xmm(&reg), u64::MAX);
}

#[test]
fn set_register_fills_one_slot() {
    let mut regs: [Option<u64>; 32] = [None; 32];
    set_register(&mut regs, X64Register::GPR(GPR::RBP), 77);
    set_register(&mut regs, X64Register::XMM(XMM::XMM3), 99);
    for (i, slot) in regs.iter().enumerate() {
        match i {
            5 => assert_eq!(*slot, Some(77)),
            19 => assert_eq!(*slot, Some(99)),
            _ => assert_eq!(*slot, None),
        }
    }
}

#[test]
fn linux_x86_64_offsets_match_the_c_library() {
    assert_eq!(linux_x86_64::REG_R8, libc::REG_R8 as usize);
    assert_eq!(linux_x86_64::REG_R9, libc::REG_R9 as usize);
    assert_eq!(linux_x86_64::REG_R10, libc::REG_R10 as usize);
    assert_eq!(linux_x86_64::REG_R11, libc::REG_R11 as usize);
    assert_eq!(linux_x86_64::REG_R12, libc::REG_R12 as usize);
    assert_eq!(linux_x86_64::REG_R13, libc::REG_R13 as usize);
    assert_eq!(linux_x86_64::REG_R14, libc::REG_R14 as usize);
    assert_eq!(linux_x86_64::REG_R15, libc::REG_R15 as usize);
    assert_eq!(linux_x86_64::REG_RDI, libc::REG_RDI as usize);
    assert_eq!(linux_x86_64::REG_RSI, libc::REG_RSI as usize);
    assert_eq!(linux_x86_64::REG_RBP, libc::REG_RBP as usize);
    assert_eq!(linux_x86_64::REG_RBX, libc::REG_RBX as usize);
    assert_eq!(linux_x86_64::REG_RDX, libc::REG_RDX as usize);
    assert_eq!(linux_x86_64::REG_RAX, libc::REG_RAX as usize);
    assert_eq!(linux_x86_64::REG_RCX, libc::REG_RCX as usize);
    assert_eq!(linux_x86_64::REG_RSP, libc::REG_RSP as usize);
    assert_eq!(linux_x86_64::REG_RIP, libc::REG_RIP as usize);
    assert_eq!(linux_x86_64::NGREG, 23);
}

fn linux_x86_64_context() -> linux_x86_64::UContext {
    let mut gregs = [0i64; 23];
    for (i, greg) in gregs.iter_mut().enumerate() {
        *greg = 0x100 + i as i64;
    }
    linux_x86_64::UContext { gregs, fpregs: Some(sample_xmm()) }
}

#[test]
fn linux_x86_64_decodes_every_register() {
    let siginfo = linux_x86_64::SigInfo { si_addr: 0xdead_b000 };
    let ucontext = linux_x86_64_context();
    let info = linux_x86_64::get_fault_info(&siginfo, &ucontext);
    assert_eq!(info.faulting_addr, 0xdead_b000);
    assert_eq!(info.ip, 0x110);
    assert_eq!(gpr(&info, GPR::RAX), Some(0x10d));
    assert_eq!(gpr(&info, GPR::RCX), Some(0x10e));
    assert_eq!(gpr(&info, GPR::RDX), Some(0x10c));
    assert_eq!(gpr(&info, GPR::RBX), Some(0x10b));
    assert_eq!(gpr(&info, GPR::RSP), Some(0x10f));
    assert_eq!(gpr(&info, GPR::RBP), Some(0x10a));
    assert_eq!(gpr(&info, GPR::RSI), Some(0x109));
    assert_eq!(gpr(&info, GPR::RDI), Some(0x108));
    assert_eq!(gpr(&info, GPR::R8), Some(0x100));
    assert_eq!(gpr(&info, GPR::R9), Some(0x101));
    assert_eq!(gpr(&info, GPR::R10), Some(0x102));
    assert_eq!(gpr(&info, GPR::R11), Some(0x103));
    assert_eq!(gpr(&info, GPR::R12), Some(0x104));
    assert_eq!(gpr(&info, GPR::R13), Some(0x105));
    assert_eq!(gpr(&info, GPR::R14), Some(0x106));
    assert_eq!(gpr(&info, GPR::R15), Some(0x107));
    for (i, r) in ALL_XMMS.iter().enumerate() {
        let i = i as u64;
        assert_eq!(xmm(&info, *r), Some(((0x2000 + i) << 32) | (0x1000 + i)));
    }
}

#[test]
fn linux_x86_64_keeps_the_bits_of_negative_registers() {
    let siginfo = linux_x86_64::SigInfo { si_addr: 0 };
    let mut ucontext = linux_x86_64_context();
    ucontext.gregs[linux_x86_64::REG_RAX] = -1;
    ucontext.gregs[linux_x86_64::REG_RSP] = i64::MIN;
    let info = linux_x86_64::get_fault_info(&siginfo, &ucontext);
    assert_eq!(gpr(&info, GPR::RAX), Some(u64::MAX));
    assert_eq!(gpr(&info, GPR::RSP), Some(0x8000_0000_0000_0000));
}

#[test]
fn linux_x86_64_skips_missing_floating_point_state() {
    let siginfo = linux_x86_64::SigInfo { si_addr: 8 };
    let mut ucontext = linux_x86_64_context();
    ucontext.fpregs = None;
    let info = linux_x86_64::get_fault_info(&siginfo, &ucontext);
    for r in ALL_GPRS.iter() {
        assert!(gpr(&info, *r).is_some());
    }
    for r in ALL_XMMS.iter() {
        assert_eq!(xmm(&info, *r), None);
    }
}

#[test]
fn linux_x86_64_ip_writes_through() {
    let siginfo = linux_x86_64::SigInfo { si_addr: 8 };
    let mut ucontext = linux_x86_64_context();
    let before = linux_x86_64::get_fault_info(&siginfo, &ucontext);
    linux_x86_64::set_ip(&mut ucontext, 0x7fff_1234_5678);
    assert_eq!(ucontext.gregs[16], 0x7fff_1234_5678);
    let after = linux_x86_64::get_fault_info(&siginfo, &ucontext);
    assert_eq!(after.ip, 0x7fff_1234_5678);
    assert_eq!(after.known_registers, before.known_registers);
    assert_eq!(after.faulting_addr, before.faulting_addr);
}

fn check_aarch64_mapping(info: &FaultInfo, regs: &[u64]) {
    assert_eq!(gpr(info, GPR::RAX), Some(regs[0]));
    assert_eq!(gpr(info, GPR::RCX), Some(regs[1]));
    assert_eq!(gpr(info, GPR::RDX), Some(regs[2]));
    assert_eq!(gpr(info, GPR::RBX), Some(regs[3]));
    assert_eq!(gpr(info, GPR::RSP), Some(regs[28]));
    assert_eq!(gpr(info, GPR::RBP), Some(regs[5]));
    assert_eq!(gpr(info, GPR::RSI), Some(regs[6]));
    assert_eq!(gpr(info, GPR::RDI), Some(regs[7]));
    assert_eq!(gpr(info, GPR::R8), Some(regs[8]));
    assert_eq!(gpr(info, GPR::R9), Some(regs[9]));
    assert_eq!(gpr(info, GPR::R10), Some(regs[10]));
    assert_eq!(gpr(info, GPR::R11), Some(regs[11]));
    assert_eq!(gpr(info, GPR::R12), Some(regs[12]));
    assert_eq!(gpr(info, GPR::R13), Some(regs[13]));
    assert_eq!(gpr(info, GPR::R14), Some(regs[14]));
    assert_eq!(gpr(info, GPR::R15), Some(regs[15]));
    for r in ALL_XMMS.iter() {
        assert_eq!(xmm(info, *r), None);
    }
}

#[test]
fn linux_aarch64_maps_host_registers_to_guest_numbering() {
    let mut regs = [0u64; 31];
    for (i, reg) in regs.iter_mut().enumerate() {
        *reg = 0xa000 + i as u64;
    }
    let siginfo = linux_aarch64::SigInfo { si_addr: 0x4000 };
    let mut ucontext = linux_aarch64::UContext { regs, pc: 0x55_0000 };
    let info = linux_aarch64::get_fault_info(&siginfo, &ucontext);
    assert_eq!(info.faulting_addr, 0x4000);
    assert_eq!(info.ip, 0x55_0000);
    assert_eq!(gpr(&info, GPR::RSP), Some(0xa01c));
    check_aarch64_mapping(&info, &regs);
    linux_aarch64::set_ip(&mut ucontext, 0x55_0008);
    assert_eq!(ucontext.pc, 0x55_0008);
    let after = linux_aarch64::get_fault_info(&siginfo, &ucontext);
    assert_eq!(after.ip, 0x55_0008);
    assert_eq!(after.known_registers, info.known_registers);
}

#[test]
fn freebsd_aarch64_maps_host_registers_to_guest_numbering() {
    let mut gp_x = [0u64; 30];
    for (i, reg) in gp_x.iter_mut().enumerate() {
        *reg = 0xb000 + i as u64;
    }
    let siginfo = freebsd_aarch64::SigInfo { si_addr: 0x9000 };
    let mut ucontext = freebsd_aarch64::UContext { gp_x, gp_elr: 0x66_0000 };
    let info = freebsd_aarch64::get_fault_info(&siginfo, &ucontext);
    assert_eq!(info.faulting_addr, 0x9000);
    assert_eq!(info.ip, 0x66_0000);
    assert_eq!(gpr(&info, GPR::RSP), Some(0xb01c));
    check_aarch64_mapping(&info, &gp_x);
    freebsd_aarch64::set_ip(&mut ucontext, 0x66_0004);
    assert_eq!(ucontext.gp_elr, 0x66_0004);
    let after = freebsd_aarch64::get_fault_info(&siginfo, &ucontext);
    assert_eq!(after.ip, 0x66_0004);
    assert_eq!(after.known_registers, info.known_registers);
}

fn freebsd_x86_64_context(mc_flags: u32) -> freebsd_x86_64::UContext {
    freebsd_x86_64::UContext {
        mc_rdi: 7,
        mc_rsi: 6,
        mc_rdx: 2,
        mc_rcx: 1,
        mc_r8: 8,
        mc_r9: 9,
        mc_rax: 100,
        mc_rbx: 3,
        mc_rbp: 5,
        mc_r10: 10,
        mc_r11: 11,
        mc_r12: 12,
        mc_r13: 13,
        mc_r14: 14,
        mc_r15: 15,
        mc_flags,
        mc_rip: 0x77_0000,
        mc_rsp: 4,
        sv_xmm: sample_xmm(),
    }
}

#[test]
fn freebsd_x86_64_decodes_every_register() {
    let siginfo = freebsd_x86_64::SigInfo { si_addr: 0x1234 };
    let mut ucontext = freebsd_x86_64_context(0);
    let info = freebsd_x86_64::get_fault_info(&siginfo, &ucontext);
    assert_eq!(info.faulting_addr, 0x1234);
    assert_eq!(info.ip, 0x77_0000);
    assert_eq!(gpr(&info, GPR::RAX), Some(100));
    for (n, r) in ALL_GPRS.iter().enumerate().skip(1) {
        assert_eq!(gpr(&info, *r), Some(n as u64));
    }
    for (i, r) in ALL_XMMS.iter().enumerate() {
        let i = i as u64;
        assert_eq!(xmm(&info, *r), Some(((0x2000 + i) << 32) | (0x1000 + i)));
    }
    freebsd_x86_64::set_ip(&mut ucontext, 0x77_0010);
    assert_eq!(ucontext.mc_rip, 0x77_0010);
    let after = freebsd_x86_64::get_fault_info(&siginfo, &ucontext);
    assert_eq!(after.ip, 0x77_0010);
    assert_eq!(after.known_registers, info.known_registers);
}

#[test]
fn freebsd_x86_64_skips_the_save_area_under_extended_state() {
    assert_eq!(freebsd_x86_64::MC_HASFPXSTATE, 4);
    let siginfo = freebsd_x86_64::SigInfo { si_addr: 0x1234 };
    for flags in [4u32, 5, 0xffff_ffff] {
        let info = freebsd_x86_64::get_fault_info(&siginfo, &freebsd_x86_64_context(flags));
        assert_eq!(gpr(&info, GPR::RSP), Some(4));
        for r in ALL_XMMS.iter() {
            assert_eq!(xmm(&info, *r), None);
        }
    }
    for flags in [0u32, 1, 2, 0xffff_fffb] {
        let info = freebsd_x86_64::get_fault_info(&siginfo, &freebsd_x86_64_context(flags));
        assert_eq!(xmm(&info, XMM::XMM0), Some(0x2000_0000_1000));
    }
}

#[test]
fn macos_x86_64_decodes_every_register() {
    let mut xmm_state = [[0u64; 2]; 16];
    for (i, reg) in xmm_state.iter_mut().enumerate() {
        *reg = [0xc000 + i as u64, 0xd000 + i as u64];
    }
    let siginfo = macos_x86_64::SigInfo { si_addr: 0x5678 };
    let mut ucontext = macos_x86_64::UContext {
        rax: 100,
        rbx: 3,
        rcx: 1,
        rdx: 2,
        rdi: 7,
        rsi: 6,
        rbp: 5,
        rsp: 4,
        r8: 8,
        r9: 9,
        r10: 10,
        r11: 11,
        r12: 12,
        r13: 13,
        r14: 14,
        r15: 15,
        rip: 0x88_0000,
        xmm: xmm_state,
    };
    let info = macos_x86_64::get_fault_info(&siginfo, &ucontext);
    assert_eq!(info.faulting_addr, 0x5678);
    assert_eq!(info.ip, 0x88_0000);
    assert_eq!(gpr(&info, GPR::RAX), Some(100));
    for (n, r) in ALL_GPRS.iter().enumerate().skip(1) {
        assert_eq!(gpr(&info, *r), Some(n as u64));
    }
    for (i, r) in ALL_XMMS.iter().enumerate() {
        assert_eq!(xmm(&info, *r), Some(0xc000 + i as u64));
    }
    macos_x86_64::set_ip(&mut ucontext, 0x88_0002);
    assert_eq!(ucontext.rip, 0x88_0002);
    let after = macos_x86_64::get_fault_info(&siginfo, &ucontext);
    assert_eq!(after.ip, 0x88_0002);
    assert_eq!(after.known_registers, info.known_registers);
}

#[test]
fn read_stack_starts_at_the_stack_pointer() {
    let siginfo = linux_x86_64::SigInfo { si_addr: 0 };
    let info = linux_x86_64::get_fault_info(&siginfo, &linux_x86_64_context());
    let request = info.read_stack(Some(3)).unwrap();
    assert_eq!(request.stack_pointer, 0x10f);
    assert_eq!(request.initial_registers, info.known_registers);
    assert_eq!(request.initial_address, Some(0x110));
    assert_eq!(request.max_depth, Some(3));
    assert_eq!(info.read_stack(None).unwrap().max_depth, None);
}

#[test]
fn read_stack_needs_the_stack_pointer() {
    let mut known_registers = [Some(1u64); 32];
    known_registers[4] = None;
    let info = FaultInfo { faulting_addr: 0, ip: 0x10, known_registers };
    assert_eq!(info.read_stack(None), None);
    assert_eq!(info.read_stack(Some(1)), None);
}
