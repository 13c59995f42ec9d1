//! Typed accessors for the registers that every syscall needs, each
//! dispatching on the architecture tag to its native field.

use crate::kernel_abi::x64;
use crate::kernel_abi::x86;
use crate::kernel_abi::{
    SupportedArch,
    ERESTARTNOHAND,
    ERESTARTNOINTR,
    ERESTARTSYS,
    ERESTART_RESTARTBLOCK,
};
use crate::registers::Registers;
use crate::remote_ptr::{RemoteCodePtr, RemotePtr};
use vstd::prelude::*;

verus! {

/// The trap flag: the CPU stops after each instruction.
pub const X86_TF_FLAG: usize = 0x100;

/// The direction flag: string instructions walk down.
pub const X86_DF_FLAG: usize = 0x400;

/// Whether `code` is one of the codes with which the kernel says it will
/// restart a syscall.
pub open spec fn is_restart_code(code: int) -> bool {
    code == ERESTART_RESTARTBLOCK || code == ERESTARTNOINTR || code == ERESTARTNOHAND || code
        == ERESTARTSYS
}

/// The offsets, in the 32-bit and the 64-bit layout, of the register that
/// passes syscall argument `index` (from 1 to 6).
pub open spec fn arg_offsets(index: int) -> (int, int) {
    if index == 1 {
        (x86::EBX as int, x64::RDI as int)
    } else if index == 2 {
        (x86::ECX as int, x64::RSI as int)
    } else if index == 3 {
        (x86::EDX as int, x64::RDX as int)
    } else if index == 4 {
        (x86::ESI as int, x64::R10 as int)
    } else if index == 5 {
        (x86::EDI as int, x64::R8 as int)
    } else {
        (x86::EBP as int, x64::R9 as int)
    }
}

impl Registers {
    /// The syscall number, read as a signed value like the kernel's own.
    pub fn syscallno(&self) -> (r: isize)
        ensures
            r == self@.reg(x86::EAX as int, x64::RAX as int) as isize,
    {
        self.get_reg(x86::EAX, x64::RAX) as isize
    }

    /// Sets the syscall number.
    pub fn set_syscallno(&mut self, syscallno: isize)
        ensures
            final(self)@ == old(self)@.with_reg(x86::EAX as int, x64::RAX as int, syscallno as u64),
    {
        self.set_reg(x86::EAX, x64::RAX, syscallno as u64);
    }

    /// The syscall result.
    pub fn syscall_result(&self) -> (r: usize)
        ensures
            r == self@.reg(x86::EAX as int, x64::RAX as int) as usize,
    {
        self.get_reg(x86::EAX, x64::RAX) as usize
    }

    /// The syscall result as a signed value.
    pub fn syscall_result_signed(&self) -> (r: isize)
        ensures
            r == self@.reg(x86::EAX as int, x64::RAX as int) as isize,
    {
        self.get_reg(x86::EAX, x64::RAX) as isize
    }

    /// Sets the syscall result.
    pub fn set_syscall_result(&mut self, value: usize)
        ensures
            final(self)@ == old(self)@.with_reg(x86::EAX as int, x64::RAX as int, value as u64),
    {
        self.set_reg(x86::EAX, x64::RAX, value as u64);
    }

    /// Sets the syscall result to an address.
    pub fn set_syscall_result_from_remote_ptr<T>(&mut self, value: RemotePtr<T>)
        ensures
            final(self)@ == old(self)@.with_reg(x86::EAX as int, x64::RAX as int, value.addr() as u64),
    {
        self.set_reg(x86::EAX, x64::RAX, value.as_usize() as u64);
    }

    /// The flags register.
    pub fn flags(&self) -> (r: usize)
        ensures
            r == self@.reg(x86::EFLAGS as int, x64::EFLAGS as int) as usize,
    {
        self.get_reg(x86::EFLAGS, x64::EFLAGS) as usize
    }

    /// Sets the flags register.
    pub fn set_flags(&mut self, value: usize)
        ensures
            final(self)@ == old(self)@.with_reg(x86::EFLAGS as int, x64::EFLAGS as int, value as u64),
    {
        self.set_reg(x86::EFLAGS, x64::EFLAGS, value as u64);
    }

    /// Whether the syscall result is a negated error number.
    pub fn syscall_failed(&self) -> (r: bool)
        ensures
            r == (-4096 < self@.reg(x86::EAX as int, x64::RAX as int) as isize && self@.reg(
                x86::EAX as int,
                x64::RAX as int,
            ) as isize <= -1),
    {
        let result = self.syscall_result_signed();
        -4096 < result && result < 0
    }

    /// Whether the syscall result says that the kernel will restart the
    /// syscall: its negation is one of the restart codes.
    pub fn syscall_may_restart(&self) -> (r: bool)
        ensures
            r == is_restart_code(-(self@.reg(x86::EAX as int, x64::RAX as int) as isize as int)),
    {
        let result = self.syscall_result_signed();
        result == -(ERESTART_RESTARTBLOCK as isize) || result == -(ERESTARTNOINTR as isize)
            || result == -(ERESTARTNOHAND as isize) || result == -(ERESTARTSYS as isize)
    }

    /// The instruction pointer.
    pub fn ip(&self) -> (r: RemoteCodePtr)
        ensures
            r.addr() == self@.reg(x86::EIP as int, x64::RIP as int) as usize,
    {
        let addr = self.get_reg(x86::EIP, x64::RIP) as usize;
        RemoteCodePtr::new_from_val(addr)
    }

    /// Sets the instruction pointer.
    pub fn set_ip(&mut self, addr: RemoteCodePtr)
        ensures
            final(self)@ == old(self)@.with_reg(x86::EIP as int, x64::RIP as int, addr.addr() as u64),
    {
        self.set_reg(x86::EIP, x64::RIP, addr.as_usize() as u64);
    }

    /// The stack pointer.
    pub fn sp(&self) -> (r: RemotePtr<u8>)
        ensures
            r.addr() == self@.reg(x86::ESP as int, x64::RSP as int) as usize,
    {
        let addr = self.get_reg(x86::ESP, x64::RSP) as usize;
        RemotePtr::<u8>::new_from_val(addr)
    }

    /// Sets the stack pointer.
    pub fn set_sp(&mut self, addr: RemotePtr<u8>)
        ensures
            final(self)@ == old(self)@.with_reg(x86::ESP as int, x64::RSP as int, addr.addr() as u64),
    {
        self.set_reg(x86::ESP, x64::RSP, addr.as_usize() as u64);
    }

    /// The syscall-number pseudo-register: the syscall number at syscall
    /// entry and exit; setting it changes the syscall that runs on resumption.
    pub fn original_syscallno(&self) -> (r: isize)
        ensures
            r == self@.reg(x86::ORIG_EAX as int, x64::ORIG_RAX as int) as isize,
    {
        self.get_reg(x86::ORIG_EAX, x64::ORIG_RAX) as isize
    }

    /// Sets the syscall-number pseudo-register.
    pub fn set_original_syscallno(&mut self, value: usize)
        ensures
            final(self)@ == old(self)@.with_reg(x86::ORIG_EAX as int, x64::ORIG_RAX as int, value as u64),
    {
        self.set_reg(x86::ORIG_EAX, x64::ORIG_RAX, value as u64);
    }

    /// Syscall argument 1.
    pub fn arg1(&self) -> (r: usize)
        ensures
            r == self@.reg(x86::EBX as int, x64::RDI as int) as usize,
    {
        self.get_reg(x86::EBX, x64::RDI) as usize
    }

    /// Syscall argument 1 as a signed value.
    pub fn arg1_signed(&self) -> (r: isize)
        ensures
            r == self@.reg(x86::EBX as int, x64::RDI as int) as isize,
    {
        self.get_reg(x86::EBX, x64::RDI) as isize
    }

    /// Sets syscall argument 1.
    pub fn set_arg1(&mut self, value: usize)
        ensures
            final(self)@ == old(self)@.with_reg(x86::EBX as int, x64::RDI as int, value as u64),
    {
        self.set_reg(x86::EBX, x64::RDI, value as u64);
    }

    /// Sets syscall argument 1 to an address.
    pub fn set_arg1_from_remote_ptr<T>(&mut self, value: RemotePtr<T>)
        ensures
            final(self)@ == old(self)@.with_reg(x86::EBX as int, x64::RDI as int, value.addr() as u64),
    {
        self.set_reg(x86::EBX, x64::RDI, value.as_usize() as u64);
    }

    /// Syscall argument 2.
    pub fn arg2(&self) -> (r: usize)
        ensures
            r == self@.reg(x86::ECX as int, x64::RSI as int) as usize,
    {
        self.get_reg(x86::ECX, x64::RSI) as usize
    }

    /// Syscall argument 2 as a signed value.
    pub fn arg2_signed(&self) -> (r: isize)
        ensures
            r == self@.reg(x86::ECX as int, x64::RSI as int) as isize,
    {
        self.get_reg(x86::ECX, x64::RSI) as isize
    }

    /// Sets syscall argument 2.
    pub fn set_arg2(&mut self, value: usize)
        ensures
            final(self)@ == old(self)@.with_reg(x86::ECX as int, x64::RSI as int, value as u64),
    {
        self.set_reg(x86::ECX, x64::RSI, value as u64);
    }

    /// Sets syscall argument 2 to an address.
    pub fn set_arg2_from_remote_ptr<T>(&mut self, value: RemotePtr<T>)
        ensures
            final(self)@ == old(self)@.with_reg(x86::ECX as int, x64::RSI as int, value.addr() as u64),
    {
        self.set_reg(x86::ECX, x64::RSI, value.as_usize() as u64);
    }

    /// Syscall argument 3.
    pub fn arg3(&self) -> (r: usize)
        ensures
            r == self@.reg(x86::EDX as int, x64::RDX as int) as usize,
    {
        self.get_reg(x86::EDX, x64::RDX) as usize
    }

    /// Syscall argument 3 as a signed value.
    pub fn arg3_signed(&self) -> (r: isize)
        ensures
            r == self@.reg(x86::EDX as int, x64::RDX as int) as isize,
    {
        self.get_reg(x86::EDX, x64::RDX) as isize
    }

    /// Sets syscall argument 3.
    pub fn set_arg3(&mut self, value: usize)
        ensures
            final(self)@ == old(self)@.with_reg(x86::EDX as int, x64::RDX as int, value as u64),
    {
        self.set_reg(x86::EDX, x64::RDX, value as u64);
    }

    /// Sets syscall argument 3 to an address.
    pub fn set_arg3_from_remote_ptr<T>(&mut self, value: RemotePtr<T>)
        ensures
            final(self)@ == old(self)@.with_reg(x86::EDX as int, x64::RDX as int, value.addr() as u64),
    {
        self.set_reg(x86::EDX, x64::RDX, value.as_usize() as u64);
    }

    /// Syscall argument 4.
    pub fn arg4(&self) -> (r: usize)
        ensures
            r == self@.reg(x86::ESI as int, x64::R10 as int) as usize,
    {
        self.get_reg(x86::ESI, x64::R10) as usize
    }

    /// Syscall argument 4 as a signed value.
    pub fn arg4_signed(&self) -> (r: isize)
        ensures
            r == self@.reg(x86::ESI as int, x64::R10 as int) as isize,
    {
        self.get_reg(x86::ESI, x64::R10) as isize
    }

    /// Sets syscall argument 4.
    pub fn set_arg4(&mut self, value: usize)
        ensures
            final(self)@ == old(self)@.with_reg(x86::ESI as int, x64::R10 as int, value as u64),
    {
        self.set_reg(x86::ESI, x64::R10, value as u64);
    }

    /// Sets syscall argument 4 to an address.
    pub fn set_arg4_from_remote_ptr<T>(&mut self, value: RemotePtr<T>)
        ensures
            final(self)@ == old(self)@.with_reg(x86::ESI as int, x64::R10 as int, value.addr() as u64),
    {
        self.set_reg(x86::ESI, x64::R10, value.as_usize() as u64);
    }

    /// Syscall argument 5.
    pub fn arg5(&self) -> (r: usize)
        ensures
            r == self@.reg(x86::EDI as int, x64::R8 as int) as usize,
    {
        self.get_reg(x86::EDI, x64::R8) as usize
    }

    /// Syscall argument 5 as a signed value.
    pub fn arg5_signed(&self) -> (r: isize)
        ensures
            r == self@.reg(x86::EDI as int, x64::R8 as int) as isize,
    {
        self.get_reg(x86::EDI, x64::R8) as isize
    }

    /// Sets syscall argument 5.
    pub fn set_arg5(&mut self, value: usize)
        ensures
            final(self)@ == old(self)@.with_reg(x86::EDI as int, x64::R8 as int, value as u64),
    {
        self.set_reg(x86::EDI, x64::R8, value as u64);
    }

    /// Sets syscall argument 5 to an address.
    pub fn set_arg5_from_remote_ptr<T>(&mut self, value: RemotePtr<T>)
        ensures
            final(self)@ == old(self)@.with_reg(x86::EDI as int, x64::R8 as int, value.addr() as u64),
    {
        self.set_reg(x86::EDI, x64::R8, value.as_usize() as u64);
    }

    /// Syscall argument 6.
    pub fn arg6(&self) -> (r: usize)
        ensures
            r == self@.reg(x86::EBP as int, x64::R9 as int) as usize,
    {
        self.get_reg(x86::EBP, x64::R9) as usize
    }

    /// Syscall argument 6 as a signed value.
    pub fn arg6_signed(&self) -> (r: isize)
        ensures
            r == self@.reg(x86::EBP as int, x64::R9 as int) as isize,
    {
        self.get_reg(x86::EBP, x64::R9) as isize
    }

    /// Sets syscall argument 6.
    pub fn set_arg6(&mut self, value: usize)
        ensures
            final(self)@ == old(self)@.with_reg(x86::EBP as int, x64::R9 as int, value as u64),
    {
        self.set_reg(x86::EBP, x64::R9, value as u64);
    }

    /// Sets syscall argument 6 to an address.
    pub fn set_arg6_from_remote_ptr<T>(&mut self, value: RemotePtr<T>)
        ensures
            final(self)@ == old(self)@.with_reg(x86::EBP as int, x64::R9 as int, value.addr() as u64),
    {
        self.set_reg(x86::EBP, x64::R9, value.as_usize() as u64);
    }

    /// Syscall argument `index`, counted from 1.
    pub fn arg(&self, index: i32) -> (r: usize)
        requires
            1 <= index <= 6,
        ensures
            r == self@.reg(arg_offsets(index as int).0, arg_offsets(index as int).1) as usize,
    {
        match index {
            1 => self.arg1(),
            2 => self.arg2(),
            3 => self.arg3(),
            4 => self.arg4(),
            5 => self.arg5(),
            _ => self.arg6(),
        }
    }

    /// Sets syscall argument `index`, counted from 1.
    pub fn set_arg(&mut self, index: i32, value: usize)
        requires
            1 <= index <= 6,
        ensures
            final(self)@ == old(self)@.with_reg(
                arg_offsets(index as int).0,
                arg_offsets(index as int).1,
                value as u64,
            ),
    {
        match index {
            1 => self.set_arg1(value),
            2 => self.set_arg2(value),
            3 => self.set_arg3(value),
            4 => self.set_arg4(value),
            5 => self.set_arg5(value),
            _ => self.set_arg6(value),
        }
    }

    /// Sets syscall argument `index`, counted from 1, to an address.
    pub fn set_arg_from_remote_ptr<T>(&mut self, index: i32, value: RemotePtr<T>)
        requires
            1 <= index <= 6,
        ensures
            final(self)@ == old(self)@.with_reg(
                arg_offsets(index as int).0,
                arg_offsets(index as int).1,
                value.addr() as u64,
            ),
    {
        match index {
            1 => self.set_arg1_from_remote_ptr(value),
            2 => self.set_arg2_from_remote_ptr(value),
            3 => self.set_arg3_from_remote_ptr(value),
            4 => self.set_arg4_from_remote_ptr(value),
            5 => self.set_arg5_from_remote_ptr(value),
            _ => self.set_arg6_from_remote_ptr(value),
        }
    }

    /// Sets the output registers of the `rdtsc` instruction: the low half of
    /// `value` in the accumulator, the high half in the data register.
    pub fn set_rdtsc_output(&mut self, value: u64)
        ensures
            final(self)@ == old(self)@.with_reg(
                x86::EAX as int,
                x64::RAX as int,
                value % 0x1_0000_0000,
            ).with_reg(x86::EDX as int, x64::RDX as int, value / 0x1_0000_0000),
    {
        self.set_reg(x86::EAX, x64::RAX, value % 0x1_0000_0000);
        self.set_reg(x86::EDX, x64::RDX, value / 0x1_0000_0000);
    }

    /// Sets the output registers of the `cpuid` instruction.
    pub fn set_cpuid_output(&mut self, eax: u32, ebx: u32, ecx: u32, edx: u32)
        ensures
            final(self)@ == old(self)@.with_reg(x86::EAX as int, x64::RAX as int, eax as u64).with_reg(
                x86::EBX as int,
                x64::RBX as int,
                ebx as u64,
            ).with_reg(x86::ECX as int, x64::RCX as int, ecx as u64).with_reg(
                x86::EDX as int,
                x64::RDX as int,
                edx as u64,
            ),
    {
        self.set_reg(x86::EAX, x64::RAX, eax as u64);
        self.set_reg(x86::EBX, x64::RBX, ebx as u64);
        self.set_reg(x86::ECX, x64::RCX, ecx as u64);
        self.set_reg(x86::EDX, x64::RDX, edx as u64);
    }

    /// Sets `r8`, which only the 64-bit architecture has.
    pub fn set_r8(&mut self, value: u64)
        requires
            old(self)@.arch == SupportedArch::X64,
        ensures
            final(self)@ == old(self)@.with_field(x64::R8 as int, 8, value as nat),
    {
        self.store_field(x64::R8, 8, value);
    }

    /// Sets `r9`, which only the 64-bit architecture has.
    pub fn set_r9(&mut self, value: u64)
        requires
            old(self)@.arch == SupportedArch::X64,
        ensures
            final(self)@ == old(self)@.with_field(x64::R9 as int, 8, value as nat),
    {
        self.store_field(x64::R9, 8, value);
    }

    /// Sets `r10`, which only the 64-bit architecture has.
    pub fn set_r10(&mut self, value: u64)
        requires
            old(self)@.arch == SupportedArch::X64,
        ensures
            final(self)@ == old(self)@.with_field(x64::R10 as int, 8, value as nat),
    {
        self.store_field(x64::R10, 8, value);
    }

    /// Sets `r11`, which only the 64-bit architecture has.
    pub fn set_r11(&mut self, value: u64)
        requires
            old(self)@.arch == SupportedArch::X64,
        ensures
            final(self)@ == old(self)@.with_field(x64::R11 as int, 8, value as nat),
    {
        self.store_field(x64::R11, 8, value);
    }

    /// The `di` register.
    pub fn di(&self) -> (r: usize)
        ensures
            r == self@.reg(x86::EDI as int, x64::RDI as int) as usize,
    {
        self.get_reg(x86::EDI, x64::RDI) as usize
    }

    /// Sets the `di` register.
    pub fn set_di(&mut self, value: usize)
        ensures
            final(self)@ == old(self)@.with_reg(x86::EDI as int, x64::RDI as int, value as u64),
    {
        self.set_reg(x86::EDI, x64::RDI, value as u64);
    }

    /// The `si` register.
    pub fn si(&self) -> (r: usize)
        ensures
            r == self@.reg(x86::ESI as int, x64::RSI as int) as usize,
    {
        self.get_reg(x86::ESI, x64::RSI) as usize
    }

    /// Sets the `si` register.
    pub fn set_si(&mut self, value: usize)
        ensures
            final(self)@ == old(self)@.with_reg(x86::ESI as int, x64::RSI as int, value as u64),
    {
        self.set_reg(x86::ESI, x64::RSI, value as u64);
    }

    /// The `cx` register.
    pub fn cx(&self) -> (r: usize)
        ensures
            r == self@.reg(x86::ECX as int, x64::RCX as int) as usize,
    {
        self.get_reg(x86::ECX, x64::RCX) as usize
    }

    /// Sets the `cx` register.
    pub fn set_cx(&mut self, value: usize)
        ensures
            final(self)@ == old(self)@.with_reg(x86::ECX as int, x64::RCX as int, value as u64),
    {
        self.set_reg(x86::ECX, x64::RCX, value as u64);
    }

    /// The accumulator.
    pub fn ax(&self) -> (r: usize)
        ensures
            r == self@.reg(x86::EAX as int, x64::RAX as int) as usize,
    {
        self.get_reg(x86::EAX, x64::RAX) as usize
    }

    /// The frame pointer.
    pub fn bp(&self) -> (r: usize)
        ensures
            r == self@.reg(x86::EBP as int, x64::RBP as int) as usize,
    {
        self.get_reg(x86::EBP, x64::RBP) as usize
    }

    /// Whether the trap (single-step) flag is set.
    pub fn singlestep_flag(&self) -> (r: bool)
        ensures
            r == (self@.reg(x86::EFLAGS as int, x64::EFLAGS as int) as usize & X86_TF_FLAG
                == X86_TF_FLAG),
    {
        self.flags() & X86_TF_FLAG == X86_TF_FLAG
    }

    /// Clears the trap (single-step) flag.
    pub fn clear_singlestep_flag(&mut self)
        ensures
            final(self)@ == old(self)@.with_reg(
                x86::EFLAGS as int,
                x64::EFLAGS as int,
                (old(self)@.reg(x86::EFLAGS as int, x64::EFLAGS as int) as usize & !X86_TF_FLAG) as u64,
            ),
    {
        let f = self.flags();
        self.set_flags(f & !X86_TF_FLAG);
    }

    /// Whether the direction flag is set.
    pub fn df_flag(&self) -> (r: bool)
        ensures
            r == (self@.reg(x86::EFLAGS as int, x64::EFLAGS as int) as usize & X86_DF_FLAG
                == X86_DF_FLAG),
    {
        self.flags() & X86_DF_FLAG == X86_DF_FLAG
    }

    /// The `fs_base` register, which only the 64-bit architecture has.
    pub fn fs_base(&self) -> (r: u64)
        requires
            self@.arch == SupportedArch::X64,
        ensures
            r as nat == self@.field(x64::FS_BASE as int, 8),
    {
        self.load_field(x64::FS_BASE, 8)
    }

    /// Sets the `fs_base` register, which only the 64-bit architecture has.
    pub fn set_fs_base(&mut self, fs_base: u64)
        requires
            old(self)@.arch == SupportedArch::X64,
        ensures
            final(self)@ == old(self)@.with_field(x64::FS_BASE as int, 8, fs_base as nat),
    {
        self.store_field(x64::FS_BASE, 8, fs_base);
    }

    /// The `gs_base` register, which only the 64-bit architecture has.
    pub fn gs_base(&self) -> (r: u64)
        requires
            self@.arch == SupportedArch::X64,
        ensures
            r as nat == self@.field(x64::GS_BASE as int, 8),
    {
        self.load_field(x64::GS_BASE, 8)
    }

    /// Sets the `gs_base` register, which only the 64-bit architecture has.
    pub fn set_gs_base(&mut self, gs_base: u64)
        requires
            old(self)@.arch == SupportedArch::X64,
        ensures
            final(self)@ == old(self)@.with_field(x64::GS_BASE as int, 8, gs_base as nat),
    {
        self.store_field(x64::GS_BASE, 8, gs_base);
    }

    /// The `cs` segment selector.
    pub fn cs(&self) -> (r: usize)
        ensures
            r == self@.reg(x86::XCS as int, x64::CS as int) as usize,
    {
        self.get_reg(x86::XCS, x64::CS) as usize
    }

    /// The `ss` segment selector.
    pub fn ss(&self) -> (r: usize)
        ensures
            r == self@.reg(x86::XSS as int, x64::SS as int) as usize,
    {
        self.get_reg(x86::XSS, x64::SS) as usize
    }

    /// The `ds` segment selector.
    pub fn ds(&self) -> (r: usize)
        ensures
            r == self@.reg(x86::XDS as int, x64::DS as int) as usize,
    {
        self.get_reg(x86::XDS, x64::DS) as usize
    }

    /// The `es` segment selector.
    pub fn es(&self) -> (r: usize)
        ensures
            r == self@.reg(x86::XES as int, x64::ES as int) as usize,
    {
        self.get_reg(x86::XES, x64::ES) as usize
    }

    /// The `fs` segment selector.
    pub fn fs(&self) -> (r: usize)
        ensures
            r == self@.reg(x86::XFS as int, x64::FS as int) as usize,
    {
        self.get_reg(x86::XFS, x64::FS) as usize
    }

    /// The `gs` segment selector.
    pub fn gs(&self) -> (r: usize)
        ensures
            r == self@.reg(x86::XGS as int, x64::GS as int) as usize,
    {
        self.get_reg(x86::XGS, x64::GS) as usize
    }
}

} // verus!
