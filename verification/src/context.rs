//! Register snapshots. The raw context a debug server reports is modeled as
//! plain register words, one variant per architecture; the serializable form
//! renders every register as a fixed-width, `0x`-prefixed lower-case hex
//! string (18 characters for 64-bit registers, 10 for 32-bit ones).

use vstd::prelude::*;
use crate::fmtnum::{hex_seq_fixed_lower, hex_fixed_lower};

verus! {

/// Raw x64 general-purpose register values.
#[derive(Debug, Clone, Copy, PartialEq, Eq, Structural)]
pub struct X64RawContext {
    pub rax: u64, pub rbx: u64, pub rcx: u64, pub rdx: u64,
    pub rsi: u64, pub rdi: u64, pub rbp: u64, pub rsp: u64,
    pub rip: u64,
    pub r8: u64, pub r9: u64, pub r10: u64, pub r11: u64,
    pub r12: u64, pub r13: u64, pub r14: u64, pub r15: u64,
    pub eflags: u32,
}

/// Raw Arm64 general-purpose register values.
#[derive(Debug, Clone, Copy, PartialEq, Eq, Structural)]
pub struct Arm64RawContext {
    pub x0: u64, pub x1: u64, pub x2: u64, pub x3: u64,
    pub x4: u64, pub x5: u64, pub x6: u64, pub x7: u64,
    pub x8: u64, pub x9: u64, pub x10: u64, pub x11: u64,
    pub x12: u64, pub x13: u64, pub x14: u64, pub x15: u64,
    pub x16: u64, pub x17: u64, pub x18: u64, pub x19: u64,
    pub x20: u64, pub x21: u64, pub x22: u64, pub x23: u64,
    pub x24: u64, pub x25: u64, pub x26: u64, pub x27: u64,
    pub x28: u64, pub x29: u64, pub x30: u64,
    pub sp: u64,
    pub pc: u64,
    pub cpsr: u32,
}

/// A raw thread context, tagged by architecture.
#[derive(Debug, Clone, Copy, PartialEq, Eq, Structural)]
pub enum RawThreadContext {
    X64(X64RawContext),
    Arm64(Arm64RawContext),
}

/// An x64 register snapshot with every register rendered as hex text.
#[derive(Debug)]
pub struct Serializablex64ThreadContext {
    pub rax: String, pub rbx: String, pub rcx: String, pub rdx: String,
    pub rsi: String, pub rdi: String, pub rbp: String, pub rsp: String,
    pub rip: String,
    pub r8: String, pub r9: String, pub r10: String, pub r11: String,
    pub r12: String, pub r13: String, pub r14: String, pub r15: String,
    pub eflags: String,
}

/// An Arm64 register snapshot with every register rendered as hex text.
#[derive(Debug)]
pub struct SerializableArm64ThreadContext {
    pub x0: String, pub x1: String, pub x2: String, pub x3: String,
    pub x4: String, pub x5: String, pub x6: String, pub x7: String,
    pub x8: String, pub x9: String, pub x10: String, pub x11: String,
    pub x12: String, pub x13: String, pub x14: String, pub x15: String,
    pub x16: String, pub x17: String, pub x18: String, pub x19: String,
    pub x20: String, pub x21: String, pub x22: String, pub x23: String,
    pub x24: String, pub x25: String, pub x26: String, pub x27: String,
    pub x28: String, pub x29: String, pub x30: String,
    pub sp: String,
    pub pc: String,
    pub cpsr: String,
}

/// A serializable register snapshot, tagged by architecture.
#[derive(Debug)]
pub enum SerializableThreadContext {
    X64(Serializablex64ThreadContext),
    Arm64(SerializableArm64ThreadContext),
}

impl Clone for Serializablex64ThreadContext {
    fn clone(&self) -> (res: Self)
        ensures
            res == *self,
    {
        Serializablex64ThreadContext {
            rax: self.rax.clone(), rbx: self.rbx.clone(), rcx: self.rcx.clone(),
            rdx: self.rdx.clone(), rsi: self.rsi.clone(), rdi: self.rdi.clone(),
            rbp: self.rbp.clone(), rsp: self.rsp.clone(), rip: self.rip.clone(),
            r8: self.r8.clone(), r9: self.r9.clone(), r10: self.r10.clone(),
            r11: self.r11.clone(), r12: self.r12.clone(), r13: self.r13.clone(),
            r14: self.r14.clone(), r15: self.r15.clone(), eflags: self.eflags.clone(),
        }
    }
}

impl Clone for SerializableArm64ThreadContext {
    fn clone(&self) -> (res: Self)
        ensures
            res == *self,
    {
        SerializableArm64ThreadContext {
            x0: self.x0.clone(), x1: self.x1.clone(), x2: self.x2.clone(),
            x3: self.x3.clone(), x4: self.x4.clone(), x5: self.x5.clone(),
            x6: self.x6.clone(), x7: self.x7.clone(), x8: self.x8.clone(),
            x9: self.x9.clone(), x10: self.x10.clone(), x11: self.x11.clone(),
            x12: self.x12.clone(), x13: self.x13.clone(), x14: self.x14.clone(),
            x15: self.x15.clone(), x16: self.x16.clone(), x17: self.x17.clone(),
            x18: self.x18.clone(), x19: self.x19.clone(), x20: self.x20.clone(),
            x21: self.x21.clone(), x22: self.x22.clone(), x23: self.x23.clone(),
            x24: self.x24.clone(), x25: self.x25.clone(), x26: self.x26.clone(),
            x27: self.x27.clone(), x28: self.x28.clone(), x29: self.x29.clone(),
            x30: self.x30.clone(), sp: self.sp.clone(), pc: self.pc.clone(),
            cpsr: self.cpsr.clone(),
        }
    }
}

impl Clone for SerializableThreadContext {
    fn clone(&self) -> (res: Self)
        ensures
            res == *self,
    {
        match self {
            SerializableThreadContext::X64(c) => SerializableThreadContext::X64(c.clone()),
            SerializableThreadContext::Arm64(c) => SerializableThreadContext::Arm64(c.clone()),
        }
    }
}

/// A 64-bit register as 18 characters of text: `0x` and 16 hex digits.
pub open spec fn reg64_seq(v: u64) -> Seq<char> {
    "0x"@ + hex_seq_fixed_lower(v as nat, 16)
}

/// A 32-bit register as 10 characters of text: `0x` and 8 hex digits.
pub open spec fn reg32_seq(v: u32) -> Seq<char> {
    "0x"@ + hex_seq_fixed_lower(v as nat, 8)
}

fn reg64(v: u64) -> (r: String)
    ensures
        r@ == reg64_seq(v),
{
    proof { reveal_strlit("0x"); }
    let mut r = String::from_str("0x");
    let digits = hex_fixed_lower(v, 16);
    r.append(digits.as_str());
    proof { assert(r@ =~= reg64_seq(v)); }
    r
}

fn reg32(v: u32) -> (r: String)
    ensures
        r@ == reg32_seq(v),
{
    proof { reveal_strlit("0x"); }
    let mut r = String::from_str("0x");
    let digits = hex_fixed_lower(v as u64, 8);
    r.append(digits.as_str());
    proof { assert(r@ =~= reg32_seq(v)); }
    r
}

/// Whether `s` renders `raw` register for register.
pub open spec fn spec_context_matches(raw: RawThreadContext, s: SerializableThreadContext) -> bool {
    match (raw, s) {
        (RawThreadContext::X64(r), SerializableThreadContext::X64(c)) => {
            &&& c.rax@ == reg64_seq(r.rax) &&& c.rbx@ == reg64_seq(r.rbx)
            &&& c.rcx@ == reg64_seq(r.rcx) &&& c.rdx@ == reg64_seq(r.rdx)
            &&& c.rsi@ == reg64_seq(r.rsi) &&& c.rdi@ == reg64_seq(r.rdi)
            &&& c.rbp@ == reg64_seq(r.rbp) &&& c.rsp@ == reg64_seq(r.rsp)
            &&& c.rip@ == reg64_seq(r.rip)
            &&& c.r8@ == reg64_seq(r.r8) &&& c.r9@ == reg64_seq(r.r9)
            &&& c.r10@ == reg64_seq(r.r10) &&& c.r11@ == reg64_seq(r.r11)
            &&& c.r12@ == reg64_seq(r.r12) &&& c.r13@ == reg64_seq(r.r13)
            &&& c.r14@ == reg64_seq(r.r14) &&& c.r15@ == reg64_seq(r.r15)
            &&& c.eflags@ == reg32_seq(r.eflags)
        },
        (RawThreadContext::Arm64(r), SerializableThreadContext::Arm64(c)) => {
            &&& c.x0@ == reg64_seq(r.x0) &&& c.x1@ == reg64_seq(r.x1)
            &&& c.x2@ == reg64_seq(r.x2) &&& c.x3@ == reg64_seq(r.x3)
            &&& c.x4@ == reg64_seq(r.x4) &&& c.x5@ == reg64_seq(r.x5)
            &&& c.x6@ == reg64_seq(r.x6) &&& c.x7@ == reg64_seq(r.x7)
            &&& c.x8@ == reg64_seq(r.x8) &&& c.x9@ == reg64_seq(r.x9)
            &&& c.x10@ == reg64_seq(r.x10) &&& c.x11@ == reg64_seq(r.x11)
            &&& c.x12@ == reg64_seq(r.x12) &&& c.x13@ == reg64_seq(r.x13)
            &&& c.x14@ == reg64_seq(r.x14) &&& c.x15@ == reg64_seq(r.x15)
            &&& c.x16@ == reg64_seq(r.x16) &&& c.x17@ == reg64_seq(r.x17)
            &&& c.x18@ == reg64_seq(r.x18) &&& c.x19@ == reg64_seq(r.x19)
            &&& c.x20@ == reg64_seq(r.x20) &&& c.x21@ == reg64_seq(r.x21)
            &&& c.x22@ == reg64_seq(r.x22) &&& c.x23@ == reg64_seq(r.x23)
            &&& c.x24@ == reg64_seq(r.x24) &&& c.x25@ == reg64_seq(r.x25)
            &&& c.x26@ == reg64_seq(r.x26) &&& c.x27@ == reg64_seq(r.x27)
            &&& c.x28@ == reg64_seq(r.x28) &&& c.x29@ == reg64_seq(r.x29)
            &&& c.x30@ == reg64_seq(r.x30)
            &&& c.sp@ == reg64_seq(r.sp) &&& c.pc@ == reg64_seq(r.pc)
            &&& c.cpsr@ == reg32_seq(r.cpsr)
        },
        _ => false,
    }
}

/// The instruction pointer of a serialized context: its `rip` on x64, its
/// `pc` on Arm64.
pub open spec fn spec_instruction_pointer_text(s: SerializableThreadContext) -> Seq<char> {
    match s {
        SerializableThreadContext::X64(c) => c.rip@,
        SerializableThreadContext::Arm64(c) => c.pc@,
    }
}

/// Render a raw thread context register for register.
pub fn convert_raw_context_to_serializable(raw: &RawThreadContext) -> (s: SerializableThreadContext)
    ensures
        spec_context_matches(*raw, s),
{
    match raw {
        RawThreadContext::X64(r) => {
            SerializableThreadContext::X64(Serializablex64ThreadContext {
                rax: reg64(r.rax), rbx: reg64(r.rbx), rcx: reg64(r.rcx), rdx: reg64(r.rdx),
                rsi: reg64(r.rsi), rdi: reg64(r.rdi), rbp: reg64(r.rbp), rsp: reg64(r.rsp),
                rip: reg64(r.rip),
                r8: reg64(r.r8), r9: reg64(r.r9), r10: reg64(r.r10), r11: reg64(r.r11),
                r12: reg64(r.r12), r13: reg64(r.r13), r14: reg64(r.r14), r15: reg64(r.r15),
                eflags: reg32(r.eflags),
            })
        },
        RawThreadContext::Arm64(r) => {
            SerializableThreadContext::Arm64(SerializableArm64ThreadContext {
                x0: reg64(r.x0), x1: reg64(r.x1), x2: reg64(r.x2), x3: reg64(r.x3),
                x4: reg64(r.x4), x5: reg64(r.x5), x6: reg64(r.x6), x7: reg64(r.x7),
                x8: reg64(r.x8), x9: reg64(r.x9), x10: reg64(r.x10), x11: reg64(r.x11),
                x12: reg64(r.x12), x13: reg64(r.x13), x14: reg64(r.x14), x15: reg64(r.x15),
                x16: reg64(r.x16), x17: reg64(r.x17), x18: reg64(r.x18), x19: reg64(r.x19),
                x20: reg64(r.x20), x21: reg64(r.x21), x22: reg64(r.x22), x23: reg64(r.x23),
                x24: reg64(r.x24), x25: reg64(r.x25), x26: reg64(r.x26), x27: reg64(r.x27),
                x28: reg64(r.x28), x29: reg64(r.x29), x30: reg64(r.x30),
                sp: reg64(r.sp), pc: reg64(r.pc),
                cpsr: reg32(r.cpsr),
            })
        },
    }
}

} // verus!
