use vstd::prelude::*;

verus! {

use crate::parser::Type;

/// Physical registers of the target; the generator only ever names them in
/// emitted text, so each one carries its textual spelling via `reg_name`.
#[derive(Clone, Copy, Debug, PartialEq, Eq, Structural)]
pub enum Register {
    Rax,
    Rcx,
    Rdx,
    Rbx,
    Rsi,
    Rdi,
    Rsp,
    Rbp,
    R8,
    R9,
    R10,
    R11,
    R12,
    R13,
    R14,
    R15,
    Xmm0,
    Xmm1,
    Xmm2,
    Xmm3,
    Xmm4,
    Xmm5,
    Xmm6,
    Xmm7,
}

/// The textual spelling of a register as it appears in emitted assembly.
pub open spec fn reg_name(r: Register) -> Seq<char> {
    match r {
        Register::Rax => "rax"@,
        Register::Rcx => "rcx"@,
        Register::Rdx => "rdx"@,
        Register::Rbx => "rbx"@,
        Register::Rsi => "rsi"@,
        Register::Rdi => "rdi"@,
        Register::Rsp => "rsp"@,
        Register::Rbp => "rbp"@,
        Register::R8 => "r8"@,
        Register::R9 => "r9"@,
        Register::R10 => "r10"@,
        Register::R11 => "r11"@,
        Register::R12 => "r12"@,
        Register::R13 => "r13"@,
        Register::R14 => "r14"@,
        Register::R15 => "r15"@,
        Register::Xmm0 => "xmm0"@,
        Register::Xmm1 => "xmm1"@,
        Register::Xmm2 => "xmm2"@,
        Register::Xmm3 => "xmm3"@,
        Register::Xmm4 => "xmm4"@,
        Register::Xmm5 => "xmm5"@,
        Register::Xmm6 => "xmm6"@,
        Register::Xmm7 => "xmm7"@,
    }
}

impl Register {
    /// The register's spelling in assembly text.
    pub fn name(&self) -> (r: &'static str)
        ensures
            r@ == reg_name(*self),
    {
        match self {
            Register::Rax => "rax",
            Register::Rcx => "rcx",
            Register::Rdx => "rdx",
            Register::Rbx => "rbx",
            Register::Rsi => "rsi",
            Register::Rdi => "rdi",
            Register::Rsp => "rsp",
            Register::Rbp => "rbp",
            Register::R8 => "r8",
            Register::R9 => "r9",
            Register::R10 => "r10",
            Register::R11 => "r11",
            Register::R12 => "r12",
            Register::R13 => "r13",
            Register::R14 => "r14",
            Register::R15 => "r15",
            Register::Xmm0 => "xmm0",
            Register::Xmm1 => "xmm1",
            Register::Xmm2 => "xmm2",
            Register::Xmm3 => "xmm3",
            Register::Xmm4 => "xmm4",
            Register::Xmm5 => "xmm5",
            Register::Xmm6 => "xmm6",
            Register::Xmm7 => "xmm7",
        }
    }
}

/// Number of scratch registers each class reserves for expression temporaries.
pub const POOL_SIZE: usize = 7;

/// The fixed integer-class pool, in allocation order.
pub open spec fn int_pool() -> Seq<Register> {
    seq![
        Register::Rcx,
        Register::Rdi,
        Register::Rsi,
        Register::R8,
        Register::R9,
        Register::R10,
        Register::R11,
    ]
}

/// The fixed floating-class pool, in allocation order.
pub open spec fn float_pool() -> Seq<Register> {
    seq![
        Register::Xmm1,
        Register::Xmm2,
        Register::Xmm3,
        Register::Xmm4,
        Register::Xmm5,
        Register::Xmm6,
        Register::Xmm7,
    ]
}

/// The pool an operand of type `t` draws from.
pub open spec fn pool_of(t: Type) -> Seq<Register> {
    match t {
        Type::I32 => int_pool(),
        Type::F64 => float_pool(),
    }
}

/// One fixed ordered list of registers with a stack pointer: registers are
/// handed out and taken back in strictly nested (LIFO) order, mirroring the
/// post-order walk of an expression tree.
pub struct RegisterStack {
    pub stack: Vec<Register>,
    pub stack_ptr: usize,
}

impl RegisterStack {
    /// The registers this stack hands out, in order.
    pub open spec fn regs(&self) -> Seq<Register> {
        self.stack@
    }

    /// How many registers are currently live.
    pub open spec fn sp(&self) -> nat {
        self.stack_ptr as nat
    }

    pub open spec fn wf(&self) -> bool {
        self.stack_ptr <= self.stack.len()
    }

    pub fn new(registers: Vec<Register>) -> (r: RegisterStack)
        ensures
            r.regs() == registers@,
            r.sp() == 0,
            r.wf(),
    {
        RegisterStack { stack: registers, stack_ptr: 0 }
    }

    /// The register holding the most recent live value; the stack is unchanged.
    pub fn peek(&mut self) -> (r: Register)
        requires
            old(self).wf(),
            old(self).sp() > 0,
        ensures
            *final(self) == *old(self),
            r == old(self).regs()[old(self).sp() - 1],
    {
        self.stack[self.stack_ptr - 1]
    }

    /// Retreats the pointer and returns the register just released, so the
    /// caller can still read the value being folded into its sibling.
    pub fn dealloc(&mut self) -> (r: Register)
        requires
            old(self).wf(),
            old(self).sp() > 0,
        ensures
            final(self).wf(),
            final(self).regs() == old(self).regs(),
            final(self).sp() == old(self).sp() - 1,
            r == old(self).regs()[old(self).sp() - 1],
    {
        self.stack_ptr = self.stack_ptr - 1;
        self.stack[self.stack_ptr]
    }

    /// True when every register of this stack is live.
    pub fn sp_is_full(&self) -> (r: bool)
        ensures
            r == (self.sp() >= self.regs().len()),
    {
        self.stack_ptr >= self.stack.len()
    }

    /// Advances the pointer and returns the register now at the top.
    pub fn allocate(&mut self) -> (r: Register)
        requires
            old(self).wf(),
            old(self).sp() < old(self).regs().len(),
        ensures
            final(self).wf(),
            final(self).regs() == old(self).regs(),
            final(self).sp() == old(self).sp() + 1,
            r == old(self).regs()[old(self).sp() as int],
    {
        self.stack_ptr = self.stack_ptr + 1;
        self.stack[self.stack_ptr - 1]
    }
}

/// Two independent LIFO register pools, one per operand class.
pub struct RegisterAllocator {
    pub stack: RegisterStack,
    pub stack_simd: RegisterStack,
}

impl RegisterAllocator {
    /// Live-register count of the integer class.
    pub open spec fn int_sp(&self) -> nat {
        self.stack.sp()
    }

    /// Live-register count of the floating class.
    pub open spec fn float_sp(&self) -> nat {
        self.stack_simd.sp()
    }

    /// Live-register count of the class of `t`.
    pub open spec fn sp_of(&self, t: Type) -> nat {
        match t {
            Type::I32 => self.int_sp(),
            Type::F64 => self.float_sp(),
        }
    }

    pub open spec fn wf(&self) -> bool {
        &&& self.stack.wf()
        &&& self.stack_simd.wf()
        &&& self.stack.regs() == int_pool()
        &&& self.stack_simd.regs() == float_pool()
    }

    pub fn new() -> (r: RegisterAllocator)
        ensures
            r.wf(),
            r.int_sp() == 0,
            r.float_sp() == 0,
    {
        let mut int_regs: Vec<Register> = Vec::new();
        int_regs.push(Register::Rcx);
        int_regs.push(Register::Rdi);
        int_regs.push(Register::Rsi);
        int_regs.push(Register::R8);
        int_regs.push(Register::R9);
        int_regs.push(Register::R10);
        int_regs.push(Register::R11);
        let mut simd_regs: Vec<Register> = Vec::new();
        simd_regs.push(Register::Xmm1);
        simd_regs.push(Register::Xmm2);
        simd_regs.push(Register::Xmm3);
        simd_regs.push(Register::Xmm4);
        simd_regs.push(Register::Xmm5);
        simd_regs.push(Register::Xmm6);
        simd_regs.push(Register::Xmm7);
        proof {
            assert(int_regs@ =~= int_pool());
            assert(simd_regs@ =~= float_pool());
        }
        RegisterAllocator {
            stack: RegisterStack::new(int_regs),
            stack_simd: RegisterStack::new(simd_regs),
        }
    }

    /// True when the pool of `t`'s class has no register left to hand out.
    /// Allocating past this point is the fatal condition the design refuses
    /// to recover from, so callers test it and report resource exhaustion.
    pub fn is_full(&self, t: &Type) -> (r: bool)
        requires
            self.wf(),
        ensures
            r == (self.sp_of(*t) >= POOL_SIZE),
    {
        match t {
            Type::I32 => self.stack.sp_is_full(),
            Type::F64 => self.stack_simd.sp_is_full(),
        }
    }

    pub fn peek(&mut self, t: &Type) -> (r: Register)
        requires
            old(self).wf(),
            old(self).sp_of(*t) > 0,
        ensures
            *final(self) == *old(self),
            r == pool_of(*t)[old(self).sp_of(*t) - 1],
    {
        match t {
            Type::I32 => self.stack.peek(),
            Type::F64 => self.stack_simd.peek(),
        }
    }

    pub fn dealloc(&mut self, t: &Type) -> (r: Register)
        requires
            old(self).wf(),
            old(self).sp_of(*t) > 0,
        ensures
            final(self).wf(),
            final(self).sp_of(*t) == old(self).sp_of(*t) - 1,
            final(self).sp_of(other_class(*t)) == old(self).sp_of(other_class(*t)),
            r == pool_of(*t)[old(self).sp_of(*t) - 1],
    {
        match t {
            Type::I32 => self.stack.dealloc(),
            Type::F64 => self.stack_simd.dealloc(),
        }
    }

    pub fn allocate(&mut self, t: &Type) -> (r: Register)
        requires
            old(self).wf(),
            old(self).sp_of(*t) < POOL_SIZE,
        ensures
            final(self).wf(),
            final(self).sp_of(*t) == old(self).sp_of(*t) + 1,
            final(self).sp_of(other_class(*t)) == old(self).sp_of(other_class(*t)),
            r == pool_of(*t)[old(self).sp_of(*t) as int],
    {
        match t {
            Type::I32 => self.stack.allocate(),
            Type::F64 => self.stack_simd.allocate(),
        }
    }
}

/// The operand class that is not `t`'s.
pub open spec fn other_class(t: Type) -> Type {
    match t {
        Type::I32 => Type::F64,
        Type::F64 => Type::I32,
    }
}

} // verus!
