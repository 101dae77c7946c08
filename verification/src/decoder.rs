//! The byte cursor and the per-instruction decode state.
use vstd::prelude::*;
use crate::enums::{CodeSize, EncodingKind, MandatoryPrefixByte, OpKind, OpSize, VectorLength};
use crate::instruction::Instruction;
use crate::options::{DecoderOptions, HandlerFlags, has_flag};
use crate::register;
use crate::arith::{
    bits210, bits543, bits76, join64, le16, le32, modulus, spec_bits210, spec_bits543,
    spec_bits76, spec_join64, spec_le16, spec_le32, wrap, wrapping_address,
};

verus! {

/// Longest instruction the architecture allows, in bytes.
pub const MAX_INSTRUCTION_LENGTH: usize = 15;

/// Flags that the prefixes and handlers of one instruction raise.
#[derive(Clone, Copy, Debug, PartialEq, Eq, Structural)]
pub struct StateFlags {
    /// The memory operand is relative to RIP.
    pub ip_rel64: bool,
    /// The memory operand is relative to EIP.
    pub ip_rel32: bool,
    /// A REX prefix is in effect.
    pub has_rex: bool,
    /// The W bit of REX, VEX or XOP is set.
    pub w: bool,
    /// The encoding is not a legal instruction.
    pub is_invalid: bool,
    /// The immediate operand takes no bytes of the instruction.
    pub no_imm: bool,
    /// The memory operand is a 64-bit absolute address.
    pub addr64: bool,
    /// The branch has an 8-bit displacement.
    pub branch_imm8: bool,
    /// The branch is that of `XBEGIN`.
    pub xbegin: bool,
    /// A `LOCK` prefix was read.
    pub lock: bool,
    /// The instruction accepts a `LOCK` prefix.
    pub allow_lock: bool,
    /// The input ended inside the instruction.
    pub no_more_bytes: bool,
    /// An operand-size prefix was read.
    pub has66: bool,
}

impl StateFlags {
    /// No flag raised.
    pub open spec fn spec_new() -> StateFlags {
        StateFlags {
            ip_rel64: false,
            ip_rel32: false,
            has_rex: false,
            w: false,
            is_invalid: false,
            no_imm: false,
            addr64: false,
            branch_imm8: false,
            xbegin: false,
            lock: false,
            allow_lock: false,
            no_more_bytes: false,
            has66: false,
        }
    }

    /// No flag raised.
    #[verifier::when_used_as_spec(spec_new)]
    pub fn new() -> (f: StateFlags)
        ensures
            f == Self::spec_new(),
    {
        StateFlags {
            ip_rel64: false,
            ip_rel32: false,
            has_rex: false,
            w: false,
            is_invalid: false,
            no_imm: false,
            addr64: false,
            branch_imm8: false,
            xbegin: false,
            lock: false,
            allow_lock: false,
            no_more_bytes: false,
            has66: false,
        }
    }
}

/// Context of the instruction that is being decoded.
#[derive(Clone, Copy, Debug, PartialEq, Eq, Structural)]
pub struct State {
    /// The ModRM byte, or the byte that was read in its place.
    pub modrm: u32,
    /// Bits 7 and 6 of the ModRM byte; 3 selects the register form.
    pub mod_: u32,
    /// Bits 5 to 3 of the ModRM byte.
    pub reg: u32,
    /// Bits 2 to 0 of the ModRM byte.
    pub rm: u32,
    /// Added to `reg` for the full register number: 0 or 8.
    pub extra_register_base: u32,
    /// Added to the index field of a SIB byte: 0 or 8.
    pub extra_index_register_base: u32,
    /// Added to `rm` or to the base field of a SIB byte: 0 or 8.
    pub extra_base_register_base: u32,
    /// Register that a VEX or XOP prefix selects: 0 to 15.
    pub vvvv: u32,
    pub mandatory_prefix: MandatoryPrefixByte,
    pub vector_length: VectorLength,
    pub operand_size: OpSize,
    pub address_size: OpSize,
    pub encoding: EncodingKind,
    pub flags: StateFlags,
}

impl State {
    /// The fields are within the ranges their encodings allow, and an
    /// instruction that is short of bytes is flagged invalid.
    pub open spec fn wf(&self) -> bool {
        &&& self.modrm <= 0xFF
        &&& self.mod_ <= 3
        &&& self.reg <= 7
        &&& self.rm <= 7
        &&& (self.extra_register_base == 0 || self.extra_register_base == 8)
        &&& (self.extra_index_register_base == 0 || self.extra_index_register_base == 8)
        &&& (self.extra_base_register_base == 0 || self.extra_base_register_base == 8)
        &&& self.vvvv <= 15
        &&& (self.flags.no_more_bytes ==> self.flags.is_invalid)
    }

    /// The state before the first byte of an instruction is read.
    pub open spec fn spec_new(operand_size: OpSize, address_size: OpSize) -> State {
        State {
            modrm: 0,
            mod_: 0,
            reg: 0,
            rm: 0,
            extra_register_base: 0,
            extra_index_register_base: 0,
            extra_base_register_base: 0,
            vvvv: 0,
            mandatory_prefix: MandatoryPrefixByte::PNone,
            vector_length: VectorLength::L128,
            operand_size,
            address_size,
            encoding: EncodingKind::Legacy,
            flags: StateFlags::spec_new(),
        }
    }

    /// The state before the first byte of an instruction is read.
    #[verifier::when_used_as_spec(spec_new)]
    pub fn new(operand_size: OpSize, address_size: OpSize) -> (s: State)
        ensures
            s == Self::spec_new(operand_size, address_size),
            s.wf(),
    {
        State {
            modrm: 0,
            mod_: 0,
            reg: 0,
            rm: 0,
            extra_register_base: 0,
            extra_index_register_base: 0,
            extra_base_register_base: 0,
            vvvv: 0,
            mandatory_prefix: MandatoryPrefixByte::PNone,
            vector_length: VectorLength::L128,
            operand_size,
            address_size,
            encoding: EncodingKind::Legacy,
            flags: StateFlags::new(),
        }
    }
}

impl State {
    /// Register that the reg field selects in the class that starts at `base`.
    pub open spec fn spec_reg_register(&self, base: u32) -> u32 {
        (self.reg + self.extra_register_base + base) as u32
    }

    /// Register that the reg field selects in the class that starts at `base`.
    #[verifier::when_used_as_spec(spec_reg_register)]
    pub fn reg_register(&self, base: u32) -> (r: u32)
        requires
            self.wf(),
            base < register::COUNT,
        ensures
            r == self.spec_reg_register(base),
            r == self.reg + self.extra_register_base + base,
    {
        self.reg + self.extra_register_base + base
    }

    /// Register that the rm field selects in the class that starts at `base`.
    pub open spec fn spec_rm_register(&self, base: u32) -> u32 {
        (self.rm + self.extra_base_register_base + base) as u32
    }

    /// Register that the rm field selects in the class that starts at `base`.
    #[verifier::when_used_as_spec(spec_rm_register)]
    pub fn rm_register(&self, base: u32) -> (r: u32)
        requires
            self.wf(),
            base < register::COUNT,
        ensures
            r == self.spec_rm_register(base),
            r == self.rm + self.extra_base_register_base + base,
    {
        self.rm + self.extra_base_register_base + base
    }

    /// Register that the vvvv field selects in the class that starts at `base`.
    pub open spec fn spec_vvvv_register(&self, base: u32) -> u32 {
        (self.vvvv + base) as u32
    }

    /// Register that the vvvv field selects in the class that starts at `base`.
    #[verifier::when_used_as_spec(spec_vvvv_register)]
    pub fn vvvv_register(&self, base: u32) -> (r: u32)
        requires
            self.wf(),
            base < register::COUNT,
        ensures
            r == self.spec_vvvv_register(base),
            r == self.vvvv + base,
    {
        self.vvvv + base
    }

    /// The 8-bit register that the reg field selects.
    pub open spec fn spec_reg_byte_register(&self) -> u32 {
        register::spec_byte_register(
            (self.reg + self.extra_register_base) as u32,
            self.flags.has_rex,
        )
    }

    /// The 8-bit register that the reg field selects.
    #[verifier::when_used_as_spec(spec_reg_byte_register)]
    pub fn reg_byte_register(&self) -> (r: u32)
        requires
            self.wf(),
        ensures
            r == self.spec_reg_byte_register(),
    {
        register::byte_register(self.reg + self.extra_register_base, self.flags.has_rex)
    }

    /// The 8-bit register that the rm field selects.
    pub open spec fn spec_rm_byte_register(&self) -> u32 {
        register::spec_byte_register(
            (self.rm + self.extra_base_register_base) as u32,
            self.flags.has_rex,
        )
    }

    /// The 8-bit register that the rm field selects.
    #[verifier::when_used_as_spec(spec_rm_byte_register)]
    pub fn rm_byte_register(&self) -> (r: u32)
        requires
            self.wf(),
        ensures
            r == self.spec_rm_byte_register(),
    {
        register::byte_register(self.rm + self.extra_base_register_base, self.flags.has_rex)
    }

    /// Number of the register that the reg field selects.
    pub open spec fn spec_reg_index(&self) -> u32 {
        (self.reg + self.extra_register_base) as u32
    }

    /// Number of the register that the reg field selects.
    #[verifier::when_used_as_spec(spec_reg_index)]
    pub fn reg_index(&self) -> (r: u32)
        requires
            self.wf(),
        ensures
            r == self.spec_reg_index(),
    {
        self.reg + self.extra_register_base
    }

    /// Number of the register that an opcode's low bits `index` select.
    pub open spec fn spec_opcode_index(&self, index: u32) -> u32 {
        (index + self.extra_base_register_base) as u32
    }

    /// Number of the register that an opcode's low bits `index` select.
    #[verifier::when_used_as_spec(spec_opcode_index)]
    pub fn opcode_index(&self, index: u32) -> (r: u32)
        requires
            self.wf(),
            index <= 7,
        ensures
            r == self.spec_opcode_index(index),
    {
        index + self.extra_base_register_base
    }

    /// Register that an opcode's low bits `index` select in the class that
    /// starts at `base`.
    pub open spec fn spec_opcode_register(&self, index: u32, base: u32) -> u32 {
        (index + self.extra_base_register_base + base) as u32
    }

    /// Register that an opcode's low bits `index` select in the class that
    /// starts at `base`.
    #[verifier::when_used_as_spec(spec_opcode_register)]
    pub fn opcode_register(&self, index: u32, base: u32) -> (r: u32)
        requires
            self.wf(),
            index <= 7,
            base < register::COUNT,
        ensures
            r == self.spec_opcode_register(index, base),
    {
        index + self.extra_base_register_base + base
    }

    /// The 8-bit register that an opcode's low bits `index` select.
    pub open spec fn spec_opcode_byte_register(&self, index: u32) -> u32 {
        if self.flags.has_rex {
            register::spec_byte_register((index + self.extra_base_register_base) as u32, true)
        } else {
            register::spec_byte_register(index, false)
        }
    }

    /// The 8-bit register that an opcode's low bits `index` select.
    #[verifier::when_used_as_spec(spec_opcode_byte_register)]
    pub fn opcode_byte_register(&self, index: u32) -> (r: u32)
        requires
            self.wf(),
            index <= 7,
        ensures
            r == self.spec_opcode_byte_register(index),
    {
        if self.flags.has_rex {
            register::byte_register(index + self.extra_base_register_base, true)
        } else {
            register::byte_register(index, false)
        }
    }
}

/// A decoder: the input, the position in it, the processor mode and the
/// state of the instruction in progress.
pub struct Decoder {
    /// The bytes to decode.
    pub data: Vec<u8>,
    /// Index in `data` of the next byte to read.
    pub position: usize,
    /// Index in `data` of the first byte of the current instruction.
    pub instr_start: usize,
    /// Index in `data` past the last byte the current instruction may read.
    pub max_position: usize,
    /// Index in `data` of the displacement that was read last.
    pub displ_index: usize,
    /// Address of the first byte of the current instruction.
    pub ip: u64,
    /// Bit set of [`DecoderOptions`].
    pub options: u32,
    /// Whether reserved and undefined encodings are flagged invalid.
    pub invalid_check: bool,
    pub is64_mode: bool,
    pub default_code_size: CodeSize,
    pub default_operand_size: OpSize,
    pub default_address_size: OpSize,
    pub state: State,
}

/// What no step of decoding one instruction changes: the input, the
/// bounds and the address of the instruction, and the mode and options of
/// the decoder.
pub struct Frame {
    pub data: Vec<u8>,
    pub instr_start: usize,
    pub max_position: usize,
    pub ip: u64,
    pub options: u32,
    pub invalid_check: bool,
    pub is64_mode: bool,
    pub default_code_size: CodeSize,
    pub default_operand_size: OpSize,
    pub default_address_size: OpSize,
}

impl Decoder {
    /// The part of the decoder that decoding one instruction leaves alone.
    pub open spec fn frame(&self) -> Frame {
        Frame {
            data: self.data,
            instr_start: self.instr_start,
            max_position: self.max_position,
            ip: self.ip,
            options: self.options,
            invalid_check: self.invalid_check,
            is64_mode: self.is64_mode,
            default_code_size: self.default_code_size,
            default_operand_size: self.default_operand_size,
            default_address_size: self.default_address_size,
        }
    }

    /// The cursor lies inside the input, the instruction in progress is at
    /// most fifteen bytes long, the state is within range, a 64-bit address
    /// or operand size occurs in 64-bit mode only, and invalid encodings are
    /// checked for unless the options say otherwise.
    pub open spec fn wf(&self) -> bool {
        &&& self.instr_start <= self.position
        &&& self.position <= self.max_position
        &&& self.max_position <= self.data@.len()
        &&& self.max_position - self.instr_start <= MAX_INSTRUCTION_LENGTH
        &&& self.state.wf()
        &&& (self.state.address_size == OpSize::Size64 ==> self.is64_mode)
        &&& (self.state.operand_size == OpSize::Size64 ==> self.is64_mode)
        &&& self.invalid_check == !has_flag(self.options, DecoderOptions::NO_INVALID_CHECK)
        &&& self.mode_ok()
    }

    /// The default sizes are those of the mode: in 64-bit mode operands of
    /// 32 bits and addresses of 64, elsewhere both of 16 bits or both of 32.
    pub open spec fn mode_ok(&self) -> bool {
        if self.is64_mode {
            &&& self.default_code_size == CodeSize::Code64
            &&& self.default_operand_size == OpSize::Size32
            &&& self.default_address_size == OpSize::Size64
        } else if self.default_code_size == CodeSize::Code32 {
            &&& self.default_operand_size == OpSize::Size32
            &&& self.default_address_size == OpSize::Size32
        } else {
            &&& self.default_code_size == CodeSize::Code16
            &&& self.default_operand_size == OpSize::Size16
            &&& self.default_address_size == OpSize::Size16
        }
    }

    /// Whether the decoder was made for 64-bit code and the W bit is set.
    pub open spec fn spec_is64_mode_and_w(&self) -> bool {
        self.is64_mode && self.state.flags.w
    }

    /// Whether the decoder was made for 64-bit code and the W bit is set.
    #[verifier::when_used_as_spec(spec_is64_mode_and_w)]
    pub fn is64_mode_and_w(&self) -> (b: bool)
        ensures
            b == self.spec_is64_mode_and_w(),
    {
        self.is64_mode && self.state.flags.w
    }

    /// The decoder with the flags of its state replaced.
    pub open spec fn with_flags(self, flags: StateFlags) -> Decoder {
        Decoder { state: State { flags, ..self.state }, ..self }
    }

    /// The decoder with its instruction flagged invalid.
    #[verifier::opaque]
    pub open spec fn invalidated(self) -> Decoder {
        self.with_flags(StateFlags { is_invalid: true, ..self.state.flags })
    }

    /// The decoder with its instruction flagged invalid if `condition` holds.
    pub open spec fn invalidated_if(self, condition: bool) -> Decoder {
        if condition {
            self.invalidated()
        } else {
            self
        }
    }

    /// Flags the instruction invalid.  Decoding goes on, so that the length
    /// of the instruction is still found.
    pub fn set_invalid_instruction(&mut self)
        requires
            old(self).wf(),
        ensures
            *final(self) == old(self).invalidated(),
            final(self).wf(),
            final(self).frame() == old(self).frame(),
            final(self).state.encoding == old(self).state.encoding,
    {
        reveal(Decoder::invalidated);
        self.state = State {
            flags: StateFlags { is_invalid: true, ..self.state.flags },
            ..self.state
        };
    }

    /// Flags the instruction invalid if `condition` holds.
    pub fn set_invalid_instruction_if(&mut self, condition: bool)
        requires
            old(self).wf(),
        ensures
            *final(self) == old(self).invalidated_if(condition),
            final(self).wf(),
            final(self).frame() == old(self).frame(),
            final(self).state.encoding == old(self).state.encoding,
    {
        if condition {
            self.set_invalid_instruction();
        }
    }

    /// The decoder whose immediate operand takes no bytes.
    #[verifier::opaque]
    pub open spec fn with_no_imm(self) -> Decoder {
        self.with_flags(StateFlags { no_imm: true, ..self.state.flags })
    }

    /// Records that the immediate operand takes no bytes of the instruction.
    pub fn set_no_imm(&mut self)
        requires
            old(self).wf(),
        ensures
            *final(self) == old(self).with_no_imm(),
            final(self).wf(),
            final(self).frame() == old(self).frame(),
    {
        reveal(Decoder::with_no_imm);
        self.state = State {
            flags: StateFlags { no_imm: true, ..self.state.flags },
            ..self.state
        };
    }

    /// The decoder whose branch has an 8-bit displacement.
    #[verifier::opaque]
    pub open spec fn with_branch_imm8(self) -> Decoder {
        self.with_flags(StateFlags { branch_imm8: true, ..self.state.flags })
    }

    /// Records that the branch has an 8-bit displacement.
    pub fn set_branch_imm8(&mut self)
        requires
            old(self).wf(),
        ensures
            *final(self) == old(self).with_branch_imm8(),
            final(self).wf(),
            final(self).frame() == old(self).frame(),
    {
        reveal(Decoder::with_branch_imm8);
        self.state = State {
            flags: StateFlags { branch_imm8: true, ..self.state.flags },
            ..self.state
        };
    }

    /// The decoder whose branch is that of `XBEGIN`.
    #[verifier::opaque]
    pub open spec fn with_xbegin(self) -> Decoder {
        self.with_flags(StateFlags { xbegin: true, ..self.state.flags })
    }

    /// Records that the branch is that of `XBEGIN`.
    pub fn set_xbegin(&mut self)
        requires
            old(self).wf(),
        ensures
            *final(self) == old(self).with_xbegin(),
            final(self).wf(),
            final(self).frame() == old(self).frame(),
    {
        reveal(Decoder::with_xbegin);
        self.state = State {
            flags: StateFlags { xbegin: true, ..self.state.flags },
            ..self.state
        };
    }

    /// The decoder whose memory operand is a 64-bit absolute address.
    #[verifier::opaque]
    pub open spec fn with_addr64(self) -> Decoder {
        self.with_flags(StateFlags { addr64: true, ..self.state.flags })
    }

    /// Records that the memory operand is a 64-bit absolute address.
    pub fn set_addr64(&mut self)
        requires
            old(self).wf(),
        ensures
            *final(self) == old(self).with_addr64(),
            final(self).wf(),
            final(self).frame() == old(self).frame(),
    {
        reveal(Decoder::with_addr64);
        self.state = State {
            flags: StateFlags { addr64: true, ..self.state.flags },
            ..self.state
        };
    }

    /// The decoder whose instruction accepts a `LOCK` prefix.
    #[verifier::opaque]
    pub open spec fn with_allow_lock(self) -> Decoder {
        self.with_flags(StateFlags { allow_lock: true, ..self.state.flags })
    }

    /// Records that the instruction accepts a `LOCK` prefix.
    pub fn set_allow_lock(&mut self)
        requires
            old(self).wf(),
        ensures
            *final(self) == old(self).with_allow_lock(),
            final(self).wf(),
            final(self).frame() == old(self).frame(),
    {
        reveal(Decoder::with_allow_lock);
        self.state = State {
            flags: StateFlags { allow_lock: true, ..self.state.flags },
            ..self.state
        };
    }

    /// The decoder that has forgotten the `LOCK` prefix it read.
    #[verifier::opaque]
    pub open spec fn without_lock(self) -> Decoder {
        self.with_flags(StateFlags { lock: false, ..self.state.flags })
    }

    /// Forgets the `LOCK` prefix that was read.
    pub fn clear_lock(&mut self)
        requires
            old(self).wf(),
        ensures
            *final(self) == old(self).without_lock(),
            final(self).wf(),
            final(self).frame() == old(self).frame(),
    {
        reveal(Decoder::without_lock);
        self.state = State {
            flags: StateFlags { lock: false, ..self.state.flags },
            ..self.state
        };
    }

    /// Whether `count` more bytes belong to the input and to the instruction.
    pub open spec fn can_read(&self, count: int) -> bool {
        self.position + count <= self.max_position
    }

    /// The byte `offset` places after the cursor.
    pub open spec fn byte_at(&self, offset: int) -> u8 {
        self.data@[self.position + offset]
    }

    /// The decoder after an attempt to read `count` bytes: the cursor has
    /// moved past them, or, if they are not there, stays and the instruction
    /// is flagged invalid for want of bytes.
    #[verifier::opaque]
    pub open spec fn after_read(self, count: int) -> Decoder {
        if self.can_read(count) {
            Decoder { position: (self.position + count) as usize, ..self }
        } else {
            self.with_flags(
                StateFlags { is_invalid: true, no_more_bytes: true, ..self.state.flags },
            )
        }
    }

    /// The byte at the cursor, or 0 if there is none.
    #[verifier::opaque]
    pub open spec fn peek_u8(&self) -> u32 {
        if self.can_read(1) {
            self.byte_at(0) as u32
        } else {
            0
        }
    }

    /// The little-endian 16-bit value at the cursor, or 0 if it is not there.
    #[verifier::opaque]
    pub open spec fn peek_u16(&self) -> u32 {
        if self.can_read(2) {
            spec_le16(self.byte_at(0), self.byte_at(1))
        } else {
            0
        }
    }

    /// The little-endian 32-bit value at the cursor, or 0 if it is not there.
    #[verifier::opaque]
    pub open spec fn peek_u32(&self) -> u32 {
        if self.can_read(4) {
            spec_le32(self.byte_at(0), self.byte_at(1), self.byte_at(2), self.byte_at(3))
        } else {
            0
        }
    }

    /// The little-endian 64-bit value at the cursor, or 0 if it is not there.
    #[verifier::opaque]
    pub open spec fn peek_u64(&self) -> u64 {
        if self.can_read(8) {
            spec_join64(self.peek_u32(), self.after_read(4).peek_u32())
        } else {
            0
        }
    }

    /// Records that the input ended inside the instruction.
    fn set_no_more_bytes(&mut self)
        ensures
            *final(self) == old(self).with_flags(
                StateFlags { is_invalid: true, no_more_bytes: true, ..old(self).state.flags },
            ),
    {
        self.state = State {
            flags: StateFlags { is_invalid: true, no_more_bytes: true, ..self.state.flags },
            ..self.state
        };
    }

    /// Reads one byte.
    pub fn read_u8(&mut self) -> (value: u32)
        requires
            old(self).wf(),
        ensures
            value == old(self).peek_u8(),
            value <= 0xFF,
            *final(self) == old(self).after_read(1),
            final(self).wf(),
            final(self).frame() == old(self).frame(),
            final(self).state.encoding == old(self).state.encoding,
    {
        reveal(Decoder::after_read);
        reveal(Decoder::peek_u8);
        if self.position < self.max_position {
            let b: u8 = self.data[self.position];
            self.position = self.position + 1;
            b as u32
        } else {
            self.set_no_more_bytes();
            0
        }
    }

    /// Reads a little-endian 16-bit value.
    pub fn read_u16(&mut self) -> (value: u32)
        requires
            old(self).wf(),
        ensures
            value == old(self).peek_u16(),
            value <= 0xFFFF,
            *final(self) == old(self).after_read(2),
            final(self).wf(),
            final(self).frame() == old(self).frame(),
    {
        reveal(Decoder::after_read);
        reveal(Decoder::peek_u16);
        if self.max_position - self.position >= 2 {
            let p: usize = self.position;
            let value: u32 = le16(self.data[p], self.data[p + 1]);
            self.position = p + 2;
            value
        } else {
            self.set_no_more_bytes();
            0
        }
    }

    /// Reads a little-endian 32-bit value.
    pub fn read_u32(&mut self) -> (value: u32)
        requires
            old(self).wf(),
        ensures
            value == old(self).peek_u32(),
            *final(self) == old(self).after_read(4),
            final(self).wf(),
            final(self).frame() == old(self).frame(),
    {
        reveal(Decoder::after_read);
        reveal(Decoder::peek_u32);
        if self.max_position - self.position >= 4 {
            let p: usize = self.position;
            let value: u32 = le32(self.data[p], self.data[p + 1], self.data[p + 2], self.data[p + 3]);
            self.position = p + 4;
            value
        } else {
            self.set_no_more_bytes();
            0
        }
    }

    /// Reads a little-endian 64-bit value.
    pub fn read_u64(&mut self) -> (value: u64)
        requires
            old(self).wf(),
        ensures
            value == old(self).peek_u64(),
            *final(self) == old(self).after_read(8),
            final(self).wf(),
            final(self).frame() == old(self).frame(),
    {
        if self.max_position - self.position >= 8 {
            let low: u32 = self.read_u32();
            let high: u32 = self.read_u32();
            proof {
                reveal(Decoder::after_read);
                reveal(Decoder::peek_u64);
            }
            join64(low, high)
        } else {
            proof {
                reveal(Decoder::after_read);
                reveal(Decoder::peek_u64);
            }
            self.set_no_more_bytes();
            0
        }
    }

    /// The decoder with the fields of the ModRM byte `m` in its state.
    #[verifier::opaque]
    pub open spec fn with_modrm(self, m: u32) -> Decoder {
        Decoder {
            state: State {
                modrm: m,
                mod_: spec_bits76(m),
                reg: spec_bits543(m),
                rm: spec_bits210(m),
                ..self.state
            },
            ..self
        }
    }

    /// The decoder after it has read a ModRM byte.
    pub open spec fn after_read_modrm(self) -> Decoder {
        self.after_read(1).with_modrm(self.peek_u8())
    }

    /// Reads the ModRM byte and splits it into its three fields.
    pub fn read_modrm(&mut self)
        requires
            old(self).wf(),
        ensures
            *final(self) == old(self).after_read_modrm(),
            final(self).wf(),
            final(self).frame() == old(self).frame(),
            final(self).state.encoding == old(self).state.encoding,
    {
        reveal(Decoder::with_modrm);
        let m: u32 = self.read_u8();
        self.state = State {
            modrm: m,
            mod_: bits76(m),
            reg: bits543(m),
            rm: bits210(m),
            ..self.state
        };
    }

    /// Address of the next byte to read, not yet wrapped to any width.
    pub open spec fn spec_current_ip(&self) -> int {
        self.ip + (self.position - self.instr_start)
    }

    /// Target of a near branch of width `size` whose displacement has just
    /// been read: the displacement plus the address of the byte that follows
    /// it, wrapped to the width.
    #[verifier::opaque]
    pub open spec fn spec_branch_target(&self, displacement: int, size: OpSize) -> u64 {
        wrap(self.spec_current_ip() + displacement, size)
    }

    /// Target of a near branch of width `size` whose displacement has just
    /// been read.  A target that overflows the width wraps.
    pub fn branch_target(&self, displacement: i64, size: OpSize) -> (target: u64)
        requires
            self.wf(),
            -0x8000_0000 <= displacement < 0x1_0000_0000,
        ensures
            target == self.spec_branch_target(displacement as int, size),
            target < modulus(size),
    {
        reveal(Decoder::spec_branch_target);
        let offset: u64 = (self.position - self.instr_start) as u64;
        wrapping_address(self.ip, offset, displacement, size)
    }

    /// The segment register that the reg field selects, or no register if
    /// the field selects none.
    pub open spec fn spec_seg_register(reg: u32) -> u32 {
        if reg < 6 {
            (register::ES + reg) as u32
        } else {
            register::NONE
        }
    }

    /// Decoder after the reg field has been read as a segment register: the
    /// fields 6 and 7 select none and make the instruction invalid.
    pub open spec fn spec_read_op_seg_reg(self) -> Decoder {
        self.invalidated_if(self.state.reg >= 6)
    }

    /// Reads the reg field as a segment register.
    pub fn read_op_seg_reg(&mut self) -> (r: u32)
        requires
            old(self).wf(),
        ensures
            r == Self::spec_seg_register(old(self).state.reg),
            *final(self) == old(self).spec_read_op_seg_reg(),
            final(self).wf(),
            final(self).frame() == old(self).frame(),
    {
        let reg: u32 = self.state.reg;
        if reg < 6 {
            register::ES + reg
        } else {
            self.set_invalid_instruction();
            register::NONE
        }
    }

    /// Removes the mandatory prefix, whichever it is, from the record's
    /// visible prefixes.
    pub fn clear_mandatory_prefix(&self, instruction: &mut Instruction)
        ensures
            *final(instruction) == old(instruction).without_repe_repne_prefix(),
    {
        instruction.clear_has_repe_repne_prefix();
    }

    /// Removes a mandatory `F3` from the record's visible prefixes.
    pub fn clear_mandatory_prefix_f3(&self, instruction: &mut Instruction)
        ensures
            *final(instruction) == old(instruction).without_repe_prefix(),
    {
        instruction.clear_has_repe_prefix();
    }

    /// Removes a mandatory `F2` from the record's visible prefixes.
    pub fn clear_mandatory_prefix_f2(&self, instruction: &mut Instruction)
        ensures
            *final(instruction) == old(instruction).without_repne_prefix(),
    {
        instruction.clear_has_repne_prefix();
    }

    /// The record after `F2` or `F3` has been read as XACQUIRE or XRELEASE.
    ///
    /// That reading needs a `LOCK` prefix, unless the handler says that it
    /// does not, and a handler that accepts the prefix in question.
    pub open spec fn spec_xacquire_xrelease(
        prefix: MandatoryPrefixByte,
        i: Instruction,
        flags: u32,
    ) -> Instruction {
        if i.has_lock_prefix || has_flag(flags, HandlerFlags::XACQUIRE_XRELEASE_NO_LOCK) {
            if prefix == MandatoryPrefixByte::PF2 && has_flag(flags, HandlerFlags::XACQUIRE) {
                i.without_repne_prefix().with_xacquire_prefix()
            } else if prefix == MandatoryPrefixByte::PF3 && has_flag(
                flags,
                HandlerFlags::XRELEASE,
            ) {
                i.without_repe_prefix().with_xrelease_prefix()
            } else {
                i
            }
        } else {
            i
        }
    }

    /// Reads the mandatory prefix `prefix` as XACQUIRE or XRELEASE where the
    /// handler's flags and the prefixes of the instruction allow it.
    pub fn xacquire_xrelease(prefix: MandatoryPrefixByte, instruction: &mut Instruction, flags: u32)
        ensures
            *final(instruction) == Self::spec_xacquire_xrelease(prefix, *old(instruction), flags),
    {
        if instruction.has_lock_prefix || has_flag(flags, HandlerFlags::XACQUIRE_XRELEASE_NO_LOCK) {
            if prefix == MandatoryPrefixByte::PF2 && has_flag(flags, HandlerFlags::XACQUIRE) {
                instruction.clear_has_repne_prefix();
                instruction.set_has_xacquire_prefix();
            } else if prefix == MandatoryPrefixByte::PF3 && has_flag(
                flags,
                HandlerFlags::XRELEASE,
            ) {
                instruction.clear_has_repe_prefix();
                instruction.set_has_xrelease_prefix();
            }
        }
    }

    /// Reads `F2` or `F3` as XACQUIRE or XRELEASE where the handler's flags
    /// and the prefixes of the instruction allow it.
    pub fn set_xacquire_xrelease(&self, instruction: &mut Instruction, flags: u32)
        ensures
            *final(instruction) == Self::spec_xacquire_xrelease(
                self.state.mandatory_prefix,
                *old(instruction),
                flags,
            ),
    {
        Self::xacquire_xrelease(self.state.mandatory_prefix, instruction, flags);
    }
}

} // verus!
