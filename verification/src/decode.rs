//! Decoding one instruction: prefixes, opcode, handlers, and the record's
//! last fields.
use vstd::prelude::*;
use crate::decoder::{Decoder, State, StateFlags, MAX_INSTRUCTION_LENGTH};
use crate::enums::{CodeSize, EncodingKind, MandatoryPrefixByte, OpSize};
use crate::instruction::Instruction;
use crate::operand::Decoded;
use crate::options::{has_flag, DecoderOptions};
use crate::register;
use crate::tables::HandlerTables;

verus! {

/// How the last instruction ended.
#[derive(Clone, Copy, Debug, PartialEq, Eq, Structural)]
pub enum DecoderError {
    /// The bytes are an instruction.
    NoError,
    /// The bytes are no instruction.
    InvalidInstruction,
    /// The input ended inside the instruction.
    NoMoreBytes,
}

/// Whether `b` is a prefix byte.  The REX prefixes `40` to `4F` are
/// prefixes in 64-bit mode only.
pub open spec fn spec_is_prefix(b: u32, is64_mode: bool) -> bool {
    b == 0x26 || b == 0x2E || b == 0x36 || b == 0x3E || b == 0x64 || b == 0x65 || b == 0x66 || b
        == 0x67 || b == 0xF0 || b == 0xF2 || b == 0xF3 || (is64_mode && 0x40 <= b <= 0x4F)
}

/// Whether `b` is a prefix byte.
#[verifier::when_used_as_spec(spec_is_prefix)]
pub fn is_prefix(b: u32, is64_mode: bool) -> (r: bool)
    ensures
        r == spec_is_prefix(b, is64_mode),
{
    b == 0x26 || b == 0x2E || b == 0x36 || b == 0x3E || b == 0x64 || b == 0x65 || b == 0x66 || b
        == 0x67 || b == 0xF0 || b == 0xF2 || b == 0xF3 || (is64_mode && 0x40 <= b && b <= 0x4F)
}

/// The other of the two operand sizes 16 and 32 bits.
pub open spec fn spec_inverted_size(size: OpSize) -> OpSize {
    if size == OpSize::Size16 {
        OpSize::Size32
    } else {
        OpSize::Size16
    }
}

/// The other of the two operand sizes 16 and 32 bits.
#[verifier::when_used_as_spec(spec_inverted_size)]
pub fn inverted_size(size: OpSize) -> (r: OpSize)
    ensures
        r == spec_inverted_size(size),
{
    if size == OpSize::Size16 {
        OpSize::Size32
    } else {
        OpSize::Size16
    }
}

/// The address size that an address-size prefix selects: 32 bits in 64-bit
/// mode, else the other of 16 and 32 bits.
pub open spec fn spec_inverted_address_size(size: OpSize) -> OpSize {
    if size == OpSize::Size32 {
        OpSize::Size16
    } else {
        OpSize::Size32
    }
}

/// The address size that an address-size prefix selects.
#[verifier::when_used_as_spec(spec_inverted_address_size)]
pub fn inverted_address_size(size: OpSize) -> (r: OpSize)
    ensures
        r == spec_inverted_address_size(size),
{
    if size == OpSize::Size32 {
        OpSize::Size16
    } else {
        OpSize::Size32
    }
}

/// The segment register that a segment prefix names.
pub open spec fn spec_prefix_segment(b: u32) -> u32 {
    if b == 0x26 {
        register::ES
    } else if b == 0x2E {
        register::CS
    } else if b == 0x36 {
        register::SS
    } else if b == 0x3E {
        register::DS
    } else if b == 0x64 {
        register::FS
    } else {
        register::GS
    }
}

/// The segment register that a segment prefix names.
#[verifier::when_used_as_spec(spec_prefix_segment)]
pub fn prefix_segment(b: u32) -> (r: u32)
    ensures
        r == spec_prefix_segment(b),
{
    if b == 0x26 {
        register::ES
    } else if b == 0x2E {
        register::CS
    } else if b == 0x36 {
        register::SS
    } else if b == 0x3E {
        register::DS
    } else if b == 0x64 {
        register::FS
    } else {
        register::GS
    }
}

/// What the prefix scan found: the decoder and the record after the
/// prefixes, the REX prefix in effect, or 0, and the opcode byte.
pub struct Prefixed {
    pub decoder: Decoder,
    pub instruction: Instruction,
    pub rex: u32,
    pub opcode: u32,
}

impl Instruction {
    /// The record after the prefix byte `b`.
    ///
    /// A segment prefix becomes the segment override; in 64-bit mode the
    /// four old segments do not replace `FS` or `GS`.  `F0`, `F2` and `F3` are
    /// noted as `LOCK`, `REPNE` and `REPE`.
    #[verifier::opaque]
    pub open spec fn with_prefix(self, b: u32, is64_mode: bool) -> Instruction {
        if b == 0x26 || b == 0x2E || b == 0x36 || b == 0x3E {
            if !is64_mode || (self.segment_prefix != register::FS && self.segment_prefix
                != register::GS) {
                Instruction { segment_prefix: spec_prefix_segment(b), ..self }
            } else {
                self
            }
        } else if b == 0x64 || b == 0x65 {
            Instruction { segment_prefix: spec_prefix_segment(b), ..self }
        } else if b == 0xF0 {
            Instruction { has_lock_prefix: true, ..self }
        } else if b == 0xF2 {
            Instruction { has_repne_prefix: true, ..self }
        } else if b == 0xF3 {
            Instruction { has_repe_prefix: true, ..self }
        } else {
            self
        }
    }

    /// Notes the prefix byte `b` in the record.
    pub fn set_prefix(&mut self, b: u32, is64_mode: bool)
        ensures
            *final(self) == old(self).with_prefix(b, is64_mode),
    {
        reveal(Instruction::with_prefix);
        if b == 0x26 || b == 0x2E || b == 0x36 || b == 0x3E {
            if !is64_mode || (self.segment_prefix != register::FS && self.segment_prefix
                != register::GS) {
                self.segment_prefix = prefix_segment(b);
            }
        } else if b == 0x64 || b == 0x65 {
            self.segment_prefix = prefix_segment(b);
        } else if b == 0xF0 {
            self.has_lock_prefix = true;
        } else if b == 0xF2 {
            self.has_repne_prefix = true;
        } else if b == 0xF3 {
            self.has_repe_prefix = true;
        }
    }

    /// The record of an instruction that is complete: its length, the
    /// address that follows it and the size of its code are filled in, and a
    /// memory operand relative to the instruction pointer has that address
    /// added to its displacement, modulo two to the 32.
    #[verifier::opaque]
    pub open spec fn completed(
        self,
        len: u32,
        next_ip: u64,
        code_size: CodeSize,
        ip_rel: bool,
    ) -> Instruction {
        Instruction {
            len,
            next_ip,
            code_size,
            memory_displacement: if ip_rel {
                ((self.memory_displacement + next_ip % 0x1_0000_0000) % 0x1_0000_0000) as u32
            } else {
                self.memory_displacement
            },
            ..self
        }
    }

    /// Fills in the last fields of a record.
    pub fn complete(&mut self, len: u32, next_ip: u64, code_size: CodeSize, ip_rel: bool)
        ensures
            *final(self) == old(self).completed(len, next_ip, code_size, ip_rel),
    {
        reveal(Instruction::completed);
        let displacement: u32 = if ip_rel {
            ((self.memory_displacement as u64 + next_ip % 0x1_0000_0000) % 0x1_0000_0000) as u32
        } else {
            self.memory_displacement
        };
        *self = Instruction {
            len,
            next_ip,
            code_size,
            memory_displacement: displacement,
            ..*self
        };
    }
}

impl Decoder {
    /// Size of the code that a decoder for `bitness` bits decodes.
    pub open spec fn spec_code_size(bitness: u32) -> CodeSize {
        if bitness == 64 {
            CodeSize::Code64
        } else if bitness == 32 {
            CodeSize::Code32
        } else {
            CodeSize::Code16
        }
    }

    /// Operand size of code of `bitness` bits where no prefix changes it:
    /// 16 bits in 16-bit code, else 32.
    pub open spec fn spec_default_operand_size(bitness: u32) -> OpSize {
        if bitness == 16 {
            OpSize::Size16
        } else {
            OpSize::Size32
        }
    }

    /// Address size of code of `bitness` bits where no prefix changes it.
    pub open spec fn spec_default_address_size(bitness: u32) -> OpSize {
        if bitness == 64 {
            OpSize::Size64
        } else if bitness == 32 {
            OpSize::Size32
        } else {
            OpSize::Size16
        }
    }

    /// The decoder of `data` for code of `bitness` bits that stands at the
    /// first byte, which has the address 0.
    pub open spec fn spec_new(bitness: u32, data: Vec<u8>, options: u32) -> Decoder {
        Decoder {
            data,
            position: 0,
            instr_start: 0,
            max_position: 0,
            displ_index: 0,
            ip: 0,
            options,
            invalid_check: !has_flag(options, DecoderOptions::NO_INVALID_CHECK),
            is64_mode: bitness == 64,
            default_code_size: Self::spec_code_size(bitness),
            default_operand_size: Self::spec_default_operand_size(bitness),
            default_address_size: Self::spec_default_address_size(bitness),
            state: State::spec_new(
                Self::spec_default_operand_size(bitness),
                Self::spec_default_address_size(bitness),
            ),
        }
    }

    /// A decoder of `data` for code of `bitness` bits: 16, 32 or 64.  It
    /// starts at the first byte, which has the address 0.
    pub fn new(bitness: u32, data: Vec<u8>, options: u32) -> (decoder: Decoder)
        requires
            bitness == 16 || bitness == 32 || bitness == 64,
        ensures
            decoder == Self::spec_new(bitness, data, options),
            decoder.wf(),
            decoder.default_code_size == (if bitness == 64 {
                CodeSize::Code64
            } else if bitness == 32 {
                CodeSize::Code32
            } else {
                CodeSize::Code16
            }),
    {
        let is64_mode: bool = bitness == 64;
        let operand_size: OpSize = if bitness == 16 {
            OpSize::Size16
        } else {
            OpSize::Size32
        };
        let address_size: OpSize = if bitness == 64 {
            OpSize::Size64
        } else {
            operand_size
        };
        let code_size: CodeSize = if bitness == 64 {
            CodeSize::Code64
        } else if bitness == 32 {
            CodeSize::Code32
        } else {
            CodeSize::Code16
        };
        Decoder {
            data,
            position: 0,
            instr_start: 0,
            max_position: 0,
            displ_index: 0,
            ip: 0,
            options,
            invalid_check: !has_flag(options, DecoderOptions::NO_INVALID_CHECK),
            is64_mode,
            default_code_size: code_size,
            default_operand_size: operand_size,
            default_address_size: address_size,
            state: State::new(operand_size, address_size),
        }
    }

    /// A decoder of `data` for code of `bitness` bits, or nothing if
    /// `bitness` is not 16, 32 or 64.
    pub fn try_new(bitness: u32, data: Vec<u8>, options: u32) -> (decoder: Option<Decoder>)
        ensures
            decoder == (if bitness == 16 || bitness == 32 || bitness == 64 {
                Some(Self::spec_new(bitness, data, options))
            } else {
                Option::None
            }),
            decoder matches Some(d) ==> d.wf() && d.default_code_size == (if bitness == 64 {
                CodeSize::Code64
            } else if bitness == 32 {
                CodeSize::Code32
            } else {
                CodeSize::Code16
            }),
    {
        if bitness == 16 || bitness == 32 || bitness == 64 {
            Some(Decoder::new(bitness, data, options))
        } else {
            None
        }
    }

    /// Sets the address of the next instruction.
    pub fn set_ip(&mut self, ip: u64)
        requires
            old(self).wf(),
        ensures
            *final(self) == (Decoder { ip, ..*old(self) }),
            final(self).wf(),
    {
        self.ip = ip;
    }

    /// Moves the cursor to `position`, if that is a place in the input or
    /// its end.  Returns whether it is.
    pub fn set_position(&mut self, position: usize) -> (done: bool)
        requires
            old(self).wf(),
        ensures
            done == (position <= old(self).data@.len()),
            final(self).wf(),
            done ==> *final(self) == old(self).spec_at(position),
            !done ==> *final(self) == *old(self),
    {
        if position <= self.data.len() {
            self.position = position;
            self.instr_start = position;
            self.max_position = position;
            true
        } else {
            false
        }
    }

    /// The decoder with its cursor at `position`.
    pub open spec fn spec_at(self, position: usize) -> Decoder {
        Decoder { position, instr_start: position, max_position: position, ..self }
    }

    /// Whether a byte is left to decode.
    pub fn can_decode(&self) -> (b: bool)
        ensures
            b == (self.position < self.data@.len()),
    {
        self.position < self.data.len()
    }

    /// How the last instruction ended.
    pub open spec fn spec_last_error(&self) -> DecoderError {
        if self.state.flags.no_more_bytes {
            DecoderError::NoMoreBytes
        } else if self.state.flags.is_invalid {
            DecoderError::InvalidInstruction
        } else {
            DecoderError::NoError
        }
    }

    /// How the last instruction ended: well, as an invalid instruction, or
    /// for want of bytes.
    #[verifier::when_used_as_spec(spec_last_error)]
    pub fn last_error(&self) -> (e: DecoderError)
        ensures
            e == self.spec_last_error(),
    {
        if self.state.flags.no_more_bytes {
            DecoderError::NoMoreBytes
        } else if self.state.flags.is_invalid {
            DecoderError::InvalidInstruction
        } else {
            DecoderError::NoError
        }
    }

    /// Place past the last byte that an instruction at the cursor may
    /// read: fifteen bytes on, or the end of the input.
    pub open spec fn spec_limit(&self) -> usize {
        if self.data@.len() - self.position < MAX_INSTRUCTION_LENGTH {
            self.data@.len() as usize
        } else {
            (self.position + MAX_INSTRUCTION_LENGTH) as usize
        }
    }

    /// The decoder at the start of an instruction: nothing of the
    /// instruction before is left in its state.
    pub open spec fn spec_start(self) -> Decoder {
        Decoder {
            instr_start: self.position,
            max_position: self.spec_limit(),
            displ_index: self.position,
            state: State::spec_new(self.default_operand_size, self.default_address_size),
            ..self
        }
    }

    /// Resets the state for a new instruction at the cursor.
    pub fn start(&mut self)
        requires
            old(self).position <= old(self).data@.len(),
            old(self).mode_ok(),
            old(self).invalid_check == !has_flag(old(self).options, DecoderOptions::NO_INVALID_CHECK),
        ensures
            *final(self) == old(self).spec_start(),
            final(self).wf(),
            final(self).state.encoding == EncodingKind::Legacy,
    {
        let limit: usize = if self.data.len() - self.position < MAX_INSTRUCTION_LENGTH {
            self.data.len()
        } else {
            self.position + MAX_INSTRUCTION_LENGTH
        };
        self.instr_start = self.position;
        self.max_position = limit;
        self.displ_index = self.position;
        self.state = State::new(self.default_operand_size, self.default_address_size);
    }

    /// The decoder after the prefix byte `b`, which is no REX prefix.
    ///
    /// `66` selects the other operand size and is the mandatory prefix
    /// unless there is one already.  `67` selects the other address size.
    /// `F2` and `F3` are the mandatory prefix from then on, and `F0` is noted
    /// as `LOCK`.  A segment prefix changes nothing in the decoder.
    #[verifier::opaque]
    pub open spec fn with_prefix(self, b: u32) -> Decoder {
        let state = self.state;
        let changed = if b == 0x66 {
            State {
                flags: StateFlags { has66: true, ..state.flags },
                operand_size: spec_inverted_size(self.default_operand_size),
                mandatory_prefix: if state.mandatory_prefix == MandatoryPrefixByte::PNone {
                    MandatoryPrefixByte::P66
                } else {
                    state.mandatory_prefix
                },
                ..state
            }
        } else if b == 0x67 {
            State { address_size: spec_inverted_address_size(self.default_address_size), ..state }
        } else if b == 0xF0 {
            State { flags: StateFlags { lock: true, ..state.flags }, ..state }
        } else if b == 0xF2 {
            State { mandatory_prefix: MandatoryPrefixByte::PF2, ..state }
        } else if b == 0xF3 {
            State { mandatory_prefix: MandatoryPrefixByte::PF3, ..state }
        } else {
            state
        };
        Decoder { state: changed, ..self }
    }

    /// Notes the prefix byte `b`, which is no REX prefix, in the state.
    pub fn set_prefix(&mut self, b: u32)
        requires
            old(self).wf(),
        ensures
            *final(self) == old(self).with_prefix(b),
            final(self).wf(),
            final(self).frame() == old(self).frame(),
            final(self).state.encoding == old(self).state.encoding,
    {
        reveal(Decoder::with_prefix);
        let state: State = self.state;
        let changed: State = if b == 0x66 {
            State {
                flags: StateFlags { has66: true, ..state.flags },
                operand_size: inverted_size(self.default_operand_size),
                mandatory_prefix: if state.mandatory_prefix == MandatoryPrefixByte::PNone {
                    MandatoryPrefixByte::P66
                } else {
                    state.mandatory_prefix
                },
                ..state
            }
        } else if b == 0x67 {
            State { address_size: inverted_address_size(self.default_address_size), ..state }
        } else if b == 0xF0 {
            State { flags: StateFlags { lock: true, ..state.flags }, ..state }
        } else if b == 0xF2 {
            State { mandatory_prefix: MandatoryPrefixByte::PF2, ..state }
        } else if b == 0xF3 {
            State { mandatory_prefix: MandatoryPrefixByte::PF3, ..state }
        } else {
            state
        };
        self.state = changed;
    }

    /// Whether `b` is a REX prefix.
    pub open spec fn spec_is_rex(b: u32) -> bool {
        0x40 <= b <= 0x4F
    }

    /// Decoder, record, REX prefix and opcode after the prefixes have been
    /// read.  `rex` is the REX prefix in effect so far, or 0, and `fuel` an
    /// upper bound of the number of bytes still to read.
    ///
    /// Bytes are read as long as they are prefixes.  A REX prefix is in
    /// effect only if it is the last prefix.  The first byte that is no
    /// prefix is the opcode; where the input ends first, the opcode is 0.
    pub open spec fn spec_prefixes(self, i: Instruction, rex: u32, fuel: nat) -> Prefixed
        decreases fuel,
    {
        let b = self.peek_u8();
        let d = self.after_read(1);
        if fuel > 0 && spec_is_prefix(b, self.is64_mode) {
            if Self::spec_is_rex(b) {
                d.spec_prefixes(i, b, (fuel - 1) as nat)
            } else {
                d.with_prefix(b).spec_prefixes(
                    i.with_prefix(b, self.is64_mode),
                    0,
                    (fuel - 1) as nat,
                )
            }
        } else {
            Prefixed { decoder: d, instruction: i, rex, opcode: b }
        }
    }

    /// Reads the prefixes and the opcode byte.  Returns the REX prefix in
    /// effect, or 0, and the opcode.
    pub fn read_prefixes(&mut self, instruction: &mut Instruction) -> (r: (u32, u32))
        requires
            old(self).wf(),
        ensures
            *final(self) == old(self).spec_prefixes(*old(instruction), 0, 16).decoder,
            *final(instruction) == old(self).spec_prefixes(*old(instruction), 0, 16).instruction,
            r.0 == old(self).spec_prefixes(*old(instruction), 0, 16).rex,
            r.1 == old(self).spec_prefixes(*old(instruction), 0, 16).opcode,
            final(self).wf(),
            final(self).frame() == old(self).frame(),
            final(self).state.encoding == old(self).state.encoding,
            r.0 != 0 ==> final(self).is64_mode,
            r.0 <= 0xFF,
            r.1 <= 0xFF,
    {
        let is64_mode: bool = self.is64_mode;
        let mut rex: u32 = 0;
        let mut fuel: u32 = 16;
        let mut opcode: u32 = 0;
        let ghost start = *self;
        let ghost first = *instruction;
        loop
            invariant_except_break
                self.wf(),
                fuel <= 16,
                self.frame() == start.frame(),
                self.is64_mode == is64_mode,
                self.state.encoding == start.state.encoding,
                rex != 0 ==> is64_mode,
                rex <= 0xFF,
                start.spec_prefixes(first, 0, 16) == self.spec_prefixes(
                    *instruction,
                    rex,
                    fuel as nat,
                ),
            ensures
                self.wf(),
                self.frame() == start.frame(),
                self.is64_mode == is64_mode,
                self.state.encoding == start.state.encoding,
                rex != 0 ==> is64_mode,
                rex <= 0xFF,
                opcode <= 0xFF,
                start.spec_prefixes(first, 0, 16) == (Prefixed {
                    decoder: *self,
                    instruction: *instruction,
                    rex,
                    opcode,
                }),
            decreases fuel,
        {
            let b: u32 = self.read_u8();
            if fuel > 0 && is_prefix(b, is64_mode) {
                fuel = fuel - 1;
                if 0x40 <= b && b <= 0x4F {
                    rex = b;
                } else {
                    self.set_prefix(b);
                    instruction.set_prefix(b, is64_mode);
                    rex = 0;
                }
            } else {
                opcode = b;
                break ;
            }
        }
        (rex, opcode)
    }

    /// The decoder with the REX prefix `rex` applied, if `rex` is not 0.
    ///
    /// The low four bits of the prefix are W, R, X and B.  W makes the
    /// operand size 64 bits; the other three extend the register numbers
    /// that reg, an index and rm or a base select.
    #[verifier::opaque]
    pub open spec fn with_rex(self, rex: u32) -> Decoder {
        if rex == 0 {
            self
        } else {
            let state = self.state;
            let w = (rex / 8) % 2 == 1;
            Decoder {
                state: State {
                    flags: StateFlags { has_rex: true, w: w || state.flags.w, ..state.flags },
                    operand_size: if w {
                        OpSize::Size64
                    } else {
                        state.operand_size
                    },
                    extra_register_base: if (rex / 4) % 2 == 1 {
                        8
                    } else {
                        0
                    },
                    extra_index_register_base: if (rex / 2) % 2 == 1 {
                        8
                    } else {
                        0
                    },
                    extra_base_register_base: if rex % 2 == 1 {
                        8
                    } else {
                        0
                    },
                    ..state
                },
                ..self
            }
        }
    }

    /// Applies the REX prefix `rex`, if it is not 0.
    pub fn set_rex(&mut self, rex: u32)
        requires
            old(self).wf(),
            rex != 0 ==> old(self).is64_mode,
        ensures
            *final(self) == old(self).with_rex(rex),
            final(self).wf(),
            final(self).frame() == old(self).frame(),
            final(self).state.encoding == old(self).state.encoding,
    {
        reveal(Decoder::with_rex);
        if rex != 0 {
            let state: State = self.state;
            let w: bool = (rex / 8) % 2 == 1;
            self.state = State {
                flags: StateFlags { has_rex: true, w: w || state.flags.w, ..state.flags },
                operand_size: if w {
                    OpSize::Size64
                } else {
                    state.operand_size
                },
                extra_register_base: if (rex / 4) % 2 == 1 {
                    8
                } else {
                    0
                },
                extra_index_register_base: if (rex / 2) % 2 == 1 {
                    8
                } else {
                    0
                },
                extra_base_register_base: if rex % 2 == 1 {
                    8
                } else {
                    0
                },
                ..state
            };
        }
    }

    /// Whether the instruction in progress is to be reported invalid: it
    /// was flagged so, or it has a `LOCK` prefix that it does not accept and
    /// invalid encodings are checked for.
    pub open spec fn spec_is_bad(&self) -> bool {
        self.state.flags.is_invalid || (self.invalid_check && self.state.flags.lock
            && !self.state.flags.allow_lock)
    }

    /// Number of bytes that the instruction in progress is reported to
    /// occupy: those that were read, or, where the input ended inside the
    /// instruction, all that were left.
    pub open spec fn spec_length(&self) -> u32 {
        if self.state.flags.no_more_bytes {
            (self.max_position - self.instr_start) as u32
        } else {
            (self.position - self.instr_start) as u32
        }
    }

    /// The address that follows the instruction in progress.
    pub open spec fn spec_next_ip(&self) -> u64 {
        ((self.ip + self.spec_length()) % 0x1_0000_0000_0000_0000) as u64
    }

    /// The decoder after the instruction in progress is complete: the
    /// cursor stands after the instruction, the address is that of the next
    /// one, and an invalid instruction is flagged so.  Where the input ended
    /// inside an instruction that had its fifteen bytes, the instruction is
    /// invalid, not short of bytes.
    #[verifier::opaque]
    pub open spec fn finished(self) -> Decoder {
        let flags = self.state.flags;
        Decoder {
            position: (self.instr_start + self.spec_length()) as usize,
            ip: self.spec_next_ip(),
            state: State {
                flags: StateFlags {
                    is_invalid: self.spec_is_bad(),
                    no_more_bytes: flags.no_more_bytes && self.max_position - self.instr_start
                        < MAX_INSTRUCTION_LENGTH,
                    ..flags
                },
                ..self.state
            },
            ..self
        }
    }

    /// The record of the instruction in progress, complete.  An invalid
    /// instruction has an empty record but for its length, the address that
    /// follows it and the size of its code.
    pub open spec fn spec_finish_instruction(&self, i: Instruction) -> Instruction {
        let flags = self.state.flags;
        let bad = self.spec_is_bad();
        let record = if bad {
            Instruction::spec_new()
        } else {
            i
        };
        record.completed(
            self.spec_length(),
            self.spec_next_ip(),
            self.default_code_size,
            !bad && (flags.ip_rel64 || flags.ip_rel32),
        )
    }

    /// Completes the instruction in progress and its record.
    pub fn finish(&mut self, instruction: &mut Instruction)
        requires
            old(self).wf(),
        ensures
            *final(self) == old(self).finished(),
            *final(instruction) == old(self).spec_finish_instruction(*old(instruction)),
            final(self).wf(),
            final(instruction).len == final(self).position - old(self).instr_start,
            final(instruction).len <= MAX_INSTRUCTION_LENGTH,
            final(instruction).next_ip == final(self).ip,
            final(self).spec_last_error() != DecoderError::NoError ==> final(instruction).code
                == crate::code::INVALID,
    {
        reveal(Decoder::finished);
        let flags: StateFlags = self.state.flags;
        let bad: bool = flags.is_invalid || (self.invalid_check && flags.lock
            && !flags.allow_lock);
        let end: usize = if flags.no_more_bytes {
            self.max_position
        } else {
            self.position
        };
        let len: u32 = (end - self.instr_start) as u32;
        let next_ip: u64 = self.ip.wrapping_add(len as u64);
        let short: bool = flags.no_more_bytes && self.max_position - self.instr_start
            < MAX_INSTRUCTION_LENGTH;
        let record: Instruction = if bad {
            Instruction::new()
        } else {
            *instruction
        };
        let finished: State = State {
            flags: StateFlags { is_invalid: bad, no_more_bytes: short, ..flags },
            ..self.state
        };
        *instruction = record;
        instruction.complete(
            len,
            next_ip,
            self.default_code_size,
            !bad && (flags.ip_rel64 || flags.ip_rel32),
        );
        proof {
            reveal(Instruction::completed);
        }
        self.position = end;
        self.ip = next_ip;
        self.state = finished;
    }

    /// Decoder and record after one instruction has been decoded with the
    /// handlers of `tables`.
    ///
    /// The state of the instruction before is dropped.  Prefixes are read,
    /// then the opcode, which selects a handler in the table of one-byte
    /// opcodes.  The ModRM byte is read if that handler has one, and the
    /// handlers run.  Then the instruction is completed.
    pub open spec fn spec_decode_out(self, tables: HandlerTables) -> Decoded {
        let p = self.spec_start().spec_prefixes(Instruction::spec_new(), 0, 16);
        let handler = tables.legacy@[p.opcode as int];
        let y = tables.spec_run(
            true,
            handler,
            tables.spec_read_modrm_for(handler, p.decoder.with_rex(p.rex)),
            p.instruction,
        );
        Decoded::at(y.decoder.finished(), y.decoder.spec_finish_instruction(y.instruction))
    }

    /// Decodes the instruction at the cursor into `instruction`.
    ///
    /// Whatever the bytes are, the call returns a record and moves the
    /// cursor past the instruction: by the number of bytes that the
    /// instruction occupies, which is at most fifteen, or to the end of the
    /// input if it ends first.  [`Decoder::last_error`] tells an invalid
    /// instruction and an input that ended too soon.
    pub fn decode_out(&mut self, tables: &HandlerTables, instruction: &mut Instruction)
        requires
            old(self).wf(),
            tables.wf(),
        ensures
            *final(self) == old(self).spec_decode_out(*tables).decoder,
            *final(instruction) == old(self).spec_decode_out(*tables).instruction,
            final(self).wf(),
            final(instruction).len == final(self).position - old(self).position,
            final(instruction).len <= MAX_INSTRUCTION_LENGTH,
            final(instruction).next_ip == final(self).ip,
            final(self).spec_last_error() != DecoderError::NoError ==> final(instruction).code
                == crate::code::INVALID,
    {
        self.start();
        *instruction = Instruction::new();
        let (rex, opcode) = self.read_prefixes(instruction);
        self.set_rex(rex);
        let handler: usize = tables.legacy[opcode as usize];
        assert(tables.entry_ok(tables.legacy@[opcode as int], true, tables.handlers@.len() as int));
        tables.read_modrm_for(handler, self);
        tables.run(true, handler, self, instruction);
        self.finish(instruction);
    }

    /// Decodes the instruction at the cursor.
    pub fn decode(&mut self, tables: &HandlerTables) -> (instruction: Instruction)
        requires
            old(self).wf(),
            tables.wf(),
        ensures
            *final(self) == old(self).spec_decode_out(*tables).decoder,
            instruction == old(self).spec_decode_out(*tables).instruction,
            final(self).wf(),
            instruction.len == final(self).position - old(self).position,
            instruction.len <= MAX_INSTRUCTION_LENGTH,
    {
        let mut instruction: Instruction = Instruction::new();
        self.decode_out(tables, &mut instruction);
        instruction
    }
}

} // verus!
