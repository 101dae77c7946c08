//! Handlers that select another handler.
//!
//! A selector does not decode operands.  It looks at the state, prepares
//! it, and names what runs next: a handler of the table, by its index, or an
//! opcode map in which the next byte is looked up.
use vstd::prelude::*;
use crate::decoder::{Decoder, State, StateFlags};
use crate::enums::{EncodingKind, MandatoryPrefixByte, VectorLength};
use crate::instruction::Instruction;
use crate::operand::Decoded;
use crate::options::{has_flag, DecoderOptions, LegacyHandlerFlags};

verus! {

/// Index in every handler table of a handler that flags the instruction
/// invalid.
pub const INVALID_HANDLER: usize = 0;

/// An opcode map that a VEX or XOP prefix selects.
#[derive(Clone, Copy, Debug, PartialEq, Eq, Structural)]
pub enum OpCodeMap {
    Vex0F,
    Vex0F38,
    Vex0F3A,
    Xop8,
    Xop9,
    XopA,
}

/// What runs after a handler.
#[derive(Clone, Copy, Debug, PartialEq, Eq, Structural)]
pub enum Next {
    /// Nothing: the instruction is decoded.
    Done,
    /// The handler at this index.  Its ModRM byte, if it has one, is read.
    Handler(usize),
    /// The handler at this index, after its ModRM byte, if it has one.
    HandlerModRM(usize),
    /// The handler that this map gives for the next byte, after its ModRM
    /// byte, if it has one.
    Lookup(OpCodeMap),
}

/// The handler of an opcode that is no instruction.
#[derive(Clone, Copy, Debug, PartialEq, Eq, Structural)]
pub struct OpCodeHandler_Invalid {
    pub has_modrm: bool,
}

impl OpCodeHandler_Invalid {
    /// The handler; `has_modrm` says whether a ModRM byte is read for it.
    pub fn new(has_modrm: bool) -> (handler: Self)
        ensures
            handler == (Self { has_modrm }),
    {
        Self { has_modrm }
    }

    /// Decoder and record as [`Self::decode`] leaves them: the instruction
    /// is invalid.
    pub open spec fn spec_decode(&self, d: Decoder, i: Instruction) -> Decoded {
        Decoded::at(d, i).invalid()
    }

    /// Flags the instruction invalid.
    pub fn decode(&self, decoder: &mut Decoder, instruction: &mut Instruction)
        requires
            old(decoder).wf(),
        ensures
            *final(decoder) == self.spec_decode(*old(decoder), *old(instruction)).decoder,
            *final(instruction) == self.spec_decode(
                *old(decoder),
                *old(instruction),
            ).instruction,
            final(decoder).wf(),
            final(decoder).frame() == old(decoder).frame(),
    {
        decoder.set_invalid_instruction();
    }
}

/// Selects one of four handlers by mandatory prefix.
///
/// The prefix is used up: it is no longer one of the record's visible
/// prefixes.  All four handlers read a ModRM byte, or none does.
#[derive(Clone, Copy, Debug)]
pub struct OpCodeHandler_MandatoryPrefix {
    pub has_modrm: bool,
    /// The handlers for no prefix, `66`, `F3` and `F2`, in that order.
    pub handlers: [usize; 4],
}

impl OpCodeHandler_MandatoryPrefix {
    /// A selector among the handlers at the four given indices.
    pub fn new(
        has_modrm: bool,
        handler: usize,
        handler_66: usize,
        handler_f3: usize,
        handler_f2: usize,
    ) -> (selector: Self)
        ensures
            selector.has_modrm == has_modrm,
            selector.handlers@ == seq![handler, handler_66, handler_f3, handler_f2],
    {
        Self { has_modrm, handlers: [handler, handler_66, handler_f3, handler_f2] }
    }

    /// The handler that the prefix selects.
    pub open spec fn spec_select(&self, prefix: MandatoryPrefixByte) -> usize {
        self.handlers@[prefix.spec_index() as int]
    }

    /// Record as [`Self::decode`] leaves it.
    pub open spec fn spec_decode(&self, d: Decoder, i: Instruction) -> Decoded {
        Decoded::at(d, i).clear_mandatory_prefix()
    }

    /// Uses up the mandatory prefix and returns the index of the one
    /// handler that it selects.  The decoder is not changed.
    pub fn decode(&self, decoder: &Decoder, instruction: &mut Instruction) -> (next: usize)
        ensures
            next == self.spec_select(decoder.state.mandatory_prefix),
            *final(instruction) == self.spec_decode(*decoder, *old(instruction)).instruction,
    {
        decoder.clear_mandatory_prefix(instruction);
        self.handlers[decoder.state.mandatory_prefix.index()]
    }
}

/// Selects one of eight handlers: by the form of the ModRM byte, register
/// or memory, and then by mandatory prefix.
///
/// For each of the eight it is stated whether the prefix is used up or
/// left for the selected handler to read.
#[derive(Clone, Copy, Debug)]
pub struct OpCodeHandler_MandatoryPrefix3 {
    pub has_modrm: bool,
    /// Handlers of the register form for no prefix, `66`, `F3` and `F2`.
    pub handlers_reg: [usize; 4],
    /// Whether the register form uses up the prefix, slot by slot.
    pub clear_reg: [bool; 4],
    /// Handlers of the memory form for no prefix, `66`, `F3` and `F2`.
    pub handlers_mem: [usize; 4],
    /// Whether the memory form uses up the prefix, slot by slot.
    pub clear_mem: [bool; 4],
}

impl OpCodeHandler_MandatoryPrefix3 {
    /// A selector among the handlers at the eight given indices.  A flag of
    /// [`LegacyHandlerFlags`] leaves the prefix of its slot in place.
    pub fn new(
        handler_reg: usize,
        handler_mem: usize,
        handler66_reg: usize,
        handler66_mem: usize,
        handlerf3_reg: usize,
        handlerf3_mem: usize,
        handlerf2_reg: usize,
        handlerf2_mem: usize,
        flags: u32,
    ) -> (selector: Self)
        ensures
            selector.has_modrm,
            selector.handlers_reg@ == seq![handler_reg, handler66_reg, handlerf3_reg, handlerf2_reg],
            selector.handlers_mem@ == seq![handler_mem, handler66_mem, handlerf3_mem, handlerf2_mem],
            selector.clear_reg@ == seq![
                !has_flag(flags, LegacyHandlerFlags::HANDLER_REG),
                !has_flag(flags, LegacyHandlerFlags::HANDLER_66_REG),
                !has_flag(flags, LegacyHandlerFlags::HANDLER_F3_REG),
                !has_flag(flags, LegacyHandlerFlags::HANDLER_F2_REG),
            ],
            selector.clear_mem@ == seq![
                !has_flag(flags, LegacyHandlerFlags::HANDLER_MEM),
                !has_flag(flags, LegacyHandlerFlags::HANDLER_66_MEM),
                !has_flag(flags, LegacyHandlerFlags::HANDLER_F3_MEM),
                !has_flag(flags, LegacyHandlerFlags::HANDLER_F2_MEM),
            ],
    {
        Self {
            has_modrm: true,
            handlers_reg: [handler_reg, handler66_reg, handlerf3_reg, handlerf2_reg],
            clear_reg: [
                !has_flag(flags, LegacyHandlerFlags::HANDLER_REG),
                !has_flag(flags, LegacyHandlerFlags::HANDLER_66_REG),
                !has_flag(flags, LegacyHandlerFlags::HANDLER_F3_REG),
                !has_flag(flags, LegacyHandlerFlags::HANDLER_F2_REG),
            ],
            handlers_mem: [handler_mem, handler66_mem, handlerf3_mem, handlerf2_mem],
            clear_mem: [
                !has_flag(flags, LegacyHandlerFlags::HANDLER_MEM),
                !has_flag(flags, LegacyHandlerFlags::HANDLER_66_MEM),
                !has_flag(flags, LegacyHandlerFlags::HANDLER_F3_MEM),
                !has_flag(flags, LegacyHandlerFlags::HANDLER_F2_MEM),
            ],
        }
    }

    /// The handler that form and prefix select.
    pub open spec fn spec_select(&self, state: State) -> usize {
        if state.mod_ == 3 {
            self.handlers_reg@[state.mandatory_prefix.spec_index() as int]
        } else {
            self.handlers_mem@[state.mandatory_prefix.spec_index() as int]
        }
    }

    /// Whether form and prefix select a handler that uses up the prefix.
    pub open spec fn spec_clears(&self, state: State) -> bool {
        if state.mod_ == 3 {
            self.clear_reg@[state.mandatory_prefix.spec_index() as int]
        } else {
            self.clear_mem@[state.mandatory_prefix.spec_index() as int]
        }
    }

    /// Record as [`Self::decode`] leaves it.
    pub open spec fn spec_decode(&self, d: Decoder, i: Instruction) -> Decoded {
        if self.spec_clears(d.state) {
            Decoded::at(d, i).clear_mandatory_prefix()
        } else {
            Decoded::at(d, i)
        }
    }

    /// Returns the index of the one handler that the form of the ModRM byte
    /// and the mandatory prefix select, and uses up the prefix where that
    /// handler's slot says so.  The decoder is not changed.
    pub fn decode(&self, decoder: &Decoder, instruction: &mut Instruction) -> (next: usize)
        ensures
            next == self.spec_select(decoder.state),
            *final(instruction) == self.spec_decode(*decoder, *old(instruction)).instruction,
    {
        let slot: usize = decoder.state.mandatory_prefix.index();
        let reg_form: bool = decoder.state.mod_ == 3;
        let clears: bool = if reg_form {
            self.clear_reg[slot]
        } else {
            self.clear_mem[slot]
        };
        if clears {
            decoder.clear_mandatory_prefix(instruction);
        }
        if reg_form {
            self.handlers_reg[slot]
        } else {
            self.handlers_mem[slot]
        }
    }
}

/// Selects one of three handlers: one for `F3`, one for `F2`, and one for
/// every other case.
///
/// The selector reads no ModRM byte itself.  The byte of the selected
/// handler, if it has one, is read before that handler runs.
#[derive(Clone, Copy, Debug, PartialEq, Eq, Structural)]
pub struct OpCodeHandler_MandatoryPrefix_F3_F2 {
    pub has_modrm: bool,
    pub handler_normal: usize,
    pub handler_f3: usize,
    pub handler_f2: usize,
    /// Whether a mandatory `F3` is used up.
    pub clear_f3: bool,
    /// Whether a mandatory `F2` is used up.
    pub clear_f2: bool,
}

impl OpCodeHandler_MandatoryPrefix_F3_F2 {
    /// A selector among the handlers at the three given indices.
    pub fn new(
        handler_normal: usize,
        handler_f3: usize,
        clear_f3: bool,
        handler_f2: usize,
        clear_f2: bool,
    ) -> (selector: Self)
        ensures
            selector == (Self {
                has_modrm: false,
                handler_normal,
                handler_f3,
                handler_f2,
                clear_f3,
                clear_f2,
            }),
    {
        Self { has_modrm: false, handler_normal, handler_f3, handler_f2, clear_f3, clear_f2 }
    }

    /// The handler that the prefix selects.
    pub open spec fn spec_select(&self, prefix: MandatoryPrefixByte) -> usize {
        if prefix == MandatoryPrefixByte::PF3 {
            self.handler_f3
        } else if prefix == MandatoryPrefixByte::PF2 {
            self.handler_f2
        } else {
            self.handler_normal
        }
    }

    /// Record as [`Self::decode`] leaves it.
    pub open spec fn spec_decode(&self, d: Decoder, i: Instruction) -> Decoded {
        let prefix = d.state.mandatory_prefix;
        if prefix == MandatoryPrefixByte::PF3 && self.clear_f3 {
            Decoded::at(d, i).clear_mandatory_prefix_f3()
        } else if prefix == MandatoryPrefixByte::PF2 && self.clear_f2 {
            Decoded::at(d, i).clear_mandatory_prefix_f2()
        } else {
            Decoded::at(d, i)
        }
    }

    /// Returns the index of the one handler that the mandatory prefix
    /// selects, and uses up the prefix where the selector says so.  The
    /// decoder is not changed.
    pub fn decode(&self, decoder: &Decoder, instruction: &mut Instruction) -> (next: usize)
        ensures
            next == self.spec_select(decoder.state.mandatory_prefix),
            *final(instruction) == self.spec_decode(*decoder, *old(instruction)).instruction,
    {
        let prefix: MandatoryPrefixByte = decoder.state.mandatory_prefix;
        if prefix == MandatoryPrefixByte::PF3 {
            if self.clear_f3 {
                decoder.clear_mandatory_prefix_f3(instruction);
            }
            self.handler_f3
        } else if prefix == MandatoryPrefixByte::PF2 {
            if self.clear_f2 {
                decoder.clear_mandatory_prefix_f2(instruction);
            }
            self.handler_f2
        } else {
            self.handler_normal
        }
    }
}

/// Selects between the reading of an opcode as a reserved NOP and its
/// reading as an instruction of its own, by an option of the decoder.
#[derive(Clone, Copy, Debug, PartialEq, Eq, Structural)]
pub struct OpCodeHandler_ReservedNop {
    pub has_modrm: bool,
    pub reserved_nop_handler: usize,
    pub other_handler: usize,
}

impl OpCodeHandler_ReservedNop {
    /// A selector between the handlers at the two given indices.
    pub fn new(reserved_nop_handler: usize, other_handler: usize) -> (selector: Self)
        ensures
            selector == (Self { has_modrm: true, reserved_nop_handler, other_handler }),
    {
        Self { has_modrm: true, reserved_nop_handler, other_handler }
    }

    /// The handler that the options select.
    pub open spec fn spec_select(&self, options: u32) -> usize {
        if has_flag(options, DecoderOptions::FORCE_RESERVED_NOP) {
            self.reserved_nop_handler
        } else {
            self.other_handler
        }
    }

    /// Returns the index of the reserved-NOP handler if the options force
    /// that reading, else the index of the other handler.
    pub fn decode(&self, decoder: &Decoder) -> (next: usize)
        ensures
            next == self.spec_select(decoder.options),
    {
        if has_flag(decoder.options, DecoderOptions::FORCE_RESERVED_NOP) {
            self.reserved_nop_handler
        } else {
            self.other_handler
        }
    }
}

/// Continues in a further opcode map: the next byte selects the handler.
pub struct OpCodeHandler_AnotherTable {
    pub has_modrm: bool,
    /// The handler of each of the 256 values of the next byte.
    pub handlers: Vec<usize>,
}

impl OpCodeHandler_AnotherTable {
    /// A handler that continues in the map `handlers`.
    pub fn new(handlers: Vec<usize>) -> (handler: Self)
        ensures
            !handler.has_modrm,
            handler.handlers == handlers,
    {
        Self { has_modrm: false, handlers }
    }

    /// The map has an entry for every byte.
    pub open spec fn wf(&self) -> bool {
        self.handlers@.len() == 256
    }

    /// Whether the map has an entry for every byte.
    #[verifier::when_used_as_spec(wf)]
    pub fn is_wf(&self) -> (b: bool)
        ensures
            b == self.wf(),
    {
        self.handlers.len() == 256
    }

    /// The handler that the next byte selects.
    pub open spec fn spec_select(&self, d: Decoder) -> usize {
        self.handlers@[d.peek_u8() as int]
    }

    /// Decoder as [`Self::decode`] leaves it: one byte further.
    pub open spec fn spec_decode(&self, d: Decoder, i: Instruction) -> Decoded {
        Decoded::at(d.after_read(1), i)
    }

    /// Reads the next byte and returns the index of the handler that the
    /// map gives for it.
    pub fn decode(&self, decoder: &mut Decoder) -> (next: usize)
        requires
            old(decoder).wf(),
            self.wf(),
        ensures
            next == self.spec_select(*old(decoder)),
            *final(decoder) == old(decoder).after_read(1),
            final(decoder).wf(),
            final(decoder).frame() == old(decoder).frame(),
            final(decoder).state.encoding == old(decoder).state.encoding,
    {
        let b: u32 = decoder.read_u8();
        self.handlers[b as usize]
    }
}

/// Selects one of four handlers by the vector length of a VEX or XOP prefix.
#[derive(Clone, Copy, Debug)]
pub struct OpCodeHandler_VectorLength_VEX {
    pub has_modrm: bool,
    /// The handlers for 128, 256 and 512 bits and for an unknown length.
    pub handlers: [usize; 4],
}

impl OpCodeHandler_VectorLength_VEX {
    /// A selector between the handlers at the two given indices.  The
    /// lengths that VEX and XOP cannot encode select the invalid handler.
    pub fn new(has_modrm: bool, handler128: usize, handler256: usize) -> (selector: Self)
        ensures
            selector.has_modrm == has_modrm,
            selector.handlers@ == seq![handler128, handler256, INVALID_HANDLER, INVALID_HANDLER],
    {
        Self { has_modrm, handlers: [handler128, handler256, INVALID_HANDLER, INVALID_HANDLER] }
    }

    /// The handler that the vector length selects.
    pub open spec fn spec_select(&self, state: State) -> usize {
        self.handlers@[state.vector_length.spec_index() as int]
    }

    /// Returns the index of the one handler that the vector length selects.
    pub fn decode(&self, decoder: &Decoder) -> (next: usize)
        requires
            decoder.state.encoding == EncodingKind::VEX || decoder.state.encoding
                == EncodingKind::XOP,
        ensures
            next == self.spec_select(decoder.state),
    {
        self.handlers[decoder.state.vector_length.index()]
    }
}

/// The register that the inverted four bits `bits` select.
pub open spec fn spec_inverted4(bits: u32) -> u32 {
    (15 - bits % 16) as u32
}

/// The register that the inverted four bits `bits` select.
#[verifier::when_used_as_spec(spec_inverted4)]
pub fn inverted4(bits: u32) -> (v: u32)
    ensures
        v == spec_inverted4(bits),
        v <= 15,
{
    15 - bits % 16
}

/// The extension that an inverted bit gives: 8 if the bit is clear.
pub open spec fn spec_extension(bit: u32) -> u32 {
    if bit % 2 == 0 {
        8
    } else {
        0
    }
}

/// The extension that an inverted bit gives: 8 if the bit is clear.
#[verifier::when_used_as_spec(spec_extension)]
pub fn extension(bit: u32) -> (v: u32)
    ensures
        v == spec_extension(bit),
        v == 0 || v == 8,
{
    if bit % 2 == 0 {
        8
    } else {
        0
    }
}

/// The vector length that the L bit selects.
pub open spec fn spec_vector_length(bit: u32) -> VectorLength {
    if bit % 2 == 1 {
        VectorLength::L256
    } else {
        VectorLength::L128
    }
}

/// The vector length that the L bit selects.
#[verifier::when_used_as_spec(spec_vector_length)]
pub fn vector_length(bit: u32) -> (v: VectorLength)
    ensures
        v == spec_vector_length(bit),
{
    if bit % 2 == 1 {
        VectorLength::L256
    } else {
        VectorLength::L128
    }
}

impl Decoder {
    /// Whether the prefixes read so far rule out a VEX or XOP prefix: a REX
    /// prefix or a mandatory prefix, where invalid encodings are checked for.
    pub open spec fn spec_bad_escape(&self) -> bool {
        self.invalid_check && (self.state.flags.has_rex || self.state.mandatory_prefix
            != MandatoryPrefixByte::PNone)
    }

    /// The decoder after a two-byte VEX prefix, whose second byte was read
    /// as a ModRM byte.
    ///
    /// That byte holds, from the top: the inverted R bit, the inverted
    /// register vvvv, the vector length and the mandatory prefix.  What a
    /// REX prefix set is undone.
    #[verifier::opaque]
    pub open spec fn with_vex2(self) -> Decoder {
        let d = self.invalidated_if(self.spec_bad_escape());
        let b = self.state.modrm;
        Decoder {
            state: State {
                encoding: EncodingKind::VEX,
                flags: StateFlags { w: false, ..d.state.flags },
                extra_register_base: spec_extension(b / 128),
                extra_index_register_base: 0,
                extra_base_register_base: 0,
                vvvv: spec_inverted4(b / 8),
                vector_length: spec_vector_length(b / 4),
                mandatory_prefix: MandatoryPrefixByte::spec_from_pp(b % 4),
                ..d.state
            },
            ..d
        }
    }

    /// Reads the state of a two-byte VEX prefix out of the byte that was
    /// read as a ModRM byte.
    pub fn vex2(&mut self)
        requires
            old(self).wf(),
        ensures
            *final(self) == old(self).with_vex2(),
            final(self).wf(),
            final(self).frame() == old(self).frame(),
            final(self).state.encoding == EncodingKind::VEX,
    {
        reveal(Decoder::with_vex2);
        let bad: bool = self.invalid_check && (self.state.flags.has_rex
            || self.state.mandatory_prefix != MandatoryPrefixByte::PNone);
        let b: u32 = self.state.modrm;
        self.set_invalid_instruction_if(bad);
        self.state = State {
            encoding: EncodingKind::VEX,
            flags: StateFlags { w: false, ..self.state.flags },
            extra_register_base: extension(b / 128),
            extra_index_register_base: 0,
            extra_base_register_base: 0,
            vvvv: inverted4(b / 8),
            vector_length: vector_length(b / 4),
            mandatory_prefix: MandatoryPrefixByte::from_pp(b % 4),
            ..self.state
        };
    }

    /// The decoder after the third byte `b2` of a three-byte VEX prefix or
    /// of an XOP prefix, whose second byte was read as a ModRM byte.
    ///
    /// The second byte holds the inverted bits R, X and B.  The third holds,
    /// from the top: W, the inverted register vvvv, the vector length and the
    /// mandatory prefix.  Outside 64-bit mode there are eight registers: B
    /// and the high bit of vvvv are ignored.
    #[verifier::opaque]
    pub open spec fn with_vex3(self, encoding: EncodingKind, b2: u32) -> Decoder {
        let b1 = self.state.modrm;
        Decoder {
            state: State {
                encoding,
                flags: StateFlags { w: b2 / 128 == 1, ..self.state.flags },
                extra_register_base: spec_extension(b1 / 128),
                extra_index_register_base: spec_extension(b1 / 64),
                extra_base_register_base: if self.is64_mode {
                    spec_extension(b1 / 32)
                } else {
                    0
                },
                vvvv: if self.is64_mode {
                    spec_inverted4(b2 / 8)
                } else {
                    spec_inverted4(b2 / 8) % 8
                },
                vector_length: spec_vector_length(b2 / 4),
                mandatory_prefix: MandatoryPrefixByte::spec_from_pp(b2 % 4),
                ..self.state
            },
            ..self
        }
    }

    /// Decoder as [`Decoder::vex3`] leaves it.
    pub open spec fn spec_vex3(self, encoding: EncodingKind) -> Decoder {
        let d = self.invalidated_if(self.spec_bad_escape());
        d.after_read(1).with_vex3(encoding, d.peek_u8())
    }

    /// Reads the third byte of a three-byte VEX prefix or of an XOP prefix
    /// and the state that the prefix encodes.
    pub fn vex3(&mut self, encoding: EncodingKind)
        requires
            old(self).wf(),
        ensures
            *final(self) == old(self).spec_vex3(encoding),
            final(self).wf(),
            final(self).frame() == old(self).frame(),
            final(self).state.encoding == encoding,
    {
        reveal(Decoder::with_vex3);
        let bad: bool = self.invalid_check && (self.state.flags.has_rex
            || self.state.mandatory_prefix != MandatoryPrefixByte::PNone);
        self.set_invalid_instruction_if(bad);
        let b2: u32 = self.read_u8();
        let b1: u32 = self.state.modrm;
        let is64_mode: bool = self.is64_mode;
        self.state = State {
            encoding,
            flags: StateFlags { w: b2 / 128 == 1, ..self.state.flags },
            extra_register_base: extension(b1 / 128),
            extra_index_register_base: extension(b1 / 64),
            extra_base_register_base: if is64_mode {
                extension(b1 / 32)
            } else {
                0
            },
            vvvv: if is64_mode {
                inverted4(b2 / 8)
            } else {
                inverted4(b2 / 8) % 8
            },
            vector_length: vector_length(b2 / 4),
            mandatory_prefix: MandatoryPrefixByte::from_pp(b2 % 4),
            ..self.state
        };
    }
}

/// The opcode map that the low five bits `select` of a three-byte VEX
/// prefix name, if they name one.
pub open spec fn spec_vex_map(select: u32) -> Option<OpCodeMap> {
    if select == 1 {
        Some(OpCodeMap::Vex0F)
    } else if select == 2 {
        Some(OpCodeMap::Vex0F38)
    } else if select == 3 {
        Some(OpCodeMap::Vex0F3A)
    } else {
        Option::None
    }
}

/// The opcode map that the low five bits `select` of a three-byte VEX
/// prefix name, if they name one.
#[verifier::when_used_as_spec(spec_vex_map)]
pub fn vex_map(select: u32) -> (map: Option<OpCodeMap>)
    ensures
        map == spec_vex_map(select),
{
    if select == 1 {
        Some(OpCodeMap::Vex0F)
    } else if select == 2 {
        Some(OpCodeMap::Vex0F38)
    } else if select == 3 {
        Some(OpCodeMap::Vex0F3A)
    } else {
        None
    }
}

/// The opcode map that the low five bits `select` of an XOP prefix name, if
/// they name one.
pub open spec fn spec_xop_map(select: u32) -> Option<OpCodeMap> {
    if select == 8 {
        Some(OpCodeMap::Xop8)
    } else if select == 9 {
        Some(OpCodeMap::Xop9)
    } else if select == 10 {
        Some(OpCodeMap::XopA)
    } else {
        Option::None
    }
}

/// The opcode map that the low five bits `select` of an XOP prefix name, if
/// they name one.
#[verifier::when_used_as_spec(spec_xop_map)]
pub fn xop_map(select: u32) -> (map: Option<OpCodeMap>)
    ensures
        map == spec_xop_map(select),
{
    if select == 8 {
        Some(OpCodeMap::Xop8)
    } else if select == 9 {
        Some(OpCodeMap::Xop9)
    } else if select == 10 {
        Some(OpCodeMap::XopA)
    } else {
        None
    }
}

/// What runs after a prefix that names the opcode map `map`: the lookup in
/// that map, or nothing if there is no such map.
pub open spec fn spec_next_in_map(map: Option<OpCodeMap>) -> Next {
    match map {
        Some(m) => Next::Lookup(m),
        Option::None => Next::Done,
    }
}

/// What runs after a prefix that names the opcode map `map`.
#[verifier::when_used_as_spec(spec_next_in_map)]
pub fn next_in_map(map: Option<OpCodeMap>) -> (next: Next)
    ensures
        next == spec_next_in_map(map),
{
    match map {
        Some(m) => Next::Lookup(m),
        None => Next::Done,
    }
}

/// The byte `C5`: a two-byte VEX prefix, or, where the bytes can be read
/// so, the legacy instruction of that opcode.
///
/// Outside 64-bit mode the prefix needs the two high bits of the next byte
/// both set.  In every other case the byte is an opcode and the next byte the
/// ModRM byte of a memory form, which the handler at `handler_mem` decodes.
#[derive(Clone, Copy, Debug, PartialEq, Eq, Structural)]
pub struct OpCodeHandler_VEX2 {
    pub has_modrm: bool,
    pub handler_mem: usize,
}

impl OpCodeHandler_VEX2 {
    /// A handler whose legacy reading is the handler at `handler_mem`.
    pub fn new(handler_mem: usize) -> (handler: Self)
        ensures
            handler == (Self { has_modrm: true, handler_mem }),
    {
        Self { has_modrm: true, handler_mem }
    }

    /// Whether the byte is read as a prefix.
    pub open spec fn spec_is_prefix(d: Decoder) -> bool {
        d.state.mod_ == 3 || d.is64_mode
    }

    /// What runs after [`Self::decode`].
    pub open spec fn spec_next(&self, d: Decoder) -> Next {
        if Self::spec_is_prefix(d) {
            Next::Lookup(OpCodeMap::Vex0F)
        } else {
            Next::Handler(self.handler_mem)
        }
    }

    /// Decoder as [`Self::decode`] leaves it.
    pub open spec fn spec_decoder(d: Decoder) -> Decoder {
        if Self::spec_is_prefix(d) {
            d.with_vex2()
        } else {
            d
        }
    }

    /// Decoder and record as [`Self::decode`] leaves them.
    pub open spec fn spec_decode(&self, d: Decoder, i: Instruction) -> Decoded {
        Decoded::at(Self::spec_decoder(d), i)
    }

    /// Reads the byte as a prefix, or leaves it to the legacy handler.
    pub fn decode(&self, decoder: &mut Decoder) -> (next: Next)
        requires
            old(decoder).wf(),
        ensures
            next == self.spec_next(*old(decoder)),
            *final(decoder) == Self::spec_decoder(*old(decoder)),
            final(decoder).wf(),
            final(decoder).frame() == old(decoder).frame(),
            next is Lookup ==> final(decoder).state.encoding == EncodingKind::VEX,
            next is Handler ==> final(decoder).state.encoding == old(decoder).state.encoding,
    {
        if decoder.state.mod_ == 3 || decoder.is64_mode {
            decoder.vex2();
            Next::Lookup(OpCodeMap::Vex0F)
        } else {
            Next::Handler(self.handler_mem)
        }
    }
}

/// The byte `C4`: a three-byte VEX prefix, or, where the bytes can be read
/// so, the legacy instruction of that opcode.
#[derive(Clone, Copy, Debug, PartialEq, Eq, Structural)]
pub struct OpCodeHandler_VEX3 {
    pub has_modrm: bool,
    pub handler_mem: usize,
}

impl OpCodeHandler_VEX3 {
    /// A handler whose legacy reading is the handler at `handler_mem`.
    pub fn new(handler_mem: usize) -> (handler: Self)
        ensures
            handler == (Self { has_modrm: true, handler_mem }),
    {
        Self { has_modrm: true, handler_mem }
    }

    /// Whether the byte is read as a prefix.
    pub open spec fn spec_is_prefix(d: Decoder) -> bool {
        d.state.mod_ == 3 || d.is64_mode
    }

    /// What runs after [`Self::decode`].  A prefix that names no opcode map
    /// ends the instruction, which is then invalid.
    pub open spec fn spec_next(&self, d: Decoder) -> Next {
        if Self::spec_is_prefix(d) {
            spec_next_in_map(spec_vex_map(d.state.modrm % 32))
        } else {
            Next::Handler(self.handler_mem)
        }
    }

    /// Decoder as [`Self::decode`] leaves it.
    pub open spec fn spec_decoder(d: Decoder) -> Decoder {
        if Self::spec_is_prefix(d) {
            d.spec_vex3(EncodingKind::VEX).invalidated_if(spec_vex_map(d.state.modrm % 32) is None)
        } else {
            d
        }
    }

    /// Decoder and record as [`Self::decode`] leaves them.
    pub open spec fn spec_decode(&self, d: Decoder, i: Instruction) -> Decoded {
        Decoded::at(Self::spec_decoder(d), i)
    }

    /// Reads the byte as a prefix, or leaves it to the legacy handler.
    pub fn decode(&self, decoder: &mut Decoder) -> (next: Next)
        requires
            old(decoder).wf(),
        ensures
            next == self.spec_next(*old(decoder)),
            *final(decoder) == Self::spec_decoder(*old(decoder)),
            final(decoder).wf(),
            final(decoder).frame() == old(decoder).frame(),
            next is Lookup ==> final(decoder).state.encoding == EncodingKind::VEX,
            next is Handler ==> final(decoder).state.encoding == old(decoder).state.encoding,
            !(next is HandlerModRM),
    {
        if decoder.state.mod_ == 3 || decoder.is64_mode {
            let map: Option<OpCodeMap> = vex_map(decoder.state.modrm % 32);
            decoder.vex3(EncodingKind::VEX);
            decoder.set_invalid_instruction_if(map.is_none());
            next_in_map(map)
        } else {
            Next::Handler(self.handler_mem)
        }
    }
}

/// The byte `8F`: an XOP prefix, or, where the bytes can be read so, the
/// legacy instruction of that opcode.
///
/// As with the VEX prefixes, the byte is the prefix in 64-bit mode, and
/// outside it where the two high bits of the next byte are both set.  In
/// every other case the byte is an opcode and the next byte the ModRM byte
/// of a memory form, which the handler at `handler_reg0` decodes.  The
/// prefix names one of the opcode maps 8, 9 and 10; a prefix that names
/// another makes the instruction invalid.
#[derive(Clone, Copy, Debug, PartialEq, Eq, Structural)]
pub struct OpCodeHandler_XOP {
    pub has_modrm: bool,
    pub handler_reg0: usize,
}

impl OpCodeHandler_XOP {
    /// A handler whose legacy reading is the handler at `handler_reg0`.
    pub fn new(handler_reg0: usize) -> (handler: Self)
        ensures
            handler == (Self { has_modrm: true, handler_reg0 }),
    {
        Self { has_modrm: true, handler_reg0 }
    }

    /// Whether the byte is read as a prefix: in the register form, and in
    /// 64-bit mode.
    pub open spec fn spec_is_prefix(d: Decoder) -> bool {
        d.state.mod_ == 3 || d.is64_mode
    }

    /// What runs after [`Self::decode`].  A prefix that names no opcode map
    /// ends the instruction, which is then invalid.
    pub open spec fn spec_next(&self, d: Decoder) -> Next {
        if Self::spec_is_prefix(d) {
            spec_next_in_map(spec_xop_map(d.state.modrm % 32))
        } else {
            Next::Handler(self.handler_reg0)
        }
    }

    /// Decoder as [`Self::decode`] leaves it.
    pub open spec fn spec_decoder(d: Decoder) -> Decoder {
        if Self::spec_is_prefix(d) {
            d.spec_vex3(EncodingKind::XOP).invalidated_if(spec_xop_map(d.state.modrm % 32) is None)
        } else {
            d
        }
    }

    /// Decoder and record as [`Self::decode`] leaves them.
    pub open spec fn spec_decode(&self, d: Decoder, i: Instruction) -> Decoded {
        Decoded::at(Self::spec_decoder(d), i)
    }

    /// Reads the byte as a prefix, or leaves it to the legacy handler.
    pub fn decode(&self, decoder: &mut Decoder) -> (next: Next)
        requires
            old(decoder).wf(),
        ensures
            next == self.spec_next(*old(decoder)),
            *final(decoder) == Self::spec_decoder(*old(decoder)),
            final(decoder).wf(),
            final(decoder).frame() == old(decoder).frame(),
            next is Lookup ==> final(decoder).state.encoding == EncodingKind::XOP,
            next is Handler ==> final(decoder).state.encoding == old(decoder).state.encoding,
            !(next is HandlerModRM),
    {
        if decoder.state.mod_ == 3 || decoder.is64_mode {
            let map: Option<OpCodeMap> = xop_map(decoder.state.modrm % 32);
            decoder.vex3(EncodingKind::XOP);
            decoder.set_invalid_instruction_if(map.is_none());
            next_in_map(map)
        } else {
            Next::Handler(self.handler_reg0)
        }
    }
}

} // verus!
