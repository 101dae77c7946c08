//! The opcode handler: one type for every handler of a table.
use vstd::prelude::*;
use crate::decoder::Decoder;
use crate::enums::EncodingKind;
use crate::instruction::Instruction;
use crate::legacy_branch::BranchHandler;
use crate::legacy_eb::EbHandler;
use crate::legacy_ev::EvHandler;
use crate::legacy_gv::GvHandler;
use crate::legacy_imm::ImmHandler;
use crate::legacy_mpx::MpxHandler;
use crate::legacy_simd::SimdHandler;
use crate::legacy_simple::SimpleHandler;
use crate::legacy_string::StringHandler;
use crate::operand::Decoded;
use crate::selectors::{
    Next, OpCodeHandler_AnotherTable, OpCodeHandler_Invalid, OpCodeHandler_MandatoryPrefix,
    OpCodeHandler_MandatoryPrefix3, OpCodeHandler_MandatoryPrefix_F3_F2,
    OpCodeHandler_ReservedNop, OpCodeHandler_VEX2, OpCodeHandler_VEX3,
    OpCodeHandler_VectorLength_VEX, OpCodeHandler_XOP,
};
use crate::vex_basic::VexHandler;
use crate::vex_mask::VexMaskHandler;
use crate::vex_vvvv::VexVvvvHandler;

verus! {

/// A handler of an opcode table.
///
/// Handlers are immutable once made.  The ones that decode operands change
/// the decoder and the record and end the instruction.  The selectors name
/// the handler that runs next.
pub enum OpCodeHandler {
    Invalid(OpCodeHandler_Invalid),
    Imm(ImmHandler),
    Simple(SimpleHandler),
    Branch(BranchHandler),
    String(StringHandler),
    Ev(EvHandler),
    Gv(GvHandler),
    Eb(EbHandler),
    Simd(SimdHandler),
    Mpx(MpxHandler),
    Vex(VexHandler),
    VexVvvv(VexVvvvHandler),
    VexMask(VexMaskHandler),
    MandatoryPrefix(OpCodeHandler_MandatoryPrefix),
    MandatoryPrefix3(OpCodeHandler_MandatoryPrefix3),
    MandatoryPrefix_F3_F2(OpCodeHandler_MandatoryPrefix_F3_F2),
    ReservedNop(OpCodeHandler_ReservedNop),
    AnotherTable(OpCodeHandler_AnotherTable),
    VectorLength_VEX(OpCodeHandler_VectorLength_VEX),
    VEX2(OpCodeHandler_VEX2),
    VEX3(OpCodeHandler_VEX3),
    XOP(OpCodeHandler_XOP),
}

impl OpCodeHandler {
    /// Whether a ModRM byte is read before the handler runs.
    pub open spec fn spec_has_modrm(&self) -> bool {
        match self {
            OpCodeHandler::Invalid(h) => h.has_modrm,
            OpCodeHandler::Imm(h) => h.spec_has_modrm(),
            OpCodeHandler::Simple(h) => h.spec_has_modrm(),
            OpCodeHandler::Branch(h) => h.spec_has_modrm(),
            OpCodeHandler::String(h) => h.spec_has_modrm(),
            OpCodeHandler::Ev(h) => h.spec_has_modrm(),
            OpCodeHandler::Gv(h) => h.spec_has_modrm(),
            OpCodeHandler::Eb(h) => h.spec_has_modrm(),
            OpCodeHandler::Simd(h) => h.spec_has_modrm(),
            OpCodeHandler::Mpx(h) => h.spec_has_modrm(),
            OpCodeHandler::Vex(h) => h.spec_has_modrm(),
            OpCodeHandler::VexVvvv(h) => h.spec_has_modrm(),
            OpCodeHandler::VexMask(h) => h.spec_has_modrm(),
            OpCodeHandler::MandatoryPrefix(h) => h.has_modrm,
            OpCodeHandler::MandatoryPrefix3(h) => h.has_modrm,
            OpCodeHandler::MandatoryPrefix_F3_F2(h) => h.has_modrm,
            OpCodeHandler::ReservedNop(h) => h.has_modrm,
            OpCodeHandler::AnotherTable(h) => h.has_modrm,
            OpCodeHandler::VectorLength_VEX(h) => h.has_modrm,
            OpCodeHandler::VEX2(h) => h.has_modrm,
            OpCodeHandler::VEX3(h) => h.has_modrm,
            OpCodeHandler::XOP(h) => h.has_modrm,
        }
    }

    /// Whether a ModRM byte is read before the handler runs.
    #[verifier::when_used_as_spec(spec_has_modrm)]
    pub fn has_modrm(&self) -> (b: bool)
        ensures
            b == self.spec_has_modrm(),
    {
        match self {
            OpCodeHandler::Invalid(h) => h.has_modrm,
            OpCodeHandler::Imm(h) => h.has_modrm(),
            OpCodeHandler::Simple(h) => h.has_modrm(),
            OpCodeHandler::Branch(h) => h.has_modrm(),
            OpCodeHandler::String(h) => h.has_modrm(),
            OpCodeHandler::Ev(h) => h.has_modrm(),
            OpCodeHandler::Gv(h) => h.has_modrm(),
            OpCodeHandler::Eb(h) => h.has_modrm(),
            OpCodeHandler::Simd(h) => h.has_modrm(),
            OpCodeHandler::Mpx(h) => h.has_modrm(),
            OpCodeHandler::Vex(h) => h.has_modrm(),
            OpCodeHandler::VexVvvv(h) => h.has_modrm(),
            OpCodeHandler::VexMask(h) => h.has_modrm(),
            OpCodeHandler::MandatoryPrefix(h) => h.has_modrm,
            OpCodeHandler::MandatoryPrefix3(h) => h.has_modrm,
            OpCodeHandler::MandatoryPrefix_F3_F2(h) => h.has_modrm,
            OpCodeHandler::ReservedNop(h) => h.has_modrm,
            OpCodeHandler::AnotherTable(h) => h.has_modrm,
            OpCodeHandler::VectorLength_VEX(h) => h.has_modrm,
            OpCodeHandler::VEX2(h) => h.has_modrm,
            OpCodeHandler::VEX3(h) => h.has_modrm,
            OpCodeHandler::XOP(h) => h.has_modrm,
        }
    }

    /// The handler's own parameters are in range.
    pub open spec fn wf(&self) -> bool {
        match self {
            OpCodeHandler::Imm(h) => h.wf(),
            OpCodeHandler::Simple(h) => h.wf(),
            OpCodeHandler::Branch(h) => h.wf(),
            OpCodeHandler::String(h) => h.wf(),
            OpCodeHandler::Ev(h) => h.wf(),
            OpCodeHandler::Gv(h) => h.wf(),
            OpCodeHandler::Eb(h) => h.wf(),
            OpCodeHandler::Simd(h) => h.wf(),
            OpCodeHandler::Mpx(h) => h.wf(),
            OpCodeHandler::Vex(h) => h.wf(),
            OpCodeHandler::VexVvvv(h) => h.wf(),
            OpCodeHandler::VexMask(h) => h.wf(),
            OpCodeHandler::AnotherTable(h) => h.wf(),
            _ => true,
        }
    }

    /// Whether the handler's own parameters are in range.
    #[verifier::when_used_as_spec(wf)]
    pub fn is_wf(&self) -> (b: bool)
        ensures
            b == self.wf(),
    {
        match self {
            OpCodeHandler::Imm(h) => h.is_wf(),
            OpCodeHandler::Simple(h) => h.is_wf(),
            OpCodeHandler::Branch(h) => h.is_wf(),
            OpCodeHandler::String(h) => h.is_wf(),
            OpCodeHandler::Ev(h) => h.is_wf(),
            OpCodeHandler::Gv(h) => h.is_wf(),
            OpCodeHandler::Eb(h) => h.is_wf(),
            OpCodeHandler::Simd(h) => h.is_wf(),
            OpCodeHandler::Mpx(h) => h.is_wf(),
            OpCodeHandler::Vex(h) => h.is_wf(),
            OpCodeHandler::VexVvvv(h) => h.is_wf(),
            OpCodeHandler::VexMask(h) => h.is_wf(),
            OpCodeHandler::AnotherTable(h) => h.is_wf(),
            _ => true,
        }
    }

    /// Whether the handler may run for a legacy instruction, if `legacy`,
    /// or else for a VEX or XOP instruction.
    ///
    /// Every handler belongs to one encoding family.  Only the invalid
    /// handler serves both.  The handlers of the prefix bytes of VEX and XOP
    /// are legacy handlers: what they find is not known before they run.
    pub open spec fn spec_accepts(&self, legacy: bool) -> bool {
        match self {
            OpCodeHandler::Invalid(_) => true,
            OpCodeHandler::Vex(_) => !legacy,
            OpCodeHandler::VexVvvv(_) => !legacy,
            OpCodeHandler::VexMask(_) => !legacy,
            OpCodeHandler::VectorLength_VEX(_) => !legacy,
            _ => legacy,
        }
    }

    /// Whether the handler may run for a legacy instruction, if `legacy`,
    /// or else for a VEX or XOP instruction.
    #[verifier::when_used_as_spec(spec_accepts)]
    pub fn accepts(&self, legacy: bool) -> (b: bool)
        ensures
            b == self.spec_accepts(legacy),
    {
        match self {
            OpCodeHandler::Invalid(_) => true,
            OpCodeHandler::Vex(_) => !legacy,
            OpCodeHandler::VexVvvv(_) => !legacy,
            OpCodeHandler::VexMask(_) => !legacy,
            OpCodeHandler::VectorLength_VEX(_) => !legacy,
            _ => legacy,
        }
    }

    /// What runs after the handler.
    pub open spec fn spec_next(&self, d: Decoder) -> Next {
        match self {
            OpCodeHandler::MandatoryPrefix(h) => Next::Handler(
                h.spec_select(d.state.mandatory_prefix),
            ),
            OpCodeHandler::MandatoryPrefix3(h) => Next::Handler(h.spec_select(d.state)),
            OpCodeHandler::MandatoryPrefix_F3_F2(h) => Next::HandlerModRM(
                h.spec_select(d.state.mandatory_prefix),
            ),
            OpCodeHandler::ReservedNop(h) => Next::Handler(h.spec_select(d.options)),
            OpCodeHandler::AnotherTable(h) => Next::HandlerModRM(h.spec_select(d)),
            OpCodeHandler::VectorLength_VEX(h) => Next::Handler(h.spec_select(d.state)),
            OpCodeHandler::VEX2(h) => h.spec_next(d),
            OpCodeHandler::VEX3(h) => h.spec_next(d),
            OpCodeHandler::XOP(h) => h.spec_next(d),
            _ => Next::Done,
        }
    }

    /// Decoder and record as the handler alone leaves them.
    #[verifier::opaque]
    pub open spec fn spec_decode(&self, d: Decoder, i: Instruction) -> Decoded {
        match self {
            OpCodeHandler::Invalid(h) => h.spec_decode(d, i),
            OpCodeHandler::Imm(h) => h.spec_decode(d, i),
            OpCodeHandler::Simple(h) => h.spec_decode(d, i),
            OpCodeHandler::Branch(h) => h.spec_decode(d, i),
            OpCodeHandler::String(h) => h.spec_decode(d, i),
            OpCodeHandler::Ev(h) => h.spec_decode(d, i),
            OpCodeHandler::Gv(h) => h.spec_decode(d, i),
            OpCodeHandler::Eb(h) => h.spec_decode(d, i),
            OpCodeHandler::Simd(h) => h.spec_decode(d, i),
            OpCodeHandler::Mpx(h) => h.spec_decode(d, i),
            OpCodeHandler::Vex(h) => h.spec_decode(d, i),
            OpCodeHandler::VexVvvv(h) => h.spec_decode(d, i),
            OpCodeHandler::VexMask(h) => h.spec_decode(d, i),
            OpCodeHandler::MandatoryPrefix(h) => h.spec_decode(d, i),
            OpCodeHandler::MandatoryPrefix3(h) => h.spec_decode(d, i),
            OpCodeHandler::MandatoryPrefix_F3_F2(h) => h.spec_decode(d, i),
            OpCodeHandler::ReservedNop(_) => Decoded::at(d, i),
            OpCodeHandler::AnotherTable(h) => h.spec_decode(d, i),
            OpCodeHandler::VectorLength_VEX(_) => Decoded::at(d, i),
            OpCodeHandler::VEX2(h) => h.spec_decode(d, i),
            OpCodeHandler::VEX3(h) => h.spec_decode(d, i),
            OpCodeHandler::XOP(h) => h.spec_decode(d, i),
        }
    }

    /// Whether `encoding` is that of a legacy instruction, if `legacy`, or
    /// else that of a VEX or XOP instruction.
    pub open spec fn in_family(encoding: EncodingKind, legacy: bool) -> bool {
        if legacy {
            encoding == EncodingKind::Legacy
        } else {
            encoding == EncodingKind::VEX || encoding == EncodingKind::XOP
        }
    }

    /// Whether the handler selects another handler; if not, it decodes
    /// operands and ends the instruction.
    pub open spec fn spec_is_selector(&self) -> bool {
        match self {
            OpCodeHandler::MandatoryPrefix(_) => true,
            OpCodeHandler::MandatoryPrefix3(_) => true,
            OpCodeHandler::MandatoryPrefix_F3_F2(_) => true,
            OpCodeHandler::ReservedNop(_) => true,
            OpCodeHandler::AnotherTable(_) => true,
            OpCodeHandler::VectorLength_VEX(_) => true,
            OpCodeHandler::VEX2(_) => true,
            OpCodeHandler::VEX3(_) => true,
            OpCodeHandler::XOP(_) => true,
            _ => false,
        }
    }

    /// Whether the handler selects another handler.
    #[verifier::when_used_as_spec(spec_is_selector)]
    pub fn is_selector(&self) -> (b: bool)
        ensures
            b == self.spec_is_selector(),
    {
        match self {
            OpCodeHandler::MandatoryPrefix(_) => true,
            OpCodeHandler::MandatoryPrefix3(_) => true,
            OpCodeHandler::MandatoryPrefix_F3_F2(_) => true,
            OpCodeHandler::ReservedNop(_) => true,
            OpCodeHandler::AnotherTable(_) => true,
            OpCodeHandler::VectorLength_VEX(_) => true,
            OpCodeHandler::VEX2(_) => true,
            OpCodeHandler::VEX3(_) => true,
            OpCodeHandler::XOP(_) => true,
            _ => false,
        }
    }

    /// Decodes the operands of the instruction with a handler that is no
    /// selector.
    pub fn decode(&self, legacy: bool, decoder: &mut Decoder, instruction: &mut Instruction)
        requires
            old(decoder).wf(),
            self.wf(),
            !self.spec_is_selector(),
            self.spec_accepts(legacy),
            Self::in_family(old(decoder).state.encoding, legacy),
        ensures
            *final(decoder) == self.spec_decode(*old(decoder), *old(instruction)).decoder,
            *final(instruction) == self.spec_decode(
                *old(decoder),
                *old(instruction),
            ).instruction,
            final(decoder).wf(),
            final(decoder).frame() == old(decoder).frame(),
    {
        reveal(OpCodeHandler::spec_decode);
        match self {
            OpCodeHandler::Invalid(h) => h.decode(decoder, instruction),
            OpCodeHandler::Imm(h) => h.decode(decoder, instruction),
            OpCodeHandler::Simple(h) => h.decode(decoder, instruction),
            OpCodeHandler::Branch(h) => h.decode(decoder, instruction),
            OpCodeHandler::String(h) => h.decode(decoder, instruction),
            OpCodeHandler::Ev(h) => h.decode(decoder, instruction),
            OpCodeHandler::Gv(h) => h.decode(decoder, instruction),
            OpCodeHandler::Eb(h) => h.decode(decoder, instruction),
            OpCodeHandler::Simd(h) => h.decode(decoder, instruction),
            OpCodeHandler::Mpx(h) => h.decode(decoder, instruction),
            OpCodeHandler::Vex(h) => h.decode(decoder, instruction),
            OpCodeHandler::VexVvvv(h) => h.decode(decoder, instruction),
            OpCodeHandler::VexMask(h) => h.decode(decoder, instruction),
            _ => {},
        }
    }

    /// Runs a selector and returns what runs next.
    ///
    /// A lookup in an opcode map follows a VEX or XOP prefix only: the
    /// encoding is then that of the prefix.  In every other case the
    /// encoding is as it was.
    pub fn select(&self, legacy: bool, decoder: &mut Decoder, instruction: &mut Instruction) -> (next:
        Next)
        requires
            old(decoder).wf(),
            self.wf(),
            self.spec_is_selector(),
            self.spec_accepts(legacy),
            Self::in_family(old(decoder).state.encoding, legacy),
        ensures
            next == self.spec_next(*old(decoder)),
            *final(decoder) == self.spec_decode(*old(decoder), *old(instruction)).decoder,
            *final(instruction) == self.spec_decode(
                *old(decoder),
                *old(instruction),
            ).instruction,
            final(decoder).wf(),
            final(decoder).frame() == old(decoder).frame(),
            next is Lookup ==> legacy && Self::in_family(final(decoder).state.encoding, false),
            next is Handler || next is HandlerModRM ==> final(decoder).state.encoding == old(
                decoder,
            ).state.encoding,
    {
        reveal(OpCodeHandler::spec_decode);
        match self {
            OpCodeHandler::MandatoryPrefix(h) => Next::Handler(h.decode(decoder, instruction)),
            OpCodeHandler::MandatoryPrefix3(h) => Next::Handler(h.decode(decoder, instruction)),
            OpCodeHandler::MandatoryPrefix_F3_F2(h) => Next::HandlerModRM(
                h.decode(decoder, instruction),
            ),
            OpCodeHandler::ReservedNop(h) => Next::Handler(h.decode(decoder)),
            OpCodeHandler::AnotherTable(h) => Next::HandlerModRM(h.decode(decoder)),
            OpCodeHandler::VectorLength_VEX(h) => Next::Handler(h.decode(decoder)),
            OpCodeHandler::VEX2(h) => h.decode(decoder),
            OpCodeHandler::VEX3(h) => h.decode(decoder),
            OpCodeHandler::XOP(h) => h.decode(decoder),
            _ => Next::Done,
        }
    }
}

} // verus!
