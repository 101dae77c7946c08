//! The handler tables and the engine that runs them.
//!
//! All handlers of a decoder live in one sequence and name each other by
//! their index in it.  A selector names only handlers that come before it:
//! the chain from an opcode to the handler that decodes its operands is
//! finite.
use vstd::prelude::*;
use crate::decoder::Decoder;
use crate::handlers::OpCodeHandler;
use crate::instruction::Instruction;
use crate::operand::Decoded;
use crate::selectors::{Next, OpCodeHandler_Invalid, OpCodeMap, INVALID_HANDLER};

verus! {

/// The tables of a decoder: the handlers, and the maps from an opcode byte
/// to a handler.
pub struct HandlerTables {
    /// Every handler.  The first is the invalid handler.
    pub handlers: Vec<OpCodeHandler>,
    /// Handler of each one-byte opcode.
    pub legacy: Vec<usize>,
    /// Handler of each opcode of the VEX map `0F`.
    pub vex_0f: Vec<usize>,
    /// Handler of each opcode of the VEX map `0F 38`.
    pub vex_0f38: Vec<usize>,
    /// Handler of each opcode of the VEX map `0F 3A`.
    pub vex_0f3a: Vec<usize>,
    /// Handler of each opcode of the XOP map 8.
    pub xop8: Vec<usize>,
    /// Handler of each opcode of the XOP map 9.
    pub xop9: Vec<usize>,
    /// Handler of each opcode of the XOP map 10.
    pub xopa: Vec<usize>,
}

impl HandlerTables {
    /// The entries of the opcode map `map`.
    pub open spec fn spec_map(&self, map: OpCodeMap) -> Seq<usize> {
        match map {
            OpCodeMap::Vex0F => self.vex_0f@,
            OpCodeMap::Vex0F38 => self.vex_0f38@,
            OpCodeMap::Vex0F3A => self.vex_0f3a@,
            OpCodeMap::Xop8 => self.xop8@,
            OpCodeMap::Xop9 => self.xop9@,
            OpCodeMap::XopA => self.xopa@,
        }
    }

    /// Whether `index` names a handler before `bound` that runs in the
    /// encoding family that `legacy` names.
    pub open spec fn entry_ok(&self, index: usize, legacy: bool, bound: int) -> bool {
        index < bound && bound <= self.handlers@.len() && self.handlers@[index as int].spec_accepts(
            legacy,
        )
    }

    /// Whether the entries of `map` all name such a handler.
    pub open spec fn map_ok(&self, map: Seq<usize>, legacy: bool, bound: int) -> bool {
        map.len() == 256 && forall|b: int|
            0 <= b < 256 ==> self.entry_ok(#[trigger] map[b], legacy, bound)
    }

    /// Whether the four entries of a selector all name such a handler.
    pub open spec fn four_ok(&self, handlers: Seq<usize>, legacy: bool, bound: int) -> bool {
        forall|j: int| 0 <= j < 4 ==> self.entry_ok(#[trigger] handlers[j], legacy, bound)
    }

    /// Whether the four handlers that `handlers` names read a ModRM byte
    /// exactly if `has_modrm` says so.
    pub open spec fn four_modrm(&self, handlers: Seq<usize>, has_modrm: bool) -> bool {
        forall|j: int|
            0 <= j < 4 ==> self.handlers@[(#[trigger] handlers[j]) as int].spec_has_modrm()
                == has_modrm
    }

    /// Whether `handler` is well-formed and, if it is a selector, selects
    /// among handlers that come before `bound` and run in the encoding
    /// family in which it selects them.
    ///
    /// The handlers of a selector by mandatory prefix read a ModRM byte as
    /// the selector does, those of a selector by form and prefix all read
    /// one, and the two handlers that a selector by vector length was made
    /// with read one as it does.
    pub open spec fn fits(&self, handler: OpCodeHandler, bound: int) -> bool {
        &&& handler.wf()
        &&& match handler {
            OpCodeHandler::MandatoryPrefix(h) => {
                &&& self.four_ok(h.handlers@, true, bound)
                &&& self.four_modrm(h.handlers@, h.has_modrm)
            },
            OpCodeHandler::MandatoryPrefix3(h) => {
                &&& self.four_ok(h.handlers_reg@, true, bound)
                &&& self.four_ok(h.handlers_mem@, true, bound)
                &&& self.four_modrm(h.handlers_reg@, true)
                &&& self.four_modrm(h.handlers_mem@, true)
            },
            OpCodeHandler::MandatoryPrefix_F3_F2(h) => {
                &&& self.entry_ok(h.handler_normal, true, bound)
                &&& self.entry_ok(h.handler_f3, true, bound)
                &&& self.entry_ok(h.handler_f2, true, bound)
            },
            OpCodeHandler::ReservedNop(h) => {
                &&& self.entry_ok(h.reserved_nop_handler, true, bound)
                &&& self.entry_ok(h.other_handler, true, bound)
            },
            OpCodeHandler::AnotherTable(h) => self.map_ok(h.handlers@, true, bound),
            OpCodeHandler::VectorLength_VEX(h) => {
                &&& self.four_ok(h.handlers@, false, bound)
                &&& self.handlers@[h.handlers@[0] as int].spec_has_modrm() == h.has_modrm
                &&& self.handlers@[h.handlers@[1] as int].spec_has_modrm() == h.has_modrm
            },
            OpCodeHandler::VEX2(h) => self.entry_ok(h.handler_mem, true, bound),
            OpCodeHandler::VEX3(h) => self.entry_ok(h.handler_mem, true, bound),
            OpCodeHandler::XOP(h) => self.entry_ok(h.handler_reg0, true, bound),
            _ => true,
        }
    }

    /// Whether the handler at `k` fits where it stands (see [`Self::fits`]).
    pub open spec fn handler_ok(&self, k: int) -> bool {
        self.fits(self.handlers@[k], k)
    }

    /// The tables are well-formed: the first handler is the invalid one,
    /// every handler is in order (see [`Self::handler_ok`]), and every map
    /// has 256 entries that name handlers of its encoding family.
    pub open spec fn wf(&self) -> bool {
        &&& self.handlers@.len() >= 1
        &&& self.handlers@[INVALID_HANDLER as int] is Invalid
        &&& forall|k: int| 0 <= k < self.handlers@.len() ==> #[trigger] self.handler_ok(k)
        &&& self.map_ok(self.legacy@, true, self.handlers@.len() as int)
        &&& self.map_ok(self.vex_0f@, false, self.handlers@.len() as int)
        &&& self.map_ok(self.vex_0f38@, false, self.handlers@.len() as int)
        &&& self.map_ok(self.vex_0f3a@, false, self.handlers@.len() as int)
        &&& self.map_ok(self.xop8@, false, self.handlers@.len() as int)
        &&& self.map_ok(self.xop9@, false, self.handlers@.len() as int)
        &&& self.map_ok(self.xopa@, false, self.handlers@.len() as int)
    }

    /// Decoder after the ModRM byte of the handler at `index`, if it has
    /// one, has been read.
    pub open spec fn spec_read_modrm_for(&self, index: usize, d: Decoder) -> Decoder {
        if self.handlers@[index as int].spec_has_modrm() {
            d.after_read_modrm()
        } else {
            d
        }
    }

    /// Decoder and record after the handler at `index` and every handler
    /// that it leads to have run.  `legacy` names the encoding family in
    /// which the handler runs.
    ///
    /// A selector hands over to exactly one handler.  The cases in which
    /// nothing more runs, although something is named, do not occur in
    /// well-formed tables.
    pub open spec fn spec_run(&self, legacy: bool, index: usize, d: Decoder, i: Instruction) -> Decoded
        decreases
                (if legacy {
                    1int
                } else {
                    0int
                }),
                index,
    {
        if index >= self.handlers@.len() {
            Decoded::at(d, i)
        } else {
            let handler = self.handlers@[index as int];
            let x = handler.spec_decode(d, i);
            match handler.spec_next(d) {
                Next::Done => x,
                Next::Handler(child) => if child < index {
                    self.spec_run(legacy, child, x.decoder, x.instruction)
                } else {
                    x
                },
                Next::HandlerModRM(child) => if child < index {
                    self.spec_run(
                        legacy,
                        child,
                        self.spec_read_modrm_for(child, x.decoder),
                        x.instruction,
                    )
                } else {
                    x
                },
                Next::Lookup(map) => if legacy {
                    self.spec_lookup(false, self.spec_map(map), x.decoder, x.instruction)
                } else {
                    x
                },
            }
        }
    }

    /// Decoder and record after an opcode byte has been read and looked up
    /// in `map`, and the handler that the map gives for it has run.
    pub open spec fn spec_lookup(
        &self,
        legacy: bool,
        map: Seq<usize>,
        d: Decoder,
        i: Instruction,
    ) -> Decoded
        decreases
                (if legacy {
                    1int
                } else {
                    0int
                }),
                usize::MAX + 1,
    {
        let child = map[d.peek_u8() as int];
        self.spec_run(legacy, child, self.spec_read_modrm_for(child, d.after_read(1)), i)
    }

    /// What the handler at `index` names to run next is in order.
    pub proof fn lemma_next_ok(&self, legacy: bool, index: usize, d: Decoder)
        requires
            self.wf(),
            d.wf(),
            index < self.handlers@.len(),
            self.handlers@[index as int].spec_accepts(legacy),
        ensures
            match self.handlers@[index as int].spec_next(d) {
                Next::Done => true,
                Next::Handler(child) => self.entry_ok(child, legacy, index as int),
                Next::HandlerModRM(child) => self.entry_ok(child, legacy, index as int),
                Next::Lookup(_) => legacy,
            },
    {
        assert(self.handler_ok(index as int));
        let handler = self.handlers@[index as int];
        match handler {
            OpCodeHandler::MandatoryPrefix(h) => {
                let j = d.state.mandatory_prefix.spec_index() as int;
                assert(self.entry_ok(h.handlers@[j], true, index as int));
            },
            OpCodeHandler::MandatoryPrefix3(h) => {
                let j = d.state.mandatory_prefix.spec_index() as int;
                assert(self.entry_ok(h.handlers_reg@[j], true, index as int));
                assert(self.entry_ok(h.handlers_mem@[j], true, index as int));
            },
            OpCodeHandler::AnotherTable(h) => {
                reveal(Decoder::peek_u8);
                let b = d.peek_u8() as int;
                assert(self.entry_ok(h.handlers@[b], true, index as int));
            },
            OpCodeHandler::VectorLength_VEX(h) => {
                let j = d.state.vector_length.spec_index() as int;
                assert(self.entry_ok(h.handlers@[j], false, index as int));
            },
            _ => {},
        }
    }

    /// The opcode map `map`.
    pub fn map(&self, map: OpCodeMap) -> (entries: &Vec<usize>)
        ensures
            entries@ == self.spec_map(map),
    {
        match map {
            OpCodeMap::Vex0F => &self.vex_0f,
            OpCodeMap::Vex0F38 => &self.vex_0f38,
            OpCodeMap::Vex0F3A => &self.vex_0f3a,
            OpCodeMap::Xop8 => &self.xop8,
            OpCodeMap::Xop9 => &self.xop9,
            OpCodeMap::XopA => &self.xopa,
        }
    }

    /// Reads the ModRM byte of the handler at `index`, if it has one.
    pub fn read_modrm_for(&self, index: usize, decoder: &mut Decoder)
        requires
            old(decoder).wf(),
            index < self.handlers@.len(),
        ensures
            *final(decoder) == self.spec_read_modrm_for(index, *old(decoder)),
            final(decoder).wf(),
            final(decoder).frame() == old(decoder).frame(),
            final(decoder).state.encoding == old(decoder).state.encoding,
    {
        if self.handlers[index].has_modrm() {
            decoder.read_modrm();
        }
    }

    /// Runs the handler at `index` and every handler that it leads to.
    ///
    /// Exactly one handler of each selector on the way runs, and the last
    /// handler decodes the operands.
    pub fn run(
        &self,
        legacy: bool,
        index: usize,
        decoder: &mut Decoder,
        instruction: &mut Instruction,
    )
        requires
            self.wf(),
            old(decoder).wf(),
            index < self.handlers@.len(),
            self.handlers@[index as int].spec_accepts(legacy),
            OpCodeHandler::in_family(old(decoder).state.encoding, legacy),
        ensures
            *final(decoder) == self.spec_run(
                legacy,
                index,
                *old(decoder),
                *old(instruction),
            ).decoder,
            *final(instruction) == self.spec_run(
                legacy,
                index,
                *old(decoder),
                *old(instruction),
            ).instruction,
            final(decoder).wf(),
            final(decoder).frame() == old(decoder).frame(),
        decreases
                (if legacy {
                    1int
                } else {
                    0int
                }),
                index,
                0int,
    {
        proof {
            self.lemma_next_ok(legacy, index, *decoder);
            assert(self.handler_ok(index as int));
        }
        let handler: &OpCodeHandler = &self.handlers[index];
        if !handler.is_selector() {
            handler.decode(legacy, decoder, instruction);
            return ;
        }
        let next: Next = handler.select(legacy, decoder, instruction);
        match next {
            Next::Done => {},
            Next::Handler(child) => {
                self.run(legacy, child, decoder, instruction);
            },
            Next::HandlerModRM(child) => {
                self.read_modrm_for(child, decoder);
                self.run(legacy, child, decoder, instruction);
            },
            Next::Lookup(map) => {
                self.lookup(false, self.map(map), decoder, instruction);
            },
        }
    }

    /// Reads an opcode byte, looks it up in `map` and runs the handler
    /// that the map gives for it.
    pub fn lookup(
        &self,
        legacy: bool,
        map: &Vec<usize>,
        decoder: &mut Decoder,
        instruction: &mut Instruction,
    )
        requires
            self.wf(),
            old(decoder).wf(),
            self.map_ok(map@, legacy, self.handlers@.len() as int),
            OpCodeHandler::in_family(old(decoder).state.encoding, legacy),
        ensures
            *final(decoder) == self.spec_lookup(
                legacy,
                map@,
                *old(decoder),
                *old(instruction),
            ).decoder,
            *final(instruction) == self.spec_lookup(
                legacy,
                map@,
                *old(decoder),
                *old(instruction),
            ).instruction,
            final(decoder).wf(),
            final(decoder).frame() == old(decoder).frame(),
        decreases
                (if legacy {
                    1int
                } else {
                    0int
                }),
                usize::MAX + 1,
                0int,
    {
        let b: u32 = decoder.read_u8();
        let child: usize = map[b as usize];
        assert(self.entry_ok(map@[b as int], legacy, self.handlers@.len() as int));
        self.read_modrm_for(child, decoder);
        self.run(legacy, child, decoder, instruction);
    }
}

} // verus!
