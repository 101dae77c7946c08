//! Building handler tables.
//!
//! Tables grow one handler at a time.  A handler is taken only if it fits
//! the tables as they stand, so that the tables are well-formed at every
//! step and nothing has to be checked when an instruction is decoded.
use vstd::prelude::*;
use crate::handlers::OpCodeHandler;
use crate::selectors::{OpCodeHandler_Invalid, OpCodeMap, INVALID_HANDLER};
use crate::tables::HandlerTables;

verus! {

/// An opcode map in which every byte selects the invalid handler.
pub fn invalid_map() -> (map: Vec<usize>)
    ensures
        map@.len() == 256,
        forall|b: int| 0 <= b < 256 ==> map@[b] == INVALID_HANDLER,
{
    let mut map: Vec<usize> = Vec::new();
    let mut n: usize = 0;
    while n < 256
        invariant
            n <= 256,
            map@.len() == n,
            forall|b: int| 0 <= b < n ==> map@[b] == INVALID_HANDLER,
        decreases 256 - n,
    {
        map.push(INVALID_HANDLER);
        n = n + 1;
    }
    map
}

impl HandlerTables {
    /// Tables that hold the invalid handler alone: every opcode is invalid.
    /// A ModRM byte is read for the invalid handler.
    pub fn new() -> (tables: Self)
        ensures
            tables.wf(),
            tables.handlers@ == seq![
                OpCodeHandler::Invalid((OpCodeHandler_Invalid { has_modrm: true })),
            ],
            tables.legacy@.len() == 256,
            forall|b: int| 0 <= b < 256 ==> tables.legacy@[b] == INVALID_HANDLER,
            forall|map: OpCodeMap, b: int|
                0 <= b < 256 ==> #[trigger] tables.spec_map(map)[b] == INVALID_HANDLER,
    {
        let mut handlers: Vec<OpCodeHandler> = Vec::new();
        handlers.push(OpCodeHandler::Invalid(OpCodeHandler_Invalid::new(true)));
        let tables = HandlerTables {
            handlers,
            legacy: invalid_map(),
            vex_0f: invalid_map(),
            vex_0f38: invalid_map(),
            vex_0f3a: invalid_map(),
            xop8: invalid_map(),
            xop9: invalid_map(),
            xopa: invalid_map(),
        };
        assert(tables.handler_ok(0));
        assert(tables.handlers@ =~= seq![
            OpCodeHandler::Invalid((OpCodeHandler_Invalid { has_modrm: true })),
        ]);
        tables
    }

    /// Number of handlers in the tables.
    pub fn len(&self) -> (n: usize)
        ensures
            n == self.handlers@.len(),
    {
        self.handlers.len()
    }

    /// Whether `index` names a handler before `bound` that runs in the
    /// encoding family that `legacy` names.
    pub fn check_entry_before(&self, index: usize, legacy: bool, bound: usize) -> (b: bool)
        ensures
            b == self.entry_ok(index, legacy, bound as int),
    {
        index < bound && bound <= self.handlers.len() && self.handlers[index].accepts(legacy)
    }

    /// Whether `index` names a handler of the tables that runs in the
    /// encoding family that `legacy` names.
    pub fn check_entry(&self, index: usize, legacy: bool) -> (b: bool)
        ensures
            b == self.entry_ok(index, legacy, self.handlers@.len() as int),
    {
        self.check_entry_before(index, legacy, self.handlers.len())
    }

    /// Whether the four entries of a selector all name a handler before
    /// `bound` that runs in the encoding family that `legacy` names.
    pub fn check_four_before(&self, handlers: &[usize; 4], legacy: bool, bound: usize) -> (b: bool)
        ensures
            b == self.four_ok(handlers@, legacy, bound as int),
    {
        let b0: bool = self.check_entry_before(handlers[0], legacy, bound);
        let b1: bool = self.check_entry_before(handlers[1], legacy, bound);
        let b2: bool = self.check_entry_before(handlers[2], legacy, bound);
        let b3: bool = self.check_entry_before(handlers[3], legacy, bound);
        let b: bool = b0 && b1 && b2 && b3;
        proof {
            if b {
                assert forall|j: int| 0 <= j < 4 implies self.entry_ok(
                    #[trigger] handlers@[j],
                    legacy,
                    bound as int,
                ) by {
                    if j == 0 {
                    } else if j == 1 {
                    } else if j == 2 {
                    } else {
                    }
                }
            } else {
                if !b0 {
                    assert(!self.entry_ok(handlers@[0], legacy, bound as int));
                } else if !b1 {
                    assert(!self.entry_ok(handlers@[1], legacy, bound as int));
                } else if !b2 {
                    assert(!self.entry_ok(handlers@[2], legacy, bound as int));
                } else {
                    assert(!self.entry_ok(handlers@[3], legacy, bound as int));
                }
            }
        }
        b
    }

    /// Whether the four entries of a selector all name a handler of the
    /// tables that runs in the encoding family that `legacy` names.
    pub fn check_four(&self, handlers: &[usize; 4], legacy: bool) -> (b: bool)
        ensures
            b == self.four_ok(handlers@, legacy, self.handlers@.len() as int),
    {
        self.check_four_before(handlers, legacy, self.handlers.len())
    }

    /// Whether the four handlers that `handlers` names read a ModRM byte
    /// exactly if `has_modrm` says so.
    pub fn check_four_modrm(&self, handlers: &[usize; 4], has_modrm: bool) -> (b: bool)
        requires
            forall|j: int| 0 <= j < 4 ==> (#[trigger] handlers@[j]) < self.handlers@.len(),
        ensures
            b == self.four_modrm(handlers@, has_modrm),
    {
        let b0: bool = self.handlers[handlers[0]].has_modrm() == has_modrm;
        let b1: bool = self.handlers[handlers[1]].has_modrm() == has_modrm;
        let b2: bool = self.handlers[handlers[2]].has_modrm() == has_modrm;
        let b3: bool = self.handlers[handlers[3]].has_modrm() == has_modrm;
        let b: bool = b0 && b1 && b2 && b3;
        proof {
            if b {
                assert forall|j: int| 0 <= j < 4 implies self.handlers@[(
                #[trigger] handlers@[j]) as int].spec_has_modrm() == has_modrm by {
                    if j == 0 {
                    } else if j == 1 {
                    } else if j == 2 {
                    } else {
                    }
                }
            } else {
                if !b0 {
                    assert(self.handlers@[handlers@[0] as int].spec_has_modrm() != has_modrm);
                } else if !b1 {
                    assert(self.handlers@[handlers@[1] as int].spec_has_modrm() != has_modrm);
                } else if !b2 {
                    assert(self.handlers@[handlers@[2] as int].spec_has_modrm() != has_modrm);
                } else {
                    assert(self.handlers@[handlers@[3] as int].spec_has_modrm() != has_modrm);
                }
            }
        }
        b
    }

    /// Whether `map` has 256 entries that all name a handler before `bound`
    /// that runs in the encoding family that `legacy` names.
    pub fn check_map_before(&self, map: &Vec<usize>, legacy: bool, bound: usize) -> (b: bool)
        ensures
            b == self.map_ok(map@, legacy, bound as int),
    {
        if map.len() != 256 {
            return false;
        }
        let mut n: usize = 0;
        while n < 256
            invariant
                n <= 256,
                map@.len() == 256,
                forall|b: int|
                    0 <= b < n ==> self.entry_ok(#[trigger] map@[b], legacy, bound as int),
            decreases 256 - n,
        {
            if !self.check_entry_before(map[n], legacy, bound) {
                assert(!self.entry_ok(map@[n as int], legacy, bound as int));
                return false;
            }
            n = n + 1;
        }
        true
    }

    /// Whether `map` has 256 entries that all name a handler of the tables
    /// that runs in the encoding family that `legacy` names.
    pub fn check_map(&self, map: &Vec<usize>, legacy: bool) -> (b: bool)
        ensures
            b == self.map_ok(map@, legacy, self.handlers@.len() as int),
    {
        self.check_map_before(map, legacy, self.handlers.len())
    }

    /// Whether `handler` fits before `bound`: it is well-formed, and if it
    /// is a selector, it selects among handlers before `bound` in their
    /// encoding family (see [`HandlerTables::fits`]).
    pub fn check_fits_before(&self, handler: &OpCodeHandler, bound: usize) -> (b: bool)
        ensures
            b == self.fits(*handler, bound as int),
    {
        if !handler.is_wf() {
            return false;
        }
        match handler {
            OpCodeHandler::MandatoryPrefix(h) => {
                self.check_four_before(&h.handlers, true, bound) && self.check_four_modrm(
                    &h.handlers,
                    h.has_modrm,
                )
            },
            OpCodeHandler::MandatoryPrefix3(h) => {
                self.check_four_before(&h.handlers_reg, true, bound) && self.check_four_before(
                    &h.handlers_mem,
                    true,
                    bound,
                ) && self.check_four_modrm(&h.handlers_reg, true) && self.check_four_modrm(
                    &h.handlers_mem,
                    true,
                )
            },
            OpCodeHandler::MandatoryPrefix_F3_F2(h) => {
                self.check_entry_before(h.handler_normal, true, bound) && self.check_entry_before(
                    h.handler_f3,
                    true,
                    bound,
                ) && self.check_entry_before(h.handler_f2, true, bound)
            },
            OpCodeHandler::ReservedNop(h) => {
                self.check_entry_before(h.reserved_nop_handler, true, bound)
                    && self.check_entry_before(h.other_handler, true, bound)
            },
            OpCodeHandler::AnotherTable(h) => self.check_map_before(&h.handlers, true, bound),
            OpCodeHandler::VectorLength_VEX(h) => {
                self.check_four_before(&h.handlers, false, bound)
                    && self.handlers[h.handlers[0]].has_modrm() == h.has_modrm
                    && self.handlers[h.handlers[1]].has_modrm() == h.has_modrm
            },
            OpCodeHandler::VEX2(h) => self.check_entry_before(h.handler_mem, true, bound),
            OpCodeHandler::VEX3(h) => self.check_entry_before(h.handler_mem, true, bound),
            OpCodeHandler::XOP(h) => self.check_entry_before(h.handler_reg0, true, bound),
            _ => true,
        }
    }

    /// Whether `handler` can be added: it is well-formed, and if it is a
    /// selector, it selects among handlers of the tables in their encoding
    /// family (see [`HandlerTables::fits`]).
    pub fn check_fits(&self, handler: &OpCodeHandler) -> (b: bool)
        ensures
            b == self.fits(*handler, self.handlers@.len() as int),
    {
        self.check_fits_before(handler, self.handlers.len())
    }

    /// Whether every handler fits where it stands.
    pub fn check_handlers(&self) -> (b: bool)
        ensures
            b == (forall|k: int| 0 <= k < self.handlers@.len() ==> #[trigger] self.handler_ok(k)),
    {
        let mut k: usize = 0;
        while k < self.handlers.len()
            invariant
                k <= self.handlers@.len(),
                forall|j: int| 0 <= j < k ==> #[trigger] self.handler_ok(j),
            decreases self.handlers@.len() - k,
        {
            if !self.check_fits_before(&self.handlers[k], k) {
                assert(!self.handler_ok(k as int));
                return false;
            }
            k = k + 1;
        }
        true
    }

    /// Whether the tables are well-formed (see [`HandlerTables::wf`]).
    /// Tables that were built with [`HandlerTables::add`],
    /// [`HandlerTables::set_legacy`] and [`HandlerTables::set_map`] alone
    /// are; tables whose fields were written by hand are to be tested
    /// before an instruction is decoded with them.
    pub fn is_wf(&self) -> (b: bool)
        ensures
            b == self.wf(),
    {
        if self.handlers.len() == 0 {
            return false;
        }
        let first_is_invalid: bool = match &self.handlers[INVALID_HANDLER] {
            OpCodeHandler::Invalid(_) => true,
            _ => false,
        };
        first_is_invalid && self.check_handlers() && self.check_map(&self.legacy, true)
            && self.check_map(&self.vex_0f, false) && self.check_map(&self.vex_0f38, false)
            && self.check_map(&self.vex_0f3a, false) && self.check_map(&self.xop8, false)
            && self.check_map(&self.xop9, false) && self.check_map(&self.xopa, false)
    }

    /// A handler that fits tables before `bound` fits tables that go on
    /// after the same handlers.
    pub proof fn lemma_fits_extended(&self, longer: &HandlerTables, handler: OpCodeHandler, bound: int)
        requires
            bound <= self.handlers@.len() <= longer.handlers@.len(),
            forall|k: int| 0 <= k < self.handlers@.len() ==> longer.handlers@[k] == self.handlers@[k],
            self.fits(handler, bound),
        ensures
            longer.fits(handler, bound),
    {
        match handler {
            OpCodeHandler::MandatoryPrefix(h) => {
                assert forall|j: int| 0 <= j < 4 implies longer.entry_ok(
                    #[trigger] h.handlers@[j],
                    true,
                    bound,
                ) && longer.handlers@[h.handlers@[j] as int].spec_has_modrm() == h.has_modrm by {
                    assert(self.entry_ok(h.handlers@[j], true, bound));
                }
            },
            OpCodeHandler::MandatoryPrefix3(h) => {
                assert forall|j: int| 0 <= j < 4 implies longer.entry_ok(
                    #[trigger] h.handlers_reg@[j],
                    true,
                    bound,
                ) && longer.handlers@[h.handlers_reg@[j] as int].spec_has_modrm() by {
                    assert(self.entry_ok(h.handlers_reg@[j], true, bound));
                }
                assert forall|j: int| 0 <= j < 4 implies longer.entry_ok(
                    #[trigger] h.handlers_mem@[j],
                    true,
                    bound,
                ) && longer.handlers@[h.handlers_mem@[j] as int].spec_has_modrm() by {
                    assert(self.entry_ok(h.handlers_mem@[j], true, bound));
                }
            },
            OpCodeHandler::AnotherTable(h) => {
                assert forall|b: int| 0 <= b < 256 implies longer.entry_ok(
                    #[trigger] h.handlers@[b],
                    true,
                    bound,
                ) by {
                    assert(self.entry_ok(h.handlers@[b], true, bound));
                }
            },
            OpCodeHandler::VectorLength_VEX(h) => {
                assert forall|j: int| 0 <= j < 4 implies longer.entry_ok(
                    #[trigger] h.handlers@[j],
                    false,
                    bound,
                ) by {
                    assert(self.entry_ok(h.handlers@[j], false, bound));
                }
                assert(self.entry_ok(h.handlers@[0], false, bound));
                assert(self.entry_ok(h.handlers@[1], false, bound));
            },
            _ => {},
        }
    }

    /// A map that is in order for tables is in order for tables that go on
    /// after the same handlers.
    pub proof fn lemma_map_extended(&self, longer: &HandlerTables, map: Seq<usize>, legacy: bool)
        requires
            self.handlers@.len() <= longer.handlers@.len(),
            forall|k: int| 0 <= k < self.handlers@.len() ==> longer.handlers@[k] == self.handlers@[k],
            self.map_ok(map, legacy, self.handlers@.len() as int),
        ensures
            longer.map_ok(map, legacy, longer.handlers@.len() as int),
    {
        assert forall|b: int| 0 <= b < 256 implies longer.entry_ok(
            #[trigger] map[b],
            legacy,
            longer.handlers@.len() as int,
        ) by {
            assert(self.entry_ok(map[b], legacy, self.handlers@.len() as int));
        }
    }

    /// Adds `handler` to the tables if it fits them, and returns its
    /// index.  A handler that does not fit is not added: a selector must be
    /// added after the handlers it selects among.
    pub fn add(&mut self, handler: OpCodeHandler) -> (index: Option<usize>)
        requires
            old(self).wf(),
        ensures
            final(self).wf(),
            index is Some <==> old(self).fits(handler, old(self).handlers@.len() as int),
            index matches Some(k) ==> k == old(self).handlers@.len() && final(self).handlers@
                == old(self).handlers@.push(handler),
            index is None ==> final(self).handlers@ == old(self).handlers@,
            final(self).legacy@ == old(self).legacy@,
            forall|map: OpCodeMap| final(self).spec_map(map) == old(self).spec_map(map),
    {
        if !self.check_fits(&handler) {
            return None;
        }
        let ghost before = *self;
        let index: usize = self.handlers.len();
        self.handlers.push(handler);
        proof {
            let after = *self;
            assert forall|k: int| 0 <= k < after.handlers@.len() implies #[trigger] after.handler_ok(
                k,
            ) by {
                if k < before.handlers@.len() {
                    assert(before.handler_ok(k));
                    before.lemma_fits_extended(&after, before.handlers@[k], k);
                } else {
                    before.lemma_fits_extended(&after, handler, k);
                }
            }
            before.lemma_map_extended(&after, before.legacy@, true);
            before.lemma_map_extended(&after, before.vex_0f@, false);
            before.lemma_map_extended(&after, before.vex_0f38@, false);
            before.lemma_map_extended(&after, before.vex_0f3a@, false);
            before.lemma_map_extended(&after, before.xop8@, false);
            before.lemma_map_extended(&after, before.xop9@, false);
            before.lemma_map_extended(&after, before.xopa@, false);
        }
        Some(index)
    }

    /// Makes the handler at `index` the handler of the one-byte opcode
    /// `opcode`, if it is a legacy handler of the tables.  Returns whether
    /// it is.
    pub fn set_legacy(&mut self, opcode: u8, index: usize) -> (done: bool)
        requires
            old(self).wf(),
        ensures
            final(self).wf(),
            done == old(self).entry_ok(index, true, old(self).handlers@.len() as int),
            done ==> final(self).legacy@ == old(self).legacy@.update(opcode as int, index),
            !done ==> final(self).legacy@ == old(self).legacy@,
            final(self).handlers@ == old(self).handlers@,
            forall|map: OpCodeMap| final(self).spec_map(map) == old(self).spec_map(map),
    {
        if !self.check_entry(index, true) {
            return false;
        }
        let ghost before = *self;
        self.legacy.set(opcode as usize, index);
        proof {
            let after = *self;
            assert forall|k: int| 0 <= k < after.handlers@.len() implies #[trigger] after.handler_ok(
                k,
            ) by {
                assert(before.handler_ok(k));
                before.lemma_fits_extended(&after, before.handlers@[k], k);
            }
            assert forall|b: int| 0 <= b < 256 implies after.entry_ok(
                #[trigger] after.legacy@[b],
                true,
                after.handlers@.len() as int,
            ) by {
                if b != opcode as int {
                    assert(before.entry_ok(before.legacy@[b], true, before.handlers@.len() as int));
                }
            }
            before.lemma_map_extended(&after, before.vex_0f@, false);
            before.lemma_map_extended(&after, before.vex_0f38@, false);
            before.lemma_map_extended(&after, before.vex_0f3a@, false);
            before.lemma_map_extended(&after, before.xop8@, false);
            before.lemma_map_extended(&after, before.xop9@, false);
            before.lemma_map_extended(&after, before.xopa@, false);
        }
        true
    }

    /// Replaces the opcode map `map` by `entries`, if they are 256 in
    /// number and all name VEX or XOP handlers of the tables.  Returns
    /// whether they do.
    pub fn set_map(&mut self, map: OpCodeMap, entries: Vec<usize>) -> (done: bool)
        requires
            old(self).wf(),
        ensures
            final(self).wf(),
            done == old(self).map_ok(entries@, false, old(self).handlers@.len() as int),
            done ==> final(self).spec_map(map) == entries@,
            !done ==> final(self).spec_map(map) == old(self).spec_map(map),
            forall|other: OpCodeMap| other != map ==> final(self).spec_map(other) == old(
                self,
            ).spec_map(other),
            final(self).handlers@ == old(self).handlers@,
            final(self).legacy@ == old(self).legacy@,
    {
        if !self.check_map(&entries, false) {
            return false;
        }
        let ghost before = *self;
        match map {
            OpCodeMap::Vex0F => {
                self.vex_0f = entries;
            },
            OpCodeMap::Vex0F38 => {
                self.vex_0f38 = entries;
            },
            OpCodeMap::Vex0F3A => {
                self.vex_0f3a = entries;
            },
            OpCodeMap::Xop8 => {
                self.xop8 = entries;
            },
            OpCodeMap::Xop9 => {
                self.xop9 = entries;
            },
            OpCodeMap::XopA => {
                self.xopa = entries;
            },
        }
        proof {
            let after = *self;
            assert forall|k: int| 0 <= k < after.handlers@.len() implies #[trigger] after.handler_ok(
                k,
            ) by {
                assert(before.handler_ok(k));
                before.lemma_fits_extended(&after, before.handlers@[k], k);
            }
            before.lemma_map_extended(&after, before.legacy@, true);
            before.lemma_map_extended(&after, after.vex_0f@, false);
            before.lemma_map_extended(&after, after.vex_0f38@, false);
            before.lemma_map_extended(&after, after.vex_0f3a@, false);
            before.lemma_map_extended(&after, after.xop8@, false);
            before.lemma_map_extended(&after, after.xop9@, false);
            before.lemma_map_extended(&after, after.xopa@, false);
        }
        true
    }
}

} // verus!
