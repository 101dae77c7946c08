//! What holds of the decoder as a whole.
use vstd::prelude::*;
use crate::arith::wrap;
use crate::decoder::{Decoder, MAX_INSTRUCTION_LENGTH};
use crate::enums::{MandatoryPrefixByte, OpSize};
use crate::handlers::OpCodeHandler;
use crate::instruction::Instruction;
use crate::tables::HandlerTables;

verus! {

/// Whether two decoders stand at the same place of the same input, at the
/// same address, in the same mode and with the same options.
pub open spec fn same_input(a: Decoder, b: Decoder) -> bool {
    &&& a.data == b.data
    &&& a.position == b.position
    &&& a.ip == b.ip
    &&& a.options == b.options
    &&& a.invalid_check == b.invalid_check
    &&& a.is64_mode == b.is64_mode
    &&& a.default_code_size == b.default_code_size
    &&& a.default_operand_size == b.default_operand_size
    &&& a.default_address_size == b.default_address_size
}

/// Decoding is a function of the input alone: two decoders that stand at
/// the same place of the same input, in the same mode and with the same
/// options, yield the same record and end in the same state, whatever they
/// decoded before.
pub proof fn lemma_decode_deterministic(a: Decoder, b: Decoder, tables: HandlerTables)
    requires
        same_input(a, b),
    ensures
        a.spec_decode_out(tables).instruction == b.spec_decode_out(tables).instruction,
        a.spec_decode_out(tables).decoder == b.spec_decode_out(tables).decoder,
{
    assert(a.spec_start() == b.spec_start());
}

/// A 64-bit address size occurs in 64-bit mode only, in every decoder that
/// a handler may be run with.
pub proof fn lemma_mode_consistency(d: Decoder)
    requires
        d.wf(),
    ensures
        d.state.address_size == OpSize::Size64 ==> d.is64_mode,
        d.state.operand_size == OpSize::Size64 ==> d.is64_mode,
{
}

/// The target of a near branch is the displacement plus the address that
/// follows it, taken modulo two to the width of the branch: a sum that
/// leaves the width wraps, and every sum has a target.
pub proof fn lemma_branch_target_wraps(d: Decoder, displacement: int, size: OpSize)
    ensures
        d.spec_branch_target(displacement, size) == wrap(
            d.ip + (d.position - d.instr_start) + displacement,
            size,
        ),
        size == OpSize::Size16 ==> d.spec_branch_target(displacement, size) as int == (d.ip + (
        d.position - d.instr_start) + displacement) % 0x1_0000,
        size == OpSize::Size32 ==> d.spec_branch_target(displacement, size) as int == (d.ip + (
        d.position - d.instr_start) + displacement) % 0x1_0000_0000,
{
    reveal(Decoder::spec_branch_target);
}

/// The length of an instruction is the number of bytes that the cursor
/// moves over it, and at most fifteen, whether the instruction is valid or
/// not: an invalid instruction has an empty record but the length of its
/// encoding.
pub proof fn lemma_length_conservation(d: Decoder, i: Instruction)
    requires
        d.wf(),
    ensures
        d.spec_finish_instruction(i).len == d.finished().position - d.instr_start,
        d.spec_finish_instruction(i).len <= MAX_INSTRUCTION_LENGTH,
        d.finished().instr_start == d.instr_start,
        d.spec_is_bad() ==> d.spec_finish_instruction(i).code == crate::code::INVALID,
        !d.state.flags.no_more_bytes ==> d.finished().position == d.position,
        d.finished().state.flags.is_invalid == d.spec_is_bad(),
{
    reveal(Decoder::finished);
    reveal(Instruction::completed);
}

/// A selector by mandatory prefix hands over to exactly one of its four
/// handlers, the one in the slot of the mandatory prefix, and to no other:
/// what runs is that handler, on the decoder as it was and on the record
/// without its `REPE` and `REPNE` prefixes.
pub proof fn lemma_mandatory_prefix_selects_one(
    tables: HandlerTables,
    index: usize,
    d: Decoder,
    i: Instruction,
)
    requires
        tables.wf(),
        d.wf(),
        index < tables.handlers@.len(),
        tables.handlers@[index as int] is MandatoryPrefix,
    ensures
        ({
            let selector = tables.handlers@[index as int]->MandatoryPrefix_0;
            let child = selector.handlers@[d.state.mandatory_prefix.spec_index() as int];
            &&& child < index
            &&& tables.spec_run(true, index, d, i) == tables.spec_run(
                true,
                child,
                d,
                i.without_repe_repne_prefix(),
            )
        }),
{
    reveal(OpCodeHandler::spec_decode);
    tables.lemma_next_ok(true, index, d);
}

/// The slot of a mandatory prefix in a four-way selector is one of four,
/// and two prefixes have two slots.
pub proof fn lemma_prefix_slots_distinct(a: MandatoryPrefixByte, b: MandatoryPrefixByte)
    ensures
        a.spec_index() < 4,
        a != b ==> a.spec_index() != b.spec_index(),
{
}

} // verus!
