//! Mnemonic strings.
use vstd::prelude::*;
use vstd::string::StringExecFns;

verus! {

/// Appends `c` to `s`.
///
/// This is `String::push`, which appends the given character to the end of
/// the string.
#[verifier::external_body]
fn push_char(s: &mut String, c: char)
    ensures
        final(s)@ == old(s)@.push(c),
{
    s.push(c);
}

/// The string `s` with the character `c` before it: the mnemonic of the
/// VEX form of an instruction is that of its legacy form after a `v`.
pub fn add_prefix(s: &str, c: char) -> (res: String)
    ensures
        res@ == seq![c] + s@,
{
    let mut res: String = String::new();
    push_char(&mut res, c);
    res.append(s);
    assert(res@ =~= seq![c] + s@);
    res
}

} // verus!
