//! Naming the registers of the two processor cores.
//!
//! The engine looks a register up by a token of the form
//! `<processor>.<register>`, in lower case, handed over as a NUL-terminated
//! byte string.

use vstd::prelude::*;

verus! {

/// One of the two processor cores.
#[derive(Clone, Copy, PartialEq, Eq, Structural, Debug)]
pub enum Processor {
    Arm9,
    Arm7,
}

/// A register of a processor core.
#[derive(Clone, Copy, PartialEq, Eq, Structural, Debug)]
#[non_exhaustive]
pub enum Register {
    R0,
    R1,
    R2,
    R3,
    R4,
    R5,
    R6,
    R7,
    R8,
    R9,
    R10,
    R11,
    R12,
    R13,
    R14,
    R15,
    CPSR,
    SPSR,
    /// Another name for `R13`.
    SP,
    /// Another name for `R14`.
    LR,
    /// Another name for `R15`.
    PC,
}

impl Processor {
    /// The name by which the engine knows the core.
    pub open spec fn name(self) -> Seq<char> {
        match self {
            Processor::Arm9 => "arm9"@,
            Processor::Arm7 => "arm7"@,
        }
    }

    /// The name by which the engine knows the core.
    pub fn get_name(&self) -> (name: &'static str)
        ensures
            name@ == self.name(),
    {
        match self {
            Processor::Arm9 => "arm9",
            Processor::Arm7 => "arm7",
        }
    }
}

impl Register {
    /// The register that this name stands for: itself, or the numbered
    /// register of which it is another name.
    pub open spec fn canonical(self) -> Register {
        match self {
            Register::SP => Register::R13,
            Register::LR => Register::R14,
            Register::PC => Register::R15,
            _ => self,
        }
    }

    /// The name by which the engine knows the register.
    pub open spec fn name(self) -> Seq<char> {
        match self {
            Register::R0 => "r0"@,
            Register::R1 => "r1"@,
            Register::R2 => "r2"@,
            Register::R3 => "r3"@,
            Register::R4 => "r4"@,
            Register::R5 => "r5"@,
            Register::R6 => "r6"@,
            Register::R7 => "r7"@,
            Register::R8 => "r8"@,
            Register::R9 => "r9"@,
            Register::R10 => "r10"@,
            Register::R11 => "r11"@,
            Register::R12 => "r12"@,
            Register::R13 => "r13"@,
            Register::R14 => "r14"@,
            Register::R15 => "r15"@,
            Register::CPSR => "cpsr"@,
            Register::SPSR => "spsr"@,
            Register::SP => "r13"@,
            Register::LR => "r14"@,
            Register::PC => "r15"@,
        }
    }

    /// The name by which the engine knows the register.
    pub fn get_name(&self) -> (name: &'static str)
        ensures
            name@ == self.name(),
    {
        match self {
            Register::R0 => "r0",
            Register::R1 => "r1",
            Register::R2 => "r2",
            Register::R3 => "r3",
            Register::R4 => "r4",
            Register::R5 => "r5",
            Register::R6 => "r6",
            Register::R7 => "r7",
            Register::R8 => "r8",
            Register::R9 => "r9",
            Register::R10 => "r10",
            Register::R11 => "r11",
            Register::R12 => "r12",
            Register::R13 => "r13",
            Register::R14 => "r14",
            Register::R15 => "r15",
            Register::CPSR => "cpsr",
            Register::SPSR => "spsr",
            Register::SP => "r13",
            Register::LR => "r14",
            Register::PC => "r15",
        }
    }
}

/// One call of the engine's named-register read primitive.
#[derive(Debug, PartialEq, Eq)]
pub struct RegisterLoad {
    /// The register's token, NUL-terminated.
    pub token: Vec<u8>,
}

/// One call of the engine's named-register write primitive.
#[derive(Debug, PartialEq, Eq)]
pub struct RegisterStore {
    /// The register's token, NUL-terminated.
    pub token: Vec<u8>,
    /// The value to put into the register.
    pub value: u32,
}

/// The token that names `register` of `processor` to the engine.
pub open spec fn register_token(processor: Processor, register: Register) -> Seq<char> {
    processor.name() + "."@ + register.name()
}

/// An ASCII text as a NUL-terminated byte string.
pub open spec fn c_string(text: Seq<char>) -> Seq<u8> {
    Seq::new(text.len(), |index: int| text[index] as u8).push(0u8)
}

/// A token is plain ASCII.
proof fn lemma_token_is_ascii(processor: Processor, register: Register)
    ensures
        vstd::utf8::is_ascii_chars(register_token(processor, register)),
{
    reveal_names();
}

/// The token that names `register` of `processor` to the engine, as text.
pub fn token_text(processor: Processor, register: Register) -> (token: String)
    ensures
        token@ == register_token(processor, register),
{
    let mut token = String::from_str(processor.get_name());
    token.append(".");
    token.append(register.get_name());
    token
}

/// The token that names `register` of `processor` to the engine, as the
/// NUL-terminated byte string that the engine's register primitives take.
pub fn token_bytes(processor: Processor, register: Register) -> (token: Vec<u8>)
    ensures
        token@ == c_string(register_token(processor, register)),
{
    let text = token_text(processor, register);
    let slice = text.as_str();
    proof {
        lemma_token_is_ascii(processor, register);
        vstd::string::is_ascii_spec_bytes(slice);
    }
    let mut token = slice.as_bytes_vec();
    token.push(0);
    assert(token@ =~= c_string(register_token(processor, register)));
    token
}

/// `SP`, `LR` and `PC` name the same registers to the engine as `R13`,
/// `R14` and `R15`, on either core: a register and the numbered register it
/// stands for resolve to one token.
pub proof fn lemma_register_aliases(processor: Processor, register: Register)
    ensures
        register_token(processor, register) == register_token(processor, register.canonical()),
        Register::SP.canonical() == Register::R13,
        Register::LR.canonical() == Register::R14,
        Register::PC.canonical() == Register::R15,
        register_token(processor, Register::SP) == register_token(processor, Register::R13),
        register_token(processor, Register::LR) == register_token(processor, Register::R14),
        register_token(processor, Register::PC) == register_token(processor, Register::R15),
{
}

/// Apart from the aliases, no two registers share a token: equal tokens name
/// the same core and the same numbered register.
pub proof fn lemma_tokens_tell_registers_apart(
    processor: Processor,
    register: Register,
    other_processor: Processor,
    other_register: Register,
)
    requires
        register_token(processor, register) == register_token(other_processor, other_register),
    ensures
        processor == other_processor,
        register.canonical() == other_register.canonical(),
{
    let token = register_token(processor, register);
    lemma_token_shape(processor, register);
    lemma_token_shape(other_processor, other_register);
    reveal_names();
}

/// Where the characters of the two names stand in a token.
proof fn lemma_token_shape(processor: Processor, register: Register)
    ensures
        ({
            let token = register_token(processor, register);
            let name = register.name();
            &&& processor.name().len() == 4
            &&& 2 <= name.len() <= 4
            &&& token.len() == 5 + name.len()
            &&& token[3] == processor.name()[3]
            &&& token[5] == name[0]
            &&& token[6] == name[1]
            &&& name.len() > 2 ==> token[7] == name[2]
        }),
{
    reveal_names();
}

/// Makes the characters of every name known.
proof fn reveal_names()
    ensures
        "arm9"@ == seq!['a', 'r', 'm', '9'],
        "arm7"@ == seq!['a', 'r', 'm', '7'],
        "."@ == seq!['.'],
        "r0"@ == seq!['r', '0'],
        "r1"@ == seq!['r', '1'],
        "r2"@ == seq!['r', '2'],
        "r3"@ == seq!['r', '3'],
        "r4"@ == seq!['r', '4'],
        "r5"@ == seq!['r', '5'],
        "r6"@ == seq!['r', '6'],
        "r7"@ == seq!['r', '7'],
        "r8"@ == seq!['r', '8'],
        "r9"@ == seq!['r', '9'],
        "r10"@ == seq!['r', '1', '0'],
        "r11"@ == seq!['r', '1', '1'],
        "r12"@ == seq!['r', '1', '2'],
        "r13"@ == seq!['r', '1', '3'],
        "r14"@ == seq!['r', '1', '4'],
        "r15"@ == seq!['r', '1', '5'],
        "cpsr"@ == seq!['c', 'p', 's', 'r'],
        "spsr"@ == seq!['s', 'p', 's', 'r'],
{
    reveal_strlit("arm9");
    reveal_strlit("arm7");
    reveal_strlit(".");
    reveal_strlit("r0");
    reveal_strlit("r1");
    reveal_strlit("r2");
    reveal_strlit("r3");
    reveal_strlit("r4");
    reveal_strlit("r5");
    reveal_strlit("r6");
    reveal_strlit("r7");
    reveal_strlit("r8");
    reveal_strlit("r9");
    reveal_strlit("r10");
    reveal_strlit("r11");
    reveal_strlit("r12");
    reveal_strlit("r13");
    reveal_strlit("r14");
    reveal_strlit("r15");
    reveal_strlit("cpsr");
    reveal_strlit("spsr");
    assert("arm9"@ =~= seq!['a', 'r', 'm', '9']);
    assert("arm7"@ =~= seq!['a', 'r', 'm', '7']);
    assert("."@ =~= seq!['.']);
    assert("r0"@ =~= seq!['r', '0']);
    assert("r1"@ =~= seq!['r', '1']);
    assert("r2"@ =~= seq!['r', '2']);
    assert("r3"@ =~= seq!['r', '3']);
    assert("r4"@ =~= seq!['r', '4']);
    assert("r5"@ =~= seq!['r', '5']);
    assert("r6"@ =~= seq!['r', '6']);
    assert("r7"@ =~= seq!['r', '7']);
    assert("r8"@ =~= seq!['r', '8']);
    assert("r9"@ =~= seq!['r', '9']);
    assert("r10"@ =~= seq!['r', '1', '0']);
    assert("r11"@ =~= seq!['r', '1', '1']);
    assert("r12"@ =~= seq!['r', '1', '2']);
    assert("r13"@ =~= seq!['r', '1', '3']);
    assert("r14"@ =~= seq!['r', '1', '4']);
    assert("r15"@ =~= seq!['r', '1', '5']);
    assert("cpsr"@ =~= seq!['c', 'p', 's', 'r']);
    assert("spsr"@ =~= seq!['s', 'p', 's', 'r']);
}

} // verus!
