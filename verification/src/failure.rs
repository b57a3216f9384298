use vstd::prelude::*;
use crate::root_hash::{hex_lower, root_hash_hex};

verus! {

/// The steps of driving a machine that can fail, each with the words the
/// bindings put in front of the underlying error.
#[derive(Clone, Copy, Debug)]
pub enum Failure {
    /// The machine configuration is not valid JSON for a configuration.
    InvalidConfig,
    /// The emulator refused to create the machine.
    CreateMachine,
    /// Running the machine failed.
    Run,
    /// Reading physical memory failed.
    ReadMemory,
    /// Writing physical memory failed.
    WriteMemory,
    /// Reading a register failed.
    ReadRegister,
    /// Writing a register failed.
    WriteRegister,
    /// Reading the machine cycle counter failed.
    GetMcycle,
    /// Computing the root hash failed.
    GetRootHash,
    /// Replacing a memory range failed.
    ReplaceMemoryRange,
}

/// The words that open the message of a failed step.
pub open spec fn failure_prefix(step: Failure) -> Seq<char> {
    match step {
        Failure::InvalidConfig => "Invalid config JSON"@,
        Failure::CreateMachine => "Failed to create machine"@,
        Failure::Run => "Run failed"@,
        Failure::ReadMemory => "Read memory failed"@,
        Failure::WriteMemory => "Write memory failed"@,
        Failure::ReadRegister => "Read register failed"@,
        Failure::WriteRegister => "Write register failed"@,
        Failure::GetMcycle => "Get mcycle failed"@,
        Failure::GetRootHash => "Get root hash failed"@,
        Failure::ReplaceMemoryRange => "Replace memory range failed"@,
    }
}

/// The message of a failed step: its opening words, a colon and a space,
/// then the description of the underlying error.
pub open spec fn failure_text(step: Failure, detail: Seq<char>) -> Seq<char> {
    failure_prefix(step) + ": "@ + detail
}

/// The opening words of a failed step's message.
fn prefix_of(step: Failure) -> (words: &'static str)
    ensures
        words@ == failure_prefix(step),
{
    match step {
        Failure::InvalidConfig => "Invalid config JSON",
        Failure::CreateMachine => "Failed to create machine",
        Failure::Run => "Run failed",
        Failure::ReadMemory => "Read memory failed",
        Failure::WriteMemory => "Write memory failed",
        Failure::ReadRegister => "Read register failed",
        Failure::WriteRegister => "Write register failed",
        Failure::GetMcycle => "Get mcycle failed",
        Failure::GetRootHash => "Get root hash failed",
        Failure::ReplaceMemoryRange => "Replace memory range failed",
    }
}

/// The message reported when `step` fails with the error described by
/// `detail`.
pub fn failure_message(step: Failure, detail: &str) -> (message: String)
    ensures
        message@ == failure_text(step, detail@),
{
    let mut message = String::from_str(prefix_of(step));
    message.append(": ");
    message.append(detail);
    message
}

/// What a step reports, given what the emulator answered: its value when it
/// succeeded, the step's failure message when it failed.
pub fn report<T>(step: Failure, answer: Result<T, String>) -> (reported: Result<T, String>)
    ensures
        match answer {
            Ok(value) => reported == Ok::<T, String>(value),
            Err(detail) => reported matches Err(message) && message@ == failure_text(step, detail@),
        },
{
    match answer {
        Ok(value) => Ok(value),
        Err(detail) => Err(failure_message(step, detail.as_str())),
    }
}

/// What reading the root hash reports, given what the emulator answered:
/// the hash as 64 lower-case hex digits, or the root-hash failure message.
pub fn report_root_hash(answer: Result<[u8; 32], String>) -> (reported: Result<String, String>)
    ensures
        match answer {
            Ok(hash) => reported matches Ok(text) && text@ == hex_lower(hash@) && text@.len() == 64,
            Err(detail) => reported matches Err(message) && message@ == failure_text(
                Failure::GetRootHash,
                detail@,
            ),
        },
{
    match answer {
        Ok(hash) => Ok(root_hash_hex(&hash)),
        Err(detail) => Err(failure_message(Failure::GetRootHash, detail.as_str())),
    }
}

/// A failure message opens with the failed step's words and ends with the
/// description of the underlying error, so that neither is lost; and
/// different steps open with different words.
pub proof fn lemma_failure_text_parts(step: Failure, other: Failure, detail: Seq<char>)
    ensures
        failure_prefix(step).is_prefix_of(failure_text(step, detail)),
        failure_text(step, detail).subrange(
            failure_text(step, detail).len() - detail.len(),
            failure_text(step, detail).len() as int,
        ) == detail,
        step != other ==> failure_prefix(step) != failure_prefix(other),
{
    reveal_strlit("Invalid config JSON");
    reveal_strlit("Failed to create machine");
    reveal_strlit("Run failed");
    reveal_strlit("Read memory failed");
    reveal_strlit("Write memory failed");
    reveal_strlit("Read register failed");
    reveal_strlit("Write register failed");
    reveal_strlit("Get mcycle failed");
    reveal_strlit("Get root hash failed");
    reveal_strlit("Replace memory range failed");
    reveal_strlit(": ");
    let t = failure_text(step, detail);
    if step != other {
        assert(failure_prefix(step).len() != failure_prefix(other).len()
            || failure_prefix(step)[0] != failure_prefix(other)[0]);
    }
    assert(failure_prefix(step) =~= t.subrange(0, failure_prefix(step).len() as int));
    assert(detail =~= t.subrange(t.len() - detail.len(), t.len() as int));
}

} // verus!
