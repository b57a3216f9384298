use vstd::prelude::*;
use crate::decimal::{
    decimal, is_numeral_of, lemma_decimal_denotes, lemma_decimal_injective,
    lemma_decimal_nonempty, lemma_numeral_unique, push_decimal,
};

verus! {

/// Code of a run that stopped because the machine failed.
pub const BREAK_REASON_FAILED: u32 = 0;

/// Code of a run that stopped because the machine halted.
pub const BREAK_REASON_HALTED: u32 = 1;

/// Code of a run that stopped on a manual yield.
pub const BREAK_REASON_YIELDED_MANUALLY: u32 = 2;

/// Code of a run that stopped on an automatic yield.
pub const BREAK_REASON_YIELDED_AUTOMATICALLY: u32 = 3;

/// Code of a run that stopped on a soft yield.
pub const BREAK_REASON_YIELDED_SOFTLY: u32 = 4;

/// Code of a run that stopped because mcycle reached the target.
pub const BREAK_REASON_REACHED_TARGET_MCYCLE: u32 = 5;

/// Code of a run that stopped because the console has output to deliver.
pub const BREAK_REASON_CONSOLE_OUTPUT: u32 = 6;

/// Code of a run that stopped because the console waits for input.
pub const BREAK_REASON_CONSOLE_INPUT: u32 = 7;

/// Whether `code` is one of the eight break reasons the machine reports.
pub open spec fn is_known_break_reason(code: u32) -> bool {
    code == BREAK_REASON_FAILED || code == BREAK_REASON_HALTED
        || code == BREAK_REASON_YIELDED_MANUALLY || code == BREAK_REASON_YIELDED_AUTOMATICALLY
        || code == BREAK_REASON_YIELDED_SOFTLY || code == BREAK_REASON_REACHED_TARGET_MCYCLE
        || code == BREAK_REASON_CONSOLE_OUTPUT || code == BREAK_REASON_CONSOLE_INPUT
}

/// The name given to a break-reason code: a fixed word for each known
/// reason, `unknown(<code in decimal>)` for any other value.
pub open spec fn break_reason_text(code: u32) -> Seq<char> {
    if code == BREAK_REASON_FAILED {
        "failed"@
    } else if code == BREAK_REASON_HALTED {
        "halted"@
    } else if code == BREAK_REASON_YIELDED_MANUALLY {
        "yielded_manually"@
    } else if code == BREAK_REASON_YIELDED_AUTOMATICALLY {
        "yielded_automatically"@
    } else if code == BREAK_REASON_YIELDED_SOFTLY {
        "yielded_softly"@
    } else if code == BREAK_REASON_REACHED_TARGET_MCYCLE {
        "reached_target"@
    } else if code == BREAK_REASON_CONSOLE_OUTPUT {
        "console_output"@
    } else if code == BREAK_REASON_CONSOLE_INPUT {
        "console_input"@
    } else {
        "unknown("@ + decimal(code as nat) + ")"@
    }
}

/// Whether `name` spells `unknown(N)` with `N` the decimal numeral of
/// `code`: the words `unknown(`, then decimal digits without a leading zero
/// that read in base ten give `code`, then `)`.
pub open spec fn spells_unknown_code(name: Seq<char>, code: u32) -> bool {
    &&& name.len() >= 10
    &&& name.subrange(0, 8) == "unknown("@
    &&& name.last() == ')'
    &&& is_numeral_of(name.subrange(8, name.len() - 1), code as int)
}

/// The code of the "failed" break reason.
pub fn break_reason_failed() -> (code: u32)
    ensures
        code == BREAK_REASON_FAILED,
{
    BREAK_REASON_FAILED
}

/// The code of the "halted" break reason.
pub fn break_reason_halted() -> (code: u32)
    ensures
        code == BREAK_REASON_HALTED,
{
    BREAK_REASON_HALTED
}

/// The code of the "yielded manually" break reason.
pub fn break_reason_yielded_manually() -> (code: u32)
    ensures
        code == BREAK_REASON_YIELDED_MANUALLY,
{
    BREAK_REASON_YIELDED_MANUALLY
}

/// The code of the "yielded automatically" break reason.
pub fn break_reason_yielded_automatically() -> (code: u32)
    ensures
        code == BREAK_REASON_YIELDED_AUTOMATICALLY,
{
    BREAK_REASON_YIELDED_AUTOMATICALLY
}

/// The code of the "yielded softly" break reason.
pub fn break_reason_yielded_softly() -> (code: u32)
    ensures
        code == BREAK_REASON_YIELDED_SOFTLY,
{
    BREAK_REASON_YIELDED_SOFTLY
}

/// The code of the "reached target mcycle" break reason.
pub fn break_reason_reached_target() -> (code: u32)
    ensures
        code == BREAK_REASON_REACHED_TARGET_MCYCLE,
{
    BREAK_REASON_REACHED_TARGET_MCYCLE
}

/// The code of the "console output" break reason.
pub fn break_reason_console_output() -> (code: u32)
    ensures
        code == BREAK_REASON_CONSOLE_OUTPUT,
{
    BREAK_REASON_CONSOLE_OUTPUT
}

/// The code of the "console input" break reason.
pub fn break_reason_console_input() -> (code: u32)
    ensures
        code == BREAK_REASON_CONSOLE_INPUT,
{
    BREAK_REASON_CONSOLE_INPUT
}

/// A human-readable name for a break-reason code.
pub fn break_reason_name(reason: u32) -> (name: String)
    ensures
        name@ == break_reason_text(reason),
        !is_known_break_reason(reason) ==> spells_unknown_code(name@, reason),
{
    proof {
        if !is_known_break_reason(reason) {
            lemma_unknown_name_spells_code(reason);
        }
    }
    if reason == BREAK_REASON_FAILED {
        String::from_str("failed")
    } else if reason == BREAK_REASON_HALTED {
        String::from_str("halted")
    } else if reason == BREAK_REASON_YIELDED_MANUALLY {
        String::from_str("yielded_manually")
    } else if reason == BREAK_REASON_YIELDED_AUTOMATICALLY {
        String::from_str("yielded_automatically")
    } else if reason == BREAK_REASON_YIELDED_SOFTLY {
        String::from_str("yielded_softly")
    } else if reason == BREAK_REASON_REACHED_TARGET_MCYCLE {
        String::from_str("reached_target")
    } else if reason == BREAK_REASON_CONSOLE_OUTPUT {
        String::from_str("console_output")
    } else if reason == BREAK_REASON_CONSOLE_INPUT {
        String::from_str("console_input")
    } else {
        let mut name = String::from_str("unknown(");
        push_decimal(&mut name, reason);
        name.append(")");
        name
    }
}

/// The first character and the length of a name, which together tell the
/// eight known names apart and set them apart from every `unknown(..)` name.
proof fn lemma_name_shape(code: u32)
    ensures
        break_reason_text(code).len() >= 1,
        code == BREAK_REASON_FAILED ==> break_reason_text(code)[0] == 'f'
            && break_reason_text(code).len() == 6,
        code == BREAK_REASON_HALTED ==> break_reason_text(code)[0] == 'h'
            && break_reason_text(code).len() == 6,
        code == BREAK_REASON_YIELDED_MANUALLY ==> break_reason_text(code)[0] == 'y'
            && break_reason_text(code).len() == 16,
        code == BREAK_REASON_YIELDED_AUTOMATICALLY ==> break_reason_text(code)[0] == 'y'
            && break_reason_text(code).len() == 21,
        code == BREAK_REASON_YIELDED_SOFTLY ==> break_reason_text(code)[0] == 'y'
            && break_reason_text(code).len() == 14,
        code == BREAK_REASON_REACHED_TARGET_MCYCLE ==> break_reason_text(code)[0] == 'r'
            && break_reason_text(code).len() == 14,
        code == BREAK_REASON_CONSOLE_OUTPUT ==> break_reason_text(code)[0] == 'c'
            && break_reason_text(code).len() == 14,
        code == BREAK_REASON_CONSOLE_INPUT ==> break_reason_text(code)[0] == 'c'
            && break_reason_text(code).len() == 13,
        !is_known_break_reason(code) ==> break_reason_text(code)[0] == 'u',
{
    reveal_strlit("failed");
    reveal_strlit("halted");
    reveal_strlit("yielded_manually");
    reveal_strlit("yielded_automatically");
    reveal_strlit("yielded_softly");
    reveal_strlit("reached_target");
    reveal_strlit("console_output");
    reveal_strlit("console_input");
    reveal_strlit("unknown(");
    reveal_strlit(")");
    lemma_decimal_nonempty(code as nat);
}

/// The eight break-reason codes are pairwise distinct, so each names one
/// reason.
pub proof fn lemma_break_reason_codes_distinct()
    ensures
        seq![
            BREAK_REASON_FAILED,
            BREAK_REASON_HALTED,
            BREAK_REASON_YIELDED_MANUALLY,
            BREAK_REASON_YIELDED_AUTOMATICALLY,
            BREAK_REASON_YIELDED_SOFTLY,
            BREAK_REASON_REACHED_TARGET_MCYCLE,
            BREAK_REASON_CONSOLE_OUTPUT,
            BREAK_REASON_CONSOLE_INPUT,
        ].no_duplicates(),
{
}

/// A known break reason is never named `unknown(..)`, and any other code is.
pub proof fn lemma_unknown_names_exactly_unknown_codes(code: u32)
    ensures
        is_known_break_reason(code) <==> !("unknown("@.is_prefix_of(break_reason_text(code))),
{
    lemma_name_shape(code);
    reveal_strlit("unknown(");
    reveal_strlit(")");
    if !is_known_break_reason(code) {
        assert("unknown("@ =~= break_reason_text(code).subrange(0, 8));
    } else {
        assert("unknown("@[0] == 'u');
        assert(break_reason_text(code)[0] != 'u');
    }
}

/// Any code other than the eight known reasons is named `unknown(N)`, where
/// `N` is the code itself written in decimal: the digits between the
/// parentheses read in base ten give back the code, with no leading zero.
pub proof fn lemma_unknown_name_spells_code(code: u32)
    requires
        !is_known_break_reason(code),
    ensures
        spells_unknown_code(break_reason_text(code), code),
{
    reveal_strlit("unknown(");
    reveal_strlit(")");
    lemma_decimal_denotes(code as nat);
    lemma_decimal_nonempty(code as nat);
    let t = break_reason_text(code);
    let d = decimal(code as nat);
    assert(t == "unknown("@ + d + ")"@);
    assert(t.subrange(0, 8) =~= "unknown("@);
    assert(t.subrange(8, t.len() - 1) =~= d);
}

/// Only one text spells `unknown(N)` for a given code, so the name of an
/// unknown code is exactly `unknown(`, the code's decimal numeral, and `)`.
pub proof fn lemma_unknown_name_determined(name: Seq<char>, code: u32)
    requires
        !is_known_break_reason(code),
        spells_unknown_code(name, code),
    ensures
        name == break_reason_text(code),
{
    lemma_unknown_name_spells_code(code);
    let t = break_reason_text(code);
    lemma_numeral_unique(
        name.subrange(8, name.len() - 1),
        t.subrange(8, t.len() - 1),
        code as int,
    );
    assert(name =~= name.subrange(0, 8) + name.subrange(8, name.len() - 1) + seq![name.last()]);
    assert(t =~= t.subrange(0, 8) + t.subrange(8, t.len() - 1) + seq![t.last()]);
}

/// Distinct codes get distinct names: a name determines the code it was
/// given for.
pub proof fn lemma_break_reason_name_injective(a: u32, b: u32)
    requires
        break_reason_text(a) == break_reason_text(b),
    ensures
        a == b,
{
    lemma_name_shape(a);
    lemma_name_shape(b);
    assert(break_reason_text(a)[0] == break_reason_text(b)[0]);
    if !is_known_break_reason(a) && !is_known_break_reason(b) {
        reveal_strlit("unknown(");
        reveal_strlit(")");
        let ta = break_reason_text(a);
        let tb = break_reason_text(b);
        lemma_decimal_nonempty(a as nat);
        lemma_decimal_nonempty(b as nat);
        assert(decimal(a as nat) =~= ta.subrange(8, ta.len() - 1));
        assert(decimal(b as nat) =~= tb.subrange(8, tb.len() - 1));
        lemma_decimal_injective(a as nat, b as nat);
    }
}

} // verus!
