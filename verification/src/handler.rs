//! The one instruction handler: log a greeting line and succeed.

use vstd::prelude::*;
use crate::id::base58_of;
use crate::id::ProgramId;

verus! {

/// The accounts the instruction expects: none.
pub struct Initialize {}

impl Initialize {
    /// The account-validation condition: with no accounts there is nothing
    /// to check, so every empty context is valid.
    pub open spec fn valid(self) -> bool {
        true
    }
}

/// What the host hands the handler: the invoking program's identifier and
/// the declared accounts.
pub struct Context {
    pub program_id: ProgramId,
    pub accounts: Initialize,
}

impl Context {
    /// A context is valid when its accounts are.
    pub open spec fn valid(self) -> bool {
        self.accounts.valid()
    }
}

/// The host framework's generic error. The handler itself has no failure
/// path, so it never constructs one.
#[derive(Clone, Copy, PartialEq, Eq, Debug)]
pub struct ProgramError {}

/// The fixed text that opens every emitted line.
pub open spec fn greeting_prefix() -> Seq<char> {
    "Greetings from: "@
}

/// The one log line the handler emits for a given identifier: the fixed
/// prefix followed by the identifier's base58 text.
pub open spec fn greeting(id: Seq<u8>) -> Seq<char> {
    greeting_prefix() + base58_of(id)
}

/// Builds the greeting line for an identifier.
pub fn greeting_line(id: &ProgramId) -> (r: String)
    ensures
        r@ == greeting(id.bytes@),
{
    let mut line = String::from_str("Greetings from: ");
    let text = crate::id::base58_text(&id.bytes);
    line.append(text.as_str());
    line
}

/// The instruction handler. It appends exactly one line, the greeting for
/// the invoking program's identifier, to the host's diagnostic stream, and
/// succeeds unconditionally. It touches no other state.
pub fn initialize(ctx: &Context, log: &mut Vec<String>) -> (r: Result<(), ProgramError>)
    requires
        ctx.valid(),
    ensures
        r is Ok,
        final(log).deep_view() == invoke_log(old(log).deep_view(), ctx.program_id.bytes@),
{
    let line = greeting_line(&ctx.program_id);
    log.push(line);
    proof {
        assert(log.deep_view() =~= old(log).deep_view().push(greeting(ctx.program_id.bytes@)));
    }
    Ok(())
}

/// The diagnostic stream after one invocation with a given identifier: the
/// prior stream with the greeting line appended. This is all an invocation
/// does; `initialize` ensures it of the stream it is handed.
pub open spec fn invoke_log(log: Seq<Seq<char>>, id: Seq<u8>) -> Seq<Seq<char>> {
    log.push(greeting(id))
}

/// The diagnostic stream after `n` invocations with the same identifier.
pub open spec fn invoke_log_n(log: Seq<Seq<char>>, id: Seq<u8>, n: nat) -> Seq<Seq<char>>
    decreases n,
{
    if n == 0 {
        log
    } else {
        invoke_log(invoke_log_n(log, id, (n - 1) as nat), id)
    }
}

/// The emitted line carries the identifier's text verbatim: it is exactly
/// the fixed prefix followed by the base58 text, so the text stands
/// unaltered as the line's tail.
pub proof fn lemma_greeting_carries_id_verbatim(id: Seq<u8>)
    ensures
        greeting(id).len() == greeting_prefix().len() + base58_of(id).len(),
        greeting(id).take(greeting_prefix().len() as int) == greeting_prefix(),
        greeting(id).skip(greeting_prefix().len() as int) == base58_of(id),
{
    assert(greeting(id).take(greeting_prefix().len() as int) =~= greeting_prefix());
    assert(greeting(id).skip(greeting_prefix().len() as int) =~= base58_of(id));
}

/// Any number of repeated invocations alters no prior state: every entry
/// that was in the stream stays where it was, and all that is added is one
/// greeting line per call.
pub proof fn lemma_repeated_invocation_alters_nothing(log: Seq<Seq<char>>, id: Seq<u8>, n: nat)
    ensures
        invoke_log_n(log, id, n).len() == log.len() + n,
        forall|i: int| 0 <= i < log.len() ==> invoke_log_n(log, id, n)[i] == log[i],
        forall|j: int|
            log.len() <= j < log.len() + n ==> #[trigger] invoke_log_n(log, id, n)[j] == greeting(
                id,
            ),
    decreases n,
{
    if n > 0 {
        lemma_repeated_invocation_alters_nothing(log, id, (n - 1) as nat);
    }
}

/// The per-call outcome does not depend on what came before: whatever two
/// invocations found in the stream, each appends the same greeting line,
/// and each succeeds (`initialize` ensures `Ok` unconditionally).
pub proof fn lemma_outcome_independent_of_history(
    before1: Seq<Seq<char>>,
    before2: Seq<Seq<char>>,
    id: Seq<u8>,
)
    ensures
        invoke_log(before1, id).last() == invoke_log(before2, id).last(),
        invoke_log(before1, id).last() == greeting(id),
{
}

} // verus!
