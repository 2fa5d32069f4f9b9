use crate::address::{base58_of, Address};
use crate::error::ProgramError;
use crate::logs::LogBuffer;
use vstd::prelude::*;
use vstd::string::StringExecFns;

verus! {

/// The invocation context the host runtime supplies for one call: the
/// program's own address and the account set the transaction carried.
pub struct InvocationContext {
    /// The invoking program's own on-chain address.
    pub program_id: Address,
    /// The accounts the transaction supplied; this handler reads none of them.
    pub accounts: Vec<Address>,
}

impl InvocationContext {
    /// A valid context carries a well-formed program address.
    pub open spec fn wf(&self) -> bool {
        self.program_id.wf()
    }
}

/// The fixed text that opens the handler's one log line.
pub open spec fn greeting_prefix() -> Seq<char> {
    "Greetings from: "@
}

/// The one log line the handler emits for a program identifier: the fixed
/// greeting followed by the identifier's base58 text.
pub open spec fn greeting_of(program_id: Seq<u8>) -> Seq<char> {
    greeting_prefix() + base58_of(program_id)
}

/// What one invocation writes to the log: a single greeting line, determined
/// by the program identifier alone.
pub open spec fn handler_log_line(ctx: InvocationContext) -> Seq<char> {
    greeting_of(ctx.program_id@)
}

/// What one invocation returns. The handler has exactly one exit path:
/// success, whatever the context holds.
pub open spec fn handler_outcome(ctx: InvocationContext) -> Result<(), ProgramError> {
    Ok(())
}

/// The handler's log line for a program address, ready to emit.
pub fn greeting_line(program_id: &Address) -> (r: String)
    requires
        program_id.wf(),
    ensures
        r@ == greeting_of(program_id@),
{
    let mut line = String::from_str("Greetings from: ");
    let tail = program_id.to_base58();
    line.append(tail.as_str());
    line
}

/// The program's single entry point: logs one greeting line naming the
/// invoking program's address, then reports success. It reads no account,
/// takes no argument and keeps no state.
pub fn initialize(ctx: &InvocationContext, log: &mut LogBuffer) -> (r: Result<(), ProgramError>)
    requires
        ctx.wf(),
    ensures
        r == handler_outcome(*ctx),
        r is Ok,
        final(log)@ == old(log)@.push(handler_log_line(*ctx)),
{
    let line = greeting_line(&ctx.program_id);
    log.emit(line);
    Ok(())
}

/// Law: for any invocation context, the handler's outcome is success; no
/// context reaches an error path, because none exists.
pub proof fn lemma_handler_always_succeeds(ctx: InvocationContext)
    ensures
        handler_outcome(ctx) is Ok,
{
}

/// Law: the handler reads no accounts. Two contexts naming the same program
/// produce the same outcome and the same log line, whatever account sets —
/// empty or not — their transactions supplied.
pub proof fn lemma_accounts_ignored(a: InvocationContext, b: InvocationContext)
    requires
        a.program_id@ == b.program_id@,
    ensures
        handler_outcome(a) == handler_outcome(b),
        handler_outcome(a) is Ok,
        handler_log_line(a) == handler_log_line(b),
{
}

/// Law: the emitted line carries the program identifier. It opens with the
/// fixed greeting and closes with the identifier's base58 (debug) text.
pub proof fn lemma_line_carries_identifier(program_id: Seq<u8>)
    ensures
        greeting_of(program_id).len() == greeting_prefix().len() + base58_of(program_id).len(),
        greeting_of(program_id).take(greeting_prefix().len() as int) == greeting_prefix(),
        greeting_of(program_id).skip(greeting_prefix().len() as int) == base58_of(program_id),
{
    assert(greeting_of(program_id).take(greeting_prefix().len() as int) =~= greeting_prefix());
    assert(greeting_of(program_id).skip(greeting_prefix().len() as int) =~= base58_of(
        program_id,
    ));
}

/// Law: repeated invocation has no cumulative effect. The program keeps no
/// state, so a second call from the same context succeeds again, appends the
/// very same line, and leaves every earlier line untouched.
pub proof fn lemma_repeat_no_drift(ctx: InvocationContext, lines: Seq<Seq<char>>)
    ensures
        ({
            let once = lines.push(handler_log_line(ctx));
            let twice = once.push(handler_log_line(ctx));
            &&& handler_outcome(ctx) is Ok
            &&& twice.len() == lines.len() + 2
            &&& twice[lines.len() as int] == twice[lines.len() as int + 1]
            &&& twice.take(lines.len() as int) =~= lines
        }),
{
}

} // verus!
