//! The signer-check entry point.
use vstd::prelude::*;

use crate::accounts::{CheckSigner, SignerError};

verus! {

/// The line logged when the account in the signer slot has signed.
pub const CONGRATULATIONS: &'static str = "Congratulations";

/// The lines that one invocation on `ctx` logs: the greeting when the account
/// signed, nothing otherwise.
pub open spec fn signer_log(ctx: CheckSigner) -> Seq<&'static str> {
    if ctx.signer.is_signer {
        seq![CONGRATULATIONS]
    } else {
        Seq::empty()
    }
}

/// The log after one invocation on `ctx`, starting from `log`.
pub open spec fn log_after(ctx: CheckSigner, log: Seq<&'static str>) -> Seq<&'static str> {
    log + signer_log(ctx)
}

/// Checks whether the account in the signer slot has signed, and if so
/// appends the greeting to `log`. The invocation always succeeds: rejecting
/// an account that did not sign is the host's part, before the call.
pub fn check_signer(ctx: &CheckSigner, log: &mut Vec<&'static str>) -> (r: Result<(), SignerError>)
    ensures
        r == Ok::<(), SignerError>(()),
        final(log)@ == log_after(*ctx, old(log)@),
        ctx.signer.is_signer ==> final(log)@ == old(log)@.push(CONGRATULATIONS),
        !ctx.signer.is_signer ==> final(log)@ == old(log)@,
{
    if ctx.signer.is_signer {
        log.push(CONGRATULATIONS);
    }
    assert(log@ =~= log_after(*ctx, old(log)@));
    Ok(())
}

/// Invoking the entry point again on the same context has the same effect as
/// the first time: the second invocation appends exactly the lines that the
/// first one appended.
pub proof fn lemma_check_signer_repeatable(ctx: CheckSigner, log: Seq<&'static str>)
    ensures
        ({
            let once = log_after(ctx, log);
            let twice = log_after(ctx, once);
            &&& twice.subrange(once.len() as int, twice.len() as int) == once.subrange(
                log.len() as int,
                once.len() as int,
            )
            &&& twice == log + signer_log(ctx) + signer_log(ctx)
        }),
{
    let once = log_after(ctx, log);
    let twice = log_after(ctx, once);
    assert(twice.subrange(once.len() as int, twice.len() as int) =~= signer_log(ctx));
    assert(once.subrange(log.len() as int, once.len() as int) =~= signer_log(ctx));
}

} // verus!
