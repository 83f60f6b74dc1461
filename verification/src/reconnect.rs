//! What the client does around its runs: when it connects again, and when it
//! ends.

use vstd::prelude::*;

use crate::errors::ReplicationResult;

verus! {

/// How long the client waits before it connects again, in seconds.
pub const RETRY_DELAY_SECS: u64 = 5;

/// What the client does next.
#[derive(Debug, Clone, Copy, PartialEq, Eq, Structural)]
pub enum NextStep {
    /// Connect and run.
    Run,
    /// Wait, and see again.
    RetryAfter { secs: u64 },
    /// End without an error.
    Exit,
}

/// Before a run: nothing is begun once a shutdown is wanted.
pub fn before_run(shutdown: bool) -> (next: NextStep)
    ensures
        next == (if shutdown {
            NextStep::Exit
        } else {
            NextStep::Run
        }),
{
    if shutdown {
        NextStep::Exit
    } else {
        NextStep::Run
    }
}

/// After a run: a run that failed is tried again, however often that was, unless
/// a shutdown is wanted; a run that ended well ends the client.
pub fn after_run(result: &ReplicationResult<()>, shutdown: bool) -> (next: NextStep)
    ensures
        next == (if result is Err && !shutdown {
            NextStep::RetryAfter { secs: RETRY_DELAY_SECS }
        } else {
            NextStep::Exit
        }),
{
    match result {
        Ok(_) => NextStep::Exit,
        Err(_) => {
            if shutdown {
                NextStep::Exit
            } else {
                NextStep::RetryAfter { secs: RETRY_DELAY_SECS }
            }
        },
    }
}

} // verus!
