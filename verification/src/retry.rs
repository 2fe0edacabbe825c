//! Trying again, with growing delays.

use crate::client::McpClientManager;
use crate::error::{McpError, McpErrorView};
use crate::text::contains;
use vstd::arithmetic::power2::{lemma2_to64, pow2};
use vstd::prelude::*;

verus! {

/// How often an operation is tried at most.
pub const MAX_RETRIES: u32 = 3;

/// How long to wait before the second try, in milliseconds.
pub const BASE_DELAY_MS: u64 = 1000;

/// What to do after a try.
pub enum Verdict {
    /// The outcome stands.
    Settle,
    /// Wait, and make the try of that number.
    Again { attempt: u32, delay_ms: u64 },
}

/// What to do after the try number `attempt`, counted from zero, which failed as `failure` says
/// or did not fail: a passing failure is tried again as long as tries are left, and each delay
/// is twice the one before.
pub open spec fn verdict(attempt: u32, failure: Option<McpErrorView>) -> Verdict {
    match failure {
        Some(error) if error.retryable() && attempt < MAX_RETRIES - 1 => Verdict::Again {
            attempt: (attempt + 1) as u32,
            delay_ms: (BASE_DELAY_MS * pow2(attempt as nat)) as u64,
        },
        _ => Verdict::Settle,
    }
}

/// The error of an outcome that is one.
pub open spec fn failure<T>(outcome: Result<T, McpErrorView>) -> Option<McpErrorView> {
    match outcome {
        Ok(_) => None,
        Err(e) => Some(e),
    }
}

/// The error of an outcome that is one.
pub open spec fn failure_of<T>(outcome: Result<T, McpError>) -> Option<McpErrorView> {
    match outcome {
        Ok(_) => None,
        Err(e) => Some(e@),
    }
}

/// What a try comes to.
#[derive(Debug)]
pub enum Attempt<T> {
    /// The outcome stands.
    Finished(Result<T, McpError>),
    /// Wait, and make the try of that number.
    Again { attempt: u32, delay_ms: u64 },
}

impl McpClientManager {
    /// Whether the operation may succeed when it is tried again: the connection failed, or the
    /// server named one of the statuses that pass.
    pub fn is_retryable_error(error: &McpError) -> (again: bool)
        ensures
            again == error@.retryable(),
    {
        match error {
            McpError::Http(e) => e.connect || e.timeout || e.request,
            McpError::Connection(_) => true,
            McpError::Protocol(message) => {
                let text = message.as_str();
                contains(text, "404") || contains(text, "503") || contains(text, "502")
                    || contains(text, "500")
            },
            _ => false,
        }
    }

    /// What to do after the try number `attempt`, counted from zero, which came to `outcome`.
    pub fn retry_with_backoff<T>(attempt: u32, outcome: Result<T, McpError>) -> (next: Attempt<T>)
        ensures
            next == match verdict(attempt, failure_of(outcome)) {
                Verdict::Settle => Attempt::Finished(outcome),
                Verdict::Again { attempt, delay_ms } => Attempt::Again { attempt, delay_ms },
            },
    {
        match outcome {
            Ok(value) => Attempt::Finished(Ok(value)),
            Err(error) => {
                if attempt < MAX_RETRIES - 1 && Self::is_retryable_error(&error) {
                    proof {
                        lemma2_to64();
                        assert(1u64 << 0u32 == 1) by (bit_vector);
                        assert(1u64 << 1u32 == 2) by (bit_vector);
                    }
                    Attempt::Again {
                        attempt: attempt + 1,
                        delay_ms: BASE_DELAY_MS * (1u64 << attempt),
                    }
                } else {
                    Attempt::Finished(Err(error))
                }
            },
        }
    }
}

} // verus!
