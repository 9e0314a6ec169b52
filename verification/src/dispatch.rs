//! Classification of one send attempt's result.
//!
//! The dispatcher runs each tick's network call on its own short-lived
//! thread, so the scheduler loop's timing never depends on network latency.
//! The call's raw result comes back as plain values — a status code with a
//! best-effort body, or a transport error message — and is classified here
//! into the one outcome record that is logged for that tick.  Dispatch
//! failures are terminal only to their own tick: they become an outcome,
//! never an error that could reach the scheduler loop.

use vstd::prelude::*;

verus! {

/// A status counts as success exactly when it lies in the 2xx range.
pub open spec fn is_success_status(status: u16) -> bool {
    200 <= status < 300
}

/// The outcome of one tick's send attempt, as it is logged.
#[derive(Clone, Debug)]
pub enum Outcome {
    /// The endpoint answered with a success status.  The body is read
    /// best-effort: a body that could not be read leaves it empty and does
    /// not disturb the success classification.
    SuccessWithBody { body: Vec<u8> },
    /// The endpoint answered, but with a status outside the success range.
    SuccessNon2xx { status: u16 },
    /// The send itself failed — DNS, connect, timeout and the like — with
    /// the underlying cause's message.
    TransportFailure { message: Vec<u8> },
}

/// Classify one send attempt.  Exactly one outcome comes back for every
/// possible result:
/// - a 2xx status is success-with-body, the body empty where none was read;
/// - any other status is success-with-non-2xx-status, carrying the code;
/// - a failed send is transport-failure, carrying the cause's message.
pub fn classify_outcome(res: Result<(u16, Option<Vec<u8>>), Vec<u8>>) -> (o: Outcome)
    ensures
        match res {
            Ok((status, body)) => {
                if is_success_status(status) {
                    o matches Outcome::SuccessWithBody { body: ob } && ob@ == (match body {
                        Some(v) => v@,
                        None => Seq::<u8>::empty(),
                    })
                } else {
                    o matches Outcome::SuccessNon2xx { status: st } && st == status
                }
            },
            Err(m) => o matches Outcome::TransportFailure { message } && message@ == m@,
        },
{
    match res {
        Ok((status, body)) => {
            if 200 <= status && status < 300 {
                match body {
                    Some(v) => Outcome::SuccessWithBody { body: v },
                    None => Outcome::SuccessWithBody { body: Vec::new() },
                }
            } else {
                Outcome::SuccessNon2xx { status }
            }
        },
        Err(m) => Outcome::TransportFailure { message: m },
    }
}

} // verus!
