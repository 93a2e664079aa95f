//! The uniform command contract: every user-facing operation runs behind
//! the same shell of logging activation, wall-clock timing and envelope
//! serialization.

use vstd::prelude::*;
use crate::result::{wraps_outcome, wraps_success_outcome, CliResult, CliTypedResult};
use crate::utils::{start_logger, to_common_result, to_common_success_result};
use std::time::Instant;

verus! {

#[verifier::external_type_specification]
#[verifier::external_body]
pub struct ExInstant(Instant);

/// Relies on `std::time::Instant::now`: an opaque monotonic timestamp.
#[verifier::external_body]
fn instant_now() -> (r: Instant) {
    Instant::now()
}

/// Relies on `std::time::Instant::elapsed`: the wall-clock duration since
/// the timestamp, converted to whole milliseconds (saturated into `u64`).
#[verifier::external_body]
fn elapsed_ms(start: &Instant) -> (r: u64) {
    u64::try_from(start.elapsed().as_millis()).unwrap_or(u64::MAX)
}

/// A common trait for all CLI commands to have consistent outputs.
///
/// `execute` may perform outside work, so nothing relates its result to
/// the command's fields here; each implementation states its own. The
/// serializing shells promise exactly that their output is the envelope
/// rendering of some typed outcome, on the matching side.
pub trait CliCommand: Sized {
    /// Returns a name for logging purposes: a stable identifier, pure
    /// and free of side effects.
    fn command_name(&self) -> &'static str;

    /// Executes the command, returning a command specific payload or a
    /// typed failure.
    fn execute(self) -> (r: CliTypedResult);

    /// Executes the command, and serializes it to the common JSON output
    /// type.
    fn execute_serialized(self) -> (r: CliResult)
        ensures
            exists|res: CliTypedResult| #[trigger] wraps_outcome(r, res),
    {
        let command_name = self.command_name();
        start_logger();
        let start_time = instant_now();
        let result = self.execute();
        let ghost gres = result;
        let elapsed = elapsed_ms(&start_time);
        let out = to_common_result(command_name, elapsed, result);
        proof {
            assert(wraps_outcome(out, gres));
        }
        out
    }

    /// Same as `execute_serialized`, without setting up logging: for
    /// nested calls, which must not reinitialize process-wide state.
    fn execute_serialized_without_logger(self) -> (r: CliResult)
        ensures
            exists|res: CliTypedResult| #[trigger] wraps_outcome(r, res),
    {
        let command_name = self.command_name();
        let start_time = instant_now();
        let result = self.execute();
        let ghost gres = result;
        let elapsed = elapsed_ms(&start_time);
        let out = to_common_result(command_name, elapsed, result);
        proof {
            assert(wraps_outcome(out, gres));
        }
        out
    }

    /// Executes the command, and throws away the payload for the fixed
    /// literal `Success`.
    fn execute_serialized_success(self) -> (r: CliResult)
        ensures
            exists|res: CliTypedResult| #[trigger] wraps_success_outcome(r, res),
    {
        start_logger();
        let command_name = self.command_name();
        let start_time = instant_now();
        let result = self.execute();
        let ghost gres = result;
        let elapsed = elapsed_ms(&start_time);
        let out = to_common_success_result(command_name, elapsed, result);
        proof {
            assert(wraps_success_outcome(out, gres));
        }
        out
    }
}

} // verus!
