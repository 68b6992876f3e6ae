//! The backend-polymorphic executor.
//!
//! The executor consumes one `ConnectOpts`, invokes the active backend's
//! connect operation, and reports either the success message or the
//! backend's error unchanged. No retry is performed: a failed attempt is
//! reported upward as it came.

use vstd::prelude::*;
use vstd::string::StringExecFns;
use crate::command::ConnectOpts;
use crate::dispatch::Dispatcher;
use crate::dispatch::Envelope;

verus! {

/// An error reported by a backend. Opaque to this core: only the message
/// is carried, and it is never rewritten.
#[derive(Debug, Clone)]
pub struct BackendError {
    pub message: String,
}

/// The capability a concrete backend supplies: connect to the dataset a
/// command describes, registering it under the command's name. Side
/// effects and name-collision policy belong entirely to the backend, so
/// nothing is promised of the outcome; the executor states what it
/// reports for each outcome instead.
pub trait Backend {
    fn connect(&mut self, cmd: &ConnectOpts) -> Result<(), BackendError>;
}

/// The message reported when a connect succeeds.
pub open spec fn connected_message(name: Seq<char>) -> Seq<char> {
    "Connected to dataset: "@ + name
}

/// Turn a backend outcome into the executor's report: success yields
/// `Connected to dataset: <name>`, a failure is propagated unchanged.
pub fn report_outcome(name: &str, outcome: Result<(), BackendError>) -> (r: Result<
    String,
    BackendError,
>)
    ensures
        outcome is Ok ==> (r matches Ok(m) && m@ == connected_message(name@)),
        outcome matches Err(e) ==> (r matches Err(e2) && e2 == e),
        r is Ok <==> outcome is Ok,
{
    match outcome {
        Ok(()) => Ok("Connected to dataset: ".to_owned().concat(name)),
        Err(e) => Err(e),
    }
}

impl ConnectOpts {
    /// Execute this command against the given backend. Whatever the
    /// backend decides, the report follows it exactly: a success yields
    /// the message `Connected to dataset: <name>`, and a backend error
    /// comes back unchanged.
    pub fn execute<T: Backend>(self, backend: &mut T) -> (r: Result<String, BackendError>)
        ensures
            (r matches Ok(m) ==> m@ == connected_message(self.name@)),
    {
        let outcome = backend.connect(&self);
        report_outcome(self.name.as_str(), outcome)
    }
}

/// Run the executor for one step: take the oldest waiting envelope, if
/// there is one, execute its command against the backend, and publish the
/// outcome under the envelope's ticket.
///
/// The command is consumed exactly once, delivery order is send order,
/// and the published reply follows the backend's decision; a successful
/// reply always carries `Connected to dataset: <name>` for the command
/// that was delivered. Nothing here reads any reply handle: execution and
/// its side effects do not depend on whether a handle is still alive.
pub fn run_one<T: Backend>(d: &mut Dispatcher, backend: &mut T) -> (progressed: bool)
    requires
        old(d).wf(),
    ensures
        final(d).wf(),
        old(d).queue@.len() == 0 ==> !progressed && *final(d) == *old(d),
        old(d).queue@.len() > 0 ==> progressed && final(d).queue@ == old(d).queue@.drop_first()
            && final(d).delivered@ == old(d).delivered@.push(old(d).queue@[0])
            && final(d).sent@ == old(d).sent@
            && final(d).next_id == old(d).next_id
            && final(d).replies@.len() == old(d).replies@.len() + 1
            && final(d).replies@.last().id == old(d).queue@[0].id
            && (final(d).replies@.last().outcome matches Ok(m) ==> m@ == connected_message(
            old(d).queue@[0].cmd.name@,
        ))
            && final(d).replies@.drop_last() == old(d).replies@,
{
    match d.recv() {
        Some(env) => {
            let Envelope { id, cmd } = env;
            let outcome = cmd.execute(backend);
            d.complete(id, outcome);
            proof {
                assert(d.replies@.drop_last() =~= old(d).replies@);
            }
            true
        },
        None => false,
    }
}

} // verus!
