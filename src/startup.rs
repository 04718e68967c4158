use vstd::prelude::*;
use vstd::string::*;

verus! {

/// Port on which the local static-file server serves the front end.
pub const LOCALHOST_PORT: u16 = 1420;

/// A capability plugin of the application host.
#[derive(Clone, Copy, Debug, PartialEq, Eq, Structural)]
pub enum Plugin {
    /// HTTP client.
    Http,
    /// Local static-file server on the given port.
    Localhost { port: u16 },
    /// Logging.
    Log,
    /// Operating-system information.
    Os,
    /// Filesystem access.
    Fs,
    /// Shell access.
    Shell,
    /// Key-value store.
    Store,
    /// URL opener.
    Opener,
}

/// One step in assembling the application host.
#[derive(Clone, Copy, Debug, PartialEq, Eq, Structural)]
pub enum Step {
    /// Attach a plugin.
    Attach(Plugin),
    /// Install the setup hook, which reports the application-data directory.
    SetupHook,
    /// Register the command table (the greeting command).
    Commands,
}

/// The order in which the host is assembled before its event loop starts.
pub open spec fn startup_plan() -> Seq<Step> {
    seq![
        Step::Attach(Plugin::Http),
        Step::Attach(Plugin::Localhost { port: LOCALHOST_PORT }),
        Step::Attach(Plugin::Log),
        Step::Attach(Plugin::Os),
        Step::Attach(Plugin::Fs),
        Step::Attach(Plugin::Shell),
        Step::SetupHook,
        Step::Attach(Plugin::Store),
        Step::Attach(Plugin::Opener),
        Step::Commands,
    ]
}

/// The steps that assemble the host, in order.
pub fn startup_steps() -> (steps: Vec<Step>)
    ensures
        steps@ == startup_plan(),
{
    let mut steps: Vec<Step> = Vec::new();
    steps.push(Step::Attach(Plugin::Http));
    steps.push(Step::Attach(Plugin::Localhost { port: LOCALHOST_PORT }));
    steps.push(Step::Attach(Plugin::Log));
    steps.push(Step::Attach(Plugin::Os));
    steps.push(Step::Attach(Plugin::Fs));
    steps.push(Step::Attach(Plugin::Shell));
    steps.push(Step::SetupHook);
    steps.push(Step::Attach(Plugin::Store));
    steps.push(Step::Attach(Plugin::Opener));
    steps.push(Step::Commands);
    assert(steps@ =~= startup_plan());
    steps
}

/// What becomes of the process once the host's event loop has returned.
pub enum Launch {
    /// The application ran and its windows were closed.
    Closed,
    /// Initialisation failed: the process must stop at once with this message.
    Abort(String),
}

/// The diagnostic with which the process stops when the host fails to start.
pub open spec fn abort_message(error: Seq<char>) -> Seq<char> {
    "error while running tauri application: "@ + error
}

/// Decides the fate of the process from the result of running the host
/// (its error text where it failed): any failure of the framework or of a
/// plugin to initialise aborts, never continuing half-initialised.
pub fn launch_outcome(result: Result<(), String>) -> (outcome: Launch)
    ensures
        result is Ok <==> outcome is Closed,
        result is Err ==> outcome is Abort && outcome->Abort_0@ == abort_message(
            result->Err_0@,
        ),
{
    match result {
        Ok(()) => Launch::Closed,
        Err(error) => {
            let message = String::from_str("error while running tauri application: ").concat(
                error.as_str(),
            );
            Launch::Abort(message)
        },
    }
}

} // verus!
