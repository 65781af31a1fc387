//! The launch target of a session and when the script starts.

use vstd::prelude::*;

verus! {

#[verifier::external_type_specification]
#[verifier::external_body]
pub struct ExJsonValue(serde_json::Value);

#[verifier::external_type_specification]
#[verifier::external_body]
#[verifier::reject_recursive_types(K)]
#[verifier::reject_recursive_types(V)]
pub struct ExJsonMap<K, V>(serde_json::Map<K, V>);

/// The string stored under `key` in a JSON object, if the value there is a string.
pub uninterp spec fn json_string_at(
    args: serde_json::Map<String, serde_json::Value>,
    key: Seq<char>,
) -> Option<Seq<char>>;

/// Relies on serde_json's `Map::get` and the `Value::String` variant: the string
/// stored under `key`, if the object holds a string there. The lookup depends
/// on the object and the key alone.
#[verifier::external_body]
fn string_argument(args: &serde_json::Map<String, serde_json::Value>, key: &str) -> (r: Option<
    String,
>)
    ensures
        r is Some <==> json_string_at(*args, key@) is Some,
        r is Some ==> r->0@ == json_string_at(*args, key@)->0,
{
    match args.get(key) {
        Some(serde_json::Value::String(path)) => Some(path.clone()),
        _ => None,
    }
}

/// Why a launch request or the start of a session is refused.
#[derive(Clone, Copy, Debug, PartialEq, Eq, Structural)]
pub enum LaunchError {
    /// The launch arguments hold no string under "program".
    MissingProgram,
    /// A session was already started; this backend runs one script only.
    SessionAlreadyStarted,
}

/// The launch target that waits for configuration to be done, and whether
/// the one session of this backend has started.
pub struct LaunchState {
    pub target: Option<String>,
    pub started: bool,
}

impl LaunchState {
    /// No target yet, no session.
    pub fn new() -> (r: LaunchState)
        ensures
            r.target is None,
            !r.started,
    {
        LaunchState { target: None, started: false }
    }

    /// Records `program` as the launch target, in place of any earlier one;
    /// with no program the request fails and nothing changes.
    pub fn launch_program(&mut self, program: Option<String>) -> (r: Result<(), LaunchError>)
        ensures
            program is Some <==> r is Ok,
            program is None ==> r == Err::<(), LaunchError>(LaunchError::MissingProgram) && *final(self)
                == *old(self),
            program is Some ==> final(self).target == program && final(self).started
                == old(self).started,
    {
        match program {
            Some(p) => {
                self.target = Some(p);
                Ok(())
            },
            None => Err(LaunchError::MissingProgram),
        }
    }

    /// Handles a launch request: its arguments must hold the program's path as
    /// a string under "program", which becomes the launch target. On failure
    /// nothing changes.
    pub fn launch(&mut self, args: &serde_json::Map<String, serde_json::Value>) -> (r: Result<
        (),
        LaunchError,
    >)
        ensures
            r is Ok <==> json_string_at(*args, "program"@) is Some,
            r is Ok ==> final(self).target is Some && final(self).target->0@ == json_string_at(
                *args,
                "program"@,
            )->0 && final(self).started == old(self).started,
            r is Err ==> r == Err::<(), LaunchError>(LaunchError::MissingProgram) && *final(self)
                == *old(self),
    {
        proof {
            reveal_strlit("program");
        }
        let program = string_argument(args, "program");
        self.launch_program(program)
    }

    /// Handles configuration-done: with a launch target and no session yet, the
    /// target is consumed and returned as the script to start; with no target
    /// nothing happens; a second session is refused.
    pub fn configuration_done(&mut self) -> (r: Result<Option<String>, LaunchError>)
        ensures
            old(self).started ==> r == Err::<Option<String>, LaunchError>(
                LaunchError::SessionAlreadyStarted,
            ) && *final(self) == *old(self),
            !old(self).started && old(self).target is None ==> r == Ok::<Option<String>, LaunchError>(
                None,
            ) && *final(self) == *old(self),
            !old(self).started && old(self).target is Some ==> r == Ok::<Option<String>, LaunchError>(
                old(self).target,
            ) && final(self).target is None && final(self).started,
    {
        if self.started {
            return Err(LaunchError::SessionAlreadyStarted);
        }
        match self.target.take() {
            Some(p) => {
                self.started = true;
                Ok(Some(p))
            },
            None => Ok(None),
        }
    }
}

} // verus!
