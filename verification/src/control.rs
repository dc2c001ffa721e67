//! The dashboard's control acknowledgements: what a remote client is
//! told about each command it sends.

use vstd::prelude::*;
use vstd::string::*;

verus! {

/// The reply to one control command.
#[derive(Debug, Clone, PartialEq, Eq)]
pub struct Ack {
    pub ok: bool,
    pub msg: String,
}

impl Ack {
    pub fn ok(msg: String) -> (r: Ack)
        ensures
            r.ok,
            r.msg@ == msg@,
    {
        Ack { ok: true, msg }
    }

    pub fn err(msg: String) -> (r: Ack)
        ensures
            !r.ok,
            r.msg@ == msg@,
    {
        Ack { ok: false, msg }
    }

    /// The reply to a message that is not a command: a refusal whose
    /// message is `bad json: ` followed by the parse error.
    pub fn bad_json(error: String) -> (r: Ack)
        ensures
            !r.ok,
            r.msg@ == "bad json: "@ + error@,
    {
        Ack::err(String::from_str("bad json: ").concat(error.as_str()))
    }

    /// The reply to an emergency stop: `estop` where the backend engaged
    /// it, otherwise a refusal whose message is `estop: ` followed by the
    /// backend's error.
    pub fn for_estop(outcome: Result<(), String>) -> (r: Ack)
        ensures
            r.ok == outcome is Ok,
            outcome is Ok ==> r.msg@ == "estop"@,
            outcome is Err ==> r.msg@ == "estop: "@ + outcome->Err_0@,
    {
        match outcome {
            Ok(()) => Ack::ok(String::from_str("estop")),
            Err(e) => Ack::err(String::from_str("estop: ").concat(e.as_str())),
        }
    }

    /// The reply to any other command: `accepted` where the backend took
    /// it, otherwise a refusal carrying the backend's error.
    pub fn for_command(outcome: Result<(), String>) -> (r: Ack)
        ensures
            r.ok == outcome is Ok,
            outcome is Ok ==> r.msg@ == "accepted"@,
            outcome is Err ==> r.msg@ == outcome->Err_0@,
    {
        match outcome {
            Ok(()) => Ack::ok(String::from_str("accepted")),
            Err(e) => Ack::err(e),
        }
    }
}

} // verus!
