//! The requests that go to the antenna service, and what a reply to one is
//! worth.

use vstd::prelude::*;
use serde_json::Value;
use crate::knife::KnifeSelection;
use crate::status::{probe_result, spec_probe_result};

verus! {

/// One request to the antenna service.
#[derive(Clone, Copy, Debug, PartialEq, Eq, Structural)]
pub enum Request {
    /// Read the aggregate deployment status.
    Status,
    /// Route power to one of the two thermal knives.
    SelectHeater(KnifeSelection),
    /// Clear a possibly stuck controller before the next attempt.
    Reset,
    /// Enable the deploy command.
    Arm,
    /// Fire the selected knife on every antenna.
    Deploy,
}

/// The document that stands for each request.
pub open spec fn spec_request_text(request: Request) -> Seq<char> {
    match request {
        Request::Status =>
            "\n        {\n            deploymentStatus {\n                status,\n            }\n        }\n    "@,
        Request::SelectHeater(KnifeSelection::Primary) =>
            "\n        mutation {\n            configureHardware(config:PRIMARY){\n                success,\n                errors,\n                config\n            }\n        }\n    "@,
        Request::SelectHeater(KnifeSelection::Secondary) =>
            "\n        mutation {\n            configureHardware(config:SECONDARY){\n                success,\n                errors,\n                config\n            }\n        }\n    "@,
        Request::Reset =>
            "\n        mutation {\n            controlPower(state:RESET){\n                success,\n                errors\n            }\n        }\n    "@,
        Request::Arm =>
            "\n        mutation {\n            arm (state:ARM) {\n                success,\n                errors\n            }\n        }\n    "@,
        Request::Deploy =>
            "\n        mutation {\n            deploy(ant:ALL,force:true, time:5){\n                success,\n                errors\n            }\n        }\n    "@,
    }
}

/// What a reply, or the lack of one, means for the request it answers. A
/// status request counts as met only by a reply that reports full deployment;
/// a command counts as carried out as soon as any reply came back.
pub open spec fn spec_request_outcome(request: Request, reply: Option<Value>) -> bool {
    match request {
        Request::Status => spec_probe_result(reply),
        _ => reply is Some,
    }
}

/// The document to send for a request.
pub fn request_text(request: Request) -> (text: &'static str)
    ensures
        text@ == spec_request_text(request),
{
    match request {
        Request::Status =>
            "\n        {\n            deploymentStatus {\n                status,\n            }\n        }\n    ",
        Request::SelectHeater(KnifeSelection::Primary) =>
            "\n        mutation {\n            configureHardware(config:PRIMARY){\n                success,\n                errors,\n                config\n            }\n        }\n    ",
        Request::SelectHeater(KnifeSelection::Secondary) =>
            "\n        mutation {\n            configureHardware(config:SECONDARY){\n                success,\n                errors,\n                config\n            }\n        }\n    ",
        Request::Reset =>
            "\n        mutation {\n            controlPower(state:RESET){\n                success,\n                errors\n            }\n        }\n    ",
        Request::Arm =>
            "\n        mutation {\n            arm (state:ARM) {\n                success,\n                errors\n            }\n        }\n    ",
        Request::Deploy =>
            "\n        mutation {\n            deploy(ant:ALL,force:true, time:5){\n                success,\n                errors\n            }\n        }\n    ",
    }
}

/// Whether a command was carried out, as far as the sender can tell: it was
/// if a reply came back, whatever the reply holds.
pub fn command_outcome(reply: Option<&Value>) -> (success: bool)
    ensures
        success == reply.is_some(),
{
    reply.is_some()
}

/// Reduces the reply to a request to the one bit that the sequencer takes.
/// `None` stands for a request that failed or timed out.
pub fn request_outcome(request: Request, reply: Option<&Value>) -> (outcome: bool)
    ensures
        outcome == spec_request_outcome(
            request,
            match reply {
                Some(response) => Some(*response),
                None => None,
            },
        ),
{
    match request {
        Request::Status => probe_result(reply),
        _ => command_outcome(reply),
    }
}

} // verus!
