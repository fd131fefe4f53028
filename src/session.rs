//! One invocation of the tool: the decision to send a request or to stop on
//! bad input, and what the process prints and returns once the service has
//! answered.

use vstd::prelude::*;
use vstd::string::StringExecFns;
use crate::json::{
    is_json_text, compact_json, array_elements, is_json_bytes, pretty_json, compact_of_text,
    elements_of_text, pretty_of_bytes, error_text,
};
use crate::payload::{
    move_json, read_markers_json, create_random_json, move_body, read_markers_body,
    create_random_body,
};

verus! {

/// The service's endpoint for moving a particle.
pub const MOVE_URL: &'static str =
    "https://bellande-robotics-sensors-research-innovation-center.org/api/Bellande_Particle/move";

/// The service's endpoint for reading markers.
pub const READ_MARKERS_URL: &'static str =
    "https://bellande-robotics-sensors-research-innovation-center.org/api/Bellande_Particle/read_markers";

/// The service's endpoint for creating random particles.
pub const CREATE_RANDOM_URL: &'static str =
    "https://bellande-robotics-sensors-research-innovation-center.org/api/Bellande_Particle/create_random";

/// The media type of both the request body and the expected reply.
pub const JSON_MEDIA_TYPE: &'static str = "application/json";

/// What opens the diagnostic for a reply that is not JSON.
pub const DECODE_ERROR: &'static str = "the reply is not JSON: ";

/// One operation, with its inputs as given on the command line. The JSON
/// inputs are raw text; the rotations and the translation are JSON number
/// texts.
pub enum Command {
    Move { particle_state: String, rotation1: String, translation: String, rotation2: String },
    ReadMarkers { particle_state: String, world: String },
    CreateRandom { count: i32, world: String },
}

/// The JSON inputs.
#[derive(PartialEq, Eq, Structural, Clone, Copy, Debug)]
pub enum Field {
    ParticleState,
    World,
}

/// A JSON input that did not parse.
pub struct InputError {
    pub field: Field,
    /// The parser's description of the fault.
    pub detail: String,
}

/// One HTTP POST.
pub struct Request {
    pub url: String,
    pub headers: Vec<(String, String)>,
    pub body: String,
}

/// What the process prints and the code it exits with.
pub struct Outcome {
    pub code: i32,
    pub stdout: String,
    pub stderr: String,
}

/// What an invocation does next.
pub enum Step {
    Send(Request),
    Exit(Outcome),
}

/// The first JSON input of the command, in the order they are parsed, that is
/// not well-formed JSON.
pub open spec fn first_invalid(cmd: Command) -> Option<Field> {
    match cmd {
        Command::Move { particle_state, .. } => {
            if !is_json_text(particle_state@) { Some(Field::ParticleState) } else { None }
        },
        Command::ReadMarkers { particle_state, world } => {
            if !is_json_text(particle_state@) {
                Some(Field::ParticleState)
            } else if !is_json_text(world@) {
                Some(Field::World)
            } else {
                None
            }
        },
        Command::CreateRandom { world, .. } => {
            if !is_json_text(world@) { Some(Field::World) } else { None }
        },
    }
}

/// The endpoint that serves the command.
pub open spec fn endpoint(cmd: Command) -> Seq<char> {
    match cmd {
        Command::Move { .. } => MOVE_URL@,
        Command::ReadMarkers { .. } => READ_MARKERS_URL@,
        Command::CreateRandom { .. } => CREATE_RANDOM_URL@,
    }
}

/// The elements of the particle state given as a text: none unless it is an
/// array.
pub open spec fn state_of(text: Seq<char>) -> Seq<Seq<char>> {
    match array_elements(text) {
        Some(e) => e,
        None => Seq::empty(),
    }
}

/// The body of the command's request.
pub open spec fn request_body(cmd: Command) -> Seq<char> {
    match cmd {
        Command::Move { particle_state, rotation1, translation, rotation2 } => move_json(
            state_of(particle_state@),
            rotation1@,
            translation@,
            rotation2@,
        ),
        Command::ReadMarkers { particle_state, world } => read_markers_json(
            state_of(particle_state@),
            compact_json(world@),
        ),
        Command::CreateRandom { count, world } => create_random_json(
            count as int,
            compact_json(world@),
        ),
    }
}

/// The headers of every request: JSON accepted, JSON sent.
pub open spec fn json_headers(h: Seq<(String, String)>) -> bool {
    &&& h.len() == 2
    &&& h[0].0@ == "accept"@ && h[0].1@ == JSON_MEDIA_TYPE@
    &&& h[1].0@ == "Content-Type"@ && h[1].1@ == JSON_MEDIA_TYPE@
}

/// How an input is named in its diagnostic.
pub open spec fn field_label(f: Field) -> Seq<char> {
    match f {
        Field::ParticleState => "particle state"@,
        Field::World => "world info"@,
    }
}

/// The diagnostic line for a failure.
pub open spec fn error_line(message: Seq<char>) -> Seq<char> {
    "Error: "@ + message + "\n"@
}

/// A failure: nothing on standard output, the diagnostic on standard error,
/// exit code 1.
pub open spec fn is_failure(o: Outcome, message: Seq<char>) -> bool {
    &&& o.code == 1
    &&& o.stdout@.len() == 0
    &&& o.stderr@ == error_line(message)
}

impl InputError {
    /// The description of the fault, naming the input.
    pub fn message(&self) -> (r: String)
        ensures
            r@ == "Error parsing "@ + field_label(self.field) + ": "@ + self.detail@,
    {
        let mut s = String::from_str("Error parsing ");
        match self.field {
            Field::ParticleState => s.append("particle state"),
            Field::World => s.append("world info"),
        }
        s.append(": ");
        s.append(self.detail.as_str());
        s
    }
}

fn failure(message: &str) -> (r: Outcome)
    ensures
        is_failure(r, message@),
{
    let mut stderr = String::from_str("Error: ");
    stderr.append(message);
    stderr.append("\n");
    Outcome { code: 1, stdout: String::new(), stderr }
}

fn json_request(url: &str, body: String) -> (r: Request)
    ensures
        r.url@ == url@,
        json_headers(r.headers@),
        r.body == body,
{
    let mut headers: Vec<(String, String)> = Vec::new();
    headers.push((String::from_str("accept"), String::from_str(JSON_MEDIA_TYPE)));
    headers.push((String::from_str("Content-Type"), String::from_str(JSON_MEDIA_TYPE)));
    Request { url: String::from_str(url), headers, body }
}

/// The elements of a particle state, or the error naming it.
fn parse_state(text: &str) -> (r: Result<Vec<String>, InputError>)
    ensures
        r is Ok <==> is_json_text(text@),
        r is Ok ==> r->Ok_0@.map_values(|t: String| t@) == state_of(text@),
        r is Err ==> r->Err_0.field == Field::ParticleState,
{
    match elements_of_text(text) {
        Ok(Some(items)) => Ok(items),
        Ok(None) => {
            let items: Vec<String> = Vec::new();
            assert(items@.map_values(|t: String| t@) =~= Seq::<Seq<char>>::empty());
            Ok(items)
        },
        Err(e) => Err(InputError { field: Field::ParticleState, detail: error_text(&e) }),
    }
}

/// The compact text of a world, or the error naming it.
fn parse_world(text: &str) -> (r: Result<String, InputError>)
    ensures
        r is Ok <==> is_json_text(text@),
        r is Ok ==> r->Ok_0@ == compact_json(text@),
        r is Err ==> r->Err_0.field == Field::World,
{
    match compact_of_text(text) {
        Ok(world) => Ok(world),
        Err(e) => Err(InputError { field: Field::World, detail: error_text(&e) }),
    }
}

/// Parses the command's JSON inputs, each in turn, and frames its request.
/// Nothing is sent when an input is not well-formed JSON: the error names the
/// first such input.
pub fn prepare(cmd: &Command) -> (r: Result<Request, InputError>)
    ensures
        r is Err <==> first_invalid(*cmd) is Some,
        r is Err ==> first_invalid(*cmd) == Some(r->Err_0.field),
        r is Ok ==> r->Ok_0.url@ == endpoint(*cmd),
        r is Ok ==> json_headers(r->Ok_0.headers@),
        r is Ok ==> r->Ok_0.body@ == request_body(*cmd),
{
    match cmd {
        Command::Move { particle_state, rotation1, translation, rotation2 } => {
            let items = parse_state(particle_state.as_str())?;
            let body = move_body(&items, rotation1.as_str(), translation.as_str(), rotation2.as_str());
            Ok(json_request(MOVE_URL, body))
        },
        Command::ReadMarkers { particle_state, world } => {
            let items = parse_state(particle_state.as_str())?;
            let world_text = parse_world(world.as_str())?;
            let body = read_markers_body(&items, world_text.as_str());
            Ok(json_request(READ_MARKERS_URL, body))
        },
        Command::CreateRandom { count, world } => {
            let world_text = parse_world(world.as_str())?;
            let body = create_random_body(*count, world_text.as_str());
            Ok(json_request(CREATE_RANDOM_URL, body))
        },
    }
}

/// What an invocation does first: send the command's request, or, when a JSON
/// input is not well-formed, exit with code 1 and a diagnostic naming it,
/// without sending anything.
pub fn plan(cmd: &Command) -> (r: Step)
    ensures
        r is Exit <==> first_invalid(*cmd) is Some,
        r is Exit ==> exists|f: Field, detail: Seq<char>|
            first_invalid(*cmd) == Some(f) && #[trigger] is_failure(
                r->Exit_0,
                "Error parsing "@ + field_label(f) + ": "@ + detail,
            ),
        r is Send ==> r->Send_0.url@ == endpoint(*cmd),
        r is Send ==> json_headers(r->Send_0.headers@),
        r is Send ==> r->Send_0.body@ == request_body(*cmd),
{
    match prepare(cmd) {
        Ok(request) => Step::Send(request),
        Err(e) => {
            let message = e.message();
            let outcome = failure(message.as_str());
            let r = Step::Exit(outcome);
            assert(is_failure(r->Exit_0, "Error parsing "@ + field_label(e.field) + ": "@ + e.detail@));
            r
        },
    }
}

/// What the process does with the service's answer: the bytes of the reply's
/// body, or the transport's description of why there is none. A JSON body is
/// printed indented, with exit code 0; anything else is a failure with exit
/// code 1.
pub fn reply_outcome(reply: &Result<Vec<u8>, String>) -> (r: Outcome)
    ensures
        reply is Err ==> is_failure(r, reply->Err_0@),
        reply is Ok ==> (r.code == 0 <==> is_json_bytes(reply->Ok_0@)),
        reply is Ok && r.code == 0 ==> r.stdout@ == pretty_json(reply->Ok_0@) + "\n"@,
        reply is Ok && r.code == 0 ==> r.stderr@.len() == 0,
        reply is Ok && r.code != 0 ==> exists|detail: Seq<char>|
            #[trigger] is_failure(r, DECODE_ERROR@ + detail),
{
    match reply {
        Err(message) => failure(message.as_str()),
        Ok(body) => match pretty_of_bytes(body.as_slice()) {
            Ok(pretty) => {
                let mut stdout = pretty;
                stdout.append("\n");
                Outcome { code: 0, stdout, stderr: String::new() }
            },
            Err(e) => {
                let mut message = String::from_str(DECODE_ERROR);
                let detail = error_text(&e);
                message.append(detail.as_str());
                let r = failure(message.as_str());
                assert(is_failure(r, DECODE_ERROR@ + detail@));
                r
            },
        },
    }
}

} // verus!
