//! The request bodies sent to the particle service, framed as JSON text.
//!
//! Each JSON input reaches this module as the compact text of a value that
//! serde_json parsed; the envelope around those values is written here, with
//! its keys in sorted order.

use vstd::prelude::*;
use vstd::string::StringExecFns;
use crate::decimal::{decimal, decimal_text};

verus! {

/// The key that every request carries in its `auth` object.
pub const AUTHORIZATION_KEY: &'static str = "bellande_web_api_opensource";

/// The text given for the weight of a particle whose state has no fourth element.
pub const DEFAULT_WEIGHT: &'static str = "1.0";

/// The text given for a coordinate that the particle state lacks.
pub const MISSING: &'static str = "null";

/// The views of a sequence of strings.
pub open spec fn texts(v: Seq<String>) -> Seq<Seq<char>> {
    v.map_values(|s: String| s@)
}

/// Element `i` of a particle state, or JSON `null` where the state has none.
pub open spec fn element_or_null(state: Seq<Seq<char>>, i: int) -> Seq<char> {
    if 0 <= i < state.len() { state[i] } else { MISSING@ }
}

/// The weight of a particle: the fourth element of its state where there is
/// one, else 1.0.
pub open spec fn weight_of(state: Seq<Seq<char>>) -> Seq<char> {
    if state.len() > 3 { state[3] } else { DEFAULT_WEIGHT@ }
}

/// A particle state of three elements gets the weight 1.0; one of four or
/// more gets its fourth element as weight.
pub proof fn weight_law(state: Seq<Seq<char>>)
    ensures
        state.len() == 3 ==> weight_of(state) == DEFAULT_WEIGHT@,
        state.len() >= 4 ==> weight_of(state) == state[3],
{
}

/// The `particle` object: x, y and heading from the first three elements of
/// the state, and its weight.
pub open spec fn particle_json(state: Seq<Seq<char>>) -> Seq<char> {
    "{\"heading\":"@ + element_or_null(state, 2)
        + ",\"weight\":"@ + weight_of(state)
        + ",\"x\":"@ + element_or_null(state, 0)
        + ",\"y\":"@ + element_or_null(state, 1)
        + "}"@
}

/// The `auth` object.
pub open spec fn auth_json() -> Seq<char> {
    "{\"authorization_key\":\""@ + AUTHORIZATION_KEY@ + "\"}"@
}

/// The body of a move request.
pub open spec fn move_json(
    state: Seq<Seq<char>>,
    rotation1: Seq<char>,
    translation: Seq<char>,
    rotation2: Seq<char>,
) -> Seq<char> {
    "{\"auth\":"@ + auth_json()
        + ",\"particle\":"@ + particle_json(state)
        + ",\"rotation1\":"@ + rotation1
        + ",\"rotation2\":"@ + rotation2
        + ",\"translation\":"@ + translation
        + "}"@
}

/// The body of a read-markers request.
pub open spec fn read_markers_json(state: Seq<Seq<char>>, world: Seq<char>) -> Seq<char> {
    "{\"auth\":"@ + auth_json()
        + ",\"particle\":"@ + particle_json(state)
        + ",\"world\":"@ + world
        + "}"@
}

/// The body of a create-random request.
pub open spec fn create_random_json(count: int, world: Seq<char>) -> Seq<char> {
    "{\"auth\":"@ + auth_json()
        + ",\"count\":"@ + decimal(count)
        + ",\"world\":"@ + world
        + "}"@
}

fn element_text<'a>(state: &'a Vec<String>, i: usize) -> (r: &'a str)
    ensures
        r@ == element_or_null(texts(state@), i as int),
{
    if i < state.len() {
        state[i].as_str()
    } else {
        MISSING
    }
}

/// The weight of a particle whose state has the given elements.
pub fn weight_text(state: &Vec<String>) -> (r: &str)
    ensures
        r@ == weight_of(texts(state@)),
{
    if state.len() > 3 {
        state[3].as_str()
    } else {
        DEFAULT_WEIGHT
    }
}

/// The `particle` object for a state with the given elements (compact JSON
/// texts).
pub fn particle_object(state: &Vec<String>) -> (r: String)
    ensures
        r@ == particle_json(texts(state@)),
{
    let mut s = String::from_str("{\"heading\":");
    s.append(element_text(state, 2));
    s.append(",\"weight\":");
    s.append(weight_text(state));
    s.append(",\"x\":");
    s.append(element_text(state, 0));
    s.append(",\"y\":");
    s.append(element_text(state, 1));
    s.append("}");
    s
}

fn auth_object() -> (r: String)
    ensures
        r@ == auth_json(),
{
    let mut s = String::from_str("{\"authorization_key\":\"");
    s.append(AUTHORIZATION_KEY);
    s.append("\"}");
    s
}

/// The body of a move request; the rotations and the translation are JSON
/// number texts.
pub fn move_body(state: &Vec<String>, rotation1: &str, translation: &str, rotation2: &str) -> (r:
    String)
    ensures
        r@ == move_json(texts(state@), rotation1@, translation@, rotation2@),
{
    let mut s = String::from_str("{\"auth\":");
    s.append(auth_object().as_str());
    s.append(",\"particle\":");
    s.append(particle_object(state).as_str());
    s.append(",\"rotation1\":");
    s.append(rotation1);
    s.append(",\"rotation2\":");
    s.append(rotation2);
    s.append(",\"translation\":");
    s.append(translation);
    s.append("}");
    s
}

/// The body of a read-markers request; `world` is the JSON text of the world.
pub fn read_markers_body(state: &Vec<String>, world: &str) -> (r: String)
    ensures
        r@ == read_markers_json(texts(state@), world@),
{
    let mut s = String::from_str("{\"auth\":");
    s.append(auth_object().as_str());
    s.append(",\"particle\":");
    s.append(particle_object(state).as_str());
    s.append(",\"world\":");
    s.append(world);
    s.append("}");
    s
}

/// The body of a create-random request; `world` is the JSON text of the world.
pub fn create_random_body(count: i32, world: &str) -> (r: String)
    ensures
        r@ == create_random_json(count as int, world@),
{
    let mut s = String::from_str("{\"auth\":");
    s.append(auth_object().as_str());
    s.append(",\"count\":");
    s.append(decimal_text(count).as_str());
    s.append(",\"world\":");
    s.append(world);
    s.append("}");
    s
}

} // verus!
