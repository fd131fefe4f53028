use bellande_particle::session::{
    plan, prepare, reply_outcome, Command, Field, InputError, Step, CREATE_RANDOM_URL, MOVE_URL,
    READ_MARKERS_URL,
};

const AUTH: &str = "{\"authorization_key\":\"bellande_web_api_opensource\"}";

fn move_cmd(state: &str) -> Command {
    Command::Move {
        particle_state: state.to_string(),
        rotation1: "0.5".to_string(),
        translation: "1.0".to_string(),
        rotation2: "-0.5".to_string(),
    }
}

fn exit_of(step: Step) -> (i32, String, String) {
    match step {
        Step::Exit(o) => (o.code, o.stdout, o.stderr),
        Step::Send(_) => panic!("expected an exit"),
    }
}

#[test]
fn invalid_particle_state_exits_without_request() {
    let (code, stdout, stderr) = exit_of(plan(&move_cmd("[1, 2")));
    assert_eq!(code, 1);
    assert_eq!(stdout, "");
    assert!(stderr.starts_with("Error: Error parsing particle state: "));
    assert!(stderr.ends_with("\n"));
}

#[test]
fn invalid_world_is_named() {
    let cmd = Command::ReadMarkers {
        particle_state: "[1, 2, 3]".to_string(),
        world: "{width: 3}".to_string(),
    };
    match prepare(&cmd) {
        Err(e) => assert_eq!(e.field, Field::World),
        Ok(_) => panic!("expected an error"),
    }
    let (code, _, stderr) = exit_of(plan(&cmd));
    assert_eq!(code, 1);
    assert!(stderr.starts_with("Error: Error parsing world info: "));
}

#[test]
fn particle_state_is_checked_before_world() {
    let cmd = Command::ReadMarkers { particle_state: "oops".to_string(), world: "oops".to_string() };
    match prepare(&cmd) {
        Err(e) => assert_eq!(e.field, Field::ParticleState),
        Ok(_) => panic!("expected an error"),
    }
}

#[test]
fn invalid_world_for_create_random() {
    let cmd = Command::CreateRandom { count: 3, world: "".to_string() };
    let (code, _, stderr) = exit_of(plan(&cmd));
    assert_eq!(code, 1);
    assert!(stderr.starts_with("Error: Error parsing world info: "));
}

#[test]
fn input_error_message_names_field() {
    let e = InputError { field: Field::ParticleState, detail: "expected value".to_string() };
    assert_eq!(e.message(), "Error parsing particle state: expected value");
    let e = InputError { field: Field::World, detail: "x".to_string() };
    assert_eq!(e.message(), "Error parsing world info: x");
}

#[test]
fn move_request_of_three_elements() {
    match plan(&move_cmd("[1, 2, 3]")) {
        Step::Send(r) => {
            assert_eq!(r.url, MOVE_URL);
            assert_eq!(
                r.headers,
                vec![
                    ("accept".to_string(), "application/json".to_string()),
                    ("Content-Type".to_string(), "application/json".to_string()),
                ]
            );
            assert_eq!(
                r.body,
                format!(
                    "{{\"auth\":{},\"particle\":{{\"heading\":3,\"weight\":1.0,\"x\":1,\"y\":2}},\"rotation1\":0.5,\"rotation2\":-0.5,\"translation\":1.0}}",
                    AUTH
                )
            );
        }
        Step::Exit(_) => panic!("expected a request"),
    }
}

#[test]
fn move_request_takes_fourth_element_as_weight() {
    match plan(&move_cmd("[ 1.5 , 2 , 0.25 , 0.75 ]")) {
        Step::Send(r) => assert!(r
            .body
            .contains("\"particle\":{\"heading\":0.25,\"weight\":0.75,\"x\":1.5,\"y\":2}")),
        Step::Exit(_) => panic!("expected a request"),
    }
}

#[test]
fn non_array_particle_state_gives_nulls() {
    match plan(&move_cmd("{\"x\": 1}")) {
        Step::Send(r) => assert!(r
            .body
            .contains("\"particle\":{\"heading\":null,\"weight\":1.0,\"x\":null,\"y\":null}")),
        Step::Exit(_) => panic!("expected a request"),
    }
}

#[test]
fn read_markers_request_reserializes_world() {
    let cmd = Command::ReadMarkers {
        particle_state: "[0, 0, 0, 1]".to_string(),
        world: "{ \"width\" : 10,\n \"markers\": [[1, 2]] }".to_string(),
    };
    match plan(&cmd) {
        Step::Send(r) => {
            assert_eq!(r.url, READ_MARKERS_URL);
            assert_eq!(
                r.body,
                format!(
                    "{{\"auth\":{},\"particle\":{{\"heading\":0,\"weight\":1,\"x\":0,\"y\":0}},\"world\":{{\"markers\":[[1,2]],\"width\":10}}}}",
                    AUTH
                )
            );
        }
        Step::Exit(_) => panic!("expected a request"),
    }
}

#[test]
fn create_random_request() {
    let cmd = Command::CreateRandom { count: 100, world: "{\"width\": 5}".to_string() };
    match plan(&cmd) {
        Step::Send(r) => {
            assert_eq!(r.url, CREATE_RANDOM_URL);
            assert_eq!(
                r.body,
                format!("{{\"auth\":{},\"count\":100,\"world\":{{\"width\":5}}}}", AUTH)
            );
        }
        Step::Exit(_) => panic!("expected a request"),
    }
}

#[test]
fn json_reply_is_pretty_printed() {
    let o = reply_outcome(&Ok("{\"b\":[1,2],\"a\":\"x\"}".as_bytes().to_vec()));
    assert_eq!(o.code, 0);
    assert_eq!(o.stdout, "{\n  \"a\": \"x\",\n  \"b\": [\n    1,\n    2\n  ]\n}\n");
    assert_eq!(o.stderr, "");
}

#[test]
fn scalar_reply_is_printed() {
    let o = reply_outcome(&Ok(" 42 ".as_bytes().to_vec()));
    assert_eq!(o.code, 0);
    assert_eq!(o.stdout, "42\n");
}

#[test]
fn transport_error_exits_one() {
    let o = reply_outcome(&Err("connection refused".to_string()));
    assert_eq!(o.code, 1);
    assert_eq!(o.stdout, "");
    assert_eq!(o.stderr, "Error: connection refused\n");
}

#[test]
fn non_json_reply_exits_one() {
    let o = reply_outcome(&Ok("<html>bad gateway</html>".as_bytes().to_vec()));
    assert_eq!(o.code, 1);
    assert_eq!(o.stdout, "");
    assert!(o.stderr.starts_with("Error: the reply is not JSON: "));
}

#[test]
fn create_random_reply_is_printed() {
    let o = reply_outcome(&Ok("{\"particles\":[]}".as_bytes().to_vec()));
    assert_eq!(o.code, 0);
    assert_eq!(o.stdout, "{\n  \"particles\": []\n}\n");
}

#[test]
fn reply_with_bad_utf8_exits_one() {
    let o = reply_outcome(&Ok(vec![b'"', 0xff, 0xfe, b'"']));
    assert_eq!(o.code, 1);
    assert_eq!(o.stdout, "");
    assert!(o.stderr.starts_with("Error: the reply is not JSON: "));
}
