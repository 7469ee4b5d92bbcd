use petstore::handlers::{create_pets, list_pets, not_found, show_pet_by_id};
use petstore::model::{HttpResponse, Pet};
use petstore::router::{handle_create_body, handle_request, router, RouteOutcome, RouterStep};

fn v(s: &[u8]) -> Vec<u8> {
    s.to_vec()
}

fn response_of(step: RouterStep) -> HttpResponse {
    match step {
        RouterStep::Response(r) => r,
        RouterStep::NeedsBody => panic!("expected an immediate response"),
    }
}

#[test]
fn routes_match_the_table() {
    assert_eq!(
        router(&v(b"GET"), &v(b"/pets"), &v(b"")),
        RouteOutcome::ListPets { limit: 25, offset: 0 }
    );
    assert_eq!(
        router(&v(b"GET"), &v(b"/pets"), &v(b"limit=2&offset=3")),
        RouteOutcome::ListPets { limit: 2, offset: 3 }
    );
    assert_eq!(router(&v(b"POST"), &v(b"/pets"), &v(b"")), RouteOutcome::CreatePet);
    assert_eq!(router(&v(b"GET"), &v(b"/pets/42"), &v(b"")), RouteOutcome::GetPet { id: 42 });
    assert_eq!(router(&v(b"GET"), &v(b"/pets/abc"), &v(b"")), RouteOutcome::NotFound);
    assert_eq!(router(&v(b"PUT"), &v(b"/pets"), &v(b"")), RouteOutcome::NotFound);
    assert_eq!(router(&v(b"GET"), &v(b"/"), &v(b"")), RouteOutcome::NotFound);
    assert_eq!(router(&v(b"GET"), &v(b"/pets/1/2"), &v(b"")), RouteOutcome::NotFound);
    assert_eq!(router(&v(b"POST"), &v(b"/pets/1"), &v(b"")), RouteOutcome::NotFound);
    assert_eq!(router(&v(b"GET"), &v(b"/unknown"), &v(b"")), RouteOutcome::NotFound);
}

#[test]
fn omitted_parameters_equal_explicit_defaults() {
    assert_eq!(
        router(&v(b"GET"), &v(b"/pets"), &v(b"")),
        router(&v(b"GET"), &v(b"/pets"), &v(b"limit=25&offset=0"))
    );
    assert_eq!(
        router(&v(b"GET"), &v(b"/pets"), &v(b"limit=abc&offset=")),
        router(&v(b"GET"), &v(b"/pets"), &v(b"limit=25&offset=0"))
    );
}

#[test]
fn list_scenario() {
    let r = response_of(handle_request(&v(b"GET"), &v(b"/pets"), &v(b"limit=2&offset=3")));
    assert_eq!(r.status, 200);
    assert_eq!(r.headers.len(), 2);
    assert_eq!(r.headers[0].0, v(b"x-next"));
    assert_eq!(r.headers[0].1, v(b"/pets?limit=2&offset=5"));
    assert_eq!(r.headers[1].0, v(b"content-type"));
    assert_eq!(r.headers[1].1, v(b"application/json"));
    assert_eq!(
        r.body,
        v(b"{\"items\":[{\"id\":3,\"name\":\"john\",\"tag\":\"doe\"},{\"id\":4,\"name\":\"john\",\"tag\":\"doe\"}]}")
    );
}

#[test]
fn list_cursor_advances_by_limit() {
    let r = response_of(handle_request(&v(b"GET"), &v(b"/pets"), &v(b"limit=0&offset=9")));
    assert_eq!(r.headers[0].1, v(b"/pets?limit=0&offset=9"));
    assert_eq!(r.body, v(b"{\"items\":[]}"));
    let r = response_of(handle_request(&v(b"GET"), &v(b"/pets"), &v(b"")));
    assert_eq!(r.headers[0].1, v(b"/pets?limit=25&offset=25"));
}

#[test]
fn create_scenario() {
    match handle_request(&v(b"POST"), &v(b"/pets"), &v(b"")) {
        RouterStep::NeedsBody => {},
        RouterStep::Response(_) => panic!("a create must wait for the body"),
    }
    let r = handle_create_body(&v(b"{\"id\":1,\"name\":\"Rex\",\"tag\":null}"))
        .expect("a well-formed body answers");
    assert_eq!(r.status, 201);
    assert!(r.headers.is_empty());
    assert!(r.body.is_empty());
}

#[test]
fn create_malformed_body_gives_no_response() {
    assert!(handle_create_body(&v(b"{\"id\":}")).is_none());
    assert!(handle_create_body(&v(b"")).is_none());
}

#[test]
fn get_by_id_scenario() {
    let r = response_of(handle_request(&v(b"GET"), &v(b"/pets/42"), &v(b"")));
    assert_eq!(r.status, 200);
    assert_eq!(r.headers.len(), 1);
    assert_eq!(r.headers[0].0, v(b"content-type"));
    assert_eq!(r.headers[0].1, v(b"application/json"));
    assert_eq!(r.body, v(b"{\"id\":42,\"name\":\"john\",\"tag\":\"doe\"}"));
}

#[test]
fn unknown_path_scenario() {
    let r = response_of(handle_request(&v(b"GET"), &v(b"/unknown"), &v(b"")));
    assert_eq!(r.status, 404);
    assert!(r.headers.is_empty());
    assert!(r.body.is_empty());
}

#[test]
fn non_numeric_id_answers_not_found() {
    let r = response_of(handle_request(&v(b"GET"), &v(b"/pets/abc"), &v(b"")));
    assert_eq!(r.status, 404);
    assert!(r.body.is_empty());
}

#[test]
fn handlers_build_their_responses() {
    let r = list_pets(1, 0);
    assert_eq!(r.status, 200);
    assert_eq!(r.headers[0].1, v(b"/pets?limit=1&offset=1"));
    assert_eq!(r.body, v(b"{\"items\":[{\"id\":0,\"name\":\"john\",\"tag\":\"doe\"}]}"));

    let r = create_pets(Pet { id: 5, name: v(b"Rex"), tag: None });
    assert_eq!(r.status, 201);
    assert!(r.headers.is_empty());
    assert!(r.body.is_empty());

    let r = show_pet_by_id(7);
    assert_eq!(r.status, 200);
    assert_eq!(r.body, v(b"{\"id\":7,\"name\":\"john\",\"tag\":\"doe\"}"));

    let r = not_found();
    assert_eq!(r.status, 404);
    assert!(r.headers.is_empty());
    assert!(r.body.is_empty());
}
