use greet_api::handlers;
use greet_api::router::{route, Method, Route};

#[test]
fn index_returns_fixed_greeting() {
    let r = handlers::index();
    assert_eq!(r.status, 200);
    assert_eq!(r.message, "Hello, API!");
}

#[test]
fn greet_post_ada() {
    let r = handlers::handle_greet_post("Ada");
    assert_eq!(r.status, 200);
    assert_eq!(r.message, "Hello, Ada!");
}

#[test]
fn greet_post_empty_name() {
    let r = handlers::handle_greet_post("");
    assert_eq!(r.status, 400);
    assert_eq!(r.message, "Invalid input: name cannot be empty");
}

#[test]
fn greet_post_whitespace_name_passes() {
    // No trimming is applied, so a whitespace-only name is valid.
    let r = handlers::handle_greet_post("   ");
    assert_eq!(r.status, 200);
    assert_eq!(r.message, "Hello,    !");
}

#[test]
fn greet_post_result_variants() {
    assert!(handlers::greet_post("Ada").is_ok());
    assert!(handlers::greet_post("").is_err());
}

#[test]
fn greet_get_ada() {
    let r = handlers::greet_get("Ada");
    assert_eq!(r.status, 200);
    assert_eq!(r.message, "Hello, Ada!");
}

#[test]
fn greet_get_empty_name_is_not_validated() {
    // The GET path applies no validation: the empty name is greeted too.
    let r = handlers::greet_get("");
    assert_eq!(r.status, 200);
    assert_eq!(r.message, "Hello, !");
}

#[test]
fn not_found_response() {
    let r = handlers::not_found();
    assert_eq!(r.status, 404);
    assert_eq!(r.message, "The requested resource was not found.");
}

#[test]
fn route_defined_combinations() {
    assert_eq!(route(Method::Get, "/"), Route::Index);
    assert_eq!(route(Method::Get, "/greet"), Route::GreetGet);
    assert_eq!(route(Method::Post, "/greet"), Route::GreetPost);
}

#[test]
fn route_unknown_path() {
    assert_eq!(route(Method::Get, "/nope"), Route::NotFound);
    assert_eq!(route(Method::Get, "/unknown"), Route::NotFound);
    assert_eq!(route(Method::Get, ""), Route::NotFound);
    assert_eq!(route(Method::Get, "/greet/extra"), Route::NotFound);
}

#[test]
fn route_wrong_method() {
    assert_eq!(route(Method::Delete, "/"), Route::NotFound);
    assert_eq!(route(Method::Post, "/"), Route::NotFound);
    assert_eq!(route(Method::Put, "/greet"), Route::NotFound);
    assert_eq!(route(Method::Head, "/"), Route::NotFound);
    assert_eq!(route(Method::Options, "/greet"), Route::NotFound);
    assert_eq!(route(Method::Patch, "/greet"), Route::NotFound);
}
