//! Tests of the three-bucket error normalization and of the derived
//! transport status.

use pokemon_world::utils::{transport_status_of, PokemonError};

#[test]
fn test_get_error_detail_404() {
    let error = PokemonError::get_error_detail("404 Not Found".to_string(), None);
    assert_eq!(
        error.error_detail,
        "Unable to find the details of requested pokemon".to_string()
    );
}

#[test]
fn test_get_error_detail_503() {
    let error = PokemonError::get_error_detail("503 Service Unavailable".to_string(), None);
    assert_eq!(error.error_detail, "Service Unavailable".to_string());
}

#[test]
fn test_get_error_detail_500() {
    let error = PokemonError::get_error_detail("500".to_string(), None);
    assert_eq!(error.error_detail, "Internal Server Error".to_string());
}

#[test]
fn test_recognized_codes_kept_verbatim() {
    let error = PokemonError::get_error_detail("404 Not Found".to_string(), None);
    assert_eq!(error.error_code, "404 Not Found".to_string());
    let error = PokemonError::get_error_detail("503 Service Unavailable".to_string(), None);
    assert_eq!(error.error_code, "503 Service Unavailable".to_string());
}

#[test]
fn test_bucket_totality_collapses_other_status_lines() {
    for line in [
        "400 Bad Request",
        "429 Too Many Requests",
        "500 Internal Server Error",
        "200 OK",
        "connection refused",
        "",
    ] {
        let error = PokemonError::get_error_detail(line.to_string(), None);
        assert_eq!(error.error_code, "500".to_string());
    }
}

#[test]
fn test_detail_overrides_bucket_default() {
    let error = PokemonError::get_error_detail(
        "404 Not Found".to_string(),
        Some("nothing here".to_string()),
    );
    assert_eq!(error.error_detail, "nothing here".to_string());
    let error = PokemonError::get_error_detail(
        "503 Service Unavailable".to_string(),
        Some("down for repairs".to_string()),
    );
    assert_eq!(error.error_detail, "down for repairs".to_string());
    let error =
        PokemonError::get_error_detail("418".to_string(), Some("short and stout".to_string()));
    assert_eq!(error.error_detail, "short and stout".to_string());
}

#[test]
fn test_transport_status_of_recognized_codes() {
    assert_eq!(transport_status_of("404 Not Found"), 404);
    assert_eq!(transport_status_of("503 Service Unavailable"), 503);
    assert_eq!(transport_status_of("500"), 500);
}

#[test]
fn test_transport_status_defaults_to_500_when_unparsable() {
    assert_eq!(transport_status_of(""), 500);
    assert_eq!(transport_status_of("xx"), 500);
    assert_eq!(transport_status_of("not a status"), 500);
    assert_eq!(transport_status_of("0ab"), 500);
    assert_eq!(transport_status_of("099"), 500);
    assert_eq!(transport_status_of("4x4"), 500);
}

#[test]
fn test_transport_status_via_error_value() {
    let error = PokemonError::get_error_detail("404 Not Found".to_string(), None);
    assert_eq!(error.transport_status(), 404);
    let error = PokemonError::get_error_detail("418 I'm a teapot".to_string(), None);
    assert_eq!(error.transport_status(), 500);
}
