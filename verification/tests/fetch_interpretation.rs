//! Tests of the fetch-outcome interpretation: the strict JSON decode
//! of both upstream bodies and the three-way failure taxonomy.

use pokemon_world::pokeapi_endpoints::{
    decode_species_body, decode_translation_body, get_pokemon_info, get_translated_text,
    FetchOutcome,
};

fn species_body() -> String {
    "{\"name\":\"mewtwo\",\"flavor_text_entries\":[{\"flavor_text\":\"It was created by a scientist.\"}],\"habitat\":{\"name\":\"rare\"},\"is_legendary\":true}"
        .to_string()
}

fn translation_body() -> String {
    "{\"success\":{\"total\":1},\"contents\":{\"translated\":\"Created by a scientist, it was.\",\"text\":\"It was created by a scientist.\",\"translation\":\"yoda\"}}"
        .to_string()
}

#[test]
fn test_decode_species_body_success() {
    let info = decode_species_body(&species_body()).unwrap();
    assert_eq!(info.name, "mewtwo");
    assert_eq!(info.description, "It was created by a scientist.");
    assert_eq!(info.habitat, "rare");
    assert!(info.isLegendary);
}

#[test]
fn test_decode_species_body_rejects_missing_fields() {
    // Strict decode: each required field must be present with the
    // right type; no default is substituted.
    let missing_habitat = "{\"name\":\"mewtwo\",\"flavor_text_entries\":[{\"flavor_text\":\"text\"}],\"is_legendary\":true}";
    let err = decode_species_body(missing_habitat).unwrap_err();
    assert_eq!(err, "missing or mistyped field in species response");

    let empty_entries =
        "{\"name\":\"x\",\"flavor_text_entries\":[],\"habitat\":{\"name\":\"h\"},\"is_legendary\":false}";
    assert!(decode_species_body(empty_entries).is_err());

    let mistyped_flag = "{\"name\":\"x\",\"flavor_text_entries\":[{\"flavor_text\":\"text\"}],\"habitat\":{\"name\":\"h\"},\"is_legendary\":\"yes\"}";
    assert!(decode_species_body(mistyped_flag).is_err());
}

#[test]
fn test_decode_species_body_rejects_invalid_json() {
    assert!(decode_species_body("Not Found").is_err());
    assert!(decode_species_body("").is_err());
}

#[test]
fn test_decode_translation_body_success() {
    let text = decode_translation_body(&translation_body()).unwrap();
    assert_eq!(text, "Created by a scientist, it was.");
}

#[test]
fn test_decode_translation_body_rejects_missing_text() {
    let err = decode_translation_body("{\"contents\":{}}").unwrap_err();
    assert_eq!(err, "missing or mistyped field in translation response");
    assert!(decode_translation_body("{}").is_err());
    assert!(decode_translation_body("[1,2,3]").is_err());
}

#[test]
fn test_get_pokemon_info_success() {
    let outcome = FetchOutcome::Response {
        status: 200,
        status_line: "200 OK".to_string(),
        body: species_body(),
    };
    let info = get_pokemon_info(outcome).unwrap();
    assert_eq!(info.name, "mewtwo");
    assert_eq!(info.description, "It was created by a scientist.");
    assert_eq!(info.habitat, "rare");
    assert!(info.isLegendary);
}

#[test]
fn test_get_pokemon_info_endpoint_status_failure() {
    let outcome = FetchOutcome::Response {
        status: 404,
        status_line: "404 Not Found".to_string(),
        body: "Not Found".to_string(),
    };
    let error = get_pokemon_info(outcome).unwrap_err();
    assert_eq!(error.error_code, "404 Not Found");
    assert_eq!(
        error.error_detail,
        "Unable to find the details of requested pokemon"
    );
}

#[test]
fn test_get_pokemon_info_endpoint_failure() {
    let outcome = FetchOutcome::TransportFailure {
        message: "error sending request: connection refused".to_string(),
    };
    let error = get_pokemon_info(outcome).unwrap_err();
    assert_eq!(error.error_code, "500");
    assert!(error.error_detail.contains("connection refused"));
}

#[test]
fn test_get_pokemon_info_decode_failure() {
    let outcome = FetchOutcome::Response {
        status: 200,
        status_line: "200 OK".to_string(),
        body: "<html>maintenance</html>".to_string(),
    };
    let error = get_pokemon_info(outcome).unwrap_err();
    assert_eq!(error.error_code, "500");
}

#[test]
fn test_get_pokemon_info_unavailable_keeps_status_line() {
    let outcome = FetchOutcome::Response {
        status: 503,
        status_line: "503 Service Unavailable".to_string(),
        body: "".to_string(),
    };
    let error = get_pokemon_info(outcome).unwrap_err();
    assert_eq!(error.error_code, "503 Service Unavailable");
    assert_eq!(error.error_detail, "Service Unavailable");
}

#[test]
fn test_get_translated_text_success() {
    let outcome = FetchOutcome::Response {
        status: 200,
        status_line: "200 OK".to_string(),
        body: translation_body(),
    };
    let text = get_translated_text(outcome).unwrap();
    assert_eq!(text, "Created by a scientist, it was.");
}

#[test]
fn test_get_translated_text_unrecognized_status_collapses() {
    let outcome = FetchOutcome::Response {
        status: 429,
        status_line: "429 Too Many Requests".to_string(),
        body: "".to_string(),
    };
    let error = get_translated_text(outcome).unwrap_err();
    // Any status line outside the two recognized buckets collapses to
    // the generic code.
    assert_eq!(error.error_code, "500");
    assert_eq!(error.error_detail, "Internal Server Error");
}

#[test]
fn test_get_translated_text_endpoint_failure() {
    let outcome = FetchOutcome::TransportFailure {
        message: "dns error".to_string(),
    };
    let error = get_translated_text(outcome).unwrap_err();
    assert_eq!(error.error_code, "500");
    assert_eq!(error.error_detail, "dns error");
}

#[test]
fn test_get_pokemon_info_idempotent_on_same_outcome() {
    // Same upstream outcome, byte-identical record both times.
    let outcome = || FetchOutcome::Response {
        status: 200,
        status_line: "200 OK".to_string(),
        body: species_body(),
    };
    let first = get_pokemon_info(outcome()).unwrap();
    let second = get_pokemon_info(outcome()).unwrap();
    assert_eq!(first.name, second.name);
    assert_eq!(first.description, second.description);
    assert_eq!(first.habitat, second.habitat);
    assert_eq!(first.isLegendary, second.isLegendary);
}
