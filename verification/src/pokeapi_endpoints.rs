//! Upstream response interpretation for the two fetch components.
//!
//! The network call itself is performed by the surrounding binary,
//! which reports it as a plain [`FetchOutcome`]: either a transport
//! failure with its message, or a status with its line and body text.
//! Everything decided from that point — the three-way failure
//! taxonomy, the strict JSON decode of the species record and of the
//! translated text, and the error normalization — is verified here.

use vstd::prelude::*;

use crate::json::{
    json_doc, json_element, json_get_bool, json_get_element, json_get_member, json_get_str,
    json_member, member_bool, member_string, parse_json,
};
use crate::utils::{
    generic_code, normalized_error, not_found_code, unavailable_code, PokemonError,
};

verus! {

/// Success record of the species endpoint: the four fields the
/// upstream body must carry, as plain values.
#[allow(non_snake_case)]
#[derive(Debug)]
pub struct BasicInfo {
    pub name: String,
    pub description: String,
    pub habitat: String,
    pub isLegendary: bool,
}

/// Mathematical image of a [`BasicInfo`].
pub ghost struct BasicInfoView {
    pub name: Seq<char>,
    pub description: Seq<char>,
    pub habitat: Seq<char>,
    pub is_legendary: bool,
}

impl View for BasicInfo {
    type V = BasicInfoView;

    open spec fn view(&self) -> BasicInfoView {
        BasicInfoView {
            name: self.name@,
            description: self.description@,
            habitat: self.habitat@,
            is_legendary: self.isLegendary,
        }
    }
}

/// What one upstream HTTP call came to, as the surrounding binary
/// reports it: either the transport failed outright (connect, name
/// resolution, timeout, or reading the body), or a response arrived
/// with its numeric status, its status line, and its body text.
pub enum FetchOutcome {
    TransportFailure { message: String },
    Response { status: u16, status_line: String, body: String },
}

/// Mathematical image of a [`FetchOutcome`].
pub ghost enum FetchOutcomeView {
    TransportFailure { message: Seq<char> },
    Response { status: u16, status_line: Seq<char>, body: Seq<char> },
}

impl View for FetchOutcome {
    type V = FetchOutcomeView;

    open spec fn view(&self) -> FetchOutcomeView {
        match self {
            FetchOutcome::TransportFailure { message } => FetchOutcomeView::TransportFailure {
                message: message@,
            },
            FetchOutcome::Response { status, status_line, body } => FetchOutcomeView::Response {
                status: *status,
                status_line: status_line@,
                body: body@,
            },
        }
    }
}

/// Whether a numeric status counts as upstream success.
pub open spec fn spec_success_status(status: u16) -> bool {
    200 <= status <= 299
}

/// The status line a failure inside the service itself is reported
/// under before normalization.
pub open spec fn internal_error_line() -> Seq<char> {
    "500 Internal Server Error"@
}

/// Detail text attached when a species body is valid JSON but lacks a
/// required field or holds one of the wrong type.
pub open spec fn species_decode_detail() -> Seq<char> {
    "missing or mistyped field in species response"@
}

/// Detail text attached when a translation body is valid JSON but
/// lacks the translated text.
pub open spec fn translation_decode_detail() -> Seq<char> {
    "missing or mistyped field in translation response"@
}

/// The flavor text of a species document: the string under
/// `flavor_text_entries[0].flavor_text`.
pub open spec fn species_flavor_of(doc: serde_json::Value) -> Option<Seq<char>> {
    match json_member(doc, "flavor_text_entries"@) {
        Some(entries) => match json_element(entries, 0) {
            Some(first) => member_string(first, "flavor_text"@),
            None => None,
        },
        None => None,
    }
}

/// The habitat name of a species document: the string under
/// `habitat.name`.
pub open spec fn species_habitat_of(doc: serde_json::Value) -> Option<Seq<char>> {
    match json_member(doc, "habitat"@) {
        Some(habitat) => member_string(habitat, "name"@),
        None => None,
    }
}

/// The strict decode of a species body: the four required fields when
/// the text is valid JSON and every field is present with the right
/// type, and nothing otherwise.
pub open spec fn species_fields_of(body: Seq<char>) -> Option<BasicInfoView> {
    match json_doc(body) {
        Some(doc) => match (
            member_string(doc, "name"@),
            species_flavor_of(doc),
            species_habitat_of(doc),
            member_bool(doc, "is_legendary"@),
        ) {
            (Some(name), Some(description), Some(habitat), Some(is_legendary)) => Some(
                BasicInfoView { name, description, habitat, is_legendary },
            ),
            _ => None,
        },
        None => None,
    }
}

/// The strict decode of a translation body: the string under
/// `contents.translated` when present, and nothing otherwise.
pub open spec fn translation_text_of(body: Seq<char>) -> Option<Seq<char>> {
    match json_doc(body) {
        Some(doc) => match json_member(doc, "contents"@) {
            Some(contents) => member_string(contents, "translated"@),
            None => None,
        },
        None => None,
    }
}

/// The species record a fetch outcome yields, when it yields one: a
/// success status whose body decodes strictly.
pub open spec fn spec_basic_info_ok(o: FetchOutcomeView) -> Option<BasicInfoView> {
    match o {
        FetchOutcomeView::Response { status, status_line, body } => if spec_success_status(
            status,
        ) {
            species_fields_of(body)
        } else {
            None
        },
        FetchOutcomeView::TransportFailure { .. } => None,
    }
}

/// The translated text a fetch outcome yields, when it yields one.
pub open spec fn spec_translated_text_ok(o: FetchOutcomeView) -> Option<Seq<char>> {
    match o {
        FetchOutcomeView::Response { status, status_line, body } => if spec_success_status(
            status,
        ) {
            translation_text_of(body)
        } else {
            None
        },
        FetchOutcomeView::TransportFailure { .. } => None,
    }
}

fn species_decode_failure() -> (r: String)
    ensures
        r@ == species_decode_detail(),
{
    "missing or mistyped field in species response".to_owned()
}

fn translation_decode_failure() -> (r: String)
    ensures
        r@ == translation_decode_detail(),
{
    "missing or mistyped field in translation response".to_owned()
}

/// Decodes a species body strictly: valid JSON carrying all four
/// required fields of the right types, with no default substituted
/// for a missing one. The error is the decode message: the parser's
/// own for invalid JSON, the fixed field message otherwise.
pub fn decode_species_body(body: &str) -> (r: Result<BasicInfo, String>)
    ensures
        r is Ok <==> species_fields_of(body@) is Some,
        r matches Ok(info) ==> Some(info@) == species_fields_of(body@),
        r matches Err(m) ==> (json_doc(body@) is Some ==> m@ == species_decode_detail()),
{
    let doc = match parse_json(body) {
        Ok(v) => v,
        Err(m) => {
            return Err(m);
        },
    };
    let name = match json_get_member(&doc, "name") {
        Some(member) => match json_get_str(member) {
            Some(s) => s,
            None => {
                return Err(species_decode_failure());
            },
        },
        None => {
            return Err(species_decode_failure());
        },
    };
    let description = match json_get_member(&doc, "flavor_text_entries") {
        Some(entries) => match json_get_element(entries, 0) {
            Some(first) => match json_get_member(first, "flavor_text") {
                Some(member) => match json_get_str(member) {
                    Some(s) => s,
                    None => {
                        return Err(species_decode_failure());
                    },
                },
                None => {
                    return Err(species_decode_failure());
                },
            },
            None => {
                return Err(species_decode_failure());
            },
        },
        None => {
            return Err(species_decode_failure());
        },
    };
    let habitat = match json_get_member(&doc, "habitat") {
        Some(habitat) => match json_get_member(habitat, "name") {
            Some(member) => match json_get_str(member) {
                Some(s) => s,
                None => {
                    return Err(species_decode_failure());
                },
            },
            None => {
                return Err(species_decode_failure());
            },
        },
        None => {
            return Err(species_decode_failure());
        },
    };
    let is_legendary = match json_get_member(&doc, "is_legendary") {
        Some(member) => match json_get_bool(member) {
            Some(b) => b,
            None => {
                return Err(species_decode_failure());
            },
        },
        None => {
            return Err(species_decode_failure());
        },
    };
    Ok(
        BasicInfo {
            name: name.to_owned(),
            description: description.to_owned(),
            habitat: habitat.to_owned(),
            isLegendary: is_legendary,
        },
    )
}

/// Decodes a translation body strictly: valid JSON carrying the
/// string `contents.translated`.
pub fn decode_translation_body(body: &str) -> (r: Result<String, String>)
    ensures
        r is Ok <==> translation_text_of(body@) is Some,
        r matches Ok(t) ==> Some(t@) == translation_text_of(body@),
        r matches Err(m) ==> (json_doc(body@) is Some ==> m@ == translation_decode_detail()),
{
    let doc = match parse_json(body) {
        Ok(v) => v,
        Err(m) => {
            return Err(m);
        },
    };
    let translated = match json_get_member(&doc, "contents") {
        Some(contents) => match json_get_member(contents, "translated") {
            Some(member) => match json_get_str(member) {
                Some(s) => s,
                None => {
                    return Err(translation_decode_failure());
                },
            },
            None => {
                return Err(translation_decode_failure());
            },
        },
        None => {
            return Err(translation_decode_failure());
        },
    };
    Ok(translated.to_owned())
}

/// Interprets the outcome of the species fetch: a transport failure
/// normalizes to the generic bucket carrying the transport message, a
/// non-success status normalizes by its status line with the bucket's
/// default detail, and a success status yields the strictly decoded
/// record or the generic bucket with the decode message.
pub fn get_pokemon_info(outcome: FetchOutcome) -> (r: Result<BasicInfo, PokemonError>)
    ensures
        r is Ok <==> spec_basic_info_ok(outcome@) is Some,
        r matches Ok(info) ==> Some(info@) == spec_basic_info_ok(outcome@),
        outcome@ matches FetchOutcomeView::TransportFailure { message } ==> (r matches Err(e)
            && e@.error_code == generic_code() && e@.error_detail == message),
        outcome@ matches FetchOutcomeView::Response { status, status_line, body } ==> ((
        !spec_success_status(status) ==> (r matches Err(e) && e@ == normalized_error(
            status_line,
            None::<Seq<char>>,
        ))) && (spec_success_status(status) && species_fields_of(body) is None ==> (r matches Err(
            e,
        ) && e@.error_code == generic_code())) && (spec_success_status(status) && json_doc(
            body,
        ) is Some && species_fields_of(body) is None ==> (r matches Err(e) && e@.error_detail
            == species_decode_detail()))),
{
    match outcome {
        FetchOutcome::TransportFailure { message } => {
            proof {
                lemma_internal_error_line_is_generic();
            }
            Err(
                PokemonError::get_error_detail(
                    "500 Internal Server Error".to_owned(),
                    Some(message),
                ),
            )
        },
        FetchOutcome::Response { status, status_line, body } => {
            if status < 200 || status > 299 {
                Err(PokemonError::get_error_detail(status_line, None))
            } else {
                match decode_species_body(body.as_str()) {
                    Ok(info) => Ok(info),
                    Err(m) => {
                        proof {
                            lemma_internal_error_line_is_generic();
                        }
                        Err(
                            PokemonError::get_error_detail(
                                "500 Internal Server Error".to_owned(),
                                Some(m),
                            ),
                        )
                    },
                }
            }
        },
    }
}

/// Interprets the outcome of the translation fetch, under the same
/// three-way taxonomy as the species fetch, yielding the translated
/// text on success.
pub fn get_translated_text(outcome: FetchOutcome) -> (r: Result<String, PokemonError>)
    ensures
        r is Ok <==> spec_translated_text_ok(outcome@) is Some,
        r matches Ok(t) ==> Some(t@) == spec_translated_text_ok(outcome@),
        outcome@ matches FetchOutcomeView::TransportFailure { message } ==> (r matches Err(e)
            && e@.error_code == generic_code() && e@.error_detail == message),
        outcome@ matches FetchOutcomeView::Response { status, status_line, body } ==> ((
        !spec_success_status(status) ==> (r matches Err(e) && e@ == normalized_error(
            status_line,
            None::<Seq<char>>,
        ))) && (spec_success_status(status) && translation_text_of(body) is None ==> (
        r matches Err(e) && e@.error_code == generic_code())) && (spec_success_status(status)
            && json_doc(body) is Some && translation_text_of(body) is None ==> (r matches Err(e)
            && e@.error_detail == translation_decode_detail()))),
{
    match outcome {
        FetchOutcome::TransportFailure { message } => {
            proof {
                lemma_internal_error_line_is_generic();
            }
            Err(
                PokemonError::get_error_detail(
                    "500 Internal Server Error".to_owned(),
                    Some(message),
                ),
            )
        },
        FetchOutcome::Response { status, status_line, body } => {
            if status < 200 || status > 299 {
                Err(PokemonError::get_error_detail(status_line, None))
            } else {
                match decode_translation_body(body.as_str()) {
                    Ok(t) => Ok(t),
                    Err(m) => {
                        proof {
                            lemma_internal_error_line_is_generic();
                        }
                        Err(
                            PokemonError::get_error_detail(
                                "500 Internal Server Error".to_owned(),
                                Some(m),
                            ),
                        )
                    },
                }
            }
        },
    }
}

/// The internal status line is in neither recognized bucket, so it
/// normalizes to the generic code.
proof fn lemma_internal_error_line_is_generic()
    ensures
        crate::utils::normalized_code(internal_error_line()) == generic_code(),
{
    reveal_strlit("500 Internal Server Error");
    reveal_strlit("404 Not Found");
    reveal_strlit("503 Service Unavailable");
    assert(internal_error_line().len() == 25);
    assert(not_found_code().len() == 13);
    assert(unavailable_code().len() == 23);
    assert(internal_error_line() != not_found_code());
    assert(internal_error_line() != unavailable_code());
}

/// Idempotence: the basic-info result is a function of the upstream
/// outcome alone, so repeated requests over unchanged upstream data
/// decode identical records.
pub proof fn lemma_basic_info_idempotent(o1: FetchOutcomeView, o2: FetchOutcomeView)
    requires
        o1 == o2,
    ensures
        spec_basic_info_ok(o1) == spec_basic_info_ok(o2),
{
}

} // verus!
