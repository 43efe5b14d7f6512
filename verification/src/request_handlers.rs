//! Request orchestration: endpoint addresses, dialect selection, and
//! the stepwise translated-info flow.
//!
//! A request proceeds species fetch → dialect selection → translation
//! fetch → done, with any failure absorbing the run unchanged. The
//! fetches themselves are performed by the surrounding binary; the
//! decisions between them stand here: [`plan_translation`] decides
//! what follows the species fetch, [`finish_translation`] folds the
//! translation outcome into the final record.

use vstd::prelude::*;
use vstd::string::StringExecFns;

use crate::pokeapi_endpoints::BasicInfo;
use crate::utils::{str_eq, PokemonError};

verus! {

/// The species endpoint's base address: the requested name is
/// appended to it.
pub open spec fn spec_species_api_path() -> Seq<char> {
    "https://pokeapi.co/api/v2/pokemon-species/"@
}

/// The two translation dialects, each carrying a fixed endpoint.
#[derive(Clone, Copy, PartialEq, Eq, Structural, Debug)]
pub enum Dialect {
    Yoda,
    Shakespeare,
}

/// The endpoint a dialect's translation requests are posted to.
pub open spec fn spec_dialect_api_path(dialect: Dialect) -> Seq<char> {
    match dialect {
        Dialect::Yoda => "https://api.funtranslations.com/translate/yoda.json"@,
        Dialect::Shakespeare => "https://api.funtranslations.com/translate/shakespeare.json"@,
    }
}

/// The dialect a species routes to: the cave habitat or the legendary
/// flag — either alone suffices — routes to Yoda, everything else to
/// Shakespeare.
pub open spec fn spec_select_dialect(habitat: Seq<char>, is_legendary: bool) -> Dialect {
    if habitat == "Cave"@ || is_legendary {
        Dialect::Yoda
    } else {
        Dialect::Shakespeare
    }
}

/// Base address of the species endpoint.
pub fn species_api_path() -> (r: String)
    ensures
        r@ == spec_species_api_path(),
{
    "https://pokeapi.co/api/v2/pokemon-species/".to_owned()
}

/// The address the species record of `name` is fetched from: the base
/// address with the name appended.
pub fn species_request_url(name: &str) -> (r: String)
    ensures
        r@ == spec_species_api_path() + name@,
{
    species_api_path().concat(name)
}

/// The address translation requests for `dialect` are posted to.
pub fn dialect_api_path(dialect: Dialect) -> (r: String)
    ensures
        r@ == spec_dialect_api_path(dialect),
{
    match dialect {
        Dialect::Yoda => "https://api.funtranslations.com/translate/yoda.json".to_owned(),
        Dialect::Shakespeare => "https://api.funtranslations.com/translate/shakespeare.json"
            .to_owned(),
    }
}

/// Picks the translation dialect from the routing fields of a species
/// record. Total: every habitat and flag combination selects one.
pub fn select_dialect(habitat: &str, is_legendary: bool) -> (dialect: Dialect)
    ensures
        dialect == spec_select_dialect(habitat@, is_legendary),
{
    if str_eq(habitat, "Cave") || is_legendary {
        Dialect::Yoda
    } else {
        Dialect::Shakespeare
    }
}

/// What follows the species fetch in the translated-info flow: either
/// a translation fetch still to perform, or a finished result.
pub enum TranslationStep {
    Translate { info: BasicInfo, dialect: Dialect },
    Done { result: Result<BasicInfo, PokemonError> },
}

/// Decides the step after the species fetch: a species failure is
/// final and passes through unchanged; a species record proceeds to a
/// translation fetch under the dialect its routing fields select.
pub fn plan_translation(species_result: Result<BasicInfo, PokemonError>) -> (step:
    TranslationStep)
    ensures
        species_result matches Ok(info) ==> (step matches TranslationStep::Translate {
            info: planned,
            dialect,
        } && planned == info && dialect == spec_select_dialect(
            info@.habitat,
            info@.is_legendary,
        )),
        species_result matches Err(e) ==> (step matches TranslationStep::Done { result } && (
        result matches Err(final_error) && final_error == e)),
{
    match species_result {
        Ok(info) => {
            let dialect = select_dialect(info.habitat.as_str(), info.isLegendary);
            TranslationStep::Translate { info, dialect }
        },
        Err(e) => TranslationStep::Done { result: Err(e) },
    }
}

/// Folds the translation outcome into the final result: a translation
/// failure is final and passes through unchanged; translated text
/// replaces the record's description, leaving the other fields as the
/// species fetch returned them.
pub fn finish_translation(info: BasicInfo, translation_result: Result<String, PokemonError>) -> (r:
    Result<BasicInfo, PokemonError>)
    ensures
        translation_result matches Ok(translated) ==> (r matches Ok(b) && b@.name == info@.name
            && b@.description == translated@ && b@.habitat == info@.habitat && b@.is_legendary
            == info@.is_legendary),
        translation_result matches Err(e) ==> (r matches Err(final_error) && final_error == e),
{
    match translation_result {
        Ok(translated) => Ok(
            BasicInfo {
                name: info.name,
                description: translated,
                habitat: info.habitat,
                isLegendary: info.isLegendary,
            },
        ),
        Err(e) => Err(e),
    }
}

/// Routing law: every species whose habitat is the cave literal or
/// whose legendary flag is set — either condition alone suffices —
/// routes to the Yoda dialect, and every other species routes to
/// Shakespeare.
pub proof fn lemma_translation_routing(habitat: Seq<char>, is_legendary: bool)
    ensures
        habitat == "Cave"@ || is_legendary ==> spec_select_dialect(habitat, is_legendary)
            == Dialect::Yoda,
        !(habitat == "Cave"@ || is_legendary) ==> spec_select_dialect(habitat, is_legendary)
            == Dialect::Shakespeare,
{
}

} // verus!
