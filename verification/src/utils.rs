//! Uniform error representation and its normalization rules.
//!
//! Every upstream failure — transport, non-success status, or decode —
//! is folded into a [`PokemonError`] by a closed three-bucket table:
//! the two recognized status lines keep their code, everything else
//! collapses to the generic `"500"` bucket. The numeric transport
//! status served to callers is derived from the first three characters
//! of the error code, defaulting to 500.

use vstd::prelude::*;

verus! {

/// Uniform failure value returned to the caller in place of a record.
#[derive(Debug)]
pub struct PokemonError {
    pub error_code: String,
    pub error_detail: String,
}

/// Mathematical image of a [`PokemonError`]: both fields as character
/// sequences.
pub ghost struct PokemonErrorView {
    pub error_code: Seq<char>,
    pub error_detail: Seq<char>,
}

impl View for PokemonError {
    type V = PokemonErrorView;

    open spec fn view(&self) -> PokemonErrorView {
        PokemonErrorView {
            error_code: self.error_code@,
            error_detail: self.error_detail@,
        }
    }
}

/// Status line of the recognized not-found bucket.
pub open spec fn not_found_code() -> Seq<char> {
    "404 Not Found"@
}

/// Status line of the recognized unavailable bucket.
pub open spec fn unavailable_code() -> Seq<char> {
    "503 Service Unavailable"@
}

/// Code of the generic bucket that absorbs every other failure.
pub open spec fn generic_code() -> Seq<char> {
    "500"@
}

/// Default detail text of the not-found bucket.
pub open spec fn not_found_detail() -> Seq<char> {
    "Unable to find the details of requested pokemon"@
}

/// Default detail text of the unavailable bucket.
pub open spec fn unavailable_detail() -> Seq<char> {
    "Service Unavailable"@
}

/// Default detail text of the generic bucket.
pub open spec fn generic_detail() -> Seq<char> {
    "Internal Server Error"@
}

/// The error code that the three-bucket table assigns to an incoming
/// status line: the two recognized lines are kept verbatim, anything
/// else collapses to the generic `"500"` code.
pub open spec fn normalized_code(status: Seq<char>) -> Seq<char> {
    if status == not_found_code() || status == unavailable_code() {
        status
    } else {
        generic_code()
    }
}

/// The detail text used when the caller supplies none: the fixed
/// per-bucket message.
pub open spec fn bucket_default_detail(status: Seq<char>) -> Seq<char> {
    if status == not_found_code() {
        not_found_detail()
    } else if status == unavailable_code() {
        unavailable_detail()
    } else {
        generic_detail()
    }
}

/// The whole normalization table: code from the bucket of `status`,
/// detail from the caller when present, else the bucket default.
pub open spec fn normalized_error(status: Seq<char>, detail: Option<Seq<char>>) -> PokemonErrorView {
    PokemonErrorView {
        error_code: normalized_code(status),
        error_detail: match detail {
            Some(d) => d,
            None => bucket_default_detail(status),
        },
    }
}

/// Character-for-character string comparison, so that contracts can
/// speak of view equality directly.
pub fn str_eq(a: &str, b: &str) -> (r: bool)
    ensures
        r == (a@ == b@),
{
    let a_len = a.unicode_len();
    let b_len = b.unicode_len();
    if a_len != b_len {
        return false;
    }
    let mut i: usize = 0;
    while i < a_len
        invariant
            i <= a_len,
            a_len == a@.len(),
            a_len == b@.len(),
            forall|j: int| 0 <= j < i ==> a@[j] == b@[j],
        decreases a_len - i,
    {
        if a.get_char(i) != b.get_char(i) {
            return false;
        }
        i = i + 1;
    }
    proof {
        assert(a@ =~= b@);
    }
    true
}

impl PokemonError {
    /// Sorts a raw upstream status line into one of the three error
    /// buckets and attaches the detail text, falling back to the
    /// bucket's fixed message when the caller has none.
    pub fn get_error_detail(status_code: String, detail: Option<String>) -> (r: PokemonError)
        ensures
            r@ == normalized_error(status_code@, match detail {
                Some(d) => Some(d@),
                None => None,
            }),
    {
        if str_eq(status_code.as_str(), "404 Not Found") {
            let error_detail = match detail {
                Some(d) => d,
                None => "Unable to find the details of requested pokemon".to_owned(),
            };
            PokemonError { error_code: status_code, error_detail }
        } else if str_eq(status_code.as_str(), "503 Service Unavailable") {
            let error_detail = match detail {
                Some(d) => d,
                None => "Service Unavailable".to_owned(),
            };
            PokemonError { error_code: status_code, error_detail }
        } else {
            let error_detail = match detail {
                Some(d) => d,
                None => "Internal Server Error".to_owned(),
            };
            PokemonError { error_code: "500".to_owned(), error_detail }
        }
    }

    /// The numeric transport status derived from this error's code.
    pub fn transport_status(&self) -> (s: u16)
        ensures
            s == spec_transport_status(self.error_code@),
    {
        transport_status_of(self.error_code.as_str())
    }
}

/// Whether `c` is an ASCII decimal digit.
pub open spec fn is_digit(c: char) -> bool {
    48 <= c as u32 <= 57
}

/// Numeric value of an ASCII decimal digit.
pub open spec fn digit_val(c: char) -> int {
    c as u32 - 48
}

/// The transport-level status derived from an error code: its first
/// three characters read as a three-digit HTTP status (first digit
/// nonzero), defaulting to 500 whenever that parse fails.
pub open spec fn spec_transport_status(code: Seq<char>) -> u16 {
    if code.len() >= 3 && is_digit(code[0]) && code[0] != '0' && is_digit(code[1]) && is_digit(
        code[2],
    ) {
        (digit_val(code[0]) * 100 + digit_val(code[1]) * 10 + digit_val(code[2])) as u16
    } else {
        500
    }
}

/// Parses the leading three-digit status out of an error code,
/// defaulting to 500 when the code does not start with a valid
/// three-digit status.
pub fn transport_status_of(error_code: &str) -> (s: u16)
    ensures
        s == spec_transport_status(error_code@),
{
    let n = error_code.unicode_len();
    if n < 3 {
        return 500;
    }
    let d0 = error_code.get_char(0) as u32;
    let d1 = error_code.get_char(1) as u32;
    let d2 = error_code.get_char(2) as u32;
    if 49 <= d0 && d0 <= 57 && 48 <= d1 && d1 <= 57 && 48 <= d2 && d2 <= 57 {
        ((d0 - 48) * 100 + (d1 - 48) * 10 + (d2 - 48)) as u16
    } else {
        500
    }
}

/// Bucket totality: any status line other than the two recognized
/// ones is assigned exactly the generic `"500"` code.
pub proof fn lemma_error_bucket_totality(status: Seq<char>)
    requires
        status != not_found_code(),
        status != unavailable_code(),
    ensures
        normalized_code(status) == generic_code(),
{
}

/// Every code the normalizer emits derives a transport status among
/// 404, 503 and 500: the two recognized lines parse to their own
/// numbers, and the generic code parses to 500.
pub proof fn lemma_normalized_code_transport_status(status: Seq<char>)
    ensures
        status == not_found_code() ==> spec_transport_status(normalized_code(status)) == 404,
        status == unavailable_code() ==> spec_transport_status(normalized_code(status)) == 503,
        status != not_found_code() && status != unavailable_code() ==> spec_transport_status(
            normalized_code(status),
        ) == 500,
{
    reveal_strlit("404 Not Found");
    reveal_strlit("503 Service Unavailable");
    reveal_strlit("500");
}

} // verus!
