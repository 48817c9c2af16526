use vstd::prelude::*;

verus! {

/// Errors raised by the client library.
///
/// `Validation` reports a bad input field before any provider is consulted,
/// `Api` reports a provider-level failure (an HTTP status and message), and
/// `Http` carries the text of a transport failure. `MissingApiKey` is raised
/// when a client is constructed without a key.
#[derive(Debug, Clone)]
pub enum Error {
    MissingApiKey,
    Validation { field: String, message: String },
    Api { status: u16, message: String },
    Http { message: String },
}

/// Whether `e` is the validation error for `field` with text `message`.
pub open spec fn is_validation_error(e: Error, field: Seq<char>, message: Seq<char>) -> bool {
    &&& e matches Error::Validation { field: f, message: m }
    &&& f@ == field
    &&& m@ == message
}

/// Whether `e` is the provider-level error with status `status` and text
/// `message`.
pub open spec fn is_api_error(e: Error, status: u16, message: Seq<char>) -> bool {
    &&& e matches Error::Api { status: s, message: m }
    &&& s == status
    &&& m@ == message
}

/// How a provider's failure is normalised before it surfaces: it never
/// wears the validation variant, since a validation error arises only
/// before any provider is consulted. Any other shape passes through
/// unchanged; one in the shape of a validation error is demoted to a
/// provider-level error that keeps its message.
pub open spec fn normalized_provider_error(e: Error, r: Error) -> bool {
    &&& !(r matches Error::Validation { .. })
    &&& !(e matches Error::Validation { .. }) ==> r == e
    &&& (e matches Error::Validation { field: _, message: m } ==> (r matches Error::Api {
        status: s,
        message: m2,
    } && s == 0 && m2 == m))
}

/// Normalises a provider's failure, as `normalized_provider_error` says.
pub fn as_provider_error(e: Error) -> (r: Error)
    ensures
        normalized_provider_error(e, r),
{
    match e {
        Error::Validation { field: _, message } => Error::Api { status: 0, message },
        other => other,
    }
}

} // verus!
