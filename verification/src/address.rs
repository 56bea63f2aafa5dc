use vstd::prelude::*;

verus! {

/// What parsing a text as an absolute address gives: the parsed address written out, or
/// the message of the parser's error.
pub uninterp spec fn url_parse(text: Seq<char>) -> Result<Seq<char>, Seq<char>>;

/// What resolving a path against a base address gives: the resolved address written
/// out, or the message of the parser's error (that of parsing the base, where the base
/// is no address).
pub uninterp spec fn url_join(base: Seq<char>, path: Seq<char>) -> Result<Seq<char>, Seq<char>>;

/// The view of the outcome of a call of the address parser.
pub open spec fn outcome_text(outcome: Result<String, String>) -> Result<Seq<char>, Seq<char>> {
    match outcome {
        Ok(address) => Ok(address@),
        Err(message) => Err(message@),
    }
}

/// `Url::parse`, with the address it gives written out as text and the error it gives
/// as its message: the outcome is a function of the text alone, named [`url_parse`].
#[verifier::external_body]
pub(crate) fn parse_url(text: &str) -> (outcome: Result<String, String>)
    ensures
        outcome_text(outcome) == url_parse(text@),
{
    match url::Url::parse(text) {
        Ok(address) => Ok(String::from(address)),
        Err(e) => Err(e.to_string()),
    }
}

/// `Url::join` on the address that the base text parses to, with the address it gives
/// written out as text and the error as its message: the outcome is a function of the two
/// texts alone, named [`url_join`].
#[verifier::external_body]
pub(crate) fn join_url(base: &str, path: &str) -> (outcome: Result<String, String>)
    ensures
        outcome_text(outcome) == url_join(base@, path@),
{
    match url::Url::parse(base) {
        Ok(address) => match address.join(path) {
            Ok(joined) => Ok(String::from(joined)),
            Err(e) => Err(e.to_string()),
        },
        Err(e) => Err(e.to_string()),
    }
}

} // verus!
