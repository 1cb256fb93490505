//! The address under which the service is reached.

use vstd::prelude::*;

verus! {

/// What `url::Url::parse` makes of `input`: the serialization of the URL that
/// it reads there, or nothing where it reads none.
pub uninterp spec fn url_serialization(input: Seq<char>) -> Option<Seq<char>>;

/// Makes `url::ParseError` known, so that the parser's verdict can be handed
/// on. Nothing is claimed of what a value of it holds.
#[verifier::external_type_specification]
#[verifier::external_body]
pub struct ExParseError(url::ParseError);

/// Calls `url::Url::parse` on `input` and, where that gives a URL, takes its
/// serialization with `Url::as_str`.
///
/// Trusted: the outcome is a function of `input` alone, named by
/// [`url_serialization`]; an `Err` comes exactly where the parser gives none.
#[verifier::external_body]
fn parse_url(input: &str) -> (r: Result<String, url::ParseError>)
    ensures
        r matches Ok(text) ==> url_serialization(input@) == Some(text@),
        r is Err ==> url_serialization(input@) is None,
{
    match url::Url::parse(input) {
        Ok(parsed) => Ok(parsed.as_str().to_owned()),
        Err(reason) => Err(reason),
    }
}

/// Whether `text` is the serialization of some URL.
pub open spec fn is_url(text: Seq<char>) -> bool {
    exists|input: Seq<char>| url_serialization(input) == Some(text)
}

/// The input names no absolute URL; `reason` is the parser's verdict.
#[derive(Clone, Copy, Debug, PartialEq, Eq)]
pub struct InvalidUrl {
    pub reason: url::ParseError,
}

/// An absolute URL in its serialized form.
#[derive(Debug, PartialEq, Eq)]
pub struct BaseUrl {
    text: String,
}

impl View for BaseUrl {
    type V = Seq<char>;

    closed spec fn view(&self) -> Seq<char> {
        self.text@
    }
}

impl Clone for BaseUrl {
    fn clone(&self) -> (copy: BaseUrl)
        ensures
            copy@ == self@,
    {
        proof {
            use_type_invariant(self);
        }
        BaseUrl { text: self.text.clone() }
    }
}

impl BaseUrl {
    #[verifier::type_invariant]
    spec fn serializes_a_url(&self) -> bool {
        is_url(self.text@)
    }

    /// Reads `input` as an absolute URL.
    ///
    /// Succeeds exactly on the inputs that the URL parser accepts, and then
    /// holds the serialization that the parser gives, which may differ from
    /// `input` (a missing path becomes `/`).
    pub fn parse(input: &str) -> (r: Result<BaseUrl, InvalidUrl>)
        ensures
            r is Ok <==> url_serialization(input@) is Some,
            r matches Ok(base) ==> url_serialization(input@) == Some(base@),
    {
        match parse_url(input) {
            Ok(text) => Ok(BaseUrl { text }),
            Err(reason) => Err(InvalidUrl { reason }),
        }
    }

    /// The serialization.
    pub fn as_str(&self) -> (text: &str)
        ensures
            text@ == self@,
            is_url(text@),
    {
        proof {
            use_type_invariant(self);
        }
        self.text.as_str()
    }
}

} // verus!
