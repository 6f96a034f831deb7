//! Parsed URLs: the `url` crate's parser behind a trusted wrapper, with the
//! URL's serialized text kept beside it.

use vstd::prelude::*;

verus! {

#[verifier::external_type_specification]
#[verifier::external_body]
pub struct ExUrl(url::Url);

/// What `url::Url::parse` gives for `input`: the serialized URL, or the text
/// of the parse error. A function of the input alone.
pub uninterp spec fn spec_url_parse(input: Seq<char>) -> Result<Seq<char>, Seq<char>>;

/// A URL text as the parser gives it: parsing it again gives it back
/// unchanged, and it begins with a lowercase ASCII letter (the first letter
/// of the scheme).
pub open spec fn parser_output(u: Seq<char>) -> bool {
    &&& spec_url_parse(u) == Ok::<Seq<char>, Seq<char>>(u)
    &&& u.len() > 0
    &&& 'a' <= u[0] && u[0] <= 'z'
}

/// A URL that parsed, together with its serialized text.
#[derive(Debug)]
pub struct ParsedUrl {
    url: url::Url,
    text: String,
}

impl View for ParsedUrl {
    type V = Seq<char>;

    /// The serialized text of the URL.
    closed spec fn view(&self) -> Seq<char> {
        self.text@
    }
}

/// Calls `url::Url::parse`. Claimed: on success the result holds the parsed
/// URL and its serialization (`Url::as_str`), on failure the error's text,
/// both as `spec_url_parse` names them. Claimed of a serialization: it parses
/// back to itself (the url crate asserts this in `Url::check_invariants`),
/// and it starts with the scheme, whose first character must be an ASCII
/// letter and which the parser lowercases (`Parser::parse_scheme`; without a
/// base URL there is no other way to succeed). What the parsed `Url` value
/// holds beyond its serialization is left unsaid.
#[verifier::external_body]
pub(crate) fn parse_url(input: &str) -> (r: Result<ParsedUrl, String>)
    ensures
        match r {
            Ok(u) => spec_url_parse(input@) == Ok::<Seq<char>, Seq<char>>(u@),
            Err(e) => spec_url_parse(input@) == Err::<Seq<char>, Seq<char>>(e@),
        },
        r matches Ok(u) ==> parser_output(u@),
{
    match url::Url::parse(input) {
        Ok(url) => {
            let text = url.as_str().to_string();
            Ok(ParsedUrl { url, text })
        },
        Err(e) => Err(e.to_string()),
    }
}

impl ParsedUrl {
    /// Every held URL text is as the parser gives it.
    #[verifier::type_invariant]
    closed spec fn well_formed(self) -> bool {
        parser_output(self.text@)
    }

    /// Parses `input` as an absolute URL.
    pub fn parse(input: &str) -> (r: Result<ParsedUrl, String>)
        ensures
            match r {
                Ok(u) => spec_url_parse(input@) == Ok::<Seq<char>, Seq<char>>(u@),
                Err(e) => spec_url_parse(input@) == Err::<Seq<char>, Seq<char>>(e@),
            },
            r matches Ok(u) ==> parser_output(u@),
    {
        parse_url(input)
    }

    /// The parsed URL this value holds.
    pub closed spec fn parsed(&self) -> url::Url {
        self.url
    }

    /// The serialized text of the URL.
    pub fn as_str(&self) -> (r: &str)
        ensures
            r@ == self@,
            parser_output(self@),
    {
        proof {
            use_type_invariant(self);
        }
        self.text.as_str()
    }

    /// The parsed URL.
    pub fn url(&self) -> (r: &url::Url)
        ensures
            *r == self.parsed(),
    {
        &self.url
    }

    /// The parsed URL, taken out.
    pub fn into_url(self) -> (r: url::Url)
        ensures
            r == self.parsed(),
    {
        self.url
    }
}

} // verus!
