use vstd::prelude::*;

verus! {

/// The domain that the `url` crate assigns to a URI string: `Some` exactly
/// when the string parses as a URL whose host component is a domain name.
/// Parsing is a function of the string alone, so the result is named rather
/// than spelled out.
pub uninterp spec fn domain_of(s: Seq<char>) -> Option<Seq<char>>;

/// A URI together with the domain of its authority component, read once at
/// construction time through the `url` crate.
///
/// The view of a `Uri` is the character sequence of its text; every value
/// keeps its stored domain consistent with `domain_of` of that text.
pub struct Uri {
    text: String,
    host: Option<String>,
}

/// Relies on `url::Url::parse` and `url::Url::domain`: the domain of the
/// parsed URL, when the string parses and its host is a domain name.
#[verifier::external_body]
fn parse_domain(s: &str) -> (r: Option<String>)
    ensures
        match r {
            Some(d) => domain_of(s@) == Some(d@),
            None => domain_of(s@) is None,
        },
{
    match url::Url::parse(s) {
        Ok(u) => u.domain().map(|d| d.to_string()),
        Err(_) => None,
    }
}

impl View for Uri {
    type V = Seq<char>;

    closed spec fn view(&self) -> Seq<char> {
        self.text@
    }
}

impl Uri {
    /// The domain of this URI's authority component, if it has one.
    pub closed spec fn domain_spec(&self) -> Option<Seq<char>> {
        match self.host {
            Some(ref h) => Some(h@),
            None => None,
        }
    }

    /// The stored domain is always the domain of the text: the two can never
    /// get out of step, whichever constructor produced the value.
    #[verifier::type_invariant]
    pub open spec fn wf(self) -> bool {
        self.domain_spec() == domain_of(self@)
    }

    /// Build a URI from its text, reading its domain through the `url` crate.
    pub fn new(text: String) -> (r: Uri)
        ensures
            r@ == text@,
            r.domain_spec() == domain_of(text@),
    {
        let host = parse_domain(text.as_str());
        Uri { text, host }
    }

    /// The text of the URI.
    pub fn text(&self) -> (r: &String)
        ensures
            r@ == self@,
    {
        &self.text
    }

    /// The domain of the URI's authority component, if it has one.
    pub fn domain(&self) -> (r: Option<&String>)
        ensures
            match r {
                Some(d) => self.domain_spec() == Some(d@),
                None => self.domain_spec() is None,
            },
    {
        match &self.host {
            Some(h) => Some(h),
            None => None,
        }
    }

    /// Whether two URIs have the same text.
    pub fn same_text(&self, other: &Uri) -> (r: bool)
        ensures
            r == (self@ == other@),
    {
        self.text == other.text
    }
}

impl Clone for Uri {
    fn clone(&self) -> (r: Self)
        ensures
            r@ == self@,
            r.domain_spec() == self.domain_spec(),
    {
        proof {
            use_type_invariant(self);
        }
        Uri {
            text: self.text.clone(),
            host: match &self.host {
                Some(h) => Some(h.clone()),
                None => None,
            },
        }
    }
}

} // verus!
