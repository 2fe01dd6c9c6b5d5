use vstd::prelude::*;

use super::error::LogicError;

verus! {

/// `url::ParseError`, which is carried through unread.
#[verifier::external_type_specification]
#[verifier::external_body]
pub struct ExParseError(url::ParseError);

/// The serialization of the URL that `url::Url::parse` reads from a text, or
/// `None` where it reports an error.
pub uninterp spec fn parsed_url(text: Seq<char>) -> Option<Seq<char>>;

/// `url::Url::parse`, with the URL handed on as its serialization.
///
/// Taken on trust: the result depends on the text alone and is the one named
/// by `parsed_url`; a serialization holds the `:` that ends its scheme; and the
/// two addresses of a main module are serializations already.
#[verifier::external_body]
fn parse_url(text: &str) -> (res: Result<String, url::ParseError>)
    ensures
        res is Ok <==> parsed_url(text@) is Some,
        res is Ok ==> res->Ok_0@ == parsed_url(text@)->Some_0,
        res is Ok ==> res->Ok_0@.contains(':'),
        text@ == builtin_main() ==> res is Ok && res->Ok_0@ == text@,
        text@ == local_main() ==> res is Ok && res->Ok_0@ == text@,
{
    url::Url::parse(text).map(String::from)
}

/// The address under which the single module of a runtime is served.
pub open spec fn builtin_main() -> Seq<char> {
    "builtin://main"@
}

/// The address of the main module in a table of modules.
pub open spec fn local_main() -> Seq<char> {
    "local://main"@
}

/// The part of a URL before its first colon.
pub open spec fn scheme_of(url: Seq<char>) -> Seq<char> {
    match url.index_of_first(':') {
        Some(end) => url.take(end),
        None => url,
    }
}

/// An absolute URL that addresses a module, kept in its serialized form. Two
/// URLs are the same exactly when their serializations are.
#[derive(Debug)]
pub struct ModuleUrl {
    text: String,
}

impl View for ModuleUrl {
    type V = Seq<char>;

    closed spec fn view(&self) -> Seq<char> {
        self.text@
    }
}

impl ModuleUrl {
    #[verifier::type_invariant]
    spec fn has_scheme(self) -> bool {
        self.text@.contains(':')
    }

    /// Reads an absolute URL. The two addresses of a main module are read as
    /// they are written.
    pub fn parse(text: &str) -> (res: Result<ModuleUrl, LogicError>)
        ensures
            match res {
                Ok(url) => parsed_url(text@) == Some(url@),
                Err(error) => parsed_url(text@) is None && error == LogicError::InvalidUrl,
            },
            text@ == builtin_main() ==> res is Ok && res->Ok_0@ == text@,
            text@ == local_main() ==> res is Ok && res->Ok_0@ == text@,
    {
        match parse_url(text) {
            Ok(text) => Ok(ModuleUrl { text }),
            Err(_) => Err(LogicError::InvalidUrl),
        }
    }

    /// The address under which the single module of a runtime is served.
    pub fn builtin_main() -> (url: ModuleUrl)
        ensures
            url@ == builtin_main(),
            url@ == "builtin://main"@,
    {
        match parse_url("builtin://main") {
            Ok(text) => ModuleUrl { text },
            Err(_) => vstd::pervasive::unreached(),
        }
    }

    /// The address of the main module in a table of modules.
    pub fn local_main() -> (url: ModuleUrl)
        ensures
            url@ == local_main(),
            url@ == "local://main"@,
    {
        match parse_url("local://main") {
            Ok(text) => ModuleUrl { text },
            Err(_) => vstd::pervasive::unreached(),
        }
    }

    /// The serialized form.
    pub fn as_str(&self) -> (text: &str)
        ensures
            text@ == self@,
    {
        self.text.as_str()
    }

    /// The scheme, without the colon that ends it.
    pub fn scheme(&self) -> (scheme: String)
        ensures
            scheme@ == scheme_of(self@),
            !scheme@.contains(':'),
            scheme@.push(':').is_prefix_of(self@),
    {
        proof {
            use_type_invariant(self);
            self.text@.index_of_first_ensures(':');
        }
        let text: &str = self.text.as_str();
        let len: usize = text.unicode_len();
        let mut end: usize = 0;
        while end < len && text.get_char(end) != ':'
            invariant
                len == text@.len(),
                end <= len,
                forall|i: int| 0 <= i < end ==> text@[i] != ':',
            decreases len - end,
        {
            end = end + 1;
        }
        proof {
            let first = text@.index_of_first(':').unwrap();
            assert(end == first);
            a_scheme_ends_at_the_first_colon(self.text@, scheme_of(self.text@));
        }
        text.substring_char(0, end).to_owned()
    }
}

impl Clone for ModuleUrl {
    fn clone(&self) -> (res: Self)
        ensures
            res == *self,
    {
        proof {
            use_type_invariant(self);
        }
        ModuleUrl { text: self.text.clone() }
    }
}

impl PartialEq for ModuleUrl {
    fn eq(&self, other: &Self) -> (res: bool) {
        self.text == other.text
    }
}

impl vstd::std_specs::cmp::PartialEqSpecImpl for ModuleUrl {
    open spec fn obeys_eq_spec() -> bool {
        true
    }

    open spec fn eq_spec(&self, other: &Self) -> bool {
        self@ == other@
    }
}

impl Eq for ModuleUrl {

}

/// The scheme of a URL is what stands before its first colon, however long the
/// URL is: it holds no colon, the URL goes on with one behind it, and nothing else
/// is like that.
pub proof fn a_scheme_ends_at_the_first_colon(url: Seq<char>, other: Seq<char>)
    requires
        url.contains(':'),
    ensures
        !scheme_of(url).contains(':'),
        scheme_of(url).push(':').is_prefix_of(url),
        !other.contains(':') && other.push(':').is_prefix_of(url) ==> other == scheme_of(url),
{
    url.index_of_first_ensures(':');
    let scheme = scheme_of(url);
    let end = scheme.len() as int;
    assert(url[end] == ':');
    assert forall|i: int| 0 <= i < end implies #[trigger] scheme[i] != ':' by {
        assert(scheme[i] == url[i]);
    }
    assert(scheme.push(':') =~= url.take(end + 1));
    if !other.contains(':') && other.push(':').is_prefix_of(url) {
        let marked = other.push(':');
        assert(marked[other.len() as int] == url[other.len() as int]);
        if other.len() > end {
            assert(marked[end] == url[end]);
            assert(other[end] == ':');
        }
        if other.len() < end {
            assert(scheme[other.len() as int] == ':');
        }
        assert(other =~= scheme);
    }
}

/// The main modules have their addresses, and two addresses are the same exactly
/// when their texts are.
pub proof fn addresses_are_the_same_with_their_texts(left: ModuleUrl, right: ModuleUrl)
    ensures
        vstd::std_specs::cmp::PartialEqSpec::eq_spec(&left, &right) <==> left@ == right@,
        builtin_main() == "builtin://main"@,
        local_main() == "local://main"@,
{
}

} // verus!
