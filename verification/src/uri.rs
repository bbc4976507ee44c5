//! Request targets: a fixed scheme and authority, read once from the base
//! text, with the path and query of each request laid over them. The `http`
//! crate decides what is well-formed.

use std::str::FromStr;
use vstd::prelude::*;

verus! {

/// The parts of a URI as text. A part that the URI lacks is `None`.
#[derive(Debug, Clone, PartialEq, Eq)]
pub struct UriParts {
    pub scheme: Option<String>,
    pub authority: Option<String>,
    pub path_and_query: Option<String>,
}

/// What a [`UriParts`] holds.
pub struct UriPartsView {
    pub scheme: Option<Seq<char>>,
    pub authority: Option<Seq<char>>,
    pub path_and_query: Option<Seq<char>>,
}

/// What an optional text holds.
pub open spec fn text_view(text: Option<String>) -> Option<Seq<char>> {
    match text {
        Some(t) => Some(t@),
        None => None,
    }
}

impl View for UriParts {
    type V = UriPartsView;

    open spec fn view(&self) -> UriPartsView {
        UriPartsView {
            scheme: text_view(self.scheme),
            authority: text_view(self.authority),
            path_and_query: text_view(self.path_and_query),
        }
    }
}

/// An absolute URI: the target of a request.
#[derive(Debug, Clone, PartialEq, Eq)]
pub struct Uri {
    pub scheme: String,
    pub authority: String,
    pub path_and_query: String,
}

/// What a [`Uri`] holds.
pub struct UriView {
    pub scheme: Seq<char>,
    pub authority: Seq<char>,
    pub path_and_query: Seq<char>,
}

impl View for Uri {
    type V = UriView;

    open spec fn view(&self) -> UriView {
        UriView {
            scheme: self.scheme@,
            authority: self.authority@,
            path_and_query: self.path_and_query@,
        }
    }
}

/// Why no URI could be composed.
#[derive(Debug, Clone, Copy, PartialEq, Eq, Structural)]
pub enum UriError {
    /// The base text is no URI, or one without a scheme or an authority.
    InvalidBaseUri,
    /// The text is no path and query.
    InvalidPath,
}

// What follows is believed of `http`, not proved.

/// `http::uri::InvalidUri`. Nothing is read from it.
#[verifier::external_type_specification]
#[verifier::external_body]
pub struct ExInvalidUri(http::uri::InvalidUri);

/// `http::Error`. Nothing is read from it.
#[verifier::external_type_specification]
#[verifier::external_body]
pub struct ExHttpError(http::Error);

/// The parts of the URI that `http::Uri::from_str` reads from `text`;
/// `None` where it rejects the text.
pub uninterp spec fn parsed_uri(text: Seq<char>) -> Option<UriPartsView>;

/// The parts of the URI that `http::uri::Builder::build` gives for a builder
/// whose scheme, authority and path and query were set from these texts;
/// `None` where it gives an error.
pub uninterp spec fn built_uri(
    scheme: Seq<char>,
    authority: Seq<char>,
    path_and_query: Seq<char>,
) -> Option<UriPartsView>;

/// The text before the first `#`.
pub open spec fn before_fragment(text: Seq<char>) -> Seq<char>
    decreases text.len(),
{
    if text.len() == 0 || text[0] == '#' {
        Seq::empty()
    } else {
        seq![text[0]] + before_fragment(text.drop_first())
    }
}

/// The path and query that a URI keeps of an accepted text: the text before
/// the first `#`, and `/` where that is empty.
pub open spec fn kept_path(text: Seq<char>) -> Seq<char> {
    if before_fragment(text).len() == 0 {
        seq!['/']
    } else {
        before_fragment(text)
    }
}

/// `http::Uri::from_str`, with the URI it reads taken apart by
/// `Uri::scheme`, `Uri::authority` and `Uri::path_and_query`, each as text.
/// The result is a function of the text alone: an error exactly where `http`
/// rejects it, else the parts read.
#[verifier::external_body]
fn parse_uri(text: &str) -> (r: Result<UriParts, http::uri::InvalidUri>)
    ensures
        match r {
            Ok(parts) => parsed_uri(text@) == Some(parts@),
            Err(_) => parsed_uri(text@) is None,
        },
{
    let uri = http::Uri::from_str(text)?;
    Ok(UriParts {
        scheme: uri.scheme().map(|s| s.as_str().to_owned()),
        authority: uri.authority().map(|a| a.as_str().to_owned()),
        path_and_query: uri.path_and_query().map(|p| p.as_str().to_owned()),
    })
}

/// `http::uri::Builder::build`, on `http::Uri::builder()` with `scheme`,
/// `authority` and `path_and_query` set from the three texts; the URI built
/// is taken apart as in [`parse_uri`]. The result is a function of the texts
/// alone. A URI that is built has all three parts: its scheme and its
/// authority are the texts given, letter for letter, and its path and query
/// are the text given without its fragment, or `/` where nothing is left.
#[verifier::external_body]
fn build_uri(scheme: &str, authority: &str, path_and_query: &str) -> (r: Result<
    UriParts,
    http::Error,
>)
    ensures
        match r {
            Ok(parts) => {
                &&& built_uri(scheme@, authority@, path_and_query@) == Some(parts@)
                &&& parts@.scheme == Some(scheme@)
                &&& parts@.authority == Some(authority@)
                &&& parts@.path_and_query == Some(kept_path(path_and_query@))
            },
            Err(_) => built_uri(scheme@, authority@, path_and_query@) is None,
        },
{
    let builder = http::Uri::builder().scheme(scheme).authority(authority);
    let uri = builder.path_and_query(path_and_query).build()?;
    Ok(UriParts {
        scheme: uri.scheme().map(|s| s.as_str().to_owned()),
        authority: uri.authority().map(|a| a.as_str().to_owned()),
        path_and_query: uri.path_and_query().map(|p| p.as_str().to_owned()),
    })
}

// From here on everything is proved again.

/// A scheme and an authority, fixed, for which URIs are built.
#[derive(Debug, Clone, PartialEq, Eq)]
pub struct UriBuilder {
    pub scheme: String,
    pub authority: String,
}

/// What a [`UriBuilder`] holds.
pub struct UriBuilderView {
    pub scheme: Seq<char>,
    pub authority: Seq<char>,
}

impl View for UriBuilder {
    type V = UriBuilderView;

    open spec fn view(&self) -> UriBuilderView {
        UriBuilderView { scheme: self.scheme@, authority: self.authority@ }
    }
}

/// The builder that a base text gives: the scheme and the authority of the
/// URI read from it, where it has both.
pub open spec fn base_builder(base: Seq<char>) -> Option<UriBuilderView> {
    match parsed_uri(base) {
        Some(parts) => if parts.scheme is Some && parts.authority is Some {
            Some(UriBuilderView { scheme: parts.scheme->0, authority: parts.authority->0 })
        } else {
            None
        },
        None => None,
    }
}

impl UriBuilderView {
    /// The URI built with the path and query `text`, where `http` builds
    /// one.
    pub open spec fn built(self, text: Seq<char>) -> Option<UriView> {
        if built_uri(self.scheme, self.authority, text) is Some {
            Some(
                UriView {
                    scheme: self.scheme,
                    authority: self.authority,
                    path_and_query: kept_path(text),
                },
            )
        } else {
            None
        }
    }
}

/// The URI composed of a base text and a path.
pub open spec fn composed(base: Seq<char>, path: Seq<char>) -> Result<UriView, UriError> {
    match base_builder(base) {
        None => Err(UriError::InvalidBaseUri),
        Some(builder) => match builder.built(path) {
            None => Err(UriError::InvalidPath),
            Some(uri) => Ok(uri),
        },
    }
}

/// Reads the base text and keeps its scheme and its authority.
pub fn get_uri_builder(base: &str) -> (r: Result<UriBuilder, UriError>)
    ensures
        match r {
            Ok(builder) => base_builder(base@) == Some(builder@),
            Err(e) => e == UriError::InvalidBaseUri && base_builder(base@) is None,
        },
{
    match parse_uri(base) {
        Ok(parts) => match (parts.scheme, parts.authority) {
            (Some(scheme), Some(authority)) => Ok(UriBuilder { scheme, authority }),
            _ => Err(UriError::InvalidBaseUri),
        },
        Err(_) => Err(UriError::InvalidBaseUri),
    }
}

impl UriBuilder {
    /// The builder for the scheme and the authority of `uri`.
    pub fn from_uri(uri: &Uri) -> (r: UriBuilder)
        ensures
            r@.scheme == uri@.scheme,
            r@.authority == uri@.authority,
    {
        UriBuilder { scheme: uri.scheme.clone(), authority: uri.authority.clone() }
    }

    /// Builds the URI with the path and query `text`.
    pub fn build(&self, text: &str) -> (r: Result<Uri, UriError>)
        ensures
            match r {
                Ok(uri) => self@.built(text@) == Some(uri@),
                Err(e) => e == UriError::InvalidPath && self@.built(text@) is None,
            },
    {
        match build_uri(self.scheme.as_str(), self.authority.as_str(), text) {
            Ok(parts) => match (parts.scheme, parts.authority, parts.path_and_query) {
                (Some(scheme), Some(authority), Some(path_and_query)) => Ok(
                    Uri { scheme, authority, path_and_query },
                ),
                _ => Err(UriError::InvalidPath),
            },
            Err(_) => Err(UriError::InvalidPath),
        }
    }
}

/// Composes a request target: the scheme and the authority of `base`, with
/// `path` as path and query. Nothing is resolved or reached.
pub fn compose(base: &str, path: &str) -> (r: Result<Uri, UriError>)
    ensures
        match r {
            Ok(uri) => composed(base@, path@) == Ok::<UriView, UriError>(uri@),
            Err(e) => composed(base@, path@) == Err::<UriView, UriError>(e),
        },
{
    let builder = get_uri_builder(base)?;
    builder.build(path)
}

/// A composed URI has the scheme and the authority of its base. Its path
/// and query are the path given, up to a fragment; they are the path itself
/// where that is not empty and has no fragment.
pub proof fn lemma_composed_parts(base: Seq<char>, path: Seq<char>)
    requires
        composed(base, path) is Ok,
    ensures
        base_builder(base) is Some,
        composed(base, path)->Ok_0.scheme == base_builder(base)->0.scheme,
        composed(base, path)->Ok_0.authority == base_builder(base)->0.authority,
        composed(base, path)->Ok_0.path_and_query == kept_path(path),
        path.len() > 0 && !path.contains('#') ==> composed(base, path)->Ok_0.path_and_query
            == path,
{
    if path.len() > 0 && !path.contains('#') {
        lemma_no_fragment(path);
    }
}

/// A text without `#` is kept whole.
pub proof fn lemma_no_fragment(text: Seq<char>)
    requires
        !text.contains('#'),
    ensures
        before_fragment(text) == text,
    decreases text.len(),
{
    if text.len() > 0 {
        assert(text[0] != '#');
        assert forall|i: int| 0 <= i < text.drop_first().len() implies text.drop_first()[i]
            != '#' by {
            assert(text[i + 1] != '#');
        }
        lemma_no_fragment(text.drop_first());
        assert(seq![text[0]] + text.drop_first() =~= text);
    } else {
        assert(text =~= Seq::empty());
    }
}

} // verus!
