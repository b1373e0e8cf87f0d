use vstd::prelude::*;
use crate::text::{has_prefix, starts_with};

verus! {

/// What `url::Url::parse` makes of a string: the serialization of the parsed
/// URL, or, on failure, whether the string was a relative reference that
/// lacked a base URL.
pub uninterp spec fn url_parse(s: Seq<char>) -> Result<Seq<char>, bool>;

/// What `url::Url::join` makes of `input` against the URL that `base`
/// serializes: the serialization of the joined URL, if any.
pub uninterp spec fn url_join(base: Seq<char>, input: Seq<char>) -> Option<Seq<char>>;

/// A parsed URL, carried through to the calls that need one.
#[verifier::external_type_specification]
#[verifier::external_body]
pub struct ExUrl(url::Url);

/// Relies on `url::Url::parse` for parsing an absolute URL, and on
/// `url::Url::as_str` for its serialization; the error is reduced to whether
/// it was `ParseError::RelativeUrlWithoutBase`.
#[verifier::external_body]
fn parse_url(s: &str) -> (r: Result<ModuleIdentity, bool>)
    ensures
        r is Ok ==> url_parse(s@) == Ok::<Seq<char>, bool>(r->Ok_0@),
        r is Err ==> url_parse(s@) == Err::<Seq<char>, bool>(r->Err_0),
{
    match url::Url::parse(s) {
        Ok(url) => Ok(ModuleIdentity { href: url.as_str().to_string(), url }),
        Err(url::ParseError::RelativeUrlWithoutBase) => Err(true),
        Err(_) => Err(false),
    }
}

/// Relies on `url::Url::join` for resolving `input` against the URL of `base`,
/// and on `url::Url::as_str` for the serialization of the result.
#[verifier::external_body]
fn join_url(base: &ModuleIdentity, input: &str) -> (r: Option<ModuleIdentity>)
    ensures
        r is Some ==> url_join(base@, input@) == Some(r->0@),
        r is None ==> url_join(base@, input@) is None,
{
    let url = base.url.join(input).ok()?;
    Some(ModuleIdentity { href: url.as_str().to_string(), url })
}

/// Relies on `url::Url`'s `Clone` for a copy of a parsed URL.
pub assume_specification[ <url::Url as Clone>::clone ](u: &url::Url) -> url::Url;

/// Why a specifier could not be resolved against its referrer.
#[derive(Clone, Copy, Debug, PartialEq, Eq, Structural)]
pub enum ResolveError {
    /// The specifier, alone or joined to the referrer, is not a valid URL.
    InvalidUrl,
    /// The specifier is relative and the referrer is not a valid URL.
    InvalidBaseUrl,
    /// The specifier is neither a URL nor starts with `/`, `./` or `../`.
    ImportPrefixMissing,
}

/// An absolute, normalized module reference: the serialization of a URL.
/// Two identities are the same module exactly when their text is equal.
#[derive(Clone, Debug)]
pub struct ModuleIdentity {
    href: String,
    pub(crate) url: url::Url,
}

impl View for ModuleIdentity {
    type V = Seq<char>;

    closed spec fn view(&self) -> Seq<char> {
        self.href@
    }
}

impl ModuleIdentity {
    /// Reads an absolute URL as a module identity; `None` where it is not one.
    pub fn parse(s: &str) -> (r: Option<ModuleIdentity>)
        ensures
            r matches Some(id) ==> url_parse(s@) == Ok::<Seq<char>, bool>(id@),
            r is None <==> url_parse(s@) is Err,
    {
        match parse_url(s) {
            Ok(id) => Some(id),
            Err(_) => None,
        }
    }

    /// A second identity for the same module.
    pub fn duplicate(&self) -> (r: ModuleIdentity)
        ensures
            r@ == self@,
    {
        ModuleIdentity { href: self.href.clone(), url: self.url.clone() }
    }

    /// The identity's text.
    pub fn as_str(&self) -> (r: &str)
        ensures
            r@ == self@,
    {
        self.href.as_str()
    }
}

/// A specifier that names a path relative to its referrer.
pub open spec fn is_relative_reference(s: Seq<char>) -> bool {
    has_prefix(s, seq!['/']) || has_prefix(s, seq!['.', '/']) || has_prefix(s, seq!['.', '.', '/'])
}

/// The identity that `specifier`, imported from `referrer`, resolves to: an
/// absolute URL is taken as it is; a relative reference is joined to the
/// referrer; anything else is refused.
pub open spec fn resolution(specifier: Seq<char>, referrer: Seq<char>) -> Result<Seq<char>, ResolveError> {
    match url_parse(specifier) {
        Ok(href) => Ok(href),
        Err(relative) => if !relative {
            Err(ResolveError::InvalidUrl)
        } else if !is_relative_reference(specifier) {
            Err(ResolveError::ImportPrefixMissing)
        } else {
            match url_parse(referrer) {
                Err(_) => Err(ResolveError::InvalidBaseUrl),
                Ok(base) => match url_join(base, specifier) {
                    Some(href) => Ok(href),
                    None => Err(ResolveError::InvalidUrl),
                },
            }
        },
    }
}

fn is_relative(s: &str) -> (r: bool)
    ensures
        r == is_relative_reference(s@),
{
    proof {
        reveal_strlit("/");
        reveal_strlit("./");
        reveal_strlit("../");
    }
    let r = starts_with(s, "/") || starts_with(s, "./") || starts_with(s, "../");
    assert("/"@ =~= seq!['/']);
    assert("./"@ =~= seq!['.', '/']);
    assert("../"@ =~= seq!['.', '.', '/']);
    r
}

/// Resolves an import specifier against the identity of the importing module.
pub fn resolve(specifier: &str, referrer: &str) -> (r: Result<ModuleIdentity, ResolveError>)
    ensures
        r matches Ok(id) ==> resolution(specifier@, referrer@) == Ok::<Seq<char>, ResolveError>(id@),
        r matches Err(e) ==> resolution(specifier@, referrer@) == Err::<Seq<char>, ResolveError>(e),
{
    match parse_url(specifier) {
        Ok(id) => Ok(id),
        Err(relative) => {
            if !relative {
                Err(ResolveError::InvalidUrl)
            } else if !is_relative(specifier) {
                Err(ResolveError::ImportPrefixMissing)
            } else {
                match parse_url(referrer) {
                    Err(_) => Err(ResolveError::InvalidBaseUrl),
                    Ok(base) => match join_url(&base, specifier) {
                        Some(id) => Ok(id),
                        None => Err(ResolveError::InvalidUrl),
                    },
                }
            }
        },
    }
}

} // verus!
