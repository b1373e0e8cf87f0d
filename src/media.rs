use vstd::prelude::*;
use deno_ast::MediaType;
use crate::identity::ModuleIdentity;

verus! {

/// What a module's content is, as decided from its file extension or from
/// the content type it was served with.
#[derive(Clone, Copy, Debug, PartialEq, Eq, Structural)]
pub enum MediaKind {
    JavaScript,
    Jsx,
    Mjs,
    Cjs,
    TypeScript,
    Mts,
    Cts,
    Dts,
    Dmts,
    Dcts,
    Tsx,
    Json,
    Wasm,
    TsBuildInfo,
    SourceMap,
    Unknown,
}

/// The kind of module the evaluator receives.
#[derive(Clone, Copy, Debug, PartialEq, Eq, Structural)]
pub enum ModuleKind {
    JavaScript,
    Json,
}

/// How content of a loadable media kind is handed to the evaluator.
#[derive(Clone, Copy, Debug, PartialEq, Eq, Structural)]
pub struct Treatment {
    pub module_kind: ModuleKind,
    /// The text must go through the transpiler first.
    pub transpile: bool,
}

/// The classification table: `None` for content that cannot be loaded.
pub open spec fn treatment_of(m: MediaKind) -> Option<Treatment> {
    match m {
        MediaKind::JavaScript | MediaKind::Mjs | MediaKind::Cjs => Some(
            Treatment { module_kind: ModuleKind::JavaScript, transpile: false },
        ),
        MediaKind::Jsx | MediaKind::TypeScript | MediaKind::Mts | MediaKind::Cts
        | MediaKind::Dts | MediaKind::Dmts | MediaKind::Dcts | MediaKind::Tsx => Some(
            Treatment { module_kind: ModuleKind::JavaScript, transpile: true },
        ),
        MediaKind::Json => Some(Treatment { module_kind: ModuleKind::Json, transpile: false }),
        _ => None,
    }
}

/// Media kinds written in a syntax that the evaluator does not read directly.
pub open spec fn needs_transpile(m: MediaKind) -> bool {
    m is Jsx || m is TypeScript || m is Mts || m is Cts || m is Dts || m is Dmts || m is Dcts
        || m is Tsx
}

/// Looks a media kind up in the classification table. Both the filesystem
/// and the network origin go through this one function.
pub fn classify(m: MediaKind) -> (r: Option<Treatment>)
    ensures
        r == treatment_of(m),
        r is Some ==> (r->0.transpile <==> needs_transpile(m)),
        r is Some ==> (r->0.module_kind == ModuleKind::Json <==> m == MediaKind::Json),
{
    match m {
        MediaKind::JavaScript | MediaKind::Mjs | MediaKind::Cjs => Some(
            Treatment { module_kind: ModuleKind::JavaScript, transpile: false },
        ),
        MediaKind::Jsx | MediaKind::TypeScript | MediaKind::Mts | MediaKind::Cts
        | MediaKind::Dts | MediaKind::Dmts | MediaKind::Dcts | MediaKind::Tsx => Some(
            Treatment { module_kind: ModuleKind::JavaScript, transpile: true },
        ),
        MediaKind::Json => Some(Treatment { module_kind: ModuleKind::Json, transpile: false }),
        _ => None,
    }
}

/// The media type of a module as `deno_ast`'s classification gives it.
#[verifier::external_type_specification]
#[verifier::external_body]
pub struct ExMediaType(deno_ast::MediaType);

/// The media kind that `deno_ast::MediaType::from_str` gives a path.
pub uninterp spec fn media_of_path(path: Seq<char>) -> MediaKind;

/// The media kind that `deno_ast::MediaType::from_content_type` gives a
/// `content-type` header value served for a URL.
pub uninterp spec fn media_of_content_type(url: Seq<char>, content_type: Seq<char>) -> MediaKind;

/// Converts a `deno_ast::MediaType` into the media kind of the same name.
#[verifier::external_body]
fn kind_of_media_type(m: MediaType) -> MediaKind {
    match m {
        MediaType::JavaScript => MediaKind::JavaScript, MediaType::Jsx => MediaKind::Jsx,
        MediaType::Mjs => MediaKind::Mjs, MediaType::Cjs => MediaKind::Cjs,
        MediaType::TypeScript => MediaKind::TypeScript, MediaType::Mts => MediaKind::Mts,
        MediaType::Cts => MediaKind::Cts, MediaType::Dts => MediaKind::Dts,
        MediaType::Dmts => MediaKind::Dmts, MediaType::Dcts => MediaKind::Dcts,
        MediaType::Tsx => MediaKind::Tsx, MediaType::Json => MediaKind::Json,
        MediaType::Wasm => MediaKind::Wasm, MediaType::TsBuildInfo => MediaKind::TsBuildInfo,
        MediaType::SourceMap => MediaKind::SourceMap, MediaType::Unknown => MediaKind::Unknown,
    }
}

/// Converts a media kind into the `deno_ast::MediaType` of the same name.
#[verifier::external_body]
pub(crate) fn media_type_of_kind(k: MediaKind) -> MediaType {
    match k {
        MediaKind::JavaScript => MediaType::JavaScript, MediaKind::Jsx => MediaType::Jsx,
        MediaKind::Mjs => MediaType::Mjs, MediaKind::Cjs => MediaType::Cjs,
        MediaKind::TypeScript => MediaType::TypeScript, MediaKind::Mts => MediaType::Mts,
        MediaKind::Cts => MediaType::Cts, MediaKind::Dts => MediaType::Dts,
        MediaKind::Dmts => MediaType::Dmts, MediaKind::Dcts => MediaType::Dcts,
        MediaKind::Tsx => MediaType::Tsx, MediaKind::Json => MediaType::Json,
        MediaKind::Wasm => MediaType::Wasm, MediaKind::TsBuildInfo => MediaType::TsBuildInfo,
        MediaKind::SourceMap => MediaType::SourceMap, MediaKind::Unknown => MediaType::Unknown,
    }
}

/// Relies on `deno_ast::MediaType::from_str` for the media kind of a file
/// path, which it reads from the extension (and `.d.` in the file name).
#[verifier::external_body]
pub(crate) fn media_from_path(path: &str) -> (r: MediaKind)
    ensures
        r == media_of_path(path@),
{
    kind_of_media_type(MediaType::from_str(path))
}

/// Relies on `deno_ast::MediaType::from_content_type` for the media kind of
/// content served for `url` with the header value `content_type`.
#[verifier::external_body]
pub(crate) fn media_from_content_type(url: &ModuleIdentity, content_type: &str) -> (r: MediaKind)
    ensures
        r == media_of_content_type(url@, content_type@),
{
    kind_of_media_type(MediaType::from_content_type(&url.url, content_type))
}

} // verus!
