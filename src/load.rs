use vstd::prelude::*;
use crate::identity::ModuleIdentity;
use crate::media::{
    classify, media_from_content_type, media_from_path, media_of_content_type, media_of_path,
    media_type_of_kind, treatment_of, MediaKind, ModuleKind, Treatment,
};
use crate::text::{has_prefix, starts_with};

verus! {

/// The module kind that the importing statement asked for.
#[derive(Clone, Copy, Debug, PartialEq, Eq, Structural)]
pub enum RequestedKind {
    Default,
    Json,
}

/// Why a fetch produced no source text.
#[derive(Clone, Debug, PartialEq, Eq)]
pub enum FetchCause {
    /// The server answered with a status other than success.
    Status,
    /// The response had no usable `content-type` header.
    MissingContentType,
    /// Reading the file or the response body failed.
    Read { message: String },
    /// A `file:` identity names no local path that this platform can open.
    NoLocalPath,
}

/// Why a load failed. Every failure ends the load.
#[derive(Clone, Debug, PartialEq, Eq)]
pub enum LoadError {
    /// The identity is neither a local file nor an `http`/`https` URL.
    UnsupportedScheme { specifier: String },
    /// The source could not be fetched.
    Fetch { specifier: String, cause: FetchCause },
    /// The path or content type, `key`, maps to no loadable media kind.
    UnknownMedia { key: String },
    /// JSON content was loaded without an explicit JSON request.
    JsonAttribute,
    /// The transpiler rejected the source text.
    Transpile { message: String },
}

/// Why content was refused after classification.
#[derive(Clone, Copy, Debug, PartialEq, Eq, Structural)]
pub enum Refusal {
    UnknownMedia,
    JsonAttribute,
}

/// Classification followed by the JSON guard: how content of kind `m` is
/// treated when `requested` was asked for, or why it is refused.
pub open spec fn admission(m: MediaKind, requested: RequestedKind) -> Result<Treatment, Refusal> {
    match treatment_of(m) {
        None => Err(Refusal::UnknownMedia),
        Some(t) => if t.module_kind == ModuleKind::Json && requested != RequestedKind::Json {
            Err(Refusal::JsonAttribute)
        } else {
            Ok(t)
        },
    }
}

/// The error that stands for a refusal, reported under `key`.
pub open spec fn refusal_error(f: Refusal, e: LoadError, key: Seq<char>) -> bool {
    match f {
        Refusal::UnknownMedia => e matches LoadError::UnknownMedia { key: k } && k@ == key,
        Refusal::JsonAttribute => e is JsonAttribute,
    }
}

/// `e` is a fetch failure that names the identity `id`.
pub open spec fn fetch_error(e: LoadError, id: Seq<char>) -> bool {
    e is Fetch && e->Fetch_specifier@ == id
}

/// A local file that an identity denotes, and the media kind of its path.
#[derive(Clone, Debug)]
pub struct LocalFile {
    pub path: String,
    pub media: MediaKind,
}

/// A `content-type` header and the media kind it was mapped to.
#[derive(Clone, Debug)]
pub struct ContentType {
    pub value: String,
    pub media: MediaKind,
}

/// What a load has settled on once its content is classified.
#[derive(Clone, Debug)]
pub struct Plan {
    pub identity: ModuleIdentity,
    pub media: MediaKind,
    pub treatment: Treatment,
    pub requested: RequestedKind,
}

impl Plan {
    /// The plan was admitted: its treatment is that of its media kind under
    /// the request it was made for.
    pub open spec fn wf(&self) -> bool {
        admission(self.media, self.requested) == Ok::<Treatment, Refusal>(self.treatment)
    }

    pub open spec fn is_for(&self, id: Seq<char>, m: MediaKind, requested: RequestedKind) -> bool {
        &&& self.identity@ == id
        &&& self.media == m
        &&& self.requested == requested
        &&& self.wf()
    }
}

/// The result handed to the evaluator.
#[derive(Clone, Debug)]
pub struct ModuleRecord {
    pub kind: ModuleKind,
    pub source: String,
    pub specifier: String,
}

/// The next thing the caller must do for a load.
#[derive(Clone, Debug)]
pub enum LoadAction {
    /// Read the file at `path` as UTF-8 text and report it to `on_source`.
    ReadFile { path: String, plan: Plan },
    /// Send a GET request for `url` and report the answer to `on_response`.
    Request { url: String },
    /// Read the response body as text and report it to `on_source`.
    ReadBody { plan: Plan },
    /// The load succeeded.
    Complete(ModuleRecord),
    /// The load failed.
    Fail(LoadError),
}

/// An identity served over `http` or `https`.
pub open spec fn is_remote(id: Seq<char>) -> bool {
    has_prefix(id, seq!['h', 't', 't', 'p', ':']) || has_prefix(id, seq!['h', 't', 't', 'p', 's', ':'])
}

fn remote(id: &ModuleIdentity) -> (r: bool)
    ensures
        r == is_remote(id@),
{
    proof {
        reveal_strlit("http:");
        reveal_strlit("https:");
    }
    let r = starts_with(id.as_str(), "http:") || starts_with(id.as_str(), "https:");
    assert("http:"@ =~= seq!['h', 't', 't', 'p', ':']);
    assert("https:"@ =~= seq!['h', 't', 't', 'p', 's', ':']);
    r
}

/// Classifies content and applies the JSON guard.
pub fn classify_and_guard(
    id: &ModuleIdentity,
    media: MediaKind,
    requested: RequestedKind,
    key: &str,
) -> (r: Result<Plan, LoadError>)
    ensures
        r matches Ok(p) ==> p.is_for(id@, media, requested),
        r is Ok <==> admission(media, requested) is Ok,
        r matches Err(e) ==> admission(media, requested) matches Err(f) && refusal_error(f, e, key@),
{
    match classify(media) {
        None => Err(LoadError::UnknownMedia { key: key.to_string() }),
        Some(t) => {
            if t.module_kind == ModuleKind::Json && requested != RequestedKind::Json {
                Err(LoadError::JsonAttribute)
            } else {
                Ok(Plan { identity: id.duplicate(), media, treatment: t, requested })
            }
        },
    }
}

/// Starts loading `id`. `local` is the file that `id` denotes, where it
/// denotes one; a local file is classified and guarded before it is read.
pub fn begin_classified(id: &ModuleIdentity, local: Option<LocalFile>, requested: RequestedKind) -> (r: LoadAction)
    ensures
        local is Some && admission(local->0.media, requested) is Ok ==> {
            &&& r is ReadFile
            &&& r->ReadFile_path@ == local->0.path@
            &&& r->ReadFile_plan.is_for(id@, local->0.media, requested)
        },
        local is Some && admission(local->0.media, requested) is Err ==> {
            &&& r is Fail
            &&& refusal_error(admission(local->0.media, requested)->Err_0, r->Fail_0, local->0.path@)
        },
        local is None && is_remote(id@) ==> r is Request && r->url@ == id@,
        local is None && !is_remote(id@) ==> {
            &&& r is Fail
            &&& r->Fail_0 is UnsupportedScheme
            &&& r->Fail_0->UnsupportedScheme_specifier@ == id@
        },
{
    match local {
        Some(f) => match classify_and_guard(id, f.media, requested, f.path.as_str()) {
            Ok(plan) => LoadAction::ReadFile { path: f.path, plan },
            Err(e) => LoadAction::Fail(e),
        },
        None => {
            if remote(id) {
                LoadAction::Request { url: id.as_str().to_string() }
            } else {
                LoadAction::Fail(LoadError::UnsupportedScheme { specifier: id.as_str().to_string() })
            }
        },
    }
}

/// Decides on the answer to the request for `id`: whether the status was a
/// success, and the `content-type` header, if it had a readable one.
pub fn on_classified_response(
    id: &ModuleIdentity,
    requested: RequestedKind,
    success: bool,
    content_type: Option<ContentType>,
) -> (r: LoadAction)
    ensures
        !success ==> r is Fail && fetch_error(r->Fail_0, id@) && r->Fail_0->cause is Status,
        success && content_type is None ==> {
            &&& r is Fail
            &&& fetch_error(r->Fail_0, id@)
            &&& r->Fail_0->cause is MissingContentType
        },
        success && content_type is Some && admission(content_type->0.media, requested) is Ok ==> {
            &&& r is ReadBody
            &&& r->ReadBody_plan.is_for(id@, content_type->0.media, requested)
        },
        success && content_type is Some && admission(content_type->0.media, requested) is Err ==> {
            &&& r is Fail
            &&& refusal_error(
                admission(content_type->0.media, requested)->Err_0,
                r->Fail_0,
                content_type->0.value@,
            )
        },
{
    if !success {
        return LoadAction::Fail(
            LoadError::Fetch { specifier: id.as_str().to_string(), cause: FetchCause::Status },
        );
    }
    match content_type {
        None => LoadAction::Fail(
            LoadError::Fetch {
                specifier: id.as_str().to_string(),
                cause: FetchCause::MissingContentType,
            },
        ),
        Some(ct) => match classify_and_guard(id, ct.media, requested, ct.value.as_str()) {
            Ok(plan) => LoadAction::ReadBody { plan },
            Err(e) => LoadAction::Fail(e),
        },
    }
}

/// The output that `deno_ast` gives for `text`, parsed as a module of kind
/// `media` under the name `specifier` and transpiled with the default emit
/// options; `None` where parsing or transpiling reports a diagnostic.
pub uninterp spec fn transpiled(specifier: Seq<char>, media: MediaKind, text: Seq<char>) -> Option<Seq<char>>;

/// Relies on `deno_ast::parse_module` and `ParsedSource::transpile`: the
/// text is parsed as a module of the given media type and lowered to
/// JavaScript; a diagnostic of either step comes back as its message.
#[verifier::external_body]
fn transpile(specifier: &ModuleIdentity, media: MediaKind, text: String) -> (r: Result<String, String>)
    ensures
        r is Ok ==> transpiled(specifier@, media, text@) == Some(r->Ok_0@),
        r is Err ==> transpiled(specifier@, media, text@) is None,
{
    let parsed = deno_ast::parse_module(deno_ast::ParseParams {
        specifier: specifier.url.clone(),
        text_info: deno_ast::SourceTextInfo::from_string(text),
        media_type: media_type_of_kind(media),
        capture_tokens: false,
        scope_analysis: false,
        maybe_syntax: None,
    }).map_err(|e| e.to_string())?;
    parsed.transpile(&Default::default()).map(|t| t.text).map_err(|e| e.to_string())
}

/// Decides on the text read for a plan: content of a kind that needs it is
/// transpiled and the output becomes the module's source; anything else is
/// the module's source as it is.
pub fn on_source(plan: Plan, text: Result<String, String>) -> (r: LoadAction)
    requires
        plan.wf(),
    ensures
        text is Err ==> {
            &&& r is Fail
            &&& fetch_error(r->Fail_0, plan.identity@)
            &&& r->Fail_0->cause is Read
            &&& r->Fail_0->cause->message@ == text->Err_0@
        },
        text is Ok && plan.treatment.transpile ==> match transpiled(plan.identity@, plan.media, text->Ok_0@) {
            Some(out) => {
                &&& r is Complete
                &&& r->Complete_0.kind == ModuleKind::JavaScript
                &&& r->Complete_0.source@ == out
                &&& r->Complete_0.specifier@ == plan.identity@
            },
            None => r is Fail && r->Fail_0 is Transpile,
        },
        text is Ok && !plan.treatment.transpile ==> {
            &&& r is Complete
            &&& r->Complete_0.kind == plan.treatment.module_kind
            &&& r->Complete_0.source@ == text->Ok_0@
            &&& r->Complete_0.specifier@ == plan.identity@
        },
{
    match text {
        Err(message) => LoadAction::Fail(
            LoadError::Fetch { specifier: plan.identity.as_str().to_string(), cause: FetchCause::Read { message } },
        ),
        Ok(t) => {
            if plan.treatment.transpile {
                let output = transpile(&plan.identity, plan.media, t);
                on_transpiled(plan, output)
            } else {
                let specifier = plan.identity.as_str().to_string();
                LoadAction::Complete(ModuleRecord { kind: plan.treatment.module_kind, source: t, specifier })
            }
        },
    }
}

/// Decides on the transpiler's output for a plan that needed it: the output,
/// never the text that went in, becomes the module's source.
pub fn on_transpiled(plan: Plan, output: Result<String, String>) -> (r: LoadAction)
    requires
        plan.wf(),
        plan.treatment.transpile,
    ensures
        output is Err ==> {
            &&& r is Fail
            &&& r->Fail_0 is Transpile
            &&& r->Fail_0->Transpile_message@ == output->Err_0@
        },
        output is Ok ==> {
            &&& r is Complete
            &&& r->Complete_0.kind == ModuleKind::JavaScript
            &&& r->Complete_0.source@ == output->Ok_0@
            &&& r->Complete_0.specifier@ == plan.identity@
        },
{
    match output {
        Err(message) => LoadAction::Fail(LoadError::Transpile { message }),
        Ok(s) => {
            let specifier = plan.identity.as_str().to_string();
            LoadAction::Complete(ModuleRecord { kind: plan.treatment.module_kind, source: s, specifier })
        },
    }
}

/// Relies on `url::Url::to_file_path`: the local path that an identity
/// denotes, where it denotes one. Which URLs do depends on the platform, and
/// a path that is not valid UTF-8 is reported as none.
#[verifier::external_body]
fn local_path(id: &ModuleIdentity) -> (r: Option<String>) {
    id.url.to_file_path().ok().and_then(|p| p.into_os_string().into_string().ok())
}

/// An identity in the `file` scheme.
pub open spec fn is_file(id: Seq<char>) -> bool {
    has_prefix(id, seq!['f', 'i', 'l', 'e', ':'])
}

fn file_scheme(id: &ModuleIdentity) -> (r: bool)
    ensures
        r == is_file(id@),
{
    proof {
        reveal_strlit("file:");
    }
    let r = starts_with(id.as_str(), "file:");
    assert("file:"@ =~= seq!['f', 'i', 'l', 'e', ':']);
    r
}

/// Starts loading `id`, given the local path it denotes, if any: the path is
/// classified by its media kind and guarded before it is read.
pub fn begin(id: &ModuleIdentity, local: Option<String>, requested: RequestedKind) -> (r: LoadAction)
    ensures
        local is Some && admission(media_of_path(local->0@), requested) is Ok ==> {
            &&& r is ReadFile
            &&& r->ReadFile_path@ == local->0@
            &&& r->ReadFile_plan.is_for(id@, media_of_path(local->0@), requested)
        },
        local is Some && admission(media_of_path(local->0@), requested) is Err ==> {
            &&& r is Fail
            &&& refusal_error(admission(media_of_path(local->0@), requested)->Err_0, r->Fail_0, local->0@)
        },
        local is None && is_remote(id@) ==> r is Request && r->url@ == id@,
        local is None && !is_remote(id@) ==> {
            &&& r is Fail
            &&& r->Fail_0 is UnsupportedScheme
            &&& r->Fail_0->UnsupportedScheme_specifier@ == id@
        },
{
    match local {
        Some(path) => {
            let media = media_from_path(path.as_str());
            begin_classified(id, Some(LocalFile { path, media }), requested)
        },
        None => begin_classified(id, None, requested),
    }
}

/// Starts loading `id`: a `file:` identity is read from its local path when
/// its kind is admitted, an `http`/`https` identity is requested, and any
/// other scheme is refused.
pub fn start(id: &ModuleIdentity, requested: RequestedKind) -> (r: LoadAction)
    ensures
        !is_file(id@) && is_remote(id@) ==> r is Request && r->url@ == id@,
        !is_file(id@) && !is_remote(id@) ==> {
            &&& r is Fail
            &&& r->Fail_0 is UnsupportedScheme
            &&& r->Fail_0->UnsupportedScheme_specifier@ == id@
        },
        is_file(id@) ==> r is ReadFile || r is Fail,
        r is ReadFile ==> {
            &&& is_file(id@)
            &&& r->ReadFile_plan.is_for(id@, media_of_path(r->ReadFile_path@), requested)
        },
        !(r is ReadBody) && !(r is Complete),
        r is Fail ==> {
            ||| !is_file(id@) && !is_remote(id@) && r->Fail_0 is UnsupportedScheme
                && r->Fail_0->UnsupportedScheme_specifier@ == id@
            ||| is_file(id@) && r->Fail_0 is JsonAttribute && requested == RequestedKind::Default
            ||| is_file(id@) && r->Fail_0 is UnknownMedia
                && treatment_of(media_of_path(r->Fail_0->key@)) is None
            ||| is_file(id@) && fetch_error(r->Fail_0, id@) && r->Fail_0->cause is NoLocalPath
        },
{
    if file_scheme(id) {
        match local_path(id) {
            Some(path) => begin(id, Some(path), requested),
            None => LoadAction::Fail(
                LoadError::Fetch { specifier: id.as_str().to_string(), cause: FetchCause::NoLocalPath },
            ),
        }
    } else {
        begin(id, None, requested)
    }
}

/// Decides on the answer to the request for `id`: whether its status was a
/// success, and its `content-type` header, if it had a readable one.
pub fn on_response(id: &ModuleIdentity, requested: RequestedKind, success: bool, content_type: Option<String>) -> (r: LoadAction)
    ensures
        !success ==> r is Fail && fetch_error(r->Fail_0, id@) && r->Fail_0->cause is Status,
        success && content_type is None ==> {
            &&& r is Fail
            &&& fetch_error(r->Fail_0, id@)
            &&& r->Fail_0->cause is MissingContentType
        },
        success && content_type is Some
            && admission(media_of_content_type(id@, content_type->0@), requested) is Ok ==> {
            &&& r is ReadBody
            &&& r->ReadBody_plan.is_for(id@, media_of_content_type(id@, content_type->0@), requested)
        },
        success && content_type is Some
            && admission(media_of_content_type(id@, content_type->0@), requested) is Err ==> {
            &&& r is Fail
            &&& refusal_error(
                admission(media_of_content_type(id@, content_type->0@), requested)->Err_0,
                r->Fail_0,
                content_type->0@,
            )
        },
{
    match content_type {
        Some(value) if success => {
            let media = media_from_content_type(id, value.as_str());
            on_classified_response(id, requested, success, Some(ContentType { value, media }))
        },
        _ => on_classified_response(id, requested, success, None),
    }
}

/// Classification of a local file depends on its media kind alone, and is
/// stable: a kind that is admitted is admitted with exactly the treatment that
/// the classification table gives it, so classifying it again changes nothing,
/// and whether it is refused does not depend on anything but the kind and the
/// request.
pub proof fn classification_by_kind_alone(m: MediaKind, requested: RequestedKind)
    ensures
        admission(m, requested) is Ok ==> treatment_of(m) == Some(admission(m, requested)->Ok_0),
        admission(m, requested) is Err ==> (treatment_of(m) is None
            <==> admission(m, requested)->Err_0 == Refusal::UnknownMedia),
        requested == RequestedKind::Json ==> (admission(m, requested) is Ok <==> treatment_of(m) is Some),
{
}

/// Content of a kind outside the classification table is always refused as
/// unknown media, whatever was requested; it never passes as JavaScript.
pub proof fn unknown_media_is_refused(m: MediaKind, requested: RequestedKind)
    requires
        treatment_of(m) is None,
    ensures
        admission(m, requested) == Err::<Treatment, Refusal>(Refusal::UnknownMedia),
{
}

/// JSON content is admitted exactly when JSON was requested; otherwise it is
/// refused with the JSON attribute error, for both origins.
pub proof fn json_needs_json_request(requested: RequestedKind)
    ensures
        admission(MediaKind::Json, requested) is Ok <==> requested == RequestedKind::Json,
        requested != RequestedKind::Json ==> admission(MediaKind::Json, requested)
            == Err::<Treatment, Refusal>(Refusal::JsonAttribute),
        requested == RequestedKind::Json ==> admission(MediaKind::Json, requested)
            == Ok::<Treatment, Refusal>(Treatment { module_kind: ModuleKind::Json, transpile: false }),
{
}

/// A plan that yields a JSON module was made for a JSON request, so no JSON
/// record comes out of a load that did not ask for one.
pub proof fn json_plan_was_requested(plan: Plan)
    requires
        plan.wf(),
        plan.treatment.module_kind == ModuleKind::Json,
    ensures
        plan.requested == RequestedKind::Json,
        !plan.treatment.transpile,
{
}

} // verus!
