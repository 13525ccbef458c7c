//! The HTTP file service: who may use it, which file a download serves,
//! and the steps of an upload.
//!
//! The HTTP server itself, the file system and the request body are driven
//! from outside; they hand this module plain values and carry out the
//! answers it gives.
use vstd::prelude::*;

verus! {

/// The settings of the HTTP service: the directory it serves and the token
/// a request must carry in `X-AUTH` (empty for none).
#[derive(Clone)]
pub struct HTTPConfig {
    pub basic_path: String,
    pub auth_token: String,
}

/// The HTTP settings of a process: empty until they are first set, and
/// fixed from then on.
pub struct HttpSettings {
    config: Option<HTTPConfig>,
}

impl View for HttpSettings {
    /// The directory and the token, once set.
    type V = Option<(Seq<char>, Seq<char>)>;

    closed spec fn view(&self) -> Option<(Seq<char>, Seq<char>)> {
        match self.config {
            Some(c) => Some((c.basic_path@, c.auth_token@)),
            None => None,
        }
    }
}

impl HttpSettings {
    /// No settings yet.
    pub fn new() -> (s: HttpSettings)
        ensures
            s@ is None,
    {
        HttpSettings { config: None }
    }

    /// Sets the directory served and the token asked for. Only the first
    /// call takes effect: it returns `true`; a later call returns `false`
    /// and leaves the settings as they were.
    pub fn set_http_config(&mut self, basic_path: String, auth_token: String) -> (stored: bool)
        ensures
            stored == old(self)@ is None,
            final(self)@ == settings_after(old(self)@, (basic_path@, auth_token@)),
    {
        if self.config.is_some() {
            false
        } else {
            self.config = Some(HTTPConfig { basic_path, auth_token });
            true
        }
    }

    /// The settings, once set.
    pub fn config(&self) -> (c: Option<&HTTPConfig>)
        ensures
            match (c, self@) {
                (Some(c), Some((b, t))) => c.basic_path@ == b && c.auth_token@ == t,
                (None, None) => true,
                _ => false,
            },
    {
        match &self.config {
            Some(c) => Some(c),
            None => None,
        }
    }
}

/// The settings after `offered` is set on `before`: kept only when there
/// were none.
pub open spec fn settings_after(
    before: Option<(Seq<char>, Seq<char>)>,
    offered: (Seq<char>, Seq<char>),
) -> Option<(Seq<char>, Seq<char>)> {
    match before {
        Some(held) => Some(held),
        None => Some(offered),
    }
}

/// The first settings set are the ones kept, whatever is set after them.
pub proof fn lemma_first_settings_win(
    first: (Seq<char>, Seq<char>),
    later: Seq<(Seq<char>, Seq<char>)>,
)
    ensures
        later.fold_left(
            settings_after(None, first),
            |s: Option<(Seq<char>, Seq<char>)>, o: (Seq<char>, Seq<char>)| settings_after(s, o),
        ) == Some(first),
    decreases later.len(),
{
    if later.len() > 0 {
        lemma_first_settings_win(first, later.drop_last());
    }
}

/// An answer written back to the client: a status code and, where one was
/// rendered, a body.
pub struct Reply {
    pub status: u16,
    pub body: Option<String>,
}

/// `r` has status `status` and the body `body`.
pub open spec fn reply_is(r: Reply, status: u16, body: Option<Seq<char>>) -> bool {
    &&& r.status == status
    &&& match (r.body, body) {
        (Some(b), Some(t)) => b@ == t,
        (None, None) => true,
        _ => false,
    }
}

fn reply(status: u16, body: &str) -> (r: Reply)
    ensures
        reply_is(r, status, Some(body@)),
{
    Reply { status, body: Some(String::from_str(body)) }
}

/// The `X-AUTH` header of a request.
pub enum AuthHeader {
    /// The request has no such header.
    Missing,
    /// The header holds bytes other than visible ASCII, so it is no text.
    Unreadable,
    /// The header's text.
    Text(String),
}

/// What the access check does with a request.
pub enum AuthOutcome {
    /// The request goes on to its handler.
    Pass,
    /// The request is answered with this reply and goes no further.
    Refuse(Reply),
}

/// The access check as a relation: `o` is what a request with header `h`
/// gets under the service settings `config`.
pub open spec fn auth_outcome_is(config: Option<HTTPConfig>, h: AuthHeader, o: AuthOutcome) -> bool {
    match config {
        None => o is Pass,
        Some(c) => if c.auth_token@.len() == 0 {
            o is Pass
        } else {
            match h {
                AuthHeader::Missing => o matches AuthOutcome::Refuse(r) && reply_is(
                    r,
                    403,
                    Some("Forbidden: Missing X-AUTH header"@),
                ),
                AuthHeader::Unreadable => o matches AuthOutcome::Refuse(r) && reply_is(
                    r,
                    400,
                    Some("Forbidden: Invalid X-AUTH header format"@),
                ),
                AuthHeader::Text(t) => if t@ == c.auth_token@ {
                    o is Pass
                } else {
                    o matches AuthOutcome::Refuse(r) && reply_is(
                        r,
                        403,
                        Some("Forbidden: Invalid token"@),
                    )
                },
            }
        },
    }
}

/// The access check in front of every route of the HTTP service.
pub struct AuthMiddleware {}

impl AuthMiddleware {
    /// Decides whether a request may go on. With the service not yet
    /// configured, or configured without a token, every request passes;
    /// otherwise exactly the requests whose `X-AUTH` header equals the token
    /// pass, and the others are refused with 403 (missing or wrong token) or
    /// 400 (header that is no text).
    pub fn handle(&self, config: Option<&HTTPConfig>, header: &AuthHeader) -> (o: AuthOutcome)
        ensures
            config is None ==> o is Pass,
            config matches Some(c) && c.auth_token@.len() == 0 ==> o is Pass,
            config matches Some(c) && c.auth_token@.len() > 0 ==> (o is Pass <==> (
            *header matches AuthHeader::Text(t) && t@ == config.unwrap().auth_token@)),
            auth_outcome_is(
                match config {
                    Some(c) => Some(*c),
                    None => None,
                },
                *header,
                o,
            ),
    {
        match config {
            None => AuthOutcome::Pass,
            Some(c) => {
                if c.auth_token.as_str().is_empty() {
                    return AuthOutcome::Pass;
                }
                match header {
                    AuthHeader::Missing => AuthOutcome::Refuse(
                        reply(403, "Forbidden: Missing X-AUTH header"),
                    ),
                    AuthHeader::Unreadable => AuthOutcome::Refuse(
                        reply(400, "Forbidden: Invalid X-AUTH header format"),
                    ),
                    AuthHeader::Text(t) => {
                        if *t == c.auth_token {
                            AuthOutcome::Pass
                        } else {
                            AuthOutcome::Refuse(reply(403, "Forbidden: Invalid token"))
                        }
                    },
                }
            },
        }
    }
}

/// Without a token, or before the service is configured, every request
/// gets through, whatever its `X-AUTH` header (missing, unreadable or any
/// text).
pub proof fn lemma_open_without_token(config: Option<HTTPConfig>, h: AuthHeader, o: AuthOutcome)
    requires
        config matches Some(c) ==> c.auth_token@.len() == 0,
        auth_outcome_is(config, h, o),
    ensures
        o is Pass,
{
}

/// With a token set, a request gets through exactly when its header is
/// that token.
pub proof fn lemma_token_gate(c: HTTPConfig, h: AuthHeader, o: AuthOutcome)
    requires
        c.auth_token@.len() > 0,
        auth_outcome_is(Some(c), h, o),
    ensures
        o is Pass <==> (h matches AuthHeader::Text(t) && t@ == c.auth_token@),
{
}

/// The text `dir + "/" + name`: `name` under the directory `dir`.
pub open spec fn joined(dir: Seq<char>, name: Seq<char>) -> Seq<char> {
    dir + "/"@ + name
}

/// `dir + "/" + name`, the way the service forms paths under a directory.
pub fn join_path(dir: &str, name: &str) -> (p: String)
    ensures
        p@ == joined(dir@, name@),
{
    let mut p = String::from_str(dir);
    p.append("/");
    p.append(name);
    p
}

/// What a download request gets.
pub enum DownloadOutcome {
    /// The file at this path is sent.
    SendFile(String),
    /// The request is answered with this reply.
    Refuse(Reply),
}

/// Decides a download (`GET /dl?path=...`): with the service configured
/// and a `path` given, the file `basic_path + "/" + path` is sent; without
/// the service configured the answer is 400, and without a path it is 404
/// with an empty body.
pub fn download(path_query: Option<String>, config: Option<&HTTPConfig>) -> (o: DownloadOutcome)
    ensures
        match (path_query, config) {
            (Some(p), Some(c)) => o matches DownloadOutcome::SendFile(f) && f@ == joined(
                c.basic_path@,
                p@,
            ),
            (_, None) => o matches DownloadOutcome::Refuse(r) && reply_is(
                r,
                400,
                Some("HTTP Service not configured"@),
            ),
            (None, Some(_)) => o matches DownloadOutcome::Refuse(r) && reply_is(
                r,
                404,
                Some(""@),
            ),
        },
{
    match (path_query, config) {
        (Some(p), Some(c)) => DownloadOutcome::SendFile(join_path(c.basic_path.as_str(), p.as_str())),
        (_, None) => DownloadOutcome::Refuse(reply(400, "HTTP Service not configured")),
        (None, Some(_)) => DownloadOutcome::Refuse(reply(404, "")),
    }
}

/// Decides a download for the first-generation service, configured with a
/// served directory only (`GET /dl?path=...`): with a directory set and a
/// `path` given, the file `basic_path + "/" + path` is sent; without a
/// directory the answer is 400, and without a path it is 404 with an
/// empty body.
pub fn hello_world(path_query: Option<String>, basic_path: Option<&String>) -> (o: DownloadOutcome)
    ensures
        match (path_query, basic_path) {
            (Some(p), Some(b)) => o matches DownloadOutcome::SendFile(f) && f@ == joined(b@, p@),
            (_, None) => o matches DownloadOutcome::Refuse(r) && reply_is(
                r,
                400,
                Some("Basic Path does not config"@),
            ),
            (None, Some(_)) => o matches DownloadOutcome::Refuse(r) && reply_is(
                r,
                404,
                Some(""@),
            ),
        },
{
    match (path_query, basic_path) {
        (Some(p), Some(b)) => DownloadOutcome::SendFile(join_path(b.as_str(), p.as_str())),
        (_, None) => DownloadOutcome::Refuse(reply(400, "Basic Path does not config")),
        (None, Some(_)) => DownloadOutcome::Refuse(reply(404, "")),
    }
}

/// The form field an upload carries its file in.
pub const UPLOAD_FIELD: &'static str = "file";

/// Where an upload (`POST /upload`) stands.
pub enum UploadState {
    /// Nothing done yet; the service settings are looked up first.
    Start,
    /// Waiting to learn whether the upload directory `dir` exists.
    CheckingDir { dir: String },
    /// Waiting for the upload directory `dir` to be created.
    CreatingDir { dir: String },
    /// Waiting for the uploaded file, to be stored under `dir`.
    AwaitingFile { dir: String },
    /// Waiting to learn whether the target `to` lies directly in the upload
    /// directory; the received file is at `from`.
    CheckingTarget { from: String, to: String },
    /// Waiting for the file to be copied into place.
    Copying,
    /// The request has been answered.
    Done,
}

/// What was observed since the last step of an upload.
pub enum UploadEvent {
    /// The service settings, if the service is configured.
    Config(Option<HTTPConfig>),
    /// Whether the upload directory exists.
    DirExists(bool),
    /// The upload directory was created.
    DirCreated,
    /// Creating the upload directory failed with this message.
    DirFailed(String),
    /// The request carries no file in the upload field.
    NoFile,
    /// The uploaded file has no name.
    NoName,
    /// The uploaded file, its name and the temporary path it was received to.
    File { name: String, temp_path: String },
    /// Whether the parent of the target path is the upload directory.
    ParentChecked(bool),
    /// The file was copied into place.
    Copied,
    /// Copying the file failed with this message.
    CopyFailed(String),
}

/// What is to be done next for an upload.
pub enum UploadAction {
    /// Find out whether this directory exists.
    CheckDir(String),
    /// Create this directory.
    CreateDir(String),
    /// Fetch the file sent in this form field.
    FetchFile(String),
    /// Find out whether the parent of the path `path` is the directory
    /// `dir` (see [`check_parent`]).
    CheckParent { path: String, dir: String },
    /// Copy the file at `from` to `to`.
    Copy { from: String, to: String },
    /// Answer the request with this reply; the upload is over.
    Respond(Reply),
}

/// `e` is an event that can follow the action that led to `s`.
pub open spec fn upload_accepts(s: UploadState, e: UploadEvent) -> bool {
    match s {
        UploadState::Start => e is Config,
        UploadState::CheckingDir { .. } => e is DirExists,
        UploadState::CreatingDir { .. } => e is DirCreated || e is DirFailed,
        UploadState::AwaitingFile { .. } => e is NoFile || e is NoName || e is File,
        UploadState::CheckingTarget { .. } => e is ParentChecked,
        UploadState::Copying => e is Copied || e is CopyFailed,
        UploadState::Done => false,
    }
}

/// The upload directory under the served directory `basic`.
pub open spec fn upload_dir_of(basic: Seq<char>) -> Seq<char> {
    joined(basic, "upload"@)
}

/// `a` answers the request with status `status` and body `body`, and `s2`
/// is the finished state.
pub open spec fn responds(s2: UploadState, a: UploadAction, status: u16, body: Option<Seq<char>>) -> bool {
    &&& s2 is Done
    &&& a matches UploadAction::Respond(r) && reply_is(r, status, body)
}

/// One step of an upload: from state `s`, on event `e`, the upload moves to
/// `s2` and asks for `a`.
pub open spec fn upload_step_is(s: UploadState, e: UploadEvent, s2: UploadState, a: UploadAction) -> bool {
    match (s, e) {
        (UploadState::Start, UploadEvent::Config(None)) => responds(
            s2,
            a,
            400,
            Some("HTTP Service not configured"@),
        ),
        (UploadState::Start, UploadEvent::Config(Some(c))) => {
            &&& s2 matches UploadState::CheckingDir { dir } && dir@ == upload_dir_of(c.basic_path@)
            &&& a matches UploadAction::CheckDir(d) && d@ == upload_dir_of(c.basic_path@)
        },
        (UploadState::CheckingDir { dir }, UploadEvent::DirExists(true)) => {
            &&& s2 matches UploadState::AwaitingFile { dir: d2 } && d2@ == dir@
            &&& a matches UploadAction::FetchFile(f) && f@ == UPLOAD_FIELD@
        },
        (UploadState::CheckingDir { dir }, UploadEvent::DirExists(false)) => {
            &&& s2 matches UploadState::CreatingDir { dir: d2 } && d2@ == dir@
            &&& a matches UploadAction::CreateDir(d) && d@ == dir@
        },
        (UploadState::CreatingDir { dir }, UploadEvent::DirCreated) => {
            &&& s2 matches UploadState::AwaitingFile { dir: d2 } && d2@ == dir@
            &&& a matches UploadAction::FetchFile(f) && f@ == UPLOAD_FIELD@
        },
        (UploadState::CreatingDir { .. }, UploadEvent::DirFailed(m)) => responds(
            s2,
            a,
            500,
            Some("Failed to create upload directory: "@ + m@),
        ),
        (UploadState::AwaitingFile { .. }, UploadEvent::NoFile) => responds(
            s2,
            a,
            400,
            Some("No file uploaded with the name 'file'"@),
        ),
        (UploadState::AwaitingFile { .. }, UploadEvent::NoName) => responds(
            s2,
            a,
            400,
            Some("upload file has no name"@),
        ),
        (UploadState::AwaitingFile { dir }, UploadEvent::File { name, temp_path }) => {
            &&& s2 matches UploadState::CheckingTarget { from, to } && from@ == temp_path@ && to@
                == joined(dir@, name@)
            &&& a matches UploadAction::CheckParent { path, dir: d } && path@ == joined(
                dir@,
                name@,
            ) && d@ == dir@
        },
        (UploadState::CheckingTarget { from, to }, UploadEvent::ParentChecked(true)) => {
            &&& s2 is Copying
            &&& a matches UploadAction::Copy { from: f, to: t } && f@ == from@ && t@ == to@
        },
        (UploadState::CheckingTarget { .. }, UploadEvent::ParentChecked(false)) => responds(
            s2,
            a,
            500,
            Some("bad file name"@),
        ),
        (UploadState::Copying, UploadEvent::Copied) => responds(s2, a, 200, None),
        (UploadState::Copying, UploadEvent::CopyFailed(m)) => responds(
            s2,
            a,
            500,
            Some("Failed to save file: "@ + m@),
        ),
        _ => false,
    }
}

/// No character of `s` is a backslash or `:`: nothing in it can read as a drive,
/// a share or a second kind of separator on any platform.
pub open spec fn portable_chars(s: Seq<char>) -> bool {
    forall|i: int| 0 <= i < s.len() ==> s[i] != '\\' && s[i] != ':'
}

/// `n` is one plain path component on every platform: not empty, not `.`,
/// with no separator (`/`), no backslash and no `:` in it. (`..` is one.)
pub open spec fn component_name(n: Seq<char>) -> bool {
    &&& n.len() > 0
    &&& n != seq!['.']
    &&& portable_chars(n)
    &&& forall|i: int| 0 <= i < n.len() ==> n[i] != '/'
}

/// `d` is a directory path that ends in a plain component (`d0/m0`), holds
/// no backslash or `:`, and does not begin with `//`: the same path, split the
/// same way, on every platform.
pub open spec fn plain_dir(d: Seq<char>) -> bool {
    &&& portable_chars(d)
    &&& !(d.len() >= 2 && d[0] == '/' && d[1] == '/')
    &&& exists|d0: Seq<char>, m0: Seq<char>| d == #[trigger] joined(d0, m0) && component_name(m0)
}

/// The parent of the path `path`, by the platform's path rules, as text.
///
/// Calls `std::path::Path::parent`. Claimed, on every platform: `/`
/// separates components (it does on all of them), and the parent drops the
/// final component, so the parent of `d + "/" + m`, where `m` is a plain
/// component and `d` a plain directory, is `d` itself. Nothing is stated of
/// other paths: what counts as a separator, a root or a prefix (a backslash, `C:`,
/// `//server`) differs from one platform to another.
#[verifier::external_body]
fn path_parent(path: &str) -> (r: Option<String>)
    ensures
        forall|d: Seq<char>, m: Seq<char>|
            path@ == #[trigger] joined(d, m) && component_name(m) && plain_dir(d) ==> r is Some
                && r.unwrap()@ == d,
{
    std::path::Path::new(path).parent().map(|p| p.to_string_lossy().into_owned())
}

/// Whether the paths `a` and `b` are equal, by the platform's path rules.
///
/// Calls `==` on `std::path::Path`, which compares the paths component by
/// component. Claimed, on every platform: equal texts are equal paths, and
/// `b + "/" + m`, for a plain directory `b` and a plain component `m`, has
/// one component more than `b`, so it is not equal to `b`. Nothing is
/// stated of other pairs: the splitting into components differs from one
/// platform to another.
#[verifier::external_body]
fn paths_equal(a: &str, b: &str) -> (r: bool)
    ensures
        a@ == b@ ==> r,
        forall|m: Seq<char>|
            a@ == #[trigger] joined(b@, m) && component_name(m) && plain_dir(b@) ==> !r,
{
    std::path::Path::new(a) == std::path::Path::new(b)
}

/// Answers a [`UploadAction::CheckParent`]: whether the parent of `path` is
/// the directory `dir`, by the platform's path rules (`Path::parent`, then
/// the comparison of `Path`s). For a plain directory `dir` (see
/// [`plain_dir`]): a target `dir + "/" + n` with `n` one plain component
/// passes, and a target with a further separator in its name, such as
/// `dir + "/../x"` or `dir + "/sub/x"`, does not. Names holding a backslash or `:`
/// are answered by the platform's rules and not stated here.
pub fn check_parent(path: &str, dir: &str) -> (e: UploadEvent)
    ensures
        e is ParentChecked,
        forall|n: Seq<char>|
            path@ == #[trigger] joined(dir@, n) && component_name(n) && plain_dir(dir@) ==> e
                == UploadEvent::ParentChecked(true),
        forall|n: Seq<char>, m: Seq<char>|
            path@ == #[trigger] joined(dir@, joined(n, m)) && component_name(n) && component_name(m)
                && plain_dir(dir@) ==> e == UploadEvent::ParentChecked(false),
{
    let parent = path_parent(path);
    proof {
        assert forall|n: Seq<char>, m: Seq<char>|
            path@ == #[trigger] joined(dir@, joined(n, m)) && component_name(n) && component_name(m)
                && plain_dir(dir@) implies parent is Some && parent.unwrap()@ == joined(dir@, n) by {
            lemma_joined_assoc(dir@, n, m);
            lemma_plain_dir_extends(dir@, n);
        }
    }
    match parent {
        Some(q) => {
            let same = paths_equal(q.as_str(), dir);
            UploadEvent::ParentChecked(same)
        },
        None => UploadEvent::ParentChecked(false),
    }
}

/// Joining is associative: `(d + "/" + n) + "/" + m == d + "/" + (n + "/" + m)`.
proof fn lemma_joined_assoc(d: Seq<char>, n: Seq<char>, m: Seq<char>)
    ensures
        joined(joined(d, n), m) == joined(d, joined(n, m)),
{
    assert(joined(joined(d, n), m) =~= joined(d, joined(n, m)));
}

/// A plain directory with a plain component added is a plain directory.
proof fn lemma_plain_dir_extends(d: Seq<char>, n: Seq<char>)
    requires
        plain_dir(d),
        component_name(n),
    ensures
        plain_dir(joined(d, n)),
{
    reveal_strlit("/");
    let e = joined(d, n);
    let (d0, m0) = choose|d0: Seq<char>, m0: Seq<char>| d == #[trigger] joined(d0, m0) && component_name(m0);
    assert(d.len() >= 2);
    assert(e[0] == d[0] && e[1] == d[1]);
    assert forall|i: int| 0 <= i < e.len() implies e[i] != '\\' && e[i] != ':' by {
        if i < d.len() {
            assert(e[i] == d[i]);
        } else if i > d.len() {
            assert(e[i] == n[i - d.len() - 1]);
        } else {
            assert(e[i] == '/');
        }
    }
    assert(e == joined(d, n));
}

/// Advances an upload by one step. The file is stored as
/// `basic_path + "/upload/" + name`, the upload directory being created
/// first when it is missing. Before anything is copied the target is
/// checked to lie directly in the upload directory ([`check_parent`] answers
/// that check): a target that fails it is refused with 500 `bad file name`
/// and never copied. A successful copy is
/// answered with 200, and every failure with its own status and message.
pub fn upload(state: UploadState, event: UploadEvent) -> (r: (UploadState, UploadAction))
    requires
        upload_accepts(state, event),
    ensures
        upload_step_is(state, event, r.0, r.1),
{
    match (state, event) {
        (UploadState::Start, UploadEvent::Config(None)) => (
            UploadState::Done,
            UploadAction::Respond(reply(400, "HTTP Service not configured")),
        ),
        (UploadState::Start, UploadEvent::Config(Some(c))) => {
            let dir = join_path(c.basic_path.as_str(), "upload");
            let d = dir.clone();
            (UploadState::CheckingDir { dir }, UploadAction::CheckDir(d))
        },
        (UploadState::CheckingDir { dir }, UploadEvent::DirExists(present)) => {
            if present {
                (UploadState::AwaitingFile { dir }, UploadAction::FetchFile(String::from_str(UPLOAD_FIELD)))
            } else {
                let d = dir.clone();
                (UploadState::CreatingDir { dir }, UploadAction::CreateDir(d))
            }
        },
        (UploadState::CreatingDir { dir }, UploadEvent::DirCreated) => (
            UploadState::AwaitingFile { dir },
            UploadAction::FetchFile(String::from_str(UPLOAD_FIELD)),
        ),
        (UploadState::CreatingDir { .. }, UploadEvent::DirFailed(m)) => {
            let body = String::from_str("Failed to create upload directory: ").concat(m.as_str());
            (UploadState::Done, UploadAction::Respond(Reply { status: 500, body: Some(body) }))
        },
        (UploadState::AwaitingFile { .. }, UploadEvent::NoFile) => (
            UploadState::Done,
            UploadAction::Respond(reply(400, "No file uploaded with the name 'file'")),
        ),
        (UploadState::AwaitingFile { .. }, UploadEvent::NoName) => (
            UploadState::Done,
            UploadAction::Respond(reply(400, "upload file has no name")),
        ),
        (UploadState::AwaitingFile { dir }, UploadEvent::File { name, temp_path }) => {
            let to = join_path(dir.as_str(), name.as_str());
            let path = to.clone();
            (UploadState::CheckingTarget { from: temp_path, to }, UploadAction::CheckParent { path, dir })
        },
        (UploadState::CheckingTarget { from, to }, UploadEvent::ParentChecked(inside)) => {
            if inside {
                (UploadState::Copying, UploadAction::Copy { from, to })
            } else {
                (UploadState::Done, UploadAction::Respond(reply(500, "bad file name")))
            }
        },
        (UploadState::Copying, UploadEvent::Copied) => (
            UploadState::Done,
            UploadAction::Respond(Reply { status: 200, body: None }),
        ),
        (UploadState::Copying, UploadEvent::CopyFailed(m)) => {
            let body = String::from_str("Failed to save file: ").concat(m.as_str());
            (UploadState::Done, UploadAction::Respond(Reply { status: 500, body: Some(body) }))
        },
        (_, _) => {
            proof {
                assert(false);
            }
            (UploadState::Done, UploadAction::Respond(reply(500, "")))
        },
    }
}

/// An uploaded file is checked, and then copied, at
/// `basic_path + "/upload/" + name`, whether the upload directory was there
/// already or had to be created; the check compares that target's parent
/// with the upload directory.
pub proof fn lemma_upload_target(
    c: HTTPConfig,
    name: String,
    temp_path: String,
    created: bool,
    s1: UploadState,
    a1: UploadAction,
    s2: UploadState,
    a2: UploadAction,
    s3: UploadState,
    a3: UploadAction,
    s4: UploadState,
    a4: UploadAction,
    s5: UploadState,
    a5: UploadAction,
)
    requires
        upload_step_is(UploadState::Start, UploadEvent::Config(Some(c)), s1, a1),
        !created ==> upload_step_is(s1, UploadEvent::DirExists(true), s2, a2),
        created ==> upload_step_is(s1, UploadEvent::DirExists(false), s2, a2),
        created ==> upload_step_is(s2, UploadEvent::DirCreated, s3, a3),
        !created ==> s3 == s2,
        upload_step_is(s3, UploadEvent::File { name, temp_path }, s4, a4),
        upload_step_is(s4, UploadEvent::ParentChecked(true), s5, a5),
    ensures
        a4 matches UploadAction::CheckParent { path, dir } && path@ == joined(
            upload_dir_of(c.basic_path@),
            name@,
        ) && dir@ == upload_dir_of(c.basic_path@),
        a5 matches UploadAction::Copy { from, to } && from@ == temp_path@ && to@ == joined(
            upload_dir_of(c.basic_path@),
            name@,
        ),
{
}

/// Nothing is copied but after a target check that found the target's
/// parent to be the upload directory, and to the very path that was
/// checked; a target that fails the check is answered with 500
/// `bad file name`.
pub proof fn lemma_copy_only_after_check(s: UploadState, e: UploadEvent, s2: UploadState, a: UploadAction)
    requires
        upload_step_is(s, e, s2, a),
    ensures
        a is Copy ==> e == UploadEvent::ParentChecked(true),
        a is Copy ==> s is CheckingTarget,
        a is Copy ==> a->to@ == s->to@,
        (s is CheckingTarget && e == UploadEvent::ParentChecked(false)) ==> responds(
            s2,
            a,
            500,
            Some("bad file name"@),
        ),
{
}

} // verus!
