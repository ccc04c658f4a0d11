//! The Models screen's state and transitions: HuggingFace sign-in, model
//! downloads and deletes, the model directories, and the GGUF search, each
//! with the outside work (a login, a download, a rescan, ...) it asks for.

use vstd::prelude::*;

use crate::labels::str_eq;
use crate::model_menu::{
    apply_asr, apply_refine, asr_option_text, asr_option_text_of, refine_option_text,
    refine_option_text_of, with_asr, with_refine, AsrOption, ModelConfig, ModelConfigView,
    RefineOption,
};
use crate::devices::{lemma_push_keeps_no_repeats, names_view, no_repeats};
use crate::text::{all_ws, chars_of, clone_opt, opt_view, push_str, string_from_chars, trim, trimmed};

verus! {

/// The last component of a path (`Path::file_name`), or `None` for a path
/// that ends in `..` or is a root.
pub uninterp spec fn path_file_name(path: Seq<char>) -> Option<Seq<char>>;

/// Calls `std::path::Path::file_name` on `path` and converts the component
/// to text; the contract names that result [`path_file_name`] and says
/// nothing more of it. Which characters separate components is the build
/// target's (`/`, and also `\` on Windows), fixed within one build.
#[verifier::external_body]
fn file_name(path: &str) -> (n: Option<String>)
    ensures
        opt_view(n) == path_file_name(path@),
{
    std::path::Path::new(path).file_name().map(|n| n.to_string_lossy().into_owned())
}

/// How a status line names a model file: its file name, or the whole path
/// when it has none.
pub open spec fn model_file_name_of(path: Seq<char>) -> Seq<char> {
    match path_file_name(path) {
        Some(n) => n,
        None => path,
    }
}

/// The file name of a model path for a status line, falling back to the
/// whole path.
pub fn model_file_name(path: &str) -> (n: String)
    ensures
        n@ == model_file_name_of(path@),
{
    match file_name(path) {
        Some(n) => n,
        None => String::from_str(path),
    }
}

/// The directory a download goes to: the first user-added directory, else
/// the default models directory.
pub open spec fn download_dir_of(dirs: Seq<Seq<char>>, default: Option<Seq<char>>) -> Option<
    Seq<char>,
> {
    if dirs.len() > 0 {
        Some(dirs[0])
    } else {
        default
    }
}

/// The directory a fresh download is placed in.
pub fn download_dir(dirs: &Vec<String>, default: &Option<String>) -> (d: Option<String>)
    ensures
        opt_view(d) == download_dir_of(names_view(dirs@), opt_view(*default)),
{
    if dirs.len() > 0 {
        Some(dirs[0].clone())
    } else {
        clone_opt(default)
    }
}

/// Every directory the Models screen scans: the user's directories, then
/// the default one unless already listed.
pub open spec fn effective_dirs_of(dirs: Seq<Seq<char>>, default: Option<Seq<char>>) -> Seq<
    Seq<char>,
> {
    match default {
        Some(d) => if dirs.contains(d) {
            dirs
        } else {
            dirs.push(d)
        },
        None => dirs,
    }
}

fn contains_str(v: &Vec<String>, s: &str) -> (b: bool)
    ensures
        b == names_view(v@).contains(s@),
{
    let mut i: usize = 0;
    while i < v.len()
        invariant
            i <= v.len(),
            forall|j: int| 0 <= j < i ==> v@[j]@ != s@,
        decreases v.len() - i,
    {
        if str_eq(v[i].as_str(), s) {
            assert(names_view(v@)[i as int] == s@);
            return true;
        }
        i += 1;
    }
    proof {
        if names_view(v@).contains(s@) {
            let j = choose|j: int| 0 <= j < names_view(v@).len() && names_view(v@)[j] == s@;
            assert(v@[j]@ == s@);
        }
    }
    false
}

fn clone_names(v: &Vec<String>) -> (c: Vec<String>)
    ensures
        names_view(c@) == names_view(v@),
{
    let mut c: Vec<String> = Vec::new();
    let mut i: usize = 0;
    while i < v.len()
        invariant
            i <= v.len(),
            names_view(c@) == names_view(v@).take(i as int),
        decreases v.len() - i,
    {
        let ghost before = c@;
        c.push(v[i].clone());
        assert(names_view(c@) =~= names_view(before).push(v@[i as int]@));
        i += 1;
        assert(names_view(c@) =~= names_view(v@).take(i as int));
    }
    assert(names_view(v@).take(v.len() as int) =~= names_view(v@));
    c
}

/// The directories the Models screen scans, with no directory listed twice
/// by this step.
pub fn effective_model_dirs(dirs: &Vec<String>, default: &Option<String>) -> (v: Vec<String>)
    ensures
        names_view(v@) == effective_dirs_of(names_view(dirs@), opt_view(*default)),
{
    let mut v = clone_names(dirs);
    if let Some(d) = default {
        if !contains_str(&v, d.as_str()) {
            let ghost before = v@;
            v.push(d.clone());
            assert(names_view(v@) =~= names_view(before).push(d@));
        }
    }
    v
}

/// `dirs` without `dir`.
pub open spec fn without_dir(dirs: Seq<Seq<char>>, dir: Seq<char>) -> Seq<Seq<char>> {
    dirs.filter(|d: Seq<char>| d != dir)
}

/// What a download fetches.
#[derive(Debug)]
pub enum DownloadRequest {
    /// A curated whisper model, by id.
    Whisper(String),
    /// A curated refiner model, by id.
    Llm(String),
    /// A GGUF file found by search: repository, file.
    Gguf(String, String),
}

/// The name a download is shown under: the model id, or the searched file.
pub open spec fn request_label(r: DownloadRequest) -> Seq<char> {
    match r {
        DownloadRequest::Whisper(id) => id@,
        DownloadRequest::Llm(id) => id@,
        DownloadRequest::Gguf(_, file) => file@,
    }
}

/// The GGUF search on the Models screen.
#[derive(Debug)]
pub struct LlmSearch {
    pub query: String,
    /// The repository whose files are listed, if any.
    pub selected_repo: Option<String>,
    /// A search or listing is in flight.
    pub busy: bool,
    pub error: Option<String>,
    /// At least one search has finished.
    pub searched: bool,
}

/// The Models screen's state.
#[derive(Debug)]
pub struct ModelsState {
    /// The model picks in the config.
    pub models: ModelConfig,
    /// The saved HuggingFace token.
    pub token: Option<String>,
    /// A custom OAuth client id from the config.
    pub oauth_client_id: Option<String>,
    /// The user-added model directories.
    pub model_dirs: Vec<String>,
    /// The default models directory, when the platform has one.
    pub default_dir: Option<String>,
    /// The signed-in user, after a sign-in this session.
    pub username: Option<String>,
    /// The status line.
    pub status: Option<String>,
    /// A sign-in, download or delete is in flight.
    pub busy: bool,
    /// The pasted access token.
    pub token_input: String,
    /// The name of the download in flight, if any.
    pub downloading: Option<String>,
    pub search: LlmSearch,
}

/// A [`ModelsState`] as plain values.
#[verifier::ext_equal]
pub struct ModelsView {
    pub models: ModelConfigView,
    pub token: Option<Seq<char>>,
    pub oauth_client_id: Option<Seq<char>>,
    pub model_dirs: Seq<Seq<char>>,
    pub default_dir: Option<Seq<char>>,
    pub username: Option<Seq<char>>,
    pub status: Option<Seq<char>>,
    pub busy: bool,
    pub token_input: Seq<char>,
    pub downloading: Option<Seq<char>>,
    pub query: Seq<char>,
    pub selected_repo: Option<Seq<char>>,
    pub search_busy: bool,
    pub search_error: Option<Seq<char>>,
    pub searched: bool,
}

impl View for ModelsState {
    type V = ModelsView;

    open spec fn view(&self) -> ModelsView {
        ModelsView {
            models: self.models@,
            token: opt_view(self.token),
            oauth_client_id: opt_view(self.oauth_client_id),
            model_dirs: names_view(self.model_dirs@),
            default_dir: opt_view(self.default_dir),
            username: opt_view(self.username),
            status: opt_view(self.status),
            busy: self.busy,
            token_input: self.token_input@,
            downloading: opt_view(self.downloading),
            query: self.search.query@,
            selected_repo: opt_view(self.search.selected_repo),
            search_busy: self.search.busy,
            search_error: opt_view(self.search.error),
            searched: self.search.searched,
        }
    }
}

/// What happened on the Models screen.
#[derive(Debug)]
pub enum ModelsMessage {
    /// "Sign in with HuggingFace" was clicked.
    SignIn,
    /// The access-token field changed.
    TokenInput(String),
    /// The pasted token was submitted.
    TokenSubmit,
    /// A sign-in finished: user name and token, or an error.
    SignedIn(Result<(String, String), String>),
    SignOut,
    /// A download was asked for.
    Download(DownloadRequest),
    /// A download finished: `true` for a refiner model; the file's path or
    /// an error.
    Downloaded(bool, Result<String, String>),
    /// A speech-recognition entry was picked, with the display name of its
    /// model file (used only for a local entry).
    AsrSelected(AsrOption, String),
    /// A refiner entry was picked, with the display name of its model file
    /// (used only for a local entry).
    RefineSelected(RefineOption, String),
    /// Delete was clicked on this model file.
    DeleteModel(String),
    /// A delete finished: the deleted path, or an error.
    Deleted(Result<String, String>),
    /// The search field changed.
    SearchInput(String),
    /// The search was submitted.
    SearchSubmit,
    /// A search finished (its hits stay with the caller), or failed.
    SearchFinished(Result<(), String>),
    /// A search hit was clicked: its repository.
    SelectRepo(String),
    /// A repository's file listing finished, or failed.
    FilesListed(Result<(), String>),
    /// The directory picker closed, with the chosen directory if any.
    ModelDirPicked(Option<String>),
    /// A user directory was removed.
    RemoveModelDir(String),
}

/// The outside work a Models transition asks for.
#[derive(Debug)]
pub enum ModelsEffect {
    Nothing,
    /// Run the browser sign-in with this OAuth client (`None`: the built-in
    /// one).
    Login(Option<String>),
    /// Check this access token.
    TokenLogin(String),
    /// Save the config.
    Persist,
    /// Save the config, then rescan the model directories.
    PersistAndRescan,
    /// Rescan the model directories.
    Rescan,
    /// Start this download into this directory.
    Download(DownloadRequest, String),
    /// Delete this model file.
    Delete(String),
    /// Search for this query, dropping any file listing.
    Search(String),
    /// Drop the previous hits: the search failed.
    ClearResults,
    /// List the GGUF files of this repository, dropping the old listing.
    ListFiles(String),
    /// Drop the file listing: its repository was collapsed.
    CollapseFiles,
}

/// The custom OAuth client id, if one is configured and not blank.
pub open spec fn custom_client(c: Option<Seq<char>>) -> Option<Seq<char>> {
    match c {
        Some(id) => if all_ws(id) {
            None
        } else {
            Some(id)
        },
        None => None,
    }
}

/// The Models screen after message `m`.
pub open spec fn models_next(s: ModelsView, m: ModelsMessage) -> ModelsView {
    match m {
        ModelsMessage::SignIn => ModelsView {
            busy: true,
            status: Some("Opening your browser to sign in..."@),
            ..s
        },
        ModelsMessage::TokenInput(t) => ModelsView { token_input: t@, ..s },
        ModelsMessage::TokenSubmit => if trim(s.token_input).len() == 0 {
            s
        } else {
            ModelsView {
                busy: true,
                token_input: Seq::empty(),
                status: Some("Checking your token..."@),
                ..s
            }
        },
        ModelsMessage::SignedIn(r) => match r {
            Ok((user, token)) => ModelsView {
                busy: false,
                token: Some(token@),
                username: Some(user@),
                status: Some("Signed in as "@ + user@ + "."@),
                ..s
            },
            Err(e) => ModelsView { busy: false, status: Some("Sign-in failed: "@ + e@), ..s },
        },
        ModelsMessage::SignOut => ModelsView {
            token: None,
            username: None,
            status: Some("Signed out."@),
            ..s
        },
        ModelsMessage::Download(req) => match download_dir_of(s.model_dirs, s.default_dir) {
            Some(_) => ModelsView {
                busy: true,
                status: None,
                downloading: Some(request_label(req)),
                ..s
            },
            None => ModelsView {
                status: Some("Could not determine a models directory to download into."@),
                ..s
            },
        },
        ModelsMessage::Downloaded(llm, r) => match r {
            Ok(path) => ModelsView {
                busy: false,
                downloading: None,
                status: Some(
                    "Downloaded "@ + model_file_name_of(path@) + ". Select it in "@ + (if llm {
                        "the Refiner list"@
                    } else {
                        "the ASR list"@
                    }) + " to use it."@,
                ),
                ..s
            },
            Err(e) => ModelsView {
                busy: false,
                downloading: None,
                status: Some("Download failed: "@ + e@),
                ..s
            },
        },
        ModelsMessage::AsrSelected(o, name) => ModelsView {
            models: with_asr(s.models, o@),
            status: Some("Now transcribing with "@ + asr_option_text_of(o@, name@) + "."@),
            ..s
        },
        ModelsMessage::RefineSelected(o, name) => ModelsView {
            models: with_refine(s.models, o@),
            status: Some("Refiner set to "@ + refine_option_text_of(o@, name@) + "."@),
            ..s
        },
        ModelsMessage::DeleteModel(path) => ModelsView {
            busy: true,
            status: Some("Deleting "@ + model_file_name_of(path@) + "..."@),
            ..s
        },
        ModelsMessage::Deleted(r) => match r {
            Ok(path) => ModelsView {
                busy: false,
                status: Some("Deleted "@ + model_file_name_of(path@) + "."@),
                ..s
            },
            Err(e) => ModelsView { busy: false, status: Some("Delete failed: "@ + e@), ..s },
        },
        ModelsMessage::SearchInput(q) => ModelsView { query: q@, ..s },
        ModelsMessage::SearchSubmit => if trim(s.query).len() == 0 {
            s
        } else {
            ModelsView { search_busy: true, search_error: None, selected_repo: None, ..s }
        },
        ModelsMessage::SearchFinished(r) => match r {
            Ok(_) => ModelsView { search_busy: false, searched: true, ..s },
            Err(e) => ModelsView {
                search_busy: false,
                searched: true,
                search_error: Some("Search failed: "@ + e@),
                ..s
            },
        },
        ModelsMessage::SelectRepo(repo) => if s.selected_repo == Some(repo@) {
            ModelsView { selected_repo: None, ..s }
        } else {
            ModelsView {
                selected_repo: Some(repo@),
                search_busy: true,
                search_error: None,
                ..s
            }
        },
        ModelsMessage::FilesListed(r) => match r {
            Ok(_) => ModelsView { search_busy: false, ..s },
            Err(e) => ModelsView {
                search_busy: false,
                search_error: Some("Could not list files: "@ + e@),
                ..s
            },
        },
        ModelsMessage::ModelDirPicked(p) => match p {
            Some(dir) => if s.model_dirs.contains(dir@) {
                s
            } else {
                ModelsView {
                    status: Some("Scanning "@ + dir@ + "..."@),
                    model_dirs: s.model_dirs.push(dir@),
                    ..s
                }
            },
            None => s,
        },
        ModelsMessage::RemoveModelDir(dir) => ModelsView {
            model_dirs: without_dir(s.model_dirs, dir@),
            ..s
        },
    }
}

/// Whether `e` is the outside work message `m` asks for in state `s`.
pub open spec fn models_effect_ok(s: ModelsView, m: ModelsMessage, e: ModelsEffect) -> bool {
    match m {
        ModelsMessage::SignIn => e matches ModelsEffect::Login(c) && opt_view(c) == custom_client(
            s.oauth_client_id,
        ),
        ModelsMessage::TokenSubmit => if trim(s.token_input).len() == 0 {
            e is Nothing
        } else {
            e matches ModelsEffect::TokenLogin(t) && t@ == trim(s.token_input)
        },
        ModelsMessage::SignedIn(r) => if r is Ok {
            e is PersistAndRescan
        } else {
            e is Nothing
        },
        ModelsMessage::SignOut => e is Persist,
        ModelsMessage::Download(req) => match download_dir_of(s.model_dirs, s.default_dir) {
            Some(dir) => e matches ModelsEffect::Download(r2, d) && r2 == req && d@ == dir,
            None => e is Nothing,
        },
        ModelsMessage::Downloaded(_, r) => if r is Ok {
            e is Rescan
        } else {
            e is Nothing
        },
        ModelsMessage::AsrSelected(_, _) => e is Persist,
        ModelsMessage::RefineSelected(_, _) => e is Persist,
        ModelsMessage::DeleteModel(path) => e matches ModelsEffect::Delete(p) && p@ == path@,
        ModelsMessage::Deleted(r) => if r is Ok {
            e is Rescan
        } else {
            e is Nothing
        },
        ModelsMessage::SearchSubmit => if trim(s.query).len() == 0 {
            e is Nothing
        } else {
            e matches ModelsEffect::Search(q) && q@ == trim(s.query)
        },
        ModelsMessage::SearchFinished(r) => if r is Ok {
            e is Nothing
        } else {
            e is ClearResults
        },
        ModelsMessage::SelectRepo(repo) => if s.selected_repo == Some(repo@) {
            e is CollapseFiles
        } else {
            e matches ModelsEffect::ListFiles(r) && r@ == repo@
        },
        ModelsMessage::ModelDirPicked(p) => match p {
            Some(dir) => if s.model_dirs.contains(dir@) {
                e is Nothing
            } else {
                e is PersistAndRescan
            },
            None => e is Nothing,
        },
        ModelsMessage::RemoveModelDir(_) => e is PersistAndRescan,
        ModelsMessage::TokenInput(_) | ModelsMessage::SearchInput(_) | ModelsMessage::FilesListed(
            _,
        ) => e is Nothing,
    }
}

fn line3(a: &str, b: &str, c: &str) -> (s: String)
    ensures
        s@ == a@ + b@ + c@,
{
    let mut s = String::new();
    push_str(&mut s, a);
    push_str(&mut s, b);
    push_str(&mut s, c);
    assert(s@ =~= a@ + b@ + c@);
    s
}

fn trimmed_string(s: &str) -> (t: String)
    ensures
        t@ == trim(s@),
{
    string_from_chars(&trimmed(&chars_of(s)))
}

fn on_account(st: &mut ModelsState, m: ModelsMessage) -> (e: ModelsEffect)
    requires
        m is SignIn || m is TokenInput || m is TokenSubmit || m is SignedIn || m is SignOut,
    ensures
        final(st)@ == models_next(old(st)@, m),
        models_effect_ok(old(st)@, m, e),
{
    proof {
        reveal_strlit("");
    }
    match m {
        ModelsMessage::SignIn => {
            let client = match &st.oauth_client_id {
                Some(id) => if crate::text::is_blank(id.as_str()) {
                    None
                } else {
                    Some(id.clone())
                },
                None => None,
            };
            st.busy = true;
            st.status = Some(String::from_str("Opening your browser to sign in..."));
            ModelsEffect::Login(client)
        },
        ModelsMessage::TokenInput(t) => {
            st.token_input = t;
            ModelsEffect::Nothing
        },
        ModelsMessage::TokenSubmit => {
            let token = trimmed_string(st.token_input.as_str());
            if token.unicode_len() == 0 {
                ModelsEffect::Nothing
            } else {
                st.busy = true;
                st.token_input = String::new();
                st.status = Some(String::from_str("Checking your token..."));
                ModelsEffect::TokenLogin(token)
            }
        },
        ModelsMessage::SignedIn(Ok((user, token))) => {
            st.busy = false;
            st.token = Some(token);
            st.status = Some(line3("Signed in as ", user.as_str(), "."));
            st.username = Some(user);
            ModelsEffect::PersistAndRescan
        },
        ModelsMessage::SignedIn(Err(e)) => {
            st.busy = false;
            st.status = Some(line3("Sign-in failed: ", e.as_str(), ""));
            ModelsEffect::Nothing
        },
        ModelsMessage::SignOut => {
            st.token = None;
            st.username = None;
            st.status = Some(String::from_str("Signed out."));
            ModelsEffect::Persist
        },
        _ => ModelsEffect::Nothing,
    }
}

fn on_files(st: &mut ModelsState, m: ModelsMessage) -> (e: ModelsEffect)
    requires
        m is Download || m is Downloaded || m is DeleteModel || m is Deleted
            || m is AsrSelected || m is RefineSelected,
    ensures
        final(st)@ == models_next(old(st)@, m),
        models_effect_ok(old(st)@, m, e),
{
    proof {
        reveal_strlit("");
    }
    match m {
        ModelsMessage::Download(req) => match download_dir(&st.model_dirs, &st.default_dir) {
            Some(dir) => {
                let label = match &req {
                    DownloadRequest::Whisper(id) => id.clone(),
                    DownloadRequest::Llm(id) => id.clone(),
                    DownloadRequest::Gguf(_, file) => file.clone(),
                };
                st.busy = true;
                st.status = None;
                st.downloading = Some(label);
                ModelsEffect::Download(req, dir)
            },
            None => {
                st.status = Some(
                    String::from_str("Could not determine a models directory to download into."),
                );
                ModelsEffect::Nothing
            },
        },
        ModelsMessage::Downloaded(llm, r) => {
            st.busy = false;
            st.downloading = None;
            match r {
                Ok(path) => {
                    let mut line = String::from_str("Downloaded ");
                    let name = model_file_name(path.as_str());
                    push_str(&mut line, name.as_str());
                    push_str(&mut line, ". Select it in ");
                    push_str(
                        &mut line,
                        if llm {
                            "the Refiner list"
                        } else {
                            "the ASR list"
                        },
                    );
                    push_str(&mut line, " to use it.");
                    st.status = Some(line);
                    ModelsEffect::Rescan
                },
                Err(e) => {
                    st.status = Some(line3("Download failed: ", e.as_str(), ""));
                    ModelsEffect::Nothing
                },
            }
        },
        ModelsMessage::AsrSelected(o, name) => {
            let label = asr_option_text(&o, name.as_str());
            apply_asr(&mut st.models, &o);
            st.status = Some(line3("Now transcribing with ", label.as_str(), "."));
            ModelsEffect::Persist
        },
        ModelsMessage::RefineSelected(o, name) => {
            let label = refine_option_text(&o, name.as_str());
            apply_refine(&mut st.models, &o);
            st.status = Some(line3("Refiner set to ", label.as_str(), "."));
            ModelsEffect::Persist
        },
        ModelsMessage::DeleteModel(path) => {
            let name = model_file_name(path.as_str());
            st.busy = true;
            st.status = Some(line3("Deleting ", name.as_str(), "..."));
            ModelsEffect::Delete(path)
        },
        ModelsMessage::Deleted(Ok(path)) => {
            let name = model_file_name(path.as_str());
            st.busy = false;
            st.status = Some(line3("Deleted ", name.as_str(), "."));
            ModelsEffect::Rescan
        },
        ModelsMessage::Deleted(Err(e)) => {
            st.busy = false;
            st.status = Some(line3("Delete failed: ", e.as_str(), ""));
            ModelsEffect::Nothing
        },
        _ => ModelsEffect::Nothing,
    }
}

fn on_search(st: &mut ModelsState, m: ModelsMessage) -> (e: ModelsEffect)
    requires
        m is SearchInput || m is SearchSubmit || m is SearchFinished || m is SelectRepo
            || m is FilesListed,
    ensures
        final(st)@ == models_next(old(st)@, m),
        models_effect_ok(old(st)@, m, e),
{
    proof {
        reveal_strlit("");
    }
    match m {
        ModelsMessage::SearchInput(q) => {
            st.search.query = q;
            ModelsEffect::Nothing
        },
        ModelsMessage::SearchSubmit => {
            let q = trimmed_string(st.search.query.as_str());
            if q.unicode_len() == 0 {
                ModelsEffect::Nothing
            } else {
                st.search.busy = true;
                st.search.error = None;
                st.search.selected_repo = None;
                ModelsEffect::Search(q)
            }
        },
        ModelsMessage::SearchFinished(Ok(_)) => {
            st.search.busy = false;
            st.search.searched = true;
            ModelsEffect::Nothing
        },
        ModelsMessage::SearchFinished(Err(e)) => {
            st.search.busy = false;
            st.search.searched = true;
            st.search.error = Some(line3("Search failed: ", e.as_str(), ""));
            ModelsEffect::ClearResults
        },
        ModelsMessage::SelectRepo(repo) => {
            let open = match &st.search.selected_repo {
                Some(r) => str_eq(r.as_str(), repo.as_str()),
                None => false,
            };
            if open {
                st.search.selected_repo = None;
                ModelsEffect::CollapseFiles
            } else {
                st.search.selected_repo = Some(repo.clone());
                st.search.busy = true;
                st.search.error = None;
                ModelsEffect::ListFiles(repo)
            }
        },
        ModelsMessage::FilesListed(Ok(_)) => {
            st.search.busy = false;
            ModelsEffect::Nothing
        },
        ModelsMessage::FilesListed(Err(e)) => {
            st.search.busy = false;
            st.search.error = Some(line3("Could not list files: ", e.as_str(), ""));
            ModelsEffect::Nothing
        },
        _ => ModelsEffect::Nothing,
    }
}

fn remove_dir(dirs: &Vec<String>, dir: &str) -> (v: Vec<String>)
    ensures
        names_view(v@) == without_dir(names_view(dirs@), dir@),
{
    let mut v: Vec<String> = Vec::new();
    let mut i: usize = 0;
    while i < dirs.len()
        invariant
            i <= dirs.len(),
            names_view(v@) == without_dir(names_view(dirs@).take(i as int), dir@),
        decreases dirs.len() - i,
    {
        let ghost before = v@;
        let ghost pre = names_view(dirs@).take(i as int);
        assert(names_view(dirs@).take(i + 1) =~= pre.push(dirs@[i as int]@));
        proof {
            pre.lemma_filter_push(dirs@[i as int]@, |d: Seq<char>| d != dir@);
        }
        if !str_eq(dirs[i].as_str(), dir) {
            v.push(dirs[i].clone());
            assert(names_view(v@) =~= names_view(before).push(dirs@[i as int]@));
        } else {
            assert(names_view(v@) =~= names_view(before));
        }
        i += 1;
    }
    assert(names_view(dirs@).take(dirs.len() as int) =~= names_view(dirs@));
    v
}

fn on_dirs(st: &mut ModelsState, m: ModelsMessage) -> (e: ModelsEffect)
    requires
        m is ModelDirPicked || m is RemoveModelDir,
    ensures
        final(st)@ == models_next(old(st)@, m),
        models_effect_ok(old(st)@, m, e),
{
    match m {
        ModelsMessage::ModelDirPicked(Some(dir)) => {
            if contains_str(&st.model_dirs, dir.as_str()) {
                ModelsEffect::Nothing
            } else {
                let ghost before = st.model_dirs@;
                st.status = Some(line3("Scanning ", dir.as_str(), "..."));
                st.model_dirs.push(dir);
                assert(names_view(st.model_dirs@) =~= names_view(before).push(
                    st.model_dirs@.last()@,
                ));
                ModelsEffect::PersistAndRescan
            }
        },
        ModelsMessage::RemoveModelDir(dir) => {
            st.model_dirs = remove_dir(&st.model_dirs, dir.as_str());
            ModelsEffect::PersistAndRescan
        },
        _ => ModelsEffect::Nothing,
    }
}

/// Applies a Models-screen message and says what outside work follows.
pub fn update(state: &mut ModelsState, message: ModelsMessage) -> (e: ModelsEffect)
    ensures
        final(state)@ == models_next(old(state)@, message),
        models_effect_ok(old(state)@, message, e),
{
    match message {
        ModelsMessage::SignIn | ModelsMessage::TokenInput(_) | ModelsMessage::TokenSubmit
        | ModelsMessage::SignedIn(_) | ModelsMessage::SignOut => on_account(state, message),
        ModelsMessage::Download(_) | ModelsMessage::Downloaded(_, _) | ModelsMessage::DeleteModel(_)
        | ModelsMessage::Deleted(_) | ModelsMessage::AsrSelected(_, _)
        | ModelsMessage::RefineSelected(_, _) => on_files(state, message),
        ModelsMessage::SearchInput(_) | ModelsMessage::SearchSubmit
        | ModelsMessage::SearchFinished(_) | ModelsMessage::SelectRepo(_)
        | ModelsMessage::FilesListed(_) => on_search(state, message),
        ModelsMessage::ModelDirPicked(_) | ModelsMessage::RemoveModelDir(_) => on_dirs(
            state,
            message,
        ),
    }
}

/// A download always lands in a directory the Models screen scans.
pub proof fn downloads_land_in_a_scanned_dir(dirs: Seq<Seq<char>>, default: Option<Seq<char>>)
    ensures
        download_dir_of(dirs, default) matches Some(d) ==> effective_dirs_of(dirs, default).contains(d),
{
    if let Some(d) = download_dir_of(dirs, default) {
        if dirs.len() > 0 {
            assert(effective_dirs_of(dirs, default)[0] == dirs[0]);
        } else {
            assert(effective_dirs_of(dirs, default)[0] == d);
        }
    }
}

/// The scanned directories hold every user directory and the default one,
/// and adding the default never lists it twice.
pub proof fn the_default_dir_is_scanned_once(dirs: Seq<Seq<char>>, default: Option<Seq<char>>)
    ensures
        forall|d: Seq<char>| dirs.contains(d) ==> effective_dirs_of(dirs, default).contains(d),
        default matches Some(d) ==> effective_dirs_of(dirs, default).contains(d),
        default matches Some(d) && !dirs.contains(d) ==> effective_dirs_of(dirs, default).len()
            == dirs.len() + 1,
        default matches Some(d) && dirs.contains(d) ==> effective_dirs_of(dirs, default) == dirs,
{
    assert forall|d: Seq<char>| dirs.contains(d) implies effective_dirs_of(
        dirs,
        default,
    ).contains(d) by {
        let i = choose|i: int| 0 <= i < dirs.len() && dirs[i] == d;
        assert(effective_dirs_of(dirs, default)[i] == d);
    }
    if let Some(d) = default {
        if !dirs.contains(d) {
            assert(effective_dirs_of(dirs, default)[dirs.len() as int] == d);
        }
    }
}

/// A submitted token leaves the token field right away.
pub proof fn a_submitted_token_is_cleared(s: ModelsView)
    requires
        trim(s.token_input).len() > 0,
    ensures
        models_next(s, ModelsMessage::TokenSubmit).token_input.len() == 0,
        models_next(s, ModelsMessage::TokenSubmit).busy,
{
}

/// The status a Models screen opens with: a saved token reads as signed
/// in.
pub open spec fn initial_status(token: Option<Seq<char>>) -> Option<Seq<char>> {
    if token is Some {
        Some("Signed in with a saved token."@)
    } else {
        None
    }
}

impl ModelsState {
    /// The Models screen as the app opens: nothing in flight, and a status
    /// saying so when a token was saved earlier.
    pub fn new(
        models: ModelConfig,
        token: Option<String>,
        oauth_client_id: Option<String>,
        model_dirs: Vec<String>,
        default_dir: Option<String>,
    ) -> (st: Self)
        ensures
            st@.models == models@,
            st@.token == opt_view(token),
            st@.oauth_client_id == opt_view(oauth_client_id),
            st@.model_dirs == names_view(model_dirs@),
            st@.default_dir == opt_view(default_dir),
            st@.username is None,
            st@.status == initial_status(opt_view(token)),
            !st@.busy,
            st@.token_input.len() == 0,
            st@.downloading is None,
            st@.query.len() == 0,
            st@.selected_repo is None,
            !st@.search_busy,
            st@.search_error is None,
            !st@.searched,
    {
        let status = if token.is_some() {
            Some(String::from_str("Signed in with a saved token."))
        } else {
            None
        };
        ModelsState {
            models,
            token,
            oauth_client_id,
            model_dirs,
            default_dir,
            username: None,
            status,
            busy: false,
            token_input: String::new(),
            downloading: None,
            search: LlmSearch {
                query: String::new(),
                selected_repo: None,
                busy: false,
                error: None,
                searched: false,
            },
        }
    }
}

/// Signed in: a sign-in finished this session, or a token is saved.
pub fn is_signed_in(state: &ModelsState) -> (b: bool)
    ensures
        b == (state@.username is Some || state@.token is Some),
{
    state.username.is_some() || state.token.is_some()
}

/// The account line of a signed-in screen.
pub open spec fn account_line_of(username: Option<Seq<char>>) -> Seq<char> {
    match username {
        Some(name) => "Signed in as "@ + name + "."@,
        None => "Signed in with a saved token."@,
    }
}

/// The account line of a signed-in screen: who is signed in, or that a
/// saved token is in use.
pub fn account_line(state: &ModelsState) -> (l: String)
    ensures
        l@ == account_line_of(state@.username),
{
    match &state.username {
        Some(name) => line3("Signed in as ", name.as_str(), "."),
        None => String::from_str("Signed in with a saved token."),
    }
}

/// The line under the GGUF search: its error, else "searching" while a
/// search runs with no hits yet, else "no models" after a search that
/// found none.
pub open spec fn search_status_of(s: ModelsView, has_results: bool) -> Option<Seq<char>> {
    match s.search_error {
        Some(e) => Some(e),
        None => if s.search_busy && !has_results {
            Some("Searching HuggingFace..."@)
        } else if s.searched && !has_results {
            Some("No GGUF models found for that search."@)
        } else {
            None
        },
    }
}

/// The line under the GGUF search, given whether the last search left any
/// hits.
pub fn search_status_line(state: &ModelsState, has_results: bool) -> (l: Option<String>)
    ensures
        opt_view(l) == search_status_of(state@, has_results),
{
    if let Some(e) = &state.search.error {
        return Some(e.clone());
    }
    if state.search.busy && !has_results {
        return Some(String::from_str("Searching HuggingFace..."));
    }
    if state.search.searched && !has_results {
        return Some(String::from_str("No GGUF models found for that search."));
    }
    None
}

/// One row of the model-directory list: a path, and whether the user may
/// remove it (the default directory is always scanned, so it may not).
#[derive(Debug)]
pub struct DirRow {
    pub path: String,
    pub removable: bool,
}

/// The rows `dir_rows` lists: the default directory first (not removable),
/// then each user directory (removable).
pub open spec fn dir_rows_of(dirs: Seq<Seq<char>>, default: Option<Seq<char>>) -> Seq<
    (Seq<char>, bool),
> {
    let users = dirs.map_values(|d: Seq<char>| (d, true));
    match default {
        Some(d) => seq![(d, false)] + users,
        None => users,
    }
}

/// The model-directory list of the Models screen.
pub fn dir_rows(state: &ModelsState) -> (rows: Vec<DirRow>)
    ensures
        rows@.map_values(|r: DirRow| (r.path@, r.removable)) == dir_rows_of(
            state@.model_dirs,
            state@.default_dir,
        ),
{
    let mut rows: Vec<DirRow> = Vec::new();
    if let Some(d) = &state.default_dir {
        rows.push(DirRow { path: d.clone(), removable: false });
    }
    let ghost head = rows@.map_values(|r: DirRow| (r.path@, r.removable));
    let ghost users = state@.model_dirs.map_values(|d: Seq<char>| (d, true));
    let mut i: usize = 0;
    while i < state.model_dirs.len()
        invariant
            i <= state.model_dirs.len(),
            users == names_view(state.model_dirs@).map_values(|d: Seq<char>| (d, true)),
            rows@.map_values(|r: DirRow| (r.path@, r.removable)) == head + users.take(i as int),
        decreases state.model_dirs.len() - i,
    {
        let ghost before = rows@;
        let p = state.model_dirs[i].clone();
        rows.push(DirRow { path: p, removable: true });
        assert(users[i as int] == (state.model_dirs@[i as int]@, true));
        assert(rows@.map_values(|r: DirRow| (r.path@, r.removable)) =~= before.map_values(
            |r: DirRow| (r.path@, r.removable),
        ).push((state.model_dirs@[i as int]@, true)));
        i += 1;
        assert(rows@.map_values(|r: DirRow| (r.path@, r.removable)) =~= head + users.take(
            i as int,
        ));
    }
    assert(users.take(state.model_dirs.len() as int) =~= users);
    assert(rows@.map_values(|r: DirRow| (r.path@, r.removable)) =~= dir_rows_of(
        state@.model_dirs,
        state@.default_dir,
    ));
    rows
}

/// The label of a search hit's files toggle: Hide for the open repository,
/// Show otherwise.
pub fn repo_toggle_label(state: &ModelsState, repo: &str) -> (l: &'static str)
    ensures
        l@ == (if state@.selected_repo == Some(repo@) {
            "Hide files"@
        } else {
            "Show files"@
        }),
{
    let open = match &state.search.selected_repo {
        Some(r) => str_eq(r.as_str(), repo),
        None => false,
    };
    if open {
        "Hide files"
    } else {
        "Show files"
    }
}

/// What the open repository's file list shows in place of files: loading
/// while its listing runs, "none" once it came back empty, nothing when
/// there are files.
pub fn files_placeholder(state: &ModelsState, has_files: bool) -> (l: Option<&'static str>)
    ensures
        l == (if has_files {
            None
        } else if state@.search_busy {
            Some("Loading files...")
        } else {
            Some("No .gguf files in this repo.")
        }),
{
    if has_files {
        None
    } else if state.search.busy {
        Some("Loading files...")
    } else {
        Some("No .gguf files in this repo.")
    }
}

/// Picking a model directory never lists one twice.
pub proof fn a_picked_dir_is_listed_once(s: ModelsView, picked: Option<String>)
    requires
        no_repeats(s.model_dirs),
    ensures
        no_repeats(models_next(s, ModelsMessage::ModelDirPicked(picked)).model_dirs),
{
    if let Some(dir) = picked {
        if !s.model_dirs.contains(dir@) {
            lemma_push_keeps_no_repeats(s.model_dirs, dir@);
        }
    }
}

} // verus!
