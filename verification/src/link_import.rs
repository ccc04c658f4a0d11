//! The "Add from a link" dialog: its state, what each action does to it,
//! and the import plan a confirmed dialog hands to the importer.
//!
//! Times are whole seconds: the importer's fractional chapter starts are
//! truncated before they reach this module, as the `MM:SS` headings show
//! them.

use vstd::prelude::*;

use crate::note_desk::{mmss_label, secs_to_mmss, NoteHeading};
use crate::text::{
    chars_of, clone_opt, decimal, opt_view, push_decimal, push_str, string_from_chars, trim,
    trimmed,
};
use crate::labels::str_eq;

verus! {

/// A chapter of the resolved media.
#[derive(Debug)]
pub struct Chapter {
    pub title: String,
    pub start_secs: u64,
    pub end_secs: u64,
}

/// A caption track the media offers.
#[derive(Debug)]
pub struct CaptionTrack {
    /// The language code, such as `en`.
    pub code: String,
    /// A direct download URL, when the source gives one.
    pub url: Option<String>,
    /// The file extension of that download.
    pub ext: Option<String>,
}

/// A [`CaptionTrack`] as plain values: code, URL, extension.
pub struct TrackView {
    pub code: Seq<char>,
    pub url: Option<Seq<char>>,
    pub ext: Option<Seq<char>>,
}

impl View for CaptionTrack {
    type V = TrackView;

    open spec fn view(&self) -> TrackView {
        TrackView { code: self.code@, url: opt_view(self.url), ext: opt_view(self.ext) }
    }
}

/// A copy of a caption track.
pub fn copy_track(t: &CaptionTrack) -> (c: CaptionTrack)
    ensures
        c@ == t@,
{
    CaptionTrack { code: t.code.clone(), url: clone_opt(&t.url), ext: clone_opt(&t.ext) }
}

/// What resolving a link found out about the media.
#[derive(Debug)]
pub struct MediaInfo {
    pub title: String,
    pub chapters: Vec<Chapter>,
    /// Captions written by people.
    pub human_captions: Vec<CaptionTrack>,
    /// Captions the source generated.
    pub auto_captions: Vec<CaptionTrack>,
    /// The thumbnail's URL, if any.
    pub thumbnail: Option<String>,
}

/// The dialog's state.
#[derive(Debug)]
pub struct LinkImport {
    /// The URL field as typed.
    pub url: String,
    /// A resolve is in flight.
    pub resolving: bool,
    /// The resolved media, once a resolve succeeded.
    pub media: Option<MediaInfo>,
    /// The last error, shown in the dialog.
    pub error: Option<String>,
    /// Import published captions (`true`) or transcribe locally.
    pub use_captions: bool,
    /// The caption language the captions path would use.
    pub caption_lang: Option<String>,
    /// Per chapter: keep it as a note heading.
    pub chapters_included: Vec<bool>,
    /// The "clip from" field as typed.
    pub clip_start: String,
    /// The "clip to" field as typed.
    pub clip_end: String,
    /// The status shown while an import runs.
    pub importing: Option<String>,
    /// The importer's progress, 0 to 100.
    pub import_progress: Option<u8>,
}

/// A [`LinkImport`] as plain values.
#[verifier::ext_equal]
pub struct LinkView {
    pub url: Seq<char>,
    pub resolving: bool,
    pub media: Option<MediaInfo>,
    pub error: Option<Seq<char>>,
    pub use_captions: bool,
    pub caption_lang: Option<Seq<char>>,
    pub chapters_included: Seq<bool>,
    pub clip_start: Seq<char>,
    pub clip_end: Seq<char>,
    pub importing: Option<Seq<char>>,
    pub import_progress: Option<u8>,
}

impl View for LinkImport {
    type V = LinkView;

    open spec fn view(&self) -> LinkView {
        LinkView {
            url: self.url@,
            resolving: self.resolving,
            media: self.media,
            error: opt_view(self.error),
            use_captions: self.use_captions,
            caption_lang: opt_view(self.caption_lang),
            chapters_included: self.chapters_included@,
            clip_start: self.clip_start@,
            clip_end: self.clip_end@,
            importing: opt_view(self.importing),
            import_progress: self.import_progress,
        }
    }
}

/// A freshly opened dialog: every field empty.
pub open spec fn empty_dialog() -> LinkView {
    LinkView {
        url: Seq::empty(),
        resolving: false,
        media: None,
        error: None,
        use_captions: false,
        caption_lang: None,
        chapters_included: Seq::empty(),
        clip_start: Seq::empty(),
        clip_end: Seq::empty(),
        importing: None,
        import_progress: None,
    }
}

impl LinkImport {
    /// A freshly opened, empty dialog.
    pub fn new() -> (li: Self)
        ensures
            li@ == empty_dialog(),
    {
        let li = LinkImport {
            url: String::new(),
            resolving: false,
            media: None,
            error: None,
            use_captions: false,
            caption_lang: None,
            chapters_included: Vec::new(),
            clip_start: String::new(),
            clip_end: String::new(),
            importing: None,
            import_progress: None,
        };
        assert(li@ =~= empty_dialog());
        li
    }
}

/// The track an import defaults to: the first human caption, else the
/// first generated one.
pub open spec fn default_track(m: MediaInfo) -> Option<CaptionTrack> {
    if m.human_captions@.len() > 0 {
        Some(m.human_captions@[0])
    } else if m.auto_captions@.len() > 0 {
        Some(m.auto_captions@[0])
    } else {
        None
    }
}

/// The dialog after a resolve finished with `r`.
pub open spec fn resolved(li: LinkView, r: Result<MediaInfo, String>) -> LinkView {
    match r {
        Ok(m) => LinkView {
            resolving: false,
            chapters_included: Seq::new(m.chapters@.len(), |i: int| true),
            use_captions: default_track(m) is Some,
            caption_lang: match default_track(m) {
                Some(t) => Some(t.code@),
                None => None,
            },
            error: None,
            media: Some(m),
            ..li
        },
        Err(e) => LinkView { resolving: false, error: Some(e@), media: None, ..li },
    }
}

/// Folds a finished resolve into the dialog: on success it stores the
/// media, keeps every chapter, and defaults to the captions path whenever a
/// caption track exists (human first, else generated); on failure it
/// records the error and drops the media.
pub fn apply_resolved(li: &mut LinkImport, r: Result<MediaInfo, String>)
    ensures
        final(li)@ == resolved(old(li)@, r),
{
    let ghost before = li@;
    let ghost rv = r;
    li.resolving = false;
    match r {
        Ok(media) => {
            let n = media.chapters.len();
            let mut flags: Vec<bool> = Vec::new();
            let mut i: usize = 0;
            while i < n
                invariant
                    i <= n,
                    flags@ == Seq::new(i as nat, |j: int| true),
                decreases n - i,
            {
                flags.push(true);
                i += 1;
                assert(flags@ =~= Seq::new(i as nat, |j: int| true));
            }
            li.chapters_included = flags;
            let lang = if media.human_captions.len() > 0 {
                Some(media.human_captions[0].code.clone())
            } else if media.auto_captions.len() > 0 {
                Some(media.auto_captions[0].code.clone())
            } else {
                None
            };
            li.use_captions = lang.is_some();
            li.caption_lang = lang;
            li.error = None;
            li.media = Some(media);
        },
        Err(e) => {
            li.error = Some(e);
            li.media = None;
        },
    }
    assert(li@ =~= resolved(before, rv));
}

/// What a confirmed import needs to run.
#[derive(Debug)]
pub struct ImportPlan {
    /// The trimmed URL.
    pub url: String,
    /// Fetch captions (`true`) or download and transcribe the audio.
    pub use_captions: bool,
    /// The note desk's title: the media title.
    pub title: String,
    /// The kept chapters, as note headings.
    pub headings: Vec<NoteHeading>,
    /// The chosen caption language.
    pub caption_lang: Option<String>,
    /// The track of that language, human captions searched first, for its
    /// direct URL.
    pub selected_track: Option<CaptionTrack>,
    /// The chosen language is one of the human caption tracks.
    pub human_track_selected: bool,
}

/// Whether chapter `i` is kept: its flag, or kept when it has none.
pub open spec fn chapter_kept(included: Seq<bool>, i: int) -> bool {
    if i < included.len() {
        included[i]
    } else {
        true
    }
}

/// The headings the first `n` chapters contribute: each kept one as its
/// `MM:SS` start and title.
pub open spec fn kept_headings(chapters: Seq<Chapter>, included: Seq<bool>, n: int) -> Seq<
    (Seq<char>, Seq<char>),
>
    decreases n,
{
    if n <= 0 {
        Seq::empty()
    } else {
        let before = kept_headings(chapters, included, n - 1);
        if chapter_kept(included, n - 1) {
            before.push(
                (mmss_label(chapters[n - 1].start_secs as nat), chapters[n - 1].title@),
            )
        } else {
            before
        }
    }
}

/// The first track in `tracks` whose code is `code`.
pub open spec fn first_with_code(tracks: Seq<CaptionTrack>, code: Seq<char>) -> Option<
    CaptionTrack,
>
    decreases tracks.len(),
{
    if tracks.len() == 0 {
        None
    } else if tracks[0].code@ == code {
        Some(tracks[0])
    } else {
        first_with_code(tracks.drop_first(), code)
    }
}

/// Some track in `tracks` has code `code`.
pub open spec fn has_code(tracks: Seq<CaptionTrack>, code: Seq<char>) -> bool {
    exists|i: int| 0 <= i < tracks.len() && (#[trigger] tracks[i]).code@ == code
}

/// The status an import shows while it runs.
pub open spec fn importing_status(use_captions: bool) -> Seq<char> {
    if use_captions {
        "Fetching captions\u{2026}"@
    } else {
        "Downloading audio + transcribing\u{2026}"@
    }
}

/// A confirmed import can start: the link resolved and the URL is not
/// blank.
pub open spec fn can_import(li: LinkView) -> bool {
    li.media is Some && trim(li.url).len() > 0
}

fn find_track(tracks: &Vec<CaptionTrack>, code: &str) -> (r: Option<usize>)
    ensures
        match r {
            Some(i) => i < tracks@.len() && tracks@[i as int].code@ == code@ && forall|j: int|
                0 <= j < i ==> (#[trigger] tracks@[j]).code@ != code@,
            None => !has_code(tracks@, code@),
        },
{
    let mut i: usize = 0;
    while i < tracks.len()
        invariant
            i <= tracks.len(),
            forall|j: int| 0 <= j < i ==> (#[trigger] tracks@[j]).code@ != code@,
        decreases tracks.len() - i,
    {
        if str_eq(tracks[i].code.as_str(), code) {
            return Some(i);
        }
        i += 1;
    }
    None
}

proof fn lemma_first_with_code(tracks: Seq<CaptionTrack>, code: Seq<char>, i: int)
    requires
        0 <= i < tracks.len(),
        tracks[i].code@ == code,
        forall|j: int| 0 <= j < i ==> (#[trigger] tracks[j]).code@ != code,
    ensures
        first_with_code(tracks, code) == Some(tracks[i]),
    decreases i,
{
    if i > 0 {
        let rest = tracks.drop_first();
        assert forall|j: int| 0 <= j < i - 1 implies (#[trigger] rest[j]).code@ != code by {
            assert(rest[j] == tracks[j + 1]);
        }
        lemma_first_with_code(rest, code, i - 1);
    }
}

proof fn lemma_first_with_code_none(tracks: Seq<CaptionTrack>, code: Seq<char>)
    requires
        !has_code(tracks, code),
    ensures
        first_with_code(tracks, code) is None,
    decreases tracks.len(),
{
    if tracks.len() > 0 {
        assert(tracks[0].code@ != code);
        let rest = tracks.drop_first();
        if has_code(rest, code) {
            let j = choose|j: int| 0 <= j < rest.len() && (#[trigger] rest[j]).code@ == code;
            assert(tracks[j + 1] == rest[j]);
        }
        lemma_first_with_code_none(rest, code);
    }
}

/// The plan for a confirmed import and the dialog while it runs; `None`
/// (dialog unchanged) when it cannot start.
pub open spec fn import_started(li: LinkView) -> LinkView {
    LinkView {
        error: None,
        import_progress: None,
        importing: Some(importing_status(li.use_captions)),
        ..li
    }
}

/// `p` is the import a confirmed dialog `li` asks for: its trimmed URL,
/// chosen path, the media title, the kept chapters as headings, the chosen
/// caption language, that language's track (human captions searched first)
/// and whether it is a human track.
pub open spec fn plan_ok(li: LinkView, p: ImportPlan) -> bool {
    let m = li.media->0;
    &&& p.url@ == trim(li.url)
    &&& p.use_captions == li.use_captions
    &&& p.title@ == m.title@
    &&& p.headings@.map_values(|h: NoteHeading| h@) == kept_headings(
        m.chapters@,
        li.chapters_included,
        m.chapters@.len() as int,
    )
    &&& opt_view(p.caption_lang) == li.caption_lang
    &&& p.human_track_selected == match li.caption_lang {
        Some(code) => has_code(m.human_captions@, code),
        None => false,
    }
    &&& match li.caption_lang {
        Some(code) => match first_with_code(m.human_captions@ + m.auto_captions@, code) {
            Some(t) => p.selected_track matches Some(s) && s@ == t@,
            None => p.selected_track is None,
        },
        None => p.selected_track is None,
    }
}

/// Starts a confirmed import: when the link has resolved and the URL is
/// not blank, marks the dialog as importing and returns what the importer
/// needs; otherwise leaves the dialog as it is and returns `None`.
pub fn start_import(li: &mut LinkImport) -> (plan: Option<ImportPlan>)
    ensures
        plan is Some <==> can_import(old(li)@),
        plan is Some ==> final(li)@ == import_started(old(li)@),
        plan is None ==> final(li)@ == old(li)@,
        plan matches Some(p) ==> plan_ok(old(li)@, p),
{
    let ghost before = li@;
    let url = string_from_chars(&trimmed(&chars_of(li.url.as_str())));
    if url.unicode_len() == 0 {
        return None;
    }
    let plan = match &li.media {
        None => {
            return None;
        },
        Some(media) => {
            let n = media.chapters.len();
            let mut headings: Vec<NoteHeading> = Vec::new();
            let mut i: usize = 0;
            while i < n
                invariant
                    n == media.chapters@.len(),
                    i <= n,
                    headings@.map_values(|h: NoteHeading| h@) == kept_headings(
                        media.chapters@,
                        li.chapters_included@,
                        i as int,
                    ),
                decreases n - i,
            {
                let kept = if i < li.chapters_included.len() {
                    li.chapters_included[i]
                } else {
                    true
                };
                if kept {
                    let ch = &media.chapters[i];
                    headings.push(
                        NoteHeading {
                            time_label: secs_to_mmss(ch.start_secs),
                            title: ch.title.clone(),
                        },
                    );
                }
                i += 1;
                assert(headings@.map_values(|h: NoteHeading| h@) =~= kept_headings(
                    media.chapters@,
                    li.chapters_included@,
                    i as int,
                ));
            }
            let (selected_track, human_track_selected) = match &li.caption_lang {
                None => (None, false),
                Some(code) => {
                    let ghost all = media.human_captions@ + media.auto_captions@;
                    let in_human = find_track(&media.human_captions, code.as_str());
                    match in_human {
                        Some(k) => {
                            proof {
                                assert forall|j: int| 0 <= j < k implies (#[trigger] all[j]).code@
                                    != code@ by {
                                    assert(all[j] == media.human_captions@[j]);
                                }
                                assert(all[k as int] == media.human_captions@[k as int]);
                                lemma_first_with_code(all, code@, k as int);
                            }
                            (Some(copy_track(&media.human_captions[k])), true)
                        },
                        None => {
                            let in_auto = find_track(&media.auto_captions, code.as_str());
                            let h = media.human_captions.len();
                            match in_auto {
                                Some(k) => {
                                    proof {
                                        assert forall|j: int| 0 <= j < h + k implies (
                                        #[trigger] all[j]).code@ != code@ by {
                                            if j < h {
                                                assert(all[j] == media.human_captions@[j]);
                                            } else {
                                                assert(all[j] == media.auto_captions@[j - h]);
                                            }
                                        }
                                        assert(all[h + k] == media.auto_captions@[k as int]);
                                        lemma_first_with_code(all, code@, h + k);
                                    }
                                    (Some(copy_track(&media.auto_captions[k])), false)
                                },
                                None => {
                                    proof {
                                        if has_code(all, code@) {
                                            let j = choose|j: int|
                                                0 <= j < all.len() && (#[trigger] all[j]).code@
                                                    == code@;
                                            if j < h {
                                                assert(all[j] == media.human_captions@[j]);
                                            } else {
                                                assert(all[j] == media.auto_captions@[j - h]);
                                            }
                                        }
                                        lemma_first_with_code_none(all, code@);
                                    }
                                    (None, false)
                                },
                            }
                        },
                    }
                },
            };
            ImportPlan {
                url,
                use_captions: li.use_captions,
                title: media.title.clone(),
                headings,
                caption_lang: clone_opt(&li.caption_lang),
                selected_track,
                human_track_selected,
            }
        },
    };
    li.error = None;
    li.import_progress = None;
    li.importing = Some(
        if li.use_captions {
            String::from_str("Fetching captions\u{2026}")
        } else {
            String::from_str("Downloading audio + transcribing\u{2026}")
        },
    );
    assert(li@ =~= import_started(before));
    Some(plan)
}

/// The status while the importer reports progress: downloading the audio,
/// or transcribing it.
pub open spec fn progress_status(downloading: bool) -> Seq<char> {
    if downloading {
        "Downloading audio\u{2026}"@
    } else {
        "Transcribing\u{2026}"@
    }
}

/// What happened in the dialog.
#[derive(Debug)]
pub enum LinkMessage {
    /// "Add from a link" was clicked.
    Open,
    /// Cancel was clicked.
    Cancel,
    /// Escape was pressed while the dialog is up.
    EscapePressed,
    /// The URL field changed.
    Url(String),
    /// Resolve was clicked.
    Resolve,
    /// A resolve finished.
    Resolved(Result<MediaInfo, String>),
    /// The captions / transcribe choice changed.
    UseCaptions(bool),
    /// A chapter's "keep" box was clicked.
    ToggleChapter(usize),
    /// The "clip from" field changed.
    ClipStart(String),
    /// The "clip to" field changed.
    ClipEnd(String),
    /// Import was clicked.
    Confirm,
    /// "Transcribe to Dictate" was clicked.
    TranscribeToDictate,
    /// The import finished: the desk was built, or it failed.
    Imported(Result<(), String>),
    /// The importer reported progress: downloading (else transcribing),
    /// percent.
    Progress(bool, u8),
}

/// The outside work the dialog asks for.
#[derive(Debug)]
pub enum LinkEffect {
    Nothing,
    /// Resolve this URL.
    Resolve(String),
    /// Download the thumbnail at this URL.
    FetchThumbnail(String),
    /// Run this import.
    Import(ImportPlan),
    /// Transcribe this URL onto the Dictate screen; the title is for the
    /// status line.
    TranscribeToDictate(String, String),
}

/// The dialog after message `m` (the import plan aside).
pub open spec fn link_next(d: Option<LinkView>, m: LinkMessage) -> Option<LinkView> {
    match m {
        LinkMessage::Open => Some(empty_dialog()),
        LinkMessage::Cancel => None,
        LinkMessage::EscapePressed => None,
        _ => match d {
            None => None,
            Some(li) => match m {
                LinkMessage::Url(u) => Some(LinkView { url: u@, ..li }),
                LinkMessage::Resolve => if trim(li.url).len() > 0 {
                    Some(LinkView { resolving: true, error: None, ..li })
                } else {
                    Some(li)
                },
                LinkMessage::Resolved(r) => Some(resolved(li, r)),
                LinkMessage::UseCaptions(b) => Some(LinkView { use_captions: b, ..li }),
                LinkMessage::ToggleChapter(i) => if i < li.chapters_included.len() {
                    Some(
                        LinkView {
                            chapters_included: li.chapters_included.update(
                                i as int,
                                !li.chapters_included[i as int],
                            ),
                            ..li
                        },
                    )
                } else {
                    Some(li)
                },
                LinkMessage::ClipStart(v) => Some(LinkView { clip_start: v@, ..li }),
                LinkMessage::ClipEnd(v) => Some(LinkView { clip_end: v@, ..li }),
                LinkMessage::Confirm => if can_import(li) {
                    Some(import_started(li))
                } else {
                    Some(li)
                },
                LinkMessage::TranscribeToDictate => if can_import(li) {
                    None
                } else {
                    Some(li)
                },
                LinkMessage::Imported(r) => match r {
                    Ok(_) => None,
                    Err(e) => Some(
                        LinkView { error: Some(e@), importing: None, import_progress: None, ..li },
                    ),
                },
                LinkMessage::Progress(downloading, percent) => Some(
                    LinkView {
                        import_progress: Some(percent),
                        importing: Some(progress_status(downloading)),
                        ..li
                    },
                ),
                _ => Some(li),
            },
        },
    }
}

/// The dialog as plain values.
pub open spec fn dialog_view(d: Option<LinkImport>) -> Option<LinkView> {
    match d {
        Some(li) => Some(li@),
        None => None,
    }
}

/// Whether `e` is the outside work message `m` asks for in dialog `d`.
pub open spec fn link_effect_ok(d: Option<LinkView>, m: LinkMessage, e: LinkEffect) -> bool {
    match d {
        Some(li) => match m {
            LinkMessage::Resolve => if trim(li.url).len() > 0 {
                e matches LinkEffect::Resolve(u) && u@ == trim(li.url)
            } else {
                e is Nothing
            },
            LinkMessage::Resolved(r) => match r {
                Ok(media) => match media.thumbnail {
                    Some(t) => e matches LinkEffect::FetchThumbnail(u) && u@ == t@,
                    None => e is Nothing,
                },
                Err(_) => e is Nothing,
            },
            LinkMessage::Confirm => if can_import(li) {
                e matches LinkEffect::Import(p) && plan_ok(li, p)
            } else {
                e is Nothing
            },
            LinkMessage::TranscribeToDictate => if can_import(li) {
                e matches LinkEffect::TranscribeToDictate(u, t) && u@ == trim(li.url) && t@
                    == li.media->0.title@
            } else {
                e is Nothing
            },
            LinkMessage::Open | LinkMessage::Cancel | LinkMessage::EscapePressed | LinkMessage::Url(
                _,
            ) | LinkMessage::UseCaptions(_) | LinkMessage::ToggleChapter(_)
            | LinkMessage::ClipStart(_) | LinkMessage::ClipEnd(_) | LinkMessage::Imported(_)
            | LinkMessage::Progress(_, _) => e is Nothing,
        },
        None => e is Nothing,
    }
}

/// Handles a dialog message: updates the dialog (`None` is closed) and says
/// what outside work follows. A confirmed import's plan is the one
/// [`start_import`] describes.
pub fn update(dialog: &mut Option<LinkImport>, message: LinkMessage) -> (e: LinkEffect)
    ensures
        dialog_view(*final(dialog)) == link_next(dialog_view(*old(dialog)), message),
        link_effect_ok(dialog_view(*old(dialog)), message, e),
{
    let ghost d0 = dialog_view(*dialog);
    match message {
        LinkMessage::Open => {
            *dialog = Some(LinkImport::new());
            return LinkEffect::Nothing;
        },
        LinkMessage::Cancel | LinkMessage::EscapePressed => {
            *dialog = None;
            return LinkEffect::Nothing;
        },
        _ => {},
    }
    let li = match dialog {
        Some(li) => li,
        None => {
            return LinkEffect::Nothing;
        },
    };
    match message {
        LinkMessage::Url(u) => {
            li.url = u;
            LinkEffect::Nothing
        },
        LinkMessage::Resolve => {
            let url = string_from_chars(&trimmed(&chars_of(li.url.as_str())));
            if url.unicode_len() == 0 {
                LinkEffect::Nothing
            } else {
                li.resolving = true;
                li.error = None;
                LinkEffect::Resolve(url)
            }
        },
        LinkMessage::Resolved(r) => {
            let thumb = match &r {
                Ok(media) => clone_opt(&media.thumbnail),
                Err(_) => None,
            };
            apply_resolved(li, r);
            match thumb {
                Some(t) => LinkEffect::FetchThumbnail(t),
                None => LinkEffect::Nothing,
            }
        },
        LinkMessage::UseCaptions(b) => {
            li.use_captions = b;
            LinkEffect::Nothing
        },
        LinkMessage::ToggleChapter(i) => {
            if i < li.chapters_included.len() {
                let flag = li.chapters_included[i];
                li.chapters_included.set(i, !flag);
            }
            LinkEffect::Nothing
        },
        LinkMessage::ClipStart(v) => {
            li.clip_start = v;
            LinkEffect::Nothing
        },
        LinkMessage::ClipEnd(v) => {
            li.clip_end = v;
            LinkEffect::Nothing
        },
        LinkMessage::Confirm => match start_import(li) {
            Some(plan) => LinkEffect::Import(plan),
            None => LinkEffect::Nothing,
        },
        LinkMessage::TranscribeToDictate => {
            let url = string_from_chars(&trimmed(&chars_of(li.url.as_str())));
            let title = match &li.media {
                Some(media) => media.title.clone(),
                None => {
                    return LinkEffect::Nothing;
                },
            };
            if url.unicode_len() == 0 {
                LinkEffect::Nothing
            } else {
                *dialog = None;
                LinkEffect::TranscribeToDictate(url, title)
            }
        },
        LinkMessage::Imported(r) => match r {
            Ok(_) => {
                *dialog = None;
                LinkEffect::Nothing
            },
            Err(e) => {
                li.error = Some(e);
                li.importing = None;
                li.import_progress = None;
                LinkEffect::Nothing
            },
        },
        LinkMessage::Progress(downloading, percent) => {
            li.import_progress = Some(percent);
            li.importing = Some(
                if downloading {
                    String::from_str("Downloading audio\u{2026}")
                } else {
                    String::from_str("Transcribing\u{2026}")
                },
            );
            LinkEffect::Nothing
        },
        _ => LinkEffect::Nothing,
    }
}

/// The path the user picks is the path the import takes: after choosing
/// captions or transcription in an open dialog, the dialog holds that
/// choice (and the link, media, chapters and language as they were), it
/// can start an import exactly when it could before, and a confirmed
/// import then fetches captions exactly when captions were chosen.
pub proof fn the_chosen_path_is_imported(li: LinkView, b: bool, e: LinkEffect)
    ensures
        link_next(Some(li), LinkMessage::UseCaptions(b)) matches Some(n) && {
            &&& n.use_captions == b
            &&& n.url == li.url
            &&& n.media == li.media
            &&& n.chapters_included == li.chapters_included
            &&& n.caption_lang == li.caption_lang
            &&& can_import(n) == can_import(li)
            &&& (can_import(n) && link_effect_ok(Some(n), LinkMessage::Confirm, e)) ==> (e matches LinkEffect::Import(
                p,
            ) && p.use_captions == b)
        },
{
}

/// Clicking a chapter's box twice leaves the dialog as it was.
pub proof fn toggling_a_chapter_twice_restores_it(li: LinkView, i: usize)
    ensures
        link_next(link_next(Some(li), LinkMessage::ToggleChapter(i)), LinkMessage::ToggleChapter(i))
            == Some(li),
{
    let once = link_next(Some(li), LinkMessage::ToggleChapter(i));
    if i < li.chapters_included.len() {
        let t = once->0;
        assert(t.chapters_included.update(i as int, !t.chapters_included[i as int])
            =~= li.chapters_included);
        assert(link_next(once, LinkMessage::ToggleChapter(i))->0 =~= li);
    }
}

/// A resolved link keeps every chapter and takes the captions path exactly
/// when the media has a caption track; a failed one keeps no media.
pub proof fn a_resolve_keeps_every_chapter(li: LinkView, r: Result<MediaInfo, String>)
    ensures
        r matches Ok(m) ==> {
            let n = resolved(li, r);
            &&& n.chapters_included.len() == m.chapters@.len()
            &&& forall|i: int| 0 <= i < n.chapters_included.len() ==> n.chapters_included[i]
            &&& n.use_captions == (m.human_captions@.len() > 0 || m.auto_captions@.len() > 0)
        },
        r is Err ==> resolved(li, r).media is None && resolved(li, r).error is Some,
        !resolved(li, r).resolving,
{
}

/// The privacy line the dialog's footer shows while no import runs.
pub const PRIVACY_NOTE: &'static str =
    "Downloads audio only and deletes it after transcribing \u{2014} change in Settings \u{2192} Privacy.";

/// What the dialog's footer shows.
#[derive(Debug)]
pub struct DialogFooter {
    /// The note left of the buttons: the import's phase (with its percent
    /// once known), or the privacy line.
    pub note: String,
    /// The note is a live import status (shown in the accent colour).
    pub live: bool,
    /// The progress bar's percent, once the importer reports one.
    pub progress: Option<u8>,
    /// "Transcribe to Dictate" can be clicked.
    pub can_transcribe: bool,
    /// The confirm button can be clicked.
    pub can_confirm: bool,
    /// The confirm button's label.
    pub confirm_label: &'static str,
}

/// The footer note for `li`.
pub open spec fn footer_note_of(li: LinkView) -> Seq<char> {
    match li.importing {
        Some(phase) => match li.import_progress {
            Some(p) => phase + "  \u{b7}  "@ + decimal(p as nat) + "%"@,
            None => phase,
        },
        None => PRIVACY_NOTE@,
    }
}

/// The footer for `li`: while an import runs its phase (and percent) and
/// disabled actions; otherwise the privacy line, with the actions offered
/// once the link has resolved.
pub fn dialog_footer(li: &LinkImport) -> (f: DialogFooter)
    ensures
        f.note@ == footer_note_of(li@),
        f.live == li@.importing is Some,
        f.progress == (if li@.importing is Some {
            li@.import_progress
        } else {
            None
        }),
        f.can_transcribe == (li@.media is Some && li@.importing is None),
        f.can_confirm == (li@.media is Some && li@.importing is None),
        f.confirm_label@ == (if li@.importing is Some {
            "Importing\u{2026}"@
        } else {
            "Open note desk \u{2192}"@
        }),
{
    let importing = li.importing.is_some();
    let (note, progress) = match &li.importing {
        Some(phase) => match li.import_progress {
            Some(p) => {
                let mut note = phase.clone();
                push_str(&mut note, "  \u{b7}  ");
                push_decimal(&mut note, p as u64);
                push_str(&mut note, "%");
                (note, Some(p))
            },
            None => (phase.clone(), None),
        },
        None => (String::from_str(PRIVACY_NOTE), None),
    };
    let ready = li.media.is_some() && !importing;
    DialogFooter {
        note,
        live: importing,
        progress,
        can_transcribe: ready,
        can_confirm: ready,
        confirm_label: if importing {
            "Importing\u{2026}"
        } else {
            "Open note desk \u{2192}"
        },
    }
}

} // verus!
