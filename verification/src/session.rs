//! The whole running Hub: its screens' states together, and the one entry
//! point that hands each message to the handler it belongs to. A confirmed
//! link import also marks the Hub as importing, a link sent to Dictate
//! switches the Hub there, and a finished import opens the note desk and
//! asks for a history entry.

use vstd::prelude::*;

use crate::hub::{self, hub_effect, hub_next, HubEffect, HubMessage, HubState};
use crate::link_import::{
    self, dialog_view, link_effect_ok, link_next, LinkEffect, LinkImport, LinkMessage,
};
use crate::models::{self, models_effect_ok, models_next, ModelsEffect, ModelsMessage, ModelsState};
use crate::note_desk::{
    self, desk_after, desk_view, export_job_ok, import_rows, DeskMessage, ExportJob,
    NoteDeskState, NoteHeading, Transcript, TranscriptFilter,
};
use crate::text::{push, push_str};

verus! {

/// Every screen's state.
#[derive(Debug)]
pub struct Session {
    pub hub: HubState,
    /// The link dialog, when open.
    pub dialog: Option<LinkImport>,
    /// The note desk, when open.
    pub desk: Option<NoteDeskState>,
    pub models: ModelsState,
}

impl Session {
    /// The Hub's drafts are well formed.
    pub open spec fn wf(&self) -> bool {
        self.hub.wf()
    }
}

/// What a finished link import brings: the desk's title, the kept chapter
/// headings, and the transcript.
#[derive(Debug)]
pub struct ImportedNote {
    pub title: String,
    pub headings: Vec<NoteHeading>,
    pub transcript: Transcript,
}

/// A history entry to record: its text and, when known, how long the
/// recording ran, in milliseconds.
#[derive(Debug)]
pub struct HistoryRecord {
    pub text: String,
    pub duration_ms: Option<u64>,
}

/// A message for one of the screens, or a finished link import.
#[derive(Debug)]
pub enum SessionMessage {
    Hub(HubMessage),
    Link(LinkMessage),
    Desk(DeskMessage),
    Models(ModelsMessage),
    /// A link import finished: what it brought, or the error.
    Imported(Result<ImportedNote, String>),
}

/// The outside work a message asks for.
#[derive(Debug)]
pub enum SessionEffect {
    Hub(HubEffect),
    Link(LinkEffect),
    /// The export to save, if one started.
    Desk(Option<ExportJob>),
    Models(ModelsEffect),
    /// Record this entry in the history.
    Record(HistoryRecord),
    Nothing,
}

/// The history entry an import records: the title, a line break, the
/// transcript's text; timed by the end of its last segment.
pub open spec fn import_record_ok(note: ImportedNote, r: HistoryRecord) -> bool {
    &&& r.text@ == note.title@ + seq!['\n'] + note.transcript.text@
    &&& r.duration_ms == if note.transcript.segments@.len() > 0 {
        Some(note.transcript.segments@.last().end_ms)
    } else {
        None::<u64>
    }
}

/// The Hub after a dialog message that produced effect `e`: importing once
/// an import starts, on Dictate once a link goes there, unchanged
/// otherwise.
pub open spec fn hub_after_link(h: hub::HubView, e: LinkEffect) -> hub::HubView {
    match e {
        LinkEffect::Import(_) => hub_next(h, HubMessage::ImportStarted),
        LinkEffect::TranscribeToDictate(_, title) => hub_next(
            h,
            HubMessage::LinkTranscribeStarted(title),
        ),
        _ => h,
    }
}

/// Hands `message` to the screen it belongs to and says what outside work
/// follows. Each handler changes only its own screen, except where the
/// link dialog's work shows on the Hub and where a finished import opens
/// the desk.
pub fn update(s: &mut Session, message: SessionMessage) -> (e: SessionEffect)
    requires
        old(s).wf(),
    ensures
        final(s).wf(),
        match message {
            SessionMessage::Hub(m) => {
                &&& final(s).hub@ == hub_next(old(s).hub@, m)
                &&& e matches SessionEffect::Hub(h) && h@ == hub_effect(old(s).hub@, m)
                &&& dialog_view(final(s).dialog) == dialog_view(old(s).dialog)
                &&& desk_view(final(s).desk) == desk_view(old(s).desk)
                &&& final(s).models@ == old(s).models@
            },
            SessionMessage::Link(m) => {
                &&& dialog_view(final(s).dialog) == link_next(dialog_view(old(s).dialog), m)
                &&& e matches SessionEffect::Link(l) && link_effect_ok(
                    dialog_view(old(s).dialog),
                    m,
                    l,
                ) && final(s).hub@ == hub_after_link(old(s).hub@, l)
                &&& desk_view(final(s).desk) == desk_view(old(s).desk)
                &&& final(s).models@ == old(s).models@
            },
            SessionMessage::Desk(m) => {
                &&& desk_view(final(s).desk) == desk_after(desk_view(old(s).desk), m)
                &&& e matches SessionEffect::Desk(job) && export_job_ok(
                    desk_view(old(s).desk),
                    m,
                    job,
                )
                &&& final(s).hub@ == old(s).hub@
                &&& dialog_view(final(s).dialog) == dialog_view(old(s).dialog)
                &&& final(s).models@ == old(s).models@
            },
            SessionMessage::Models(m) => {
                &&& final(s).models@ == models_next(old(s).models@, m)
                &&& e matches SessionEffect::Models(x) && models_effect_ok(old(s).models@, m, x)
                &&& final(s).hub@ == old(s).hub@
                &&& dialog_view(final(s).dialog) == dialog_view(old(s).dialog)
                &&& desk_view(final(s).desk) == desk_view(old(s).desk)
            },
            SessionMessage::Imported(r) => {
                &&& final(s).hub@ == hub_next(old(s).hub@, HubMessage::ImportFinished)
                &&& final(s).models@ == old(s).models@
                &&& match r {
                    Ok(note) => {
                        &&& final(s).dialog is None
                        &&& final(s).desk matches Some(d) && d@.title == note.title@
                            && d@.headings == note.headings@.map_values(|h: NoteHeading| h@)
                            && d@.rows == import_rows(note.transcript) && d@.filter
                            == TranscriptFilter::Key && !d@.view_code && d@.export_status is None
                        &&& e matches SessionEffect::Record(rec) && import_record_ok(note, rec)
                    },
                    Err(err) => {
                        &&& dialog_view(final(s).dialog) == link_next(
                            dialog_view(old(s).dialog),
                            LinkMessage::Imported(Err(err)),
                        )
                        &&& desk_view(final(s).desk) == desk_view(old(s).desk)
                        &&& e is Nothing
                    },
                }
            },
        },
{
    match message {
        SessionMessage::Hub(m) => SessionEffect::Hub(hub::update(&mut s.hub, m)),
        SessionMessage::Link(m) => {
            let l = link_import::update(&mut s.dialog, m);
            match &l {
                LinkEffect::Import(_) => {
                    hub::update(&mut s.hub, HubMessage::ImportStarted);
                },
                LinkEffect::TranscribeToDictate(_, title) => {
                    let t = title.clone();
                    let ghost before = s.hub@;
                    hub::update(&mut s.hub, HubMessage::LinkTranscribeStarted(t));
                    assert(s.hub@ =~= hub_next(before, HubMessage::LinkTranscribeStarted(*title)));
                },
                _ => {},
            }
            SessionEffect::Link(l)
        },
        SessionMessage::Desk(m) => SessionEffect::Desk(note_desk::update(&mut s.desk, &m)),
        SessionMessage::Models(m) => SessionEffect::Models(models::update(&mut s.models, m)),
        SessionMessage::Imported(r) => {
            hub::update(&mut s.hub, HubMessage::ImportFinished);
            match r {
                Ok(note) => {
                    link_import::update(&mut s.dialog, LinkMessage::Imported(Ok(())));
                    let mut text = String::new();
                    push_str(&mut text, note.title.as_str());
                    push(&mut text, '\n');
                    push_str(&mut text, note.transcript.text.as_str());
                    let n = note.transcript.segments.len();
                    let duration_ms = if n > 0 {
                        Some(note.transcript.segments[n - 1].end_ms)
                    } else {
                        None
                    };
                    s.desk = Some(
                        NoteDeskState::from_import(
                            note.title.as_str(),
                            note.headings,
                            &note.transcript,
                        ),
                    );
                    assert(text@ =~= note.title@ + seq!['\n'] + note.transcript.text@);
                    SessionEffect::Record(HistoryRecord { text, duration_ms })
                },
                Err(err) => {
                    link_import::update(&mut s.dialog, LinkMessage::Imported(Err(err)));
                    SessionEffect::Nothing
                },
            }
        },
    }
}

} // verus!
