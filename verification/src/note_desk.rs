//! The longform "note desk": its transcript rows, the keep ranking that
//! marks each row, the `Key / All / Kept` filter, building a desk from an
//! imported transcript, the seeded sample desk, and the desk's messages.

use vstd::prelude::*;

use crate::text::{
    chars_of, clone_opt, decimal, is_whitespace, opt_view, pad2, push,
    push_pad2, push_str, string_from_chars, trim, trimmed, word_count, word_count_of,
};

verus! {

/// A transcript row's keep-gutter state: kept into the notes, a candidate
/// awaiting a keep/dismiss decision, or chatter left out.
#[derive(Debug, Clone, Copy, PartialEq, Eq, Structural)]
pub enum Gutter {
    Kept,
    Candidate,
    Chatter,
}

/// One line of the transcript column.
#[derive(Debug)]
pub struct TranscriptRow {
    /// The line's timestamp, formatted `MM:SS`.
    pub time_label: String,
    /// The recognized text of the line.
    pub text: String,
    /// The speaker the line is attributed to, if any.
    pub speaker_id: Option<String>,
    /// The keep-gutter state.
    pub gutter: Gutter,
    /// How strongly the line scored for keeping, `0..=3`.
    pub keep_score: u8,
}

/// The mathematical content of a [`TranscriptRow`].
pub struct RowView {
    pub time_label: Seq<char>,
    pub text: Seq<char>,
    pub speaker_id: Option<Seq<char>>,
    pub gutter: Gutter,
    pub keep_score: u8,
}

impl View for TranscriptRow {
    type V = RowView;

    open spec fn view(&self) -> RowView {
        RowView {
            time_label: self.time_label@,
            text: self.text@,
            speaker_id: opt_view(self.speaker_id),
            gutter: self.gutter,
            keep_score: self.keep_score,
        }
    }
}

/// A kept chapter marker, shown as a note heading.
#[derive(Debug)]
pub struct NoteHeading {
    /// The chapter's start time, formatted `MM:SS`.
    pub time_label: String,
    /// The chapter title.
    pub title: String,
}

impl View for NoteHeading {
    type V = (Seq<char>, Seq<char>);

    open spec fn view(&self) -> (Seq<char>, Seq<char>) {
        (self.time_label@, self.title@)
    }
}

/// Which transcript rows the note desk's segmented filter shows.
#[derive(Debug, Clone, Copy, PartialEq, Eq, Structural)]
pub enum TranscriptFilter {
    /// Kept lines plus any high-signal line (`keep_score >= 2`).
    Key,
    /// Every transcript line.
    All,
    /// Only the lines kept into the notes.
    Kept,
}

impl Default for TranscriptFilter {
    fn default() -> (f: Self)
        ensures
            f == TranscriptFilter::Key,
    {
        TranscriptFilter::Key
    }
}

/// Whether a row with this gutter and score shows under `filter`.
pub open spec fn filter_keeps(filter: TranscriptFilter, gutter: Gutter, keep_score: u8) -> bool {
    match filter {
        TranscriptFilter::All => true,
        TranscriptFilter::Kept => gutter == Gutter::Kept,
        TranscriptFilter::Key => gutter == Gutter::Kept || keep_score >= 2,
    }
}

impl TranscriptFilter {
    /// Whether `row` is shown under this filter: `All` keeps everything,
    /// `Kept` only kept rows, and `Key` kept rows plus any high-signal line.
    pub fn keeps(self, row: &TranscriptRow) -> (b: bool)
        ensures
            b == filter_keeps(self, row.gutter, row.keep_score),
    {
        match self {
            TranscriptFilter::All => true,
            TranscriptFilter::Kept => row.gutter == Gutter::Kept,
            TranscriptFilter::Key => row.gutter == Gutter::Kept || row.keep_score >= 2,
        }
    }
}

/// All state of the note-desk mode.
#[derive(Debug)]
pub struct NoteDeskState {
    /// The desk title, shown in the header.
    pub title: String,
    /// The transcript rows.
    pub rows: Vec<TranscriptRow>,
    /// Kept chapter headings (from a link import).
    pub headings: Vec<NoteHeading>,
    /// Which rows the segmented filter shows.
    pub filter: TranscriptFilter,
    /// Whether the notes column shows the raw `.typ` source.
    pub view_code: bool,
    /// The most recent export outcome, if any.
    pub export_status: Option<String>,
}

/// The mathematical content of a [`NoteDeskState`].
pub struct DeskView {
    pub title: Seq<char>,
    pub rows: Seq<RowView>,
    pub headings: Seq<(Seq<char>, Seq<char>)>,
    pub filter: TranscriptFilter,
    pub view_code: bool,
    pub export_status: Option<Seq<char>>,
}

impl View for NoteDeskState {
    type V = DeskView;

    open spec fn view(&self) -> DeskView {
        DeskView {
            title: self.title@,
            rows: self.rows@.map_values(|r: TranscriptRow| r@),
            headings: self.headings@.map_values(|h: NoteHeading| h@),
            filter: self.filter,
            view_code: self.view_code,
            export_status: opt_view(self.export_status),
        }
    }
}

/// `MM:SS` for a whole number of seconds, minutes uncapped (`73:04`).
pub open spec fn mmss_label(secs: nat) -> Seq<char> {
    pad2(secs / 60) + seq![':'] + pad2(secs % 60)
}

/// Formats a timestamp of `secs` whole seconds as `MM:SS`.
pub fn secs_to_mmss(secs: u64) -> (s: String)
    ensures
        s@ == mmss_label(secs as nat),
{
    let mut out = String::new();
    push_pad2(&mut out, secs / 60);
    push(&mut out, ':');
    push_pad2(&mut out, secs % 60);
    assert(out@ =~= mmss_label(secs as nat));
    out
}

/// `s` contains an ASCII digit.
pub open spec fn has_digit(s: Seq<char>) -> bool {
    exists|i: int| 0 <= i < s.len() && '0' <= #[trigger] s[i] <= '9'
}

/// The keep score of a line: filler (three words or fewer) scores 0,
/// long or figure-bearing lines 3, meaty lines 2, the rest 1.
pub open spec fn rank_score(s: Seq<char>) -> u8 {
    let words = word_count_of(s);
    if words <= 3 {
        0
    } else if words >= 14 || (words >= 9 && has_digit(s)) {
        3
    } else if words >= 8 {
        2
    } else {
        1
    }
}

/// The gutter a line's keep score puts it in.
pub open spec fn rank_gutter(s: Seq<char>) -> Gutter {
    let score = rank_score(s);
    if score == 0 {
        Gutter::Chatter
    } else if score >= 3 {
        Gutter::Kept
    } else {
        Gutter::Candidate
    }
}

fn contains_digit(v: &Vec<char>) -> (b: bool)
    ensures
        b == has_digit(v@),
{
    let mut i: usize = 0;
    while i < v.len()
        invariant
            i <= v.len(),
            forall|j: int| 0 <= j < i ==> !('0' <= #[trigger] v@[j] <= '9'),
        decreases v.len() - i,
    {
        if '0' <= v[i] && v[i] <= '9' {
            return true;
        }
        i += 1;
    }
    false
}

/// A "how key is this line" heuristic: filler becomes chatter, long or
/// figure-bearing lines are kept, the rest are candidates.
pub fn rank_line(text: &str) -> (r: (Gutter, u8))
    ensures
        r.0 == rank_gutter(text@),
        r.1 == rank_score(text@),
{
    let words = word_count(text);
    if words <= 3 {
        return (Gutter::Chatter, 0);
    }
    let has = contains_digit(&chars_of(text));
    let score: u8 = if words >= 14 || (words >= 9 && has) {
        3
    } else if words >= 8 {
        2
    } else {
        1
    };
    let gutter = if score >= 3 {
        Gutter::Kept
    } else {
        Gutter::Candidate
    };
    (gutter, score)
}

/// One timed segment of an imported transcript. The start is in whole
/// seconds, the resolution the desk's `MM:SS` labels show; the end is in
/// milliseconds.
#[derive(Debug)]
pub struct TranscriptSegment {
    pub text: String,
    pub start_secs: u64,
    pub end_ms: u64,
    pub speaker: Option<String>,
}

/// An imported transcript: its full text and its timed segments.
#[derive(Debug)]
pub struct Transcript {
    pub text: String,
    pub segments: Vec<TranscriptSegment>,
}

/// The row an imported segment becomes.
pub open spec fn segment_row(seg: TranscriptSegment) -> RowView {
    RowView {
        time_label: mmss_label(seg.start_secs as nat),
        text: seg.text@,
        speaker_id: opt_view(seg.speaker),
        gutter: rank_gutter(seg.text@),
        keep_score: rank_score(seg.text@),
    }
}

/// The rows a desk built from `t` shows: one ranked row per segment, or,
/// without segments, a single `00:00` row holding the whole text.
pub open spec fn import_rows(t: Transcript) -> Seq<RowView> {
    if t.segments@.len() == 0 {
        seq![
            RowView {
                time_label: mmss_label(0),
                text: t.text@,
                speaker_id: None,
                gutter: rank_gutter(t.text@),
                keep_score: rank_score(t.text@),
            },
        ]
    } else {
        t.segments@.map_values(|seg: TranscriptSegment| segment_row(seg))
    }
}

fn ranked_row(time_label: String, text: String, speaker_id: Option<String>) -> (r: TranscriptRow)
    ensures
        r@ == (RowView {
            time_label: time_label@,
            text: text@,
            speaker_id: opt_view(speaker_id),
            gutter: rank_gutter(text@),
            keep_score: rank_score(text@),
        }),
{
    let (gutter, keep_score) = rank_line(text.as_str());
    TranscriptRow { time_label, text, speaker_id, gutter, keep_score }
}

impl NoteDeskState {
    /// Builds a note desk from a finished import: `title` heads the desk,
    /// `headings` are the kept chapters, and each transcript segment becomes
    /// a ranked row. A transcript without segments collapses to a single
    /// `00:00` row.
    pub fn from_import(title: &str, headings: Vec<NoteHeading>, transcript: &Transcript) -> (d:
        Self)
        ensures
            d@.title == title@,
            d@.headings == headings@.map_values(|h: NoteHeading| h@),
            d@.rows == import_rows(*transcript),
            d@.filter == TranscriptFilter::Key,
            !d@.view_code,
            d@.export_status is None,
    {
        let mut rows: Vec<TranscriptRow> = Vec::new();
        if transcript.segments.len() == 0 {
            rows.push(ranked_row(secs_to_mmss(0), transcript.text.clone(), None));
            assert(rows@.map_values(|r: TranscriptRow| r@) =~= import_rows(*transcript));
        } else {
            let mut i: usize = 0;
            while i < transcript.segments.len()
                invariant
                    i <= transcript.segments.len(),
                    rows@.len() == i,
                    forall|j: int|
                        0 <= j < i ==> (#[trigger] rows@[j])@ == segment_row(
                            transcript.segments@[j],
                        ),
                decreases transcript.segments.len() - i,
            {
                let seg = &transcript.segments[i];
                rows.push(
                    ranked_row(secs_to_mmss(seg.start_secs), seg.text.clone(), clone_opt(&seg.speaker)),
                );
                i += 1;
            }
            assert(rows@.map_values(|r: TranscriptRow| r@) =~= import_rows(*transcript));
        }
        NoteDeskState {
            title: String::from_str(title),
            rows,
            headings,
            filter: TranscriptFilter::Key,
            view_code: false,
            export_status: None,
        }
    }
}

/// The row view a literal sample line carries.
pub open spec fn sample_row(
    time_label: Seq<char>,
    text: Seq<char>,
    speaker: Seq<char>,
    gutter: Gutter,
    keep_score: u8,
) -> RowView {
    RowView { time_label, text, speaker_id: Some(speaker), gutter, keep_score }
}

/// The seeded sample desk: the "Statistical Mechanics · 7" excerpt.
pub open spec fn sample_view() -> DeskView {
    let halden = "Dr. E. Halden"@;
    DeskView {
        title: "Statistical Mechanics \u{b7} 7"@,
        rows: seq![
            sample_row(
                "11:52"@,
                "Entropy is not a measure of disorder \u{2014} that word does more harm than good here."@,
                halden,
                Gutter::Kept,
                3,
            ),
            sample_row(
                "12:04"@,
                "It counts the number of microstates consistent with what you can actually measure."@,
                halden,
                Gutter::Kept,
                3,
            ),
            sample_row(
                "12:19"@,
                "So the same glass of water has a different entropy depending on what you claim to know about it."@,
                halden,
                Gutter::Candidate,
                2,
            ),
            sample_row(
                "12:31"@,
                "Write that down, because that sentence is the whole of the second law."@,
                halden,
                Gutter::Candidate,
                3,
            ),
            sample_row(
                "12:44"@,
                "Does that mean entropy is subjective?"@,
                "Student"@,
                Gutter::Chatter,
                1,
            ),
            sample_row(
                "12:58"@,
                "It means it is a statement about what you know, and the second law is a statement about probability"@,
                halden,
                Gutter::Chatter,
                0,
            ),
        ],
        headings: Seq::empty(),
        filter: TranscriptFilter::Key,
        view_code: false,
        export_status: None,
    }
}

fn sample_line(time_label: &str, text: &str, speaker: &str, gutter: Gutter, keep_score: u8) -> (r:
    TranscriptRow)
    ensures
        r@ == sample_row(time_label@, text@, speaker@, gutter, keep_score),
{
    TranscriptRow {
        time_label: String::from_str(time_label),
        text: String::from_str(text),
        speaker_id: Some(String::from_str(speaker)),
        gutter,
        keep_score,
    }
}

impl NoteDeskState {
    /// A seeded note desk with sample rows, so the layout renders before a
    /// real transcript exists.
    pub fn sample() -> (d: Self)
        ensures
            d@ == sample_view(),
            forall|i: int| 0 <= i < d.rows@.len() ==> #[trigger] d.rows@[i].keep_score <= 3,
    {
        let mut rows: Vec<TranscriptRow> = Vec::new();
        rows.push(
            sample_line(
                "11:52",
                "Entropy is not a measure of disorder \u{2014} that word does more harm than good here.",
                "Dr. E. Halden",
                Gutter::Kept,
                3,
            ),
        );
        rows.push(
            sample_line(
                "12:04",
                "It counts the number of microstates consistent with what you can actually measure.",
                "Dr. E. Halden",
                Gutter::Kept,
                3,
            ),
        );
        rows.push(
            sample_line(
                "12:19",
                "So the same glass of water has a different entropy depending on what you claim to know about it.",
                "Dr. E. Halden",
                Gutter::Candidate,
                2,
            ),
        );
        rows.push(
            sample_line(
                "12:31",
                "Write that down, because that sentence is the whole of the second law.",
                "Dr. E. Halden",
                Gutter::Candidate,
                3,
            ),
        );
        rows.push(
            sample_line(
                "12:44",
                "Does that mean entropy is subjective?",
                "Student",
                Gutter::Chatter,
                1,
            ),
        );
        rows.push(
            sample_line(
                "12:58",
                "It means it is a statement about what you know, and the second law is a statement about probability",
                "Dr. E. Halden",
                Gutter::Chatter,
                0,
            ),
        );
        let d = NoteDeskState {
            title: String::from_str("Statistical Mechanics \u{b7} 7"),
            rows,
            headings: Vec::new(),
            filter: TranscriptFilter::Key,
            view_code: false,
            export_status: None,
        };
        assert(d@.rows =~= sample_view().rows);
        assert(d@.headings =~= sample_view().headings);
        d
    }
}

/// Total words across `rows`.
pub open spec fn rows_words(rows: Seq<RowView>) -> nat
    decreases rows.len(),
{
    if rows.len() == 0 {
        0
    } else {
        rows_words(rows.drop_last()) + word_count_of(rows.last().text)
    }
}

proof fn lemma_rows_words_prefix(rows: Seq<RowView>, n: int)
    requires
        0 <= n <= rows.len(),
    ensures
        rows_words(rows.take(n)) <= rows_words(rows),
    decreases rows.len() - n,
{
    if n < rows.len() {
        lemma_rows_words_prefix(rows, n + 1);
        assert(rows.take(n + 1).drop_last() =~= rows.take(n));
    } else {
        assert(rows.take(n) =~= rows);
    }
}

impl NoteDeskState {
    /// Total words across the transcript rows, for the header's readout.
    pub fn word_count(&self) -> (n: usize)
        requires
            rows_words(self@.rows) <= usize::MAX,
        ensures
            n as nat == rows_words(self@.rows),
    {
        let mut total: usize = 0;
        let mut i: usize = 0;
        while i < self.rows.len()
            invariant
                i <= self.rows.len(),
                total as nat == rows_words(self@.rows.take(i as int)),
                rows_words(self@.rows) <= usize::MAX,
            decreases self.rows.len() - i,
        {
            let w = word_count(self.rows[i].text.as_str());
            assert(self@.rows.take(i + 1).drop_last() =~= self@.rows.take(i as int));
            proof {
                lemma_rows_words_prefix(self@.rows, i + 1);
            }
            total = total + w;
            i += 1;
        }
        assert(self@.rows.take(self.rows.len() as int) =~= self@.rows);
        total
    }

    /// The indices of the rows the filter shows, in order.
    pub fn visible_rows(&self) -> (v: Vec<usize>)
        ensures
            forall|k: int| 0 <= k < v@.len() ==> #[trigger] v@[k] < self.rows@.len(),
            forall|k: int|
                0 <= k < v@.len() ==> filter_keeps(
                    self.filter,
                    self.rows@[#[trigger] v@[k] as int].gutter,
                    self.rows@[v@[k] as int].keep_score,
                ),
            forall|k: int, l: int| 0 <= k < l < v@.len() ==> v@[k] < v@[l],
            forall|i: int|
                0 <= i < self.rows@.len() && filter_keeps(
                    self.filter,
                    #[trigger] self.rows@[i].gutter,
                    self.rows@[i].keep_score,
                ) ==> exists|k: int| 0 <= k < v@.len() && v@[k] == i,
    {
        let mut v: Vec<usize> = Vec::new();
        let mut i: usize = 0;
        while i < self.rows.len()
            invariant
                i <= self.rows.len(),
                forall|k: int| 0 <= k < v@.len() ==> #[trigger] v@[k] < i,
                forall|k: int|
                    0 <= k < v@.len() ==> filter_keeps(
                        self.filter,
                        self.rows@[#[trigger] v@[k] as int].gutter,
                        self.rows@[v@[k] as int].keep_score,
                    ),
                forall|k: int, l: int| 0 <= k < l < v@.len() ==> v@[k] < v@[l],
                forall|j: int|
                    0 <= j < i && filter_keeps(
                        self.filter,
                        #[trigger] self.rows@[j].gutter,
                        self.rows@[j].keep_score,
                    ) ==> exists|k: int| 0 <= k < v@.len() && v@[k] == j,
            decreases self.rows.len() - i,
        {
            if self.filter.keeps(&self.rows[i]) {
                let ghost old_v = v@;
                v.push(i);
                proof {
                    assert forall|j: int|
                        0 <= j < i + 1 && filter_keeps(
                            self.filter,
                            #[trigger] self.rows@[j].gutter,
                            self.rows@[j].keep_score,
                        ) implies exists|k: int| 0 <= k < v@.len() && v@[k] == j by {
                        if j < i {
                            let k = choose|k: int| 0 <= k < old_v.len() && old_v[k] == j;
                            assert(v@[k] == old_v[k]);
                        } else {
                            assert(v@[v@.len() - 1] == j);
                        }
                    }
                }
            }
            i += 1;
        }
        v
    }

    /// For each shown row (`shown` indexes `rows`), whether a speaker label
    /// heads it: its speaker is set and differs from the previous shown
    /// row's.
    pub fn speaker_heads(&self, shown: &Vec<usize>) -> (h: Vec<bool>)
        requires
            forall|k: int| 0 <= k < shown@.len() ==> #[trigger] shown@[k] < self.rows@.len(),
        ensures
            h@.len() == shown@.len(),
            forall|k: int|
                0 <= k < h@.len() ==> #[trigger] h@[k] == speaker_heads(
                    self@.rows,
                    as_ints(shown@),
                    k,
                ),
    {
        let mut h: Vec<bool> = Vec::new();
        let mut k: usize = 0;
        while k < shown.len()
            invariant
                k <= shown.len(),
                h@.len() == k,
                forall|k: int| 0 <= k < shown@.len() ==> #[trigger] shown@[k] < self.rows@.len(),
                forall|j: int|
                    0 <= j < k ==> #[trigger] h@[j] == speaker_heads(
                        self@.rows,
                        as_ints(shown@),
                        j,
                    ),
            decreases shown.len() - k,
        {
            let cur = &self.rows[shown[k]].speaker_id;
            let heads = match cur {
                None => false,
                Some(name) => {
                    if k == 0 {
                        true
                    } else {
                        match &self.rows[shown[k - 1]].speaker_id {
                            None => true,
                            Some(p) => !(*p == *name),
                        }
                    }
                },
            };
            proof {
                let ids = as_ints(shown@);
                assert(ids[k as int] == shown@[k as int] as int);
                assert(self@.rows[ids[k as int]] == self.rows@[shown@[k as int] as int]@);
                if k > 0 {
                    assert(ids[k - 1] == shown@[k - 1] as int);
                    assert(self@.rows[ids[k - 1]] == self.rows@[shown@[k - 1] as int]@);
                }
            }
            assert(heads == speaker_heads(self@.rows, as_ints(shown@), k as int));
            h.push(heads);
            k += 1;
        }
        h
    }
}

/// Indices as integers.
pub open spec fn as_ints(v: Seq<usize>) -> Seq<int> {
    v.map_values(|i: usize| i as int)
}

/// Whether the `k`-th shown row (`shown[k]` indexes `rows`) is headed by a
/// speaker label: it has a speaker, and the previous shown row's differs.
pub open spec fn speaker_heads(rows: Seq<RowView>, shown: Seq<int>, k: int) -> bool {
    &&& rows[shown[k]].speaker_id is Some
    &&& (k == 0 || rows[shown[k - 1]].speaker_id != rows[shown[k]].speaker_id)
}

/// Replaces path separators and control characters so a title can name a
/// file.
pub open spec fn sanitize_char(c: char) -> char {
    if c == '/' || c == '\\' || is_control(c) {
        '-'
    } else {
        c
    }
}

/// Unicode general category `Cc` (`char::is_control`).
pub open spec fn is_control(c: char) -> bool {
    (c as u32) <= 0x1f || (0x7f <= (c as u32) <= 0x9f)
}

/// The default save-dialog file name for a note titled `title`.
pub open spec fn file_name_for(title: Seq<char>, ext: Seq<char>) -> Seq<char> {
    let stem = trim(title.map_values(|c: char| sanitize_char(c)));
    let stem = if stem.len() == 0 {
        "note"@
    } else {
        stem
    };
    stem + seq!['.'] + ext
}

/// A default file name from the note title, sanitized for the save dialog:
/// separators and control characters become `-`, surrounding whitespace
/// goes, and a blank title falls back to `note`.
pub fn suggested_file_name(title: &str, ext: &str) -> (name: String)
    ensures
        name@ == file_name_for(title@, ext@),
{
    let chars = chars_of(title);
    let mut clean: Vec<char> = Vec::new();
    let mut i: usize = 0;
    while i < chars.len()
        invariant
            i <= chars.len(),
            chars@ == title@,
            clean@ == title@.take(i as int).map_values(|c: char| sanitize_char(c)),
        decreases chars.len() - i,
    {
        let c = chars[i];
        let n = c as u32;
        let out = if c == '/' || c == '\\' || n <= 0x1f || (0x7f <= n && n <= 0x9f) {
            '-'
        } else {
            c
        };
        clean.push(out);
        i += 1;
        assert(clean@ =~= title@.take(i as int).map_values(|c: char| sanitize_char(c)));
    }
    assert(title@.take(chars.len() as int) =~= title@);
    let stem = trimmed(&clean);
    let mut name = String::new();
    if stem.len() == 0 {
        push_str(&mut name, "note");
    } else {
        crate::text::push_chars(&mut name, &stem);
    }
    push(&mut name, '.');
    push_str(&mut name, ext);
    assert(name@ =~= file_name_for(title@, ext@));
    name
}

/// Which file a desk export writes.
#[derive(Debug, Clone, Copy, PartialEq, Eq, Structural)]
pub enum ExportKind {
    /// The `.typ` source.
    Typst,
    /// A compiled PDF.
    Pdf,
}

/// The export's name in status lines.
pub open spec fn export_name(kind: ExportKind) -> Seq<char> {
    match kind {
        ExportKind::Typst => "Typst"@,
        ExportKind::Pdf => "PDF"@,
    }
}

/// The export's file extension.
pub open spec fn export_ext(kind: ExportKind) -> Seq<char> {
    match kind {
        ExportKind::Typst => "typ"@,
        ExportKind::Pdf => "pdf"@,
    }
}

/// The status shown while the export runs.
pub open spec fn export_pending(kind: ExportKind) -> Seq<char> {
    match kind {
        ExportKind::Typst => "Exporting .typ\u{2026}"@,
        ExportKind::Pdf => "Exporting PDF\u{2026}"@,
    }
}

/// The outcome of a save as plain text: the saved path, a cancel, or the
/// failure message.
pub open spec fn result_view(r: Result<Option<String>, String>) -> Result<
    Option<Seq<char>>,
    Seq<char>,
> {
    match r {
        Ok(p) => Ok(opt_view(p)),
        Err(e) => Err(e@),
    }
}

/// The desk status after an export finished with `result`: a success line
/// naming the path, nothing after a cancel, or the failure.
pub open spec fn export_status_after(
    kind: ExportKind,
    result: Result<Option<Seq<char>>, Seq<char>>,
) -> Option<Seq<char>> {
    match result {
        Ok(Some(path)) => Some("Saved "@ + export_name(kind) + " to "@ + path),
        Ok(None) => None,
        Err(error) => Some(export_name(kind) + " export failed: "@ + error),
    }
}

fn push_export_name(out: &mut String, kind: ExportKind)
    ensures
        final(out)@ == old(out)@ + export_name(kind),
{
    match kind {
        ExportKind::Typst => push_str(out, "Typst"),
        ExportKind::Pdf => push_str(out, "PDF"),
    }
}

/// The status line for a finished export.
pub fn export_status_line(kind: ExportKind, result: &Result<Option<String>, String>) -> (s:
    Option<String>)
    ensures
        opt_view(s) == export_status_after(kind, result_view(*result)),
{
    match result {
        Ok(Some(path)) => {
            let mut out = String::new();
            push_str(&mut out, "Saved ");
            push_export_name(&mut out, kind);
            push_str(&mut out, " to ");
            push_str(&mut out, path.as_str());
            assert(out@ =~= "Saved "@ + export_name(kind) + " to "@ + path@);
            Some(out)
        },
        Ok(None) => None,
        Err(error) => {
            let mut out = String::new();
            push_export_name(&mut out, kind);
            push_str(&mut out, " export failed: ");
            push_str(&mut out, error.as_str());
            assert(out@ =~= export_name(kind) + " export failed: "@ + error@);
            Some(out)
        },
    }
}

/// A save the app performs for the desk: which kind, the Typst source
/// and the file name the save dialog proposes.
#[derive(Debug)]
pub struct ExportJob {
    pub kind: ExportKind,
    pub source: String,
    pub file_name: String,
}

/// The note-desk messages.
#[derive(Debug)]
pub enum DeskMessage {
    /// Open the desk, seeded with the sample rows.
    EnterNoteDesk,
    /// Leave the desk for the normal Hub.
    BackToDictate,
    /// Switch the transcript filter.
    SetTranscriptFilter(TranscriptFilter),
    /// Flip between the rendered note and its `.typ` source.
    ToggleViewCode,
    /// Start a `.typ` export.
    ExportTyp,
    /// A `.typ` export finished.
    ExportTypDone(Result<Option<String>, String>),
    /// Start a PDF export.
    ExportPdf,
    /// A PDF export finished.
    ExportPdfDone(Result<Option<String>, String>),
}

/// The content of an optional desk.
pub open spec fn desk_view(d: Option<NoteDeskState>) -> Option<DeskView> {
    match d {
        Some(nd) => Some(nd@),
        None => None,
    }
}

/// The desk after `message`, as a function of the desk before it.
pub open spec fn desk_after(before: Option<DeskView>, message: DeskMessage) -> Option<DeskView> {
    match message {
        DeskMessage::EnterNoteDesk => Some(sample_view()),
        DeskMessage::BackToDictate => None,
        DeskMessage::SetTranscriptFilter(f) => match before {
            Some(d) => Some(DeskView { filter: f, ..d }),
            None => None,
        },
        DeskMessage::ToggleViewCode => match before {
            Some(d) => Some(DeskView { view_code: !d.view_code, ..d }),
            None => None,
        },
        DeskMessage::ExportTyp => match before {
            Some(d) => Some(DeskView { export_status: Some(export_pending(ExportKind::Typst)), ..d }),
            None => None,
        },
        DeskMessage::ExportPdf => match before {
            Some(d) => Some(DeskView { export_status: Some(export_pending(ExportKind::Pdf)), ..d }),
            None => None,
        },
        DeskMessage::ExportTypDone(r) => match before {
            Some(d) => Some(
                DeskView {
                    export_status: export_status_after(ExportKind::Typst, result_view(r)),
                    ..d
                },
            ),
            None => None,
        },
        DeskMessage::ExportPdfDone(r) => match before {
            Some(d) => Some(
                DeskView { export_status: export_status_after(ExportKind::Pdf, result_view(r)), ..d },
            ),
            None => None,
        },
    }
}

/// The export a message starts: only the two export requests do, and only
/// while a desk is open.
pub open spec fn export_started(before: Option<DeskView>, message: DeskMessage) -> Option<
    ExportKind,
> {
    match (message, before) {
        (DeskMessage::ExportTyp, Some(_)) => Some(ExportKind::Typst),
        (DeskMessage::ExportPdf, Some(_)) => Some(ExportKind::Pdf),
        _ => None,
    }
}

/// Whether `job` is the export `message` starts on desk `before`: none
/// unless an export request reaches an open desk, else that export of the
/// desk's document under its suggested file name.
pub open spec fn export_job_ok(
    before: Option<DeskView>,
    message: DeskMessage,
    job: Option<ExportJob>,
) -> bool {
    match export_started(before, message) {
        Some(kind) => job matches Some(j) && j.kind == kind && j.source@
            == crate::note_export::document_of(before->Some_0) && j.file_name@ == file_name_for(
            before->Some_0.title,
            export_ext(kind),
        ),
        None => job is None,
    }
}

fn start_export(nd: &mut NoteDeskState, kind: ExportKind) -> (job: ExportJob)
    ensures
        final(nd)@ == (DeskView { export_status: Some(export_pending(kind)), ..old(nd)@ }),
        job.kind == kind,
        job.source@ == crate::note_export::document_of(old(nd)@),
        job.file_name@ == file_name_for(old(nd)@.title, export_ext(kind)),
{
    let source = crate::note_export::document_typ(nd);
    let file_name = match kind {
        ExportKind::Typst => suggested_file_name(nd.title.as_str(), "typ"),
        ExportKind::Pdf => suggested_file_name(nd.title.as_str(), "pdf"),
    };
    nd.export_status = match kind {
        ExportKind::Typst => Some(String::from_str("Exporting .typ\u{2026}")),
        ExportKind::Pdf => Some(String::from_str("Exporting PDF\u{2026}")),
    };
    ExportJob { kind, source, file_name }
}

/// Handles a note-desk message: entering seeds the sample desk, leaving
/// drops it, the filter and code view switch in place, an export request
/// marks the desk as exporting and hands back the save to perform, and a
/// finished export folds its outcome into the status line. Messages about
/// the open desk do nothing while it is closed.
pub fn update(desk: &mut Option<NoteDeskState>, message: &DeskMessage) -> (job: Option<ExportJob>)
    ensures
        desk_view(*final(desk)) == desk_after(desk_view(*old(desk)), *message),
        export_job_ok(desk_view(*old(desk)), *message, job),
{
    match message {
        DeskMessage::EnterNoteDesk => {
            *desk = Some(NoteDeskState::sample());
            None
        },
        DeskMessage::BackToDictate => {
            *desk = None;
            None
        },
        DeskMessage::SetTranscriptFilter(f) => {
            if let Some(mut nd) = desk.take() {
                nd.filter = *f;
                *desk = Some(nd);
            }
            None
        },
        DeskMessage::ToggleViewCode => {
            if let Some(mut nd) = desk.take() {
                nd.view_code = !nd.view_code;
                *desk = Some(nd);
            }
            None
        },
        DeskMessage::ExportTyp => {
            if let Some(mut nd) = desk.take() {
                let job = start_export(&mut nd, ExportKind::Typst);
                *desk = Some(nd);
                Some(job)
            } else {
                None
            }
        },
        DeskMessage::ExportPdf => {
            if let Some(mut nd) = desk.take() {
                let job = start_export(&mut nd, ExportKind::Pdf);
                *desk = Some(nd);
                Some(job)
            } else {
                None
            }
        },
        DeskMessage::ExportTypDone(result) => {
            if let Some(mut nd) = desk.take() {
                nd.export_status = export_status_line(ExportKind::Typst, result);
                *desk = Some(nd);
            }
            None
        },
        DeskMessage::ExportPdfDone(result) => {
            if let Some(mut nd) = desk.take() {
                nd.export_status = export_status_line(ExportKind::Pdf, result);
                *desk = Some(nd);
            }
            None
        },
    }
}

/// The filters nest: every row `Kept` shows also shows under `Key`, and
/// every row `Key` shows also shows under `All`.
pub proof fn filters_nest(gutter: Gutter, keep_score: u8)
    ensures
        filter_keeps(TranscriptFilter::Kept, gutter, keep_score) ==> filter_keeps(
            TranscriptFilter::Key,
            gutter,
            keep_score,
        ),
        filter_keeps(TranscriptFilter::Key, gutter, keep_score) ==> filter_keeps(
            TranscriptFilter::All,
            gutter,
            keep_score,
        ),
{
}

/// A ranked line's score is at most 3, and its gutter follows the score:
/// chatter at 0, kept at 3, a candidate in between; so the `Key` filter
/// shows every line scoring 2 or more.
pub proof fn ranking_is_consistent(s: Seq<char>)
    ensures
        rank_score(s) <= 3,
        rank_gutter(s) == Gutter::Chatter <==> rank_score(s) == 0,
        rank_gutter(s) == Gutter::Kept <==> rank_score(s) == 3,
        filter_keeps(TranscriptFilter::Key, rank_gutter(s), rank_score(s)) <==> rank_score(s) >= 2,
{
}

/// How a line ranks by its length: three words or fewer are chatter (0);
/// four to seven words score 1 and eight score 2, figures or not; nine to
/// thirteen score 3 with a figure and 2 without; fourteen or more always
/// score 3. So two lines of the same length rank alike unless they have
/// nine to thirteen words and only one of them holds a digit.
pub proof fn a_figure_lifts_only_a_long_line(s: Seq<char>, t: Seq<char>)
    ensures
        word_count_of(s) <= 3 ==> rank_score(s) == 0 && rank_gutter(s) == Gutter::Chatter,
        4 <= word_count_of(s) <= 7 ==> rank_score(s) == 1 && rank_gutter(s) == Gutter::Candidate,
        word_count_of(s) == 8 ==> rank_score(s) == 2 && rank_gutter(s) == Gutter::Candidate,
        9 <= word_count_of(s) <= 13 && has_digit(s) ==> rank_score(s) == 3 && rank_gutter(s)
            == Gutter::Kept,
        9 <= word_count_of(s) <= 13 && !has_digit(s) ==> rank_score(s) == 2 && rank_gutter(s)
            == Gutter::Candidate,
        word_count_of(s) >= 14 ==> rank_score(s) == 3 && rank_gutter(s) == Gutter::Kept,
        word_count_of(s) == word_count_of(t) && (word_count_of(s) < 9 || word_count_of(s) >= 14)
            ==> rank_score(s) == rank_score(t) && rank_gutter(s) == rank_gutter(t),
        word_count_of(s) == word_count_of(t) && has_digit(s) == has_digit(t) ==> rank_score(s)
            == rank_score(t),
{
}

/// Switching to the code view and back leaves the desk as it was.
pub proof fn toggling_the_code_view_twice_restores_the_desk(d: Option<DeskView>)
    ensures
        desk_after(desk_after(d, DeskMessage::ToggleViewCode), DeskMessage::ToggleViewCode) == d,
{
}

/// With the desk closed, only opening it does anything: every other
/// message leaves it closed and starts no export.
pub proof fn a_closed_desk_ignores_its_messages(message: DeskMessage)
    requires
        !(message is EnterNoteDesk),
    ensures
        desk_after(None, message) is None,
        export_started(None, message) is None,
{
}

/// Leaving the desk always closes it, and changing the filter changes
/// nothing else.
pub proof fn leaving_closes_and_filtering_only_filters(d: DeskView, f: TranscriptFilter)
    ensures
        desk_after(Some(d), DeskMessage::BackToDictate) is None,
        desk_after(Some(d), DeskMessage::SetTranscriptFilter(f)) == Some(
            DeskView { filter: f, ..d },
        ),
{
}

} // verus!
