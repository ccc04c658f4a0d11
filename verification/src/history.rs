//! History on disk: which lines of the history file are entries, whether a
//! finished transcription is kept, and how the next entry is written when
//! history encryption is on or off.

use vstd::prelude::*;

use crate::text::{
    all_ws, chars_of, decimal, is_blank, is_whitespace, push_decimal, push_str, string_from_chars,
    truncate, truncated, word_count, word_count_of,
};

verus! {

/// The 32-byte key history is encrypted under while encryption is on.
#[derive(PartialEq, Eq)]
pub struct HistoryKey(pub [u8; 32]);

impl HistoryKey {
    /// The raw key.
    pub fn bytes(&self) -> (b: &[u8; 32])
        ensures
            b@ == self.0@,
    {
        &self.0
    }
}

/// How the next history entry reaches disk.
#[derive(Debug, PartialEq, Eq)]
pub enum HistoryWrite<'a> {
    /// Encryption is off: a plain JSON line.
    Plain,
    /// Encryption is on: an encrypted line under this key.
    Encrypted(&'a [u8; 32]),
    /// Encryption is on but its key could not be loaded: the entry stays in
    /// memory for this session rather than reach disk in the clear.
    MemoryOnly,
}

/// Decides [`HistoryWrite`] from the setting and the key loaded for it.
pub fn history_write(encryption_on: bool, key: Option<&HistoryKey>) -> (w: HistoryWrite<'_>)
    ensures
        !encryption_on ==> w is Plain,
        encryption_on && key is None ==> w is MemoryOnly,
        encryption_on && key is Some ==> (w matches HistoryWrite::Encrypted(b) && b@
            == key.unwrap().0@),
{
    match (encryption_on, key) {
        (false, _) => HistoryWrite::Plain,
        (true, Some(key)) => HistoryWrite::Encrypted(key.bytes()),
        (true, None) => HistoryWrite::MemoryOnly,
    }
}

/// `line` as a line of text: without the `\r` of a `\r\n` ending.
pub open spec fn without_cr(line: Seq<char>) -> Seq<char> {
    if line.len() > 0 && line.last() == '\r' {
        line.drop_last()
    } else {
        line
    }
}

/// The non-blank lines of `rest`, the current line having begun with
/// `cur`. Lines end at `\n` (a `\r` before it is dropped); a last line
/// without `\n` is kept as it is, and blank lines are skipped.
pub open spec fn kept_lines_from(rest: Seq<char>, cur: Seq<char>) -> Seq<Seq<char>>
    decreases rest.len(),
{
    if rest.len() == 0 {
        if cur.len() == 0 || all_ws(cur) {
            seq![]
        } else {
            seq![cur]
        }
    } else if rest[0] == '\n' {
        let line = without_cr(cur);
        let tail = kept_lines_from(rest.drop_first(), seq![]);
        if all_ws(line) {
            tail
        } else {
            seq![line] + tail
        }
    } else {
        kept_lines_from(rest.drop_first(), cur.push(rest[0]))
    }
}

/// Every line of `lines` has something besides whitespace and no line
/// break in it.
pub open spec fn single_nonblank_lines(lines: Seq<Seq<char>>) -> bool {
    forall|i: int| 0 <= i < lines.len() ==> !all_ws(#[trigger] lines[i]) && !lines[i].contains('\n')
}

proof fn lemma_kept_lines(rest: Seq<char>, cur: Seq<char>)
    requires
        !cur.contains('\n'),
    ensures
        single_nonblank_lines(kept_lines_from(rest, cur)),
    decreases rest.len(),
{
    if rest.len() == 0 {
    } else if rest[0] == '\n' {
        let line = without_cr(cur);
        lemma_kept_lines(rest.drop_first(), seq![]);
        let tail = kept_lines_from(rest.drop_first(), seq![]);
        if !all_ws(line) {
            assert(!line.contains('\n')) by {
                if line.contains('\n') {
                    let k = choose|k: int| 0 <= k < line.len() && line[k] == '\n';
                    assert(cur[k] == line[k]);
                }
            }
            let all = seq![line] + tail;
            assert forall|i: int| 0 <= i < all.len() implies !all_ws(#[trigger] all[i])
                && !all[i].contains('\n') by {
                if i > 0 {
                    assert(all[i] == tail[i - 1]);
                }
            }
        }
    } else {
        let next = cur.push(rest[0]);
        assert(!next.contains('\n')) by {
            if next.contains('\n') {
                let k = choose|k: int| 0 <= k < next.len() && next[k] == '\n';
                if k < cur.len() {
                    assert(cur[k] == next[k]);
                }
            }
        }
        lemma_kept_lines(rest.drop_first(), next);
    }
}

/// Every line the history reader hands on holds one whole line of the file:
/// nothing blank, no line break inside.
pub proof fn history_lines_are_single_nonblank_lines(contents: Seq<char>)
    ensures
        single_nonblank_lines(history_lines_of(contents)),
{
    lemma_kept_lines(contents, seq![]);
}

/// The non-blank lines of `contents`, as `str::lines` splits it.
pub open spec fn history_lines_of(contents: Seq<char>) -> Seq<Seq<char>> {
    kept_lines_from(contents, seq![])
}

fn blank_chars(v: &Vec<char>) -> (b: bool)
    ensures
        b == all_ws(v@),
{
    let mut i: usize = 0;
    while i < v.len()
        invariant
            i <= v.len(),
            forall|j: int| 0 <= j < i ==> crate::text::is_ws(#[trigger] v@[j]),
        decreases v.len() - i,
    {
        if !is_whitespace(v[i]) {
            return false;
        }
        i += 1;
    }
    true
}

/// The lines of a history file that may hold entries: every line that is
/// not blank, in order.
pub fn history_lines(contents: &str) -> (lines: Vec<String>)
    ensures
        lines@.map_values(|l: String| l@) == history_lines_of(contents@),
{
    let s = chars_of(contents);
    let mut lines: Vec<String> = Vec::new();
    let mut cur: Vec<char> = Vec::new();
    let mut i: usize = 0;
    assert(s@.skip(0) =~= s@);
    assert(lines@.map_values(|l: String| l@) =~= Seq::<Seq<char>>::empty());
    assert(cur@ =~= Seq::<char>::empty());
    while i < s.len()
        invariant
            s@ == contents@,
            i <= s.len(),
            lines@.map_values(|l: String| l@) + kept_lines_from(s@.skip(i as int), cur@)
                == history_lines_of(contents@),
        decreases s.len() - i,
    {
        let ghost rest = s@.skip(i as int);
        assert(rest.drop_first() =~= s@.skip(i + 1));
        assert(rest[0] == s@[i as int]);
        if s[i] == '\n' {
            let ghost before = lines@;
            let mut line = cur;
            if line.len() > 0 && line[line.len() - 1] == '\r' {
                line.pop();
            }
            assert(line@ == without_cr(cur@)) by {
                if cur@.len() > 0 && cur@.last() == '\r' {
                    assert(line@ =~= cur@.drop_last());
                }
            }
            if !blank_chars(&line) {
                lines.push(string_from_chars(&line));
                assert(lines@.map_values(|l: String| l@) =~= before.map_values(|l: String| l@)
                    + seq![line@]);
            }
            cur = Vec::new();
        } else {
            cur.push(s[i]);
        }
        i += 1;
    }
    let ghost before = lines@;
    assert(s@.skip(i as int) =~= Seq::<char>::empty());
    if cur.len() > 0 && !blank_chars(&cur) {
        lines.push(string_from_chars(&cur));
        assert(lines@.map_values(|l: String| l@) =~= before.map_values(|l: String| l@) + seq![
            cur@,
        ]);
    } else {
        assert(lines@.map_values(|l: String| l@) + kept_lines_from(s@.skip(i as int), cur@)
            =~= lines@.map_values(|l: String| l@));
    }
    lines
}

/// A finished transcription is kept in history unless it is blank (such
/// as silence).
pub fn keeps_transcript(text: &str) -> (b: bool)
    ensures
        b == !all_ws(text@),
{
    !is_blank(text)
}

/// What `str::to_lowercase` returns for `s`.
pub uninterp spec fn lowercase_of(s: Seq<char>) -> Seq<char>;

/// `str::to_lowercase`: the Unicode lower-case mapping of `s`. Its result is
/// named [`lowercase_of`] of the argument; the mapping itself (Unicode's
/// case tables) is not spelled out.
#[verifier::external_body]
fn to_lowercase(s: &str) -> (l: String)
    ensures
        l@ == lowercase_of(s@),
{
    s.to_lowercase()
}

/// `needle` occurs in `hay` at position `i`.
pub open spec fn occurs_at(hay: Seq<char>, needle: Seq<char>, i: int) -> bool {
    0 <= i && i + needle.len() <= hay.len() && hay.subrange(i, i + needle.len()) == needle
}

/// `needle` occurs somewhere in `hay` (`str::contains`).
pub open spec fn contains_text(hay: Seq<char>, needle: Seq<char>) -> bool {
    exists|i: int| #[trigger] occurs_at(hay, needle, i)
}

fn occurs_at_exec(hay: &Vec<char>, needle: &Vec<char>, i: usize) -> (b: bool)
    requires
        i + needle.len() <= hay.len(),
    ensures
        b == occurs_at(hay@, needle@, i as int),
{
    let mut k: usize = 0;
    while k < needle.len()
        invariant
            i + needle.len() <= hay.len(),
            k <= needle.len(),
            forall|j: int| 0 <= j < k ==> hay@[i + j] == needle@[j],
        decreases needle.len() - k,
    {
        if hay[i + k] != needle[k] {
            assert(hay@.subrange(i as int, i + needle.len())[k as int] != needle@[k as int]);
            return false;
        }
        k += 1;
    }
    assert(hay@.subrange(i as int, i + needle.len()) =~= needle@);
    true
}

/// Whether `needle` occurs in `hay`.
pub fn contains_chars(hay: &Vec<char>, needle: &Vec<char>) -> (b: bool)
    ensures
        b == contains_text(hay@, needle@),
{
    if needle.len() > hay.len() {
        return false;
    }
    if needle.len() == 0 {
        assert(hay@.subrange(0, 0) =~= needle@);
        assert(occurs_at(hay@, needle@, 0));
        return true;
    }
    let last = hay.len() - needle.len();
    let mut i: usize = 0;
    while i <= last
        invariant
            last == hay.len() - needle.len(),
            0 < needle.len() <= hay.len(),
            i <= last + 1,
            forall|j: int| 0 <= j < i ==> !occurs_at(hay@, needle@, j),
        decreases last + 1 - i,
    {
        if occurs_at_exec(hay, needle, i) {
            return true;
        }
        i += 1;
    }
    false
}

/// Whether history entry `text` matches a search for `query`: every entry
/// matches an empty query; otherwise the lower-cased query must occur in
/// the lower-cased text.
pub open spec fn entry_matches(query: Seq<char>, text: Seq<char>) -> bool {
    lowercase_of(query).len() == 0 || contains_text(lowercase_of(text), lowercase_of(query))
}

/// The positions of the entries of `texts` a search for `query` shows,
/// newest (last) first, among the first `n`.
pub open spec fn matching_entries(query: Seq<char>, texts: Seq<Seq<char>>, n: int) -> Seq<usize>
    decreases n,
{
    if n <= 0 {
        Seq::empty()
    } else {
        let rest = matching_entries(query, texts, n - 1);
        if entry_matches(query, texts[n - 1]) {
            seq![(n - 1) as usize] + rest
        } else {
            rest
        }
    }
}

/// The entries the History table shows for `query`, by position in
/// `texts` (oldest first), newest first: all of them for an empty query,
/// else those whose text contains the query, ignoring case.
pub fn search_history(query: &str, texts: &Vec<String>) -> (shown: Vec<usize>)
    ensures
        shown@ == matching_entries(query@, texts@.map_values(|t: String| t@), texts@.len() as int),
{
    let q = to_lowercase(query);
    let qc = chars_of(q.as_str());
    let ghost tv = texts@.map_values(|t: String| t@);
    let mut shown: Vec<usize> = Vec::new();
    let mut n: usize = texts.len();
    proof {
        assert(matching_entries(query@, tv, n as int) =~= shown@ + matching_entries(
            query@,
            tv,
            n as int,
        ));
    }
    while n > 0
        invariant
            n <= texts.len(),
            tv == texts@.map_values(|t: String| t@),
            qc@ == lowercase_of(query@),
            shown@ + matching_entries(query@, tv, n as int) == matching_entries(
                query@,
                tv,
                texts@.len() as int,
            ),
        decreases n,
    {
        let i = n - 1;
        let t = to_lowercase(texts[i].as_str());
        let tc = chars_of(t.as_str());
        assert(tv[i as int] == texts@[i as int]@);
        let matched = qc.len() == 0 || contains_chars(&tc, &qc);
        let ghost before = shown@;
        if matched {
            shown.push(i);
            assert(shown@ + matching_entries(query@, tv, i as int) =~= before + matching_entries(
                query@,
                tv,
                n as int,
            ));
        } else {
            assert(shown@ + matching_entries(query@, tv, i as int) =~= before + matching_entries(
                query@,
                tv,
                n as int,
            ));
        }
        n = i;
    }
    assert(shown@ =~= shown@ + matching_entries(query@, tv, 0));
    shown
}

/// The History table's placeholder when a search shows nothing: an empty
/// history invites a first dictation, otherwise nothing matched.
pub fn empty_history_message(has_entries: bool) -> (m: &'static str)
    ensures
        m@ == (if has_entries {
            "Nothing matches your search."@
        } else {
            "No transcriptions yet -- dictate something to see it here."@
        }),
{
    if has_entries {
        "Nothing matches your search."
    } else {
        "No transcriptions yet -- dictate something to see it here."
    }
}

/// How many dictations the Dictate screen's Recent block lists.
pub const RECENT_COUNT: usize = 3;

/// How many characters of a recent dictation its preview shows.
pub const PREVIEW_CHARS: usize = 72;

/// `N words`.
pub open spec fn words_label_of(n: nat) -> Seq<char> {
    decimal(n) + " words"@
}

/// One row of the Recent block: a preview of the text and its word count.
#[derive(Debug)]
pub struct RecentRow {
    pub preview: String,
    pub words: String,
}

/// `N words` for a count of words.
pub fn words_label(n: usize) -> (l: String)
    ensures
        l@ == words_label_of(n as nat),
{
    let mut l = String::new();
    push_decimal(&mut l, n as u64);
    push_str(&mut l, " words");
    l
}

/// The Recent block's rows for `texts` (oldest first): the last
/// [`RECENT_COUNT`] dictations, newest first, each previewed to
/// [`PREVIEW_CHARS`] characters beside its word count.
pub fn recent_rows(texts: &Vec<String>) -> (rows: Vec<RecentRow>)
    ensures
        rows@.len() == if texts@.len() < RECENT_COUNT {
            texts@.len()
        } else {
            RECENT_COUNT as nat
        },
        forall|k: int|
            0 <= k < rows@.len() ==> {
                let t = texts@[texts@.len() - 1 - k]@;
                &&& (#[trigger] rows@[k]).preview@ == truncated(t, PREVIEW_CHARS as nat)
                &&& rows@[k].words@ == words_label_of(word_count_of(t))
            },
{
    let n = texts.len();
    let mut rows: Vec<RecentRow> = Vec::new();
    let mut k: usize = 0;
    while k < n && k < RECENT_COUNT
        invariant
            n == texts@.len(),
            k <= n,
            k <= RECENT_COUNT,
            rows@.len() == k,
            forall|j: int|
                0 <= j < k ==> {
                    let t = texts@[n - 1 - j]@;
                    &&& (#[trigger] rows@[j]).preview@ == truncated(t, PREVIEW_CHARS as nat)
                    &&& rows@[j].words@ == words_label_of(word_count_of(t))
                },
        decreases RECENT_COUNT - k,
    {
        let text = &texts[n - 1 - k];
        rows.push(
            RecentRow {
                preview: truncate(text.as_str(), PREVIEW_CHARS),
                words: words_label(word_count(text.as_str())),
            },
        );
        k += 1;
    }
    rows
}

} // verus!
