//! Turning a note desk into a self-contained Typst document: a title
//! heading, the kept chapters as a bullet list, and every transcript row as
//! a timestamped paragraph (kept rows carry an accent timestamp). Arbitrary
//! title, heading and transcript text is escaped so it can never break the
//! surrounding markup.

use vstd::prelude::*;

use crate::note_desk::{DeskView, Gutter, NoteDeskState, NoteHeading, RowView, TranscriptRow};
use crate::text::{chars_of, push, push_str};

verus! {

/// Characters that mean something in Typst markup and are escaped with a
/// backslash when they occur in note text.
pub open spec fn is_markup_special(c: char) -> bool {
    ||| c == '\\'
    ||| c == '#'
    ||| c == '['
    ||| c == ']'
    ||| c == '*'
    ||| c == '_'
    ||| c == '`'
    ||| c == '$'
    ||| c == '<'
    ||| c == '>'
    ||| c == '@'
    ||| c == '~'
    ||| c == '/'
}

/// What one character becomes in escaped markup.
pub open spec fn markup_piece(c: char) -> Seq<char> {
    if is_markup_special(c) {
        seq!['\\', c]
    } else {
        seq![c]
    }
}

/// `s` escaped for Typst markup.
pub open spec fn escape_markup_of(s: Seq<char>) -> Seq<char>
    decreases s.len(),
{
    if s.len() == 0 {
        Seq::empty()
    } else {
        escape_markup_of(s.drop_last()) + markup_piece(s.last())
    }
}

/// What one character becomes inside a Typst string literal.
pub open spec fn string_piece(c: char) -> Seq<char> {
    if c == '"' || c == '\\' {
        seq!['\\', c]
    } else {
        seq![c]
    }
}

/// The body of a Typst string literal holding `s`.
pub open spec fn escape_string_of(s: Seq<char>) -> Seq<char>
    decreases s.len(),
{
    if s.len() == 0 {
        Seq::empty()
    } else {
        escape_string_of(s.drop_last()) + string_piece(s.last())
    }
}

/// `s` as a quoted Typst string literal.
pub open spec fn typst_string_of(s: Seq<char>) -> Seq<char> {
    seq!['"'] + escape_string_of(s) + seq!['"']
}

/// One kept chapter's bullet line.
pub open spec fn chapter_line(h: (Seq<char>, Seq<char>)) -> Seq<char> {
    "- *"@ + escape_markup_of(h.0) + "* "@ + escape_markup_of(h.1) + seq!['\n']
}

/// The bullet lines of `hs`, in order.
pub open spec fn chapter_lines(hs: Seq<(Seq<char>, Seq<char>)>) -> Seq<char>
    decreases hs.len(),
{
    if hs.len() == 0 {
        Seq::empty()
    } else {
        chapter_lines(hs.drop_last()) + chapter_line(hs.last())
    }
}

/// The timestamp fill of a row: the accent for kept rows, a dim grey else.
pub open spec fn row_fill(g: Gutter) -> Seq<char> {
    if g == Gutter::Kept {
        "rgb(\"#ec3013\")"@
    } else {
        "luma(120)"@
    }
}

/// The speaker prefix of a row's paragraph.
pub open spec fn speaker_prefix(speaker: Option<Seq<char>>) -> Seq<char> {
    match speaker {
        Some(name) => seq!['_'] + escape_markup_of(name) + ":_ "@,
        None => Seq::empty(),
    }
}

/// One transcript row's timestamped paragraph.
pub open spec fn row_paragraph(r: RowView) -> Seq<char> {
    "#text(fill: "@ + row_fill(r.gutter) + ")[*"@ + escape_markup_of(r.time_label) + "*]  "@
        + speaker_prefix(r.speaker_id) + escape_markup_of(r.text) + "\n\n"@
}

/// The paragraphs of `rows`, in order.
pub open spec fn row_paragraphs(rows: Seq<RowView>) -> Seq<char>
    decreases rows.len(),
{
    if rows.len() == 0 {
        Seq::empty()
    } else {
        row_paragraphs(rows.drop_last()) + row_paragraph(rows.last())
    }
}

/// The chapters section: absent when there are no headings.
pub open spec fn chapters_section(hs: Seq<(Seq<char>, Seq<char>)>) -> Seq<char> {
    if hs.len() == 0 {
        Seq::empty()
    } else {
        "== Chapters\n\n"@ + chapter_lines(hs) + seq!['\n']
    }
}

/// The document preamble: title metadata and a plain page setup.
pub open spec fn preamble(title: Seq<char>) -> Seq<char> {
    "#set document(title: "@ + typst_string_of(title) + ")\n"@ + "#set page(margin: 2cm)\n"@
        + "#set par(justify: true)\n"@ + "#set text(size: 11pt)\n\n"@
}

/// The complete Typst source for a desk.
pub open spec fn document_of(d: DeskView) -> Seq<char> {
    preamble(d.title) + "= "@ + escape_markup_of(d.title) + "\n\n"@ + chapters_section(d.headings)
        + "== Transcript\n\n"@ + row_paragraphs(d.rows)
}

/// Appends `s` escaped for Typst markup to `out`.
pub fn push_escaped_markup(out: &mut String, s: &str)
    ensures
        final(out)@ == old(out)@ + escape_markup_of(s@),
{
    let v = chars_of(s);
    let mut i: usize = 0;
    while i < v.len()
        invariant
            v@ == s@,
            i <= v.len(),
            out@ == old(out)@ + escape_markup_of(s@.take(i as int)),
        decreases v.len() - i,
    {
        let c = v[i];
        let special = c == '\\' || c == '#' || c == '[' || c == ']' || c == '*' || c == '_' || c
            == '`' || c == '$' || c == '<' || c == '>' || c == '@' || c == '~' || c == '/';
        if special {
            push(out, '\\');
        }
        push(out, c);
        proof {
            let t = s@.take(i + 1);
            assert(t.drop_last() =~= s@.take(i as int));
            assert(t.last() == c);
        }
        i += 1;
        assert(out@ =~= old(out)@ + escape_markup_of(s@.take(i as int)));
    }
    assert(s@.take(v.len() as int) =~= s@);
}

/// Escapes `s` for Typst markup: every markup metacharacter gets a
/// backslash.
pub fn escape_markup(s: &str) -> (e: String)
    ensures
        e@ == escape_markup_of(s@),
{
    let mut out = String::new();
    push_escaped_markup(&mut out, s);
    assert(out@ =~= escape_markup_of(s@));
    out
}

/// Appends `s` as a quoted Typst string literal to `out`.
pub fn push_typst_string(out: &mut String, s: &str)
    ensures
        final(out)@ == old(out)@ + typst_string_of(s@),
{
    push(out, '"');
    let ghost start = out@;
    let v = chars_of(s);
    let mut i: usize = 0;
    while i < v.len()
        invariant
            v@ == s@,
            i <= v.len(),
            out@ == start + escape_string_of(s@.take(i as int)),
        decreases v.len() - i,
    {
        let c = v[i];
        if c == '"' || c == '\\' {
            push(out, '\\');
        }
        push(out, c);
        proof {
            let t = s@.take(i + 1);
            assert(t.drop_last() =~= s@.take(i as int));
            assert(t.last() == c);
        }
        i += 1;
        assert(out@ =~= start + escape_string_of(s@.take(i as int)));
    }
    assert(s@.take(v.len() as int) =~= s@);
    push(out, '"');
    assert(out@ =~= old(out)@ + typst_string_of(s@));
}

/// `s` as a quoted Typst string literal, with quotes and backslashes
/// escaped.
pub fn typst_string(s: &str) -> (q: String)
    ensures
        q@ == typst_string_of(s@),
{
    let mut out = String::new();
    push_typst_string(&mut out, s);
    assert(out@ =~= typst_string_of(s@));
    out
}

fn push_chapter_line(out: &mut String, h: &NoteHeading)
    ensures
        final(out)@ == old(out)@ + chapter_line(h@),
{
    push_str(out, "- *");
    push_escaped_markup(out, h.time_label.as_str());
    push_str(out, "* ");
    push_escaped_markup(out, h.title.as_str());
    push(out, '\n');
    assert(out@ =~= old(out)@ + chapter_line(h@));
}

fn push_row_paragraph(out: &mut String, r: &TranscriptRow)
    ensures
        final(out)@ == old(out)@ + row_paragraph(r@),
{
    push_str(out, "#text(fill: ");
    match r.gutter {
        Gutter::Kept => push_str(out, "rgb(\"#ec3013\")"),
        _ => push_str(out, "luma(120)"),
    }
    push_str(out, ")[*");
    push_escaped_markup(out, r.time_label.as_str());
    push_str(out, "*]  ");
    let ghost before_speaker = out@;
    match &r.speaker_id {
        Some(speaker) => {
            push(out, '_');
            push_escaped_markup(out, speaker.as_str());
            push_str(out, ":_ ");
        },
        None => {},
    }
    assert(out@ =~= before_speaker + speaker_prefix(r@.speaker_id));
    push_escaped_markup(out, r.text.as_str());
    push_str(out, "\n\n");
    assert(out@ =~= old(out)@ + row_paragraph(r@));
}

/// Renders `nd` into a valid, self-contained Typst document.
pub fn document_typ(nd: &NoteDeskState) -> (doc: String)
    ensures
        doc@ == document_of(nd@),
{
    let mut out = String::new();
    push_str(&mut out, "#set document(title: ");
    push_typst_string(&mut out, nd.title.as_str());
    push_str(&mut out, ")\n");
    push_str(&mut out, "#set page(margin: 2cm)\n");
    push_str(&mut out, "#set par(justify: true)\n");
    push_str(&mut out, "#set text(size: 11pt)\n\n");
    assert(out@ =~= preamble(nd@.title));
    push_str(&mut out, "= ");
    push_escaped_markup(&mut out, nd.title.as_str());
    push_str(&mut out, "\n\n");
    let ghost before_chapters = out@;
    if nd.headings.len() > 0 {
        push_str(&mut out, "== Chapters\n\n");
        let ghost list_start = out@;
        let mut i: usize = 0;
        while i < nd.headings.len()
            invariant
                i <= nd.headings.len(),
                out@ == list_start + chapter_lines(nd@.headings.take(i as int)),
            decreases nd.headings.len() - i,
        {
            push_chapter_line(&mut out, &nd.headings[i]);
            proof {
                let t = nd@.headings.take(i + 1);
                assert(t.drop_last() =~= nd@.headings.take(i as int));
                assert(t.last() == nd.headings@[i as int]@);
            }
            i += 1;
            assert(out@ =~= list_start + chapter_lines(nd@.headings.take(i as int)));
        }
        assert(nd@.headings.take(nd.headings.len() as int) =~= nd@.headings);
        push(&mut out, '\n');
    }
    assert(out@ =~= before_chapters + chapters_section(nd@.headings));
    push_str(&mut out, "== Transcript\n\n");
    let ghost rows_start = out@;
    let mut j: usize = 0;
    while j < nd.rows.len()
        invariant
            j <= nd.rows.len(),
            out@ == rows_start + row_paragraphs(nd@.rows.take(j as int)),
        decreases nd.rows.len() - j,
    {
        push_row_paragraph(&mut out, &nd.rows[j]);
        proof {
            let t = nd@.rows.take(j + 1);
            assert(t.drop_last() =~= nd@.rows.take(j as int));
            assert(t.last() == nd.rows@[j as int]@);
        }
        j += 1;
        assert(out@ =~= rows_start + row_paragraphs(nd@.rows.take(j as int)));
    }
    assert(nd@.rows.take(nd.rows.len() as int) =~= nd@.rows);
    assert(out@ =~= document_of(nd@));
    out
}

proof fn lemma_row_paragraphs_append(a: Seq<RowView>, b: Seq<RowView>)
    ensures
        row_paragraphs(a + b) == row_paragraphs(a) + row_paragraphs(b),
    decreases b.len(),
{
    if b.len() == 0 {
        assert(a + b =~= a);
        assert(row_paragraphs(a) + row_paragraphs(b) =~= row_paragraphs(a));
    } else {
        assert((a + b).drop_last() =~= a + b.drop_last());
        assert((a + b).last() == b.last());
        lemma_row_paragraphs_append(a, b.drop_last());
        assert(row_paragraphs(a + b) =~= row_paragraphs(a) + row_paragraphs(b));
    }
}

/// Whether `w` stands in `doc` starting at position `k`.
pub open spec fn occurs_at(doc: Seq<char>, w: Seq<char>, k: int) -> bool {
    0 <= k && k + w.len() <= doc.len() && doc.subrange(k, k + w.len()) == w
}

/// Every transcript row stands in the exported document as its own
/// paragraph: the timestamp (in the accent colour for a kept row, dim grey
/// otherwise), then, for a row with a speaker, the speaker's name in
/// italics followed by a colon, then the row's text, all escaped; a row
/// without a speaker has nothing between the timestamp and the text.
pub proof fn every_row_is_exported_with_its_speaker(d: DeskView, i: int)
    requires
        0 <= i < d.rows.len(),
    ensures
        ({
            let r = d.rows[i];
            let fill = if r.gutter == Gutter::Kept {
                "rgb(\"#ec3013\")"@
            } else {
                "luma(120)"@
            };
            match r.speaker_id {
                Some(name) => exists|k: int, f: Seq<char>|
                    f == fill && occurs_at(
                        document_of(d),
                        "#text(fill: "@ + f + ")[*"@ + escape_markup_of(r.time_label) + "*]  "@
                            + seq!['_'] + escape_markup_of(name) + ":_ "@ + escape_markup_of(r.text)
                            + "\n\n"@,
                        k,
                    ),
                None => exists|k: int, f: Seq<char>|
                    f == fill && occurs_at(
                        document_of(d),
                        "#text(fill: "@ + f + ")[*"@ + escape_markup_of(r.time_label) + "*]  "@
                            + escape_markup_of(r.text) + "\n\n"@,
                        k,
                    ),
            }
        }),
{
    let r = d.rows[i];
    let head = preamble(d.title) + "= "@ + escape_markup_of(d.title) + "\n\n"@ + chapters_section(
        d.headings,
    ) + "== Transcript\n\n"@;
    assert(document_of(d) == head + row_paragraphs(d.rows));
    let before = d.rows.take(i);
    let after = d.rows.subrange(i + 1, d.rows.len() as int);
    assert(d.rows =~= before + (seq![r] + after));
    lemma_row_paragraphs_append(before, seq![r] + after);
    lemma_row_paragraphs_append(seq![r], after);
    assert(seq![r].drop_last() =~= Seq::<RowView>::empty());
    assert(seq![r].last() == r);
    assert(row_paragraphs(Seq::<RowView>::empty()) =~= Seq::<char>::empty());
    assert(row_paragraphs(seq![r]) =~= row_paragraph(r));
    let p = row_paragraph(r);
    let k: int = (head.len() + row_paragraphs(before).len()) as int;
    let doc = document_of(d);
    assert(doc =~= head + row_paragraphs(before) + p + row_paragraphs(after));
    assert(doc.subrange(k, k + p.len() as int) =~= p);
    let fill = if r.gutter == Gutter::Kept {
        "rgb(\"#ec3013\")"@
    } else {
        "luma(120)"@
    };
    assert(row_fill(r.gutter) == fill);
    match r.speaker_id {
        Some(name) => {
            let w = "#text(fill: "@ + fill + ")[*"@ + escape_markup_of(r.time_label) + "*]  "@
                + seq!['_'] + escape_markup_of(name) + ":_ "@ + escape_markup_of(r.text) + "\n\n"@;
            assert(p =~= w);
            assert(occurs_at(doc, w, k));
        },
        None => {
            let w = "#text(fill: "@ + fill + ")[*"@ + escape_markup_of(r.time_label) + "*]  "@
                + escape_markup_of(r.text) + "\n\n"@;
            assert(p =~= w);
            assert(occurs_at(doc, w, k));
        },
    }
}

/// Reads escaped text back: a backslash makes the character after it
/// literal (a lone trailing backslash stands for itself).
pub open spec fn unescape(t: Seq<char>) -> Seq<char>
    decreases t.len(),
{
    if t.len() == 0 {
        Seq::empty()
    } else if t[0] == '\\' && t.len() >= 2 {
        seq![t[1]] + unescape(t.subrange(2, t.len() as int))
    } else {
        seq![t[0]] + unescape(t.drop_first())
    }
}

proof fn lemma_escape_markup_append(a: Seq<char>, b: Seq<char>)
    ensures
        escape_markup_of(a + b) == escape_markup_of(a) + escape_markup_of(b),
    decreases b.len(),
{
    if b.len() == 0 {
        assert(a + b =~= a);
        assert(escape_markup_of(a) + escape_markup_of(b) =~= escape_markup_of(a));
    } else {
        assert((a + b).drop_last() =~= a + b.drop_last());
        assert((a + b).last() == b.last());
        lemma_escape_markup_append(a, b.drop_last());
        assert(escape_markup_of(a + b) =~= escape_markup_of(a) + escape_markup_of(b));
    }
}

proof fn lemma_escape_string_append(a: Seq<char>, b: Seq<char>)
    ensures
        escape_string_of(a + b) == escape_string_of(a) + escape_string_of(b),
    decreases b.len(),
{
    if b.len() == 0 {
        assert(a + b =~= a);
        assert(escape_string_of(a) + escape_string_of(b) =~= escape_string_of(a));
    } else {
        assert((a + b).drop_last() =~= a + b.drop_last());
        assert((a + b).last() == b.last());
        lemma_escape_string_append(a, b.drop_last());
        assert(escape_string_of(a + b) =~= escape_string_of(a) + escape_string_of(b));
    }
}

proof fn lemma_unescape_pair(c: char, rest: Seq<char>)
    ensures
        unescape(seq!['\\', c] + rest) == seq![c] + unescape(rest),
{
    let t = seq!['\\', c] + rest;
    assert(t[0] == '\\' && t[1] == c);
    assert(t.subrange(2, t.len() as int) =~= rest);
}

proof fn lemma_unescape_plain(c: char, rest: Seq<char>)
    requires
        c != '\\',
    ensures
        unescape(seq![c] + rest) == seq![c] + unescape(rest),
{
    let t = seq![c] + rest;
    assert(t[0] == c);
    assert(t.drop_first() =~= rest);
}

/// Escaping loses nothing: reading escaped markup back gives the text
/// itself, so note text can never turn into markup.
pub proof fn escaped_markup_reads_back(s: Seq<char>)
    ensures
        unescape(escape_markup_of(s)) == s,
    decreases s.len(),
{
    if s.len() > 0 {
        let c = s[0];
        let rest = s.drop_first();
        assert(s =~= seq![c] + rest);
        lemma_escape_markup_append(seq![c], rest);
        let one = seq![c];
        assert(one.drop_last() =~= Seq::<char>::empty());
        assert(one.last() == c);
        assert(escape_markup_of(one.drop_last()) =~= Seq::<char>::empty());
        assert(escape_markup_of(one) =~= markup_piece(c));
        escaped_markup_reads_back(rest);
        if is_markup_special(c) {
            lemma_unescape_pair(c, escape_markup_of(rest));
        } else {
            lemma_unescape_plain(c, escape_markup_of(rest));
        }
        assert(seq![c] + rest =~= s);
    }
}

/// A Typst string literal holds exactly its text: between the quotes,
/// reading the escapes back gives the text itself.
pub proof fn typst_strings_read_back(s: Seq<char>)
    ensures
        typst_string_of(s).len() >= 2,
        typst_string_of(s)[0] == '"',
        typst_string_of(s).last() == '"',
        unescape(typst_string_of(s).subrange(1, typst_string_of(s).len() - 1)) == s,
{
    let q = typst_string_of(s);
    assert(q.subrange(1, q.len() - 1) =~= escape_string_of(s));
    string_body_reads_back(s);
}

proof fn string_body_reads_back(s: Seq<char>)
    ensures
        unescape(escape_string_of(s)) == s,
    decreases s.len(),
{
    if s.len() > 0 {
        let c = s[0];
        let rest = s.drop_first();
        assert(s =~= seq![c] + rest);
        lemma_escape_string_append(seq![c], rest);
        let one = seq![c];
        assert(one.drop_last() =~= Seq::<char>::empty());
        assert(one.last() == c);
        assert(escape_string_of(one.drop_last()) =~= Seq::<char>::empty());
        assert(escape_string_of(one) =~= string_piece(c));
        string_body_reads_back(rest);
        if c == '"' || c == '\\' {
            lemma_unescape_pair(c, escape_string_of(rest));
        } else {
            lemma_unescape_plain(c, escape_string_of(rest));
        }
        assert(seq![c] + rest =~= s);
    }
}

} // verus!
