//! Entry records: one mail message parsed from one markdown file.
//!
//! A file consists of a YAML frontmatter block followed by the body text.
//! The frontmatter split and the YAML decoding are gray_matter's; building
//! the record from the decoded fields — defaults, display-name extraction,
//! date resolution, the extension filter and the date-descending sort —
//! is verified here. A file whose metadata does not parse is skipped, and
//! never aborts a directory load.

use vstd::prelude::*;
use vstd::multiset::Multiset;
use vstd::seq_lib::lemma_multiset_commutative;
use vstd::string::*;

use crate::app::Mailbox;
use crate::dates::opt_view;
use crate::dates::resolved_dates;
use crate::text::TrimKind;
use crate::text::chars_to_string;
use crate::text::kind_pred;
use crate::text::lemma_lex_lt_connex;
use crate::text::lemma_lex_lt_trans;
use crate::text::lex_le;
use crate::text::lex_lt;
use crate::text::str_lt;
use crate::text::str_to_chars;
use crate::text::subvec;
use crate::text::trim_spec;
use crate::text::trim_vec;

verus! {

/// One file of a mailbox directory, as the I/O layer hands it over: its
/// full path, its bare file name, and its text.
pub struct RawFile {
    pub path: String,
    pub name: String,
    pub content: String,
}

/// The metadata fields a frontmatter block may carry; every one optional.
pub struct RawFields {
    pub from: Option<String>,
    pub to: Option<String>,
    pub cc: Option<String>,
    pub subject: Option<String>,
    pub status: Option<String>,
    pub date: Option<String>,
    pub sent_at: Option<String>,
    pub has_attachments: Option<bool>,
}

/// The mathematical shape of a parsed document: the metadata fields and
/// the body text after the frontmatter block.
pub struct FrontSpec {
    pub from: Option<Seq<char>>,
    pub to: Option<Seq<char>>,
    pub cc: Option<Seq<char>>,
    pub subject: Option<Seq<char>>,
    pub status: Option<Seq<char>>,
    pub date: Option<Seq<char>>,
    pub sent_at: Option<Seq<char>>,
    pub has_attachments: Option<bool>,
    pub body: Seq<char>,
}

/// What gray_matter's YAML frontmatter parse extracts from a document:
/// its string and boolean fields and the remaining body, or none when the
/// metadata block is not valid YAML. A pure function of the text.
pub uninterp spec fn front_of(s: Seq<char>) -> Option<FrontSpec>;

/// The view of parsed fields and a body.
pub open spec fn fields_view(f: RawFields, body: Seq<char>) -> FrontSpec {
    FrontSpec {
        from: opt_view(f.from),
        to: opt_view(f.to),
        cc: opt_view(f.cc),
        subject: opt_view(f.subject),
        status: opt_view(f.status),
        date: opt_view(f.date),
        sent_at: opt_view(f.sent_at),
        has_attachments: f.has_attachments,
        body,
    }
}

/// Relies on gray_matter's Matter::<YAML>::parse, which splits a document
/// at its `---` delimiters and decodes the metadata block, failing on
/// invalid YAML; the string and boolean fields are read back out of the
/// decoded map with Pod::as_hashmap, Pod::as_string and Pod::as_bool.
#[verifier::external_body]
fn split_front_matter(content: &str) -> (r: Option<(RawFields, String)>)
    ensures
        r is Some <==> front_of(content@) is Some,
        r matches Some(p) ==> front_of(content@) == Some(fields_view(p.0, p.1@)),
{
    let matter = gray_matter::Matter::<gray_matter::engine::YAML>::new();
    let parsed = match matter.parse::<gray_matter::Pod>(content) {
        Ok(p) => p,
        Err(_) => return None,
    };
    let map = parsed.data.and_then(|d| d.as_hashmap().ok()).unwrap_or_default();
    let text = |k: &str| map.get(k).and_then(|p| p.as_string().ok());
    let flag = map.get("has_attachments").and_then(|p| p.as_bool().ok());
    let fields = RawFields {
        from: text("from"), to: text("to"), cc: text("cc"), subject: text("subject"),
        status: text("status"), date: text("date"), sent_at: text("sent_at"), has_attachments: flag,
    };
    Some((fields, parsed.content))
}

/// One parsed email record, immutable once built; a file change calls for
/// a fresh parse, never an in-place update.
#[derive(Debug)]
pub struct EmailEntry {
    pub path: String,
    pub from: String,
    pub to: String,
    pub cc: Option<String>,
    pub subject: String,
    pub status: String,
    pub date_display: String,
    pub date_sort: String,
    pub body: String,
    pub has_attachments: bool,
}

impl EmailEntry {
    /// The contact a list row shows: received mail names its sender,
    /// composed mail its recipient.
    pub fn display_contact(&self, mailbox: Mailbox) -> (r: &str)
        ensures
            r@ == spec_contact(self, mailbox),
    {
        match mailbox {
            Mailbox::Inbox | Mailbox::Archive => self.from.as_str(),
            Mailbox::Drafts | Mailbox::Sent => self.to.as_str(),
        }
    }
}

/// The contact field a mailbox displays.
pub open spec fn spec_contact(e: &EmailEntry, mailbox: Mailbox) -> Seq<char> {
    match mailbox {
        Mailbox::Inbox | Mailbox::Archive => e.from@,
        Mailbox::Drafts | Mailbox::Sent => e.to@,
    }
}

/// An equal copy of an entry.
pub fn clone_entry(e: &EmailEntry) -> (r: EmailEntry)
    ensures
        r == *e,
{
    EmailEntry {
        path: e.path.clone(),
        from: e.from.clone(),
        to: e.to.clone(),
        cc: match &e.cc {
            Some(s) => Some(s.clone()),
            None => None,
        },
        subject: e.subject.clone(),
        status: e.status.clone(),
        date_display: e.date_display.clone(),
        date_sort: e.date_sort.clone(),
        body: e.body.clone(),
        has_attachments: e.has_attachments,
    }
}

/// An equal copy of an entry list.
pub fn clone_entries(v: &Vec<EmailEntry>) -> (r: Vec<EmailEntry>)
    ensures
        r@ == v@,
{
    let mut r: Vec<EmailEntry> = Vec::new();
    let mut i: usize = 0;
    while i < v.len()
        invariant
            i <= v@.len(),
            r@ == v@.subrange(0, i as int),
        decreases v@.len() - i,
    {
        r.push(clone_entry(&v[i]));
        proof {
            assert(v@.subrange(0, i as int).push(v@[i as int]) =~= v@.subrange(0, i as int + 1));
        }
        i += 1;
    }
    proof {
        assert(v@.subrange(0, v@.len() as int) =~= v@);
    }
    r
}

/// The least position of `<` in the sequence at or after `i`, or -1.
pub open spec fn find_lt_from(s: Seq<char>, i: int) -> int
    decreases s.len() - i,
{
    if i < 0 || i >= s.len() {
        -1
    } else if s[i] == '<' {
        i
    } else {
        find_lt_from(s, i + 1)
    }
}

/// The display name of an address field: the part before `<`, with
/// whitespace and double quotes trimmed; a bare `<address>` loses its
/// brackets; anything without `<` stands as trimmed.
pub open spec fn display_name_of(addr: Seq<char>) -> Seq<char> {
    let t = trim_spec(trim_spec(addr, kind_pred(TrimKind::Space)), kind_pred(TrimKind::Quote));
    let i = find_lt_from(t, 0);
    if i >= 0 {
        let name = trim_spec(
            trim_spec(t.take(i), kind_pred(TrimKind::Space)),
            kind_pred(TrimKind::Quote),
        );
        if name.len() == 0 {
            trim_spec(t, kind_pred(TrimKind::Angle))
        } else {
            name
        }
    } else {
        t
    }
}

/// Extract a short display name from an address field: the quoted or bare
/// name before an angle-bracketed address, the address alone when no name
/// precedes it, or the whole trimmed field.
pub fn extract_display_name(addr: &str) -> (r: String)
    ensures
        r@ == display_name_of(addr@),
{
    let chars = str_to_chars(addr);
    let t0 = trim_vec(&chars, TrimKind::Space);
    let t = trim_vec(&t0, TrimKind::Quote);
    let mut i: usize = 0;
    while i < t.len() && t[i] != '<'
        invariant
            i <= t@.len(),
            find_lt_from(t@, 0) == find_lt_from(t@, i as int),
        decreases t@.len() - i,
    {
        i += 1;
    }
    if i < t.len() {
        let before = subvec(&t, 0, i);
        let n0 = trim_vec(&before, TrimKind::Space);
        let name = trim_vec(&n0, TrimKind::Quote);
        proof {
            assert(before@ =~= t@.take(i as int));
        }
        if name.len() == 0 {
            let stripped = trim_vec(&t, TrimKind::Angle);
            chars_to_string(&stripped)
        } else {
            chars_to_string(&name)
        }
    } else {
        chars_to_string(&t)
    }
}

/// Whether a file name carries the recognized document extension `.md`.
pub open spec fn entry_ext(name: Seq<char>) -> bool {
    name.len() >= 4 && name.subrange(name.len() - 3, name.len() as int) == ".md"@
}

/// Whether a file name ends in the recognized `.md` extension (with a
/// non-empty stem before it).
pub fn has_entry_extension(name: &str) -> (r: bool)
    ensures
        r == entry_ext(name@),
{
    proof {
        reveal_strlit(".md");
    }
    let n = name.unicode_len();
    if n < 4 {
        return false;
    }
    let ok = name.get_char(n - 3) == '.' && name.get_char(n - 2) == 'm' && name.get_char(n - 1)
        == 'd';
    proof {
        let tail = name@.subrange(name@.len() - 3, name@.len() as int);
        if ok {
            assert(tail =~= ".md"@);
        } else {
            assert(tail != ".md"@) by {
                if tail == ".md"@ {
                    assert(tail[0] == ".md"@[0]);
                    assert(tail[1] == ".md"@[1]);
                    assert(tail[2] == ".md"@[2]);
                }
            }
        }
    }
    ok
}

/// The subject when one is set, else the placeholder.
pub open spec fn subject_or_default(o: Option<Seq<char>>) -> Seq<char> {
    match o {
        Some(s) => s,
        None => "(no subject)"@,
    }
}

/// The status when one is set, else the placeholder.
pub open spec fn status_or_default(o: Option<Seq<char>>) -> Seq<char> {
    match o {
        Some(s) => s,
        None => "unknown"@,
    }
}

/// An optional field, or empty.
pub open spec fn or_empty(o: Option<Seq<char>>) -> Seq<char> {
    match o {
        Some(s) => s,
        None => Seq::empty(),
    }
}

/// The record a file parses to: every field of `e` pinned by the file's
/// frontmatter, its body, and its name.
pub open spec fn entry_matches_file(f: RawFile, e: EmailEntry) -> bool {
    front_of(f.content@) matches Some(fs) && {
        let dates = resolved_dates(fs.date, fs.sent_at, f.name@);
        &&& e.path@ == f.path@
        &&& e.from@ == display_name_of(or_empty(fs.from))
        &&& e.to@ == display_name_of(or_empty(fs.to))
        &&& opt_view(e.cc) == fs.cc
        &&& e.subject@ == subject_or_default(fs.subject)
        &&& e.status@ == status_or_default(fs.status)
        &&& e.date_display@ == dates.0
        &&& e.date_sort@ == dates.1
        &&& e.body@ == fs.body
        &&& e.has_attachments == (fs.has_attachments == Some(true))
    }
}

/// Parse one file into an entry record; a file whose metadata block does
/// not parse yields nothing.
pub fn parse_entry(file: &RawFile) -> (r: Option<EmailEntry>)
    ensures
        r is Some <==> front_of(file.content@) is Some,
        r matches Some(e) ==> entry_matches_file(*file, e),
{
    let (fields, body) = match split_front_matter(file.content.as_str()) {
        Some(p) => p,
        None => {
            return None;
        },
    };
    let from_raw = match &fields.from {
        Some(s) => s.as_str(),
        None => "",
    };
    let to_raw = match &fields.to {
        Some(s) => s.as_str(),
        None => "",
    };
    proof {
        reveal_strlit("");
        assert(""@ =~= Seq::<char>::empty());
    }
    let from = extract_display_name(from_raw);
    let to = extract_display_name(to_raw);
    let subject = match fields.subject {
        Some(s) => s,
        None => String::from_str("(no subject)"),
    };
    let status = match fields.status {
        Some(s) => s,
        None => String::from_str("unknown"),
    };
    let (date_display, date_sort) = crate::dates::resolve_date(
        &fields.date,
        &fields.sent_at,
        file.name.as_str(),
    );
    let has_attachments = match fields.has_attachments {
        Some(b) => b,
        None => false,
    };
    Some(
        EmailEntry {
            path: file.path.clone(),
            from,
            to,
            cc: fields.cc,
            subject,
            status,
            date_display,
            date_sort,
            body,
            has_attachments,
        },
    )
}

/// A file that a directory load keeps: the recognized extension, and a
/// metadata block that parses.
pub open spec fn included_file(f: RawFile) -> bool {
    entry_ext(f.name@) && front_of(f.content@) is Some
}

/// The entry list a file list parses to, in file order: each included
/// file contributes its record, every other file is skipped.
pub open spec fn entries_match_files(files: Seq<RawFile>, es: Seq<EmailEntry>) -> bool
    decreases files.len(),
{
    if files.len() == 0 {
        es.len() == 0
    } else if included_file(files.last()) {
        es.len() > 0 && entry_matches_file(files.last(), es.last()) && entries_match_files(
            files.drop_last(),
            es.drop_last(),
        )
    } else {
        entries_match_files(files.drop_last(), es)
    }
}

/// Parse every file that carries the recognized extension, in file order,
/// skipping files whose metadata does not parse.
pub fn parse_files(files: &Vec<RawFile>) -> (r: Vec<EmailEntry>)
    ensures
        entries_match_files(files@, r@),
{
    let mut out: Vec<EmailEntry> = Vec::new();
    let mut i: usize = 0;
    proof {
        assert(files@.subrange(0, 0) =~= Seq::<RawFile>::empty());
    }
    while i < files.len()
        invariant
            i <= files@.len(),
            entries_match_files(files@.subrange(0, i as int), out@),
        decreases files@.len() - i,
    {
        let ghost pre_files = files@.subrange(0, i as int);
        let ghost pre_out = out@;
        proof {
            assert(files@.subrange(0, i as int + 1).drop_last() =~= pre_files);
            assert(files@.subrange(0, i as int + 1).last() == files@[i as int]);
        }
        if has_entry_extension(files[i].name.as_str()) {
            if let Some(e) = parse_entry(&files[i]) {
                out.push(e);
                proof {
                    assert(out@.drop_last() =~= pre_out);
                }
            }
        }
        i += 1;
    }
    proof {
        assert(files@.subrange(0, files@.len() as int) =~= files@);
    }
    out
}

/// Entries in descending date order: later rows never sort above earlier
/// ones.
pub open spec fn sorted_by_date_desc(s: Seq<EmailEntry>) -> bool {
    forall|i: int, j: int|
        0 <= i < j < s.len() ==> lex_le(#[trigger] s[j].date_sort@, #[trigger] s[i].date_sort@)
}

/// Insert one entry into a date-descending list, keeping the order.
fn insert_sorted(out: &mut Vec<EmailEntry>, e: EmailEntry)
    requires
        sorted_by_date_desc(old(out)@),
    ensures
        sorted_by_date_desc(final(out)@),
        final(out)@.to_multiset() == old(out)@.to_multiset().insert(e),
{
    let ghost orig = out@;
    let mut k: usize = 0;
    while k < out.len() && !str_lt(out[k].date_sort.as_str(), e.date_sort.as_str())
        invariant
            k <= out@.len(),
            out@ == orig,
            forall|j: int| 0 <= j < k ==> !lex_lt(#[trigger] orig[j].date_sort@, e.date_sort@),
        decreases out@.len() - k,
    {
        k += 1;
    }
    out.insert(k, e);
    proof {
        let key = e.date_sort@;
        assert forall|i: int, j: int| 0 <= i < j < out@.len() implies lex_le(
            #[trigger] out@[j].date_sort@,
            #[trigger] out@[i].date_sort@,
        ) by {
            if j < k {
                assert(out@[i] == orig[i] && out@[j] == orig[j]);
            } else if i > k {
                assert(out@[i] == orig[i - 1] && out@[j] == orig[j - 1]);
            } else if i < k && j == k {
                assert(out@[i] == orig[i]);
                lemma_lex_lt_connex(orig[i].date_sort@, key);
            } else if i == k && j > k {
                assert(out@[j] == orig[j - 1]);
                assert(k < orig.len() && lex_lt(orig[k as int].date_sort@, key));
                if j - 1 > k {
                    assert(lex_le(orig[j - 1].date_sort@, orig[k as int].date_sort@));
                    if orig[j - 1].date_sort@ != orig[k as int].date_sort@ {
                        lemma_lex_lt_trans(orig[j - 1].date_sort@, orig[k as int].date_sort@, key);
                    }
                }
            } else if i < k && j > k {
                assert(out@[i] == orig[i] && out@[j] == orig[j - 1]);
            }
        }
        let a = orig.take(k as int);
        let b = orig.skip(k as int);
        assert(out@ =~= a.push(e) + b);
        assert(a.push(e) =~= a + seq![e]);
        lemma_multiset_commutative(a.push(e), b);
        lemma_multiset_commutative(a, b);
        assert(a + b =~= orig);
        a.to_multiset_ensures();
        assert(a.push(e).to_multiset() =~= a.to_multiset().insert(e));
        assert(out@.to_multiset() =~= orig.to_multiset().insert(e)) by {
            broadcast use vstd::multiset::group_multiset_axioms;

        }
    }
}

/// A copy of the entries in descending date order (most recent first).
pub fn sort_entries(entries: Vec<EmailEntry>) -> (r: Vec<EmailEntry>)
    ensures
        sorted_by_date_desc(r@),
        r@.to_multiset() == entries@.to_multiset(),
{
    let ghost orig = entries@;
    let mut rest = entries;
    let mut out: Vec<EmailEntry> = Vec::new();
    proof {
        broadcast use vstd::multiset::group_multiset_axioms;

        out@.to_multiset_ensures();
        rest@.to_multiset_ensures();
        assert(out@.to_multiset().add(rest@.to_multiset()) =~= orig.to_multiset());
    }
    while rest.len() > 0
        invariant
            sorted_by_date_desc(out@),
            out@.to_multiset().add(rest@.to_multiset()) == orig.to_multiset(),
        decreases rest@.len(),
    {
        let ghost pre = rest@;
        let e = rest.pop().unwrap();
        proof {
            pre.to_multiset_ensures();
            assert(pre.drop_last() =~= rest@);
            assert(pre =~= rest@.push(e));
            rest@.to_multiset_ensures();
        }
        insert_sorted(&mut out, e);
        proof {
            broadcast use vstd::multiset::group_multiset_axioms;

            assert(out@.to_multiset().add(rest@.to_multiset()) =~= orig.to_multiset());
        }
    }
    proof {
        broadcast use vstd::multiset::group_multiset_axioms;

        rest@.to_multiset_ensures();
        assert(rest@.to_multiset() =~= Multiset::<EmailEntry>::empty());
        assert(out@.to_multiset() =~= orig.to_multiset());
    }
    out
}

/// The marker the reply command prints before the path of the draft it
/// created.
pub open spec fn draft_marker() -> Seq<char> {
    "\u{2713} Reply draft created: "@
}

/// The position of the first line break at or after `i`, or the end.
pub open spec fn line_break_from(s: Seq<char>, i: int) -> int
    decreases s.len() - i,
    when 0 <= i <= s.len()
{
    if i >= s.len() {
        s.len() as int
    } else if s[i] == '\n' {
        i
    } else {
        line_break_from(s, i + 1)
    }
}

pub proof fn lemma_line_break_bounds(s: Seq<char>, i: int)
    requires
        0 <= i <= s.len(),
    ensures
        i <= line_break_from(s, i) <= s.len(),
    decreases s.len() - i,
{
    if i < s.len() && s[i] != '\n' {
        lemma_line_break_bounds(s, i + 1);
    }
}

/// The line starting at `i`, without its terminator and without a
/// trailing carriage return, as `str::lines` yields it.
pub open spec fn line_at(s: Seq<char>, i: int) -> Seq<char> {
    let raw = s.subrange(i, line_break_from(s, i));
    if raw.len() > 0 && raw.last() == '\r' {
        raw.drop_last()
    } else {
        raw
    }
}

/// The draft path named by the first marker line at or after `i`: the
/// rest of that line with surrounding whitespace trimmed.
pub open spec fn draft_path_from(s: Seq<char>, i: int) -> Option<Seq<char>>
    decreases s.len() - i,
    when 0 <= i <= s.len()
    via draft_path_from_decreases
{
    if i >= s.len() {
        None
    } else {
        let line = line_at(s, i);
        let brk = line_break_from(s, i);
        if line.len() >= draft_marker().len() && line.subrange(0, draft_marker().len() as int)
            == draft_marker() {
            Some(trim_spec(line.skip(draft_marker().len() as int), kind_pred(TrimKind::Space)))
        } else if brk >= s.len() {
            None
        } else {
            draft_path_from(s, brk + 1)
        }
    }
}

#[via_fn]
proof fn draft_path_from_decreases(s: Seq<char>, i: int) {
    if 0 <= i && i < s.len() {
        lemma_line_break_bounds(s, i);
    }
}

/// What the reply output names.
pub open spec fn draft_path_of(s: Seq<char>) -> Option<Seq<char>> {
    draft_path_from(s, 0)
}

/// The path of the draft a reply run created, read from the command's
/// captured output: the remainder of the first line carrying the marker,
/// with surrounding whitespace trimmed; nothing when no line carries it.
pub fn reply_draft_path(output: &str) -> (r: Option<String>)
    ensures
        r is Some <==> draft_path_of(output@) is Some,
        r matches Some(p) ==> draft_path_of(output@) == Some(p@),
{
    let marker = str_to_chars("\u{2713} Reply draft created: ");
    let chars = str_to_chars(output);
    let mut i: usize = 0;
    loop
        invariant
            i <= chars@.len(),
            chars@ == output@,
            marker@ == draft_marker(),
            draft_path_of(output@) == draft_path_from(chars@, i as int),
        decreases chars@.len() - i,
    {
        if i >= chars.len() {
            return None;
        }
        let mut brk: usize = i;
        while brk < chars.len() && chars[brk] != '\n'
            invariant
                i <= brk <= chars@.len(),
                line_break_from(chars@, i as int) == line_break_from(chars@, brk as int),
            decreases chars@.len() - brk,
        {
            brk += 1;
        }
        proof {
            assert(line_break_from(chars@, i as int) == brk as int);
        }
        let raw = subvec(&chars, i, brk);
        let line = if raw.len() > 0 && raw[raw.len() - 1] == '\r' {
            let stripped = subvec(&raw, 0, raw.len() - 1);
            proof {
                assert(stripped@ =~= raw@.drop_last());
            }
            stripped
        } else {
            raw
        };
        proof {
            assert(line@ == line_at(chars@, i as int));
        }
        if line.len() >= marker.len() && crate::text::match_at(&line, &marker, 0) {
            proof {
                assert(line@.subrange(0, marker@.len() as int) == marker@);
            }
            let rest = subvec(&line, marker.len(), line.len());
            proof {
                assert(rest@ =~= line@.skip(marker@.len() as int));
            }
            let trimmed = trim_vec(&rest, TrimKind::Space);
            return Some(chars_to_string(&trimmed));
        }
        if brk >= chars.len() {
            return None;
        }
        i = brk + 1;
    }
}

/// Load the entries of one directory listing: parse every recognized
/// file, skip what does not parse, and sort by date descending.
pub fn load_emails(files: &Vec<RawFile>) -> (r: Vec<EmailEntry>)
    ensures
        sorted_by_date_desc(r@),
        exists|mid: Seq<EmailEntry>|
            #[trigger] entries_match_files(files@, mid) && r@.to_multiset() == mid.to_multiset(),
{
    let parsed = parse_files(files);
    let ghost mid = parsed@;
    let r = sort_entries(parsed);
    proof {
        assert(entries_match_files(files@, mid) && r@.to_multiset() == mid.to_multiset());
    }
    r
}

} // verus!
