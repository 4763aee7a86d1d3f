//! Bibliography entry assembly.  The application fetches raw records from
//! the metadata services; everything that turns a record into a BibEntry —
//! author joining, year extraction, entry typing, citation-key building —
//! is computed and specified here.

use vstd::prelude::*;

verus! {

use vstd::string::StringExecFns;
use crate::hashing::hex_digits;
use crate::text::alphanumeric_char;
use crate::text::lower_of;
use crate::text::lowercase;
use crate::text::push_char;
use crate::text::str_eq;
use crate::text::whitespace_char;

// ---------------------------------------------------------------------------
// Character helpers
// ---------------------------------------------------------------------------

/// The characters of a string as an indexable vector.
fn chars_of(s: &str) -> (r: Vec<char>)
    ensures
        r@ == s@,
{
    proof {
        broadcast use vstd::string::axiom_spec_iter;

    }
    let mut out: Vec<char> = Vec::new();
    for c in it: s.chars()
        invariant
            it.seq() == s@,
            out@ =~= s@.take(it.index()),
    {
        out.push(c);
    }
    proof {
        assert(s@.take(s@.len() as int) =~= s@);
    }
    out
}

/// A string made of exactly the given characters.
fn string_from_chars(v: &Vec<char>) -> (r: String)
    ensures
        r@ == v@,
{
    let mut out = String::new();
    let n = v.len();
    let mut i: usize = 0;
    while i < n
        invariant
            i <= n,
            n == v.len(),
            out@ =~= v@.take(i as int),
        decreases n - i,
    {
        push_char(&mut out, v[i]);
        proof {
            assert(v@.take(i as int + 1) =~= v@.take(i as int).push(v@[i as int]));
        }
        i = i + 1;
    }
    proof {
        assert(v@.take(n as int) =~= v@);
    }
    out
}

/// Only the alphanumeric characters of `s`, in order.
pub open spec fn keep_alnum(s: Seq<char>) -> Seq<char> {
    s.filter(|c: char| alphanumeric_char(c))
}

/// Drops every character that is not alphanumeric.
pub fn filter_alnum(s: &str) -> (r: String)
    ensures
        r@ == keep_alnum(s@),
{
    proof {
        broadcast use vstd::string::axiom_spec_iter;

    }
    let ghost pred = |c: char| alphanumeric_char(c);
    let mut out = String::new();
    for c in it: s.chars()
        invariant
            it.seq() == s@,
            out@ =~= s@.take(it.index()).filter(pred),
            pred == (|c: char| alphanumeric_char(c)),
    {
        proof {
            assert(s@.take(it.index() + 1) =~= s@.take(it.index()).push(s@[it.index()]));
            s@.take(it.index()).lemma_filter_push(s@[it.index()], pred);
        }
        if c.is_alphanumeric() {
            push_char(&mut out, c);
        }
    }
    proof {
        assert(s@.take(s@.len() as int) =~= s@);
    }
    out
}

/// Running state of a left-to-right trim: the kept text up to the last
/// non-whitespace character, and the run of whitespace seen since.
pub open spec fn trim_state(s: Seq<char>, n: int) -> (Seq<char>, Seq<char>)
    decreases n,
{
    if n <= 0 {
        (Seq::empty(), Seq::empty())
    } else {
        let prev = trim_state(s, n - 1);
        let c = s[n - 1];
        if whitespace_char(c) {
            if prev.0.len() == 0 {
                (prev.0, Seq::empty())
            } else {
                (prev.0, prev.1.push(c))
            }
        } else {
            (prev.0 + prev.1 + seq![c], Seq::empty())
        }
    }
}

/// `s` without leading and trailing whitespace.
pub open spec fn trim_of(s: Seq<char>) -> Seq<char> {
    trim_state(s, s.len() as int).0
}

/// Removes leading and trailing whitespace.
pub fn trim_string(s: &str) -> (r: String)
    ensures
        r@ == trim_of(s@),
{
    proof {
        broadcast use vstd::string::axiom_spec_iter;

    }
    let mut out = String::new();
    let mut pending = String::new();
    for c in it: s.chars()
        invariant
            it.seq() == s@,
            out@ == trim_state(s@, it.index()).0,
            pending@ == trim_state(s@, it.index()).1,
    {
        if c.is_whitespace() {
            if out.as_str().is_empty() {
                pending = String::new();
            } else {
                push_char(&mut pending, c);
            }
        } else {
            out.append(pending.as_str());
            push_char(&mut out, c);
            pending = String::new();
            proof {
                assert(out@ =~= trim_state(s@, it.index()).0 + trim_state(s@, it.index()).1
                    + seq![s@[it.index()]]);
            }
        }
    }
    out
}

/// Index of the first comma at or after `i`, or -1.
pub open spec fn first_comma(s: Seq<char>, i: int) -> int
    decreases s.len() - i,
{
    if i < 0 || i >= s.len() {
        -1
    } else if s[i] == ',' {
        i
    } else {
        first_comma(s, i + 1)
    }
}

/// Everything before the first comma (the whole string when there is
/// none).
pub open spec fn before_comma(s: Seq<char>) -> Seq<char> {
    let k = first_comma(s, 0);
    if k < 0 {
        s
    } else {
        s.take(k)
    }
}

proof fn lemma_first_comma_from(s: Seq<char>, i: int)
    requires
        0 <= i <= s.len(),
        forall|j: int| 0 <= j < i ==> s[j] != ',',
    ensures
        first_comma(s, 0) == first_comma(s, i),
    decreases i,
{
    if i > 0 {
        lemma_first_comma_from(s, i - 1);
    }
}

/// Everything before the first comma of `s`.
pub fn take_before_comma(s: &str) -> (r: String)
    ensures
        r@ == before_comma(s@),
{
    let cv = chars_of(s);
    let n = cv.len();
    let mut pv: Vec<char> = Vec::new();
    let mut k: usize = 0;
    while k < n && cv[k] != ','
        invariant
            k <= n,
            n == cv.len(),
            cv@ == s@,
            pv@ =~= s@.take(k as int),
            forall|j: int| 0 <= j < k ==> s@[j] != ',',
        decreases n - k,
    {
        pv.push(cv[k]);
        proof {
            assert(s@.take(k as int + 1) =~= s@.take(k as int).push(s@[k as int]));
        }
        k = k + 1;
    }
    proof {
        lemma_first_comma_from(s@, k as int);
        if k < n {
            assert(first_comma(s@, k as int) == k as int);
        } else {
            assert(s@.take(n as int) =~= s@);
        }
    }
    string_from_chars(&pv)
}

/// Running state of a whitespace-token scan: the token in progress and
/// the last completed token.
pub open spec fn token_state(s: Seq<char>, n: int) -> (Seq<char>, Seq<char>)
    decreases n,
{
    if n <= 0 {
        (Seq::empty(), Seq::empty())
    } else {
        let prev = token_state(s, n - 1);
        let c = s[n - 1];
        if whitespace_char(c) {
            if prev.0.len() > 0 {
                (Seq::empty(), prev.0)
            } else {
                (Seq::empty(), prev.1)
            }
        } else {
            (prev.0.push(c), prev.1)
        }
    }
}

/// The last whitespace-delimited token of `s`, or "unknown" when there is
/// none.
pub open spec fn last_token_of(s: Seq<char>) -> Seq<char> {
    let st = token_state(s, s.len() as int);
    if st.0.len() > 0 {
        st.0
    } else if st.1.len() > 0 {
        st.1
    } else {
        "unknown"@
    }
}

/// The last whitespace-delimited token, or "unknown".
pub fn last_token(s: &str) -> (r: String)
    ensures
        r@ == last_token_of(s@),
{
    proof {
        broadcast use vstd::string::axiom_spec_iter;

    }
    let mut current = String::new();
    let mut last = String::new();
    for c in it: s.chars()
        invariant
            it.seq() == s@,
            current@ == token_state(s@, it.index()).0,
            last@ == token_state(s@, it.index()).1,
    {
        if c.is_whitespace() {
            if !current.as_str().is_empty() {
                last = current;
                current = String::new();
            }
        } else {
            push_char(&mut current, c);
        }
    }
    if !current.as_str().is_empty() {
        current
    } else if !last.as_str().is_empty() {
        last
    } else {
        "unknown".to_owned()
    }
}

// ---------------------------------------------------------------------------
// Decimal rendering and year extraction
// ---------------------------------------------------------------------------

/// Decimal rendering of a number, most significant digit first.
pub open spec fn dec_of(n: nat) -> Seq<char>
    decreases n,
{
    if n < 10 {
        seq![hex_digits()[n as int]]
    } else {
        dec_of(n / 10).push(hex_digits()[(n % 10) as int])
    }
}

/// Relies on u32's Display form: decimal digits, no sign, no leading
/// zeros (a single zero for 0).
#[verifier::external_body]
fn u32_dec(n: u32) -> (r: String)
    ensures
        r@ == dec_of(n as nat),
{
    n.to_string()
}

/// Whether a character is an ASCII decimal digit.
pub open spec fn ascii_digit(c: char) -> bool {
    48 <= c as u32 <= 57
}

/// The ASCII digits of `s`, in order.
pub open spec fn digits_of(s: Seq<char>) -> Seq<char> {
    s.filter(|c: char| ascii_digit(c))
}

/// The year a free-form publication date carries: the value of its first
/// four ASCII digits, or 0 when it has fewer.
pub open spec fn year_of_date(s: Seq<char>) -> u32 {
    let ds = digits_of(s);
    if ds.len() < 4 {
        0
    } else {
        ((ds[0] as u32 - 48) * 1000 + (ds[1] as u32 - 48) * 100 + (ds[2] as u32 - 48) * 10 + (
        ds[3] as u32 - 48)) as u32
    }
}

/// Extracts a year from a free-form publication date.
pub fn year_from_publish_date(s: &str) -> (r: u32)
    ensures
        r == year_of_date(s@),
{
    proof {
        broadcast use vstd::string::axiom_spec_iter;

    }
    let ghost pred = |c: char| ascii_digit(c);
    let mut dv: Vec<char> = Vec::new();
    for c in it: s.chars()
        invariant
            it.seq() == s@,
            dv@ =~= s@.take(it.index()).filter(pred),
            pred == (|c: char| ascii_digit(c)),
    {
        proof {
            assert(s@.take(it.index() + 1) =~= s@.take(it.index()).push(s@[it.index()]));
            s@.take(it.index()).lemma_filter_push(s@[it.index()], pred);
        }
        let u = c as u32;
        if 48 <= u && u <= 57 {
            dv.push(c);
        }
    }
    proof {
        assert(s@.take(s@.len() as int) =~= s@);
    }
    if dv.len() < 4 {
        0
    } else {
        proof {
            s@.lemma_filter_pred(pred, 0);
            s@.lemma_filter_pred(pred, 1);
            s@.lemma_filter_pred(pred, 2);
            s@.lemma_filter_pred(pred, 3);
        }
        let d0 = dv[0] as u32 - 48;
        let d1 = dv[1] as u32 - 48;
        let d2 = dv[2] as u32 - 48;
        let d3 = dv[3] as u32 - 48;
        d0 * 1000 + d1 * 100 + d2 * 10 + d3
    }
}

// ---------------------------------------------------------------------------
// Citation keys
// ---------------------------------------------------------------------------

/// The citation-key stem of an author field keyed "family, given": the
/// family part lowercased with only its alphanumeric characters kept.
pub open spec fn key_family_of(author: Seq<char>) -> Seq<char> {
    keep_alnum(lower_of(trim_of(before_comma(author))))
}

/// Citation key for an article: family-name stem followed by the year.
pub fn citation_key(author: &str, year: u32) -> (r: String)
    ensures
        r@ == key_family_of(author@) + dec_of(year as nat),
{
    let prefix = take_before_comma(author);
    let trimmed = trim_string(prefix.as_str());
    let lowered = lowercase(trimmed.as_str());
    let mut key = filter_alnum(lowered.as_str());
    let y = u32_dec(year);
    key.append(y.as_str());
    key
}

/// Citation key for a book: last-word stem of the author field followed
/// by the year.
pub fn isbn_citation_key(author: &str, year: u32) -> (r: String)
    ensures
        r@ == keep_alnum(lower_of(last_token_of(author@))) + dec_of(year as nat),
{
    let token = last_token(author);
    let lowered = lowercase(token.as_str());
    let mut key = filter_alnum(lowered.as_str());
    let y = u32_dec(year);
    key.append(y.as_str());
    key
}

// ---------------------------------------------------------------------------
// The entry and the raw records
// ---------------------------------------------------------------------------

/// Ghost image of a bibliography entry.
#[verifier::ext_equal]
pub struct BibEntryView {
    pub key: Seq<char>,
    pub entry_type: Seq<char>,
    pub author: Seq<char>,
    pub title: Seq<char>,
    pub year: u32,
    pub journal: Option<Seq<char>>,
    pub publisher: Option<Seq<char>>,
    pub volume: Option<Seq<char>>,
    pub pages: Option<Seq<char>>,
    pub doi: Option<Seq<char>>,
    pub url: Option<Seq<char>>,
    pub isbn: Option<Seq<char>>,
    pub booktitle: Option<Seq<char>>,
}

/// One bibliography entry.
#[derive(Debug)]
pub struct BibEntry {
    pub key: String,
    pub entry_type: String,
    pub author: String,
    pub title: String,
    pub year: u32,
    pub journal: Option<String>,
    pub publisher: Option<String>,
    pub volume: Option<String>,
    pub pages: Option<String>,
    pub doi: Option<String>,
    pub url: Option<String>,
    pub isbn: Option<String>,
    pub booktitle: Option<String>,
}

/// View of an optional string.
pub open spec fn opt_view(o: Option<String>) -> Option<Seq<char>> {
    match o {
        Some(s) => Some(s@),
        None => None,
    }
}

impl View for BibEntry {
    type V = BibEntryView;

    open spec fn view(&self) -> BibEntryView {
        BibEntryView {
            key: self.key@,
            entry_type: self.entry_type@,
            author: self.author@,
            title: self.title@,
            year: self.year,
            journal: opt_view(self.journal),
            publisher: opt_view(self.publisher),
            volume: opt_view(self.volume),
            pages: opt_view(self.pages),
            doi: opt_view(self.doi),
            url: opt_view(self.url),
            isbn: opt_view(self.isbn),
            booktitle: opt_view(self.booktitle),
        }
    }
}

fn clone_opt_str(o: &Option<String>) -> (r: Option<String>)
    ensures
        r.deep_view() == o.deep_view(),
{
    match o {
        Some(s) => Some(s.clone()),
        None => None,
    }
}

/// A work record as the article metadata service reports it, reduced to
/// plain values.
pub struct CrossrefAuthor {
    pub given: Option<String>,
    pub family: Option<String>,
}

/// Ghost image of an author record.
#[verifier::ext_equal]
pub struct CrossrefAuthorView {
    pub given: Option<Seq<char>>,
    pub family: Option<Seq<char>>,
}

impl DeepView for CrossrefAuthor {
    type V = CrossrefAuthorView;

    open spec fn deep_view(&self) -> CrossrefAuthorView {
        CrossrefAuthorView { given: self.given.deep_view(), family: self.family.deep_view() }
    }
}

/// A publication date as reported: year, month, day as nested lists.
pub struct CrossrefDate {
    pub date_parts: Option<Vec<Vec<u32>>>,
}

impl DeepView for CrossrefDate {
    type V = Option<Seq<Seq<u32>>>;

    open spec fn deep_view(&self) -> Option<Seq<Seq<u32>>> {
        self.date_parts.deep_view()
    }
}

/// The fields of a work record that a bibliography entry draws on.
pub struct CrossrefWork {
    pub title: Option<Vec<String>>,
    pub author: Option<Vec<CrossrefAuthor>>,
    pub container_title: Option<Vec<String>>,
    pub published_print: Option<CrossrefDate>,
    pub published_online: Option<CrossrefDate>,
    pub volume: Option<String>,
    pub page: Option<String>,
    pub publisher: Option<String>,
    pub doi: Option<String>,
    pub url: Option<String>,
    pub work_type: Option<String>,
}

// ---------------------------------------------------------------------------
// Authors, years, entry types
// ---------------------------------------------------------------------------

/// An optional text, or empty.
pub open spec fn or_empty(o: Option<Seq<char>>) -> Seq<char> {
    match o {
        Some(x) => x,
        None => Seq::empty(),
    }
}

fn clone_or_empty(o: &Option<String>) -> (r: String)
    ensures
        r@ == or_empty(o.deep_view()),
{
    match o {
        Some(s) => s.clone(),
        None => String::new(),
    }
}

/// How one author is displayed: "family, given", or just the family name
/// when no given name was reported.
pub open spec fn author_display(a: CrossrefAuthorView) -> Seq<char> {
    if or_empty(a.given).len() == 0 {
        or_empty(a.family)
    } else {
        or_empty(a.family) + ", "@ + or_empty(a.given)
    }
}

fn display_author(a: &CrossrefAuthor) -> (r: String)
    ensures
        r@ == author_display(a.deep_view()),
{
    let family = clone_or_empty(&a.family);
    let given = clone_or_empty(&a.given);
    if given.as_str().is_empty() {
        family
    } else {
        let mut r = family;
        r.append(", ");
        r.append(given.as_str());
        proof {
            assert(r@ =~= author_display(a.deep_view()));
        }
        r
    }
}

/// The first `n` author displays joined with " and ".
pub open spec fn joined_authors(a: Seq<CrossrefAuthorView>, n: int) -> Seq<char>
    decreases n,
{
    if n <= 0 {
        Seq::empty()
    } else if n == 1 {
        author_display(a[0])
    } else {
        joined_authors(a, n - 1) + " and "@ + author_display(a[n - 1])
    }
}

fn join_crossref_authors(authors: &Vec<CrossrefAuthor>) -> (r: String)
    ensures
        r@ == joined_authors(authors.deep_view(), authors.deep_view().len() as int),
{
    let mut out = String::new();
    let n = authors.len();
    let mut i: usize = 0;
    while i < n
        invariant
            i <= n,
            n == authors.len(),
            out@ == joined_authors(authors.deep_view(), i as int),
        decreases n - i,
    {
        let d = display_author(&authors[i]);
        if i == 0 {
            out = d;
        } else {
            out.append(" and ");
            out.append(d.as_str());
        }
        proof {
            assert(out@ =~= joined_authors(authors.deep_view(), i as int + 1));
        }
        i = i + 1;
    }
    out
}

/// The whole author field: every reported author joined, or empty.
pub open spec fn crossref_author_field(a: Option<Seq<CrossrefAuthorView>>) -> Seq<char> {
    match a {
        Some(aa) => joined_authors(aa, aa.len() as int),
        None => Seq::empty(),
    }
}

/// The year in a nested date-parts list: its first number, or 0.
pub open spec fn year_in_parts(parts: Option<Seq<Seq<u32>>>) -> u32 {
    match parts {
        Some(p) => if p.len() > 0 && p[0].len() > 0 {
            p[0][0]
        } else {
            0
        },
        None => 0,
    }
}

/// The year of a work: from the print date when one was reported at all,
/// else from the online date.
pub open spec fn crossref_year(
    print: Option<Option<Seq<Seq<u32>>>>,
    online: Option<Option<Seq<Seq<u32>>>>,
) -> u32 {
    match print {
        Some(d) => year_in_parts(d),
        None => match online {
            Some(d) => year_in_parts(d),
            None => 0,
        },
    }
}

fn year_from_parts(parts: &Option<Vec<Vec<u32>>>) -> (r: u32)
    ensures
        r == year_in_parts(parts.deep_view()),
{
    match parts {
        Some(p) => {
            if p.len() > 0 {
                let inner = &p[0];
                if inner.len() > 0 {
                    inner[0]
                } else {
                    0
                }
            } else {
                0
            }
        },
        None => 0,
    }
}

fn year_from_crossref(print: &Option<CrossrefDate>, online: &Option<CrossrefDate>) -> (r: u32)
    ensures
        r == crossref_year(print.deep_view(), online.deep_view()),
{
    match print {
        Some(d) => year_from_parts(&d.date_parts),
        None => match online {
            Some(d) => year_from_parts(&d.date_parts),
            None => 0,
        },
    }
}

/// The entry type a reported work type maps to.
pub open spec fn entry_type_of(wt: Option<Seq<char>>) -> Seq<char> {
    match wt {
        Some(t) => if t == "journal-article"@ {
            "article"@
        } else if t == "book"@ || t == "monograph"@ {
            "book"@
        } else if t == "proceedings-article"@ {
            "inproceedings"@
        } else {
            "misc"@
        },
        None => "misc"@,
    }
}

fn crossref_entry_type(work_type: &Option<String>) -> (r: String)
    ensures
        r@ == entry_type_of(work_type.deep_view()),
{
    match work_type {
        Some(t) => {
            if str_eq(t.as_str(), "journal-article") {
                "article".to_owned()
            } else if str_eq(t.as_str(), "book") || str_eq(t.as_str(), "monograph") {
                "book".to_owned()
            } else if str_eq(t.as_str(), "proceedings-article") {
                "inproceedings".to_owned()
            } else {
                "misc".to_owned()
            }
        },
        None => "misc".to_owned(),
    }
}

/// The first of an optional list of texts, or empty.
pub open spec fn first_title_of(v: Option<Seq<Seq<char>>>) -> Seq<char> {
    match v {
        Some(t) => if t.len() > 0 {
            t[0]
        } else {
            Seq::empty()
        },
        None => Seq::empty(),
    }
}

/// The first of an optional list of texts, if any.
pub open spec fn first_of(v: Option<Seq<Seq<char>>>) -> Option<Seq<char>> {
    match v {
        Some(t) => if t.len() > 0 {
            Some(t[0])
        } else {
            None
        },
        None => None,
    }
}

fn first_or_empty(v: &Option<Vec<String>>) -> (r: String)
    ensures
        r@ == first_title_of(v.deep_view()),
{
    match v {
        Some(t) => {
            if t.len() > 0 {
                t[0].clone()
            } else {
                String::new()
            }
        },
        None => String::new(),
    }
}

fn first_string(v: &Option<Vec<String>>) -> (r: Option<String>)
    ensures
        r.deep_view() == first_of(v.deep_view()),
{
    match v {
        Some(t) => {
            if t.len() > 0 {
                Some(t[0].clone())
            } else {
                None
            }
        },
        None => None,
    }
}

/// Assembles a bibliography entry from an article metadata record.
pub fn bib_entry_from_crossref(work: CrossrefWork) -> (r: BibEntry)
    ensures
        r@.title == first_title_of(work.title.deep_view()),
        r@.author == crossref_author_field(work.author.deep_view()),
        r@.year == crossref_year(
            work.published_print.deep_view(),
            work.published_online.deep_view(),
        ),
        r@.entry_type == entry_type_of(work.work_type.deep_view()),
        r@.key == key_family_of(r@.author) + dec_of(r@.year as nat),
        r@.journal == first_of(work.container_title.deep_view()),
        r@.publisher == work.publisher.deep_view(),
        r@.volume == work.volume.deep_view(),
        r@.pages == work.page.deep_view(),
        r@.doi == work.doi.deep_view(),
        r@.url == work.url.deep_view(),
        r@.isbn is None,
        r@.booktitle is None,
{
    let title = first_or_empty(&work.title);
    let author = (match &work.author {
        Some(aa) => join_crossref_authors(aa),
        None => String::new(),
    });
    let year = year_from_crossref(&work.published_print, &work.published_online);
    let entry_type = crossref_entry_type(&work.work_type);
    let key = citation_key(author.as_str(), year);
    let journal = first_string(&work.container_title);
    BibEntry {
        key,
        entry_type,
        author,
        title,
        year,
        journal,
        publisher: work.publisher,
        volume: work.volume,
        pages: work.page,
        doi: work.doi,
        url: work.url,
        isbn: None,
        booktitle: None,
    }
}

// ---------------------------------------------------------------------------
// Book records
// ---------------------------------------------------------------------------

/// An author of a book record, reduced to a plain optional name.
pub struct OpenLibraryAuthor {
    pub name: Option<String>,
}

impl DeepView for OpenLibraryAuthor {
    type V = Option<Seq<char>>;

    open spec fn deep_view(&self) -> Option<Seq<char>> {
        self.name.deep_view()
    }
}

/// A publisher of a book record, reduced to a plain optional name.
pub struct OpenLibraryPublisher {
    pub name: Option<String>,
}

impl DeepView for OpenLibraryPublisher {
    type V = Option<Seq<char>>;

    open spec fn deep_view(&self) -> Option<Seq<char>> {
        self.name.deep_view()
    }
}

/// A book record as the book metadata service reports it, reduced to
/// plain values.
pub struct OpenLibraryBook {
    pub title: Option<String>,
    pub authors: Option<Vec<OpenLibraryAuthor>>,
    pub publishers: Option<Vec<OpenLibraryPublisher>>,
    pub publish_date: Option<String>,
    pub url: Option<String>,
}

/// The names that were actually reported among the first `n` authors.
pub open spec fn present_names(a: Seq<Option<Seq<char>>>, n: int) -> Seq<Seq<char>>
    decreases n,
{
    if n <= 0 {
        Seq::empty()
    } else {
        present_names(a, n - 1) + (match a[n - 1] {
            Some(x) => seq![x],
            None => Seq::empty(),
        })
    }
}

/// The first `n` names joined with " and ".
pub open spec fn join_and(names: Seq<Seq<char>>, n: int) -> Seq<char>
    decreases n,
{
    if n <= 0 {
        Seq::empty()
    } else if n == 1 {
        names[0]
    } else {
        join_and(names, n - 1) + " and "@ + names[n - 1]
    }
}

/// The whole author field of a book: every reported name joined.
pub open spec fn openlibrary_author_field(a: Option<Seq<Option<Seq<char>>>>) -> Seq<char> {
    match a {
        Some(aa) => ({
            let names = present_names(aa, aa.len() as int);
            join_and(names, names.len() as int)
        }),
        None => Seq::empty(),
    }
}

fn join_openlibrary_authors(authors: &Vec<OpenLibraryAuthor>) -> (r: String)
    ensures
        r@ == ({
            let names = present_names(authors.deep_view(), authors.deep_view().len() as int);
            join_and(names, names.len() as int)
        }),
{
    let mut names: Vec<String> = Vec::new();
    let n = authors.len();
    let mut i: usize = 0;
    while i < n
        invariant
            i <= n,
            n == authors.len(),
            names.deep_view() =~= present_names(authors.deep_view(), i as int),
        decreases n - i,
    {
        let ghost nd = names.deep_view();
        match &authors[i].name {
            Some(nm) => {
                names.push(nm.clone());
                proof {
                    assert(names.deep_view() =~= nd.push(nm@));
                    assert(present_names(authors.deep_view(), i as int + 1) =~= nd.push(nm@));
                }
            },
            None => {
                proof {
                    assert(present_names(authors.deep_view(), i as int + 1) =~= nd);
                }
            },
        }
        i = i + 1;
    }
    let m = names.len();
    let mut out = String::new();
    let mut j: usize = 0;
    while j < m
        invariant
            j <= m,
            m == names.len(),
            names.deep_view() == present_names(authors.deep_view(), n as int),
            n == authors.len(),
            out@ == join_and(names.deep_view(), j as int),
        decreases m - j,
    {
        if j == 0 {
            out = names[0].clone();
        } else {
            out.append(" and ");
            out.append(names[j].as_str());
        }
        proof {
            assert(out@ =~= join_and(names.deep_view(), j as int + 1));
        }
        j = j + 1;
    }
    out
}

/// The first reported publisher's name, if any.
pub open spec fn first_publisher_of(p: Option<Seq<Option<Seq<char>>>>) -> Option<Seq<char>> {
    match p {
        Some(v) => if v.len() > 0 {
            v[0]
        } else {
            None
        },
        None => None,
    }
}

fn first_publisher(p: &Option<Vec<OpenLibraryPublisher>>) -> (r: Option<String>)
    ensures
        r.deep_view() == first_publisher_of(p.deep_view()),
{
    match p {
        Some(v) => {
            if v.len() > 0 {
                clone_opt_str(&v[0].name)
            } else {
                None
            }
        },
        None => None,
    }
}

/// Assembles a bibliography entry from a book record and the cleaned
/// ISBN it was looked up under.
pub fn bib_entry_from_openlibrary(book: OpenLibraryBook, clean_isbn: String) -> (r: BibEntry)
    ensures
        r@.title == or_empty(book.title.deep_view()),
        r@.author == openlibrary_author_field(book.authors.deep_view()),
        r@.publisher == first_publisher_of(book.publishers.deep_view()),
        r@.year == (match book.publish_date.deep_view() {
            Some(d) => year_of_date(d),
            None => 0,
        }),
        r@.key == keep_alnum(lower_of(last_token_of(r@.author))) + dec_of(r@.year as nat),
        r@.entry_type == "book"@,
        r@.journal is None,
        r@.volume is None,
        r@.pages is None,
        r@.doi is None,
        r@.booktitle is None,
        r@.url == book.url.deep_view(),
        r@.isbn == Some(clean_isbn@),
{
    let title = clone_or_empty(&book.title);
    let author = (match &book.authors {
        Some(aa) => join_openlibrary_authors(aa),
        None => String::new(),
    });
    let publisher = first_publisher(&book.publishers);
    let year = (match &book.publish_date {
        Some(d) => year_from_publish_date(d.as_str()),
        None => 0,
    });
    let key = isbn_citation_key(author.as_str(), year);
    BibEntry {
        key,
        entry_type: "book".to_owned(),
        author,
        title,
        year,
        journal: None,
        publisher,
        volume: None,
        pages: None,
        doi: None,
        url: book.url,
        isbn: Some(clean_isbn),
        booktitle: None,
    }
}

} // verus!
