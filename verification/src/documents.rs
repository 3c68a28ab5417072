//! Documents of a scanned folder: which files count, what is shown of
//! them, where a query stands in them and what their summary is.

use vstd::prelude::*;
use vstd::string::*;
use crate::records::{views, DocumentInfo, DocumentInfoView, SummaryResult};
use crate::text::{
    chars_of, contains, find, first_occurrence, lowercase, lowercase_of, occurs, same_text,
    string_of, uppercase, uppercase_of,
};

verus! {

/// The smaller of two numbers.
pub open spec fn least(a: int, b: int) -> int {
    if a < b {
        a
    } else {
        b
    }
}

/// Where the window of a snippet starts: half the window's width before
/// the match, and within the content.
pub open spec fn window_start(position: int, max_length: int, len: int) -> int {
    least(
        if position < max_length / 2 {
            0
        } else {
            position - max_length / 2
        },
        len,
    )
}

/// The snippet of `content` for `query`. Where the query stands in the
/// content, case disregarded, the snippet is the window of `max_length`
/// characters that starts half that width before the first match, cut at
/// the content's ends, between two ellipses. Where it does not, the
/// snippet is the first `max_length` characters and one ellipsis.
pub open spec fn snippet_of(content: Seq<char>, query: Seq<char>, max_length: usize) -> Seq<char> {
    match first_occurrence(lowercase_of(content), lowercase_of(query)) {
        Some(position) => {
            let start = window_start(position, max_length as int, content.len() as int);
            let end = least(start + max_length, content.len() as int);
            "..."@ + content.subrange(start, end) + "..."@
        },
        None => content.take(least(max_length as int, content.len() as int)) + "..."@,
    }
}

/// The characters of `v` from `start` up to `end`.
fn slice_of(v: &Vec<char>, start: usize, end: usize) -> (r: Vec<char>)
    requires
        start <= end <= v@.len(),
    ensures
        r@ == v@.subrange(start as int, end as int),
{
    let mut r: Vec<char> = Vec::new();
    let mut i: usize = start;
    while i < end
        invariant
            start <= i <= end,
            end <= v@.len(),
            r@ == v@.subrange(start as int, i as int),
        decreases end - i,
    {
        r.push(v[i]);
        i += 1;
        assert(v@.subrange(start as int, i as int) =~= v@.subrange(start as int, i - 1).push(
            v@[i - 1],
        ));
    }
    r
}

/// The snippet of `content` that shows where `query` stands in it.
pub fn create_content_snippet(content: &str, query: &str, max_length: usize) -> (r: String)
    ensures
        r@ == snippet_of(content@, query@, max_length),
        3 <= r@.len() <= max_length + 6,
{
    let text = chars_of(content);
    let hay = chars_of(lowercase(content).as_str());
    let needle = chars_of(lowercase(query).as_str());
    match find(&hay, &needle) {
        Some(position) => {
            let half = max_length / 2;
            let wanted = if position < half {
                0
            } else {
                position - half
            };
            let start = if wanted < text.len() {
                wanted
            } else {
                text.len()
            };
            let end = if max_length < text.len() - start {
                start + max_length
            } else {
                text.len()
            };
            let window = slice_of(&text, start, end);
            let mut r = String::from_str("...");
            r.append(string_of(&window).as_str());
            r.append("...");
            proof {
                reveal_strlit("...");
            }
            r
        },
        None => {
            let end = if max_length < text.len() {
                max_length
            } else {
                text.len()
            };
            let head = slice_of(&text, 0, end);
            assert(text@.subrange(0, end as int) =~= text@.take(end as int));
            let mut r = string_of(&head);
            r.append("...");
            proof {
                reveal_strlit("...");
            }
            r
        },
    }
}

/// A document of a scanned folder together with its text.
#[derive(Debug, PartialEq, Eq)]
pub struct LoadedDocument {
    pub info: DocumentInfo,
    pub content: String,
}

/// The view of a loaded document.
pub struct LoadedDocumentView {
    pub info: DocumentInfoView,
    pub content: Seq<char>,
}

impl View for LoadedDocument {
    type V = LoadedDocumentView;

    open spec fn view(&self) -> LoadedDocumentView {
        LoadedDocumentView { info: self.info@, content: self.content@ }
    }
}

/// A document that a search found, with the place of the match. The
/// relevance is in thousandths.
#[derive(Debug, PartialEq, Eq)]
pub struct SearchResult {
    pub document_path: String,
    pub title: String,
    pub content_snippet: String,
    pub relevance_per_mille: u16,
    pub file_type: String,
}

/// The view of a search match.
pub struct SearchResultView {
    pub document_path: Seq<char>,
    pub title: Seq<char>,
    pub content_snippet: Seq<char>,
    pub relevance_per_mille: u16,
    pub file_type: Seq<char>,
}

impl View for SearchResult {
    type V = SearchResultView;

    open spec fn view(&self) -> SearchResultView {
        SearchResultView {
            document_path: self.document_path@,
            title: self.title@,
            content_snippet: self.content_snippet@,
            relevance_per_mille: self.relevance_per_mille,
            file_type: self.file_type@,
        }
    }
}

/// The width of the snippets that a document search shows.
pub const SNIPPET_WIDTH: usize = 200;

/// The relevance that every match carries as long as matches are not
/// ranked: eight tenths.
pub const PLACEHOLDER_RELEVANCE: u16 = 800;

/// The query stands in the document's text or in its name, case
/// disregarded.
pub open spec fn document_matches(d: LoadedDocumentView, query: Seq<char>) -> bool {
    occurs(lowercase_of(d.content), lowercase_of(query)) || occurs(
        lowercase_of(d.info.name),
        lowercase_of(query),
    )
}

/// What a search shows of a document that it found.
pub open spec fn match_of(d: LoadedDocumentView, query: Seq<char>) -> SearchResultView {
    SearchResultView {
        document_path: d.info.path,
        title: d.info.name,
        content_snippet: snippet_of(d.content, query, SNIPPET_WIDTH),
        relevance_per_mille: PLACEHOLDER_RELEVANCE,
        file_type: d.info.file_type,
    }
}

/// The result of a document search: one match for each document that
/// holds the query, in the documents' order.
pub open spec fn search_documents_of(documents: Seq<LoadedDocumentView>, query: Seq<char>) -> Seq<
    SearchResultView,
> {
    documents.filter(|d: LoadedDocumentView| document_matches(d, query)).map_values(
        |d: LoadedDocumentView| match_of(d, query),
    )
}

/// Searches the documents of a folder for a query: a document is found
/// when the query stands in its text or in its name, case disregarded.
pub fn search_documents(query: &str, documents: &Vec<LoadedDocument>) -> (r: Vec<SearchResult>)
    ensures
        views(r@) == search_documents_of(views(documents@), query@),
{
    let needle = chars_of(lowercase(query).as_str());
    let mut r: Vec<SearchResult> = Vec::new();
    let ghost all = views(documents@);
    let ghost pred = |d: LoadedDocumentView| document_matches(d, query@);
    let ghost shown = |d: LoadedDocumentView| match_of(d, query@);
    proof {
        reveal(Seq::filter);
        assert(all.take(0) =~= Seq::<LoadedDocumentView>::empty());
        assert(views(r@) =~= all.take(0).filter(pred).map_values(shown));
    }
    let mut i: usize = 0;
    while i < documents.len()
        invariant
            i <= documents.len(),
            needle@ == lowercase_of(query@),
            all == views(documents@),
            pred == (|d: LoadedDocumentView| document_matches(d, query@)),
            shown == (|d: LoadedDocumentView| match_of(d, query@)),
            views(r@) == all.take(i as int).filter(pred).map_values(shown),
        decreases documents.len() - i,
    {
        let doc = &documents[i];
        let in_content = contains(&chars_of(lowercase(doc.content.as_str()).as_str()), &needle);
        let in_name = contains(&chars_of(lowercase(doc.info.name.as_str()).as_str()), &needle);
        proof {
            reveal(Seq::filter);
            let upto = all.take(i + 1);
            assert(upto.drop_last() =~= all.take(i as int));
            assert(upto.last() == doc@);
        }
        if in_content || in_name {
            let ghost before = views(r@);
            r.push(
                SearchResult {
                    document_path: doc.info.path.clone(),
                    title: doc.info.name.clone(),
                    content_snippet: create_content_snippet(
                        doc.content.as_str(),
                        query,
                        SNIPPET_WIDTH,
                    ),
                    relevance_per_mille: PLACEHOLDER_RELEVANCE,
                    file_type: doc.info.file_type.clone(),
                },
            );
            assert(views(r@) =~= before.push(match_of(doc@, query@)));
            assert(all.take(i + 1).filter(pred).map_values(shown) =~= all.take(i as int).filter(
                pred,
            ).map_values(shown).push(match_of(doc@, query@)));
        }
        i += 1;
    }
    assert(all.take(all.len() as int) =~= all);
    r
}

/// The file extensions, in lower case, of the documents that a scan takes
/// up.
pub open spec fn is_supported_lowercase(e: Seq<char>) -> bool {
    e == "pdf"@ || e == "txt"@ || e == "doc"@ || e == "docx"@ || e == "rtf"@ || e == "md"@
}

/// Whether a scan takes up a file with this extension, in either case.
pub fn is_supported_extension(extension: &str) -> (r: bool)
    ensures
        r == is_supported_lowercase(lowercase_of(extension@)),
{
    let e = lowercase(extension);
    same_text(e.as_str(), "pdf") || same_text(e.as_str(), "txt") || same_text(e.as_str(), "doc")
        || same_text(e.as_str(), "docx") || same_text(e.as_str(), "rtf") || same_text(
        e.as_str(),
        "md",
    )
}

/// How the text of a document is to be had.
#[derive(Debug, PartialEq, Eq)]
pub enum ContentPlan {
    /// The file is text: read it.
    ReadText,
    /// The file is not read yet: this text stands for its content.
    Placeholder(String),
    /// The file type is not supported; the message says so.
    Unsupported(String),
}

/// The view of a content plan.
pub enum ContentPlanView {
    ReadText,
    Placeholder(Seq<char>),
    Unsupported(Seq<char>),
}

impl View for ContentPlan {
    type V = ContentPlanView;

    open spec fn view(&self) -> ContentPlanView {
        match self {
            ContentPlan::ReadText => ContentPlanView::ReadText,
            ContentPlan::Placeholder(s) => ContentPlanView::Placeholder(s@),
            ContentPlan::Unsupported(s) => ContentPlanView::Unsupported(s@),
        }
    }
}

/// How the text of a file with this extension is to be had; the
/// extension counts in lower case.
pub open spec fn content_plan_of(extension: Seq<char>) -> ContentPlanView {
    let e = lowercase_of(extension);
    if e == "txt"@ || e == "md"@ {
        ContentPlanView::ReadText
    } else if e == "pdf"@ {
        ContentPlanView::Placeholder("PDF-Inhalt wird in Phase 3 implementiert"@)
    } else if e == "doc"@ || e == "docx"@ {
        ContentPlanView::Placeholder("Office-Dokument-Inhalt wird in Phase 3 implementiert"@)
    } else {
        ContentPlanView::Unsupported("Nicht unterst\u{fc}tzter Dateityp: "@ + e)
    }
}

/// How the text of a file with this extension is to be had.
pub fn content_plan(extension: &str) -> (r: ContentPlan)
    ensures
        r@ == content_plan_of(extension@),
{
    let e = lowercase(extension);
    if same_text(e.as_str(), "txt") || same_text(e.as_str(), "md") {
        ContentPlan::ReadText
    } else if same_text(e.as_str(), "pdf") {
        ContentPlan::Placeholder(String::from_str("PDF-Inhalt wird in Phase 3 implementiert"))
    } else if same_text(e.as_str(), "doc") || same_text(e.as_str(), "docx") {
        ContentPlan::Placeholder(
            String::from_str("Office-Dokument-Inhalt wird in Phase 3 implementiert"),
        )
    } else {
        let mut message = String::from_str("Nicht unterst\u{fc}tzter Dateityp: ");
        message.append(e.as_str());
        ContentPlan::Unsupported(message)
    }
}

/// The number of characters of a text preview.
pub const PREVIEW_WIDTH: usize = 200;

/// The file type that is shown for an extension: the extension in upper
/// case, `UNKNOWN` for a file without one.
pub open spec fn file_type_of(extension: Option<Seq<char>>) -> Seq<char> {
    match extension {
        Some(e) => uppercase_of(e),
        None => uppercase_of("unknown"@),
    }
}

/// A file of this type is previewed by the start of its text.
pub open spec fn previews_text_of(file_type: Seq<char>) -> bool {
    file_type == "TXT"@ || file_type == "MD"@
}

/// The preview of a document: the first 200 characters of a text file,
/// a notice for any other file.
pub open spec fn preview_of(file_type: Seq<char>, text: Seq<char>) -> Seq<char> {
    if previews_text_of(file_type) {
        crate::text::head_of(text, PREVIEW_WIDTH as int)
    } else {
        file_type + "-Datei (Vorschau in Phase 3 verf\u{fc}gbar)"@
    }
}

/// What a scan reports of a file.
pub open spec fn document_info_of(
    path: Seq<char>,
    name: Option<Seq<char>>,
    extension: Option<Seq<char>>,
    size: u64,
    created: Seq<char>,
    modified: Seq<char>,
    text: Seq<char>,
) -> DocumentInfoView {
    DocumentInfoView {
        path,
        name: match name {
            Some(n) => n,
            None => "Unknown"@,
        },
        size,
        file_type: file_type_of(extension),
        created,
        modified,
        content_preview: preview_of(file_type_of(extension), text),
    }
}

/// The file type that is shown for an extension.
pub fn file_type(extension: Option<&str>) -> (r: String)
    ensures
        r@ == file_type_of(
            match extension {
                Some(e) => Some(e@),
                None => None,
            },
        ),
{
    match extension {
        Some(e) => uppercase(e),
        None => uppercase("unknown"),
    }
}

/// Whether a file of this type is previewed by the start of its text, so
/// that its text has to be read.
pub fn previews_text(file_type: &str) -> (r: bool)
    ensures
        r == previews_text_of(file_type@),
{
    same_text(file_type, "TXT") || same_text(file_type, "MD")
}

/// What a scan reports of a file, from its path, its name and extension
/// where it has them, its size, its two dates as they are shown, and its
/// text, which counts for a text file only.
pub fn create_document_info(
    path: &str,
    name: Option<&str>,
    extension: Option<&str>,
    size: u64,
    created: &str,
    modified: &str,
    text: &str,
) -> (r: DocumentInfo)
    ensures
        r@ == document_info_of(
            path@,
            match name {
                Some(n) => Some(n@),
                None => None,
            },
            match extension {
                Some(e) => Some(e@),
                None => None,
            },
            size,
            created@,
            modified@,
            text@,
        ),
{
    let kind = file_type(extension);
    let content_preview = if previews_text(kind.as_str()) {
        crate::text::head(text, PREVIEW_WIDTH)
    } else {
        let mut notice = kind.clone();
        notice.append("-Datei (Vorschau in Phase 3 verf\u{fc}gbar)");
        notice
    };
    DocumentInfo {
        path: String::from_str(path),
        name: match name {
            Some(n) => String::from_str(n),
            None => String::from_str("Unknown"),
        },
        size,
        file_type: kind,
        created: String::from_str(created),
        modified: String::from_str(modified),
        content_preview,
    }
}

/// The pieces of `s` between the separators: one more than there are
/// separators, so that a text without any is one piece and a separator at
/// the end is followed by an empty piece.
pub open spec fn split_on(s: Seq<char>, separator: char) -> Seq<Seq<char>>
    decreases s.len(),
{
    if s.len() == 0 {
        seq![Seq::empty()]
    } else {
        let before = split_on(s.drop_last(), separator);
        if s.last() == separator {
            before.push(Seq::empty())
        } else {
            before.drop_last().push(before.last().push(s.last()))
        }
    }
}

/// The pieces one after the other, with `between` between each two.
pub open spec fn joined(pieces: Seq<Seq<char>>, between: Seq<char>) -> Seq<char>
    decreases pieces.len(),
{
    if pieces.len() == 0 {
        Seq::empty()
    } else if pieces.len() == 1 {
        pieces[0]
    } else {
        joined(pieces.drop_last(), between) + between + pieces.last()
    }
}

/// The number of sentences of a summary when none is named.
pub const DEFAULT_SENTENCES: usize = 3;

/// The summary of a text: its first sentences, as many as asked for and
/// three when no number is named, each closed by a full stop. A sentence
/// is what stands between two full stops.
pub open spec fn summary_of(content: Seq<char>, max_sentences: Option<usize>) -> Seq<char> {
    let wanted = match max_sentences {
        Some(n) => n,
        None => DEFAULT_SENTENCES,
    };
    let sentences = split_on(content, '.');
    joined(sentences.take(least(wanted as int, sentences.len() as int)), ". "@) + "."@
}

fn split(s: &Vec<char>, separator: char) -> (pieces: Vec<Vec<char>>)
    ensures
        pieces@.len() == split_on(s@, separator).len(),
        forall|k: int| 0 <= k < pieces@.len() ==> (#[trigger] pieces@[k])@ == split_on(s@, separator)[k],
{
    let mut pieces: Vec<Vec<char>> = Vec::new();
    let mut current: Vec<char> = Vec::new();
    let mut i: usize = 0;
    assert(s@.take(0) =~= Seq::<char>::empty());
    while i < s.len()
        invariant
            i <= s.len(),
            pieces@.len() + 1 == split_on(s@.take(i as int), separator).len(),
            forall|k: int|
                0 <= k < pieces@.len() ==> (#[trigger] pieces@[k])@ == split_on(
                    s@.take(i as int),
                    separator,
                )[k],
            current@ == split_on(s@.take(i as int), separator).last(),
        decreases s.len() - i,
    {
        let c = s[i];
        proof {
            let upto = s@.take(i + 1);
            assert(upto.drop_last() =~= s@.take(i as int));
            assert(upto.last() == c);
        }
        if c == separator {
            pieces.push(current);
            current = Vec::new();
        } else {
            current.push(c);
        }
        i += 1;
    }
    assert(s@.take(s.len() as int) =~= s@);
    pieces.push(current);
    pieces
}

fn join(pieces: &Vec<Vec<char>>, count: usize, between: &Vec<char>) -> (r: Vec<char>)
    requires
        count <= pieces@.len(),
    ensures
        r@ == joined(Seq::new(count as nat, |k: int| pieces@[k]@), between@),
{
    let ghost all = Seq::new(count as nat, |k: int| pieces@[k]@);
    let mut r: Vec<char> = Vec::new();
    let mut i: usize = 0;
    assert(all.take(0) =~= Seq::<Seq<char>>::empty());
    while i < count
        invariant
            i <= count,
            count <= pieces@.len(),
            all == Seq::new(count as nat, |k: int| pieces@[k]@),
            r@ == joined(all.take(i as int), between@),
        decreases count - i,
    {
        proof {
            let upto = all.take(i + 1);
            assert(upto.drop_last() =~= all.take(i as int));
            assert(upto.last() == pieces@[i as int]@);
            if i == 0 {
                assert(upto.len() == 1);
                assert(upto[0] == pieces@[0]@);
            }
        }
        if i > 0 {
            let mut j: usize = 0;
            let ghost start = r@;
            while j < between.len()
                invariant
                    j <= between.len(),
                    r@ == start + between@.take(j as int),
                decreases between.len() - j,
            {
                r.push(between[j]);
                j += 1;
                assert(between@.take(j as int) =~= between@.take(j - 1).push(between@[j - 1]));
                assert(r@ =~= start + between@.take(j as int));
            }
            assert(between@.take(between.len() as int) =~= between@);
        }
        let piece = &pieces[i];
        let ghost start = r@;
        let mut j: usize = 0;
        while j < piece.len()
            invariant
                j <= piece.len(),
                r@ == start + piece@.take(j as int),
            decreases piece.len() - j,
        {
            r.push(piece[j]);
            j += 1;
            assert(piece@.take(j as int) =~= piece@.take(j - 1).push(piece@[j - 1]));
            assert(r@ =~= start + piece@.take(j as int));
        }
        assert(piece@.take(piece.len() as int) =~= piece@);
        assert(joined(all.take(0), between@) =~= Seq::<char>::empty());
        i += 1;
        assert(r@ =~= joined(all.take(i as int), between@));
    }
    assert(all.take(count as int) =~= all);
    r
}

/// The two key points that stand in for an extraction by a model.
pub open spec fn key_points_of() -> Seq<Seq<char>> {
    seq![
        "Wichtiger Punkt 1 (wird mit ONNX-Modell extrahiert)"@,
        "Wichtiger Punkt 2 (wird mit ONNX-Modell extrahiert)"@,
    ]
}

/// The texts of a list of strings.
pub open spec fn texts_of(v: Seq<String>) -> Seq<Seq<char>> {
    Seq::new(v.len(), |i: int| v[i]@)
}

/// Summarises the text of a document. An empty text has no summary. The
/// two lengths are counted in bytes of UTF-8.
pub fn summarize_document(content: &str, max_sentences: Option<usize>) -> (r: Result<
    SummaryResult,
    String,
>)
    ensures
        match r {
            Ok(s) => {
                &&& content@.len() > 0
                &&& s.summary_text@ == summary_of(content@, max_sentences)
                &&& s.original_length == vstd::utf8::encode_utf8(content@).len() as usize
                &&& s.summary_length == vstd::utf8::encode_utf8(s.summary_text@).len() as usize
                &&& texts_of(s.key_points@) == key_points_of()
                &&& s.language_detected@ == "deutsch"@
            },
            Err(e) => content@.len() == 0 && e@ == "Dokument ist leer"@,
        },
{
    if content.is_empty() {
        return Err(String::from_str("Dokument ist leer"));
    }
    let wanted = match max_sentences {
        Some(n) => n,
        None => DEFAULT_SENTENCES,
    };
    let text = chars_of(content);
    let sentences = split(&text, '.');
    let count = if wanted < sentences.len() {
        wanted
    } else {
        sentences.len()
    };
    let between = chars_of(". ");
    let body = join(&sentences, count, &between);
    proof {
        let all = split_on(content@, '.');
        assert(Seq::new(count as nat, |k: int| sentences@[k]@) =~= all.take(
            least(wanted as int, all.len() as int),
        ));
    }
    let mut summary = string_of(&body);
    summary.append(".");
    let mut key_points: Vec<String> = Vec::new();
    key_points.push(String::from_str("Wichtiger Punkt 1 (wird mit ONNX-Modell extrahiert)"));
    key_points.push(String::from_str("Wichtiger Punkt 2 (wird mit ONNX-Modell extrahiert)"));
    assert(texts_of(key_points@) =~= key_points_of());
    Ok(
        SummaryResult {
            original_length: content.len(),
            summary_length: summary.as_str().len(),
            summary_text: summary,
            key_points,
            language_detected: String::from_str("deutsch"),
        },
    )
}

} // verus!
