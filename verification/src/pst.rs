//! E-mails of Outlook archives: the stand-in records that take the place
//! of a real archive reader, and the search over e-mail records with its
//! structured filter.

use vstd::prelude::*;
use vstd::string::*;
use crate::records::{copy_text, text_view, views, EmailFilterView, EmailSearchFilter, EmailView, PSTEmailInfo};
use crate::text::{
    chars_of, comes_before, contains, lowercase, lowercase_of, occurs, precedes, same_text,
    two_digit_string, two_digits,
};

verus! {

/// The subjects of the stand-in e-mails, which repeat every eight.
pub open spec fn mock_subject_of(k: int) -> Seq<char> {
    if k == 0 {
        "Projektbesprechung n\u{e4}chste Woche"@
    } else if k == 1 {
        "Quartalsbericht Q4 2024"@
    } else if k == 2 {
        "Re: Budget-Planung 2025"@
    } else if k == 3 {
        "Urlaubsantrag - Frank Reis"@
    } else if k == 4 {
        "Neue ONNX-Modelle verf\u{fc}gbar"@
    } else if k == 5 {
        "Meeting-Protokoll vom 15.01.2025"@
    } else if k == 6 {
        "Vertragsentwurf zur Pr\u{fc}fung"@
    } else {
        "Re: Tauri Desktop App Status"@
    }
}

/// The senders of the stand-in e-mails, which repeat every four.
pub open spec fn mock_sender_of(k: int) -> Seq<char> {
    if k == 0 {
        "kollege@firma.de"@
    } else if k == 1 {
        "chef@unternehmen.com"@
    } else if k == 2 {
        "kunde@projekt.org"@
    } else {
        "partner@software.net"@
    }
}

/// The stand-in e-mail at position `i`. Every third one, from the first
/// on, has one attachment; the date walks through the months and the
/// first 28 days of 2024.
pub open spec fn mock_email_of(i: int) -> EmailView {
    EmailView {
        subject: mock_subject_of(i % 8),
        sender: mock_sender_of(i % 4),
        recipient: "frank@localllm.de"@,
        date: "2024-"@ + two_digits(((i % 12) + 1) as nat) + "-"@ + two_digits(
            ((i % 28) + 1) as nat,
        ),
        body_preview: "E-Mail Inhalt Preview f\u{fc}r: "@ + mock_subject_of(i % 8)
            + ". Hier w\u{fc}rde der echte E-Mail-Text stehen..."@,
        has_attachments: i % 3 == 0,
        attachment_count: if i % 3 == 0 {
            1
        } else {
            0
        },
        folder_name: None,
    }
}

/// How many stand-in e-mails a limit gives: at most 80.
pub open spec fn mock_count_of(limit: usize) -> nat {
    if limit < 80 {
        limit as nat
    } else {
        80
    }
}

/// The stand-in e-mails for a limit, in order.
pub open spec fn mock_emails_of(limit: usize) -> Seq<EmailView> {
    Seq::new(mock_count_of(limit), |i: int| mock_email_of(i))
}

fn mock_subject(k: usize) -> (r: &'static str)
    requires
        k < 8,
    ensures
        r@ == mock_subject_of(k as int),
{
    if k == 0 {
        "Projektbesprechung n\u{e4}chste Woche"
    } else if k == 1 {
        "Quartalsbericht Q4 2024"
    } else if k == 2 {
        "Re: Budget-Planung 2025"
    } else if k == 3 {
        "Urlaubsantrag - Frank Reis"
    } else if k == 4 {
        "Neue ONNX-Modelle verf\u{fc}gbar"
    } else if k == 5 {
        "Meeting-Protokoll vom 15.01.2025"
    } else if k == 6 {
        "Vertragsentwurf zur Pr\u{fc}fung"
    } else {
        "Re: Tauri Desktop App Status"
    }
}

fn mock_sender(k: usize) -> (r: &'static str)
    requires
        k < 4,
    ensures
        r@ == mock_sender_of(k as int),
{
    if k == 0 {
        "kollege@firma.de"
    } else if k == 1 {
        "chef@unternehmen.com"
    } else if k == 2 {
        "kunde@projekt.org"
    } else {
        "partner@software.net"
    }
}

fn mock_email(i: usize) -> (r: PSTEmailInfo)
    ensures
        r@ == mock_email_of(i as int),
{
    let subject = mock_subject(i % 8);
    let mut date = String::from_str("2024-");
    date.append(two_digit_string(((i % 12) + 1) as u64).as_str());
    date.append("-");
    date.append(two_digit_string(((i % 28) + 1) as u64).as_str());
    let mut body_preview = String::from_str("E-Mail Inhalt Preview f\u{fc}r: ");
    body_preview.append(subject);
    body_preview.append(". Hier w\u{fc}rde der echte E-Mail-Text stehen...");
    PSTEmailInfo {
        subject: String::from_str(subject),
        sender: String::from_str(mock_sender(i % 4)),
        recipient: String::from_str("frank@localllm.de"),
        date,
        body_preview,
        has_attachments: i % 3 == 0,
        attachment_count: if i % 3 == 0 {
            1
        } else {
            0
        },
        folder_name: None,
    }
}

/// The stand-in e-mails: `limit` of them, and never more than 80.
pub fn create_mock_pst_emails(limit: usize) -> (r: Vec<PSTEmailInfo>)
    ensures
        views(r@) == mock_emails_of(limit),
{
    let count: usize = if limit < 80 {
        limit
    } else {
        80
    };
    let mut r: Vec<PSTEmailInfo> = Vec::new();
    let mut i: usize = 0;
    while i < count
        invariant
            i <= count,
            count == mock_count_of(limit),
            r@.len() == i,
            forall|k: int| 0 <= k < i ==> (#[trigger] r@[k])@ == mock_email_of(k),
        decreases count - i,
    {
        r.push(mock_email(i));
        i += 1;
    }
    assert(views(r@) =~= mock_emails_of(limit));
    r
}

/// The e-mails that the stand-in reader hands over for a folder: the
/// stand-in e-mails, 100 when no limit is named, each as an e-mail of the
/// folder that was asked for.
pub open spec fn extracted_emails_of(folder: Option<Seq<char>>, limit: Option<usize>) -> Seq<
    EmailView,
> {
    let n = match limit {
        Some(n) => n,
        None => 100,
    };
    Seq::new(
        mock_count_of(n),
        |i: int| EmailView { folder_name: folder, ..mock_email_of(i) },
    )
}

/// The e-mails that the stand-in reader hands over for a folder.
pub fn extract_pst_emails(folder: &Option<String>, limit: Option<usize>) -> (r: Vec<PSTEmailInfo>)
    ensures
        views(r@) == extracted_emails_of(text_view(*folder), limit),
{
    let n = match limit {
        Some(n) => n,
        None => 100,
    };
    let mut emails = create_mock_pst_emails(n);
    let ghost plain = views(emails@);
    let mut i: usize = 0;
    while i < emails.len()
        invariant
            i <= emails.len(),
            emails@.len() == plain.len(),
            plain == mock_emails_of(n),
            forall|k: int|
                0 <= k < i ==> (#[trigger] emails@[k])@ == (EmailView {
                    folder_name: text_view(*folder),
                    ..plain[k]
                }),
            forall|k: int| i <= k < emails@.len() ==> (#[trigger] emails@[k])@ == plain[k],
        decreases emails.len() - i,
    {
        let mut email = emails[i].clone();
        email.folder_name = copy_text(folder);
        emails.set(i, email);
        i += 1;
    }
    assert(views(emails@) =~= extracted_emails_of(text_view(*folder), limit));
    emails
}

/// `hay` holds `needle` once both are in lower case.
pub open spec fn holds_lowercase(hay: Seq<char>, needle: Seq<char>) -> bool {
    occurs(lowercase_of(hay), lowercase_of(needle))
}

/// The e-mail satisfies every constraint that the filter sets. The dates
/// are compared as texts, bounds included; sender and subject must hold
/// the filter's text without regard to case; the folder must be the
/// filter's. A field of the filter that is `None` constrains nothing.
pub open spec fn filter_admits(e: EmailView, f: EmailFilterView) -> bool {
    &&& f.date_from matches Some(from) ==> !precedes(e.date, from)
    &&& f.date_to matches Some(to) ==> !precedes(to, e.date)
    &&& f.sender_filter matches Some(s) ==> holds_lowercase(e.sender, s)
    &&& f.subject_contains matches Some(s) ==> holds_lowercase(e.subject, s)
    &&& f.has_attachments matches Some(b) ==> e.has_attachments == b
    &&& f.folder_name matches Some(name) ==> e.folder_name == Some(name)
}

/// Whether `hay` holds `needle` once both are in lower case.
pub fn contains_lowercase(hay: &str, needle: &str) -> (r: bool)
    ensures
        r == holds_lowercase(hay@, needle@),
{
    let h = lowercase(hay);
    let n = lowercase(needle);
    contains(&chars_of(h.as_str()), &chars_of(n.as_str()))
}

/// Whether `a` comes strictly before `b` as a text.
pub fn text_before(a: &str, b: &str) -> (r: bool)
    ensures
        r == precedes(a@, b@),
{
    comes_before(&chars_of(a), &chars_of(b))
}

/// Whether the e-mail satisfies every constraint of the filter.
pub fn apply_email_filter(email: &PSTEmailInfo, filter: &EmailSearchFilter) -> (r: bool)
    ensures
        r == filter_admits(email@, filter@),
{
    if let Some(date_from) = &filter.date_from {
        if text_before(email.date.as_str(), date_from.as_str()) {
            return false;
        }
    }
    if let Some(date_to) = &filter.date_to {
        if text_before(date_to.as_str(), email.date.as_str()) {
            return false;
        }
    }
    if let Some(sender_filter) = &filter.sender_filter {
        if !contains_lowercase(email.sender.as_str(), sender_filter.as_str()) {
            return false;
        }
    }
    if let Some(subject_contains) = &filter.subject_contains {
        if !contains_lowercase(email.subject.as_str(), subject_contains.as_str()) {
            return false;
        }
    }
    if let Some(has_attachments) = filter.has_attachments {
        if email.has_attachments != has_attachments {
            return false;
        }
    }
    if let Some(name) = &filter.folder_name {
        match &email.folder_name {
            Some(folder) => {
                let same = *folder == *name;
                if !same {
                    return false;
                }
            },
            None => {
                return false;
            },
        }
    }
    true
}

/// The query stands in the e-mail's subject, body preview or sender,
/// without regard to case.
pub open spec fn text_matches(e: EmailView, query: Seq<char>) -> bool {
    holds_lowercase(e.subject, query) || holds_lowercase(e.body_preview, query) || holds_lowercase(
        e.sender,
        query,
    )
}

/// The e-mail belongs to the result of a search: its text matches the
/// query and the filter admits it.
pub open spec fn email_found(e: EmailView, query: Seq<char>, f: EmailFilterView) -> bool {
    text_matches(e, query) && filter_admits(e, f)
}

/// The e-mails that a search finds among `emails`, in their order.
pub open spec fn found_emails_of(emails: Seq<EmailView>, query: Seq<char>, f: EmailFilterView) -> Seq<
    EmailView,
> {
    emails.filter(|e: EmailView| email_found(e, query, f))
}

/// Every e-mail that a search finds matches the query and satisfies every
/// constraint of the filter: none gets through on one of the two alone.
pub proof fn found_emails_satisfy_both(
    emails: Seq<EmailView>,
    query: Seq<char>,
    f: EmailFilterView,
    i: int,
)
    requires
        0 <= i < found_emails_of(emails, query, f).len(),
    ensures
        text_matches(found_emails_of(emails, query, f)[i], query),
        filter_admits(found_emails_of(emails, query, f)[i], f),
{
    emails.lemma_filter_pred(|e: EmailView| email_found(e, query, f), i);
}

/// The e-mails among `emails` whose subject, body preview or sender holds
/// the query and which the filter admits, in their order.
pub fn search_emails(emails: Vec<PSTEmailInfo>, query: &str, filter: &EmailSearchFilter) -> (r: Vec<
    PSTEmailInfo,
>)
    ensures
        views(r@) == found_emails_of(views(emails@), query@, filter@),
{
    let mut r: Vec<PSTEmailInfo> = Vec::new();
    let ghost all = views(emails@);
    let ghost pred = |e: EmailView| email_found(e, query@, filter@);
    proof {
        reveal(Seq::filter);
        assert(all.take(0) =~= Seq::<EmailView>::empty());
    }
    for email in it: emails
        invariant
            all == views(it.seq()),
            pred == (|e: EmailView| email_found(e, query@, filter@)),
            views(r@) == all.take(it.index() as int).filter(pred),
    {
        let ghost i = it.index() as int;
        let matches_text = contains_lowercase(email.subject.as_str(), query) || contains_lowercase(
            email.body_preview.as_str(),
            query,
        ) || contains_lowercase(email.sender.as_str(), query);
        let matches_filter = apply_email_filter(&email, filter);
        proof {
            reveal(Seq::filter);
            let upto = all.take(i + 1);
            assert(upto.drop_last() =~= all.take(i));
            assert(upto.last() == email@);
        }
        if matches_text && matches_filter {
            let ghost before = r@;
            r.push(email);
            assert(views(r@) =~= views(before).push(email@));
        }
    }
    assert(all.take(all.len() as int) =~= all);
    r
}

/// The e-mails of the folder that the filter names, or of no folder in
/// particular, that the search finds among the first 1000 of the reader.
pub open spec fn search_pst_content_of(query: Seq<char>, f: EmailFilterView) -> Seq<EmailView> {
    found_emails_of(extracted_emails_of(f.folder_name, Some(1000usize)), query, f)
}

/// Searches the archive's e-mails for a query, within the filter.
pub fn search_pst_content(query: &str, filter: &EmailSearchFilter) -> (r: Vec<PSTEmailInfo>)
    ensures
        views(r@) == search_pst_content_of(query@, filter@),
{
    let emails = extract_pst_emails(&filter.folder_name, Some(1000));
    search_emails(emails, query, filter)
}

/// The paths that the stand-in attachment extraction reports for an output
/// directory.
pub open spec fn attachments_of(output_directory: Seq<char>) -> Seq<Seq<char>> {
    seq![
        output_directory + "/dokument_2024_01_15.pdf"@,
        output_directory + "/bericht_quartal_q4.docx"@,
        output_directory + "/budget_2024.xlsx"@,
    ]
}

/// The paths that the stand-in attachment extraction reports.
pub fn extract_pst_attachments(output_directory: &str) -> (r: Vec<String>)
    ensures
        r@.len() == 3,
        forall|i: int| 0 <= i < 3 ==> (#[trigger] r@[i])@ == attachments_of(output_directory@)[i],
{
    let mut r: Vec<String> = Vec::new();
    let mut a = String::from_str(output_directory);
    a.append("/dokument_2024_01_15.pdf");
    r.push(a);
    let mut b = String::from_str(output_directory);
    b.append("/bericht_quartal_q4.docx");
    r.push(b);
    let mut c = String::from_str(output_directory);
    c.append("/budget_2024.xlsx");
    r.push(c);
    r
}

/// What a scan reports of an archive. The size is in bytes.
#[derive(Debug, PartialEq, Eq)]
pub struct PSTScanResult {
    pub pst_file_path: String,
    pub total_emails: usize,
    pub date_range: (String, String),
    pub folders: Vec<String>,
    pub size_bytes: u64,
}

/// The view of a scan result.
pub struct ScanView {
    pub pst_file_path: Seq<char>,
    pub total_emails: usize,
    pub date_range: (Seq<char>, Seq<char>),
    pub folders: Seq<Seq<char>>,
    pub size_bytes: u64,
}

impl View for PSTScanResult {
    type V = ScanView;

    open spec fn view(&self) -> ScanView {
        ScanView {
            pst_file_path: self.pst_file_path@,
            total_emails: self.total_emails,
            date_range: (self.date_range.0@, self.date_range.1@),
            folders: Seq::new(self.folders@.len(), |i: int| self.folders@[i]@),
            size_bytes: self.size_bytes,
        }
    }
}

/// What the stand-in analysis reports of an archive of this path and
/// size: always the same number of e-mails, dates and folders.
pub open spec fn scan_of(path: Seq<char>, size_bytes: u64) -> ScanView {
    ScanView {
        pst_file_path: path,
        total_emails: 2847,
        date_range: ("2020-01-01"@, "2024-12-31"@),
        folders: seq![
            "Posteingang"@,
            "Gesendet"@,
            "Entw\u{fc}rfe"@,
            "Projekte"@,
            "Archiv"@,
        ],
        size_bytes,
    }
}

/// What the stand-in analysis reports of an archive.
pub fn analyze_pst_file(pst_path: &str, size_bytes: u64) -> (r: PSTScanResult)
    ensures
        r@ == scan_of(pst_path@, size_bytes),
{
    let mut folders: Vec<String> = Vec::new();
    folders.push(String::from_str("Posteingang"));
    folders.push(String::from_str("Gesendet"));
    folders.push(String::from_str("Entw\u{fc}rfe"));
    folders.push(String::from_str("Projekte"));
    folders.push(String::from_str("Archiv"));
    let r = PSTScanResult {
        pst_file_path: String::from_str(pst_path),
        total_emails: 2847,
        date_range: (String::from_str("2020-01-01"), String::from_str("2024-12-31")),
        folders,
        size_bytes,
    };
    assert(r@.folders =~= scan_of(pst_path@, size_bytes).folders);
    r
}

/// Whether a file with this extension is an archive, in either case.
pub fn is_pst_extension(extension: &str) -> (r: bool)
    ensures
        r == (lowercase_of(extension@) == "pst"@),
{
    same_text(lowercase(extension).as_str(), "pst")
}

} // verus!
