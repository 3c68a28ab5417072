use localllm_desktop::pst::{
    apply_email_filter, create_mock_pst_emails, extract_pst_emails, extract_pst_attachments,
    search_emails, search_pst_content,
};
use localllm_desktop::records::{EmailSearchFilter, PSTEmailInfo};

fn no_filter() -> EmailSearchFilter {
    EmailSearchFilter {
        date_from: None,
        date_to: None,
        sender_filter: None,
        subject_contains: None,
        has_attachments: None,
        folder_name: None,
    }
}

fn email(subject: &str, sender: &str, date: &str, attachments: bool) -> PSTEmailInfo {
    PSTEmailInfo {
        subject: subject.to_string(),
        sender: sender.to_string(),
        recipient: "frank@localllm.de".to_string(),
        date: date.to_string(),
        body_preview: format!("Body of {}", subject),
        has_attachments: attachments,
        attachment_count: if attachments { 2 } else { 0 },
        folder_name: None,
    }
}

#[test]
fn mock_emails_are_bounded() {
    assert_eq!(create_mock_pst_emails(0).len(), 0);
    assert_eq!(create_mock_pst_emails(5).len(), 5);
    assert_eq!(create_mock_pst_emails(80).len(), 80);
    assert_eq!(create_mock_pst_emails(81).len(), 80);
    assert_eq!(create_mock_pst_emails(1000).len(), 80);
    assert_eq!(create_mock_pst_emails(usize::MAX).len(), 80);
}

#[test]
fn mock_emails_have_the_expected_fields() {
    let emails = create_mock_pst_emails(30);
    let first = &emails[0];
    assert_eq!(first.subject, "Projektbesprechung n\u{e4}chste Woche");
    assert_eq!(first.sender, "kollege@firma.de");
    assert_eq!(first.recipient, "frank@localllm.de");
    assert_eq!(first.date, "2024-01-01");
    assert_eq!(
        first.body_preview,
        "E-Mail Inhalt Preview f\u{fc}r: Projektbesprechung n\u{e4}chste Woche. Hier w\u{fc}rde der echte E-Mail-Text stehen..."
    );
    assert!(first.has_attachments);
    assert_eq!(first.attachment_count, 1);
    assert_eq!(first.folder_name, None);
    let e = &emails[1];
    assert_eq!(e.subject, "Quartalsbericht Q4 2024");
    assert_eq!(e.sender, "chef@unternehmen.com");
    assert_eq!(e.date, "2024-02-02");
    assert!(!e.has_attachments);
    assert_eq!(e.attachment_count, 0);
    let e = &emails[14];
    assert_eq!(e.subject, "Vertragsentwurf zur Pr\u{fc}fung");
    assert_eq!(e.sender, "kunde@projekt.org");
    assert_eq!(e.date, "2024-03-15");
    assert!(!e.has_attachments);
    let e = &emails[27];
    assert_eq!(e.subject, "Urlaubsantrag - Frank Reis");
    assert_eq!(e.sender, "partner@software.net");
    assert_eq!(e.date, "2024-04-28");
    assert!(e.has_attachments);
    assert_eq!(e.attachment_count, 1);
    let e = &emails[28];
    assert_eq!(e.subject, "Neue ONNX-Modelle verf\u{fc}gbar");
    assert_eq!(e.date, "2024-05-01");
    let e = &emails[11];
    assert_eq!(e.date, "2024-12-12");
    assert_eq!(e.subject, "Urlaubsantrag - Frank Reis");
    assert_eq!(emails[7].subject, "Re: Tauri Desktop App Status");
    assert_eq!(emails[2].subject, "Re: Budget-Planung 2025");
    assert_eq!(emails[5].subject, "Meeting-Protokoll vom 15.01.2025");
}

#[test]
fn extraction_defaults_to_one_hundred_and_stamps_the_folder() {
    let plain = extract_pst_emails(&None, None);
    assert_eq!(plain.len(), 80);
    assert!(plain.iter().all(|e| e.folder_name.is_none()));
    let folder = Some("Projekte".to_string());
    let stamped = extract_pst_emails(&folder, Some(3));
    assert_eq!(stamped.len(), 3);
    assert!(stamped.iter().all(|e| e.folder_name == folder));
    assert_eq!(stamped[2].subject, "Re: Budget-Planung 2025");
    assert_eq!(stamped[2].date, "2024-03-03");
}

#[test]
fn empty_filter_admits_everything() {
    for e in create_mock_pst_emails(80) {
        assert!(apply_email_filter(&e, &no_filter()));
    }
}

#[test]
fn date_range_is_inclusive_and_lexical() {
    let e = email("s", "a@b.c", "2024-03-15", false);
    let mut f = no_filter();
    f.date_from = Some("2024-03-15".to_string());
    f.date_to = Some("2024-03-15".to_string());
    assert!(apply_email_filter(&e, &f));
    f.date_from = Some("2024-03-16".to_string());
    f.date_to = None;
    assert!(!apply_email_filter(&e, &f));
    f.date_from = None;
    f.date_to = Some("2024-03-14".to_string());
    assert!(!apply_email_filter(&e, &f));
    f.date_from = Some("2024-01-01".to_string());
    f.date_to = Some("2024-12-31".to_string());
    assert!(apply_email_filter(&e, &f));
    // Texts are compared, not dates: without the zero the order is wrong.
    f.date_from = Some("2024-3-1".to_string());
    f.date_to = None;
    assert!(!apply_email_filter(&e, &f));
    f.date_from = Some("2024-03-1".to_string());
    assert!(apply_email_filter(&e, &f));
    f.date_from = Some("2024-03-155".to_string());
    assert!(!apply_email_filter(&e, &f));
}

#[test]
fn sender_and_subject_filters_ignore_case() {
    let e = email("Quartalsbericht Q4", "Kunde@Projekt.org", "2024-03-15", false);
    let mut f = no_filter();
    f.sender_filter = Some("KUNDE".to_string());
    assert!(apply_email_filter(&e, &f));
    f.sender_filter = Some("chef".to_string());
    assert!(!apply_email_filter(&e, &f));
    f.sender_filter = None;
    f.subject_contains = Some("bericht q4".to_string());
    assert!(apply_email_filter(&e, &f));
    f.subject_contains = Some("budget".to_string());
    assert!(!apply_email_filter(&e, &f));
    f.subject_contains = Some(String::new());
    assert!(apply_email_filter(&e, &f));
}

#[test]
fn attachment_filter_goes_both_ways() {
    let with = email("s", "a@b.c", "2024-03-15", true);
    let without = email("s", "a@b.c", "2024-03-15", false);
    let mut f = no_filter();
    f.has_attachments = Some(true);
    assert!(apply_email_filter(&with, &f));
    assert!(!apply_email_filter(&without, &f));
    f.has_attachments = Some(false);
    assert!(!apply_email_filter(&with, &f));
    assert!(apply_email_filter(&without, &f));
}

#[test]
fn folder_filter_wants_the_same_folder() {
    let mut e = email("s", "a@b.c", "2024-03-15", false);
    let mut f = no_filter();
    f.folder_name = Some("Archiv".to_string());
    assert!(!apply_email_filter(&e, &f));
    e.folder_name = Some("Posteingang".to_string());
    assert!(!apply_email_filter(&e, &f));
    e.folder_name = Some("Archiv".to_string());
    assert!(apply_email_filter(&e, &f));
    assert!(apply_email_filter(&e, &no_filter()));
}

#[test]
fn filters_are_combined_with_and() {
    let records = vec![
        email("both", "kunde@projekt.org", "2024-01-01", true),
        email("sender only", "kunde@projekt.org", "2024-01-02", false),
        email("attachment only", "chef@unternehmen.com", "2024-01-03", true),
        email("neither", "chef@unternehmen.com", "2024-01-04", false),
    ];
    let mut f = no_filter();
    f.sender_filter = Some("kunde".to_string());
    f.has_attachments = Some(true);
    let found = search_emails(records, "", &f);
    assert_eq!(found.len(), 1);
    assert_eq!(found[0].subject, "both");
}

#[test]
fn text_match_is_any_of_subject_body_sender() {
    let records = vec![
        email("Budget 2025", "a@b.c", "2024-01-01", false),
        email("other", "budget@firma.de", "2024-01-02", false),
        PSTEmailInfo {
            body_preview: "about the BUDGET".to_string(),
            ..email("third", "x@y.z", "2024-01-03", false)
        },
        email("unrelated", "x@y.z", "2024-01-04", false),
    ];
    let found = search_emails(records, "budget", &no_filter());
    let subjects: Vec<&str> = found.iter().map(|e| e.subject.as_str()).collect();
    assert_eq!(subjects, vec!["Budget 2025", "other", "third"]);
}

#[test]
fn search_over_the_mock_archive() {
    let mut f = no_filter();
    f.sender_filter = Some("kunde".to_string());
    f.has_attachments = Some(true);
    let found = search_pst_content("", &f);
    // Senders repeat every 4 from position 2, attachments every 3 from 0:
    // both hold at 6, 18, 30, 42, 54, 66 and 78.
    assert_eq!(found.len(), 7);
    assert!(found.iter().all(|e| e.sender == "kunde@projekt.org" && e.has_attachments));
    assert_eq!(found[0].date, "2024-07-07");
    let found = search_pst_content("budget", &no_filter());
    assert_eq!(found.len(), 10);
    assert!(found.iter().all(|e| e.subject == "Re: Budget-Planung 2025"));
    let found = search_pst_content("nothing like this", &no_filter());
    assert!(found.is_empty());
    let mut f = no_filter();
    f.folder_name = Some("Projekte".to_string());
    let found = search_pst_content("budget", &f);
    assert_eq!(found.len(), 10);
    assert!(found.iter().all(|e| e.folder_name.as_deref() == Some("Projekte")));
}

#[test]
fn attachment_paths() {
    assert_eq!(
        extract_pst_attachments("/out"),
        vec![
            "/out/dokument_2024_01_15.pdf".to_string(),
            "/out/bericht_quartal_q4.docx".to_string(),
            "/out/budget_2024.xlsx".to_string(),
        ]
    );
}
