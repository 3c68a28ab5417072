use localllm_desktop::documents::{
    content_plan, create_content_snippet, create_document_info, file_type, is_supported_extension,
    previews_text, search_documents, summarize_document, ContentPlan, LoadedDocument,
};
use localllm_desktop::records::DocumentInfo;

#[test]
fn snippet_is_centred_on_the_match() {
    let s = create_content_snippet("The quarterly budget report is due Friday", "budget", 20);
    assert_eq!(s, "...quarterly budget rep...");
    assert!(s.to_lowercase().contains("budget"));
    assert!(s.chars().count() <= 20 + 6);
}

#[test]
fn snippet_match_is_case_insensitive() {
    let s = create_content_snippet("The quarterly BUDGET report is due Friday", "budget", 20);
    assert_eq!(s, "...quarterly BUDGET rep...");
    let s = create_content_snippet("The quarterly budget report is due Friday", "BuDgEt", 20);
    assert_eq!(s, "...quarterly budget rep...");
}

#[test]
fn snippet_window_is_clamped_at_the_start() {
    let s = create_content_snippet("budget report for the quarter", "budget", 10);
    assert_eq!(s, "...budget rep...");
    let s = create_content_snippet("A budget", "budget", 100);
    assert_eq!(s, "...A budget...");
}

#[test]
fn snippet_window_is_clamped_at_the_end() {
    let s = create_content_snippet("see the attached budget", "budget", 10);
    assert_eq!(s, "...ched budge...");
    let s = create_content_snippet("see the attached budget", "budget", 12);
    assert_eq!(s, "...ached budget...");
}

#[test]
fn snippet_without_match_is_the_head() {
    let s = create_content_snippet("The quarterly budget report is due Friday", "invoice", 13);
    assert_eq!(s, "The quarterly...");
    let s = create_content_snippet("short", "invoice", 200);
    assert_eq!(s, "short...");
}

#[test]
fn snippet_of_empty_content_and_zero_width() {
    assert_eq!(create_content_snippet("", "x", 10), "...");
    assert_eq!(create_content_snippet("", "", 10), "......");
    assert_eq!(create_content_snippet("abc", "b", 0), "......");
    assert_eq!(create_content_snippet("abc", "z", 0), "...");
}

#[test]
fn snippet_counts_characters_not_bytes() {
    let s = create_content_snippet("\u{e4}\u{f6}\u{fc} gr\u{fc}\u{df}e budget \u{e4}\u{f6}\u{fc}", "budget", 8);
    assert_eq!(s, "...\u{fc}\u{df}e budg...");
}

#[test]
fn snippet_is_never_empty() {
    for (content, query, width) in [("a", "a", 1usize), ("a", "b", 1), ("abc", "", 2), ("", "", 0)] {
        assert!(!create_content_snippet(content, query, width).is_empty());
    }
}

fn loaded(path: &str, name: &str, kind: &str, content: &str) -> LoadedDocument {
    LoadedDocument {
        info: DocumentInfo {
            path: path.to_string(),
            name: name.to_string(),
            size: content.len() as u64,
            file_type: kind.to_string(),
            created: "c".to_string(),
            modified: "m".to_string(),
            content_preview: String::new(),
        },
        content: content.to_string(),
    }
}

#[test]
fn document_search_matches_content_or_name() {
    let docs = vec![
        loaded("/d/a.txt", "a.txt", "TXT", "The Budget for 2025"),
        loaded("/d/budget.md", "Budget.md", "MD", "nothing of interest"),
        loaded("/d/c.txt", "c.txt", "TXT", "unrelated"),
    ];
    let found = search_documents("budget", &docs);
    assert_eq!(found.len(), 2);
    assert_eq!(found[0].document_path, "/d/a.txt");
    assert_eq!(found[0].title, "a.txt");
    assert_eq!(found[0].file_type, "TXT");
    assert_eq!(found[0].relevance_per_mille, 800);
    assert_eq!(found[0].content_snippet, "...The Budget for 2025...");
    assert_eq!(found[1].document_path, "/d/budget.md");
    assert_eq!(found[1].content_snippet, "nothing of interest...");
    assert!(search_documents("invoice", &docs).is_empty());
    assert!(search_documents("budget", &vec![]).is_empty());
}

#[test]
fn document_search_snippet_is_two_hundred_wide() {
    let content = format!("{}needle{}", "a".repeat(300), "b".repeat(300));
    let docs = vec![loaded("/d/a.txt", "a.txt", "TXT", &content)];
    let found = search_documents("NEEDLE", &docs);
    assert_eq!(found.len(), 1);
    let expected = format!("...{}needle{}...", "a".repeat(100), "b".repeat(94));
    assert_eq!(found[0].content_snippet, expected);
}

#[test]
fn supported_extensions() {
    for e in ["pdf", "txt", "doc", "docx", "rtf", "md", "PDF", "Md", "DocX"] {
        assert!(is_supported_extension(e), "{}", e);
    }
    for e in ["", "exe", "pst", "txt2", "tx", "markdown"] {
        assert!(!is_supported_extension(e), "{}", e);
    }
}

#[test]
fn content_plans() {
    assert_eq!(content_plan("txt"), ContentPlan::ReadText);
    assert_eq!(content_plan("MD"), ContentPlan::ReadText);
    assert_eq!(
        content_plan("pdf"),
        ContentPlan::Placeholder("PDF-Inhalt wird in Phase 3 implementiert".to_string())
    );
    assert_eq!(
        content_plan("DOCX"),
        ContentPlan::Placeholder("Office-Dokument-Inhalt wird in Phase 3 implementiert".to_string())
    );
    assert_eq!(
        content_plan("doc"),
        ContentPlan::Placeholder("Office-Dokument-Inhalt wird in Phase 3 implementiert".to_string())
    );
    assert_eq!(
        content_plan("XLSX"),
        ContentPlan::Unsupported("Nicht unterst\u{fc}tzter Dateityp: xlsx".to_string())
    );
    assert_eq!(
        content_plan(""),
        ContentPlan::Unsupported("Nicht unterst\u{fc}tzter Dateityp: ".to_string())
    );
}

#[test]
fn document_info_of_a_text_file() {
    let text = "x".repeat(250);
    let info = create_document_info("/d/a.txt", Some("a.txt"), Some("txt"), 250, "c", "m", &text);
    assert_eq!(info.path, "/d/a.txt");
    assert_eq!(info.name, "a.txt");
    assert_eq!(info.size, 250);
    assert_eq!(info.file_type, "TXT");
    assert_eq!(info.created, "c");
    assert_eq!(info.modified, "m");
    assert_eq!(info.content_preview, "x".repeat(200));
    let info = create_document_info("/d/b.md", Some("b.md"), Some("md"), 5, "c", "m", "hello");
    assert_eq!(info.file_type, "MD");
    assert_eq!(info.content_preview, "hello");
}

#[test]
fn document_info_of_other_files() {
    let info = create_document_info("/d/a.pdf", Some("a.pdf"), Some("pdf"), 9, "c", "m", "ignored");
    assert_eq!(info.file_type, "PDF");
    assert_eq!(info.content_preview, "PDF-Datei (Vorschau in Phase 3 verf\u{fc}gbar)");
    let info = create_document_info("/d/noext", None, None, 0, "c", "m", "");
    assert_eq!(info.name, "Unknown");
    assert_eq!(info.file_type, "UNKNOWN");
    assert_eq!(info.content_preview, "UNKNOWN-Datei (Vorschau in Phase 3 verf\u{fc}gbar)");
}

#[test]
fn file_types_and_previews() {
    assert_eq!(file_type(Some("docx")), "DOCX");
    assert_eq!(file_type(None), "UNKNOWN");
    assert!(previews_text("TXT"));
    assert!(previews_text("MD"));
    assert!(!previews_text("txt"));
    assert!(!previews_text("PDF"));
}

#[test]
fn summary_takes_the_first_sentences() {
    let s = summarize_document("One. Two. Three. Four. Five.", None).unwrap();
    assert_eq!(s.summary_text, "One.  Two.  Three.");
    assert_eq!(s.original_length, 28);
    assert_eq!(s.summary_length, 18);
    assert_eq!(
        s.key_points,
        vec![
            "Wichtiger Punkt 1 (wird mit ONNX-Modell extrahiert)".to_string(),
            "Wichtiger Punkt 2 (wird mit ONNX-Modell extrahiert)".to_string(),
        ]
    );
    assert_eq!(s.language_detected, "deutsch");
}

#[test]
fn summary_with_a_number_of_sentences() {
    let s = summarize_document("One. Two. Three.", Some(1)).unwrap();
    assert_eq!(s.summary_text, "One.");
    let s = summarize_document("One. Two. Three.", Some(10)).unwrap();
    assert_eq!(s.summary_text, "One.  Two.  Three. .");
    let s = summarize_document("One. Two. Three.", Some(0)).unwrap();
    assert_eq!(s.summary_text, ".");
    let s = summarize_document("no full stop", None).unwrap();
    assert_eq!(s.summary_text, "no full stop.");
}

#[test]
fn summary_lengths_are_bytes() {
    let s = summarize_document("Gr\u{fc}\u{df}e", None).unwrap();
    assert_eq!(s.summary_text, "Gr\u{fc}\u{df}e.");
    assert_eq!(s.original_length, 7);
    assert_eq!(s.summary_length, 8);
}

#[test]
fn summary_of_an_empty_document_is_an_error() {
    assert_eq!(summarize_document("", None), Err("Dokument ist leer".to_string()));
    assert_eq!(summarize_document("", Some(5)), Err("Dokument ist leer".to_string()));
}
