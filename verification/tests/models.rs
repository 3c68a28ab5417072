use localllm_desktop::models::{
    download_time_ms, generate_german_text, get_available_models, load_german_model,
    mock_model_file, translate_text,
};
use localllm_desktop::processors::{
    pdf_failure_notice, ContentSource, DocumentMetadata, DocumentProcessor,
};
use localllm_desktop::pst::{analyze_pst_file, is_pst_extension};
use localllm_desktop::records::AppState;

fn state() -> AppState {
    AppState {
        models_dir: "/data/models".to_string(),
        documents_dir: "/data/documents".to_string(),
        pst_files_dir: "/data/pst_files".to_string(),
        current_model: None,
        database_path: "/data/localllm.db".to_string(),
    }
}

#[test]
fn default_state_is_empty() {
    let s = AppState::default();
    assert_eq!(s.models_dir, "");
    assert_eq!(s.documents_dir, "");
    assert_eq!(s.pst_files_dir, "");
    assert_eq!(s.current_model, None);
    assert_eq!(s.database_path, "");
}

#[test]
fn catalogue_of_models() {
    let models = get_available_models();
    let ids: Vec<&str> = models.iter().map(|m| m.id.as_str()).collect();
    assert_eq!(
        ids,
        vec!["llama-3.2-3b-instruct", "phi-4-mini-instruct", "gemma-3-1b-it", "bge-m3-embedder"]
    );
    let sizes: Vec<u32> = models.iter().map(|m| m.size_tenths_of_gb).collect();
    assert_eq!(sizes, vec![62, 28, 21, 11]);
    let ram: Vec<u8> = models.iter().map(|m| m.recommended_ram_gb).collect();
    assert_eq!(ram, vec![8, 4, 3, 2]);
    assert!(models.iter().all(|m| !m.is_downloaded && m.local_path.is_none()));
    let m = &models[3];
    assert_eq!(m.name, "BGE-M3 Embedder & Reranker");
    assert_eq!(
        m.description,
        "Multilingualer Embedder f\u{fc}r Vektorisierung und Semantic Search - unterst\u{fc}tzt 100+ Sprachen"
    );
    assert_eq!(m.huggingface_id, "philipp-zettl/BAAI-bge-m3-ONNX");
    assert_eq!(m.model_type, "embedder");
    assert_eq!(m.performance_tier, "Spezialisiert");
    assert_eq!(m.use_cases, vec!["Embeddings", "Vektorsuche", "Semantic Reranking"]);
    assert_eq!(models[0].performance_tier, "Sehr Hoch");
    assert_eq!(models[1].use_cases, vec!["Chat", "Code-Generierung", "Reasoning"]);
    assert_eq!(models[2].huggingface_id, "onnx-community/gemma-3-1b-it-ONNX-GQA");
}

#[test]
fn download_times() {
    assert_eq!(download_time_ms("llama-3.2-3b-instruct"), 10000);
    assert_eq!(download_time_ms("phi-4-mini-instruct"), 6000);
    assert_eq!(download_time_ms("gemma-3-1b-it"), 4000);
    assert_eq!(download_time_ms("bge-m3-embedder"), 3000);
    assert_eq!(download_time_ms("anything else"), 3000);
    assert_eq!(mock_model_file("phi"), "Mock ONNX model file for phi");
}

#[test]
fn loading_a_model_changes_the_current_model_only() {
    let mut s = state();
    let message = load_german_model(&mut s, "phi-4-mini-instruct".to_string());
    assert_eq!(message, "Model phi-4-mini-instruct loaded successfully");
    assert_eq!(s.current_model, Some("phi-4-mini-instruct".to_string()));
    assert_eq!(AppState { current_model: None, ..s }, state());
}

#[test]
fn generation_uses_the_named_model_or_the_loaded_one() {
    let mut s = state();
    assert_eq!(generate_german_text(&s, "Hallo", None), Err("No model loaded".to_string()));
    assert_eq!(
        generate_german_text(&s, "Hallo", Some("gemma".to_string())),
        Ok("Generated response for 'Hallo' using model 'gemma'".to_string())
    );
    load_german_model(&mut s, "phi".to_string());
    assert_eq!(
        generate_german_text(&s, "Hallo", None),
        Ok("Generated response for 'Hallo' using model 'phi'".to_string())
    );
    assert_eq!(
        generate_german_text(&s, "Hallo", Some("gemma".to_string())),
        Ok("Generated response for 'Hallo' using model 'gemma'".to_string())
    );
}

#[test]
fn translation_is_a_stand_in() {
    assert_eq!(translate_text("Hallo", "de", "en"), "Translated 'Hallo' from de to en");
}

#[test]
fn content_sources() {
    let p = DocumentProcessor::new();
    assert_eq!(p.content_source("pdf"), ContentSource::Pdf);
    assert_eq!(p.content_source("PDF"), ContentSource::Pdf);
    assert_eq!(p.content_source("txt"), ContentSource::Text);
    assert_eq!(p.content_source("Txt"), ContentSource::Text);
    assert_eq!(
        p.content_source("DOCX"),
        ContentSource::Unsupported("Unsupported file type: docx".to_string())
    );
    assert_eq!(
        p.content_source(""),
        ContentSource::Unsupported("Unsupported file type: ".to_string())
    );
    assert_eq!(pdf_failure_notice("bad xref"), "Failed to extract PDF content: bad xref");
}

#[test]
fn metadata_from_what_was_read() {
    let p = DocumentProcessor::new();
    assert_eq!(
        p.extract_metadata(
            Some("a.TXT"),
            Some("TXT"),
            12,
            Some("2024-01-02T03:04:05Z".to_string()),
            None
        ),
        DocumentMetadata {
            file_name: "a.TXT".to_string(),
            file_size: 12,
            file_type: "TXT".to_string(),
            created_at: Some("2024-01-02T03:04:05Z".to_string()),
            modified_at: None,
        }
    );
    assert_eq!(
        p.extract_metadata(None, None, 0, None, None),
        DocumentMetadata {
            file_name: String::new(),
            file_size: 0,
            file_type: String::new(),
            created_at: None,
            modified_at: None,
        }
    );
    let d = p.assemble(
        "id".to_string(),
        "/p",
        "c".to_string(),
        p.extract_metadata(None, None, 0, None, None),
        "2024-01-02T03:04:05Z".to_string(),
    );
    assert_eq!(d.id, "id");
    assert_eq!(d.file_path, "/p");
    assert_eq!(d.content, "c");
    assert_eq!(d.processed_at, "2024-01-02T03:04:05Z");
}

#[test]
fn archive_scan_is_a_stand_in() {
    let r = analyze_pst_file("/archives/old.pst", 3 * 1024 * 1024);
    assert_eq!(r.pst_file_path, "/archives/old.pst");
    assert_eq!(r.total_emails, 2847);
    assert_eq!(r.date_range, ("2020-01-01".to_string(), "2024-12-31".to_string()));
    assert_eq!(
        r.folders,
        vec!["Posteingang", "Gesendet", "Entw\u{fc}rfe", "Projekte", "Archiv"]
    );
    assert_eq!(r.size_bytes, 3145728);
    assert!(is_pst_extension("pst"));
    assert!(is_pst_extension("PST"));
    assert!(!is_pst_extension("ost"));
    assert!(!is_pst_extension(""));
}
