//! Processed documents: what the extraction of a file hands to the store.

use vstd::prelude::*;
use vstd::string::*;
use crate::records::{copy_text, text_view};
use crate::stamp::{current_timestamp, fresh_id};
use crate::text::{lowercase, lowercase_of, same_text};

verus! {

/// What is known of a document's file. The two dates are RFC 3339 texts.
#[derive(Debug, PartialEq, Eq)]
pub struct DocumentMetadata {
    pub file_name: String,
    pub file_size: u64,
    pub file_type: String,
    pub created_at: Option<String>,
    pub modified_at: Option<String>,
}

/// The view of a metadata record.
pub struct MetadataView {
    pub file_name: Seq<char>,
    pub file_size: u64,
    pub file_type: Seq<char>,
    pub created_at: Option<Seq<char>>,
    pub modified_at: Option<Seq<char>>,
}

impl View for DocumentMetadata {
    type V = MetadataView;

    open spec fn view(&self) -> MetadataView {
        MetadataView {
            file_name: self.file_name@,
            file_size: self.file_size,
            file_type: self.file_type@,
            created_at: text_view(self.created_at),
            modified_at: text_view(self.modified_at),
        }
    }
}

impl Clone for DocumentMetadata {
    fn clone(&self) -> (r: Self)
        ensures
            r == *self,
    {
        DocumentMetadata {
            file_name: self.file_name.clone(),
            file_size: self.file_size,
            file_type: self.file_type.clone(),
            created_at: copy_text(&self.created_at),
            modified_at: copy_text(&self.modified_at),
        }
    }
}

/// A document after extraction: its text and what is known of its file.
/// `processed_at` is an RFC 3339 text.
#[derive(Debug, PartialEq, Eq)]
pub struct ProcessedDocument {
    pub id: String,
    pub file_path: String,
    pub content: String,
    pub metadata: DocumentMetadata,
    pub processed_at: String,
}

/// The view of a processed document.
pub struct ProcessedDocumentView {
    pub id: Seq<char>,
    pub file_path: Seq<char>,
    pub content: Seq<char>,
    pub metadata: MetadataView,
    pub processed_at: Seq<char>,
}

impl View for ProcessedDocument {
    type V = ProcessedDocumentView;

    open spec fn view(&self) -> ProcessedDocumentView {
        ProcessedDocumentView {
            id: self.id@,
            file_path: self.file_path@,
            content: self.content@,
            metadata: self.metadata@,
            processed_at: self.processed_at@,
        }
    }
}

/// Where the text of a file comes from.
#[derive(Debug, PartialEq, Eq)]
pub enum ContentSource {
    /// The file is a PDF: its text is extracted.
    Pdf,
    /// The file is plain text: it is read as it is.
    Text,
    /// The file is of no supported type: this notice stands for its text.
    Unsupported(String),
}

/// The view of a content source.
pub enum ContentSourceView {
    Pdf,
    Text,
    Unsupported(Seq<char>),
}

impl View for ContentSource {
    type V = ContentSourceView;

    open spec fn view(&self) -> ContentSourceView {
        match self {
            ContentSource::Pdf => ContentSourceView::Pdf,
            ContentSource::Text => ContentSourceView::Text,
            ContentSource::Unsupported(s) => ContentSourceView::Unsupported(s@),
        }
    }
}

/// Where the text of a file with this extension comes from; the
/// extension counts in lower case.
pub open spec fn content_source_of(extension: Seq<char>) -> ContentSourceView {
    let e = lowercase_of(extension);
    if e == "pdf"@ {
        ContentSourceView::Pdf
    } else if e == "txt"@ {
        ContentSourceView::Text
    } else {
        ContentSourceView::Unsupported("Unsupported file type: "@ + e)
    }
}

/// What is known of a file, from its name and extension where it has
/// them, its size and its two dates: a missing name or extension is the
/// empty text.
pub open spec fn metadata_of(
    file_name: Option<Seq<char>>,
    extension: Option<Seq<char>>,
    file_size: u64,
    created_at: Option<Seq<char>>,
    modified_at: Option<Seq<char>>,
) -> MetadataView {
    MetadataView {
        file_name: match file_name {
            Some(n) => n,
            None => Seq::empty(),
        },
        file_size,
        file_type: match extension {
            Some(e) => e,
            None => Seq::empty(),
        },
        created_at,
        modified_at,
    }
}

/// The text that stands for a PDF whose extraction failed.
pub fn pdf_failure_notice(error: &str) -> (r: String)
    ensures
        r@ == "Failed to extract PDF content: "@ + error@,
{
    let mut r = String::from_str("Failed to extract PDF content: ");
    r.append(error);
    r
}

/// Turns what was read of a file into a processed document.
/// Turns what was read of a file into a processed document.
#[derive(Debug, Clone, Copy, PartialEq, Eq, Structural)]
pub struct DocumentProcessor;

impl DocumentProcessor {
    /// The document processor.
    pub fn new() -> (r: Self)
        ensures
            r == DocumentProcessor,
    {
        DocumentProcessor
    }

    /// Where the text of a file with this extension comes from.
    pub fn content_source(&self, extension: &str) -> (r: ContentSource)
        ensures
            r@ == content_source_of(extension@),
    {
        let e = lowercase(extension);
        if same_text(e.as_str(), "pdf") {
            ContentSource::Pdf
        } else if same_text(e.as_str(), "txt") {
            ContentSource::Text
        } else {
            let mut notice = String::from_str("Unsupported file type: ");
            notice.append(e.as_str());
            ContentSource::Unsupported(notice)
        }
    }

    /// What is known of a file.
    pub fn extract_metadata(
        &self,
        file_name: Option<&str>,
        extension: Option<&str>,
        file_size: u64,
        created_at: Option<String>,
        modified_at: Option<String>,
    ) -> (r: DocumentMetadata)
        ensures
            r@ == metadata_of(
                match file_name {
                    Some(n) => Some(n@),
                    None => None,
                },
                match extension {
                    Some(e) => Some(e@),
                    None => None,
                },
                file_size,
                text_view(created_at),
                text_view(modified_at),
            ),
    {
        DocumentMetadata {
            file_name: match file_name {
                Some(n) => String::from_str(n),
                None => String::new(),
            },
            file_size,
            file_type: match extension {
                Some(e) => String::from_str(e),
                None => String::new(),
            },
            created_at,
            modified_at,
        }
    }

    /// The processed document of a file, under the given identifier and
    /// time of processing.
    pub fn assemble(
        &self,
        id: String,
        file_path: &str,
        content: String,
        metadata: DocumentMetadata,
        processed_at: String,
    ) -> (r: ProcessedDocument)
        ensures
            r@ == (ProcessedDocumentView {
                id: id@,
                file_path: file_path@,
                content: content@,
                metadata: metadata@,
                processed_at: processed_at@,
            }),
    {
        ProcessedDocument { id, file_path: String::from_str(file_path), content, metadata, processed_at }
    }

    /// The processed document of a file whose text and metadata were read:
    /// it gets a fresh random identifier of 36 characters and the current
    /// time as its time of processing.
    pub fn process_document(&self, file_path: &str, metadata: DocumentMetadata, content: String) -> (r:
        ProcessedDocument)
        ensures
            r.id@.len() == 36,
            r.file_path@ == file_path@,
            r.content@ == content@,
            r.metadata@ == metadata@,
    {
        let id = fresh_id();
        let processed_at = current_timestamp();
        self.assemble(id, file_path, content, metadata, processed_at)
    }
}

} // verus!
