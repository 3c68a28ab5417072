//! The records that cross the library's boundary, each with its view: the
//! same record with every text as a sequence of characters.

use vstd::prelude::*;

verus! {

/// The view of an optional text.
pub open spec fn text_view(o: Option<String>) -> Option<Seq<char>> {
    match o {
        Some(s) => Some(s@),
        None => None,
    }
}

/// The views of the elements of a sequence, in order.
pub open spec fn views<T: View>(s: Seq<T>) -> Seq<T::V> {
    Seq::new(s.len(), |i: int| s[i]@)
}

/// A copy of an optional text.
pub fn copy_text(o: &Option<String>) -> (r: Option<String>)
    ensures
        r == *o,
{
    match o {
        Some(s) => Some(s.clone()),
        None => None,
    }
}

/// The header of a conversation. `message_count` is what the caller says
/// it is: the store does not recount the messages.
#[derive(Debug, PartialEq, Eq)]
pub struct ConversationRecord {
    pub id: String,
    pub title: String,
    pub created_at: String,
    pub updated_at: String,
    pub model_used: String,
    pub message_count: usize,
}

/// The view of a conversation's header.
pub struct ConversationView {
    pub id: Seq<char>,
    pub title: Seq<char>,
    pub created_at: Seq<char>,
    pub updated_at: Seq<char>,
    pub model_used: Seq<char>,
    pub message_count: nat,
}

impl View for ConversationRecord {
    type V = ConversationView;

    open spec fn view(&self) -> ConversationView {
        ConversationView {
            id: self.id@,
            title: self.title@,
            created_at: self.created_at@,
            updated_at: self.updated_at@,
            model_used: self.model_used@,
            message_count: self.message_count as nat,
        }
    }
}

impl Clone for ConversationRecord {
    fn clone(&self) -> (r: Self)
        ensures
            r == *self,
    {
        ConversationRecord {
            id: self.id.clone(),
            title: self.title.clone(),
            created_at: self.created_at.clone(),
            updated_at: self.updated_at.clone(),
            model_used: self.model_used.clone(),
            message_count: self.message_count,
        }
    }
}

/// One message of a conversation. `role` is `user` or `assistant` by
/// convention; `conversation_id` names the owner and is not checked
/// against the stored conversations.
#[derive(Debug, PartialEq, Eq)]
pub struct MessageRecord {
    pub id: String,
    pub conversation_id: String,
    pub role: String,
    pub content: String,
    pub timestamp: String,
    pub tokens_used: Option<usize>,
}

/// The view of a message.
pub struct MessageView {
    pub id: Seq<char>,
    pub conversation_id: Seq<char>,
    pub role: Seq<char>,
    pub content: Seq<char>,
    pub timestamp: Seq<char>,
    pub tokens_used: Option<usize>,
}

impl View for MessageRecord {
    type V = MessageView;

    open spec fn view(&self) -> MessageView {
        MessageView {
            id: self.id@,
            conversation_id: self.conversation_id@,
            role: self.role@,
            content: self.content@,
            timestamp: self.timestamp@,
            tokens_used: self.tokens_used,
        }
    }
}

impl Clone for MessageRecord {
    fn clone(&self) -> (r: Self)
        ensures
            r == *self,
    {
        MessageRecord {
            id: self.id.clone(),
            conversation_id: self.conversation_id.clone(),
            role: self.role.clone(),
            content: self.content.clone(),
            timestamp: self.timestamp.clone(),
            tokens_used: self.tokens_used,
        }
    }
}

/// What a folder scan reports of one document.
#[derive(Debug, PartialEq, Eq)]
pub struct DocumentInfo {
    pub path: String,
    pub name: String,
    pub size: u64,
    pub file_type: String,
    pub created: String,
    pub modified: String,
    pub content_preview: String,
}

/// The view of a scanned document.
pub struct DocumentInfoView {
    pub path: Seq<char>,
    pub name: Seq<char>,
    pub size: u64,
    pub file_type: Seq<char>,
    pub created: Seq<char>,
    pub modified: Seq<char>,
    pub content_preview: Seq<char>,
}

impl View for DocumentInfo {
    type V = DocumentInfoView;

    open spec fn view(&self) -> DocumentInfoView {
        DocumentInfoView {
            path: self.path@,
            name: self.name@,
            size: self.size,
            file_type: self.file_type@,
            created: self.created@,
            modified: self.modified@,
            content_preview: self.content_preview@,
        }
    }
}

impl Clone for DocumentInfo {
    fn clone(&self) -> (r: Self)
        ensures
            r == *self,
    {
        DocumentInfo {
            path: self.path.clone(),
            name: self.name.clone(),
            size: self.size,
            file_type: self.file_type.clone(),
            created: self.created.clone(),
            modified: self.modified.clone(),
            content_preview: self.content_preview.clone(),
        }
    }
}

/// One e-mail as the archive reader hands it over.
#[derive(Debug, PartialEq, Eq)]
pub struct PSTEmailInfo {
    pub subject: String,
    pub sender: String,
    pub recipient: String,
    pub date: String,
    pub body_preview: String,
    pub has_attachments: bool,
    pub attachment_count: usize,
    /// The folder of the archive that the e-mail was read from, where the
    /// reader knows it.
    pub folder_name: Option<String>,
}

/// The view of an e-mail.
pub struct EmailView {
    pub subject: Seq<char>,
    pub sender: Seq<char>,
    pub recipient: Seq<char>,
    pub date: Seq<char>,
    pub body_preview: Seq<char>,
    pub has_attachments: bool,
    pub attachment_count: usize,
    pub folder_name: Option<Seq<char>>,
}

impl View for PSTEmailInfo {
    type V = EmailView;

    open spec fn view(&self) -> EmailView {
        EmailView {
            subject: self.subject@,
            sender: self.sender@,
            recipient: self.recipient@,
            date: self.date@,
            body_preview: self.body_preview@,
            has_attachments: self.has_attachments,
            attachment_count: self.attachment_count,
            folder_name: text_view(self.folder_name),
        }
    }
}

impl Clone for PSTEmailInfo {
    fn clone(&self) -> (r: Self)
        ensures
            r == *self,
    {
        PSTEmailInfo {
            subject: self.subject.clone(),
            sender: self.sender.clone(),
            recipient: self.recipient.clone(),
            date: self.date.clone(),
            body_preview: self.body_preview.clone(),
            has_attachments: self.has_attachments,
            attachment_count: self.attachment_count,
            folder_name: copy_text(&self.folder_name),
        }
    }
}

/// The structured filter of an e-mail search. A field left `None` imposes
/// no constraint.
#[derive(Debug, PartialEq, Eq)]
pub struct EmailSearchFilter {
    pub date_from: Option<String>,
    pub date_to: Option<String>,
    pub sender_filter: Option<String>,
    pub subject_contains: Option<String>,
    pub has_attachments: Option<bool>,
    pub folder_name: Option<String>,
}

/// The view of an e-mail filter.
pub struct EmailFilterView {
    pub date_from: Option<Seq<char>>,
    pub date_to: Option<Seq<char>>,
    pub sender_filter: Option<Seq<char>>,
    pub subject_contains: Option<Seq<char>>,
    pub has_attachments: Option<bool>,
    pub folder_name: Option<Seq<char>>,
}

impl View for EmailSearchFilter {
    type V = EmailFilterView;

    open spec fn view(&self) -> EmailFilterView {
        EmailFilterView {
            date_from: text_view(self.date_from),
            date_to: text_view(self.date_to),
            sender_filter: text_view(self.sender_filter),
            subject_contains: text_view(self.subject_contains),
            has_attachments: self.has_attachments,
            folder_name: text_view(self.folder_name),
        }
    }
}

impl Clone for EmailSearchFilter {
    fn clone(&self) -> (r: Self)
        ensures
            r == *self,
    {
        EmailSearchFilter {
            date_from: copy_text(&self.date_from),
            date_to: copy_text(&self.date_to),
            sender_filter: copy_text(&self.sender_filter),
            subject_contains: copy_text(&self.subject_contains),
            has_attachments: self.has_attachments,
            folder_name: copy_text(&self.folder_name),
        }
    }
}

/// The outcome of summarising a document. Lengths are in bytes of UTF-8.
#[derive(Debug, PartialEq, Eq)]
pub struct SummaryResult {
    pub original_length: usize,
    pub summary_length: usize,
    pub summary_text: String,
    pub key_points: Vec<String>,
    pub language_detected: String,
}

/// The outcome of a translation. The confidence is in thousandths.
#[derive(Debug, PartialEq, Eq)]
pub struct TranslationResult {
    pub source_language: String,
    pub target_language: String,
    pub original_text: String,
    pub translated_text: String,
    pub confidence_per_mille: u16,
}

/// The process-wide configuration: where models, documents, archives and
/// the database live, and which model is loaded.
#[derive(Debug, PartialEq, Eq)]
pub struct AppState {
    pub models_dir: String,
    pub documents_dir: String,
    pub pst_files_dir: String,
    pub current_model: Option<String>,
    pub database_path: String,
}

impl Default for AppState {
    fn default() -> (r: Self)
        ensures
            r.models_dir@.len() == 0,
            r.documents_dir@.len() == 0,
            r.pst_files_dir@.len() == 0,
            r.current_model is None,
            r.database_path@.len() == 0,
    {
        AppState {
            models_dir: String::new(),
            documents_dir: String::new(),
            pst_files_dir: String::new(),
            current_model: None,
            database_path: String::new(),
        }
    }
}

} // verus!
