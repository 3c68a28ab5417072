//! The language models: which one is loaded, and the stand-in answers of
//! a model that is not run yet.

use vstd::prelude::*;
use vstd::string::*;
use crate::records::{copy_text, text_view, AppState};
use crate::text::same_text;

verus! {

/// How long the stand-in download of a model takes, in milliseconds: the
/// larger the model, the longer.
pub open spec fn download_time_of(model_id: Seq<char>) -> u64 {
    if model_id == "llama-3.2-3b-instruct"@ {
        10000
    } else if model_id == "phi-4-mini-instruct"@ {
        6000
    } else if model_id == "gemma-3-1b-it"@ {
        4000
    } else {
        3000
    }
}

/// How long the stand-in download of a model takes, in milliseconds.
pub fn download_time_ms(model_id: &str) -> (ms: u64)
    ensures
        ms == download_time_of(model_id@),
{
    if same_text(model_id, "llama-3.2-3b-instruct") {
        10000
    } else if same_text(model_id, "phi-4-mini-instruct") {
        6000
    } else if same_text(model_id, "gemma-3-1b-it") {
        4000
    } else {
        3000
    }
}

/// What the stand-in download writes into the model's file.
pub fn mock_model_file(model_id: &str) -> (r: String)
    ensures
        r@ == "Mock ONNX model file for "@ + model_id@,
{
    let mut r = String::from_str("Mock ONNX model file for ");
    r.append(model_id);
    r
}

/// Makes `model_name` the loaded model and says so. Nothing else of the
/// state changes.
pub fn load_german_model(state: &mut AppState, model_name: String) -> (r: String)
    ensures
        final(state).current_model == Some(model_name),
        final(state).models_dir == old(state).models_dir,
        final(state).documents_dir == old(state).documents_dir,
        final(state).pst_files_dir == old(state).pst_files_dir,
        final(state).database_path == old(state).database_path,
        r@ == "Model "@ + model_name@ + " loaded successfully"@,
{
    let mut r = String::from_str("Model ");
    r.append(model_name.as_str());
    r.append(" loaded successfully");
    state.current_model = Some(model_name);
    r
}

/// The model that answers: the one that the call names, else the one that
/// is loaded.
pub open spec fn active_model_of(requested: Option<Seq<char>>, loaded: Option<Seq<char>>) -> Option<
    Seq<char>,
> {
    match requested {
        Some(m) => Some(m),
        None => loaded,
    }
}

/// The stand-in answer of a model to a prompt.
pub open spec fn generated_of(prompt: Seq<char>, model: Seq<char>) -> Seq<char> {
    "Generated response for '"@ + prompt + "' using model '"@ + model + "'"@
}

/// The stand-in answer to a prompt, by the model that the call names or,
/// where it names none, by the loaded one. Without either there is no
/// answer.
pub fn generate_german_text(state: &AppState, prompt: &str, model_name: Option<String>) -> (r:
    Result<String, String>)
    ensures
        match active_model_of(text_view(model_name), text_view(state.current_model)) {
            Some(model) => r matches Ok(text) && text@ == generated_of(prompt@, model),
            None => r matches Err(e) && e@ == "No model loaded"@,
        },
{
    let active = match model_name {
        Some(m) => Some(m),
        None => copy_text(&state.current_model),
    };
    match active {
        Some(model) => {
            let mut r = String::from_str("Generated response for '");
            r.append(prompt);
            r.append("' using model '");
            r.append(model.as_str());
            r.append("'");
            Ok(r)
        },
        None => Err(String::from_str("No model loaded")),
    }
}

/// The stand-in translation of a text.
pub fn translate_text(text: &str, from_lang: &str, to_lang: &str) -> (r: String)
    ensures
        r@ == "Translated '"@ + text@ + "' from "@ + from_lang@ + " to "@ + to_lang@,
{
    let mut r = String::from_str("Translated '");
    r.append(text);
    r.append("' from ");
    r.append(from_lang);
    r.append(" to ");
    r.append(to_lang);
    r
}

/// A model of the catalogue. The size is in tenths of a gigabyte.
#[derive(Debug, PartialEq, Eq)]
pub struct OnnxModelInfo {
    pub id: String,
    pub name: String,
    pub description: String,
    pub size_tenths_of_gb: u32,
    pub huggingface_id: String,
    pub model_type: String,
    pub recommended_ram_gb: u8,
    pub performance_tier: String,
    pub use_cases: Vec<String>,
    pub is_downloaded: bool,
    pub local_path: Option<String>,
}

/// The view of a model of the catalogue.
pub struct ModelView {
    pub id: Seq<char>,
    pub name: Seq<char>,
    pub description: Seq<char>,
    pub size_tenths_of_gb: u32,
    pub huggingface_id: Seq<char>,
    pub model_type: Seq<char>,
    pub recommended_ram_gb: u8,
    pub performance_tier: Seq<char>,
    pub use_cases: Seq<Seq<char>>,
    pub is_downloaded: bool,
    pub local_path: Option<Seq<char>>,
}

impl View for OnnxModelInfo {
    type V = ModelView;

    open spec fn view(&self) -> ModelView {
        ModelView {
            id: self.id@,
            name: self.name@,
            description: self.description@,
            size_tenths_of_gb: self.size_tenths_of_gb,
            huggingface_id: self.huggingface_id@,
            model_type: self.model_type@,
            recommended_ram_gb: self.recommended_ram_gb,
            performance_tier: self.performance_tier@,
            use_cases: Seq::new(self.use_cases@.len(), |i: int| self.use_cases@[i]@),
            is_downloaded: self.is_downloaded,
            local_path: text_view(self.local_path),
        }
    }
}

/// The catalogue of models: three that follow instructions and one that
/// embeds, none of them downloaded.
pub open spec fn available_models_of() -> Seq<ModelView> {
    seq![
        ModelView {
            id: "llama-3.2-3b-instruct"@,
            name: "Llama 3.2 3B Instruct"@,
            description: "Meta's Llama 3.2 3B Instruct - Leistungsstarkes Sprachmodell f\u{fc}r deutsche und internationale Texte"@,
            size_tenths_of_gb: 62,
            huggingface_id: "onnx-community/Llama-3.2-3B-Instruct"@,
            model_type: "instruction"@,
            recommended_ram_gb: 8,
            performance_tier: "Sehr Hoch"@,
            use_cases: seq!["Chat"@, "Textgenerierung"@, "Instruction Following"@],
            is_downloaded: false,
            local_path: None,
        },
        ModelView {
            id: "phi-4-mini-instruct"@,
            name: "Phi-4 Mini Instruct"@,
            description: "Microsoft's Phi-4 Mini - Kompaktes aber sehr leistungsf\u{e4}higes Instruction-Modell"@,
            size_tenths_of_gb: 28,
            huggingface_id: "onnx-community/Phi-4-mini-instruct-ONNX-GQA"@,
            model_type: "instruction"@,
            recommended_ram_gb: 4,
            performance_tier: "Hoch"@,
            use_cases: seq!["Chat"@, "Code-Generierung"@, "Reasoning"@],
            is_downloaded: false,
            local_path: None,
        },
        ModelView {
            id: "gemma-3-1b-it"@,
            name: "Gemma 3 1B Instruct"@,
            description: "Google's Gemma 3 1B - Effizienter Instruction-Tuned Modell f\u{fc}r schnelle Inferenz"@,
            size_tenths_of_gb: 21,
            huggingface_id: "onnx-community/gemma-3-1b-it-ONNX-GQA"@,
            model_type: "instruction"@,
            recommended_ram_gb: 3,
            performance_tier: "Mittel-Hoch"@,
            use_cases: seq!["Chat"@, "Textverarbeitung"@, "Schnelle Antworten"@],
            is_downloaded: false,
            local_path: None,
        },
        ModelView {
            id: "bge-m3-embedder"@,
            name: "BGE-M3 Embedder & Reranker"@,
            description: "Multilingualer Embedder f\u{fc}r Vektorisierung und Semantic Search - unterst\u{fc}tzt 100+ Sprachen"@,
            size_tenths_of_gb: 11,
            huggingface_id: "philipp-zettl/BAAI-bge-m3-ONNX"@,
            model_type: "embedder"@,
            recommended_ram_gb: 2,
            performance_tier: "Spezialisiert"@,
            use_cases: seq!["Embeddings"@, "Vektorsuche"@, "Semantic Reranking"@],
            is_downloaded: false,
            local_path: None,
        },
    ]
}

fn three(a: &str, b: &str, c: &str) -> (r: Vec<String>)
    ensures
        Seq::new(r@.len(), |i: int| r@[i]@) == seq![a@, b@, c@],
{
    let mut r: Vec<String> = Vec::new();
    r.push(String::from_str(a));
    r.push(String::from_str(b));
    r.push(String::from_str(c));
    assert(Seq::new(r@.len(), |i: int| r@[i]@) =~= seq![a@, b@, c@]);
    r
}

fn model(
    id: &str,
    name: &str,
    description: &str,
    size_tenths_of_gb: u32,
    huggingface_id: &str,
    model_type: &str,
    recommended_ram_gb: u8,
    performance_tier: &str,
    use_cases: Vec<String>,
) -> (r: OnnxModelInfo)
    ensures
        r@ == (ModelView {
            id: id@,
            name: name@,
            description: description@,
            size_tenths_of_gb,
            huggingface_id: huggingface_id@,
            model_type: model_type@,
            recommended_ram_gb,
            performance_tier: performance_tier@,
            use_cases: Seq::new(use_cases@.len(), |i: int| use_cases@[i]@),
            is_downloaded: false,
            local_path: None,
        }),
{
    OnnxModelInfo {
        id: String::from_str(id),
        name: String::from_str(name),
        description: String::from_str(description),
        size_tenths_of_gb,
        huggingface_id: String::from_str(huggingface_id),
        model_type: String::from_str(model_type),
        recommended_ram_gb,
        performance_tier: String::from_str(performance_tier),
        use_cases,
        is_downloaded: false,
        local_path: None,
    }
}

/// The catalogue of models.
pub fn get_available_models() -> (r: Vec<OnnxModelInfo>)
    ensures
        crate::records::views(r@) == available_models_of(),
{
    let mut r: Vec<OnnxModelInfo> = Vec::new();
    r.push(
        model(
            "llama-3.2-3b-instruct",
            "Llama 3.2 3B Instruct",
            "Meta's Llama 3.2 3B Instruct - Leistungsstarkes Sprachmodell f\u{fc}r deutsche und internationale Texte",
            62,
            "onnx-community/Llama-3.2-3B-Instruct",
            "instruction",
            8,
            "Sehr Hoch",
            three("Chat", "Textgenerierung", "Instruction Following"),
        ),
    );
    r.push(
        model(
            "phi-4-mini-instruct",
            "Phi-4 Mini Instruct",
            "Microsoft's Phi-4 Mini - Kompaktes aber sehr leistungsf\u{e4}higes Instruction-Modell",
            28,
            "onnx-community/Phi-4-mini-instruct-ONNX-GQA",
            "instruction",
            4,
            "Hoch",
            three("Chat", "Code-Generierung", "Reasoning"),
        ),
    );
    r.push(
        model(
            "gemma-3-1b-it",
            "Gemma 3 1B Instruct",
            "Google's Gemma 3 1B - Effizienter Instruction-Tuned Modell f\u{fc}r schnelle Inferenz",
            21,
            "onnx-community/gemma-3-1b-it-ONNX-GQA",
            "instruction",
            3,
            "Mittel-Hoch",
            three("Chat", "Textverarbeitung", "Schnelle Antworten"),
        ),
    );
    r.push(
        model(
            "bge-m3-embedder",
            "BGE-M3 Embedder & Reranker",
            "Multilingualer Embedder f\u{fc}r Vektorisierung und Semantic Search - unterst\u{fc}tzt 100+ Sprachen",
            11,
            "philipp-zettl/BAAI-bge-m3-ONNX",
            "embedder",
            2,
            "Spezialisiert",
            three("Embeddings", "Vektorsuche", "Semantic Reranking"),
        ),
    );
    assert(crate::records::views(r@) =~= available_models_of());
    r
}

} // verus!
