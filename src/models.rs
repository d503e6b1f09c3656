//! Local model files, their formats and the providers that serve them.
use vstd::prelude::*;
use vstd::string::*;
use crate::text::{lowercase, lower_of, owned};

verus! {

/// The formats of local model files.
#[derive(Debug, Clone, PartialEq)]
pub enum ModelFormat {
    /// Quantised llama.cpp models.
    Gguf,
    /// Hugging Face tensors.
    SafeTensors,
    /// The older llama.cpp format.
    Ggml,
    /// Any other extension, as written.
    Unknown(String),
}

/// The known format a lower-case extension names.
pub open spec fn known_format(lower: Seq<char>) -> Option<ModelFormat> {
    if lower == "gguf"@ {
        Some(ModelFormat::Gguf)
    } else if lower == "safetensors"@ || lower == "st"@ {
        Some(ModelFormat::SafeTensors)
    } else if lower == "ggml"@ || lower == "bin"@ || lower == "pth"@ {
        Some(ModelFormat::Ggml)
    } else {
        None
    }
}

impl ModelFormat {
    /// The format a file extension names, in any case; `Unknown` keeps the
    /// extension as written.
    pub fn from_extension(ext: &str) -> (r: ModelFormat)
        ensures
            match known_format(lower_of(ext@)) {
                Some(f) => r == f,
                None => r matches ModelFormat::Unknown(e) && e@ == ext@,
            },
    {
        let lower = lowercase(ext);
        if lower == String::from_str("gguf") {
            ModelFormat::Gguf
        } else if lower == String::from_str("safetensors") || lower == String::from_str("st") {
            ModelFormat::SafeTensors
        } else if lower == String::from_str("ggml") || lower == String::from_str("bin") || lower == String::from_str("pth") {
            ModelFormat::Ggml
        } else {
            ModelFormat::Unknown(owned(ext))
        }
    }

    /// The name shown for the format.
    pub open spec fn display_text(&self) -> Seq<char> {
        match self {
            ModelFormat::Gguf => "GGUF (llama.cpp)"@,
            ModelFormat::SafeTensors => "SafeTensors (Hugging Face)"@,
            ModelFormat::Ggml => "GGML (Legacy)"@,
            ModelFormat::Unknown(ext) => ext@,
        }
    }

    /// The name shown for the format: the extension itself for an unknown one.
    pub fn display_name(&self) -> (r: &str)
        ensures
            r@ == self.display_text(),
    {
        match self {
            ModelFormat::Gguf => "GGUF (llama.cpp)",
            ModelFormat::SafeTensors => "SafeTensors (Hugging Face)",
            ModelFormat::Ggml => "GGML (Legacy)",
            ModelFormat::Unknown(ext) => ext.as_str(),
        }
    }
}

/// A local model file as the native provider sees it.
#[derive(Debug, Clone)]
pub struct NativeModelInfo {
    pub name: String,
    pub path: String,
    pub format: ModelFormat,
    /// The size of the file in bytes.
    pub size: u64,
    pub is_loaded: bool,
    /// The estimated number of parameters.
    pub parameters: Option<String>,
    /// The suggested tokenizer.
    pub tokenizer: Option<String>,
}

impl NativeModelInfo {
    /// What is known of a model file at `path`, from its stem, its extension
    /// and its size in bytes: named after the stem (`unknown` without one),
    /// in the format its extension names (`Unknown("unknown")` without one),
    /// not loaded, with no parameter count or tokenizer yet.
    pub fn from_path(path: &str, stem: Option<&str>, extension: Option<&str>, size: u64) -> (r: NativeModelInfo)
        ensures
            r.path@ == path@,
            r.size == size,
            r.name@ == match stem {
                Some(s) => s@,
                None => "unknown"@,
            },
            match extension {
                Some(e) => match known_format(lower_of(e@)) {
                    Some(f) => r.format == f,
                    None => r.format matches ModelFormat::Unknown(x) && x@ == e@,
                },
                None => r.format matches ModelFormat::Unknown(x) && x@ == "unknown"@,
            },
            !r.is_loaded,
            r.parameters is None,
            r.tokenizer is None,
    {
        let name = match stem {
            Some(s) => owned(s),
            None => owned("unknown"),
        };
        let format = match extension {
            Some(e) => ModelFormat::from_extension(e),
            None => ModelFormat::Unknown(owned("unknown")),
        };
        NativeModelInfo {
            name,
            path: owned(path),
            format,
            size,
            is_loaded: false,
            parameters: None,
            tokenizer: None,
        }
    }
}

/// Why the native provider failed.
#[derive(Debug, Clone)]
pub enum NativeProviderError {
    UnsupportedFormat(String),
    FileReadError(String),
    LoadError(String),
    ModelNotLoaded,
    InferenceError(String),
}

/// Where a model is in being loaded.
#[derive(Debug, Clone, PartialEq)]
pub enum LoadState {
    Unloaded,
    Loading,
    Loaded,
    Error(String),
}

/// Which inference server backs the model server.
#[derive(Debug, Clone, Copy, PartialEq, Eq, Structural)]
pub enum ProviderKind {
    Auto,
    LlamaCpp,
    Ollama,
    Mock,
}

/// A provider that answers without a real model.
#[derive(Debug, Clone)]
pub struct MockProvider {
    pub model: String,
}

/// A model file found in the model directory.
#[derive(Debug, Clone)]
pub struct ModelInfo {
    pub name: String,
    pub path: String,
    pub format: String,
    pub size: u64,
}

/// Which provider the interface runs models with.
#[derive(Debug, Clone, Copy, PartialEq, Eq, Structural)]
pub enum ModelProviderType {
    Native,
    LlamaCpp,
    Ollama,
}

/// A language model stand-in that always answers with the same text.
#[derive(Debug, Clone)]
pub struct MockLlm {
    pub response: String,
}

impl MockLlm {
    /// A stand-in that answers `response`.
    pub fn new(response: &str) -> (r: MockLlm)
        ensures
            r.response@ == response@,
    {
        MockLlm { response: owned(response) }
    }
}

} // verus!
