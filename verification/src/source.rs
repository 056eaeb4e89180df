//! Where a lesson's media lies, and where the provider is reached.

use vstd::prelude::*;
use vstd::string::StringExecFns;
use crate::job::text_view;
use crate::text::{join, same_text, strip_prefixes, stripped};

verus! {

/// Why a lesson has no source to transcribe.
#[derive(Clone, Copy, Debug, PartialEq, Eq, Structural)]
pub enum SourceError {
    /// The lesson is neither video nor audio.
    NotMedia,
    /// The lesson has no content address.
    NoContentUrl,
}

/// The stored file behind a lesson's content address.
#[derive(Debug)]
pub struct SourceFile {
    /// The file's name in the store, sent to the provider with the bytes.
    pub filename: String,
    /// Where the file is read from.
    pub path: String,
}

/// Video and audio are transcribed; nothing else is.
pub open spec fn is_media(content_type: Seq<char>) -> bool {
    content_type == "video"@ || content_type == "audio"@
}

/// The name of the stored file behind a content address: the address
/// without its leading `/assets/`.
pub open spec fn stored_name(content_url: Seq<char>) -> Seq<char> {
    stripped(content_url, "/assets/"@)
}

/// Locates the media of a lesson from its content type and address.
pub fn resolve_source(content_type: &str, content_url: Option<&str>) -> (r: Result<
    SourceFile,
    SourceError,
>)
    ensures
        match r {
            Ok(f) => {
                &&& is_media(content_type@)
                &&& content_url matches Some(u)
                &&& f.filename@ == stored_name(u@)
                &&& f.path@ == "uploads/"@ + stored_name(u@)
            },
            Err(SourceError::NotMedia) => !is_media(content_type@),
            Err(SourceError::NoContentUrl) => is_media(content_type@) && content_url is None,
        },
{
    if !same_text(content_type, "video") && !same_text(content_type, "audio") {
        return Err(SourceError::NotMedia);
    }
    match content_url {
        None => Err(SourceError::NoContentUrl),
        Some(u) => {
            let filename = strip_prefixes(u, "/assets/");
            let path = join("uploads/", filename.as_str());
            Ok(SourceFile { filename, path })
        },
    }
}

/// The settings that select the provider, as the environment gives them.
#[derive(Debug)]
pub struct ProviderSettings {
    /// `local` for a provider on this machine; anything else, or nothing,
    /// for the hosted one.
    pub provider: Option<String>,
    /// Base address of the local transcription service.
    pub local_whisper_url: Option<String>,
    /// Base address of the local language model.
    pub local_llm_url: Option<String>,
    /// Name of the local language model.
    pub local_llm_model: Option<String>,
    /// Key of the hosted provider.
    pub api_key: Option<String>,
}

/// Where and how one provider operation is called.
#[derive(Debug)]
pub struct Endpoint {
    pub url: String,
    /// The value of the `Authorization` header; empty when none is sent.
    pub auth_header: String,
    pub model: String,
}

pub struct EndpointView {
    pub url: Seq<char>,
    pub auth_header: Seq<char>,
    pub model: Seq<char>,
}

impl View for Endpoint {
    type V = EndpointView;

    open spec fn view(&self) -> EndpointView {
        EndpointView { url: self.url@, auth_header: self.auth_header@, model: self.model@ }
    }
}

/// The hosted provider is selected, and its key is missing.
#[derive(Clone, Copy, Debug, PartialEq, Eq, Structural)]
pub struct MissingApiKey;

/// A setting's value, or what stands for it when it is not set.
pub open spec fn or_default(value: Option<String>, default: Seq<char>) -> Seq<char> {
    match value {
        Some(v) => v@,
        None => default,
    }
}

impl ProviderSettings {
    /// Whether the local provider is selected.
    pub open spec fn is_local(&self) -> bool {
        text_view(self.provider) == Some("local"@)
    }

    /// Where transcriptions are asked for.
    pub open spec fn transcription_spec(&self) -> Result<EndpointView, MissingApiKey> {
        if self.is_local() {
            Ok(
                EndpointView {
                    url: or_default(self.local_whisper_url, "http://localhost:8000"@)
                        + "/v1/audio/transcriptions"@,
                    auth_header: Seq::empty(),
                    model: "medium"@,
                },
            )
        } else {
            match self.api_key {
                Some(k) => Ok(
                    EndpointView {
                        url: "https://api.openai.com/v1/audio/transcriptions"@,
                        auth_header: "Bearer "@ + k@,
                        model: "whisper-1"@,
                    },
                ),
                None => Err(MissingApiKey),
            }
        }
    }

    /// Where summaries are asked for.
    pub open spec fn summary_spec(&self) -> Result<EndpointView, MissingApiKey> {
        if self.is_local() {
            Ok(
                EndpointView {
                    url: or_default(self.local_llm_url, "http://localhost:11434"@)
                        + "/v1/chat/completions"@,
                    auth_header: Seq::empty(),
                    model: or_default(self.local_llm_model, "llama3"@),
                },
            )
        } else {
            match self.api_key {
                Some(k) => Ok(
                    EndpointView {
                        url: "https://api.openai.com/v1/chat/completions"@,
                        auth_header: "Bearer "@ + k@,
                        model: "gpt-4o"@,
                    },
                ),
                None => Err(MissingApiKey),
            }
        }
    }

    fn local(&self) -> (r: bool)
        ensures
            r == self.is_local(),
    {
        match &self.provider {
            Some(p) => same_text(p.as_str(), "local"),
            None => false,
        }
    }

    /// Where transcriptions are asked for.
    pub fn transcription_endpoint(&self) -> (r: Result<Endpoint, MissingApiKey>)
        ensures
            match r {
                Ok(e) => self.transcription_spec() == Ok::<EndpointView, MissingApiKey>(e@),
                Err(_) => self.transcription_spec() is Err,
            },
    {
        if self.local() {
            let base = match &self.local_whisper_url {
                Some(b) => b.as_str(),
                None => "http://localhost:8000",
            };
            Ok(
                Endpoint {
                    url: join(base, "/v1/audio/transcriptions"),
                    auth_header: String::new(),
                    model: String::from_str("medium"),
                },
            )
        } else {
            match &self.api_key {
                Some(k) => Ok(
                    Endpoint {
                        url: String::from_str("https://api.openai.com/v1/audio/transcriptions"),
                        auth_header: join("Bearer ", k.as_str()),
                        model: String::from_str("whisper-1"),
                    },
                ),
                None => Err(MissingApiKey),
            }
        }
    }

    /// Where summaries are asked for.
    pub fn summary_endpoint(&self) -> (r: Result<Endpoint, MissingApiKey>)
        ensures
            match r {
                Ok(e) => self.summary_spec() == Ok::<EndpointView, MissingApiKey>(e@),
                Err(_) => self.summary_spec() is Err,
            },
    {
        if self.local() {
            let base = match &self.local_llm_url {
                Some(b) => b.as_str(),
                None => "http://localhost:11434",
            };
            let model = match &self.local_llm_model {
                Some(m) => m.clone(),
                None => String::from_str("llama3"),
            };
            Ok(
                Endpoint {
                    url: join(base, "/v1/chat/completions"),
                    auth_header: String::new(),
                    model,
                },
            )
        } else {
            match &self.api_key {
                Some(k) => Ok(
                    Endpoint {
                        url: String::from_str("https://api.openai.com/v1/chat/completions"),
                        auth_header: join("Bearer ", k.as_str()),
                        model: String::from_str("gpt-4o"),
                    },
                ),
                None => Err(MissingApiKey),
            }
        }
    }
}

impl Endpoint {
    /// Whether an `Authorization` header is sent.
    pub fn needs_auth(&self) -> (r: bool)
        ensures
            r == (self.auth_header@.len() > 0),
    {
        !self.auth_header.as_str().is_empty()
    }
}

} // verus!
