//! The Ollama client: the request body of the generate API and the client
//! that addresses it. Sending the request is the application's part.

use vstd::prelude::*;
use crate::config::{http_base_url, OllamaConfig};
use crate::encoding::base64_standard;
use crate::outside::{base64_encode, build_http_client, io_error_text, reqwest_error_text};
use crate::text::{copy_opt_string, copy_string, has_prefix, opt_chars, push_str};

verus! {

/// Request body of the Ollama generate API.
#[derive(Debug)]
pub struct GenerateRequest {
    pub model: String,
    pub prompt: String,
    pub images: Vec<String>,
    pub stream: bool,
    pub system: Option<String>,
}

impl GenerateRequest {
    /// A request for the configured model and system prompt, with the prompt
    /// and one image in base64, asking for a single (not streamed) answer.
    pub fn new(config: &OllamaConfig, prompt: &str, image_data: &[u8]) -> (r: GenerateRequest)
        ensures
            r.model@ == config.model@,
            r.prompt@ == prompt@,
            r.images@.len() == 1,
            r.images@[0]@ == base64_standard(image_data@),
            !r.stream,
            opt_chars(r.system) == opt_chars(config.system_prompt),
    {
        let mut images = Vec::new();
        images.push(base64_encode(image_data));
        GenerateRequest {
            model: copy_string(config.model.as_str()),
            prompt: copy_string(prompt),
            images,
            stream: false,
            system: copy_opt_string(&config.system_prompt),
        }
    }
}

/// The answer of the Ollama generate API: the generated text.
#[derive(Debug)]
pub struct GenerateResponse {
    pub response: String,
}

/// Errors of the Ollama client.
#[derive(Debug)]
pub enum OllamaError {
    /// The HTTP request failed.
    Request(reqwest::Error),
    /// The API answered with an error status.
    Api(String),
    /// The image file could not be read.
    ImageRead(std::io::Error),
}

impl OllamaError {
    /// The error's message: `HTTP request failed: <reason>`,
    /// `API error: <message>` or `Failed to read image: <reason>`.
    pub fn message(&self) -> (s: String)
        ensures
            self matches OllamaError::Api(m) ==> s@ == "API error: "@ + m@,
            self is Request ==> has_prefix(s@, "HTTP request failed: "@),
            self is ImageRead ==> has_prefix(s@, "Failed to read image: "@),
    {
        let mut s = String::new();
        match self {
            OllamaError::Request(e) => {
                push_str(&mut s, "HTTP request failed: ");
                let t = reqwest_error_text(e);
                push_str(&mut s, t.as_str());
                assert(s@.take("HTTP request failed: "@.len() as int) =~= "HTTP request failed: "@);
            },
            OllamaError::Api(m) => {
                push_str(&mut s, "API error: ");
                push_str(&mut s, m.as_str());
            },
            OllamaError::ImageRead(e) => {
                push_str(&mut s, "Failed to read image: ");
                let t = io_error_text(e);
                push_str(&mut s, t.as_str());
                assert(s@.take("Failed to read image: "@.len() as int) =~= "Failed to read image: "@);
            },
        }
        s
    }
}

/// The error for an answer with an unsuccessful status, if it is one:
/// `Api("<status>: <body>")`.
pub fn reply_error(success: bool, status: &str, body: &str) -> (e: Option<OllamaError>)
    ensures
        success ==> e is None,
        !success ==> (e matches Some(OllamaError::Api(m)) && m@ == status@ + ": "@ + body@),
{
    if success {
        None
    } else {
        let mut m = String::new();
        push_str(&mut m, status);
        push_str(&mut m, ": ");
        push_str(&mut m, body);
        Some(OllamaError::Api(m))
    }
}

/// Client for Ollama vision models.
pub struct OllamaClient {
    config: OllamaConfig,
    http: reqwest::Client,
}

/// The URL of the generate API under a base URL.
pub open spec fn generate_url(base: Seq<char>) -> Seq<char> {
    base + "/api/generate"@
}

impl OllamaClient {
    /// The client's configuration.
    pub closed spec fn config_spec(&self) -> OllamaConfig {
        self.config
    }

    /// Creates a client with the given configuration, or the error that
    /// building its HTTP client gave.
    pub fn new(config: OllamaConfig) -> (r: Result<OllamaClient, OllamaError>)
        ensures
            match r {
                Ok(c) => c.config_spec() == config,
                Err(e) => e is Request,
            },
    {
        match build_http_client() {
            Ok(http) => Ok(OllamaClient { config, http }),
            Err(e) => Err(OllamaError::Request(e)),
        }
    }

    /// The base URL of the Ollama API.
    pub fn base_url(&self) -> (s: String)
        ensures
            s@ == http_base_url(self.config_spec().host@, self.config_spec().port),
    {
        self.config.base_url()
    }

    /// The model name.
    pub fn model(&self) -> (s: &str)
        ensures
            s@ == self.config_spec().model@,
    {
        self.config.model.as_str()
    }

    /// The system prompt, if one is configured.
    pub fn system_prompt(&self) -> (s: Option<&str>)
        ensures
            match s {
                Some(p) => self.config_spec().system_prompt matches Some(q) && p@ == q@,
                None => self.config_spec().system_prompt is None,
            },
    {
        match &self.config.system_prompt {
            Some(p) => Some(p.as_str()),
            None => None,
        }
    }

    /// The HTTP client the client holds, made when it was created.
    pub closed spec fn http_spec(&self) -> reqwest::Client {
        self.http
    }

    /// The HTTP client that sends the requests.
    pub fn http(&self) -> (c: &reqwest::Client)
        ensures
            *c == self.http_spec(),
    {
        &self.http
    }

    /// The URL and body of the request that analyzes an image with the given
    /// prompt.
    pub fn analysis_request(&self, image_data: &[u8], prompt: &str) -> (r: (String, GenerateRequest))
        ensures
            r.0@ == generate_url(http_base_url(self.config_spec().host@, self.config_spec().port)),
            r.1.model@ == self.config_spec().model@,
            r.1.prompt@ == prompt@,
            r.1.images@.len() == 1,
            r.1.images@[0]@ == base64_standard(image_data@),
            !r.1.stream,
            opt_chars(r.1.system) == opt_chars(self.config_spec().system_prompt),
    {
        let request = GenerateRequest::new(&self.config, prompt, image_data);
        let mut url = self.base_url();
        push_str(&mut url, "/api/generate");
        (url, request)
    }
}

/// The reqwest error type, carried opaque.
#[verifier::external_type_specification]
#[verifier::external_body]
pub struct ExReqwestError(reqwest::Error);

} // verus!
