//! Dialog generation with the Ollama vision model: the client that addresses
//! the model, the prompts, and the steps of a generation (one text per
//! still, then an introduction, closing words and a video description).
//!
//! The application performs each step the generation asks for (extract a
//! still, ask the model) and hands the outcome back.

use vstd::prelude::*;
use vstd::utf8::encode_utf8;
use crate::config::{GenerateDialogConfig, http_base, http_base_url};
use crate::encoding::base64_standard;
use crate::model::ClipDialog;
use crate::outside::{base64_encode, build_http_client};
use crate::text::{copy_opt_string, copy_string, decimal, opt_chars, push_decimal, push_str};

verus! {

/// Request body of the Ollama generate API.
#[derive(Debug)]
pub struct OllamaRequest {
    pub model: String,
    pub prompt: String,
    pub images: Vec<String>,
    pub stream: bool,
    pub system: Option<String>,
}

/// Client for the vision model, as configured for dialog generation.
pub struct OllamaClient {
    client: reqwest::Client,
    base_url: String,
    model: String,
    system_prompt: Option<String>,
}

impl OllamaClient {
    /// The base URL of the model's API.
    pub closed spec fn base_url_spec(&self) -> Seq<char> {
        self.base_url@
    }

    /// The model name.
    pub closed spec fn model_spec(&self) -> Seq<char> {
        self.model@
    }

    /// The system prompt.
    pub closed spec fn system_spec(&self) -> Option<Seq<char>> {
        opt_chars(self.system_prompt)
    }

    /// Creates a client from the dialog-generation configuration, or the
    /// error that building its HTTP client gave.
    pub fn new(config: &GenerateDialogConfig) -> (r: Result<OllamaClient, reqwest::Error>)
        ensures
            r matches Ok(c) ==> c.base_url_spec() == http_base_url(
                config.ollama_host@,
                config.ollama_port,
            ) && c.model_spec() == config.vision_model@ && c.system_spec() == opt_chars(
                config.system_prompt,
            ),
    {
        let client = match build_http_client() {
            Ok(client) => client,
            Err(e) => {
                return Err(e);
            },
        };
        Ok(OllamaClient {
            client,
            base_url: http_base(config.ollama_host.as_str(), config.ollama_port),
            model: copy_string(config.vision_model.as_str()),
            system_prompt: copy_opt_string(&config.system_prompt),
        })
    }

    /// The URL of the generate API.
    pub fn generate_url(&self) -> (s: String)
        ensures
            s@ == self.base_url_spec() + "/api/generate"@,
    {
        let mut s = copy_string(self.base_url.as_str());
        push_str(&mut s, "/api/generate");
        s
    }

    /// The HTTP client the client holds, made when it was created.
    pub closed spec fn http_spec(&self) -> reqwest::Client {
        self.client
    }

    /// The HTTP client that sends the requests.
    pub fn http(&self) -> (c: &reqwest::Client)
        ensures
            *c == self.http_spec(),
    {
        &self.client
    }

    /// The request asking the model about an image with the given prompt; an
    /// empty image makes a text-only request.
    pub fn build_request(&self, prompt: &str, image_data: &[u8]) -> (r: OllamaRequest)
        ensures
            r.model@ == self.model_spec(),
            r.prompt@ == prompt@,
            image_data@.len() == 0 ==> r.images@.len() == 0,
            image_data@.len() > 0 ==> r.images@.len() == 1 && r.images@[0]@ == base64_standard(
                image_data@,
            ),
            !r.stream,
            opt_chars(r.system) == self.system_spec(),
    {
        let mut images = Vec::new();
        if image_data.len() > 0 {
            images.push(base64_encode(image_data));
        }
        OllamaRequest {
            model: copy_string(self.model.as_str()),
            prompt: copy_string(prompt),
            images,
            stream: false,
            system: copy_opt_string(&self.system_prompt),
        }
    }
}

/// What an answer body contributes to an error message: the body, or
/// nothing when it could not be read.
pub open spec fn body_or_empty(body: Result<String, String>) -> Seq<char> {
    match body {
        Ok(b) => b@,
        Err(_) => Seq::<char>::empty(),
    }
}

/// The text of the model's answer, from the answer's status and body: an
/// unsuccessful status is an error naming the status and the body (empty
/// when the body could not be read); a body that could not be read is an
/// error naming the reason.
pub fn reply_text(success: bool, status: &str, body: Result<String, String>) -> (r: Result<
    String,
    String,
>)
    ensures
        !success ==> (r matches Err(m) && m@ == "Ollama returned error "@ + status@ + ": "@
            + body_or_empty(body)),
        success ==> (match body {
            Ok(b) => (r matches Ok(t) && t@ == b@),
            Err(e) => (r matches Err(m) && m@ == "Failed to read response body: "@ + e@),
        }),
{
    if !success {
        let mut m = String::new();
        push_str(&mut m, "Ollama returned error ");
        push_str(&mut m, status);
        push_str(&mut m, ": ");
        match &body {
            Ok(b) => push_str(&mut m, b.as_str()),
            Err(_) => {},
        }
        assert(m@ =~= "Ollama returned error "@ + status@ + ": "@ + body_or_empty(body));
        return Err(m);
    }
    match body {
        Ok(b) => Ok(b),
        Err(e) => {
            let mut m = String::new();
            push_str(&mut m, "Failed to read response body: ");
            push_str(&mut m, e.as_str());
            Err(m)
        },
    }
}

/// The error for a request that could not be sent to the model.
pub fn connect_failure(error: &str) -> (m: String)
    ensures
        m@ == "Failed to connect to Ollama: "@ + error@,
{
    let mut m = String::new();
    push_str(&mut m, "Failed to connect to Ollama: ");
    push_str(&mut m, error);
    m
}

/// The error for an answer whose body is not the JSON the API promises.
pub fn parse_failure(error: &str) -> (m: String)
    ensures
        m@ == "Failed to parse Ollama response: "@ + error@,
{
    let mut m = String::new();
    push_str(&mut m, "Failed to parse Ollama response: ");
    push_str(&mut m, error);
    m
}

/// Lines joined with `\n` between them.
pub open spec fn join_lines(lines: Seq<Seq<char>>) -> Seq<char>
    decreases lines.len(),
{
    if lines.len() == 0 {
        Seq::empty()
    } else if lines.len() == 1 {
        lines[0]
    } else {
        join_lines(lines.drop_last()) + "\n"@ + lines.last()
    }
}

/// The prompt that asks about one still, with the video's context if any.
pub open spec fn clip_prompt_text(context: Seq<char>) -> Seq<char> {
    if context.len() == 0 {
        "Describe what is happening in this video frame. Focus on any interesting action, subjects, or noteworthy elements. Be concise but descriptive."@
    } else {
        "Context about this video: "@ + context
            + "\n\nDescribe what is happening in this video frame. Focus on any interesting action, subjects, or noteworthy elements that relate to the context above. Be concise but descriptive."@
    }
}

/// How a clip is summarized for the introduction.
pub open spec fn prolog_line(c: ClipDialog) -> Seq<char> {
    "At "@ + decimal(c.timestamp_seconds as nat) + "s: "@ + c.dialog_text@
}

/// The prompt for the introduction: the first three clips.
pub open spec fn prolog_prompt_text(clips: Seq<ClipDialog>) -> Seq<char> {
    let first = clips.take(if clips.len() < 3 { clips.len() as int } else { 3 });
    "Based on these video descriptions, write a brief engaging introduction:\n"@ + join_lines(
        first.map_values(|c: ClipDialog| prolog_line(c)),
    ) + "\n\nWrite 1-2 sentences to introduce this video."@
}

/// The prompt for the closing words.
pub open spec fn epilog_prompt_text() -> Seq<char> {
    "Write a brief closing statement for a video, encouraging viewers to like and subscribe. Keep it under 2 sentences."@
}

/// The clips judged interesting, in order.
pub open spec fn interesting(clips: Seq<ClipDialog>) -> Seq<ClipDialog> {
    clips.filter(|c: ClipDialog| c.is_interesting)
}

/// How a clip is listed in the description request.
pub open spec fn highlight_line(c: ClipDialog) -> Seq<char> {
    "- "@ + c.dialog_text@
}

/// The prompt for the video description: the first five interesting clips.
pub open spec fn description_prompt_text(clips: Seq<ClipDialog>) -> Seq<char> {
    let hi = interesting(clips);
    let first = hi.take(if hi.len() < 5 { hi.len() as int } else { 5 });
    "Based on these video highlights, write a YouTube video description:\n"@ + join_lines(
        first.map_values(|c: ClipDialog| highlight_line(c)),
    )
        + "\n\nInclude:\n- Opening hook (1 sentence)\n- What viewers will learn/see\n- Relevant hashtags\nKeep it under 200 words."@
}

/// A clip is interesting when its text is longer than 50 bytes.
pub open spec fn is_interesting_text(text: Seq<char>) -> bool {
    (encode_utf8(text).len() as usize) > 50
}

/// The prompt that asks about one still.
pub fn clip_prompt(context: &str) -> (p: String)
    ensures
        p@ == clip_prompt_text(context@),
{
    let mut p = String::new();
    if context.unicode_len() == 0 {
        push_str(
            &mut p,
            "Describe what is happening in this video frame. Focus on any interesting action, subjects, or noteworthy elements. Be concise but descriptive.",
        );
    } else {
        push_str(&mut p, "Context about this video: ");
        push_str(&mut p, context);
        push_str(
            &mut p,
            "\n\nDescribe what is happening in this video frame. Focus on any interesting action, subjects, or noteworthy elements that relate to the context above. Be concise but descriptive.",
        );
    }
    assert(p@ =~= clip_prompt_text(context@));
    p
}

/// The clip made of the model's answer about the still at `timestamp`.
pub open spec fn answered_clip(timestamp: u64, answer: String) -> ClipDialog {
    ClipDialog {
        timestamp_seconds: timestamp,
        dialog_text: answer,
        is_interesting: is_interesting_text(answer@),
    }
}

/// The clip made of the model's answer about the still at `timestamp`.
pub fn clip_from_answer(timestamp: u64, answer: String) -> (c: ClipDialog)
    ensures
        c == answered_clip(timestamp, answer),
{
    let n = answer.as_str().len();
    ClipDialog { timestamp_seconds: timestamp, dialog_text: answer, is_interesting: n > 50 }
}

fn push_line_break_join(s: &mut String, i: usize)
    ensures
        i == 0 ==> final(s)@ == old(s)@,
        i > 0 ==> final(s)@ == old(s)@ + "\n"@,
{
    if i > 0 {
        push_str(s, "\n");
    }
}

proof fn lemma_join_step(lines: Seq<Seq<char>>, i: int)
    requires
        0 <= i < lines.len(),
    ensures
        join_lines(lines.take(i + 1)) == if i == 0 {
            lines[0]
        } else {
            join_lines(lines.take(i)) + "\n"@ + lines[i]
        },
{
    let t = lines.take(i + 1);
    assert(t.drop_last() =~= lines.take(i));
    if i == 0 {
        assert(t.len() == 1);
    }
}

/// The prompt for the introduction.
pub fn prolog_prompt(clips: &[ClipDialog]) -> (p: String)
    ensures
        p@ == prolog_prompt_text(clips@),
{
    let n: usize = if clips.len() < 3 { clips.len() } else { 3 };
    let ghost lines = clips@.take(n as int).map_values(|c: ClipDialog| prolog_line(c));
    let mut p = String::new();
    push_str(&mut p, "Based on these video descriptions, write a brief engaging introduction:\n");
    let ghost head = p@;
    let mut i: usize = 0;
    while i < n
        invariant
            n <= clips@.len(),
            i <= n,
            lines == clips@.take(n as int).map_values(|c: ClipDialog| prolog_line(c)),
            p@ == head + join_lines(lines.take(i as int)),
        decreases n - i,
    {
        proof {
            lemma_join_step(lines, i as int);
        }
        push_line_break_join(&mut p, i);
        push_str(&mut p, "At ");
        push_decimal(&mut p, clips[i].timestamp_seconds);
        push_str(&mut p, "s: ");
        push_str(&mut p, clips[i].dialog_text.as_str());
        assert(lines[i as int] == prolog_line(clips@[i as int]));
        assert(p@ =~= head + join_lines(lines.take(i + 1)));
        i = i + 1;
    }
    assert(lines.take(n as int) =~= lines);
    push_str(&mut p, "\n\nWrite 1-2 sentences to introduce this video.");
    assert(p@ =~= prolog_prompt_text(clips@));
    p
}

/// The prompt for the closing words.
pub fn epilog_prompt() -> (p: String)
    ensures
        p@ == epilog_prompt_text(),
{
    copy_string(
        "Write a brief closing statement for a video, encouraging viewers to like and subscribe. Keep it under 2 sentences.",
    )
}

/// The prompt for the video description.
pub fn description_prompt(clips: &[ClipDialog]) -> (p: String)
    ensures
        p@ == description_prompt_text(clips@),
{
    let ghost hi = interesting(clips@);
    let ghost m: int = if hi.len() < 5 { hi.len() as int } else { 5 };
    let ghost lines = hi.take(m).map_values(|c: ClipDialog| highlight_line(c));
    let mut p = String::new();
    push_str(&mut p, "Based on these video highlights, write a YouTube video description:\n");
    let ghost head = p@;
    let mut count: usize = 0;
    let mut i: usize = 0;
    while i < clips.len() && count < 5
        invariant
            i <= clips@.len(),
            hi == interesting(clips@),
            count as int == interesting(clips@.take(i as int)).len(),
            count <= 5,
            interesting(clips@.take(i as int)) == hi.take(count as int),
            p@ == head + join_lines(hi.take(count as int).map_values(|c: ClipDialog| highlight_line(c))),
        decreases clips@.len() - i,
    {
        let ghost pre = clips@.take(i as int);
        assert(clips@.take(i + 1).drop_last() =~= pre);
        reveal_with_fuel(Seq::filter, 1);
        if clips[i].is_interesting {
            proof {
                lemma_interesting_prefix(clips@, i as int);
                lemma_join_step(hi.map_values(|c: ClipDialog| highlight_line(c)), count as int);
                assert(hi.take(count + 1).map_values(|c: ClipDialog| highlight_line(c)) =~= hi.map_values(
                    |c: ClipDialog| highlight_line(c),
                ).take(count + 1));
                assert(hi.take(count as int).map_values(|c: ClipDialog| highlight_line(c)) =~= hi.map_values(
                    |c: ClipDialog| highlight_line(c),
                ).take(count as int));
            }
            push_line_break_join(&mut p, count);
            push_str(&mut p, "- ");
            push_str(&mut p, clips[i].dialog_text.as_str());
            count = count + 1;
            proof {
                assert(p@ =~= head + join_lines(
                    hi.take(count as int).map_values(|c: ClipDialog| highlight_line(c)),
                ));
            }
        }
        i = i + 1;
    }
    proof {
        lemma_interesting_prefix_of(clips@, i as int);
        if count < 5 {
            assert(clips@.take(i as int) =~= clips@);
            assert(hi.len() == count);
        }
        assert(hi.take(count as int) =~= hi.take(m));
    }
    push_str(
        &mut p,
        "\n\nInclude:\n- Opening hook (1 sentence)\n- What viewers will learn/see\n- Relevant hashtags\nKeep it under 200 words.",
    );
    assert(p@ =~= description_prompt_text(clips@));
    p
}

proof fn lemma_interesting_prefix(clips: Seq<ClipDialog>, i: int)
    requires
        0 <= i < clips.len(),
        clips[i].is_interesting,
    ensures
        interesting(clips.take(i + 1)) == interesting(clips.take(i)).push(clips[i]),
        interesting(clips).len() > interesting(clips.take(i)).len(),
        interesting(clips).take(interesting(clips.take(i)).len() + 1int) == interesting(
            clips.take(i + 1),
        ),
{
    reveal_with_fuel(Seq::filter, 1);
    assert(clips.take(i + 1).drop_last() =~= clips.take(i));
    lemma_interesting_prefix_of(clips, i + 1);
}

proof fn lemma_interesting_prefix_of(clips: Seq<ClipDialog>, k: int)
    requires
        0 <= k <= clips.len(),
    ensures
        interesting(clips).len() >= interesting(clips.take(k)).len(),
        interesting(clips).take(interesting(clips.take(k)).len() as int) == interesting(clips.take(k)),
    decreases clips.len() - k,
{
    if k == clips.len() {
        assert(clips.take(k) =~= clips);
        assert(interesting(clips).take(interesting(clips).len() as int) =~= interesting(clips));
    } else {
        lemma_interesting_prefix_of(clips, k + 1);
        reveal_with_fuel(Seq::filter, 1);
        assert(clips.take(k + 1).drop_last() =~= clips.take(k));
        let a = interesting(clips.take(k));
        let b = interesting(clips.take(k + 1));
        let all = interesting(clips);
        assert(all.take(b.len() as int) == b);
        if clips[k].is_interesting {
            assert(b == a.push(clips[k]));
            assert(all.take(a.len() as int) =~= b.take(a.len() as int));
            assert(b.take(a.len() as int) =~= a);
        } else {
            assert(b == a);
        }
    }
}

} // verus!
