//! Tests for the course of a dialog generation and its prompts.

use yt_rs::config::GenerateDialogConfig;
use yt_rs::generation::{DialogGeneration, DialogOutcome, DialogStage, DialogStep};
use yt_rs::model::ClipDialog;
use yt_rs::vision::{
    OllamaClient, clip_from_answer, clip_prompt, connect_failure, description_prompt,
    epilog_prompt, parse_failure, prolog_prompt, reply_text,
};

const PLAIN_PROMPT: &str = "Describe what is happening in this video frame. Focus on any interesting action, subjects, or noteworthy elements. Be concise but descriptive.";

fn clip(t: u64, text: &str, interesting: bool) -> ClipDialog {
    ClipDialog { timestamp_seconds: t, dialog_text: text.to_string(), is_interesting: interesting }
}

#[test]
fn generation_asks_for_each_still_then_the_texts() {
    let mut g = DialogGeneration::new(vec![0, 30], String::new());
    match g.next_step() {
        DialogStep::DescribeStill { timestamp, prompt } => {
            assert_eq!(timestamp, 0);
            assert_eq!(prompt, PLAIN_PROMPT);
        }
        other => panic!("unexpected {:?}", other),
    }
    g.receive(DialogOutcome::Answer("A person walks into a brightly lit kitchen and opens the fridge.".to_string()));
    match g.next_step() {
        DialogStep::DescribeStill { timestamp, .. } => assert_eq!(timestamp, 30),
        other => panic!("unexpected {:?}", other),
    }
    g.receive(DialogOutcome::Answer("Short.".to_string()));
    assert_eq!(g.stage(), DialogStage::Prolog);
    match g.next_step() {
        DialogStep::AskText { prompt } => assert_eq!(
            prompt,
            "Based on these video descriptions, write a brief engaging introduction:\nAt 0s: A person walks into a brightly lit kitchen and opens the fridge.\nAt 30s: Short.\n\nWrite 1-2 sentences to introduce this video."
        ),
        other => panic!("unexpected {:?}", other),
    }
    g.receive(DialogOutcome::Answer("Welcome!".to_string()));
    assert_eq!(g.stage(), DialogStage::Epilog);
    g.receive(DialogOutcome::ModelFailed);
    assert_eq!(g.stage(), DialogStage::Description);
    match g.next_step() {
        DialogStep::AskText { prompt } => assert!(prompt.contains(
            "\n- A person walks into a brightly lit kitchen and opens the fridge.\n\nInclude:"
        )),
        other => panic!("unexpected {:?}", other),
    }
    g.receive(DialogOutcome::Answer("Great video.".to_string()));
    assert_eq!(g.stage(), DialogStage::Finished);
    assert!(matches!(g.next_step(), DialogStep::Done));
    let dialog = g.into_result().unwrap().unwrap();
    assert_eq!(dialog.prolog, "Welcome!");
    assert_eq!(dialog.epilog, "");
    assert_eq!(dialog.youtube_description, "Great video.");
    assert_eq!(dialog.clips.len(), 2);
    assert_eq!(dialog.clips[0].timestamp_seconds, 0);
    assert!(dialog.clips[0].is_interesting);
    assert_eq!(dialog.clips[1].timestamp_seconds, 30);
    assert!(!dialog.clips[1].is_interesting);
}

#[test]
fn generation_with_context_puts_it_in_the_still_prompt() {
    let g = DialogGeneration::new(vec![5], "A cooking show".to_string());
    match g.next_step() {
        DialogStep::DescribeStill { prompt, .. } => assert!(prompt.starts_with(
            "Context about this video: A cooking show\n\nDescribe what is happening in this video frame."
        )),
        other => panic!("unexpected {:?}", other),
    }
}

#[test]
fn missing_still_fails_with_500_and_silent_model_with_503() {
    let mut g = DialogGeneration::new(vec![0, 30], String::new());
    g.receive(DialogOutcome::StillUnavailable);
    assert_eq!(g.stage(), DialogStage::Failed(500));
    assert!(matches!(g.next_step(), DialogStep::Failed(500)));
    assert_eq!(g.into_result().unwrap().err(), Some(500));

    let mut g = DialogGeneration::new(vec![0, 30], String::new());
    g.receive(DialogOutcome::Answer("first".to_string()));
    g.receive(DialogOutcome::ModelFailed);
    assert_eq!(g.stage(), DialogStage::Failed(503));
    // A failed generation stays failed.
    g.receive(DialogOutcome::Answer("late".to_string()));
    assert_eq!(g.stage(), DialogStage::Failed(503));
}

#[test]
fn generation_without_stills_asks_only_for_closing_words() {
    let mut g = DialogGeneration::new(vec![], String::new());
    assert_eq!(g.stage(), DialogStage::Epilog);
    match g.next_step() {
        DialogStep::AskText { prompt } => assert_eq!(
            prompt,
            "Write a brief closing statement for a video, encouraging viewers to like and subscribe. Keep it under 2 sentences."
        ),
        other => panic!("unexpected {:?}", other),
    }
    assert!(g.into_result().is_none());
    let mut g = DialogGeneration::new(vec![], String::new());
    g.receive(DialogOutcome::Answer("Bye".to_string()));
    let dialog = g.into_result().unwrap().unwrap();
    assert_eq!(dialog.prolog, "");
    assert_eq!(dialog.epilog, "Bye");
    assert_eq!(dialog.youtube_description, "");
    assert!(dialog.clips.is_empty());
}

#[test]
fn a_clip_is_interesting_past_fifty_bytes() {
    let exactly_fifty = "x".repeat(50);
    assert!(!clip_from_answer(1, exactly_fifty).is_interesting);
    assert!(clip_from_answer(1, "x".repeat(51)).is_interesting);
    // 26 two-byte characters are 52 bytes.
    assert!(clip_from_answer(1, "é".repeat(26)).is_interesting);
    assert_eq!(clip_from_answer(7, "t".to_string()).timestamp_seconds, 7);
}

#[test]
fn prolog_uses_the_first_three_clips() {
    let clips = vec![clip(0, "a", false), clip(10, "b", true), clip(20, "c", false), clip(30, "d", true)];
    assert_eq!(
        prolog_prompt(&clips),
        "Based on these video descriptions, write a brief engaging introduction:\nAt 0s: a\nAt 10s: b\nAt 20s: c\n\nWrite 1-2 sentences to introduce this video."
    );
}

#[test]
fn description_uses_the_first_five_interesting_clips() {
    let clips: Vec<ClipDialog> = (0..8).map(|i| clip(i, &format!("c{i}"), i % 2 == 1 || i == 6)).collect();
    assert_eq!(
        description_prompt(&clips),
        "Based on these video highlights, write a YouTube video description:\n- c1\n- c3\n- c5\n- c6\n- c7\n\nInclude:\n- Opening hook (1 sentence)\n- What viewers will learn/see\n- Relevant hashtags\nKeep it under 200 words."
    );
    let none: Vec<ClipDialog> = vec![clip(0, "dull", false)];
    assert_eq!(
        description_prompt(&none),
        "Based on these video highlights, write a YouTube video description:\n\n\nInclude:\n- Opening hook (1 sentence)\n- What viewers will learn/see\n- Relevant hashtags\nKeep it under 200 words."
    );
}

#[test]
fn prompts_without_context() {
    assert_eq!(clip_prompt(""), PLAIN_PROMPT);
    assert!(epilog_prompt().ends_with("Keep it under 2 sentences."));
}

#[test]
fn client_addresses_the_configured_model() {
    let config = GenerateDialogConfig {
        ollama_host: "gpu-box".to_string(),
        ollama_port: 4000,
        vision_model: "llava".to_string(),
        system_prompt: Some("Be brief.".to_string()),
    };
    let client = OllamaClient::new(&config).unwrap();
    assert_eq!(client.generate_url(), "http://gpu-box:4000/api/generate");
    let with_image = client.build_request("what?", b"hi");
    assert_eq!(with_image.model, "llava");
    assert_eq!(with_image.images, vec!["aGk=".to_string()]);
    assert_eq!(with_image.system.as_deref(), Some("Be brief."));
    assert!(!with_image.stream);
    let text_only = client.build_request("words", &[]);
    assert!(text_only.images.is_empty());
    assert_eq!(text_only.prompt, "words");
}

#[test]
fn replies_and_failures_of_the_model() {
    assert_eq!(reply_text(true, "200 OK", Ok("{}".to_string())), Ok("{}".to_string()));
    assert_eq!(
        reply_text(false, "500 Internal Server Error", Ok("oops".to_string())),
        Err("Ollama returned error 500 Internal Server Error: oops".to_string())
    );
    assert_eq!(
        reply_text(false, "404 Not Found", Err("cut".to_string())),
        Err("Ollama returned error 404 Not Found: ".to_string())
    );
    assert_eq!(
        reply_text(true, "200 OK", Err("cut".to_string())),
        Err("Failed to read response body: cut".to_string())
    );
    assert_eq!(connect_failure("refused"), "Failed to connect to Ollama: refused");
    assert_eq!(parse_failure("eof"), "Failed to parse Ollama response: eof");
}

#[test]
fn every_answer_lands_where_the_laws_say() {
    let answers = ["one", "two", "three", "intro", "outro", "desc"];
    let mut g = DialogGeneration::new(vec![0, 10, 20], String::new());
    for a in answers {
        g.receive(DialogOutcome::Answer(a.to_string()));
    }
    let dialog = g.into_result().unwrap().unwrap();
    let texts: Vec<&str> = dialog.clips.iter().map(|c| c.dialog_text.as_str()).collect();
    assert_eq!(texts, vec!["one", "two", "three"]);
    let times: Vec<u64> = dialog.clips.iter().map(|c| c.timestamp_seconds).collect();
    assert_eq!(times, vec![0, 10, 20]);
    assert_eq!(dialog.prolog, "intro");
    assert_eq!(dialog.epilog, "outro");
    assert_eq!(dialog.youtube_description, "desc");
}
