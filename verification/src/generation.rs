//! The course of one dialog generation: a text for each still in turn, then
//! an introduction, closing words and a video description.
//!
//! The generation decides what to ask next and what to make of each answer;
//! the application performs each step (extracting a still, asking the model)
//! and hands the outcome back. A still that cannot be had fails the whole
//! generation with status 500, a model that does not answer about a still
//! with status 503; a text step that fails leaves its text empty.

use vstd::prelude::*;
use crate::model::{ClipDialog, GeneratedDialog};
use crate::vision::{
    answered_clip,
    clip_from_answer,
    clip_prompt,
    clip_prompt_text,
    description_prompt,
    description_prompt_text,
    epilog_prompt,
    epilog_prompt_text,
    prolog_prompt,
    prolog_prompt_text,
};

verus! {

/// Where a generation stands.
#[derive(Debug, Clone, Copy, PartialEq, Eq, Structural)]
pub enum DialogStage {
    /// Texts for the stills are being gathered.
    Clips,
    /// The introduction is asked for.
    Prolog,
    /// The closing words are asked for.
    Epilog,
    /// The video description is asked for.
    Description,
    /// The dialog is complete.
    Finished,
    /// The generation failed with the given HTTP status.
    Failed(u16),
}

/// What the application is to do next.
#[derive(Debug)]
pub enum DialogStep {
    /// Extract the still at `timestamp` and ask the model about it with `prompt`.
    DescribeStill { timestamp: u64, prompt: String },
    /// Ask the model with `prompt`, without an image.
    AskText { prompt: String },
    /// Nothing more: the dialog is complete.
    Done,
    /// Nothing more: the generation failed with this status.
    Failed(u16),
}

/// What came of a step.
#[derive(Debug)]
pub enum DialogOutcome {
    /// The model answered with this text.
    Answer(String),
    /// The still could not be extracted or read.
    StillUnavailable,
    /// The model could not be reached or its reply was unusable.
    ModelFailed,
}

/// The answer of the dialog generation endpoint.
#[derive(Debug)]
pub struct GenerateResponse {
    pub dialog: GeneratedDialog,
}

/// Mathematical model of a generation.
#[verifier::ext_equal]
pub struct GenerationModel {
    pub timestamps: Seq<u64>,
    pub context: Seq<char>,
    pub clips: Seq<ClipDialog>,
    pub prolog: Seq<char>,
    pub epilog: Seq<char>,
    pub description: Seq<char>,
    pub stage: DialogStage,
}

/// The stage that follows the gathering of clips: with no clip there is no
/// introduction to ask for.
pub open spec fn stage_after_clips(clips: Seq<ClipDialog>) -> DialogStage {
    if clips.len() == 0 {
        DialogStage::Epilog
    } else {
        DialogStage::Prolog
    }
}

/// The stage that follows the closing words: with no clip there is no
/// description to ask for.
pub open spec fn stage_after_epilog(clips: Seq<ClipDialog>) -> DialogStage {
    if clips.len() == 0 {
        DialogStage::Finished
    } else {
        DialogStage::Description
    }
}

/// The text a text step keeps: the answer, or nothing when it failed.
pub open spec fn answer_or_empty(outcome: DialogOutcome) -> Seq<char> {
    match outcome {
        DialogOutcome::Answer(a) => a@,
        _ => Seq::<char>::empty(),
    }
}

impl GenerationModel {
    /// The state in which a generation starts.
    pub open spec fn initial(timestamps: Seq<u64>, context: Seq<char>) -> GenerationModel {
        GenerationModel {
            timestamps,
            context,
            clips: Seq::empty(),
            prolog: Seq::empty(),
            epilog: Seq::empty(),
            description: Seq::empty(),
            stage: if timestamps.len() == 0 {
                DialogStage::Epilog
            } else {
                DialogStage::Clips
            },
        }
    }

    /// The invariant of a generation: one clip per still answered so far, in
    /// the order of the timestamps, and the stage in keeping with them.
    pub open spec fn wf(self) -> bool {
        &&& self.clips.len() <= self.timestamps.len()
        &&& forall|i: int|
            0 <= i < self.clips.len() ==> (#[trigger] self.clips[i]).timestamp_seconds
                == self.timestamps[i]
        &&& (self.stage is Clips ==> self.clips.len() < self.timestamps.len())
        &&& (!(self.stage is Clips) && !(self.stage is Failed) ==> self.clips.len()
            == self.timestamps.len())
        &&& (self.stage is Prolog ==> self.clips.len() > 0)
        &&& (self.stage is Description ==> self.clips.len() > 0)
        &&& (self.stage matches DialogStage::Failed(code) ==> code == 500 || code == 503)
    }

    /// The state after the outcome of the current step.
    pub open spec fn next(self, outcome: DialogOutcome) -> GenerationModel {
        match self.stage {
            DialogStage::Clips => match outcome {
                DialogOutcome::Answer(a) => {
                    let clips = self.clips.push(
                        answered_clip(self.timestamps[self.clips.len() as int], a),
                    );
                    GenerationModel {
                        clips,
                        stage: if clips.len() == self.timestamps.len() {
                            stage_after_clips(clips)
                        } else {
                            DialogStage::Clips
                        },
                        ..self
                    }
                },
                DialogOutcome::StillUnavailable => GenerationModel {
                    stage: DialogStage::Failed(500),
                    ..self
                },
                DialogOutcome::ModelFailed => GenerationModel {
                    stage: DialogStage::Failed(503),
                    ..self
                },
            },
            DialogStage::Prolog => GenerationModel {
                prolog: answer_or_empty(outcome),
                stage: DialogStage::Epilog,
                ..self
            },
            DialogStage::Epilog => GenerationModel {
                epilog: answer_or_empty(outcome),
                stage: stage_after_epilog(self.clips),
                ..self
            },
            DialogStage::Description => GenerationModel {
                description: answer_or_empty(outcome),
                stage: DialogStage::Finished,
                ..self
            },
            _ => self,
        }
    }
}

/// A dialog generation in progress.
pub struct DialogGeneration {
    timestamps: Vec<u64>,
    context: String,
    clips: Vec<ClipDialog>,
    prolog: String,
    epilog: String,
    description: String,
    stage: DialogStage,
}

impl View for DialogGeneration {
    type V = GenerationModel;

    closed spec fn view(&self) -> GenerationModel {
        GenerationModel {
            timestamps: self.timestamps@,
            context: self.context@,
            clips: self.clips@,
            prolog: self.prolog@,
            epilog: self.epilog@,
            description: self.description@,
            stage: self.stage,
        }
    }
}

impl DialogGeneration {
    /// Starts a generation over the stills at the given timestamps, with an
    /// optional context about the video (empty for none).
    pub fn new(timestamps: Vec<u64>, context: String) -> (g: DialogGeneration)
        ensures
            g@ == GenerationModel::initial(timestamps@, context@),
            g@.wf(),
    {
        let stage = if timestamps.len() == 0 {
            DialogStage::Epilog
        } else {
            DialogStage::Clips
        };
        DialogGeneration {
            timestamps,
            context,
            clips: Vec::new(),
            prolog: String::new(),
            epilog: String::new(),
            description: String::new(),
            stage,
        }
    }

    /// Where the generation stands.
    pub fn stage(&self) -> (s: DialogStage)
        ensures
            s == self@.stage,
    {
        self.stage
    }

    /// The step the application is to perform next.
    pub fn next_step(&self) -> (s: DialogStep)
        requires
            self@.wf(),
        ensures
            match self@.stage {
                DialogStage::Clips => (s matches DialogStep::DescribeStill { timestamp, prompt }
                    && timestamp == self@.timestamps[self@.clips.len() as int] && prompt@
                    == clip_prompt_text(self@.context)),
                DialogStage::Prolog => (s matches DialogStep::AskText { prompt } && prompt@
                    == prolog_prompt_text(self@.clips)),
                DialogStage::Epilog => (s matches DialogStep::AskText { prompt } && prompt@
                    == epilog_prompt_text()),
                DialogStage::Description => (s matches DialogStep::AskText { prompt } && prompt@
                    == description_prompt_text(self@.clips)),
                DialogStage::Finished => s is Done,
                DialogStage::Failed(code) => (s matches DialogStep::Failed(c) && c == code),
            },
    {
        match self.stage {
            DialogStage::Clips => {
                let k = self.clips.len();
                DialogStep::DescribeStill {
                    timestamp: self.timestamps[k],
                    prompt: clip_prompt(self.context.as_str()),
                }
            },
            DialogStage::Prolog => DialogStep::AskText { prompt: prolog_prompt(self.clips.as_slice()) },
            DialogStage::Epilog => DialogStep::AskText { prompt: epilog_prompt() },
            DialogStage::Description => DialogStep::AskText {
                prompt: description_prompt(self.clips.as_slice()),
            },
            DialogStage::Finished => DialogStep::Done,
            DialogStage::Failed(code) => DialogStep::Failed(code),
        }
    }

    /// Takes in the outcome of the current step.
    pub fn receive(&mut self, outcome: DialogOutcome)
        requires
            old(self)@.wf(),
        ensures
            final(self)@ == old(self)@.next(outcome),
            final(self)@.wf(),
    {
        match self.stage {
            DialogStage::Clips => match outcome {
                DialogOutcome::Answer(a) => {
                    let k = self.clips.len();
                    let clip = clip_from_answer(self.timestamps[k], a);
                    self.clips.push(clip);
                    if self.clips.len() == self.timestamps.len() {
                        self.stage = if self.clips.len() == 0 {
                            DialogStage::Epilog
                        } else {
                            DialogStage::Prolog
                        };
                    }
                },
                DialogOutcome::StillUnavailable => {
                    self.stage = DialogStage::Failed(500);
                },
                DialogOutcome::ModelFailed => {
                    self.stage = DialogStage::Failed(503);
                },
            },
            DialogStage::Prolog => {
                self.prolog = text_or_empty(outcome);
                self.stage = DialogStage::Epilog;
            },
            DialogStage::Epilog => {
                self.epilog = text_or_empty(outcome);
                self.stage = if self.clips.len() == 0 {
                    DialogStage::Finished
                } else {
                    DialogStage::Description
                };
            },
            DialogStage::Description => {
                self.description = text_or_empty(outcome);
                self.stage = DialogStage::Finished;
            },
            _ => {},
        }
        proof {
            assert(self@ =~= old(self)@.next(outcome));
        }
    }

    /// The generated dialog once the generation is finished, the status it
    /// failed with, or `None` while steps remain.
    pub fn into_result(self) -> (r: Option<Result<GeneratedDialog, u16>>)
        requires
            self@.wf(),
        ensures
            match self@.stage {
                DialogStage::Finished => (r matches Some(Ok(d)) && d.prolog@ == self@.prolog
                    && d.clips@ == self@.clips && d.epilog@ == self@.epilog
                    && d.youtube_description@ == self@.description),
                DialogStage::Failed(code) => r == Some(Err::<GeneratedDialog, u16>(code)),
                _ => r is None,
            },
    {
        match self.stage {
            DialogStage::Finished => Some(
                Ok(
                    GeneratedDialog {
                        prolog: self.prolog,
                        clips: self.clips,
                        epilog: self.epilog,
                        youtube_description: self.description,
                    },
                ),
            ),
            DialogStage::Failed(code) => Some(Err(code)),
            _ => None,
        }
    }
}

/// The text a text step keeps.
fn text_or_empty(outcome: DialogOutcome) -> (t: String)
    ensures
        t@ == answer_or_empty(outcome),
{
    match outcome {
        DialogOutcome::Answer(a) => a,
        _ => String::new(),
    }
}

} // verus!
