//! The question set a workflow template comes with, and the decisions the
//! interactive question loop makes. The prompts themselves run in the
//! surrounding binary; what to do with an answer, a default, or a missing
//! answer is decided here.

use vstd::prelude::*;

verus! {

/// How one question is asked.
#[derive(Debug, Clone, Copy, PartialEq, Eq, Structural)]
pub enum QuestionType {
    Input,
    Select,
    Confirm,
}

/// One question of a template's variable sheet.
#[derive(Debug, Clone)]
pub struct Question {
    pub q_type: QuestionType,
    pub message: String,
    pub var_name: String,
    pub default: Option<String>,
    pub options: Option<Vec<String>>,
}

/// Where the flow continues after a question round.
#[derive(Debug, Clone)]
pub struct After {
    pub goto: String,
}

impl After {
    pub fn new(goto: String) -> (r: Self)
        ensures
            r.goto == goto,
    {
        After { goto }
    }
}

/// A template's variable sheet: its questions, its optional file name, and
/// the optional follow-up target.
#[derive(Debug, Clone)]
pub struct TemplateVars {
    pub name: Option<String>,
    pub questions: Vec<Question>,
    pub after: Option<After>,
}

/// What an input question's answer ends up being: what was entered wins;
/// with nothing entered the declared default steps in; with neither, the
/// prompt has failed and the round is abandoned.
pub fn resolve_input_answer(entered: Option<String>, default: Option<String>) -> (r: Option<
    String,
>)
    ensures
        match entered {
            Option::Some(e) => r == Option::Some(e),
            Option::None => r == default,
        },
{
    match entered {
        Option::Some(e) => Option::Some(e),
        Option::None => default,
    }
}

} // verus!
