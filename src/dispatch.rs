use vstd::prelude::*;

use crate::error::RustyBotError;
use crate::intent::{classify, classify_spec, Code, CodeKind, Intent, IntentView, kind_name};
use crate::playground::{
    entities_decoded,
    eval_program,
    fixed_request,
    PlaygroundAnswer,
    PlaygroundRequest,
    PlaygroundResponse,
    Response,
};
use crate::reply::{
    alive_reply,
    alive_text,
    compose_code_reply,
    eval_command,
    help_text,
    lower_of,
    ReplyContent,
};

verus! {

/// What to do next for one message.
#[derive(Debug)]
pub enum Step {
    /// Nothing: the message asks nothing of the bot.
    Ignore,
    /// Post this reply; the message is then done.
    Post(ReplyContent),
    /// Post the acknowledgement, then run the request in the sandbox.
    Execute(PlaygroundRequest),
    /// Ask the sandbox for a share link of the request's code; the run gave this response.
    Share(PlaygroundRequest, PlaygroundResponse),
    /// Log the error; no reply is posted.
    Fail(RustyBotError),
}

/// The program that a code block of kind `kind` runs.
pub open spec fn program_of(kind: CodeKind, body: Seq<char>) -> Seq<char> {
    match kind {
        CodeKind::Code => body,
        CodeKind::Eval => eval_program(body),
    }
}

/// A post of plain text `t`.
pub open spec fn posts_text(r: Step, t: Seq<char>) -> bool {
    match r {
        Step::Post(ReplyContent::Text { text }) => text@ == t,
        _ => false,
    }
}

/// The acknowledgement posted before a run.
pub open spec fn executing_text() -> Seq<char> {
    "Executing..."@
}

/// The acknowledgement posted before a run.
pub fn executing_notice() -> (r: String)
    ensures
        r@ == executing_text(),
{
    String::from_str("Executing...")
}

/// The sandbox request for a code block: the program with its HTML entities decoded,
/// under the fixed settings.
pub fn build(kind: CodeKind, body: String) -> (r: PlaygroundRequest)
    ensures
        r@ == fixed_request(entities_decoded(program_of(kind, body@))),
{
    match kind {
        CodeKind::Code => PlaygroundRequest::new(body).escape_html(),
        CodeKind::Eval => PlaygroundRequest::new_eval(body).escape_html(),
    }
}

/// The sandbox request for a code block found in a message, or an error when its
/// marker names no supported kind.
pub fn build_request(code: &Code) -> (r: Result<PlaygroundRequest, RustyBotError>)
    ensures
        code.kind@ == kind_name(CodeKind::Code) ==> (r matches Ok(q) && q@ == fixed_request(
            entities_decoded(code.text@),
        )),
        code.kind@ == kind_name(CodeKind::Eval) ==> (r matches Ok(q) && q@ == fixed_request(
            entities_decoded(eval_program(code.text@)),
        )),
        code.kind@ != kind_name(CodeKind::Code) && code.kind@ != kind_name(CodeKind::Eval) ==> (
        r matches Err(RustyBotError::InvalidBotCommand { command }) && command@ == code.kind@),
{
    proof {
        reveal_strlit("code");
        reveal_strlit("eval");
        assert("code"@ =~= kind_name(CodeKind::Code));
        assert("eval"@ =~= kind_name(CodeKind::Eval));
    }
    let code_name = String::from_str("code");
    let eval_name = String::from_str("eval");
    if code.kind == code_name {
        Ok(build(CodeKind::Code, code.text.clone()))
    } else if code.kind == eval_name {
        Ok(build(CodeKind::Eval, code.text.clone()))
    } else {
        Err(RustyBotError::InvalidBotCommand { command: code.kind.clone() })
    }
}

/// The first step for a classified message.
pub fn respond(intent: Intent) -> (r: Step)
    ensures
        match intent@ {
            IntentView::CodeBlock { kind, body } => r matches Step::Execute(q) && q@
                == fixed_request(entities_decoded(program_of(kind, body))),
            IntentView::HelpCommand { topic } => posts_text(r, help_text(lower_of(topic))),
            IntentView::Mention => posts_text(r, alive_text()),
            IntentView::NoIntent => r is Ignore,
        },
{
    match intent {
        Intent::CodeBlock { kind, body } => Step::Execute(build(kind, body)),
        Intent::HelpCommand { topic } => {
            let text = eval_command(topic).unwrap();
            Step::Post(ReplyContent::Text { text })
        },
        Intent::Mention => Step::Post(ReplyContent::Text { text: alive_reply() }),
        Intent::NoIntent => Step::Ignore,
    }
}

/// The first step for a message with text `text`, for a bot named `identity`.
pub fn dispatch(text: &Option<String>, identity: &str) -> (r: Step)
    ensures
        ({
            let t = match text {
                Some(s) => Some(s@),
                None => None,
            };
            match classify_spec(t, identity@) {
                IntentView::CodeBlock { kind, body } => r matches Step::Execute(q) && q@
                    == fixed_request(entities_decoded(program_of(kind, body))),
                IntentView::HelpCommand { topic } => posts_text(r, help_text(lower_of(topic))),
                IntentView::Mention => posts_text(r, alive_text()),
                IntentView::NoIntent => r is Ignore,
            }
        }),
{
    respond(classify(text, identity))
}

/// The step after a run: on success, ask for the share link; on failure, stop.
pub fn after_execute(request: PlaygroundRequest, result: Result<Response, RustyBotError>) -> (r:
    Step)
    ensures
        match result {
            Ok(res) => r matches Step::Share(q, p) && q@ == request@ && p
                == res.playground_response,
            Err(e) => r matches Step::Fail(f) && f == e,
        },
{
    match result {
        Ok(res) => Step::Share(request, res.playground_response),
        Err(e) => Step::Fail(e),
    }
}

/// The step after the share link was asked for: on success, post the run's output
/// with the link; on failure, stop.
pub fn after_share(response: PlaygroundResponse, link: Result<String, RustyBotError>) -> (r: Step)
    ensures
        match link {
            Ok(l) => r matches Step::Post(ReplyContent::Code { link, stdout, stderr }) && link@
                == l@ && stdout@ == response.stdout@ && stderr@ == response.stderr@,
            Err(e) => r matches Step::Fail(f) && f == e,
        },
{
    match link {
        Ok(l) => Step::Post(
            compose_code_reply(PlaygroundAnswer { playground_answer: response, link: l }),
        ),
        Err(e) => Step::Fail(e),
    }
}

} // verus!
