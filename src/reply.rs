use vstd::prelude::*;

use crate::playground::PlaygroundAnswer;

verus! {

/// What is posted back to the channel.
#[derive(Debug, PartialEq, Eq)]
pub enum ReplyContent {
    /// The result of a run: a link to the shared code and the program's output.
    Code { link: String, stdout: String, stderr: String },
    /// Plain text.
    Text { text: String },
}

/// The link for the topic `docs`.
pub open spec fn docs_link() -> Seq<char> {
    "https://doc.rust-lang.org/"@
}

/// The link for the topic `book`.
pub open spec fn book_link() -> Seq<char> {
    "https://doc.rust-lang.org/book/"@
}

/// The summary of the commands, for any other topic.
pub open spec fn usage_text() -> Seq<char> {
    "*Available commands*\n!code - for complete code blocks\n!eval - for evaluating chunks that can fit in main function\n!help [docs, book] - links to classic rust material\n_Yours truely, Ferris_"@
}

/// The answer to a mention.
pub open spec fn alive_text() -> Seq<char> {
    "I'm alive, don't worry"@
}

/// The answer to a help topic already in lower case.
pub open spec fn help_text(lowered: Seq<char>) -> Seq<char> {
    if lowered == "docs"@ {
        docs_link()
    } else if lowered == "book"@ {
        book_link()
    } else {
        usage_text()
    }
}

/// The text in lower case.
pub uninterp spec fn lower_of(s: Seq<char>) -> Seq<char>;

/// Relies on str::to_lowercase: the result depends on the characters alone.
#[verifier::external_body]
fn lowercase(s: &str) -> (r: String)
    ensures
        r@ == lower_of(s@),
{
    s.to_lowercase()
}

/// The answer to a help topic that is already in lower case.
pub fn help_reply(lowered: &str) -> (r: String)
    ensures
        r@ == help_text(lowered@),
{
    let docs = String::from_str("docs");
    let book = String::from_str("book");
    let topic = String::from_str(lowered);
    if topic == docs {
        String::from_str("https://doc.rust-lang.org/")
    } else if topic == book {
        String::from_str("https://doc.rust-lang.org/book/")
    } else {
        String::from_str(
            "*Available commands*\n!code - for complete code blocks\n!eval - for evaluating chunks that can fit in main function\n!help [docs, book] - links to classic rust material\n_Yours truely, Ferris_",
        )
    }
}

/// The answer to a help command: a link for a known topic, whatever its case, and
/// the summary of the commands otherwise. It always has one.
pub fn eval_command(command: String) -> (r: Option<String>)
    ensures
        r matches Some(t) && t@ == help_text(lower_of(command@)),
{
    let lowered = lowercase(command.as_str());
    Some(help_reply(lowered.as_str()))
}

/// The answer to a mention.
pub fn alive_reply() -> (r: String)
    ensures
        r@ == alive_text(),
{
    String::from_str("I'm alive, don't worry")
}

/// The reply to a finished run: its link and output, passed on as they are.
pub fn compose_code_reply(answer: PlaygroundAnswer) -> (r: ReplyContent)
    ensures
        r matches ReplyContent::Code { link, stdout, stderr } && link@ == answer.link@ && stdout@
            == answer.playground_answer.stdout@ && stderr@ == answer.playground_answer.stderr@,
{
    ReplyContent::Code {
        link: answer.link,
        stdout: answer.playground_answer.stdout,
        stderr: answer.playground_answer.stderr,
    }
}

} // verus!
