use vstd::prelude::*;

use crate::text::{chars_of, matches_at, occurs_at};

verus! {

/// Which marker introduced a code block.
#[derive(Clone, Copy, Debug, PartialEq, Eq, Structural)]
pub enum CodeKind {
    /// `!code`: the block is a complete program.
    Code,
    /// `!eval`: the block is the body of `main`.
    Eval,
}

/// A code block found in a message: the marker's name and the fenced text.
#[derive(Debug, PartialEq, Eq)]
pub struct Code {
    pub kind: String,
    pub text: String,
}

/// What a message asks of the bot.
#[derive(Debug, PartialEq, Eq)]
pub enum Intent {
    /// A fenced code block to run.
    CodeBlock { kind: CodeKind, body: String },
    /// A help request with its topic.
    HelpCommand { topic: String },
    /// The bot was addressed by name.
    Mention,
    /// Nothing for the bot to do.
    NoIntent,
}

/// An intent with its texts as character sequences.
pub enum IntentView {
    CodeBlock { kind: CodeKind, body: Seq<char> },
    HelpCommand { topic: Seq<char> },
    Mention,
    NoIntent,
}

impl View for Intent {
    type V = IntentView;

    open spec fn view(&self) -> IntentView {
        match self {
            Intent::CodeBlock { kind, body } => IntentView::CodeBlock { kind: *kind, body: body@ },
            Intent::HelpCommand { topic } => IntentView::HelpCommand { topic: topic@ },
            Intent::Mention => IntentView::Mention,
            Intent::NoIntent => IntentView::NoIntent,
        }
    }
}

/// `!code`, a newline and the first two backticks of the opening fence.
pub open spec fn code_marker() -> Seq<char> {
    seq!['!', 'c', 'o', 'd', 'e', '\n', '`', '`']
}

/// `!eval`, a newline and the first two backticks of the opening fence.
pub open spec fn eval_marker() -> Seq<char> {
    seq!['!', 'e', 'v', 'a', 'l', '\n', '`', '`']
}

/// The closing fence.
pub open spec fn fence() -> Seq<char> {
    seq!['`', '`', '`']
}

pub open spec fn marker_at(s: Seq<char>, i: int) -> bool {
    occurs_at(s, i, code_marker()) || occurs_at(s, i, eval_marker())
}

/// The first index at or after `k` where a closing fence starts, or -1.
pub open spec fn first_fence(s: Seq<char>, k: int) -> int
    decreases s.len() - k,
{
    if k + 3 > s.len() {
        -1
    } else if occurs_at(s, k, fence()) {
        k
    } else {
        first_fence(s, k + 1)
    }
}

/// The first index at or after `i` where a marker starts that some closing fence
/// follows, or -1.
pub open spec fn first_code_match(s: Seq<char>, i: int) -> int
    decreases s.len() - i,
{
    if i < 0 || i >= s.len() {
        -1
    } else if marker_at(s, i) && first_fence(s, i + 8) >= 0 {
        i
    } else {
        first_code_match(s, i + 1)
    }
}

/// Where the body of the block whose marker starts at `i` begins: after a third
/// opening backtick when one is there and a closing fence follows it.
pub open spec fn body_start(s: Seq<char>, i: int) -> int {
    if i + 8 < s.len() && s[i + 8] == '`' && first_fence(s, i + 9) >= 0 {
        i + 9
    } else {
        i + 8
    }
}

/// Where the body of the block whose marker starts at `i` ends.
pub open spec fn body_end(s: Seq<char>, i: int) -> int {
    first_fence(s, body_start(s, i))
}

/// The code block of a message: the first marker followed by a fenced block, with
/// the shortest body; none when there is no such block or its body is empty.
pub open spec fn code_of(s: Seq<char>) -> Option<(CodeKind, Seq<char>)> {
    let i = first_code_match(s, 0);
    if i < 0 {
        None
    } else {
        let body = s.subrange(body_start(s, i), body_end(s, i));
        if body.len() == 0 {
            None
        } else {
            Some((if s[i + 1] == 'c' { CodeKind::Code } else { CodeKind::Eval }, body))
        }
    }
}

/// The name of a marker, as written after the `!`.
pub open spec fn kind_name(k: CodeKind) -> Seq<char> {
    match k {
        CodeKind::Code => seq!['c', 'o', 'd', 'e'],
        CodeKind::Eval => seq!['e', 'v', 'a', 'l'],
    }
}

/// `!help`.
pub open spec fn help_marker() -> Seq<char> {
    seq!['!', 'h', 'e', 'l', 'p']
}

/// A whitespace character of Unicode.
pub open spec fn is_space(c: char) -> bool {
    ('\t' <= c && c <= '\r') || c == ' ' || c == '\u{85}' || c == '\u{A0}' || c == '\u{1680}'
        || ('\u{2000}' <= c && c <= '\u{200A}') || c == '\u{2028}' || c == '\u{2029}'
        || c == '\u{202F}' || c == '\u{205F}' || c == '\u{3000}'
}

/// No line break at or after index `k`.
pub open spec fn no_newline_from(s: Seq<char>, k: int) -> bool {
    forall|m: int| k <= m < s.len() ==> s[m] != '\n'
}

/// A help command starts at `i`: the marker, one whitespace character, and a topic
/// on the last line.
pub open spec fn help_at(s: Seq<char>, i: int) -> bool {
    occurs_at(s, i, help_marker()) && i + 5 < s.len() && is_space(s[i + 5]) && no_newline_from(
        s,
        i + 6,
    )
}

/// The first index at or after `i` where a help command starts, or -1.
pub open spec fn first_help(s: Seq<char>, i: int) -> int
    decreases s.len() - i,
{
    if i < 0 || i >= s.len() {
        -1
    } else if help_at(s, i) {
        i
    } else {
        first_help(s, i + 1)
    }
}

/// The topic of the first help command, running to the end of the text; none when
/// there is no help command or its topic is empty.
pub open spec fn command_of(s: Seq<char>) -> Option<Seq<char>> {
    let i = first_help(s, 0);
    if i < 0 {
        None
    } else if i + 6 == s.len() {
        None
    } else {
        Some(s.subrange(i + 6, s.len() as int))
    }
}

/// A character that can continue a name.
pub open spec fn is_word_char(c: char) -> bool {
    ('a' <= c && c <= 'z') || ('A' <= c && c <= 'Z') || ('0' <= c && c <= '9') || c == '_'
}

/// `@` followed by the whole name `id` starts at index `i`.
pub open spec fn mention_at(s: Seq<char>, i: int, id: Seq<char>) -> bool {
    &&& id.len() > 0
    &&& 0 <= i < s.len()
    &&& s[i] == '@'
    &&& occurs_at(s, i + 1, id)
    &&& (i + 1 + id.len() == s.len() || !is_word_char(s[i + 1 + id.len()]))
}

/// The text mentions the name `id`.
pub open spec fn mentions(s: Seq<char>, id: Seq<char>) -> bool {
    exists|i: int| mention_at(s, i, id)
}

/// The intent of a message for a bot named `id`: the first rule that fires of a
/// code block, a help command and a mention.
pub open spec fn classify_spec(text: Option<Seq<char>>, id: Seq<char>) -> IntentView {
    match text {
        None => IntentView::NoIntent,
        Some(s) => match code_of(s) {
            Some((kind, body)) => IntentView::CodeBlock { kind, body },
            None => match command_of(s) {
                Some(topic) => IntentView::HelpCommand { topic },
                None => if mentions(s, id) {
                    IntentView::Mention
                } else {
                    IntentView::NoIntent
                },
            },
        },
    }
}

/// The fence search finds a fence at or after where it starts, or none.
pub proof fn lemma_first_fence(s: Seq<char>, k: int)
    ensures
        first_fence(s, k) == -1 || (k <= first_fence(s, k) && first_fence(s, k) + 3 <= s.len()
            && occurs_at(s, first_fence(s, k), fence())),
    decreases s.len() - k,
{
    if k + 3 <= s.len() && !occurs_at(s, k, fence()) {
        lemma_first_fence(s, k + 1);
    }
}

/// The marker search finds a marker with a closing fence after it, or none.
pub proof fn lemma_first_code_match(s: Seq<char>, i: int)
    ensures
        first_code_match(s, i) == -1 || (i <= first_code_match(s, i) && marker_at(
            s,
            first_code_match(s, i),
        ) && first_fence(s, first_code_match(s, i) + 8) >= 0),
    decreases s.len() - i,
{
    if 0 <= i < s.len() && !(marker_at(s, i) && first_fence(s, i + 8) >= 0) {
        lemma_first_code_match(s, i + 1);
    }
}

fn find_fence(s: &Vec<char>, k: usize) -> (r: Option<usize>)
    ensures
        match r {
            Some(j) => j as int == first_fence(s@, k as int),
            None => first_fence(s@, k as int) == -1,
        },
{
    let mut j: usize = k;
    loop
        invariant
            k <= j,
            first_fence(s@, j as int) == first_fence(s@, k as int),
        decreases s.len() + 3 - j,
    {
        if j > s.len() || s.len() - j < 3 {
            return None;
        }
        if matches_at(s, j, &['`', '`', '`']) {
            return Some(j);
        }
        j = j + 1;
    }
}

fn find_code(s: &Vec<char>) -> (r: Option<usize>)
    ensures
        match r {
            Some(i) => i as int == first_code_match(s@, 0),
            None => first_code_match(s@, 0) == -1,
        },
{
    let mut i: usize = 0;
    while i < s.len()
        invariant
            i <= s.len(),
            first_code_match(s@, i as int) == first_code_match(s@, 0),
        decreases s.len() - i,
    {
        let marker = matches_at(s, i, &['!', 'c', 'o', 'd', 'e', '\n', '`', '`']) || matches_at(
            s,
            i,
            &['!', 'e', 'v', 'a', 'l', '\n', '`', '`'],
        );
        if marker && i + 8 <= s.len() {
            if find_fence(s, i + 8).is_some() {
                return Some(i);
            }
        }
        i = i + 1;
    }
    None
}

fn code_name(k: CodeKind) -> (r: String)
    ensures
        r@ == kind_name(k),
{
    match k {
        CodeKind::Code => {
            proof {
                reveal_strlit("code");
            }
            String::from_str("code")
        },
        CodeKind::Eval => {
            proof {
                reveal_strlit("eval");
            }
            String::from_str("eval")
        },
    }
}

/// The code block of a message, if it has one.
pub fn has_code(message: &Option<String>) -> (r: Option<Code>)
    ensures
        match message {
            None => r is None,
            Some(text) => match code_of(text@) {
                None => r is None,
                Some((k, body)) => r is Some && r->0.kind@ == kind_name(k) && r->0.text@ == body,
            },
        },
{
    match message {
        None => None,
        Some(text) => {
            let s = chars_of(text.as_str());
            match find_code(&s) {
                None => None,
                Some(i) => {
                    proof {
                        lemma_first_code_match(s@, 0);
                        lemma_first_fence(s@, i + 8);
                        lemma_first_fence(s@, i + 9);
                    }
                    let mut start: usize = i + 8;
                    if i + 8 < s.len() && s[i + 8] == '`' {
                        if find_fence(&s, i + 9).is_some() {
                            start = i + 9;
                        }
                    }
                    let end = match find_fence(&s, start) {
                        Some(j) => j,
                        None => {
                            return None;
                        },
                    };
                    if end == start {
                        return None;
                    }
                    let kind = if s[i + 1] == 'c' {
                        CodeKind::Code
                    } else {
                        CodeKind::Eval
                    };
                    let body = text.as_str().substring_char(start, end).to_owned();
                    Some(Code { kind: code_name(kind), text: body })
                },
            }
        },
    }
}

/// The help search finds a help command at or after where it starts, or none.
pub proof fn lemma_first_help(s: Seq<char>, i: int)
    ensures
        first_help(s, i) == -1 || (i <= first_help(s, i) && help_at(s, first_help(s, i))),
    decreases s.len() - i,
{
    if 0 <= i < s.len() && !help_at(s, i) {
        lemma_first_help(s, i + 1);
    }
}

/// The index just after the last line break, or 0.
fn last_line_start(s: &Vec<char>) -> (r: usize)
    ensures
        r <= s.len(),
        forall|k: int| 0 <= k <= s.len() ==> (no_newline_from(s@, k) <==> r <= k),
{
    let mut r: usize = 0;
    let mut j: usize = 0;
    while j < s.len()
        invariant
            r <= j <= s.len(),
            r == 0 || s@[r - 1] == '\n',
            forall|m: int| r <= m < j ==> s@[m] != '\n',
        decreases s.len() - j,
    {
        if s[j] == '\n' {
            r = j + 1;
        }
        j = j + 1;
    }
    assert forall|k: int| 0 <= k <= s.len() implies (no_newline_from(s@, k) <==> r <= k) by {
        if k < r {
            assert(s@[r - 1] == '\n');
        }
    }
    r
}

fn is_space_char(c: char) -> (r: bool)
    ensures
        r == is_space(c),
{
    ('\t' <= c && c <= '\r') || c == ' ' || c == '\u{85}' || c == '\u{A0}' || c == '\u{1680}'
        || ('\u{2000}' <= c && c <= '\u{200A}') || c == '\u{2028}' || c == '\u{2029}'
        || c == '\u{202F}' || c == '\u{205F}' || c == '\u{3000}'
}

/// The topic of a help command in a message, if it has one.
pub fn has_command(message: &Option<String>) -> (r: Option<String>)
    ensures
        match message {
            None => r is None,
            Some(text) => match command_of(text@) {
                None => r is None,
                Some(topic) => r is Some && r->0@ == topic,
            },
        },
{
    match message {
        None => None,
        Some(text) => {
            let s = chars_of(text.as_str());
            let line = last_line_start(&s);
            let mut i: usize = 0;
            while i < s.len()
                invariant
                    i <= s.len(),
                    *message == Some(*text),
                    s@ == text@,
                    line <= s.len(),
                    forall|k: int| 0 <= k <= s.len() ==> (no_newline_from(s@, k) <==> line <= k),
                    first_help(s@, i as int) == first_help(s@, 0),
                decreases s.len() - i,
            {
                if matches_at(&s, i, &['!', 'h', 'e', 'l', 'p']) && i + 5 < s.len()
                    && is_space_char(s[i + 5]) && line <= i + 6 {
                    assert(help_at(s@, i as int));
                    assert(first_help(s@, 0) == i as int);
                    if i + 6 == s.len() {
                        return None;
                    }
                    let topic = text.as_str().substring_char(i + 6, s.len()).to_owned();
                    return Some(topic);
                }
                i = i + 1;
            }
            None
        },
    }
}

/// Whether the text mentions `identity` as `@identity`, ending at a name boundary.
pub fn has_mention(text: &str, identity: &str) -> (r: bool)
    ensures
        r == mentions(text@, identity@),
{
    let s = chars_of(text);
    let id = chars_of(identity);
    if id.len() == 0 {
        return false;
    }
    let mut i: usize = 0;
    while i < s.len()
        invariant
            i <= s.len(),
            s@ == text@,
            id@ == identity@,
            id.len() > 0,
            forall|k: int| 0 <= k < i ==> !mention_at(s@, k, id@),
        decreases s.len() - i,
    {
        if s[i] == '@' && matches_at(&s, i + 1, id.as_slice()) {
            let after = i + 1 + id.len();
            if after == s.len() || !is_word_character(s[after]) {
                assert(mention_at(s@, i as int, id@));
                return true;
            }
        }
        i = i + 1;
    }
    false
}

fn is_word_character(c: char) -> (r: bool)
    ensures
        r == is_word_char(c),
{
    ('a' <= c && c <= 'z') || ('A' <= c && c <= 'Z') || ('0' <= c && c <= '9') || c == '_'
}

/// The intent of a message for a bot named `identity`.
pub fn classify(text: &Option<String>, identity: &str) -> (r: Intent)
    ensures
        r@ == classify_spec(
            match text {
                Some(t) => Some(t@),
                None => None,
            },
            identity@,
        ),
{
    match text {
        None => Intent::NoIntent,
        Some(t) => {
            if let Some(code) = has_code(text) {
                let kind = if code.kind.as_str().get_char(0) == 'c' {
                    CodeKind::Code
                } else {
                    CodeKind::Eval
                };
                proof {
                    assert(code.kind@[0] == kind_name(kind)[0]);
                }
                return Intent::CodeBlock { kind, body: code.text };
            }
            if let Some(topic) = has_command(text) {
                return Intent::HelpCommand { topic };
            }
            if has_mention(t.as_str(), identity) {
                Intent::Mention
            } else {
                Intent::NoIntent
            }
        },
    }
}

/// A text with no code marker, no help marker and no mention of `id` has no intent.
pub proof fn lemma_unmarked_text_has_no_intent(s: Seq<char>, id: Seq<char>)
    requires
        forall|i: int| !marker_at(s, i),
        forall|i: int| !occurs_at(s, i, help_marker()),
        !mentions(s, id),
    ensures
        classify_spec(Some(s), id) == IntentView::NoIntent,
{
    lemma_first_code_match(s, 0);
    lemma_first_help(s, 0);
}

/// Classifying a message twice gives equal intents: the intent depends on the text
/// and the bot's name alone.
pub proof fn lemma_classify_idempotent(
    first: Intent,
    second: Intent,
    text: Option<Seq<char>>,
    id: Seq<char>,
)
    requires
        first@ == classify_spec(text, id),
        second@ == classify_spec(text, id),
    ensures
        first@ == second@,
{
}

/// The closing fence after a run of text without backticks is the first fence found
/// anywhere in that run.
proof fn lemma_fence_after_plain(s: Seq<char>, start: int, end: int, k: int)
    requires
        0 <= start <= k <= end,
        end + 3 == s.len(),
        forall|j: int| start <= j < end ==> s[j] != '`',
        occurs_at(s, end, fence()),
    ensures
        first_fence(s, k) == end,
    decreases end - k,
{
    if k < end {
        assert(s.subrange(k, k + 3)[0] == s[k]);
        lemma_fence_after_plain(s, start, end, k + 1);
    }
}

/// A message that is an eval marker, a fenced block whose body is not empty and holds
/// no backtick, and nothing else, is that code block.
pub proof fn lemma_eval_block_is_code(x: Seq<char>, id: Seq<char>)
    requires
        x.len() > 0,
        forall|j: int| 0 <= j < x.len() ==> x[j] != '`',
    ensures
        classify_spec(Some(seq!['!', 'e', 'v', 'a', 'l', '\n', '`', '`', '`'] + x + fence()), id)
            == (IntentView::CodeBlock { kind: CodeKind::Eval, body: x }),
{
    let s = seq!['!', 'e', 'v', 'a', 'l', '\n', '`', '`', '`'] + x + fence();
    let end: int = 9 + x.len() as int;
    assert(s.subrange(0, 8) =~= eval_marker());
    assert(marker_at(s, 0));
    assert(s.subrange(end, end + 3) =~= fence());
    assert forall|j: int| 9 <= j < end implies s[j] != '`' by {
        assert(s[j] == x[j - 9]);
    }
    lemma_fence_after_plain(s, 9, end, 9);
    assert(s.subrange(8, 11)[1] == s[9]);
    assert(!occurs_at(s, 8, fence()));
    assert(first_fence(s, 8) == end);
    assert(first_code_match(s, 0) == 0);
    assert(body_start(s, 0) == 9);
    assert(s.subrange(9, end) =~= x);
}

/// A message that is the help marker, a space and a topic on one line that is not
/// empty, is a help command with that topic.
pub proof fn lemma_help_line_is_command(t: Seq<char>, id: Seq<char>)
    requires
        t.len() > 0,
        forall|j: int| 0 <= j < t.len() ==> t[j] != '\n',
    ensures
        classify_spec(Some(help_marker() + seq![' '] + t), id) == (IntentView::HelpCommand {
            topic: t,
        }),
{
    let s = help_marker() + seq![' '] + t;
    assert forall|j: int| 0 <= j < s.len() implies s[j] != '\n' by {
        if j >= 6 {
            assert(s[j] == t[j - 6]);
        }
    }
    assert forall|i: int| !marker_at(s, i) by {
        if occurs_at(s, i, code_marker()) {
            assert(s.subrange(i, i + 8)[5] == s[i + 5]);
        }
        if occurs_at(s, i, eval_marker()) {
            assert(s.subrange(i, i + 8)[5] == s[i + 5]);
        }
    }
    lemma_first_code_match(s, 0);
    assert(s.subrange(0, 5) =~= help_marker());
    assert(help_at(s, 0));
    assert(s.subrange(6, s.len() as int) =~= t);
}

} // verus!
