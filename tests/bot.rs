use rusty_slackbot::intent::{classify, has_code, has_command, has_mention, CodeKind, Intent};
use rusty_slackbot::reply::{eval_command, help_reply};

#[test]
fn test_has_command() {
    let message_with_command = &Some("!help book".to_owned());
    let message_without_command = &Some("nothing here".to_owned());
    assert_eq!(has_command(message_with_command), Some("book".to_owned()));
    assert!(has_command(message_without_command).is_none());
}

#[test]
fn test_has_code() {
    let message_with_code = &Some("!eval\n```this is code```".to_owned());
    let message_without_code = &Some("!bla\n```this is not code```".to_owned());

    let ans_with_code = has_code(message_with_code).unwrap();
    assert_eq!(ans_with_code.kind, "eval".to_owned());
    assert_eq!(ans_with_code.text, "this is code".to_owned());

    let ans_without_code = has_code(message_without_code);
    assert!(ans_without_code.is_none());
}

#[test]
fn test_eval_command() {
    let command_docs = "docs".to_owned();
    let command_book = "book".to_owned();

    let expected_reply_docs = "https://doc.rust-lang.org/".to_owned();
    let expected_reply_book = "https://doc.rust-lang.org/book/".to_owned();
    let expected_reply_other = "*Available commands*\n!code - for complete code blocks\n!eval - for evaluating chunks that can fit in main function\n!help [docs, book] - links to classic rust material\n_Yours truely, Ferris_".to_owned();

    let reply_docs = eval_command(command_docs).unwrap();
    let reply_book = eval_command(command_book).unwrap();
    let reply_other = eval_command("something".to_owned()).unwrap();

    assert_eq!(expected_reply_docs, reply_docs);
    assert_eq!(expected_reply_book, reply_book);
    assert_eq!(expected_reply_other, reply_other);
}

#[test]
fn help_topic_is_case_insensitive() {
    assert_eq!(eval_command("DOCS".to_owned()).unwrap(), "https://doc.rust-lang.org/");
    assert_eq!(eval_command("Book".to_owned()).unwrap(), "https://doc.rust-lang.org/book/");
    // the lookup itself takes a lowered topic
    assert!(help_reply("Book").starts_with("*Available commands*"));
}

#[test]
fn code_marker_gives_code_kind() {
    let code = has_code(&Some("!code\n```fn main() {}```".to_owned())).unwrap();
    assert_eq!(code.kind, "code");
    assert_eq!(code.text, "fn main() {}");
}

#[test]
fn code_block_spans_lines() {
    let text = "please run\n!code\n```\nfn main() {\n    println!(\"hi\");\n}\n```\nthanks";
    let code = has_code(&Some(text.to_owned())).unwrap();
    assert_eq!(code.kind, "code");
    assert_eq!(code.text, "\nfn main() {\n    println!(\"hi\");\n}\n");
}

#[test]
fn opening_fence_of_two_backticks() {
    let code = has_code(&Some("!eval\n``x + 1```".to_owned())).unwrap();
    assert_eq!(code.text, "x + 1");
}

#[test]
fn body_stops_at_first_closing_fence() {
    let code = has_code(&Some("!eval\n```a```b```".to_owned())).unwrap();
    assert_eq!(code.text, "a");
}

#[test]
fn unclosed_or_empty_block_is_no_code() {
    assert!(has_code(&Some("!eval\n```abc".to_owned())).is_none());
    assert!(has_code(&Some("!eval\n``````".to_owned())).is_none());
    assert!(has_code(&Some("!eval ```abc```".to_owned())).is_none());
    assert!(has_code(&None).is_none());
}

#[test]
fn help_command_edges() {
    assert_eq!(has_command(&Some("!help\tdocs".to_owned())), Some("docs".to_owned()));
    assert_eq!(has_command(&Some("!help\u{A0}book".to_owned())), Some("book".to_owned()));
    assert_eq!(has_command(&Some("see !help  two words".to_owned())), Some(" two words".to_owned()));
    assert_eq!(has_command(&Some("!help docs\nmore".to_owned())), None);
    assert_eq!(has_command(&Some("!help ".to_owned())), None);
    assert_eq!(has_command(&Some("!helpdocs".to_owned())), None);
    assert_eq!(has_command(&None), None);
}

#[test]
fn classify_examples() {
    assert_eq!(
        classify(&Some("!eval\n```X```".to_owned()), "rustybot"),
        Intent::CodeBlock { kind: CodeKind::Eval, body: "X".to_owned() }
    );
    assert_eq!(
        classify(&Some("!help book".to_owned()), "rustybot"),
        Intent::HelpCommand { topic: "book".to_owned() }
    );
    assert_eq!(classify(&Some("!help ".to_owned()), "rustybot"), Intent::NoIntent);
    assert_eq!(classify(&Some("just chatting".to_owned()), "rustybot"), Intent::NoIntent);
    assert_eq!(classify(&Some("".to_owned()), "rustybot"), Intent::NoIntent);
    assert_eq!(classify(&None, "rustybot"), Intent::NoIntent);
}

#[test]
fn classify_order_code_before_help_before_mention() {
    let text = "@rustybot !help docs\n!code\n```1```";
    assert_eq!(
        classify(&Some(text.to_owned()), "rustybot"),
        Intent::CodeBlock { kind: CodeKind::Code, body: "1".to_owned() }
    );
    assert_eq!(
        classify(&Some("@rustybot !help docs".to_owned()), "rustybot"),
        Intent::HelpCommand { topic: "docs".to_owned() }
    );
    // an empty code block falls through to the next rules
    assert_eq!(
        classify(&Some("!eval\n`````` @rustybot".to_owned()), "rustybot"),
        Intent::Mention
    );
}

#[test]
fn classify_twice_gives_equal_intents() {
    for text in ["!eval\n```1 + 1```", "!help book", "hi @rustybot", "nothing"] {
        let message = Some(text.to_owned());
        assert_eq!(classify(&message, "rustybot"), classify(&message, "rustybot"));
    }
}

#[test]
fn mention_matching() {
    assert!(has_mention("hey @rustybot are you there", "rustybot"));
    assert!(has_mention("hi @other and @rustybot", "rustybot"));
    assert!(has_mention("@rustybot", "rustybot"));
    assert!(has_mention("ping @rustybot, please", "rustybot"));
    assert!(!has_mention("hey @rustybotx", "rustybot"));
    assert!(!has_mention("hey @RustyBot", "rustybot"));
    assert!(!has_mention("hey rustybot", "rustybot"));
    assert!(!has_mention("hey @", ""));
}
