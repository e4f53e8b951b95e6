use rusty_slackbot::error::RustyBotError;
use rusty_slackbot::playground::{
    decimal_string, execute_outcome, execute_url, share_url, PlaygroundRequest, PlaygroundResponse,
    ShareResponse,
};

fn response(success: bool, stdout: &str, stderr: &str) -> PlaygroundResponse {
    PlaygroundResponse { success, stdout: stdout.to_owned(), stderr: stderr.to_owned() }
}

#[test]
fn new_request_has_fixed_settings() {
    let request = PlaygroundRequest::new("fn main() {}".to_owned());
    assert_eq!(request.get_code(), "fn main() {}");
    assert_eq!(request.get_channel(), "stable");
    assert_eq!(request.get_edition(), "2021");
    assert_eq!(request.get_mode(), "debug");
    assert_eq!(request.get_crate_type(), "bin");
    assert!(!request.get_backtrace());
    assert!(!request.get_tests());
}

#[test]
fn eval_request_wraps_body_in_main() {
    let body = "let v = vec![1,2,3]; print(v[1]);";
    let request = PlaygroundRequest::new_eval(body.to_owned());
    assert_eq!(request.get_code(), "fn main() {let v = vec![1,2,3]; print(v[1]);}");
    assert_eq!(request.get_code(), format!("fn main() {{{}}}", body));
}

#[test]
fn escape_html_decodes_entities() {
    let request = PlaygroundRequest::new("if a &gt;3&lt; b &amp;&amp; c {}".to_owned()).escape_html();
    assert_eq!(request.get_code(), "if a >3< b && c {}");
    assert_eq!(request.get_channel(), "stable");
    let plain = PlaygroundRequest::new("no entities".to_owned()).escape_html();
    assert_eq!(plain.get_code(), "no entities");
}

#[test]
fn endpoints_under_base() {
    assert_eq!(execute_url("http://127.0.0.1:8080"), "http://127.0.0.1:8080/execute");
    assert_eq!(share_url("http://127.0.0.1:8080"), "http://127.0.0.1:8080/meta/gist/");
}

#[test]
fn share_link_format() {
    let request = PlaygroundRequest::new_eval("println!(\"Hello World\");".to_owned()).escape_html();
    let link = request.share_link("abc123");
    assert_eq!(
        link,
        format!(
            "https://play.rust-lang.org/?version={}&mode=debug&edition={}&gist={}",
            request.get_channel(),
            request.get_edition(),
            "abc123"
        )
    );
    assert_eq!(link, "https://play.rust-lang.org/?version=stable&mode=debug&edition=2021&gist=abc123");
}

#[test]
fn share_link_outcome_cases() {
    let request = PlaygroundRequest::new("fn main() {}".to_owned());
    let ok = request.share_link_outcome(Ok(ShareResponse {
        id: "g1".to_owned(),
        url: "https://gist.example/g1".to_owned(),
    }));
    assert_eq!(
        ok.unwrap(),
        "https://play.rust-lang.org/?version=stable&mode=debug&edition=2021&gist=g1"
    );
    let err = request.share_link_outcome(Err("bad json".to_owned()));
    assert_eq!(err.unwrap_err(), RustyBotError::InternalServerError("bad json".to_owned()));
}

#[test]
fn decimal_of_status() {
    assert_eq!(decimal_string(0), "0");
    assert_eq!(decimal_string(7), "7");
    assert_eq!(decimal_string(200), "200");
    assert_eq!(decimal_string(65535), "65535");
}

#[test]
fn execute_outcome_success() {
    let res = execute_outcome(200, Ok(response(true, "2\n", ""))).unwrap();
    assert_eq!(res.status_code, "200");
    assert_eq!(res.playground_response, response(true, "2\n", ""));
}

#[test]
fn execute_outcome_failed_program_is_not_an_error() {
    let res = execute_outcome(200, Ok(response(false, "", "error[E0308]"))).unwrap();
    assert!(!res.playground_response.success);
    assert_eq!(res.playground_response.stderr, "error[E0308]");
}

#[test]
fn execute_outcome_failure_status() {
    let err = execute_outcome(500, Ok(response(true, "", ""))).unwrap_err();
    assert_eq!(
        err,
        RustyBotError::InternalServerError("the sandbox answered with HTTP status 500".to_owned())
    );
    assert!(execute_outcome(199, Err("x".to_owned())).is_err());
    assert!(execute_outcome(300, Ok(response(true, "", ""))).is_err());
}

#[test]
fn execute_outcome_unreadable_body() {
    let err = execute_outcome(204, Err("EOF while parsing".to_owned())).unwrap_err();
    assert_eq!(err, RustyBotError::InternalServerError("EOF while parsing".to_owned()));
}

#[test]
fn error_messages() {
    assert_eq!(RustyBotError::MissingCode.message(), "No code provided");
    assert_eq!(
        RustyBotError::InvalidRustChannel.message(),
        "Provided rust channel does not exist, please use Stable, Beta, or Nightly"
    );
    assert_eq!(
        RustyBotError::InvalidBotCommand { command: "run".to_owned() }.message(),
        "The command run is not a valid command for the bot. Use one of !code, !eval, !help (docs, book)"
    );
    assert_eq!(RustyBotError::InternalServerError("boom".to_owned()).message(), "boom");
}
