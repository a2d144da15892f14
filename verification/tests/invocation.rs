use speech_shell::invocation::{
    polish_command, recognize_command, INTERPRETER, POLISH_SCRIPT, RECOGNIZE_SCRIPT,
};
use speech_shell::protocol::Action;

fn text(s: &str) -> String {
    s.to_string()
}

#[test]
fn helper_names() {
    assert_eq!(INTERPRETER, "python");
    assert_eq!(RECOGNIZE_SCRIPT, "whisper_asr.py");
    assert_eq!(POLISH_SCRIPT, "text_polish.py");
}

#[test]
fn recognition_hands_over_script_and_file() {
    let action = recognize_command(text("/app/whisper_asr.py"), text("/tmp/a.wav"));
    assert_eq!(
        action,
        Action::Run {
            program: text("python"),
            args: vec![text("/app/whisper_asr.py"), text("/tmp/a.wav")],
        }
    );
}

#[test]
fn polish_without_language_hands_over_the_text_alone() {
    let action = polish_command(text("/app/text_polish.py"), text("some text"), None);
    assert_eq!(
        action,
        Action::Run {
            program: text("python"),
            args: vec![text("/app/text_polish.py"), text("some text")],
        }
    );
}

#[test]
fn polish_with_language_appends_it() {
    let action = polish_command(text("/app/text_polish.py"), text("some text"), Some(text("en")));
    assert_eq!(
        action,
        Action::Run {
            program: text("python"),
            args: vec![text("/app/text_polish.py"), text("some text"), text("en")],
        }
    );
}

#[test]
fn polish_hands_over_empty_text_and_language_as_they_are() {
    let action = polish_command(text("s"), text(""), Some(text("")));
    assert_eq!(
        action,
        Action::Run { program: text("python"), args: vec![text("s"), text(""), text("")] }
    );
}
