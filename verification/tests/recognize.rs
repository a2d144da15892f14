use speech_shell::protocol::{Action, Output, Reply, Step};
use speech_shell::recognize::Recognition;
use std::path::Path;

fn text(s: &str) -> String {
    s.to_string()
}

fn joined(base: &str, name: &str) -> String {
    Path::new(base).join(name).to_string_lossy().into_owned()
}

fn exited(success: bool, stdout: &[u8], stderr: &[u8]) -> Reply {
    Reply::Exited { output: Output { success, stdout: stdout.to_vec(), stderr: stderr.to_vec() } }
}

/// Hands `replies` to a transcription one by one; gives the actions asked
/// for, the first one too, and the result if the transcription ended.
fn play(
    temp_dir: &str,
    name: &str,
    audio: &[u8],
    replies: Vec<Reply>,
) -> (Vec<Action>, Option<Result<String, String>>) {
    let (mut session, first) = Recognition::begin(temp_dir, name, audio.to_vec());
    let mut actions = vec![first];
    for reply in replies {
        match session.step(reply) {
            Step::Continue { session: next, action } => {
                session = next;
                actions.push(action);
            }
            Step::Done { result } => return (actions, Some(result)),
        }
    }
    (actions, None)
}

#[test]
fn staging_writes_the_given_bytes_to_the_joined_path() {
    let audio = vec![0u8, 1, 2, 255, 0, 7];
    let (session, action) = Recognition::begin("/tmp", "clip.wav", audio.clone());
    let path = joined("/tmp", "clip.wav");
    assert_ne!(path, "/tmp");
    assert_ne!(path, "clip.wav");
    assert_eq!(action, Action::WriteFile { path: path.clone(), bytes: audio });
    assert_eq!(session, Recognition::Staging { file_path: path });
}

#[test]
fn staging_accepts_empty_audio() {
    let (_, action) = Recognition::begin("/tmp", "empty.wav", Vec::new());
    assert_eq!(
        action,
        Action::WriteFile { path: joined("/tmp", "empty.wav"), bytes: Vec::new() }
    );
}

#[test]
fn stage_takes_the_path_as_it_is() {
    let (session, action) = Recognition::stage(text("/var/tmp/x.wav"), vec![9, 8]);
    assert_eq!(action, Action::WriteFile { path: text("/var/tmp/x.wav"), bytes: vec![9, 8] });
    assert_eq!(session, Recognition::Staging { file_path: text("/var/tmp/x.wav") });
}

#[test]
fn a_transcription_that_works_out() {
    let file = joined("/tmp", "a.wav");
    let (actions, result) = play(
        "/tmp",
        "a.wav",
        b"RIFF",
        vec![
            Reply::Written,
            Reply::WorkingDir { path: text("/app") },
            exited(true, b"hello world\n", b""),
            Reply::Removed,
        ],
    );
    assert_eq!(
        actions,
        vec![
            Action::WriteFile { path: file.clone(), bytes: b"RIFF".to_vec() },
            Action::QueryWorkingDir,
            Action::Run {
                program: text("python"),
                args: vec![joined("/app", "whisper_asr.py"), file.clone()],
            },
            Action::RemoveFile { path: file },
        ]
    );
    assert_eq!(result, Some(Ok(text("hello world"))));
}

#[test]
fn a_failed_helper_reports_its_stderr_after_cleaning() {
    let file = joined("/tmp", "a.wav");
    let (actions, result) = play(
        "/tmp",
        "a.wav",
        b"RIFF",
        vec![
            Reply::Written,
            Reply::WorkingDir { path: text("/app") },
            exited(false, b"", b"model not found"),
            Reply::Removed,
        ],
    );
    assert_eq!(actions.len(), 4);
    assert_eq!(actions[3], Action::RemoveFile { path: file });
    assert_eq!(result, Some(Err(text("model not found"))));
}

#[test]
fn a_failed_write_ends_the_transcription() {
    let (actions, result) = play(
        "/tmp",
        "a.wav",
        b"RIFF",
        vec![Reply::WriteFailed { reason: text("disk full") }],
    );
    assert_eq!(actions.len(), 1);
    assert_eq!(result, Some(Err(text("Failed to write audio file: disk full"))));
}

#[test]
fn an_unknown_working_dir_is_reported_after_cleaning() {
    let file = joined("/tmp", "a.wav");
    let (actions, result) = play(
        "/tmp",
        "a.wav",
        b"RIFF",
        vec![Reply::Written, Reply::NoWorkingDir { reason: text("gone") }, Reply::Removed],
    );
    assert_eq!(
        actions[1..],
        [Action::QueryWorkingDir, Action::RemoveFile { path: file }]
    );
    assert_eq!(result, Some(Err(text("Failed to get current dir: gone"))));
}

#[test]
fn a_helper_that_does_not_start_is_reported_after_cleaning() {
    let file = joined("/tmp", "a.wav");
    let (actions, result) = play(
        "/tmp",
        "a.wav",
        b"RIFF",
        vec![
            Reply::Written,
            Reply::WorkingDir { path: text("/app") },
            Reply::NotLaunched { reason: text("program not found") },
            Reply::Removed,
        ],
    );
    assert_eq!(actions.len(), 4);
    assert_eq!(actions[3], Action::RemoveFile { path: file });
    assert_eq!(result, Some(Err(text("Failed to run python: program not found"))));
}

#[test]
fn the_result_waits_for_the_removal() {
    let (actions, result) = play(
        "/tmp",
        "a.wav",
        b"RIFF",
        vec![
            Reply::Written,
            Reply::WorkingDir { path: text("/app") },
            exited(true, b"done", b""),
        ],
    );
    assert_eq!(actions.len(), 4);
    assert_eq!(result, None);
}

#[test]
fn the_reply_to_the_removal_is_not_looked_at() {
    for last in [
        Reply::Removed,
        Reply::Written,
        Reply::WriteFailed { reason: text("x") },
        Reply::NotLaunched { reason: text("x") },
    ] {
        let (_, result) = play(
            "/tmp",
            "a.wav",
            b"RIFF",
            vec![
                Reply::Written,
                Reply::WorkingDir { path: text("/app") },
                exited(true, b" done ", b""),
                last,
            ],
        );
        assert_eq!(result, Some(Ok(text("done"))));
    }
}

#[test]
fn a_reply_out_of_turn_while_staging_ends_the_transcription() {
    let (actions, result) = play("/tmp", "a.wav", b"RIFF", vec![Reply::Removed]);
    assert_eq!(actions.len(), 1);
    assert_eq!(result, Some(Err(text("unexpected reply"))));
}

#[test]
fn a_reply_out_of_turn_after_staging_still_cleans() {
    let file = joined("/tmp", "a.wav");
    let (actions, result) =
        play("/tmp", "a.wav", b"RIFF", vec![Reply::Written, Reply::Written, Reply::Removed]);
    assert_eq!(actions[2], Action::RemoveFile { path: file.clone() });
    assert_eq!(result, Some(Err(text("unexpected reply"))));

    let (actions, result) = play(
        "/tmp",
        "a.wav",
        b"RIFF",
        vec![
            Reply::Written,
            Reply::WorkingDir { path: text("/app") },
            Reply::WorkingDir { path: text("/app") },
            Reply::Removed,
        ],
    );
    assert_eq!(actions[3], Action::RemoveFile { path: file });
    assert_eq!(result, Some(Err(text("unexpected reply"))));
}

#[test]
fn replies_after_the_end_are_not_looked_at() {
    let (actions, result) = play(
        "/tmp",
        "a.wav",
        b"RIFF",
        vec![Reply::WriteFailed { reason: text("no") }, Reply::Written, Reply::Removed],
    );
    assert_eq!(actions.len(), 1);
    assert_eq!(result, Some(Err(text("Failed to write audio file: no"))));
}

#[test]
fn transcriptions_with_different_names_keep_apart() {
    let replies = |stdout: &[u8]| {
        vec![
            Reply::Written,
            Reply::WorkingDir { path: text("/app") },
            exited(true, stdout, b""),
            Reply::Removed,
        ]
    };
    let (first, first_result) = play("/tmp", "one.wav", b"one", replies(b"first\n"));
    let (second, second_result) = play("/tmp", "two.wav", b"two", replies(b"second\n"));
    let one = joined("/tmp", "one.wav");
    let two = joined("/tmp", "two.wav");
    assert_ne!(one, two);
    assert_eq!(first[0], Action::WriteFile { path: one.clone(), bytes: b"one".to_vec() });
    assert_eq!(second[0], Action::WriteFile { path: two.clone(), bytes: b"two".to_vec() });
    assert_eq!(first[3], Action::RemoveFile { path: one });
    assert_eq!(second[3], Action::RemoveFile { path: two });
    assert_eq!(first_result, Some(Ok(text("first"))));
    assert_eq!(second_result, Some(Ok(text("second"))));
}

#[test]
fn staging_joins_a_nested_name_as_it_is() {
    let (_, action) = Recognition::begin("/tmp", "takes/clip.wav", vec![1]);
    assert_eq!(
        action,
        Action::WriteFile { path: joined("/tmp", "takes/clip.wav"), bytes: vec![1] }
    );
}

#[test]
fn transcriptions_with_one_name_share_the_file() {
    let (_, first) = Recognition::begin("/tmp", "same.wav", b"one".to_vec());
    let (_, second) = Recognition::begin("/tmp", "same.wav", b"two".to_vec());
    let path = joined("/tmp", "same.wav");
    assert_eq!(first, Action::WriteFile { path: path.clone(), bytes: b"one".to_vec() });
    assert_eq!(second, Action::WriteFile { path, bytes: b"two".to_vec() });
}
