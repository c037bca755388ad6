use phosphor::events::{Action, Command, Coordinator, Event, Input, Phase};
use phosphor::input::{encode_key, Key};
use phosphor::session::{SessionId, SessionInfo};
use phosphor::spawn::{contains_str, default_shell, minimal_env_args, shell_environment, shell_flags};
use phosphor::types::{Position, Size};

fn names(actions: &[Action]) -> Vec<String> {
    actions
        .iter()
        .map(|a| match a {
            Action::WritePty(b) => format!("write {:?}", b),
            Action::ResizePty(s) => format!("resize {}x{}", s.cols, s.rows),
            Action::Publish(Event::OutputReady(b)) => format!("output {:?}", b),
            Action::Publish(Event::StateChanged) => "changed".to_string(),
            Action::Publish(Event::Resized(s)) => format!("resized {}x{}", s.cols, s.rows),
            Action::Publish(Event::Closed) => "closed".to_string(),
            Action::Publish(Event::Error(m)) => format!("error {}", m),
        })
        .collect()
}

#[test]
fn coordinator_lifecycle() {
    let mut c = Coordinator::new(Size::new(80, 24));
    assert_eq!(c.phase(), Phase::Starting);
    assert!(c.handle(Input::Started).is_empty());
    assert_eq!(c.phase(), Phase::Running);

    let out = c.handle(Input::PtyRead(b"hi\x1b[2;3H".to_vec()));
    assert_eq!(names(&out), vec![format!("output {:?}", b"hi\x1b[2;3H".to_vec()), "changed".to_string()]);
    assert_eq!(c.state().cursor_position(), Position::new(1, 2));
    assert_eq!(c.state().screen_buffer().get_cell(Position::new(0, 1)).ch, 'i');

    assert!(c.handle(Input::PtyRead(Vec::new())).is_empty());
    assert!(c.handle(Input::Tick { alive: true }).is_empty());

    let out = c.handle(Input::Command(Command::Write(b"ls\r".to_vec())));
    assert_eq!(names(&out), vec![format!("write {:?}", b"ls\r".to_vec())]);

    let out = c.handle(Input::Command(Command::Resize(Size::new(100, 30))));
    assert_eq!(names(&out), vec!["resize 100x30".to_string(), "resized 100x30".to_string()]);
    assert_eq!(c.state().size(), Size::new(100, 30));

    let out = c.handle(Input::Command(Command::Close));
    assert_eq!(names(&out), vec!["closed".to_string()]);
    assert!(c.is_finished());
    assert!(c.handle(Input::PtyRead(b"late".to_vec())).is_empty());
    assert!(c.handle(Input::Command(Command::Write(b"x".to_vec()))).is_empty());
    c.handle(Input::Drained);
    assert_eq!(c.phase(), Phase::Closed);
}

#[test]
fn coordinator_read_error_and_dead_child() {
    let mut c = Coordinator::new(Size::new(10, 5));
    c.handle(Input::Started);
    let out = c.handle(Input::ReadError("boom".to_string()));
    assert_eq!(names(&out), vec!["error boom".to_string(), "closed".to_string()]);
    assert_eq!(c.phase(), Phase::ShuttingDown);

    let mut d = Coordinator::new(Size::new(10, 5));
    d.handle(Input::Started);
    let out = d.handle(Input::Tick { alive: false });
    assert_eq!(names(&out), vec!["closed".to_string()]);
}

#[test]
fn key_encoding() {
    assert_eq!(encode_key(Key::Char('a'), false), Some(vec![b'a']));
    assert_eq!(encode_key(Key::Char('\u{e9}'), false), Some(vec![0xC3, 0xA9]));
    assert_eq!(encode_key(Key::Char('\u{20ac}'), false), Some(vec![0xE2, 0x82, 0xAC]));
    assert_eq!(encode_key(Key::Char('\u{1F600}'), false), Some(vec![0xF0, 0x9F, 0x98, 0x80]));
    assert_eq!(encode_key(Key::Char('c'), true), Some(vec![0x03]));
    assert_eq!(encode_key(Key::Char('C'), true), Some(vec![0x03]));
    assert_eq!(encode_key(Key::Char('1'), true), None);
    assert_eq!(encode_key(Key::Enter, false), Some(vec![0x0D]));
    assert_eq!(encode_key(Key::Tab, false), Some(vec![0x09]));
    assert_eq!(encode_key(Key::Backspace, false), Some(vec![0x7F]));
    assert_eq!(encode_key(Key::Esc, false), Some(vec![0x1B]));
    assert_eq!(encode_key(Key::Up, false), Some(vec![0x1B, b'[', b'A']));
    assert_eq!(encode_key(Key::Down, false), Some(vec![0x1B, b'[', b'B']));
    assert_eq!(encode_key(Key::Right, false), Some(vec![0x1B, b'[', b'C']));
    assert_eq!(encode_key(Key::Left, false), Some(vec![0x1B, b'[', b'D']));
    assert_eq!(encode_key(Key::Other, false), None);
}

#[test]
fn shell_spawn_choices() {
    assert!(contains_str("/usr/bin/bash", "bash"));
    assert!(!contains_str("/bin/fish", "sh "));
    assert!(contains_str("abc", ""));
    assert!(!contains_str("ab", "abc"));
    assert_eq!(shell_flags("/bin/bash", false), vec!["--noprofile", "--norc", "-i"]);
    assert_eq!(shell_flags("/bin/zsh", false), vec!["--no-rcs", "-i"]);
    assert_eq!(shell_flags("/bin/sh", false), vec!["-i"]);
    assert_eq!(shell_flags("/bin/bash", true), Vec::<String>::new());
    assert_eq!(shell_flags("/usr/bin/fish", false), vec!["-i"]);
    assert_eq!(shell_flags("/usr/bin/python3", false), Vec::<String>::new());
    let env = shell_environment("/bin/sh", None, Some("/home/u".to_string()), None);
    assert_eq!(env[0], ("TERM".to_string(), "xterm-256color".to_string()));
    assert_eq!(env[1], ("COLORTERM".to_string(), "truecolor".to_string()));
    assert_eq!(env[2], ("SHELL".to_string(), "/bin/sh".to_string()));
    assert_eq!(env[3], ("USER".to_string(), "user".to_string()));
    assert_eq!(env[4], ("HOME".to_string(), "/home/u".to_string()));
    assert_eq!(env[5], ("PATH".to_string(), "/usr/local/bin:/usr/bin:/bin".to_string()));
    assert_eq!(env[6], ("PS1".to_string(), "\\u@\\h:\\w\\$ ".to_string()));
    assert_eq!(env.len(), 7);
    assert_eq!(default_shell(None), "/bin/sh");
    assert_eq!(default_shell(Some("/bin/zsh".to_string())), "/bin/zsh");
}

#[test]
fn session_info_fields() {
    let id = SessionId::new(7);
    assert_eq!(id.value(), 7);
    let info = SessionInfo::new(id, "t".to_string(), 5, Size::new(80, 24), None);
    assert_eq!(info.id, SessionId::new(7));
    assert_eq!(info.size, Size::new(80, 24));
    assert_eq!(info.title, "t");
}

#[test]
fn minimal_environment_arguments() {
    assert_eq!(
        minimal_env_args(None),
        vec!["PATH=/usr/local/bin:/usr/bin:/bin", "TERM=xterm-256color", "HOME=/tmp", "USER=user"]
    );
    assert_eq!(minimal_env_args(Some("/x".to_string()))[0], "PATH=/x");
}
