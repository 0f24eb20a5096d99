use shell_core::commands::DownloadEvent;
use shell_core::dispatch::dispatch;
use shell_core::dispatch::lookup_command;
use shell_core::dispatch::Command;
use shell_core::dispatch::CommandKind;
use shell_core::dispatch::Reply;
use shell_core::errors::CommandError;
use shell_core::state::AppState;

#[test]
fn lookup_resolves_every_command() {
    assert_eq!(lookup_command("greet"), Ok(CommandKind::Greet));
    assert_eq!(lookup_command("login"), Ok(CommandKind::Login));
    assert_eq!(lookup_command("startDownload"), Ok(CommandKind::StartDownload));
    assert_eq!(lookup_command("download"), Ok(CommandKind::Download));
    assert_eq!(lookup_command("getCounter"), Ok(CommandKind::GetCounter));
    assert_eq!(lookup_command("incrementCounter"), Ok(CommandKind::IncrementCounter));
    assert_eq!(lookup_command("setUsername"), Ok(CommandKind::SetUsername));
}

#[test]
fn lookup_rejects_unknown_identifier() {
    assert_eq!(lookup_command("restart"), Err(CommandError::UnknownCommand));
    assert_eq!(lookup_command(""), Err(CommandError::UnknownCommand));
    assert_eq!(lookup_command("Greet"), Err(CommandError::UnknownCommand));
}

#[test]
fn dispatch_routes_counter_commands() {
    let mut st = AppState::new();
    let r = dispatch(&mut st, Command::IncrementCounter);
    assert!(matches!(r, Ok(Reply::Count(1))));
    let r2 = dispatch(&mut st, Command::IncrementCounter);
    assert!(matches!(r2, Ok(Reply::Count(2))));
    let r3 = dispatch(&mut st, Command::GetCounter);
    assert!(matches!(r3, Ok(Reply::Count(2))));
}

#[test]
fn dispatch_converts_login_failure_to_message() {
    let mut st = AppState::new();
    let r = dispatch(
        &mut st,
        Command::Login { username: String::from("admin"), password: String::from("nope") },
    );
    match r {
        Err(e) => assert_eq!(e, "用户名或密码错误"),
        Ok(_) => panic!("login with a wrong password must fail"),
    }
    assert!(!st.is_logged_in());
}

#[test]
fn dispatch_login_success() {
    let mut st = AppState::new();
    let r = dispatch(
        &mut st,
        Command::Login { username: String::from(" admin "), password: String::from(" 123456 ") },
    );
    assert!(matches!(r, Ok(Reply::Flag(true))));
    assert!(st.is_logged_in());
}

#[test]
fn dispatch_greet_and_set_username() {
    let mut st = AppState::new();
    let r = dispatch(&mut st, Command::Greet { name: String::from("Ada") });
    match r {
        Ok(Reply::Text(s)) => assert_eq!(s, "你好，Ada！欢迎使用 Tauri 插件！"),
        _ => panic!("greet must reply with text"),
    }
    let empty = dispatch(&mut st, Command::Greet { name: String::new() });
    match empty {
        Err(e) => assert_eq!(e, "名字不能为空"),
        Ok(_) => panic!("an empty name must be rejected"),
    }
    let r2 = dispatch(&mut st, Command::SetUsername { username: String::from("ada") });
    match r2 {
        Ok(Reply::Text(s)) => assert_eq!(s, "ada"),
        _ => panic!("setUsername must reply with the stored text"),
    }
    assert_eq!(st.username(), "ada");
    assert_eq!(st.get_counter(), 0);
}

#[test]
fn dispatch_start_download_and_stream() {
    let mut st = AppState::new();
    let r = dispatch(&mut st, Command::StartDownload { url: String::from("http://x") });
    match r {
        Ok(Reply::Broadcast(v)) => {
            assert_eq!(v.len(), 6);
            assert_eq!(v[0].name, "download-started");
            assert_eq!(v[5].name, "download-finished");
        },
        _ => panic!("startDownload must reply with the broadcast sequence"),
    }
    let r2 = dispatch(&mut st, Command::Download { url: String::from("http://x") });
    match r2 {
        Ok(Reply::Stream(t)) => {
            let m = t.next_message().unwrap();
            assert_eq!(m, DownloadEvent::Started { url: String::from("http://x"), total: 1000 });
        },
        _ => panic!("download must open a streaming invocation"),
    }
    assert_eq!(st.get_counter(), 0);
}
