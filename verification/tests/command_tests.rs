use shell_core::commands::download1;
use shell_core::commands::greet;
use shell_core::commands::start_download;
use shell_core::commands::DownloadEvent;
use shell_core::commands::DownloadTask;
use shell_core::commands::EventPayload;
use shell_core::errors::CommandError;

#[test]
fn greet_rejects_empty_name() {
    let r = greet(String::new());
    assert_eq!(r, Err(String::from("名字不能为空")));
}

#[test]
fn greet_builds_greeting() {
    let r = greet(String::from("世界"));
    assert_eq!(r, Ok(String::from("你好，世界！欢迎使用 Tauri 插件！")));
}

#[test]
fn greet_keeps_name_as_given() {
    let r = greet(String::from(" Ada "));
    assert_eq!(r, Ok(String::from("你好， Ada ！欢迎使用 Tauri 插件！")));
}

#[test]
fn start_download_broadcast_sequence() {
    let events = start_download(String::from("http://x"));
    assert_eq!(events.len(), 6);
    assert_eq!(events[0].name, "download-started");
    assert_eq!(events[0].payload, EventPayload::Text(String::from("http://x")));
    let percents = [10u32, 30, 70, 100];
    for k in 0..4 {
        assert_eq!(events[1 + k].name, "download-progress");
        assert_eq!(events[1 + k].payload, EventPayload::Number(percents[k]));
    }
    assert_eq!(events[5].name, "download-finished");
    assert_eq!(events[5].payload, EventPayload::Text(String::from("http://x")));
}

#[test]
fn download_stream_full_sequence() {
    let oks = vec![true, true, true, true, true, true];
    let (msgs, res) = download1(String::from("http://x"), &oks);
    assert_eq!(res, Ok(()));
    assert_eq!(msgs.len(), 6);
    assert_eq!(msgs[0], DownloadEvent::Started { url: String::from("http://x"), total: 1000 });
    let chunks = [120usize, 300, 250, 330];
    for k in 0..4 {
        assert_eq!(msgs[1 + k], DownloadEvent::Progress { received: chunks[k] });
    }
    assert_eq!(msgs[5], DownloadEvent::Finished);
}

#[test]
fn download_stream_aborts_on_closed_channel() {
    // The receiver goes away after the second progress message: the third
    // progress send fails and nothing after it is attempted.
    let oks = vec![true, true, true, false, false, false];
    let (msgs, res) = download1(String::from("http://x"), &oks);
    assert_eq!(res, Err(CommandError::ChannelClosed));
    assert_eq!(msgs.len(), 3);
    assert_eq!(msgs[0], DownloadEvent::Started { url: String::from("http://x"), total: 1000 });
    assert_eq!(msgs[1], DownloadEvent::Progress { received: 120 });
    assert_eq!(msgs[2], DownloadEvent::Progress { received: 300 });
}

#[test]
fn download_stream_aborts_before_start() {
    let oks = vec![false, true, true, true, true, true];
    let (msgs, res) = download1(String::from("http://x"), &oks);
    assert_eq!(res, Err(CommandError::ChannelClosed));
    assert_eq!(msgs.len(), 0);
}

#[test]
fn download_task_steps_through_machine() {
    let mut t = DownloadTask::new(String::from("u"));
    let m0 = t.next_message().unwrap();
    assert_eq!(m0, DownloadEvent::Started { url: String::from("u"), total: 1000 });
    assert!(!t.is_terminal());
    t.message_sent();
    let m1 = t.next_message().unwrap();
    assert_eq!(m1, DownloadEvent::Progress { received: 120 });
    t.send_failed();
    assert!(t.is_terminal());
    assert_eq!(t.next_message(), None);
}

#[test]
fn error_messages_are_fixed() {
    assert_eq!(CommandError::Validation.message(), "名字不能为空");
    assert_eq!(CommandError::InvalidCredentials.message(), "用户名或密码错误");
    assert_eq!(CommandError::UnknownCommand.message(), "unknown command");
    assert_eq!(CommandError::ChannelClosed.message(), "channel closed");
}
