use crate::errors::CommandError;
use vstd::prelude::*;

verus! {

/// The greeting built around a non-empty name.
pub open spec fn greeting_of(name: Seq<char>) -> Seq<char> {
    "你好，"@ + name + "！欢迎使用 Tauri 插件！"@
}

/// Greets by name. An empty name is a validation error, returned as its
/// user-facing message; any other name yields the fixed greeting around it.
pub fn greet(name: String) -> (r: Result<String, String>)
    ensures
        name@.len() == 0 ==> (r matches Err(e) && e@ == CommandError::Validation.message_spec()),
        name@.len() > 0 ==> (r matches Ok(s) && s@ == greeting_of(name@)),
{
    if name.as_str().is_empty() {
        return Err(CommandError::Validation.message());
    }
    let mut s = String::from_str("你好，");
    s.append(name.as_str());
    s.append("！欢迎使用 Tauri 插件！");
    Ok(s)
}

/// Payload of one broadcast notification: text or a number.
#[derive(Clone, Debug, PartialEq, Eq)]
pub enum EventPayload {
    Text(String),
    Number(u32),
}

/// Spec-level image of an `EventPayload`.
pub enum PayloadModel {
    Text(Seq<char>),
    Number(int),
}

impl View for EventPayload {
    type V = PayloadModel;

    open spec fn view(&self) -> PayloadModel {
        match self {
            EventPayload::Text(s) => PayloadModel::Text(s@),
            EventPayload::Number(n) => PayloadModel::Number(*n as int),
        }
    }
}

/// One fire-and-forget broadcast notification: a name and a payload. Emission
/// is best-effort and owned by the host; this crate only decides what to
/// emit, and in which order.
#[derive(Clone, Debug, PartialEq, Eq)]
pub struct BroadcastEvent {
    pub name: String,
    pub payload: EventPayload,
}

/// Spec-level image of a `BroadcastEvent`.
pub struct BroadcastModel {
    pub name: Seq<char>,
    pub payload: PayloadModel,
}

impl View for BroadcastEvent {
    type V = BroadcastModel;

    open spec fn view(&self) -> BroadcastModel {
        BroadcastModel { name: self.name@, payload: self.payload@ }
    }
}

/// The fixed progress percentages announced during a simulated download.
pub open spec fn progress_percent(i: int) -> int {
    if i == 0 {
        10
    } else if i == 1 {
        30
    } else if i == 2 {
        70
    } else {
        100
    }
}

/// The `i`-th broadcast notification of a simulated download of `url`:
/// one start, four progress percentages, one finish.
pub open spec fn broadcast_at(url: Seq<char>, i: int) -> BroadcastModel {
    if i == 0 {
        BroadcastModel { name: "download-started"@, payload: PayloadModel::Text(url) }
    } else if i <= 4 {
        BroadcastModel {
            name: "download-progress"@,
            payload: PayloadModel::Number(progress_percent(i - 1)),
        }
    } else {
        BroadcastModel { name: "download-finished"@, payload: PayloadModel::Text(url) }
    }
}

/// The whole broadcast sequence of a simulated download of `url`.
pub open spec fn start_download_events(url: Seq<char>) -> Seq<BroadcastModel> {
    Seq::new(6, |i: int| broadcast_at(url, i))
}

/// The notifications a simulated download of `url` broadcasts, in emission
/// order: `download-started` with the url, `download-progress` with 10, 30,
/// 70 and 100, then `download-finished` with the url. The host emits each in
/// turn, swallowing delivery failures.
pub fn start_download(url: String) -> (r: Vec<BroadcastEvent>)
    ensures
        r@.len() == 6,
        forall|i: int| 0 <= i < 6 ==> #[trigger] r@[i]@ == broadcast_at(url@, i),
        r@.map_values(|e: BroadcastEvent| e@) == start_download_events(url@),
{
    let mut v: Vec<BroadcastEvent> = Vec::new();
    v.push(
        BroadcastEvent {
            name: String::from_str("download-started"),
            payload: EventPayload::Text(url.clone()),
        },
    );
    v.push(
        BroadcastEvent {
            name: String::from_str("download-progress"),
            payload: EventPayload::Number(10),
        },
    );
    v.push(
        BroadcastEvent {
            name: String::from_str("download-progress"),
            payload: EventPayload::Number(30),
        },
    );
    v.push(
        BroadcastEvent {
            name: String::from_str("download-progress"),
            payload: EventPayload::Number(70),
        },
    );
    v.push(
        BroadcastEvent {
            name: String::from_str("download-progress"),
            payload: EventPayload::Number(100),
        },
    );
    v.push(
        BroadcastEvent {
            name: String::from_str("download-finished"),
            payload: EventPayload::Text(url),
        },
    );
    proof {
        assert(v@.map_values(|e: BroadcastEvent| e@) =~= start_download_events(url@));
    }
    v
}

/// One message of the download stream: a tagged variant tied to one
/// invocation, delivered over the caller-supplied streaming handle in strict
/// FIFO order.
#[derive(Clone, Debug, PartialEq, Eq)]
pub enum DownloadEvent {
    Started { url: String, total: usize },
    Progress { received: usize },
    Finished,
}

/// Spec-level image of a `DownloadEvent`.
pub enum EventModel {
    Started { url: Seq<char>, total: int },
    Progress { received: int },
    Finished,
}

impl View for DownloadEvent {
    type V = EventModel;

    open spec fn view(&self) -> EventModel {
        match self {
            DownloadEvent::Started { url, total } => EventModel::Started {
                url: url@,
                total: *total as int,
            },
            DownloadEvent::Progress { received } => EventModel::Progress {
                received: *received as int,
            },
            DownloadEvent::Finished => EventModel::Finished,
        }
    }
}

/// The fixed chunk sizes the simulated download reports, in order.
pub open spec fn chunk_size(i: int) -> int {
    if i == 0 {
        120
    } else if i == 1 {
        300
    } else if i == 2 {
        250
    } else {
        330
    }
}

/// The `i`-th message of the download stream for `url`: one start with the
/// total size, four progress reports, one finish.
pub open spec fn download_message_at(url: Seq<char>, i: int) -> EventModel {
    if i == 0 {
        EventModel::Started { url, total: 1000 }
    } else if i <= 4 {
        EventModel::Progress { received: chunk_size(i - 1) }
    } else {
        EventModel::Finished
    }
}

/// The whole message sequence of one download-streaming invocation.
pub open spec fn download_messages(url: Seq<char>) -> Seq<EventModel> {
    Seq::new(6, |i: int| download_message_at(url, i))
}

/// Where one streaming invocation stands: `NotStarted` until the start
/// message is delivered, `Progressing(count)` after `count` progress reports,
/// `Finished` after the final message, and `Failed` — reachable from any
/// non-terminal state — once a send has failed.
pub enum DownloadPhase {
    NotStarted,
    Started,
    Progressing { count: int },
    Finished,
    Failed,
}

/// The state machine of one download-streaming invocation. The host asks for
/// the next message, performs the send, and reports the outcome back; once a
/// send fails no further message is offered.
pub struct DownloadTask {
    url: String,
    sent: usize,
    failed: bool,
}

impl DownloadTask {
    /// How many messages have been delivered.
    pub closed spec fn sent_count(&self) -> int {
        self.sent as int
    }

    /// Whether a send has failed.
    pub closed spec fn has_failed(&self) -> bool {
        self.failed
    }

    /// The url this invocation streams about.
    pub closed spec fn url_spec(&self) -> Seq<char> {
        self.url@
    }

    /// At most the whole six-message sequence is ever delivered.
    pub open spec fn wf(&self) -> bool {
        0 <= self.sent_count() <= 6
    }

    /// The phase of the invocation's state machine. No transition skips
    /// `Started`, and `Finished` is only reached after every progress report.
    pub open spec fn phase(&self) -> DownloadPhase {
        if self.has_failed() {
            DownloadPhase::Failed
        } else if self.sent_count() == 0 {
            DownloadPhase::NotStarted
        } else if self.sent_count() == 1 {
            DownloadPhase::Started
        } else if self.sent_count() < 6 {
            DownloadPhase::Progressing { count: self.sent_count() - 1 }
        } else {
            DownloadPhase::Finished
        }
    }

    /// The messages delivered so far: always a prefix of the full sequence,
    /// in order, with no omission and no duplication.
    pub open spec fn delivered(&self) -> Seq<EventModel> {
        download_messages(self.url_spec()).take(self.sent_count())
    }

    /// A fresh invocation: nothing delivered, nothing failed.
    pub fn new(url: String) -> (r: DownloadTask)
        ensures
            r.sent_count() == 0,
            !r.has_failed(),
            r.url_spec() == url@,
    {
        DownloadTask { url, sent: 0, failed: false }
    }

    /// The message to send next, or nothing once the invocation is terminal
    /// (all six delivered, or a send has failed).
    pub fn next_message(&self) -> (r: Option<DownloadEvent>)
        requires
            self.wf(),
        ensures
            (self.has_failed() || self.sent_count() == 6) ==> r is None,
            (!self.has_failed() && self.sent_count() < 6) ==> (r matches Some(m) && m@
                == download_message_at(self.url_spec(), self.sent_count())),
    {
        if self.failed || self.sent >= 6 {
            return None;
        }
        if self.sent == 0 {
            Some(DownloadEvent::Started { url: self.url.clone(), total: 1000 })
        } else if self.sent <= 4 {
            let received: usize = if self.sent == 1 {
                120
            } else if self.sent == 2 {
                300
            } else if self.sent == 3 {
                250
            } else {
                330
            };
            Some(DownloadEvent::Progress { received })
        } else {
            Some(DownloadEvent::Finished)
        }
    }

    /// Records that the offered message was delivered: one step forward, no
    /// skipping.
    pub fn message_sent(&mut self)
        requires
            old(self).wf(),
            !old(self).has_failed(),
            old(self).sent_count() < 6,
        ensures
            final(self).sent_count() == old(self).sent_count() + 1,
            !final(self).has_failed(),
            final(self).url_spec() == old(self).url_spec(),
            final(self).delivered() == old(self).delivered().push(
                download_message_at(old(self).url_spec(), old(self).sent_count()),
            ),
    {
        self.sent = self.sent + 1;
        proof {
            assert(final(self).delivered() =~= old(self).delivered().push(
                download_message_at(old(self).url_spec(), old(self).sent_count()),
            ));
        }
    }

    /// Records that a send failed: the invocation is terminal, what was
    /// already delivered stays delivered.
    pub fn send_failed(&mut self)
        ensures
            final(self).has_failed(),
            final(self).sent_count() == old(self).sent_count(),
            final(self).url_spec() == old(self).url_spec(),
    {
        self.failed = true;
    }

    /// Whether the invocation is over, by completion or by failure.
    pub fn is_terminal(&self) -> (r: bool)
        requires
            self.wf(),
        ensures
            r == (self.has_failed() || self.sent_count() == 6),
    {
        self.failed || self.sent >= 6
    }
}

/// A completed invocation has delivered exactly the full message sequence:
/// start, the four progress reports in order, finish — no reordering, no
/// omission, no duplication.
pub proof fn lemma_finished_delivers_all(t: &DownloadTask)
    requires
        t.wf(),
        t.phase() matches DownloadPhase::Finished,
    ensures
        t.delivered() =~= download_messages(t.url_spec()),
{
}

/// Runs one download-streaming invocation against a receiver whose `k`-th
/// send succeeds exactly when `send_ok[k]` — the host observes these
/// outcomes; this driver fixes what they imply. Returns the messages actually
/// delivered and the invocation's terminal result: the delivered messages are
/// exactly the successful prefix of the full sequence for `url`; the first
/// failed send ends the invocation with `ChannelClosed` and nothing after it
/// is attempted; if every send succeeds the invocation completes cleanly.
pub fn download1(url: String, send_ok: &Vec<bool>) -> (r: (
    Vec<DownloadEvent>,
    Result<(), CommandError>,
))
    requires
        send_ok@.len() >= 6,
    ensures
        r.0@.len() <= 6,
        forall|i: int| 0 <= i < r.0@.len() ==> #[trigger] send_ok@[i],
        forall|i: int|
            0 <= i < r.0@.len() ==> #[trigger] r.0@[i]@ == download_message_at(url@, i),
        r.0@.map_values(|e: DownloadEvent| e@) == download_messages(url@).take(r.0@.len() as int),
        r.1 matches Ok(_) ==> r.0@.len() == 6,
        r.1 matches Err(e) ==> r.0@.len() < 6 && !send_ok@[r.0@.len() as int] && e
            == CommandError::ChannelClosed,
        (forall|i: int| 0 <= i < 6 ==> send_ok@[i]) ==> r.1 == Ok::<(), CommandError>(()),
{
    let mut task = DownloadTask::new(url);
    let mut delivered: Vec<DownloadEvent> = Vec::new();
    let mut i: usize = 0;
    while i < 6
        invariant
            send_ok@.len() >= 6,
            i <= 6,
            task.wf(),
            !task.has_failed(),
            task.sent_count() == i,
            task.url_spec() == url@,
            delivered@.len() == i,
            forall|j: int| 0 <= j < i ==> #[trigger] send_ok@[j],
            forall|j: int|
                0 <= j < i ==> #[trigger] delivered@[j]@ == download_message_at(url@, j),
        decreases 6 - i,
    {
        let m = task.next_message().unwrap();
        if send_ok[i] {
            delivered.push(m);
            task.message_sent();
            i = i + 1;
        } else {
            task.send_failed();
            proof {
                assert(delivered@.map_values(|e: DownloadEvent| e@) =~= download_messages(
                    url@,
                ).take(delivered@.len() as int));
            }
            return (delivered, Err(CommandError::ChannelClosed));
        }
    }
    proof {
        assert(delivered@.map_values(|e: DownloadEvent| e@) =~= download_messages(url@).take(
            delivered@.len() as int,
        ));
    }
    (delivered, Ok(()))
}

} // verus!
