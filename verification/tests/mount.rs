use http2fifo::config::{Config, Method};
use http2fifo::error::Error;
use http2fifo::fifo::OpenOutcome;
use http2fifo::http::{check_status, fetch_stream, Request};
use http2fifo::mount::{Action, Mount, Reply};
use http2fifo::{mount, mount_all};

fn make_config(url: &str, fifo_path: &str) -> Config {
    Config {
        url: url.to_string(),
        method: Method::parse("GET").unwrap(),
        body: None,
        headers: vec![],
        fifo_path: fifo_path.as_bytes().to_vec(),
    }
}

/// A world in which a mount runs: a path, readers that come one after another,
/// and a server that answers all requests alike.
struct World {
    /// Whether there is an entry at the path.
    entry: bool,
    /// How many readers are still to come. Once there are none, the mount is
    /// cancelled.
    readers: usize,
    /// How many attempts to open fail before a reader comes.
    patience: usize,
    status: u16,
    body: Vec<Vec<u8>>,
    /// How many chunks come before the mount is cancelled, if it is.
    cancel_after: Option<usize>,
    position: usize,
    write_end: bool,
    /// What each reader got.
    delivered: Vec<Vec<u8>>,
    requests: Vec<Request>,
    slept: u64,
}

impl World {
    fn new(body: &[&[u8]]) -> World {
        World {
            entry: false,
            readers: 1,
            patience: 0,
            status: 200,
            body: body.iter().map(|chunk| chunk.to_vec()).collect(),
            cancel_after: None,
            position: 0,
            write_end: false,
            delivered: Vec::new(),
            requests: Vec::new(),
            slept: 0,
        }
    }

    fn perform(&mut self, action: Action) -> Result<Reply, Error> {
        Ok(match action {
            Action::Probe(_) => Reply::Probed(self.entry),
            Action::Make(fifo) => {
                assert!(!self.entry, "a FIFO was made over an entry");
                assert_eq!(fifo.mode, 0o600);
                self.entry = true;
                Reply::Made(Ok(()))
            }
            Action::Open => {
                if self.readers > 0 && self.patience == 0 {
                    self.readers -= 1;
                    self.write_end = true;
                    self.position = 0;
                    self.delivered.push(Vec::new());
                    Reply::Attempted(OpenOutcome::Opened)
                } else {
                    self.patience = self.patience.saturating_sub(1);
                    Reply::Attempted(OpenOutcome::NoReader)
                }
            }
            Action::AskCancelled => Reply::CancelState(self.readers == 0),
            Action::Sleep(millis) => {
                self.slept += millis;
                Reply::Slept
            }
            Action::ClearNonblock => Reply::NonblockCleared(Ok(())),
            Action::Send(request) => {
                assert!(self.write_end, "the request was sent without a reader");
                self.requests.push(request);
                Reply::Answered(self.status, format!("status {}", self.status))
            }
            Action::Next => {
                if self.cancel_after == Some(self.position) {
                    Reply::Cancelled
                } else if self.position < self.body.len() {
                    self.position += 1;
                    Reply::Chunk(self.body[self.position - 1].clone())
                } else {
                    Reply::End
                }
            }
            Action::Write(bytes) => {
                assert!(self.write_end);
                self.delivered.last_mut().unwrap().extend_from_slice(&bytes);
                Reply::Written(Ok(()))
            }
            Action::Close => {
                assert!(self.write_end);
                self.write_end = false;
                Reply::Closed
            }
            Action::Unlink(_) => {
                assert!(self.entry, "there was no FIFO to unlink");
                assert!(!self.write_end, "the write end was still open");
                self.entry = false;
                Reply::Unlinked
            }
            Action::Return(e) => return Err(e),
        })
    }

    fn run(&mut self, config: Config) -> Result<(), Error> {
        let (mut current, mut action) = mount(config);
        loop {
            let reply = self.perform(action)?;
            assert!(current.awaits(&reply));
            let (next, asked) = current.step(reply);
            current = next;
            action = asked;
        }
    }
}

/// Feeds `replies` to a mount and gives back the last action.
fn drive(replies: Vec<Reply>) -> (Mount, Action) {
    let (mut current, mut action) = mount(make_config("http://a.test", "/tmp/a.fifo"));
    for reply in replies {
        assert!(current.awaits(&reply));
        let (next, asked) = current.step(reply);
        current = next;
        action = asked;
    }
    (current, action)
}

fn opened() -> Vec<Reply> {
    vec![
        Reply::Probed(false),
        Reply::Made(Ok(())),
        Reply::Attempted(OpenOutcome::Opened),
    ]
}

fn streaming() -> Vec<Reply> {
    let mut replies = opened();
    replies.push(Reply::NonblockCleared(Ok(())));
    replies.push(Reply::Answered(200, String::new()));
    replies
}

fn assert_ends(mut replies: Vec<Reply>, cleanup: Vec<Reply>, expected: Error) {
    replies.extend(cleanup);
    match drive(replies).1 {
        Action::Return(e) => assert_eq!(e, expected),
        other => panic!("got {other:?}"),
    }
}

#[test]
fn happy_path_streams_body() {
    let mut world = World::new(&[b"hello world"]);
    let _ = world.run(make_config("http://a.test", "/tmp/a.fifo"));
    assert_eq!(world.delivered[0], b"hello world");
}

#[test]
fn non_2xx_returns_error() {
    let mut world = World::new(&[]);
    world.status = 500;
    let result = world.run(make_config("http://a.test", "/tmp/a.fifo"));
    assert!(
        matches!(result, Err(Error::Http(_))),
        "expected Err(Error::Http), got Ok(_)"
    );
    assert!(!world.entry);
}

#[test]
fn success_is_2xx_and_nothing_else() {
    for status in [200u16, 204, 206, 299] {
        assert_eq!(check_status(status, "no".to_string()), Ok(()));
    }
    for status in [0u16, 100, 199, 300, 304, 404, 500, 599, 999] {
        assert_eq!(
            check_status(status, "no".to_string()),
            Err(Error::Http("no".to_string()))
        );
    }
}

#[test]
fn request_headers_are_forwarded() {
    let mut config = make_config("http://a.test", "/tmp/a.fifo");
    config.headers = vec![
        ("x-custom".to_owned(), "value".to_owned()),
        ("x-custom".to_owned(), "other".to_owned()),
    ];
    let mut world = World::new(&[]);
    let _ = world.run(config);
    assert_eq!(world.requests.len(), 1);
    assert_eq!(world.requests[0].url, "http://a.test");
    assert_eq!(world.requests[0].method.as_str(), "GET");
    assert_eq!(world.requests[0].body, None);
    assert_eq!(
        world.requests[0].headers,
        vec![
            ("x-custom".to_owned(), "value".to_owned()),
            ("x-custom".to_owned(), "other".to_owned()),
        ]
    );
}

#[test]
fn request_body_is_sent() {
    let config = Config {
        url: "http://a.test".to_owned(),
        method: Method::parse("POST").unwrap(),
        body: Some(b"payload".to_vec()),
        headers: vec![],
        fifo_path: Vec::new(),
    };
    let request = fetch_stream(&config);
    assert_eq!(request.method.as_str(), "POST");
    assert_eq!(request.body, Some(b"payload".to_vec()));
}

#[test]
fn delivers_payload_to_fifo() {
    let mut world = World::new(&[b"hello ", b"from ", b"http2fifo"]);
    let result = world.run(make_config("http://a.test", "/tmp/stream.fifo"));
    assert_eq!(world.delivered, vec![b"hello from http2fifo".to_vec()]);
    assert!(
        matches!(result, Err(Error::Cancelled)),
        "expected mount to return Err(Cancelled) after token cancel"
    );
    assert!(!world.entry);
}

#[test]
fn happy_path_streams_payload() {
    // The mount keeps running for the next reader.
    let mut world = World::new(&[b"hello from cli"]);
    world.readers = 3;
    let result = world.run(make_config("http://a.test", "/tmp/stream.fifo"));
    assert_eq!(world.delivered, vec![b"hello from cli".to_vec(); 3]);
    assert_eq!(world.requests.len(), 3);
    assert_eq!(result, Err(Error::Cancelled));
    assert!(!world.entry);
}

#[test]
fn waits_for_a_reader_before_the_request() {
    let mut world = World::new(&[b"late"]);
    world.patience = 4;
    let _ = world.run(make_config("http://a.test", "/tmp/a.fifo"));
    assert_eq!(world.slept, 4 * 50);
    assert_eq!(world.delivered, vec![b"late".to_vec()]);
}

#[test]
fn cancelled_mid_stream_unlinks_fifo() {
    let chunk = vec![0u8; 1024 * 1024];
    let body: Vec<&[u8]> = (0..10).map(|_| chunk.as_slice()).collect();
    let mut world = World::new(&body);
    world.cancel_after = Some(3);
    let result = world.run(make_config("http://a.test", "/tmp/stream.fifo"));
    assert!(
        matches!(result, Err(Error::Cancelled)),
        "expected Err(Cancelled), got {result:?}"
    );
    assert!(!world.entry, "FIFO should be unlinked after mount");
    assert_eq!(world.delivered[0].len(), 3 * 1024 * 1024);
}

#[test]
fn existing_entry_is_never_overwritten() {
    let mut world = World::new(&[]);
    world.entry = true;
    let result = world.run(make_config("http://a.test", "/tmp/a.fifo"));
    assert_eq!(result, Err(Error::FifoAlreadyExists(b"/tmp/a.fifo".to_vec())));
    assert!(world.entry, "the entry is still there");
    assert!(world.requests.is_empty());
}

#[test]
fn each_failure_ends_the_mount_with_its_error() {
    let text = |s: &str| s.to_string();
    assert_ends(
        vec![Reply::Probed(false), Reply::Made(Err(text("make")))],
        vec![],
        Error::FifoCreate(text("make")),
    );
    assert_ends(
        vec![
            Reply::Probed(false),
            Reply::Made(Ok(())),
            Reply::Attempted(OpenOutcome::Failed(text("open"))),
        ],
        vec![Reply::Unlinked],
        Error::Io(text("open")),
    );
    let failures = vec![
        (opened(), Reply::NonblockCleared(Err(text("flags"))), Error::Io(text("flags"))),
        (streaming(), Reply::ChunkFailed(text("chunk")), Error::Http(text("chunk"))),
        (streaming(), Reply::Cancelled, Error::Cancelled),
    ];
    for (mut replies, reply, expected) in failures {
        replies.push(reply);
        assert_ends(replies, vec![Reply::Closed, Reply::Unlinked], expected);
    }
    let mut replies = opened();
    replies.push(Reply::NonblockCleared(Ok(())));
    replies.push(Reply::SendFailed(text("send")));
    let cleanup = vec![Reply::Closed, Reply::Unlinked];
    assert_ends(replies, cleanup, Error::Http(text("send")));
    let mut replies = streaming();
    replies.push(Reply::Chunk(vec![1]));
    replies.push(Reply::Written(Err(text("write"))));
    let cleanup = vec![Reply::Closed, Reply::Unlinked];
    assert_ends(replies, cleanup, Error::Io(text("write")));
}

#[test]
fn only_replies_to_the_action_are_awaited() {
    let (fresh, action) = drive(vec![]);
    assert!(matches!(action, Action::Probe(_)));
    assert!(fresh.awaits(&Reply::Probed(true)));
    assert!(!fresh.awaits(&Reply::Made(Ok(()))));
    let (stream, action) = drive(streaming());
    assert!(matches!(action, Action::Next));
    assert!(stream.awaits(&Reply::End));
    assert!(!stream.awaits(&Reply::Written(Ok(()))));
    let (over, action) = drive(vec![Reply::Probed(true)]);
    assert!(matches!(action, Action::Return(_)));
    assert!(!over.awaits(&Reply::Probed(true)));
}

#[test]
fn next_chunk_waits_for_the_write() {
    let mut replies = streaming();
    replies.push(Reply::Chunk(b"abc".to_vec()));
    let (writing, action) = drive(replies);
    match action {
        Action::Write(bytes) => assert_eq!(bytes, b"abc"),
        other => panic!("got {other:?}"),
    }
    assert!(!writing.awaits(&Reply::Chunk(b"d".to_vec())));
    let (_, action) = writing.step(Reply::Written(Ok(())));
    assert!(matches!(action, Action::Next));
}

#[test]
fn stream_end_starts_over() {
    let mut replies = streaming();
    replies.push(Reply::End);
    replies.push(Reply::Closed);
    replies.push(Reply::Unlinked);
    match drive(replies).1 {
        Action::Probe(path) => assert_eq!(path, b"/tmp/a.fifo"),
        other => panic!("got {other:?}"),
    }
}

#[test]
fn delivers_distinct_payloads() {
    let configs = vec![
        make_config("http://a.test", "/tmp/a.fifo"),
        make_config("http://b.test", "/tmp/b.fifo"),
    ];
    let mut all = mount_all(&configs, false);
    let payloads: Vec<&[u8]> = vec![b"stream-alpha", b"stream-beta"];
    for (i, config) in configs.into_iter().enumerate() {
        let mut world = World::new(&[payloads[i]]);
        let result = world.run(config);
        assert_eq!(world.delivered, vec![payloads[i].to_vec()]);
        let (rest, cancels) = all.returned(i, result);
        assert!(!cancels);
        all = rest;
    }
    for (path, result) in all.finish().unwrap() {
        assert!(
            matches!(result, Err(Error::Cancelled)),
            "expected Err(Cancelled) for mount {path:?}, got {result:?}"
        );
    }
}

#[test]
fn fail_fast_cancels_peers_on_error() {
    let configs = vec![
        make_config("http://a.test", "/tmp/a.fifo"),
        make_config("http://b.test", "/tmp/b.fifo"),
    ];
    let all = mount_all(&configs, true);
    let mut configs = configs.into_iter();

    let mut failing = World::new(&[]);
    failing.status = 500;
    let result_a = failing.run(configs.next().unwrap());
    let (all, cancels) = all.returned(0, result_a);
    assert!(cancels);

    let chunk = vec![0u8; 1024 * 1024];
    let body: Vec<&[u8]> = (0..10).map(|_| chunk.as_slice()).collect();
    let mut streaming = World::new(&body);
    streaming.cancel_after = Some(2);
    let result_b = streaming.run(configs.next().unwrap());
    let (all, _) = all.returned(1, result_b);

    let results = all.finish().unwrap();
    let result_a = &results[0].1;
    let result_b = &results[1].1;
    assert!(
        matches!(result_a, Err(Error::Http(_))),
        "expected Err(Http) for mount A, got {result_a:?}"
    );
    assert!(
        matches!(result_b, Err(Error::Cancelled)),
        "expected Err(Cancelled) for mount B, got {result_b:?}"
    );
}

#[test]
fn results_come_in_the_order_of_the_configs() {
    let configs = vec![
        make_config("http://a.test", "/a"),
        make_config("http://b.test", "/b"),
        make_config("http://c.test", "/c"),
    ];
    let all = mount_all(&configs, true);
    let (all, cancels) = all.returned(2, Ok(()));
    assert!(!cancels);
    let (all, cancels) = all.panicked(0, "task panicked".to_string());
    assert!(cancels);
    let (all, cancels) = all.returned(1, Err(Error::Cancelled));
    assert!(cancels);
    assert_eq!(
        all.finish().unwrap(),
        vec![
            (b"/a".to_vec(), Err(Error::Io("task panicked".to_string()))),
            (b"/b".to_vec(), Err(Error::Cancelled)),
            (b"/c".to_vec(), Ok(())),
        ]
    );
}

#[test]
fn a_panic_is_a_failure_like_any_other() {
    for fail_fast in [true, false] {
        let configs = vec![
            make_config("http://a.test", "/a"),
            make_config("http://b.test", "/b"),
        ];
        let all = mount_all(&configs, fail_fast);
        let (all, cancels) = all.panicked(1, "task panicked".to_string());
        assert_eq!(cancels, fail_fast);
        let (all, cancels) = all.returned(0, Ok(()));
        assert!(!cancels);
        assert_eq!(
            all.finish().unwrap(),
            vec![
                (b"/a".to_vec(), Ok(())),
                (b"/b".to_vec(), Err(Error::Io("task panicked".to_string()))),
            ]
        );
    }
}

#[test]
fn there_are_no_results_while_a_mount_is_under_way() {
    let configs = vec![
        make_config("http://a.test", "/a"),
        make_config("http://b.test", "/b"),
    ];
    let (all, _) = mount_all(&configs, false).returned(0, Ok(()));
    assert!(all.finish().is_none());
    assert_eq!(mount_all(&vec![], false).finish(), Some(vec![]));
}
