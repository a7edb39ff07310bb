use std::cell::RefCell;
use std::rc::Rc;

use forge_events::Bot;
use forge_events::CommentCreatedEvent;
use forge_events::CommentTarget;
use forge_events::CommentUpdatedEvent;
use forge_events::DecodeError;
use forge_events::Dispatcher;
use forge_events::IssueCreatedEvent;
use forge_events::IssueReopenedEvent;
use forge_events::IssueUpdatedEvent;
use forge_events::JsonValue;
use forge_events::PullRequestCreatedEvent;
use forge_events::PullRequestUpdatedEvent;
use forge_events::Repository;
use forge_events::RunningInfo;

fn obj(fields: Vec<(&str, JsonValue)>) -> JsonValue {
    JsonValue::Obj(fields.into_iter().map(|(k, v)| (k.to_string(), v)).collect())
}

fn js(t: &str) -> JsonValue {
    JsonValue::Str(t.to_string())
}

fn jn(v: u64) -> JsonValue {
    JsonValue::UInt(v)
}

/// Records every hook invocation, in order, as one line each. The log
/// is shared, so a test keeps a handle while the dispatcher owns the
/// recorder.
struct Recorder {
    log: Rc<RefCell<Vec<String>>>,
}

impl Recorder {
    fn new() -> Recorder {
        Recorder { log: Rc::new(RefCell::new(Vec::new())) }
    }

    fn handle(&self) -> Rc<RefCell<Vec<String>>> {
        Rc::clone(&self.log)
    }

    fn push(&self, line: String) {
        self.log.borrow_mut().push(line);
    }
}

fn entries(log: &Rc<RefCell<Vec<String>>>) -> Vec<String> {
    log.borrow().clone()
}

impl Bot for Recorder {
    fn on_issue_created(
        &self,
        repo: Repository,
        run: Option<RunningInfo>,
        event: IssueCreatedEvent,
    ) {
        self.push(format!(
            "issue_created {}/{} {:?} id={} title={} body={} user={}",
            repo.owner, repo.name, run, event.id, event.title, event.body, event.user,
        ));
    }

    fn on_issue_updated(
        &self,
        repo: Repository,
        run: Option<RunningInfo>,
        event: IssueUpdatedEvent,
    ) {
        self.push(format!(
            "issue_updated {}/{} {:?} id={} part={:?} user={}",
            repo.owner, repo.name, run, event.id, event.updated_part, event.user,
        ));
    }

    fn on_issue_closed(&self, repo: Repository, run: Option<RunningInfo>, issue_id: usize) {
        self.push(format!("issue_closed {}/{} {:?} id={}", repo.owner, repo.name, run, issue_id));
    }

    fn on_issue_reopened(
        &self,
        repo: Repository,
        run: Option<RunningInfo>,
        event: IssueReopenedEvent,
    ) {
        self.push(format!(
            "issue_reopened {}/{} {:?} id={}",
            repo.owner, repo.name, run, event.id,
        ));
    }

    fn on_pull_request_created(
        &self,
        repo: Repository,
        run: Option<RunningInfo>,
        event: PullRequestCreatedEvent,
    ) {
        self.push(format!(
            "pull_request_created {}/{} {:?} id={} from={}/{} refs={}->{}",
            repo.owner,
            repo.name,
            run,
            event.id,
            event.from_repo.owner,
            event.from_repo.name,
            event.from_ref,
            event.to_ref,
        ));
    }

    fn on_pull_request_updated(
        &self,
        repo: Repository,
        run: Option<RunningInfo>,
        event: PullRequestUpdatedEvent,
    ) {
        self.push(format!(
            "pull_request_updated {}/{} {:?} id={}",
            repo.owner, repo.name, run, event.id,
        ));
    }

    fn on_pull_request_closed(
        &self,
        repo: Repository,
        run: Option<RunningInfo>,
        pull_request_id: usize,
    ) {
        self.push(format!(
            "pull_request_closed {}/{} {:?} id={}",
            repo.owner, repo.name, run, pull_request_id,
        ));
    }

    fn on_comment_created(
        &self,
        repo: Repository,
        run: Option<RunningInfo>,
        event: CommentCreatedEvent,
    ) {
        self.push(format!(
            "comment_created {}/{} {:?} id={} user={} target={:?} body={}",
            repo.owner, repo.name, run, event.id, event.user, event.target, event.body,
        ));
    }

    fn on_comment_updated(
        &self,
        repo: Repository,
        run: Option<RunningInfo>,
        event: CommentUpdatedEvent,
    ) {
        self.push(format!(
            "comment_updated {}/{} {:?} id={}",
            repo.owner, repo.name, run, event.id,
        ));
    }

    fn on_comment_deleted(&self, repo: Repository, run: Option<RunningInfo>, comment_id: usize) {
        self.push(format!(
            "comment_deleted {}/{} {:?} id={}",
            repo.owner, repo.name, run, comment_id,
        ));
    }
}

fn issues_opened_payload() -> JsonValue {
    obj(vec![
        ("event_name", js("issues")),
        ("repository", js("acme/widgets")),
        (
            "event",
            obj(vec![
                ("action", js("opened")),
                ("repository", obj(vec![("owner", obj(vec![("login", js("acme"))]))])),
                (
                    "issue",
                    obj(vec![
                        ("number", jn(42)),
                        ("title", js("Crash on start")),
                        ("body", js("It crashes.")),
                        ("user", obj(vec![("login", js("alice"))])),
                    ]),
                ),
            ]),
        ),
    ])
}

#[test]
fn dispatch_invokes_only_issue_created() {
    let bot = Recorder::new();
    let log = bot.handle();
    let dispatcher = Dispatcher::new(bot);
    let p = issues_opened_payload();
    assert_eq!(dispatcher.dispatch_event(&p), Ok(()));
    assert_eq!(
        entries(&log),
        vec![
            "issue_created acme/widgets None id=42 title=Crash on start body=It crashes. user=alice"
                .to_string()
        ]
    );
}

#[test]
fn dispatch_with_marker_never_invokes_issue_hook() {
    let bot = Recorder::new();
    let log = bot.handle();
    let p = obj(vec![
        ("event_name", js("issues")),
        ("repository", js("acme/widgets")),
        (
            "event",
            obj(vec![
                ("action", js("closed")),
                ("repository", obj(vec![("owner", obj(vec![("login", js("acme"))]))])),
                (
                    "issue",
                    obj(vec![("number", jn(4)), ("pull_request", obj(vec![]))]),
                ),
            ]),
        ),
    ]);
    let dispatcher = Dispatcher::new(bot);
    assert_eq!(dispatcher.dispatch_event(&p), Ok(()));
    assert_eq!(entries(&log), vec!["pull_request_closed acme/widgets None id=4".to_string()]);
}

#[test]
fn dispatch_failure_runs_no_hook() {
    let bot = Recorder::new();
    let log = bot.handle();
    let dispatcher = Dispatcher::new(bot);

    let unknown_action = obj(vec![
        ("event_name", js("issues")),
        ("repository", js("acme/widgets")),
        (
            "event",
            obj(vec![
                ("action", js("labeled")),
                ("repository", obj(vec![("owner", obj(vec![("login", js("acme"))]))])),
                ("issue", obj(vec![("number", jn(1))])),
            ]),
        ),
    ]);
    assert_eq!(dispatcher.dispatch_event(&unknown_action), Err(DecodeError::UnknownAction));

    let missing_field = obj(vec![
        ("event_name", js("pull_request")),
        ("repository", js("acme/widgets")),
        ("base_ref", js("main")),
        (
            "event",
            obj(vec![
                ("action", js("opened")),
                ("repository", obj(vec![("owner", obj(vec![("login", js("acme"))]))])),
                (
                    "pull_request",
                    obj(vec![
                        ("number", jn(11)),
                        ("title", js("t")),
                        ("body", js("b")),
                        ("user", obj(vec![("login", js("erin"))])),
                        (
                            "head",
                            obj(vec![
                                ("user", obj(vec![("login", js("erin"))])),
                                ("repo", obj(vec![("name", js("fork"))])),
                            ]),
                        ),
                    ]),
                ),
            ]),
        ),
    ]);
    assert_eq!(dispatcher.dispatch_event(&missing_field), Err(DecodeError::MalformedField));

    assert_eq!(entries(&log), Vec::<String>::new());
}

#[test]
fn dispatch_twice_gives_identical_sequences() {
    let p = issues_opened_payload();

    let first = Recorder::new();
    let first_log = first.handle();
    let second = Recorder::new();
    let second_log = second.handle();
    {
        let dispatcher = Dispatcher::new(first);
        assert_eq!(dispatcher.dispatch_event(&p), Ok(()));
    }
    {
        let dispatcher = Dispatcher::new(second);
        assert_eq!(dispatcher.dispatch_event(&p), Ok(()));
    }
    assert_eq!(entries(&first_log), entries(&second_log));

    let reused = Recorder::new();
    let reused_log = reused.handle();
    let dispatcher = Dispatcher::new(reused);
    assert_eq!(dispatcher.dispatch_event(&p), Ok(()));
    assert_eq!(dispatcher.dispatch_event(&p), Ok(()));
    let seen = entries(&reused_log);
    assert_eq!(seen.len(), 2);
    assert_eq!(seen[0], seen[1]);
}

#[test]
fn comment_created_example_end_to_end() {
    let bot = Recorder::new();
    let log = bot.handle();
    let dispatcher = Dispatcher::new(bot);
    // The decoders draw the owner from the nested repository object, so
    // the envelope carries it alongside the combined full-name string.
    let p = obj(vec![
        ("event_name", js("issue_comment")),
        ("repository", js("acme/widgets")),
        (
            "event",
            obj(vec![
                ("action", js("created")),
                ("repository", obj(vec![("owner", obj(vec![("login", js("acme"))]))])),
                ("issue", obj(vec![("number", jn(42))])),
                (
                    "comment",
                    obj(vec![
                        ("id", jn(7)),
                        ("user", obj(vec![("login", js("alice"))])),
                        ("body", js("hi")),
                    ]),
                ),
            ]),
        ),
    ]);
    assert_eq!(dispatcher.dispatch_event(&p), Ok(()));
    assert_eq!(
        entries(&log),
        vec!["comment_created acme/widgets None id=7 user=alice target=Issue(42) body=hi".to_string()]
    );
    assert_eq!(CommentTarget::Issue(42).id(), 42);
}
