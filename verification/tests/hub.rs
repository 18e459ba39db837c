use summit::date_time::DateTime;
use summit::db::{Author, CreatePost, Db, DbError, FediAddr, Post};
use summit::dev::db::DevDb;
use summit::hub::{Delivery, EventHub, StreamPoll, STREAM_CAPACITY};
use summit::uuid::{RequestId, UserId, Uuid};
use summit::web::handler::dev::restart::{restart_step, RestartStep};
use summit::web::handler::live::{
    Connection, ConnectionGuard, ConnectionState, ConnectionStep,
};
use summit::web::shutdown::ShutdownSignal;
use summit::{Error, Summit};

fn user(n: u128) -> UserId {
    UserId(Uuid(n))
}

fn request(n: u128) -> RequestId {
    RequestId(Uuid(n))
}

fn post(title: &str) -> Post {
    Post {
        author: Author {
            fedi_addr: FediAddr { user: String::from("bob"), host: String::from("example.org") },
        },
        created_on: DateTime { secs: 10, nanos: 0 },
        title: String::from(title),
        body: String::from("body"),
    }
}

fn create(title: &str) -> CreatePost {
    CreatePost {
        author: Author {
            fedi_addr: FediAddr { user: String::from("bob"), host: String::from("example.org") },
        },
        title: String::from(title),
        body: String::from("body"),
    }
}

fn title(poll: StreamPoll) -> String {
    match poll {
        StreamPoll::Event(post) => post.title,
        other => panic!("no post: {:?}", other),
    }
}

/// A store that keeps count of what it is asked.
#[derive(Debug, Default)]
struct CountingDb {
    inner: DevDb,
    asked: Vec<String>,
    listed: std::cell::Cell<u32>,
}

impl Db for CountingDb {
    fn posts(&self) -> Result<Vec<Post>, DbError> {
        self.listed.set(self.listed.get() + 1);
        self.inner.posts()
    }

    fn create_post(&mut self, create_post: CreatePost) -> Result<Post, DbError> {
        self.asked.push(create_post.title.clone());
        self.inner.create_post(create_post)
    }
}

#[derive(Debug, Default)]
struct BrokenDb;

impl Db for BrokenDb {
    fn posts(&self) -> Result<Vec<Post>, DbError> {
        Err(DbError::Other(String::from("gone")))
    }

    fn create_post(&mut self, _create_post: CreatePost) -> Result<Post, DbError> {
        Err(DbError::Other(String::from("gone")))
    }
}

#[test]
fn stream_is_registered_once() {
    let mut hub = EventHub::new();
    let first = hub.open_event_stream(user(1), request(1));
    let second = hub.open_event_stream(user(1), request(2));
    let third = hub.open_event_stream(user(2), request(1));
    assert_eq!((first, second, third), (0, 1, 2));
    assert_eq!(hub.open_event_stream(user(1), request(2)), 1);
    assert_eq!(hub.open_event_stream(user(1), request(1)), 0);
    assert_eq!(hub.len(), 3);
}

#[test]
fn reopening_a_stream_keeps_what_waits_in_it() {
    let mut hub = EventHub::new();
    let handle = hub.open_event_stream(user(1), request(1));
    hub.publish(&post("kept"));
    assert_eq!(hub.open_event_stream(user(1), request(1)), handle);
    assert_eq!(title(hub.next_event(handle)), "kept");
}

#[test]
fn publishing_reaches_every_open_stream() {
    let mut hub = EventHub::new();
    let one = hub.open_event_stream(user(1), request(1));
    let other = hub.open_event_stream(user(2), request(2));
    let delivery = hub.publish(&post("hello"));
    assert_eq!(delivery, Delivery { delivered: 2, dropped: 0 });
    assert_eq!(title(hub.next_event(one)), "hello");
    assert_eq!(title(hub.next_event(other)), "hello");
    assert!(matches!(hub.next_event(one), StreamPoll::Empty));
}

#[test]
fn closing_one_stream_leaves_the_other_alone() {
    let mut hub = EventHub::new();
    let one = hub.open_event_stream(user(1), request(1));
    let other = hub.open_event_stream(user(2), request(2));
    hub.publish(&post("before"));
    hub.close_stream(one);
    let delivery = hub.publish(&post("after"));
    assert_eq!(delivery, Delivery { delivered: 1, dropped: 1 });
    assert!(matches!(hub.next_event(one), StreamPoll::Closed));
    assert_eq!(title(hub.next_event(other)), "before");
    assert_eq!(title(hub.next_event(other)), "after");
    assert_eq!(hub.len(), 2);
}

#[test]
fn full_stream_misses_the_post() {
    let mut hub = EventHub::new();
    let slow = hub.open_event_stream(user(1), request(1));
    let quick = hub.open_event_stream(user(2), request(2));
    assert_eq!(STREAM_CAPACITY, 2);
    hub.publish(&post("first"));
    hub.publish(&post("second"));
    assert_eq!(title(hub.next_event(quick)), "first");
    let delivery = hub.publish(&post("third"));
    assert_eq!(delivery, Delivery { delivered: 1, dropped: 1 });
    assert_eq!(title(hub.next_event(slow)), "first");
    assert_eq!(title(hub.next_event(slow)), "second");
    assert!(matches!(hub.next_event(slow), StreamPoll::Empty));
    assert_eq!(title(hub.next_event(quick)), "second");
    assert_eq!(title(hub.next_event(quick)), "third");
}

#[test]
fn publishing_to_nobody_is_fine() {
    let mut hub = EventHub::default();
    assert_eq!(hub.publish(&post("alone")), Delivery { delivered: 0, dropped: 0 });
    assert_eq!(hub.len(), 0);
}

#[test]
fn unknown_handle_is_closed() {
    let mut hub = EventHub::new();
    assert!(matches!(hub.next_event(0), StreamPoll::Closed));
    hub.close_stream(3);
    assert_eq!(hub.len(), 0);
}

#[test]
fn service_publishes_what_it_stores() {
    let mut summit = Summit::new(DevDb::default());
    let one = summit.open_event_stream(user(1), request(1));
    let other = summit.open_event_stream(user(1), request(2));
    let stored = summit.create_post(create("news")).unwrap();
    assert_eq!(stored.title, "news");
    assert_eq!(stored.body, "body");
    assert_eq!(stored.author.fedi_addr.format(), "@bob@example.org");
    assert_eq!(title(summit.hub.next_event(one)), "news");
    assert_eq!(title(summit.hub.next_event(other)), "news");
    let posts = summit.posts().unwrap();
    assert_eq!(posts.len(), 1);
    assert_eq!(posts[0].title, "news");
}

#[test]
fn failing_store_publishes_nothing() {
    let mut summit = Summit::new(BrokenDb);
    let handle = summit.open_event_stream(user(1), request(1));
    let err = summit.create_post(create("lost")).unwrap_err();
    assert!(matches!(err, Error::Storage(description) if description == "gone"));
    assert!(matches!(summit.hub.next_event(handle), StreamPoll::Empty));
    assert!(matches!(summit.posts(), Err(Error::Storage(_))));
}

#[test]
fn after_create_publishes_a_stored_post_only() {
    let mut summit = Summit::new(DevDb::default());
    let handle = summit.open_event_stream(user(1), request(1));
    let failed = summit.after_create(Err(DbError::Other(String::from("no"))));
    assert!(matches!(failed, Err(Error::Storage(description)) if description == "no"));
    assert!(matches!(summit.hub.next_event(handle), StreamPoll::Empty));
    let created = summit.after_create(Ok(post("yes"))).unwrap();
    assert_eq!(created.title, "yes");
    assert_eq!(title(summit.hub.next_event(handle)), "yes");
}

#[test]
fn send_post_event_reports_the_delivery() {
    let mut summit = Summit::new(DevDb::default());
    summit.open_event_stream(user(1), request(1));
    let closed = summit.open_event_stream(user(1), request(2));
    summit.hub.close_stream(closed);
    assert_eq!(summit.send_post_event(&post("x")), Delivery { delivered: 1, dropped: 1 });
}

#[test]
fn store_is_asked_once_for_each_post() {
    let mut summit = Summit::new(CountingDb::default());
    assert!(summit.create_post(create("one")).is_ok());
    assert_eq!(summit.db.asked, ["one"]);
    assert!(summit.create_post(create("two")).is_ok());
    assert_eq!(summit.db.asked, ["one", "two"]);
    assert_eq!(summit.posts().unwrap().len(), 2);
    assert_eq!(summit.db.listed.get(), 1);
}

#[test]
fn storage_error_keeps_the_description() {
    let err = Error::from(DbError::Other(String::from("why")));
    assert!(matches!(err, Error::Storage(description) if description == "why"));
}

#[test]
fn connection_renders_what_is_delivered() {
    let mut hub = EventHub::new();
    let mut connection = Connection::open(&mut hub, user(1), request(1));
    assert_eq!(connection.state, ConnectionState::Open);
    assert!(matches!(connection.poll(&mut hub, false), ConnectionStep::Idle));
    hub.publish(&post("one"));
    hub.publish(&post("two"));
    match connection.poll(&mut hub, false) {
        ConnectionStep::Render(post) => assert_eq!(post.title, "one"),
        other => panic!("unexpected step: {:?}", other),
    }
    match connection.poll(&mut hub, false) {
        ConnectionStep::Render(post) => assert_eq!(post.title, "two"),
        other => panic!("unexpected step: {:?}", other),
    }
    assert!(matches!(connection.poll(&mut hub, false), ConnectionStep::Idle));
    assert_eq!(connection.state, ConnectionState::Open);
}

#[test]
fn connection_closes_on_shutdown_before_anything_else() {
    let mut hub = EventHub::new();
    let mut connection = Connection::open(&mut hub, user(1), request(1));
    let mut bystander = Connection::open(&mut hub, user(2), request(2));
    hub.publish(&post("waiting"));
    let step = connection.poll(&mut hub, true);
    assert!(matches!(
        step,
        ConnectionStep::Close(ConnectionGuard { closed_via_shutdown_signal: true })
    ));
    assert_eq!(connection.state, ConnectionState::ClosedViaShutdown);
    assert!(matches!(connection.poll(&mut hub, true), ConnectionStep::Closed));
    assert!(matches!(connection.poll(&mut hub, false), ConnectionStep::Closed));
    assert!(matches!(hub.next_event(connection.handle), StreamPoll::Closed));
    assert_eq!(hub.publish(&post("later")), Delivery { delivered: 1, dropped: 1 });
    assert!(matches!(bystander.poll(&mut hub, false), ConnectionStep::Render(_)));
}

#[test]
fn connection_closes_when_its_queue_is_closed() {
    let mut hub = EventHub::new();
    let mut connection = Connection::open(&mut hub, user(1), request(1));
    hub.close_stream(connection.handle);
    let step = connection.poll(&mut hub, false);
    assert!(matches!(
        step,
        ConnectionStep::Close(ConnectionGuard { closed_via_shutdown_signal: false })
    ));
    assert_eq!(connection.state, ConnectionState::ClosedViaError);
    assert!(matches!(connection.poll(&mut hub, false), ConnectionStep::Closed));
}

#[test]
fn rendered_markup_becomes_a_named_event() {
    let event = Connection::rendered(Ok(String::from("<p>hi</p>"))).unwrap();
    assert_eq!(event.event, "newCommunityPost");
    assert_eq!(event.data, "<p>hi</p>");
    assert!(Connection::rendered(Err(Error::Render(String::from("bad template")))).is_none());
}

#[test]
fn restart_stream_beats_until_shutdown() {
    let mut state = ConnectionState::Open;
    assert_eq!(restart_step(&mut state, false), RestartStep::Heartbeat);
    assert_eq!(state, ConnectionState::Open);
    assert_eq!(
        restart_step(&mut state, true),
        RestartStep::Close(ConnectionGuard { closed_via_shutdown_signal: true })
    );
    assert_eq!(state, ConnectionState::ClosedViaShutdown);
    assert_eq!(restart_step(&mut state, false), RestartStep::Closed);
    assert_eq!(restart_step(&mut state, true), RestartStep::Closed);
}

#[test]
fn shutdown_signal_is_raised_once() {
    let mut signal = ShutdownSignal::new();
    assert!(!signal.recv());
    assert!(signal.raise());
    assert!(signal.recv());
    assert!(!signal.raise());
    assert!(signal.recv());
    let seen_by_another = &signal;
    assert!(seen_by_another.recv());
    assert!(signal.recv());
    assert!(!ShutdownSignal::default().recv());
}
