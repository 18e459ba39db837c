use summit::date_time::{DateTime, LocalDateTime, TimeZone};
use summit::db::{Author, CreatePost, Db, DbConfig, FediAddr, Post};
use summit::dev::db::DevDb;
use summit::uuid::{RequestId, UserId, Uuid};
use summit::web::extension::request_id::{trace_id, RequestIdLayer};
use summit::web::handler::community::{community_posts, CommunityPost};
use summit::web::template::MarkdownHtml;

fn create(title: &str, body: &str) -> CreatePost {
    CreatePost {
        author: Author {
            fedi_addr: FediAddr { user: String::from("ann"), host: String::from("example.org") },
        },
        title: String::from(title),
        body: String::from(body),
    }
}

fn at(secs: i64, nanos: u32) -> DateTime {
    DateTime { secs, nanos }
}

#[test]
fn store_hands_back_what_was_asked_for() {
    let mut db = DevDb::default();
    let post = db.store(create("t", "b"), at(5, 1));
    assert_eq!(post.title, "t");
    assert_eq!(post.body, "b");
    assert_eq!(post.author.fedi_addr.format(), "@ann@example.org");
    assert_eq!(post.created_on, at(5, 1));
}

#[test]
fn store_never_stamps_a_post_before_the_last() {
    let mut db = DevDb::default();
    assert_eq!(db.store(create("a", ""), at(100, 5)).created_on, at(100, 5));
    assert_eq!(db.store(create("b", ""), at(99, 900)).created_on, at(100, 5));
    assert_eq!(db.store(create("c", ""), at(100, 4)).created_on, at(100, 5));
    assert_eq!(db.store(create("d", ""), at(100, 6)).created_on, at(100, 6));
    assert_eq!(db.store(create("e", ""), at(-3, 0)).created_on, at(100, 6));
    let titles: Vec<String> = db.newest().into_iter().map(|post| post.title).collect();
    assert_eq!(titles, ["e", "d", "c", "b", "a"]);
}

#[test]
fn listing_holds_the_newest_hundred() {
    let mut db = DevDb::default();
    for n in 0..130 {
        db.store(create(&n.to_string(), ""), at(n, 0));
    }
    let listed = db.posts().unwrap();
    assert_eq!(listed.len(), 100);
    assert_eq!(listed[0].title, "129");
    assert_eq!(listed[99].title, "30");
    for pair in listed.windows(2) {
        assert!(pair[1].created_on.not_after(&pair[0].created_on));
    }
}

#[test]
fn create_post_stamps_with_the_clock() {
    let mut db = DbConfig::default().init();
    assert!(db.posts().unwrap().is_empty());
    let before = DateTime::now();
    let post = db.create_post(create("now", "")).unwrap();
    let after = DateTime::now();
    assert!(before.not_after(&post.created_on));
    assert!(post.created_on.not_after(&after));
    assert!(post.created_on.secs > 1_600_000_000);
}

#[test]
fn times_compare_by_seconds_then_nanoseconds() {
    assert!(at(1, 999).not_after(&at(2, 0)));
    assert!(!at(2, 0).not_after(&at(1, 999)));
    assert!(at(2, 3).not_after(&at(2, 3)));
    assert!(at(2, 3).not_after(&at(2, 4)));
    assert!(!at(2, 4).not_after(&at(2, 3)));
    assert!(at(-5, 0).not_after(&at(-4, 0)));
    assert_eq!(at(1, 5).later(at(1, 6)), at(1, 6));
    assert_eq!(at(2, 0).later(at(1, 6)), at(2, 0));
    assert_eq!(DateTime::default(), at(0, 0));
}

#[test]
fn local_time_is_shifted_by_the_offset() {
    assert_eq!(TimeZone::default(), TimeZone(-7 * 3600));
    let local = at(100_000, 7).to_local(TimeZone::default());
    assert_eq!(local, LocalDateTime(at(100_000, 7), TimeZone(-25200)));
    assert_eq!(local.local_secs(), Some(74_800));
    assert_eq!(at(i64::MIN, 0).to_local(TimeZone(-1)).local_secs(), None);
    assert_eq!(at(i64::MAX, 0).to_local(TimeZone(1)).local_secs(), None);
    assert_eq!(at(i64::MAX, 0).to_local(TimeZone(0)).local_secs(), Some(i64::MAX));
}

#[test]
fn fedi_addr_is_written_with_two_ats() {
    let addr = FediAddr { user: String::from("ann"), host: String::from("example.org") };
    assert_eq!(addr.format(), "@ann@example.org");
    assert_eq!(FediAddr::default().format(), "@@");
    assert_eq!(addr.clone().format(), "@ann@example.org");
}

#[test]
fn body_size_counts_bytes() {
    assert_eq!(create("", "abc").body_size(), "3 B");
    assert_eq!(create("", &"x".repeat(1024)).body_size(), "1.0 kiB");
    assert_eq!(create("", &"x".repeat(1536)).body_size(), "1.5 kiB");
    assert_eq!(create("", "\u{e9}\u{e9}").body_size(), "4 B");
}

#[test]
fn community_post_shows_the_post_in_the_readers_zone() {
    let mut db = DevDb::default();
    let post = db.store(create("t", "b"), at(5, 1));
    let shown = CommunityPost::new(TimeZone(3600), post);
    assert_eq!(shown.user_tz, TimeZone(3600));
    assert_eq!(shown.title, "t");
    assert_eq!(shown.body, "b");
    assert_eq!(shown.created_on, at(5, 1));
    assert_eq!(shown.author.fedi_addr.format(), "@ann@example.org");
}

#[test]
fn community_posts_keep_their_order() {
    let mut db = DevDb::default();
    for n in 0..5 {
        db.store(create(&n.to_string(), ""), at(n, 0));
    }
    let shown = community_posts(TimeZone::default(), db.newest());
    let titles: Vec<&str> = shown.iter().map(|post| post.title.as_str()).collect();
    assert_eq!(titles, ["4", "3", "2", "1", "0"]);
    assert!(community_posts(TimeZone::default(), Vec::<Post>::new()).is_empty());
}

#[test]
fn fresh_identifiers_differ_and_sort_by_time() {
    let first = Uuid::new();
    let second = Uuid::new();
    assert_ne!(first, second);
    assert!(first < second);
    assert_ne!(RequestId::new(), RequestId::new());
    assert_ne!(UserId::new(), UserId::new());
    assert_eq!(Uuid::default(), Uuid(0));
    assert_eq!(UserId::default(), UserId(Uuid(0)));
    assert_eq!(first.0 >> 76 & 0xf, 7);
}

#[test]
fn fresh_identifiers_are_laid_out_as_version_seven() {
    let service = RequestIdLayer.layer(());
    let ids = [Uuid::new(), RequestId::new().0, UserId::new().0, service.next_id().0];
    for id in ids {
        assert_eq!(id.0 >> 76 & 0xf, 7);
        assert_eq!(id.0 >> 62 & 0x3, 2);
        assert_ne!(id, Uuid::default());
    }
}

#[test]
fn service_lists_what_the_store_lists() {
    let mut summit = summit::Summit::new(DevDb::default());
    assert!(summit.posts().unwrap().is_empty());
    for n in 0..103 {
        summit.create_post(create(&n.to_string(), "")).unwrap();
    }
    let listed = summit.posts().unwrap();
    let expected = summit.db.posts().unwrap();
    assert_eq!(listed.len(), 100);
    assert_eq!(listed[0].title, "102");
    assert_eq!(listed[99].title, "3");
    for (post, expected) in listed.iter().zip(expected.iter()) {
        assert_eq!(post.title, expected.title);
        assert_eq!(post.created_on, expected.created_on);
    }
}

#[test]
fn request_without_an_identifier_is_traced_under_the_default() {
    let id = RequestId(Uuid(42));
    assert_eq!(trace_id(Some(id)), id);
    assert_eq!(trace_id(None), RequestId::default());
}

#[test]
fn layer_wraps_the_service() {
    let service = RequestIdLayer.layer(5u8);
    assert_ne!(service.next_id(), service.next_id());
    assert_eq!(service.into_inner(), 5);
}

#[test]
fn markdown_html_holds_its_source() {
    let markdown = MarkdownHtml::from(String::from("# hi"));
    assert_eq!(markdown.0, "# hi");
}
