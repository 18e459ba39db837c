use fake::Fake;
use rand::rngs::StdRng;
use rand::seq::SliceRandom;
use rand::SeedableRng;
use summit::cli::CliConfig;
use summit::dev::db::DevDb;
use summit::dev::fake::text::locale::{Locale, Sent, SentFrag, SENT_WORDS_END};
use summit::dev::fake::FakeConfig;
use summit::hub::StreamPoll;
use summit::rng::draw_in_range;
use summit::uuid::base32_nowords::BASE32_NOWORDS;
use summit::uuid::{RequestId, UserId, Uuid};
use summit::web::handler::static_assets::{
    serve_asset, Asset, StaticAssets, STATUS_NOT_FOUND, STATUS_OK, TEXT_PLAIN,
};
use summit::web::template::MarkdownHtml;
use summit::web::ServeConfig;
use summit::{Summit, User};

fn sent(seed: u64) -> String {
    let mut rng = StdRng::seed_from_u64(seed);
    let sent = Sent(Locale::En);
    let mut draft = sent.start();
    while !draft.is_done() {
        sent.step(&mut draft, &mut rng);
    }
    sent.finish(draft)
}

#[test]
fn loose_sentence_is_runs_of_words_and_marks() {
    for seed in 0..40u64 {
        let mut theirs = StdRng::seed_from_u64(seed);
        let mut expected = String::new();
        let mut count = 0;
        let mut after_word = false;
        while count < 14 {
            let index: usize = (0..2).fake_with_rng(&mut theirs);
            let is_punc = index != 0;
            if after_word && is_punc {
                expected.push_str([".", ",", ";", ":", "!"].choose(&mut theirs).unwrap());
            } else {
                if count > 0 {
                    expected.push(' ');
                }
                let words: Vec<String> =
                    fake::faker::lorem::en::Words(0..14).fake_with_rng(&mut theirs);
                count += words.len();
                expected.push_str(&words.join(" "));
            }
            after_word = !is_punc;
        }
        expected.push('.');
        assert_eq!(sent(seed), expected);
    }
}

#[test]
fn loose_sentence_starts_empty_and_ends_with_a_full_stop() {
    let sent = Sent(Locale::EnBob);
    let draft = sent.start();
    assert_eq!(draft.buf, "");
    assert_eq!(draft.words, 0);
    assert_eq!(draft.prev_frag, SentFrag::Punc);
    assert!(!draft.is_done());
    assert_eq!(sent.finish(draft), ".");
    assert_eq!(SENT_WORDS_END, 14);
}

#[test]
fn range_draw_is_the_draw_of_fake() {
    for seed in 0..50u64 {
        let mut ours = StdRng::seed_from_u64(seed);
        let mut theirs = StdRng::seed_from_u64(seed);
        let expected: u64 = (3u64..977).fake_with_rng(&mut theirs);
        assert_eq!(draw_in_range(&mut ours, 3, 977) as u64, expected);
        assert_eq!(draw_in_range(&mut ours, 5, 6), 5);
        let _: u64 = (5u64..6).fake_with_rng(&mut theirs);
        assert_eq!(ours, theirs);
    }
}

#[test]
fn identifier_is_written_in_the_alphabet_without_words() {
    assert_eq!(BASE32_NOWORDS, "2689bdfghjkmpqwxyzBDFGHJKMPQWXYZ");
    assert_eq!(Uuid(0).encode(), "2".repeat(26));
    assert_eq!(Uuid(u128::MAX).encode(), format!("{}W", "Z".repeat(25)));
    assert_eq!(Uuid(1).encode(), format!("{}b", "2".repeat(25)));
    assert_eq!(Uuid(1 << 123).encode(), format!("6{}", "2".repeat(25)));
}

#[test]
fn identifier_text_is_that_of_data_encoding() {
    let mut specification = data_encoding::Specification::new();
    specification.symbols.push_str(BASE32_NOWORDS);
    let encoding = specification.encoding().unwrap();
    for _ in 0..20 {
        let id = Uuid::new();
        assert_eq!(id.encode(), encoding.encode(&id.0.to_be_bytes()));
    }
}

#[test]
fn markdown_becomes_html() {
    assert_eq!(MarkdownHtml(String::from("# hi")).render(), "<h1>hi</h1>\n");
    assert_eq!(
        MarkdownHtml(String::from("a **bold** _word_")).render(),
        "<p>a <strong>bold</strong> <em>word</em></p>\n"
    );
    assert_eq!(MarkdownHtml(String::new()).render(), "");
}

#[test]
fn asset_is_served_by_its_path() {
    let mut assets = StaticAssets::new();
    assets.insert(Asset { path: "style.css", content_type: "text/css", body: b"body {}" });
    assets.insert(Asset { path: "app.js", content_type: "text/javascript", body: b"1" });
    let response = serve_asset(&assets, "style.css");
    assert_eq!(response.status, STATUS_OK);
    assert_eq!(response.status, 200);
    assert_eq!(response.content_type, "text/css");
    assert_eq!(response.body, b"body {}");
    assert_eq!(assets.get("app.js").unwrap().body, b"1");
}

#[test]
fn missing_asset_is_not_found() {
    let mut assets = StaticAssets::new();
    assert!(assets.get("style.css").is_none());
    assets.insert(Asset { path: "style.css", content_type: "text/css", body: b"" });
    let response = serve_asset(&assets, "style.cs");
    assert_eq!(response.status, STATUS_NOT_FOUND);
    assert_eq!(response.status, 404);
    assert_eq!(response.content_type, TEXT_PLAIN);
    assert!(response.body.is_empty());
}

#[test]
fn later_asset_replaces_an_earlier_one() {
    let mut assets = StaticAssets::new();
    assets.insert(Asset { path: "a", content_type: "text/css", body: b"old" });
    assets.insert(Asset { path: "b", content_type: "text/css", body: b"other" });
    assets.insert(Asset { path: "a", content_type: "text/plain", body: b"new" });
    let found = assets.get("a").unwrap();
    assert_eq!(found.content_type, "text/plain");
    assert_eq!(found.body, b"new");
    assert_eq!(assets.get("b").unwrap().body, b"other");
}

#[test]
fn user_without_a_request_gets_the_default_stream() {
    let mut summit = Summit::new(DevDb::default());
    let user = UserId(Uuid(9));
    let handle = summit.user_events(user);
    assert_eq!(summit.user_events(user), handle);
    assert_eq!(summit.open_event_stream(user, RequestId::default()), handle);
    assert_ne!(summit.open_event_stream(user, RequestId(Uuid(1))), handle);
    assert!(matches!(summit.hub.next_event(handle), StreamPoll::Empty));
}

#[test]
fn configurations_start_empty() {
    let config = CliConfig::default();
    assert_eq!(config.serve.host, "");
    assert_eq!(config.serve.port, 0);
    assert_eq!(config.fake, FakeConfig::default().user);
    let serve = ServeConfig::default();
    assert_eq!(serve.port, 0);
    let user = User { time_zone: summit::date_time::TimeZone::default() };
    assert_eq!(user.time_zone.0, -25200);
}
