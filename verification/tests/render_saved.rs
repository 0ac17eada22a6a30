use rexit::cache::LookupCache;
use rexit::dedup::DedupLog;
use rexit::event::{classify, Classified, RawEvent};
use rexit::export::{export, export_saved, ExportFormat};
use rexit::media::{plan_fetch, FetchPlan, Image};
use rexit::model::{
    author_for, message_of, AllChats, Chat, Content, MediaOutcome, Message, Room, User,
};
use rexit::saved::{saved_post_of, saved_posts_of, RawSavedPost, SavedList};
use rexit::walker::{run_walk, FetchOutcome, WalkConfig, WalkStatus};

fn message(author: &str, ts_secs: i64, text: &str) -> Message {
    Message {
        author: author.to_string(),
        timestamp: ts_secs,
        content: Content::Text(text.to_string()),
    }
}

fn chat_with(id: &str, msgs: Vec<Message>) -> AllChats {
    let mut chat = Chat::new(id.to_string());
    chat.append_messages(msgs);
    let mut all = AllChats::new();
    all.merge_chat(chat);
    all
}

#[test]
fn txt_export_renders_exact_lines() {
    let all = chat_with(
        "!fTxOL9GzJaZR71aLRSYstHNVR5j:reddit.com",
        vec![
            message("rexitTest", 1431648000, "Testing"),
            message("other", 1431648001, "second"),
        ],
    );
    let files = export(ExportFormat::TXT, all);
    assert_eq!(files.len(), 1);
    assert_eq!(files[0].path, "messages/fTxOL9GzJ.txt");
    assert_eq!(
        files[0].contents,
        "[2015-05-15T00:00:00Z] rexitTest: Testing\n[2015-05-15T00:00:01Z] other: second\n"
    );
}

#[test]
fn csv_export_renders_header_and_rows() {
    let all = chat_with(
        "!aaaaaaaaaaaa:reddit.com",
        vec![message("rexitTest", 1431648000, "Testing")],
    );
    let files = export(ExportFormat::CSV, all);
    assert_eq!(files[0].path, "messages/aaaaaaaaa.csv");
    assert_eq!(
        files[0].contents,
        "timestamp, author, message \n2015-05-15T00:00:00Z, rexitTest, Testing,\n"
    );
}

#[test]
fn json_export_renders_exact_object() {
    let all = chat_with(
        "!aaaaaaaaaaaa:reddit.com",
        vec![
            message("A", 1431648000, "line\none"),
            Message {
                author: "B".to_string(),
                timestamp: 1431648001,
                content: Content::Media(Image::from(
                    "pic1".to_string(),
                    "png".to_string(),
                    vec![1, 2],
                )),
            },
        ],
    );
    let files = export(ExportFormat::JSON, all);
    assert_eq!(files[0].path, "messages/aaaaaaaaa.json");
    let mut expected = String::new();
    expected.push_str("{\"id\":\"!aaaaaaaaaaaa:reddit.com\",\"messages\":[");
    expected.push_str("{\"author\":\"A\",\"timestamp\":\"2015-05-15T00:00:00Z\",");
    expected.push_str("\"content\":{\"Text\":\"line\\none\"}},");
    expected.push_str("{\"author\":\"B\",\"timestamp\":\"2015-05-15T00:00:01Z\",");
    expected.push_str("\"content\":{\"Media\":{\"id\":\"pic1\",\"extension\":\"png\"}}}");
    expected.push_str("]}");
    assert_eq!(files[0].contents, expected);
}

#[test]
fn json_export_escapes_quotes_and_controls() {
    let all = chat_with(
        "!aaaaaaaaaaaa:reddit.com",
        vec![message("A", 0, "a\"b\\c\td\u{1}e")],
    );
    let files = export(ExportFormat::JSON, all);
    assert!(files[0]
        .contents
        .contains("{\"Text\":\"a\\\"b\\\\c\\td\\u0001e\"}"));
}

#[test]
fn media_messages_render_by_artifact_name() {
    let all = chat_with(
        "!aaaaaaaaaaaa:reddit.com",
        vec![Message {
            author: "A".to_string(),
            timestamp: 0,
            content: Content::Media(Image::from(
                "abc123".to_string(),
                "jpeg".to_string(),
                vec![],
            )),
        }],
    );
    let files = export(ExportFormat::TXT, all);
    assert_eq!(files[0].contents, "[1970-01-01T00:00:00Z] A: abc123.jpeg\n");
}

#[test]
fn saved_link_post_takes_link_title_and_decodes_previews() {
    let raw = RawSavedPost {
        link_title: Some("Da fehlt doch was".to_string()),
        title: Some("unused".to_string()),
        subreddit_name_prefixed: "r/hamburg".to_string(),
        permalink: "/r/hamburg/comments/134bv4v/da_fehlt_doch_was/".to_string(),
        selftext: "".to_string(),
        preview_urls: vec![
            "https://preview.redd.it/a.jpg?width=640&amp;s=051acd31351105e323c5d7a6".to_string(),
        ],
    };
    let post = saved_post_of(raw);
    assert_eq!(post.title, "Da fehlt doch was");
    assert_eq!(post.subreddit_name, "r/hamburg");
    assert_eq!(post.permalink, "/r/hamburg/comments/134bv4v/da_fehlt_doch_was/");
    assert_eq!(
        post.img_url,
        vec!["https://preview.redd.it/a.jpg?width=640&s=051acd31351105e323c5d7a6".to_string()]
    );
}

#[test]
fn saved_text_post_takes_its_own_title() {
    let raws = vec![RawSavedPost {
        link_title: None,
        title: Some("a text post".to_string()),
        subreddit_name_prefixed: "r/rust".to_string(),
        permalink: "/r/rust/comments/x/".to_string(),
        selftext: "body here".to_string(),
        preview_urls: vec![],
    }];
    let posts = saved_posts_of(raws);
    assert_eq!(posts.len(), 1);
    assert_eq!(posts[0].title, "a text post");
    assert_eq!(posts[0].body_text, "body here");
    assert!(posts[0].img_url.is_empty());
}

#[test]
fn saved_list_keeps_its_posts() {
    let post = saved_post_of(RawSavedPost {
        link_title: None,
        title: Some("t".to_string()),
        subreddit_name_prefixed: "r/x".to_string(),
        permalink: "/p".to_string(),
        selftext: "".to_string(),
        preview_urls: vec![],
    });
    let list = SavedList::new(vec![post]);
    assert_eq!(list.posts().len(), 1);
    assert_eq!(list.posts()[0].title, "t");
}

#[test]
fn room_hands_its_messages_out() {
    let room = Room::new(
        "!abc:reddit.com".to_string(),
        Some(vec![message("A", 1, "x"), message("B", 2, "y")]),
    );
    assert_eq!(room.id, "!abc:reddit.com");
    let msgs = room.messages();
    assert_eq!(msgs.len(), 2);
    assert_eq!(msgs[1].author, "B");
}

#[test]
fn user_carries_id_and_displayname() {
    let u = User {
        id: "@t2_9b09u6gps:reddit.com".to_string(),
        displayname: "rexitTest".to_string(),
    };
    assert_eq!(u.id, "@t2_9b09u6gps:reddit.com");
    assert_eq!(u.displayname, "rexitTest");
}

#[test]
fn two_pages_with_logged_media_yield_eight_messages_and_no_request() {
    let logged_url = "mxc://reddit.com/already".to_string();
    let log = DedupLog::from_lines(vec![logged_url.clone()]);
    let mut cache = LookupCache::new(16);

    let mk_text = |ts: i64, body: &str| RawEvent {
        event_type: "m.room.message".to_string(),
        sender: "@t2_9b09u6gps:reddit.com".to_string(),
        origin_server_ts: ts,
        body: Some(body.to_string()),
        url: None,
        msgtype: None,
    };
    let media = RawEvent {
        event_type: "m.room.message".to_string(),
        sender: "@t2_9b09u6gps:reddit.com".to_string(),
        origin_server_ts: 3000,
        body: None,
        url: Some(logged_url.clone()),
        msgtype: Some("m.image".to_string()),
    };
    let script = vec![
        FetchOutcome::Page {
            events: vec![
                mk_text(1000, "e1"),
                mk_text(2000, "e2"),
                media,
                mk_text(4000, "e4"),
                mk_text(5000, "e5"),
            ],
            end: "c1".to_string(),
        },
        FetchOutcome::Page {
            events: vec![mk_text(6000, "e6"), mk_text(7000, "e7"), mk_text(8000, "e8")],
            end: "t0_0".to_string(),
        },
    ];
    let cfg = WalkConfig { max_retries: 3, base_delay_ms: 100, cap_delay_ms: 60000 };
    let run = run_walk(script, &cfg);
    assert!(matches!(run.status, WalkStatus::Done));

    let mut requests_issued = 0;
    let mut chat = Chat::new("!abc:reddit.com".to_string());
    for event in &run.events {
        let classified = classify(event);
        let (sender, is_media, url) = match &classified {
            Classified::Skip { .. } => continue,
            Classified::TextMessage { author, .. } => (author.clone(), false, String::new()),
            Classified::MediaMessage { author, url, .. } => (author.clone(), true, url.clone()),
        };
        let resolved = match cache.display_name(&sender) {
            Some(name) => Some(name.clone()),
            None => {
                let name = "rexitTest".to_string();
                cache.remember_name(sender.clone(), name.clone());
                Some(name)
            }
        };
        let author = author_for(false, resolved);
        let outcome = if is_media {
            match plan_fetch(&url, &log, &cache) {
                FetchPlan::SkipLogged => Some(MediaOutcome::AlreadyLogged),
                FetchPlan::UseCached { img } => Some(MediaOutcome::Fetched { img }),
                FetchPlan::Get { .. } => {
                    requests_issued += 1;
                    Some(MediaOutcome::Failed)
                }
            }
        } else {
            None
        };
        if let Some(m) = message_of(classified, author, outcome) {
            chat.append_messages(vec![m]);
        }
    }

    assert_eq!(requests_issued, 0);
    assert_eq!(chat.messages.len(), 8);
    let room = Room::new(chat.id.clone(), Some(chat.messages));
    assert_eq!(room.messages().len(), 8);
}

#[test]
fn saved_posts_txt_renders_exact_line() {
    let post = saved_post_of(RawSavedPost {
        link_title: Some("Da fehlt doch was".to_string()),
        title: None,
        subreddit_name_prefixed: "r/hamburg".to_string(),
        permalink: "/r/hamburg/comments/134bv4v/da_fehlt_doch_was/".to_string(),
        selftext: "".to_string(),
        preview_urls: vec!["https://preview.redd.it/051acd31351105e323c5d7a6".to_string()],
    });
    let file = export_saved(ExportFormat::TXT, &vec![post]);
    assert_eq!(file.path, "saved_posts/saved_posts.txt");
    assert_eq!(
        file.contents,
        "Title: Da fehlt doch was, Subreddit: r/hamburg, Body:  \
         Permalink: /r/hamburg/comments/134bv4v/da_fehlt_doch_was/, \
         Images [\"https://preview.redd.it/051acd31351105e323c5d7a6\"]\n"
    );
}

#[test]
fn saved_posts_csv_renders_header_and_line() {
    let post = saved_post_of(RawSavedPost {
        link_title: None,
        title: Some("t1".to_string()),
        subreddit_name_prefixed: "r/x".to_string(),
        permalink: "/p1".to_string(),
        selftext: "b1".to_string(),
        preview_urls: vec![],
    });
    let file = export_saved(ExportFormat::CSV, &vec![post]);
    assert_eq!(file.path, "saved_posts/saved_posts.csv");
    assert_eq!(
        file.contents,
        "Title, Subreddit, Body, Permalink, Images\nt1, r/x, b1, /p1, []\n"
    );
}

#[test]
fn saved_posts_json_renders_exact_array() {
    let post = saved_post_of(RawSavedPost {
        link_title: None,
        title: Some("a \"quoted\" title".to_string()),
        subreddit_name_prefixed: "r/x".to_string(),
        permalink: "/p1".to_string(),
        selftext: "line\none".to_string(),
        preview_urls: vec!["https://a/i.png".to_string(), "https://b/j.png".to_string()],
    });
    let file = export_saved(ExportFormat::JSON, &vec![post]);
    assert_eq!(file.path, "saved_posts/saved_posts.json");
    let mut expected = String::new();
    expected.push_str("[{\"title\":\"a \\\"quoted\\\" title\",");
    expected.push_str("\"subreddit_name\":\"r/x\",\"permalink\":\"/p1\",");
    expected.push_str("\"img_url\":[\"https://a/i.png\",\"https://b/j.png\"],");
    expected.push_str("\"body_text\":\"line\\none\"}]");
    assert_eq!(file.contents, expected);
}

#[test]
fn saved_posts_render_empty_listing() {
    let file = export_saved(ExportFormat::JSON, &vec![]);
    assert_eq!(file.contents, "[]");
    let file = export_saved(ExportFormat::TXT, &vec![]);
    assert_eq!(file.contents, "");
    let file = export_saved(ExportFormat::CSV, &vec![]);
    assert_eq!(file.contents, "Title, Subreddit, Body, Permalink, Images\n");
}
