use tuisky::actions::{AppAction, Transition, ViewAction, ViewKind};
use tuisky::app_state::{app_event, column_count, dispatch, terminal_event, AppEvent, Dispatch, MainState, TermInput};
use tuisky::column::{ColumnError, ColumnRoute, ColumnState};
use tuisky::config::{Bindings, ColumnAction, Config};
use tuisky::feed_view::{feed_key, feed_list_items, post_detail_lines, FeedItem, FeedViewState, Repost, ReplyTo};
use tuisky::keys::{Key, KeyCode, CONTROL, NONE};
use tuisky::menu::{trim_quote_chars, Menu};
use tuisky::post::{
    distinct_links, post_view_actions, Facet, FacetFeature, ImageView, PostAction, PostEmbed, PostRecord, PostView,
    RecordView, ViewRecord, Viewer,
};
use tuisky::post_rows::{counts, is_self_label, pad_left, post_table, post_view_rows, wrapped_lines, Row};
use tuisky::post_view::{quoted_post_view, quoted_record, shown_quoted, viewer_after_like, viewer_after_unlike, PostEffect, PostViewState};
use tuisky::profile::{name_with_handle_str, profile_name, profile_name_as_str, Label, ProfileBasic};
use tuisky::root::{root_list_items, FeedEntry, RootEffect, RootState};
use tuisky::spans::{Color, Line};

fn author(handle: &str, name: Option<&str>) -> ProfileBasic {
    ProfileBasic {
        did: format!("did:plc:{handle}"),
        handle: handle.to_string(),
        display_name: name.map(|s| s.to_string()),
        labels: Vec::new(),
    }
}

fn post(text: &str) -> PostView {
    PostView {
        uri: "at://did:plc:alice/app.bsky.feed.post/1".to_string(),
        cid: "cid1".to_string(),
        author: author("alice.test", Some("Alice")),
        indexed_at: "2024-01-01 00:00:00 +0000".to_string(),
        record: Some(PostRecord { text: text.to_string(), langs: None, facets: None }),
        embed: None,
        labels: None,
        reply_count: Some(1),
        repost_count: Some(0),
        quote_count: None,
        like_count: Some(5),
        viewer: None,
    }
}

fn line_text(l: &Line) -> String {
    l.spans.iter().map(|s| s.content.as_str()).collect()
}

#[test]
fn profile_names() {
    let a = author("bob.test", Some(""));
    assert_eq!(profile_name_as_str(&a), "bob.test");
    let b = author("bob.test", Some("Bob"));
    assert_eq!(profile_name_as_str(&b), "Bob");
    let spans = profile_name(&b);
    let texts: Vec<&str> = spans.iter().map(|s| s.content.as_str()).collect();
    assert_eq!(texts, vec!["Bob", " ", "@bob.test"]);
    assert!(spans[0].style.bold);
    assert_eq!(spans[2].style.fg, Some(Color::Gray));
    let spans = profile_name(&a);
    assert_eq!(spans.len(), 1);
    assert_eq!(spans[0].content, "@bob.test");
    assert_eq!(name_with_handle_str(&Some(String::new()), "x.test"), " (@x.test)");
    assert_eq!(name_with_handle_str(&None, "x.test"), "@x.test");
}

#[test]
fn post_actions_and_links() {
    let mut p = post("hello");
    p.record = Some(PostRecord {
        text: "hello".to_string(),
        langs: None,
        facets: Some(vec![
            Facet { byte_start: 0, byte_end: 5, features: vec![FacetFeature::Link("https://a.example".to_string())] },
            Facet {
                byte_start: 6,
                byte_end: 9,
                features: vec![
                    FacetFeature::Tag("t".to_string()),
                    FacetFeature::Link("https://b.example".to_string()),
                    FacetFeature::Link("https://a.example".to_string()),
                ],
            },
        ]),
    });
    p.embed = Some(PostEmbed::Images(vec![
        ImageView { alt: "x".to_string(), fullsize: "https://img.example/1".to_string() },
        ImageView { alt: "y".to_string(), fullsize: "https://b.example".to_string() },
    ]));
    assert_eq!(distinct_links(&p), vec!["https://a.example", "https://b.example", "https://img.example/1"]);
    let actions = post_view_actions(&p, &None);
    assert_eq!(actions.len(), 7);
    assert!(matches!(actions[3], PostAction::Like));
    assert!(matches!(&actions[4], PostAction::Open(u) if u == "https://a.example"));
    // the author sees Delete
    let actions = post_view_actions(&p, &Some("did:plc:alice.test".to_string()));
    assert!(matches!(actions[4], PostAction::Delete));
    // a liked post offers Unlike
    p.viewer = Some(Viewer { like: Some("at://like/1".to_string()), repost: None });
    let actions = post_view_actions(&p, &None);
    assert!(matches!(&actions[3], PostAction::Unlike(u) if u == "at://like/1"));
}

#[test]
fn post_view_selection_and_likes() {
    let mut state = PostViewState::new(post("hi"), None, None);
    assert_eq!(state.actions.len(), 4);
    state.update(ViewAction::PrevItem);
    assert_eq!(state.selected, Some(0));
    state.update(ViewAction::PrevItem);
    assert_eq!(state.selected, Some(3));
    state.update(ViewAction::NextItem);
    assert_eq!(state.selected, Some(0));
    state.update(ViewAction::PrevItem);
    let step = state.update(ViewAction::Enter);
    assert!(matches!(step.effect, PostEffect::Like));
    // the like arrives: one more like, and Unlike is offered
    let liked = viewer_after_like(&state.post.viewer, "at://like/9".to_string());
    state.viewer_updated(Some(liked));
    assert_eq!(state.post.like_count, Some(6));
    assert!(matches!(&state.actions[3], PostAction::Unlike(u) if u == "at://like/9"));
    let step = state.update(ViewAction::Enter);
    assert!(matches!(step.effect, PostEffect::Unlike(ref u) if u == "at://like/9"));
    // unliking restores the count
    let unliked = viewer_after_unlike(&state.post.viewer);
    state.viewer_updated(unliked);
    assert_eq!(state.post.like_count, Some(5));
    assert!(matches!(state.actions[3], PostAction::Like));
    let step = state.update(ViewAction::Back);
    assert_eq!(step.reply, Some(ViewAction::Transition(Transition::Pop)));
    let step = state.update(ViewAction::Refresh);
    assert!(matches!(step.effect, PostEffect::Refresh));
}

#[test]
fn quoted_post_is_shown() {
    let mut p = post("quoting");
    p.embed = Some(PostEmbed::Record(RecordView::Post(ViewRecord {
        uri: "at://did:plc:bob/app.bsky.feed.post/2".to_string(),
        cid: "cid2".to_string(),
        author: author("bob.test", None),
        indexed_at: "t".to_string(),
        value: Some(PostRecord { text: "quoted".to_string(), langs: None, facets: None }),
        labels: None,
        like_count: Some(2),
        reply_count: None,
        repost_count: None,
    })));
    let mut state = PostViewState::new(p.clone(), None, None);
    assert!(matches!(state.actions[4], PostAction::ViewRecord));
    for _ in 0..5 {
        state.update(ViewAction::NextItem);
    }
    let step = state.update(ViewAction::Enter);
    assert_eq!(step.reply, Some(ViewAction::Transition(Transition::Push(ViewKind::Post))));
    let shown = shown_quoted(p.clone()).expect("a quoted post");
    assert_eq!(shown.cid, "cid2");
    assert!(shown.embed.is_none());
    assert!(shown_quoted(post("plain")).is_none());
    let quoted = quoted_post_view(quoted_record(p).expect("quoted"));
    assert_eq!(quoted.cid, "cid2");
    assert!(quoted.embed.is_none());
    assert_eq!(quoted.like_count, Some(2));
}

#[test]
fn post_view_keeps_selection_until_drawn() {
    let mut p = post("quoting");
    p.embed = Some(PostEmbed::Record(RecordView::Post(ViewRecord {
        uri: "at://did:plc:bob/app.bsky.feed.post/2".to_string(),
        cid: "cid2".to_string(),
        author: author("bob.test", None),
        indexed_at: "t".to_string(),
        value: Some(PostRecord { text: "quoted".to_string(), langs: None, facets: None }),
        labels: None,
        like_count: None,
        reply_count: None,
        repost_count: None,
    })));
    let mut state = PostViewState::new(p, None, None);
    for _ in 0..5 {
        state.update(ViewAction::NextItem);
    }
    assert_eq!(state.selected, Some(4));
    // the fresh thread no longer quotes: four actions, the selection kept
    state.thread_updated(post("plain"), None);
    assert_eq!(state.actions.len(), 4);
    assert_eq!(state.selected, Some(4));
    let step = state.update(ViewAction::Enter);
    assert!(step.reply.is_none() && matches!(step.effect, PostEffect::Nothing));
    state.drawn(true);
    assert_eq!(state.selected, Some(4));
    state.drawn(false);
    assert_eq!(state.selected, Some(3));
    // the viewer state changes the like count and the viewer only
    state.viewer_updated(Some(viewer_after_like(&None, "at://like/1".to_string())));
    assert_eq!(state.post.like_count, Some(6));
    assert_eq!(state.post.reply_count, Some(1));
    assert_eq!(state.post.repost_count, Some(0));
    assert_eq!(state.post.indexed_at, "2024-01-01 00:00:00 +0000");
}

#[test]
fn post_rows_and_counts() {
    let mut p = post("one two three");
    p.author.labels = vec![
        Label { val: "bot".to_string(), uri: "did:plc:alice/self".to_string(), src: "did:plc:alice".to_string() },
        Label { val: "spam".to_string(), uri: "at://x/y".to_string(), src: "did:plc:mod".to_string() },
    ];
    let rows = post_view_rows(&p, 7).expect("a post");
    let labels: Vec<String> = rows
        .iter()
        .map(|r| match r {
            Row::Field { label, .. } => label.clone(),
            Row::Banner(b) => b.clone(),
        })
        .collect();
    assert_eq!(labels, vec!["CID:", "IndexedAt:", "Author:", "Counts:", "Text:"]);
    if let Row::Field { lines, .. } = &rows[2] {
        let texts: Vec<String> = lines.iter().map(line_text).collect();
        assert_eq!(texts, vec!["alice.test", "Alice", "bot", "spam by did:plc:mod"]);
    }
    if let Row::Field { lines, .. } = &rows[4] {
        let texts: Vec<String> = lines.iter().map(line_text).collect();
        assert_eq!(texts, vec!["one two", "three"]);
    }
    let c: String = counts(&p, 3).iter().map(|s| s.content.as_str()).collect();
    assert_eq!(c, "  1 replies,   0 reposts,   0 quotes,   5 likes");
    assert_eq!(pad_left("-5".to_string(), 4), "  -5");
    assert!(is_self_label("at://x/self"));
    assert!(!is_self_label("self"));
    let mut q = post("no");
    q.record = None;
    assert!(post_view_rows(&q, 10).is_none());
    let (table, selected) = post_table(&p, &Some(post("parent")), 20);
    assert_eq!(selected, 7);
    assert!(matches!(&table[0], Row::Banner(b) if b == " Reply to"));
    assert_eq!(table.len(), 12);
}

#[test]
fn wrapping_breaks_lines() {
    let lines = wrapped_lines("aaa bbb", 3);
    let texts: Vec<String> = lines.iter().map(line_text).collect();
    assert_eq!(texts, vec!["aaa", "bbb"]);
}

#[test]
fn feed_list_and_keys() {
    let items = vec![
        FeedItem { post: post("first"), repost: None, reply: None },
        FeedItem {
            post: post("second"),
            repost: Some(Repost { by: author("carol.test", None), indexed_at: "t".to_string() }),
            reply: Some(ReplyTo::Other),
        },
    ];
    let list = feed_list_items(&items, 40);
    assert_eq!(list.len(), 2);
    // newest last in the items, first in the list
    assert_eq!(line_text(&list[0][1]), "  Reposted by carol.test");
    assert_eq!(line_text(&list[0][2]), "  second");
    assert_eq!(line_text(list[1].last().unwrap()), "  1 replies, 0 reposts, 5 likes");
    assert_eq!(feed_key(&Key(KeyCode::Char('n'), CONTROL)), Some(ViewAction::NextItem));
    assert_eq!(feed_key(&Key(KeyCode::Up, NONE)), Some(ViewAction::PrevItem));
    assert_eq!(feed_key(&Key(KeyCode::Up, CONTROL)), None);
    let mut state = FeedViewState::new();
    assert_eq!(state.update(ViewAction::NextItem), None);
    state.items_updated(items);
    state.update(ViewAction::NextItem);
    state.update(ViewAction::NextItem);
    state.update(ViewAction::NextItem);
    assert_eq!(state.selected, Some(1));
    let detail = post_detail_lines(&state.items[1]);
    let texts: Vec<String> = detail.iter().map(line_text).collect();
    assert_eq!(texts[0], "CID: cid1");
    assert!(texts.contains(&"  By: @carol.test".to_string()));
    assert!(texts.contains(&"Reply To: ".to_string()));
    assert_eq!(texts.last().unwrap(), "Text: ");
}

#[test]
fn root_navigation() {
    let mut root = RootState::new();
    assert_eq!(root.update(ViewAction::NextItem).0, None);
    root.entries_updated(vec![FeedEntry::Timeline, FeedEntry::Timeline]);
    assert_eq!(root.selected, Some(0));
    root.update(ViewAction::NextItem);
    root.update(ViewAction::NextItem);
    root.update(ViewAction::NextItem);
    assert_eq!(root.selected, Some(2));
    assert_eq!(root.update(ViewAction::Enter), (Some(ViewAction::Logout), RootEffect::Deactivate));
    root.update(ViewAction::PrevItem);
    assert_eq!(
        root.update(ViewAction::Enter),
        (Some(ViewAction::Transition(Transition::Push(ViewKind::Feed))), RootEffect::OpenFeed(1))
    );
    root.entries_updated(Vec::new());
    assert_eq!(root.selected, Some(1));
    root.drawn(true);
    assert_eq!(root.selected, Some(1));
    root.drawn(false);
    assert_eq!(root.selected, None);
    let list = root_list_items(&vec![FeedEntry::Timeline]);
    assert_eq!(list.len(), 2);
    assert_eq!(line_text(&list[0][0]), "[timeline] Following");
    assert_eq!(line_text(&list[1][0]), "Sign out");
    assert_eq!(list[1][0].style.fg, Some(Color::Red));
}

#[test]
fn menu_labels_and_moves() {
    let mut column: Bindings<ColumnAction> = Bindings::new();
    column.bind(Key(KeyCode::Char('r'), CONTROL), ColumnAction::Refresh);
    column.bind(Key(KeyCode::Char('"'), NONE), ColumnAction::Refresh);
    column.bind(Key(KeyCode::Backspace, NONE), ColumnAction::Back);
    let mut menu = Menu::new(&column);
    assert!(menu.new_post_keys.is_empty());
    // keys in key order: unmodified before Ctrl; a quote is escaped as JSON writes it
    assert_eq!(menu.refresh_keys, vec!["\\", "Ctrl-r"]);
    assert_eq!(menu.back_keys, vec!["Backspace"]);
    assert_eq!(trim_quote_chars("\"\"ab\"\""), "ab");
    menu.update(ViewAction::PrevItem);
    assert_eq!(menu.selected, 0);
    menu.update(ViewAction::NextItem);
    assert_eq!(menu.update(ViewAction::Enter), (Some(ViewAction::Menu), Some(ViewAction::Refresh)));
    assert_eq!(menu.update(ViewAction::Render), (None, None));
    assert_eq!(menu.update(ViewAction::Back), (Some(ViewAction::Menu), None));
}

#[test]
fn column_transitions() {
    let mut column = ColumnState::new(7);
    assert_eq!(column.title(), " id: 7 ");
    column.init();
    assert_eq!(column.views, vec![ViewKind::Login]);
    assert!(matches!(column.transition(Transition::Push(ViewKind::Feed)), Err(ColumnError::WatcherMissing)));
    assert!(matches!(column.signed_in_with_agent(), Some(AppAction::Render)));
    assert_eq!(column.views, vec![ViewKind::Root]);
    column.transition(Transition::Push(ViewKind::Feed)).expect("signed in");
    column.transition(Transition::Pop).expect("pop");
    assert_eq!(column.views, vec![ViewKind::Root]);
    assert!(matches!(column.route(ViewAction::NewPost), ColumnRoute::Answer(Some(AppAction::Render))));
    assert_eq!(column.views, vec![ViewKind::Root, ViewKind::NewPost]);
    assert!(matches!(column.route(ViewAction::NewPost), ColumnRoute::View));
    assert!(matches!(column.route(ViewAction::Menu), ColumnRoute::Answer(_)));
    assert!(matches!(column.route(ViewAction::Enter), ColumnRoute::Menu));
    assert!(column.menu_active);
    assert!(matches!(column.route(ViewAction::Menu), ColumnRoute::Answer(_)));
    assert!(!column.menu_active);
    assert_eq!(column.views, vec![ViewKind::Root, ViewKind::NewPost]);
    column.view_answered(Some(ViewAction::Logout)).expect("logout");
    assert_eq!(column.views, vec![ViewKind::Login]);
    assert!(!column.signed_in);
    // without a session a replacement removes the top view, then fails
    assert!(matches!(column.transition(Transition::Replace(ViewKind::Root)), Err(ColumnError::WatcherMissing)));
    assert!(column.views.is_empty());
    column.handle = Some("me.test".to_string());
    assert_eq!(column.title(), " me.test ");
    assert!(matches!(column.key_action(None, Some(ViewAction::Back)), Some(AppAction::View(7, ViewAction::Back))));
}

#[test]
fn column_takes_actions_addressed_to_it() {
    let mut column = ColumnState::new(3);
    column.init();
    assert_eq!(column.addressed(&AppAction::View(3, ViewAction::Enter)), Some(ViewAction::Enter));
    assert_eq!(column.addressed(&AppAction::View(4, ViewAction::Enter)), None);
    assert_eq!(column.addressed(&AppAction::Quit), None);
    assert!(column.update(&AppAction::View(4, ViewAction::Menu)).is_none());
    // before signing in the menu does not open
    assert!(matches!(column.update(&AppAction::View(3, ViewAction::Menu)), Some(ColumnRoute::View)));
    assert!(!column.menu_active);
    column.signed_in_with_agent();
    assert!(matches!(column.update(&AppAction::View(3, ViewAction::Menu)), Some(ColumnRoute::Answer(Some(AppAction::Render)))));
    assert!(column.menu_active);
    assert!(matches!(column.update(&AppAction::View(3, ViewAction::Menu)), Some(ColumnRoute::Answer(Some(AppAction::Render)))));
    assert!(!column.menu_active);
    assert_eq!(column.views, vec![ViewKind::Root]);
}

#[test]
fn main_focus_and_dispatch() {
    assert_eq!(column_count(200, None), 2);
    assert_eq!(column_count(250, Some(1)), 1);
    assert_eq!(column_count(79, Some(4)), 0);
    let mut main = MainState::new(3);
    assert_eq!(main.selected, Some(0));
    main.prev_focus();
    assert_eq!(main.selected, Some(2));
    main.next_focus();
    assert_eq!(main.selected, Some(0));
    assert_eq!(MainState::new(0).selected, None);
    assert_eq!(dispatch(&AppAction::Tick(120)), Dispatch::Tick { save: true });
    assert_eq!(dispatch(&AppAction::Tick(7)), Dispatch::Tick { save: false });
    assert_eq!(dispatch(&AppAction::Quit), Dispatch::Quit);
    assert_eq!(dispatch(&AppAction::Render), Dispatch::Draw);
    let mut config = Config::default_config();
    config.set_default_keybindings();
    assert!(matches!(
        app_event(AppEvent::Key(Key(KeyCode::Char('q'), CONTROL)), &config.keybindings),
        Some(AppAction::Quit)
    ));
    assert!(app_event(AppEvent::Key(Key(KeyCode::Char('q'), NONE)), &config.keybindings).is_none());
    assert_eq!(terminal_event(TermInput::Key { key: Key(KeyCode::Enter, NONE), released: true }), None);
    assert_eq!(terminal_event(TermInput::Mouse), Some(AppEvent::Mouse));
}
