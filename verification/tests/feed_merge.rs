use tuisky::feed::{update_feeds, FeedMap, FeedViewPost, PostInfo, Reason};

fn feed_view_post(cid: &str, reason_indexed_at: Option<i64>) -> FeedViewPost {
    FeedViewPost {
        post: PostInfo {
            cid: cid.to_string(),
            author_did: "did:fake:post.test".to_string(),
            like_count: None,
            embed: None,
            source: 0,
        },
        reason: reason_indexed_at.map(|indexed_at| Reason::Repost { indexed_at }),
        reply: None,
        source: 0,
    }
}

#[test]
fn update_feed_views() {
    let cids = [
        "bafyreidfayvfuwqa7qlnopdjiqrxzs6blmoeu4rujcjtnci5beludirz2a",
        "bafyreidfayvfuwqa7qlnopdjiqrxzs6blmoeu4rujcjtnci5beludirz3a",
        "bafyreidfayvfuwqa7qlnopdjiqrxzs6blmoeu4rujcjtnci5beludirz4a",
    ];
    // repost times, increasing as successive calls of "now" would be
    let mut now: i64 = 1_700_000_000_000_000_000;
    let mut tick = || {
        now += 1;
        now
    };
    let mut feed_map = FeedMap::new();
    // Empty feeds
    update_feeds(&Vec::new(), &mut feed_map);
    assert_eq!(feed_map.len(), 0);
    // New feed
    update_feeds(&[feed_view_post(cids[0], None)], &mut feed_map);
    assert_eq!(feed_map.len(), 1);
    // Duplicate feed
    update_feeds(&[feed_view_post(cids[0], None)], &mut feed_map);
    assert_eq!(feed_map.len(), 1);
    // Duplicated and new feed
    update_feeds(
        &[feed_view_post(cids[0], None), feed_view_post(cids[1], None)],
        &mut feed_map,
    );
    assert_eq!(feed_map.len(), 2);
    assert_eq!(feed_map.get(0).post.cid, cids[0]);
    assert_eq!(feed_map.get(1).post.cid, cids[1]);
    // New and duplicated feed
    update_feeds(
        &[feed_view_post(cids[2], None), feed_view_post(cids[1], None)],
        &mut feed_map,
    );
    assert_eq!(feed_map.len(), 3);
    assert_eq!(feed_map.get(0).post.cid, cids[0]);
    assert_eq!(feed_map.get(1).post.cid, cids[1]);
    assert_eq!(feed_map.get(2).post.cid, cids[2]);
    // Duplicated, but updated feed
    update_feeds(
        &[feed_view_post(cids[1], Some(tick())), feed_view_post(cids[2], None)],
        &mut feed_map,
    );
    assert_eq!(feed_map.len(), 3);
    assert_eq!(feed_map.get(0).post.cid, cids[0]);
    assert_eq!(feed_map.get(1).post.cid, cids[2]);
    assert_eq!(feed_map.get(2).post.cid, cids[1]);
    assert!(feed_map.get(0).reason.is_none());
    assert!(feed_map.get(1).reason.is_none());
    assert!(feed_map.get(2).reason.is_some());
    // Duplicated, but updated feed
    update_feeds(
        &[feed_view_post(cids[0], Some(tick())), feed_view_post(cids[1], Some(tick()))],
        &mut feed_map,
    );
    assert_eq!(feed_map.len(), 3);
    assert_eq!(feed_map.get(1).post.cid, cids[2]);
    assert_eq!(feed_map.get(0).post.cid, cids[0]);
    assert_eq!(feed_map.get(2).post.cid, cids[1]);
    assert!(feed_map.get(0).reason.is_some());
    assert!(feed_map.get(1).reason.is_none());
    assert!(feed_map.get(2).reason.is_some());
}

#[test]
fn update_feeds_is_idempotent_on_concrete_values() {
    let mut feed_map = FeedMap::new();
    let feed = [
        feed_view_post("a", None),
        feed_view_post("b", Some(5)),
        feed_view_post("c", None),
    ];
    update_feeds(&feed, &mut feed_map);
    let once: Vec<String> = (0..feed_map.len()).map(|i| feed_map.get(i).post.cid.clone()).collect();
    update_feeds(&feed, &mut feed_map);
    let twice: Vec<String> = (0..feed_map.len()).map(|i| feed_map.get(i).post.cid.clone()).collect();
    assert_eq!(once, vec!["a", "b", "c"]);
    assert_eq!(once, twice);
}

#[test]
fn older_repost_keeps_place() {
    let mut feed_map = FeedMap::new();
    update_feeds(&[feed_view_post("a", Some(10)), feed_view_post("b", None)], &mut feed_map);
    // an older repost of "a" does not move it
    update_feeds(&[feed_view_post("a", Some(3))], &mut feed_map);
    assert_eq!(feed_map.get(0).post.cid, "a");
    assert!(matches!(feed_map.get(0).reason, Some(Reason::Repost { indexed_at: 10 })));
    // a newer one moves it to the end, the last item taking its place
    update_feeds(&[feed_view_post("a", Some(20))], &mut feed_map);
    assert_eq!(feed_map.get(0).post.cid, "b");
    assert_eq!(feed_map.get(1).post.cid, "a");
}
