use peer_web::components::shop::checkout_popup::checkout_image;
use peer_web::components::view_post::comments::{
    avatar_or_placeholder, comment_to_send, profile_url, replies_label, CommentLike, PageCursor,
    COMMENTS_PER_PAGE,
};
use peer_web::components::view_post::post_actions::{report_action, save_label, PostReactions};
use peer_web::components::view_post::post_content::{
    format_time_ago, parse_post_timestamp, time_ago_from,
};
use peer_web::components::view_post::post_media::{gallery_next, gallery_prev, parse_media_urls};
use peer_web::models::post::{ContentType, Post, PostActionType, PostUser};
use peer_web::pages::view_post::{post_request, post_seo, records_view, PostRequest};

fn sample_post() -> Post {
    Post {
        id: "post-1".to_string(),
        contenttype: ContentType::Image,
        title: "Sunset".to_string(),
        media: Some("a.jpg".to_string()),
        cover: None,
        mediadescription: None,
        createdat: "2024-01-01T00:00:00Z".to_string(),
        amountlikes: 4,
        amountviews: 10,
        amountcomments: 2,
        amountdislikes: 1,
        amounttrending: None,
        isliked: false,
        isviewed: false,
        isdisliked: true,
        issaved: false,
        isreported: false,
        tags: None,
        has_active_reports: None,
        visibility_status: None,
        is_hidden_for_users: None,
        user: PostUser {
            id: "u1".to_string(),
            username: "alice".to_string(),
            slug: "alice".to_string(),
            img: None,
            isfollowed: false,
            isfollowing: false,
            isfriend: false,
        },
    }
}

#[test]
fn like_removes_dislike_and_counts_follow() {
    let mut r = PostReactions::from_post(&sample_post());
    assert!(r.disliked);
    assert_eq!(r.toggle_like(false), Some(PostActionType::Like));
    assert!(r.liked && !r.disliked);
    assert_eq!(r.like_count, 5);
    assert_eq!(r.dislike_count, 0);
    assert_eq!(r.toggle_like(false), Some(PostActionType::Unlike));
    assert!(!r.liked);
    assert_eq!(r.like_count, 4);
}

#[test]
fn dislike_removes_like() {
    let mut r = PostReactions {
        liked: true,
        disliked: false,
        saved: false,
        like_count: 1,
        dislike_count: 0,
    };
    assert_eq!(r.toggle_dislike(false), Some(PostActionType::Dislike));
    assert_eq!((r.liked, r.disliked, r.like_count, r.dislike_count), (false, true, 0, 1));
    assert_eq!(r.toggle_dislike(false), Some(PostActionType::Undislike));
    assert_eq!((r.disliked, r.dislike_count), (false, 0));
}

#[test]
fn counts_never_go_below_zero() {
    let mut r = PostReactions {
        liked: true,
        disliked: false,
        saved: false,
        like_count: 0,
        dislike_count: 0,
    };
    r.toggle_like(false);
    assert_eq!(r.like_count, 0);
}

#[test]
fn guests_change_nothing() {
    let mut r = PostReactions::from_post(&sample_post());
    let before = r;
    assert_eq!(r.toggle_like(true), None);
    assert_eq!(r.toggle_dislike(true), None);
    assert_eq!(r.toggle_save(true), None);
    assert_eq!(r, before);
    assert_eq!(report_action(true), None);
    assert_eq!(report_action(false), Some(PostActionType::Report));
}

#[test]
fn liking_twice_restores_the_post() {
    let mut r = PostReactions {
        liked: false,
        disliked: false,
        saved: true,
        like_count: 7,
        dislike_count: 2,
    };
    let before = r;
    r.toggle_like(false);
    r.toggle_like(false);
    assert_eq!(r, before);
}

#[test]
fn save_toggles() {
    let mut r = PostReactions::from_post(&sample_post());
    assert_eq!(r.toggle_save(false), Some(PostActionType::Save));
    assert!(r.saved);
    assert_eq!(save_label(r.saved), " Saved");
    assert_eq!(r.toggle_save(false), Some(PostActionType::Unsave));
    assert_eq!(save_label(r.saved), " Save");
}

#[test]
fn comment_paging() {
    let mut c = PageCursor::new();
    assert!(c.can_load_more());
    c.start_loading();
    assert!(!c.can_load_more());
    c.apply_page(10, 25, COMMENTS_PER_PAGE);
    assert_eq!(c.offset, 10);
    assert!(c.has_more);
    assert!(!c.is_loading);
    c.apply_page(10, 25, COMMENTS_PER_PAGE);
    assert_eq!(c.offset, 20);
    assert!(c.has_more);
    c.apply_page(5, 25, COMMENTS_PER_PAGE);
    assert_eq!(c.offset, 30);
    assert!(!c.has_more);
    let mut empty = PageCursor::new();
    empty.apply_page(0, 25, COMMENTS_PER_PAGE);
    assert_eq!(empty.offset, 0);
    assert!(!empty.has_more);
}

#[test]
fn comment_like_round_trip() {
    let mut c = CommentLike { liked: false, count: 3 };
    assert_eq!(c.toggle(false), Some(false));
    assert_eq!(c, CommentLike { liked: true, count: 4 });
    assert_eq!(c.toggle(false), Some(true));
    assert_eq!(c, CommentLike { liked: false, count: 3 });
    assert_eq!(c.toggle(true), None);
    assert_eq!(c, CommentLike { liked: false, count: 3 });
    let mut z = CommentLike { liked: true, count: 0 };
    z.toggle(false);
    assert_eq!(z, CommentLike { liked: false, count: 0 });
}

#[test]
fn comment_helpers() {
    assert_eq!(replies_label(true, 4), "Hide replies");
    assert_eq!(replies_label(false, 3), "Show 3 replies...");
    assert_eq!(replies_label(false, 0), "Show 0 replies...");
    assert_eq!(comment_to_send("  hello \n", false), Some("hello"));
    assert_eq!(comment_to_send("   ", false), None);
    assert_eq!(comment_to_send("hello", true), None);
    assert_eq!(avatar_or_placeholder(&None), "/svg/noname.svg");
    assert_eq!(avatar_or_placeholder(&Some("me.png".to_string())), "me.png");
    assert_eq!(profile_url("bob"), "/profile/bob");
}

#[test]
fn relative_times() {
    let ts = "2024-01-01T00:00:00Z";
    let then = Some((1_000_000i64, 0u32));
    assert_eq!(time_ago_from(ts, then, (1_000_030, 0)), "just now");
    assert_eq!(time_ago_from(ts, then, (1_000_000 + 5 * 60 + 1, 0)), "5 min ago");
    assert_eq!(time_ago_from(ts, then, (1_000_000 + 2 * 3600, 0)), "2 h ago");
    assert_eq!(time_ago_from(ts, then, (1_000_000 + 3 * 86400, 0)), "3 d ago");
    assert_eq!(time_ago_from(ts, then, (1_000_000 + 14 * 86400, 0)), "2 w ago");
    assert_eq!(time_ago_from(ts, then, (1_000_000 + 40 * 86400, 0)), "2024-01-01");
    assert_eq!(time_ago_from(ts, then, (999_000, 0)), "2024-01-01");
    assert_eq!(time_ago_from(ts, None, (1_000_000, 0)), "2024-01-01");
    assert_eq!(time_ago_from("short", None, (0, 0)), "short");
}

#[test]
fn relative_time_counts_whole_seconds() {
    let then = Some((100i64, 500_000_000u32));
    assert_eq!(time_ago_from("x", then, (160, 400_000_000)), "just now");
    assert_eq!(time_ago_from("x", then, (160, 500_000_000)), "1 min ago");
}

#[test]
fn post_timestamps_parse_as_utc() {
    assert_eq!(parse_post_timestamp("2024-01-01T00:00:00Z"), Some((1_704_067_200, 0)));
    assert_eq!(
        parse_post_timestamp("2024-01-01T00:00:00.5Z"),
        Some((1_704_067_200, 500_000_000))
    );
    assert_eq!(parse_post_timestamp("2024-01-01 00:00:01"), Some((1_704_067_201, 0)));
    assert_eq!(parse_post_timestamp("not a date"), None);
}

#[test]
fn old_posts_show_their_date() {
    assert_eq!(format_time_ago("2000-01-01T00:00:00Z"), "2000-01-01");
    assert_eq!(format_time_ago("garbage"), "garbage");
}

#[test]
fn media_urls() {
    assert_eq!(
        parse_media_urls(&Some("[\"a.jpg\",\"b.jpg\"]".to_string())),
        vec!["a.jpg".to_string(), "b.jpg".to_string()]
    );
    assert_eq!(
        parse_media_urls(&Some("a.jpg, b.jpg ,c.jpg".to_string())),
        vec!["a.jpg".to_string(), "b.jpg".to_string(), "c.jpg".to_string()]
    );
    assert_eq!(parse_media_urls(&Some("one.jpg".to_string())), vec!["one.jpg".to_string()]);
    assert_eq!(parse_media_urls(&Some("[broken".to_string())), vec!["[broken".to_string()]);
    assert!(parse_media_urls(&Some(String::new())).is_empty());
    assert!(parse_media_urls(&None).is_empty());
}

#[test]
fn gallery_arrows_wrap() {
    assert_eq!(gallery_prev(0, 3), 2);
    assert_eq!(gallery_prev(2, 3), 1);
    assert_eq!(gallery_next(2, 3), 0);
    assert_eq!(gallery_next(0, 3), 1);
    assert_eq!(gallery_next(0, 1), 0);
    assert_eq!(gallery_prev(0, 0), 0);
    for i in 0..4 {
        assert_eq!(gallery_prev(gallery_next(i, 4), 4), i);
        assert_eq!(gallery_next(gallery_prev(i, 4), 4), i);
    }
}

#[test]
fn post_page_requests() {
    assert_eq!(post_seo(&sample_post(), "https://peer.test").url, "https://peer.test/post/post-1");
    let seo = post_seo(&sample_post(), "");
    assert_eq!(seo.title, "Sunset - Peer Network");
    assert_eq!(seo.description, "Sunset");
    assert_eq!(seo.image, "a.jpg");
    let mut p = sample_post();
    p.media = None;
    p.mediadescription = Some("A view".to_string());
    let seo = post_seo(&p, "");
    assert_eq!(seo.image, "/svg/og-default.svg");
    assert_eq!(seo.description, "A view");
    assert_eq!(post_request("", true), PostRequest::MissingId);
    assert_eq!(post_request("post-1", true), PostRequest::Authenticated);
    assert_eq!(post_request("post-1", false), PostRequest::Guest);
    assert!(records_view(true, true, "post-1"));
    assert!(!records_view(false, true, "post-1"));
    assert!(!records_view(true, false, "post-1"));
    assert!(!records_view(true, true, ""));
}

#[test]
fn paging_restarts_on_filter_change() {
    let mut c = PageCursor::new();
    c.start_loading();
    c.apply_page(20, 100, 20);
    c.apply_page(20, 100, 20);
    assert_eq!(c.offset, 40);
    c.start_loading();
    c.record_error();
    assert_eq!(c.offset, 40);
    assert!(c.can_load_more());
    c.apply_page(0, 100, 20);
    assert!(!c.has_more);
    c.reset();
    assert_eq!(c.offset, 0);
    assert!(c.has_more);
    assert!(c.can_load_more());
}

#[test]
fn checkout_product_image() {
    let mut p = sample_post();
    p.media = Some("[{\"path\":\"img/1.jpg\"},{\"path\":\"img/2.jpg\"}]".to_string());
    assert_eq!(checkout_image(&p), "img/1.jpg");
    p.media = Some("[{\"other\":1}]".to_string());
    assert_eq!(checkout_image(&p), "");
    p.media = Some("[]".to_string());
    assert_eq!(checkout_image(&p), "");
    p.media = Some("plain.jpg".to_string());
    p.cover = Some("cover.jpg".to_string());
    assert_eq!(checkout_image(&p), "cover.jpg");
    p.cover = None;
    assert_eq!(checkout_image(&p), "plain.jpg");
    p.media = None;
    assert_eq!(checkout_image(&p), "");
}

#[test]
fn guest_clicks_at_counter_limits_change_nothing() {
    let mut r = PostReactions {
        liked: false,
        disliked: false,
        saved: false,
        like_count: i32::MAX,
        dislike_count: i32::MAX,
    };
    let before = r;
    assert_eq!(r.toggle_like(true), None);
    assert_eq!(r.toggle_dislike(true), None);
    assert_eq!(r, before);
    let mut liked = PostReactions { liked: true, ..before };
    assert_eq!(liked.toggle_like(false), Some(PostActionType::Unlike));
    assert_eq!(liked.like_count, i32::MAX - 1);
    let mut c = CommentLike { liked: false, count: i32::MAX };
    assert_eq!(c.toggle(true), None);
    let mut c2 = CommentLike { liked: true, count: i32::MAX };
    assert_eq!(c2.toggle(false), Some(true));
    assert_eq!(c2.count, i32::MAX - 1);
    assert_eq!(c, CommentLike { liked: false, count: i32::MAX });
}

#[test]
fn click_sequences_keep_reactions_consistent() {
    let mut r = PostReactions::from_post(&sample_post());
    let clicks = [true, false, false, true, true, false, true, true, false, false];
    for like in clicks {
        if like {
            r.toggle_like(false);
        } else {
            r.toggle_dislike(false);
        }
        assert!(!(r.liked && r.disliked));
        assert!(r.like_count >= 0 && r.dislike_count >= 0);
    }
}

#[test]
fn leap_seconds_count_as_chrono_counts_them() {
    let leap = parse_post_timestamp("2015-07-01T08:59:60.123");
    assert_eq!(leap, Some((1_435_741_199, 1_123_000_000)));
    assert_eq!(time_ago_from("x", leap, (1_435_741_259, 200_000_000)), "1 min ago");
    assert_eq!(time_ago_from("x", leap, (1_435_741_258, 200_000_000)), "just now");
    // Across midnight the leap second is not counted again.
    let midnight = parse_post_timestamp("2015-06-30T23:59:60.123");
    assert_eq!(midnight, Some((1_435_708_799, 1_123_000_000)));
    assert_eq!(time_ago_from("x", midnight, (1_435_708_859, 200_000_000)), "just now");
}
