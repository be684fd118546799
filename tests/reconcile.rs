use update_users::reconcile::{Action, Event, Reconciler};
use update_users::record::{
    has_changes, update_user_data, update_user_status_only, verified_int, ChannelData, RawChannel,
    User, Video,
};
use update_users::status::{classify_error, classify_lowered, contains_text, StatusCode};
use update_users::videos::{
    sort_newest_first, uploads_playlist_id, video_from_details, VideoDetails, VideoPager,
    PAGE_SIZE,
};

fn user(channel_id: Option<&str>) -> User {
    User {
        avatar_url: Some("https://img/a.png".to_string()),
        channel_id: channel_id.map(|c| c.to_string()),
        confirmed: 1,
        country: Some("US".to_string()),
        created_at_bits: Some(1_700_000_000.5f64.to_bits()),
        description: Some("about".to_string()),
        display_name: Some("Old Name".to_string()),
        fallback_date: None,
        handle: Some("@chan".to_string()),
        notes: Some("note".to_string()),
        owner: None,
        status_code: 4,
        subscribers: Some(1000),
        unconfirmed_reason: None,
        user_id: "u1".to_string(),
        username: "chan".to_string(),
        verified: Some(1),
        videos: Some(0),
        views: Some(5000),
        video_list: None,
    }
}

fn matching_data(u: &User) -> ChannelData {
    ChannelData {
        display_name: u.display_name.clone().unwrap(),
        description: u.description.clone().unwrap(),
        subscribers: u.subscribers,
        videos: u.videos.unwrap(),
        views: u.views.unwrap(),
        country: u.country.clone(),
        avatar_url: u.avatar_url.clone(),
        handle: u.handle.clone(),
        verified: u.verified == Some(1),
        status_code: StatusCode::Active,
    }
}

fn raw(terminated: bool, deleted: bool, hidden: bool) -> RawChannel {
    RawChannel {
        display_name: "Name".to_string(),
        description: "Desc".to_string(),
        subscribers: Some(7),
        videos: 3,
        views: 99,
        country: None,
        profile_picture: Some("pic".to_string()),
        handle: None,
        verified: true,
        terminated,
        deleted,
        hidden,
    }
}

fn details(id: usize, created_at: i64) -> VideoDetails {
    VideoDetails {
        video_id: format!("v{}", id),
        title: Some(format!("title {}", id)),
        description: None,
        created_at,
        views: 10,
        likes: 2,
        comments: 1,
    }
}

#[test]
fn terminated_dominates_deleted() {
    assert_eq!(StatusCode::from_flags(true, true, false), StatusCode::Suspended);
    assert_eq!(StatusCode::from_flags(true, true, true).code(), 1);
    assert_eq!(StatusCode::from_flags(false, true, true), StatusCode::Deleted);
    assert_eq!(StatusCode::from_flags(false, false, true), StatusCode::Hidden);
    assert_eq!(StatusCode::from_flags(false, false, false), StatusCode::Active);
}

#[test]
fn status_codes_and_names() {
    assert_eq!(StatusCode::Suspended.code(), 1);
    assert_eq!(StatusCode::Deleted.code(), 2);
    assert_eq!(StatusCode::Hidden.code(), 3);
    assert_eq!(StatusCode::Active.code(), 4);
    assert_eq!(StatusCode::Hidden.name(), "hidden");
}

#[test]
fn snapshot_from_raw_channel() {
    let d = ChannelData::from_raw(raw(false, true, false));
    assert_eq!(d.status_code, StatusCode::Deleted);
    assert_eq!(d.avatar_url, Some("pic".to_string()));
    assert_eq!(d.videos, 3);
    assert_eq!(ChannelData::from_raw(raw(false, false, false)).status_code, StatusCode::Active);
}

#[test]
fn error_text_classification() {
    assert_eq!(classify_error("Channel has been terminated"), Some(StatusCode::Suspended));
    assert_eq!(classify_error("video unavailable: private"), Some(StatusCode::Hidden));
    assert_eq!(classify_error("connection reset"), None);
    assert_eq!(classify_error("This account is SUSPENDED"), Some(StatusCode::Suspended));
    assert_eq!(classify_error("Channel Deleted"), Some(StatusCode::Deleted));
    assert_eq!(classify_error("channel is Hidden"), Some(StatusCode::Hidden));
    assert_eq!(classify_error("deleted and terminated"), Some(StatusCode::Suspended));
}

#[test]
fn error_text_is_lowered_before_matching() {
    assert_eq!(classify_lowered("TERMINATED"), None);
    assert_eq!(classify_error("TERMINATED"), Some(StatusCode::Suspended));
}

#[test]
fn infix_search() {
    assert!(contains_text("abcabd", "abd"));
    assert!(contains_text("abc", ""));
    assert!(contains_text("", ""));
    assert!(!contains_text("ab", "abc"));
    assert!(!contains_text("abcabc", "abd"));
    assert!(contains_text("héllo wörld", "wö"));
}

#[test]
fn no_change_when_all_fields_equal() {
    let u = user(Some("UCx"));
    let d = matching_data(&u);
    assert!(!has_changes(&u, &d));
}

#[test]
fn flipping_any_field_is_a_change() {
    let u = user(Some("UCx"));
    let base = matching_data(&u);
    let mut variants: Vec<ChannelData> = Vec::new();
    let mut d = matching_data(&u);
    d.display_name = "New".to_string();
    variants.push(d);
    let mut d = matching_data(&u);
    d.description = "other".to_string();
    variants.push(d);
    let mut d = matching_data(&u);
    d.subscribers = None;
    variants.push(d);
    let mut d = matching_data(&u);
    d.videos = 1;
    variants.push(d);
    let mut d = matching_data(&u);
    d.views = 5001;
    variants.push(d);
    let mut d = matching_data(&u);
    d.country = None;
    variants.push(d);
    let mut d = matching_data(&u);
    d.avatar_url = Some("https://img/b.png".to_string());
    variants.push(d);
    let mut d = matching_data(&u);
    d.handle = Some("@other".to_string());
    variants.push(d);
    let mut d = matching_data(&u);
    d.verified = false;
    variants.push(d);
    assert_eq!(variants.len(), 9);
    for v in &variants {
        assert!(has_changes(&u, v));
    }
    assert!(!has_changes(&u, &base));
}

#[test]
fn absent_field_against_present_is_a_change() {
    let mut u = user(Some("UCx"));
    let d = matching_data(&u);
    u.verified = None;
    assert!(has_changes(&u, &d));
}

#[test]
fn full_update_writes_tracked_fields() {
    let mut u = user(Some("UCx"));
    u.status_code = 2;
    let d = ChannelData::from_raw(raw(false, false, false));
    update_user_data(&mut u, &d);
    assert_eq!(u.display_name, Some("Name".to_string()));
    assert_eq!(u.description, Some("Desc".to_string()));
    assert_eq!(u.subscribers, Some(7));
    assert_eq!(u.videos, Some(3));
    assert_eq!(u.views, Some(99));
    assert_eq!(u.country, None);
    assert_eq!(u.avatar_url, Some("pic".to_string()));
    assert_eq!(u.handle, None);
    assert_eq!(u.verified, Some(1));
    assert_eq!(u.status_code, 4);
    assert_eq!(u.notes, Some("note".to_string()));
    assert!(!has_changes(&u, &d));
    assert_eq!(verified_int(false), 0);
}

#[test]
fn status_only_update_is_idempotent() {
    let mut u = user(Some("UCx"));
    let before = format!("{:?}", u);
    assert!(update_user_status_only(&mut u, StatusCode::Deleted));
    assert_eq!(u.status_code, 2);
    let after_first = format!("{:?}", u);
    assert_ne!(before, after_first);
    assert!(!update_user_status_only(&mut u, StatusCode::Deleted));
    assert_eq!(format!("{:?}", u), after_first);
}

#[test]
fn record_without_channel_is_skipped() {
    let mut u = user(None);
    let before = format!("{:?}", u);
    let mut r = Reconciler::new(1);
    assert_eq!(r.step(&mut u, Event::Begin), Action::Skip);
    assert_eq!(format!("{:?}", u), before);
    assert_eq!(r.updated, 0);
}

#[test]
fn inactive_channel_updates_status_only() {
    let mut u = user(Some("UCx"));
    let mut r = Reconciler::new(1);
    let a = r.step(&mut u, Event::ChannelFetched(ChannelData::from_raw(raw(false, false, true))));
    assert_eq!(a, Action::Done);
    assert_eq!(u.status_code, 3);
    assert_eq!(u.display_name, Some("Old Name".to_string()));
    assert_eq!(r.updated, 1);
    let a = r.step(&mut u, Event::ChannelFetched(ChannelData::from_raw(raw(false, false, true))));
    assert_eq!(a, Action::Done);
    assert_eq!(r.updated, 1);
}

#[test]
fn active_unchanged_channel_corrects_stale_status() {
    let mut u = user(Some("UCx"));
    u.status_code = 0;
    let d = matching_data(&u);
    let mut r = Reconciler::new(1);
    assert_eq!(r.step(&mut u, Event::ChannelFetched(d)), Action::Done);
    assert_eq!(u.status_code, 4);
    assert_eq!(r.updated, 1);
}

#[test]
fn failed_fetch_with_inconclusive_text_leaves_record() {
    let mut u = user(Some("UCx"));
    let before = format!("{:?}", u);
    let mut r = Reconciler::new(1);
    let a = r.step(&mut u, Event::ChannelFailed("connection reset".to_string()));
    assert_eq!(a, Action::Done);
    assert_eq!(format!("{:?}", u), before);
    assert_eq!(r.updated, 0);
}

#[test]
fn failed_fetch_with_classifiable_text_sets_status() {
    let mut u = user(Some("UCx"));
    let mut r = Reconciler::new(1);
    let a = r.step(&mut u, Event::ChannelFailed("Channel has been terminated".to_string()));
    assert_eq!(a, Action::Done);
    assert_eq!(u.status_code, 1);
    assert_eq!(r.updated, 1);
}

#[test]
fn active_channel_with_videos_asks_for_listing() {
    let mut u = user(Some("UCabc"));
    let mut r = Reconciler::new(1);
    let a = r.step(&mut u, Event::ChannelFetched(ChannelData::from_raw(raw(false, false, false))));
    assert_eq!(a, Action::FetchVideos("UCabc".to_string()));
    assert_eq!(r.updated, 1);
    let v = vec![video_from_details(details(1, 5))];
    assert_eq!(r.step(&mut u, Event::VideosFetched(v)), Action::Done);
    assert_eq!(r.updated, 2);
    assert_eq!(u.video_list.as_ref().map(|l| l.len()), Some(1));
    let kept = format!("{:?}", u);
    assert_eq!(r.step(&mut u, Event::VideosFailed("quota".to_string())), Action::Done);
    assert_eq!(format!("{:?}", u), kept);
    assert_eq!(r.updated, 2);
}

#[test]
fn two_record_batch() {
    let mut users = vec![user(Some("UCone")), user(None)];
    let second_before = format!("{:?}", users[1]);
    let mut r = Reconciler::new(users.len() as u64);
    for u in users.iter_mut() {
        let mut action = r.step(u, Event::Begin);
        loop {
            match action {
                Action::FetchChannel(_) => {
                    let mut d = matching_data(u);
                    d.display_name = "Fresh Name".to_string();
                    action = r.step(u, Event::ChannelFetched(d));
                }
                Action::FetchVideos(_) => panic!("no videos expected"),
                Action::Skip | Action::Done => break,
            }
        }
    }
    assert_eq!(r.updated, 1);
    assert_eq!(r.total, 2);
    assert_eq!(users[0].display_name, Some("Fresh Name".to_string()));
    assert_eq!(users[0].status_code, 4);
    assert_eq!(format!("{:?}", users[1]), second_before);
}

#[test]
fn uploads_id_replaces_prefix() {
    assert_eq!(uploads_playlist_id("UCabc123"), Some("UUabc123".to_string()));
    assert_eq!(uploads_playlist_id("UC"), Some("UU".to_string()));
    assert_eq!(uploads_playlist_id("U"), None);
    assert_eq!(uploads_playlist_id(""), None);
    assert!(VideoPager::new("x").is_none());
}

#[test]
fn details_default_to_empty_texts() {
    let v = video_from_details(details(3, 42));
    assert_eq!(v.video_id, "v3");
    assert_eq!(v.title, "title 3");
    assert_eq!(v.description, "");
    assert_eq!(v.created_at, 42);
}

#[test]
fn sort_orders_newest_first() {
    let input: Vec<Video> =
        vec![3, 9, 1, 9, 5].into_iter().enumerate().map(|(i, t)| video_from_details(details(i, t))).collect();
    let out = sort_newest_first(input);
    let times: Vec<i64> = out.iter().map(|v| v.created_at).collect();
    assert_eq!(times, vec![9, 9, 5, 3, 1]);
    assert!(sort_newest_first(Vec::new()).is_empty());
}

#[test]
fn three_pages_merge_newest_first() {
    let sizes = [50usize, 50, 3];
    let mut pager = VideoPager::new("UCchan").unwrap();
    let mut page_requests = 0;
    let mut pauses = 0;
    let mut page = 0;
    let mut next_id = 0usize;
    loop {
        let req = pager.request();
        assert_eq!(req.playlist_id, "UUchan");
        assert_eq!(req.max_results, PAGE_SIZE);
        assert_eq!(req.page_token, if page == 0 { None } else { Some(format!("t{}", page)) });
        page_requests += 1;
        let ids: Vec<String> = (0..sizes[page]).map(|k| format!("v{}", next_id + k)).collect();
        let token = if page < 2 { Some(format!("t{}", page + 1)) } else { None };
        let ids = match pager.on_page(ids, token) {
            Some(ids) => ids,
            None => break,
        };
        let found: Vec<VideoDetails> = ids
            .iter()
            .enumerate()
            .map(|(k, _)| details(next_id + k, ((next_id + k) * 37 % 101) as i64))
            .collect();
        next_id += ids.len();
        if !pager.on_details(found) {
            break;
        }
        pauses += 1;
        page += 1;
    }
    assert!(pager.finished);
    assert_eq!(page_requests, 3);
    assert_eq!(pauses, 2);
    let videos = pager.into_videos();
    assert_eq!(videos.len(), 103);
    for w in videos.windows(2) {
        assert!(w[0].created_at >= w[1].created_at);
    }
}

#[test]
fn empty_page_ends_listing() {
    let mut pager = VideoPager::new("UCchan").unwrap();
    assert!(pager.on_page(Vec::new(), Some("t1".to_string())).is_none());
    assert!(pager.finished);
    assert!(pager.into_videos().is_empty());
}
