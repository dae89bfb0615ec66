use like_your_trip::fetch::{ErrorKind, FetchState};
use like_your_trip::photos::{
    copy_preferences, Msg, Photo, Photos, Screen, UserPreference, COUNT_PER_CATEGORY,
};
use like_your_trip::recommendations::{
    render_recommendation, Listing, Msg as RecMsg, Recommendation, Recommendations,
    RecommendationsProperties,
};

fn photo(marker: &str, file: &str) -> Photo {
    Photo { marker: marker.to_string(), file: file.to_string() }
}

fn loaded(items: Vec<Photo>) -> Photos {
    let mut p = Photos::create();
    assert!(p.fetch_photos().is_some());
    let o = p.update(Msg::PhotosFetched(Some(items)));
    assert!(o.render);
    assert!(o.recommend.is_none());
    p
}

fn markers_and_likes(p: &Photos) -> Vec<(String, bool)> {
    p.user_preferences().iter().map(|u| (u.marker.clone(), u.like)).collect()
}

#[test]
fn like_then_dislike_on_two_photos() {
    let mut p = loaded(vec![photo("A", "a.jpg"), photo("B", "b.jpg")]);
    let first = p.update(Msg::Like);
    assert!(first.render);
    assert!(first.recommend.is_none());
    let second = p.update(Msg::Dislike);
    assert!(second.render);
    assert_eq!(
        markers_and_likes(&p),
        vec![("A".to_string(), true), ("B".to_string(), false)]
    );
    assert!(p.is_exhausted());
    assert!(p.is_complete());
    let sent = second.recommend.expect("the last judgment starts the recommendations");
    let sent: Vec<(String, bool)> = sent.iter().map(|u| (u.marker.clone(), u.like)).collect();
    assert_eq!(sent, vec![("A".to_string(), true), ("B".to_string(), false)]);
    assert!(matches!(p.screen(), Screen::Recommendations));
}

#[test]
fn count_and_index_follow_each_judgment() {
    let mut p = loaded(vec![photo("A", "a"), photo("B", "b"), photo("C", "c")]);
    assert_eq!(p.active_image_index(), 0);
    assert_eq!(p.user_preferences().len(), 0);
    for k in 1..=3usize {
        assert!(p.handle_user_reaction(k % 2 == 0));
        assert_eq!(p.active_image_index(), k);
        assert_eq!(p.user_preferences().len(), k);
    }
}

#[test]
fn judging_when_exhausted_changes_nothing() {
    let mut p = loaded(vec![photo("A", "a")]);
    assert!(p.update(Msg::Like).recommend.is_some());
    for _ in 0..3 {
        let o = p.update(Msg::Dislike);
        assert!(!o.render);
        assert!(o.recommend.is_none());
        assert!(!p.handle_user_reaction(true));
    }
    assert_eq!(p.active_image_index(), 1);
    assert_eq!(markers_and_likes(&p), vec![("A".to_string(), true)]);
}

#[test]
fn recommendations_start_exactly_once() {
    let mut p = loaded(vec![photo("A", "a"), photo("B", "b")]);
    let msgs = vec![
        Msg::Like,
        Msg::Like,
        Msg::Like,
        Msg::Dislike,
        Msg::PhotosFetchFailed,
        Msg::PhotosFetched(Some(vec![photo("C", "c")])),
    ];
    let mut started = 0;
    for m in msgs {
        if p.update(m).recommend.is_some() {
            started += 1;
        }
        let _ = p.screen();
    }
    assert_eq!(started, 1);
    assert_eq!(p.user_preferences().len(), 2);
}

#[test]
fn empty_feed_is_exhausted_without_recommendations() {
    let mut p = loaded(Vec::new());
    assert!(p.is_exhausted());
    assert!(!p.is_complete());
    assert!(p.current_item().is_none());
    assert!(matches!(p.screen(), Screen::Placeholder));
    for m in vec![Msg::Like, Msg::Dislike, Msg::Like] {
        let o = p.update(m);
        assert!(!o.render);
        assert!(o.recommend.is_none());
    }
    assert_eq!(p.user_preferences().len(), 0);
    assert!(matches!(p.screen(), Screen::Placeholder));
}

#[test]
fn failed_item_fetch_behaves_as_empty_feed() {
    let mut p = Photos::create();
    p.fetch_photos();
    let o = p.update(Msg::PhotosFetchFailed);
    assert!(o.render);
    assert!(o.recommend.is_none());
    assert!(p.is_exhausted());
    assert!(matches!(p.screen(), Screen::Placeholder));
    assert!(!p.update(Msg::Like).render);
    assert_eq!(p.user_preferences().len(), 0);
}

#[test]
fn undecodable_item_reply_fails_the_feed() {
    let mut p = Photos::create();
    p.fetch_photos();
    let o = p.update(Msg::PhotosFetched(None));
    assert!(o.render);
    assert!(p.is_exhausted());
    assert!(matches!(p.screen(), Screen::Placeholder));
    // a late reply after the failure is discarded
    let late = p.update(Msg::PhotosFetched(Some(vec![photo("A", "a")])));
    assert!(!late.render);
    assert!(p.current_item().is_none());
}

#[test]
fn feed_is_loading_until_the_reply() {
    let mut p = Photos::create();
    assert!(matches!(p.screen(), Screen::Loading));
    // a reply before the request is discarded
    assert!(!p.update(Msg::PhotosFetched(Some(vec![photo("A", "a")]))).render);
    let query = p.fetch_photos().expect("the first fetch is sent");
    assert_eq!(query.count_per_category, 3);
    assert_eq!(COUNT_PER_CATEGORY, 3);
    assert!(p.fetch_photos().is_none());
    assert!(matches!(p.screen(), Screen::Loading));
    assert!(!p.update(Msg::Like).render);
}

#[test]
fn presented_photo_path() {
    let p = loaded(vec![photo("A", "lake.jpg"), photo("B", "hill.jpg")]);
    match p.screen() {
        Screen::Photo(path) => assert_eq!(path, "/photos/lake.jpg"),
        _ => panic!("a photo is presented"),
    }
    assert_eq!(p.current_item().map(|i| i.marker.clone()), Some("A".to_string()));
}

fn prefs_of(p: &mut Photos) -> Vec<UserPreference> {
    p.update(Msg::Like);
    p.update(Msg::Dislike).recommend.expect("complete")
}

#[test]
fn recommendation_fetch_is_sent_once() {
    let mut p = loaded(vec![photo("A", "a"), photo("B", "b")]);
    let prefs = prefs_of(&mut p);
    let mut r = Recommendations::create(RecommendationsProperties { user_preferences: prefs });
    assert!(matches!(r.listing(), Listing::List(ref v) if v.is_empty()));
    let query = r.fetch_recommendations().expect("the first trigger sends");
    let sent: Vec<(String, bool)> =
        query.user_preferences.iter().map(|u| (u.marker.clone(), u.like)).collect();
    assert_eq!(sent, vec![("A".to_string(), true), ("B".to_string(), false)]);
    assert!(r.fetch_recommendations().is_none());
    assert!(matches!(r.listing(), Listing::Loading));
}

#[test]
fn recommendations_listed_in_order_received() {
    let mut p = loaded(vec![photo("A", "a")]);
    p.update(Msg::Like);
    let prefs = p.user_preferences().iter().map(|u| UserPreference {
        marker: u.marker.clone(),
        like: u.like,
    }).collect();
    let mut r = Recommendations::create(RecommendationsProperties { user_preferences: prefs });
    r.fetch_recommendations();
    let recs = vec![
        Recommendation { destination: "Lisbon".to_string(), score: "0.9".to_string() },
        Recommendation { destination: "Oslo".to_string(), score: "0.4".to_string() },
    ];
    assert!(r.update(RecMsg::RecommendationsFetched(Some(recs))));
    match r.listing() {
        Listing::List(lines) => assert_eq!(lines, vec!["Lisbon:0.9", "Oslo:0.4"]),
        _ => panic!("the list is shown"),
    }
    assert!(r.fetch_recommendations().is_none());
}

#[test]
fn malformed_recommendation_reply_is_a_decode_error() {
    let mut p = loaded(vec![photo("A", "a"), photo("B", "b")]);
    let prefs = prefs_of(&mut p);
    let mut r = Recommendations::create(RecommendationsProperties { user_preferences: prefs });
    r.fetch_recommendations();
    assert!(r.update(RecMsg::RecommendationsFetched(None)));
    assert!(matches!(r.listing(), Listing::Failed(ErrorKind::DecodeError)));
    assert_eq!(r.user_preferences().len(), 2);
    assert_eq!(r.user_preferences()[0].marker, "A");
    assert!(r.user_preferences()[0].like);
    assert!(!r.user_preferences()[1].like);
    // a late reply is discarded
    assert!(!r.update(RecMsg::RecommendationsFetched(Some(Vec::new()))));
    assert!(matches!(r.listing(), Listing::Failed(ErrorKind::DecodeError)));
}

#[test]
fn transport_failure_of_recommendations() {
    let mut p = loaded(vec![photo("A", "a"), photo("B", "b")]);
    let prefs = prefs_of(&mut p);
    let mut r = Recommendations::create(RecommendationsProperties { user_preferences: prefs });
    r.fetch_recommendations();
    assert!(r.update(RecMsg::RecommendationsFetchFailed));
    assert!(matches!(r.listing(), Listing::Failed(ErrorKind::TransportError)));
    assert!(r.fetch_recommendations().is_none());
}

#[test]
fn empty_judgments_never_fetch() {
    let mut r = Recommendations::create(RecommendationsProperties { user_preferences: Vec::new() });
    assert!(r.fetch_recommendations().is_none());
    assert!(!r.update(RecMsg::RecommendationsFetchFailed));
    assert!(matches!(r.listing(), Listing::List(ref v) if v.is_empty()));
}

#[test]
fn recommendation_line() {
    let line = render_recommendation(&Recommendation {
        destination: "Rome".to_string(),
        score: "12.5".to_string(),
    });
    assert_eq!(line, "Rome:12.5");
}

#[test]
fn fetch_state_tests() {
    let s: FetchState<u8> = FetchState::Loading;
    assert!(s.is_loading());
    assert!(!s.is_idle());
    let i: FetchState<u8> = FetchState::Idle;
    assert!(i.is_idle());
    assert!(!FetchState::<u8>::Failed(ErrorKind::DecodeError).is_loading());
}

#[test]
fn each_photo_is_judged_once() {
    let mut p = loaded(vec![photo("A", "a"), photo("B", "b"), photo("C", "c")]);
    for _ in 0..6 {
        p.update(Msg::Like);
    }
    let markers: Vec<String> = p.user_preferences().iter().map(|u| u.marker.clone()).collect();
    assert_eq!(markers, vec!["A", "B", "C"]);
}

#[test]
fn copied_preferences_keep_every_judgment() {
    let prefs = vec![
        UserPreference { marker: "X".to_string(), like: false },
        UserPreference { marker: "Y".to_string(), like: true },
    ];
    let copy = copy_preferences(&prefs);
    let pairs: Vec<(String, bool)> = copy.iter().map(|u| (u.marker.clone(), u.like)).collect();
    assert_eq!(pairs, vec![("X".to_string(), false), ("Y".to_string(), true)]);
    assert!(copy_preferences(&Vec::new()).is_empty());
}
