use pods::records::Error;
use pods::resolver::{read_feed, resolve, resolve_fetched, resolve_with, FetchOutcome, ResolveStep};
use pods::feed::FeedInfo;
use pods::session::{AppState, SubscribeStep, UserStatus};
use pods::status::{error_status, success_status, Operation};
use pods::store::{InMemoryStore, DB};

const URL: &str = "https://example.com/feed.xml";

const FEED: &str = "<?xml version=\"1.0\" encoding=\"UTF-8\"?>\n<rss version=\"2.0\">\n<channel>\n<title>Example Cast</title>\n<description>A show.</description>\n</channel>\n</rss>\n";

fn s(text: &str) -> String {
    text.to_string()
}

fn body(text: &str) -> FetchOutcome {
    FetchOutcome::Body(text.to_string())
}

#[test]
fn scenario_ada_subscribes_to_a_new_feed() {
    let mut app = AppState::new(InMemoryStore::new());
    let ada = app.add_user(s("Ada")).unwrap();
    let u1 = ada.id;

    assert_eq!(app.subscribe_to_podcast(s(URL)), SubscribeStep::Done(Err(Error::Unauthorized)));
    assert!(app.get_user(u1).unwrap().subscribed.is_empty());
    assert_eq!(app.db().get_podcast(s(URL)), Err(Error::NotFound));

    assert_eq!(app.login(u1), Ok(()));
    assert_eq!(app.user_status(), UserStatus { user: Some(u1), logged_in: true });

    assert_eq!(app.subscribe_to_podcast(s(URL)), SubscribeStep::NeedsFetch);
    assert_eq!(app.finish_subscription(s(URL), body(FEED)), Ok(vec![s(URL)]));
    let podcast = app.db().get_podcast(s(URL)).unwrap();
    assert_eq!(podcast.name, "Example Cast");
    assert_eq!(podcast.description, "A show.");
    assert_eq!(podcast.rss, URL);
    assert_eq!(app.get_user(u1).unwrap().subscribed, vec![s(URL)]);

    assert_eq!(app.subscribe_to_podcast(s(URL)), SubscribeStep::Done(Ok(vec![s(URL)])));
    assert_eq!(app.get_user(u1).unwrap().subscribed, vec![s(URL)]);
    assert_eq!(app.db().get_podcast(s(URL)), Ok(podcast));
}

#[test]
fn a_new_session_is_anonymous() {
    let app = AppState::new(InMemoryStore::new());
    assert_eq!(app.user_status(), UserStatus { user: None, logged_in: false });
}

#[test]
fn add_user_does_not_log_in() {
    let mut app = AppState::new(InMemoryStore::new());
    app.add_user(s("Ada")).unwrap();
    assert_eq!(app.user_status(), UserStatus { user: None, logged_in: false });
}

#[test]
fn get_user_of_an_unknown_id_is_not_found() {
    let mut app = AppState::new(InMemoryStore::new());
    let ada = app.add_user(s("Ada")).unwrap();
    assert_eq!(app.get_user(ada.id), Ok(ada));
    assert_eq!(app.get_user(0), Err(Error::NotFound));
}

#[test]
fn login_as_an_unknown_user_fails_and_keeps_the_session() {
    let mut app = AppState::new(InMemoryStore::new());
    assert_eq!(app.login(1), Err(Error::NotFound));
    assert_eq!(app.user_status(), UserStatus { user: None, logged_in: false });
    let ada = app.add_user(s("Ada")).unwrap();
    assert_eq!(app.login(ada.id), Ok(()));
    assert_eq!(app.login(ada.id.wrapping_add(1)), Err(Error::NotFound));
    assert_eq!(app.user_status(), UserStatus { user: Some(ada.id), logged_in: true });
}

#[test]
fn a_later_login_replaces_the_session() {
    let mut app = AppState::new(InMemoryStore::new());
    let ada = app.add_user(s("Ada")).unwrap();
    let bob = app.add_user(s("Bob")).unwrap();
    assert_eq!(app.login(ada.id), Ok(()));
    assert_eq!(app.login(bob.id), Ok(()));
    assert_eq!(app.user_status(), UserStatus { user: Some(bob.id), logged_in: true });
    assert_eq!(app.subscribe_to_podcast(s(URL)), SubscribeStep::NeedsFetch);
    assert_eq!(app.finish_subscription(s(URL), body(FEED)), Ok(vec![s(URL)]));
    assert!(app.get_user(ada.id).unwrap().subscribed.is_empty());
    assert_eq!(app.get_user(bob.id).unwrap().subscribed, vec![s(URL)]);
}

#[test]
fn anonymous_subscription_changes_nothing() {
    let mut app = AppState::new(InMemoryStore::new());
    let ada = app.add_user(s("Ada")).unwrap();
    assert_eq!(app.subscribe_to_podcast(s(URL)), SubscribeStep::Done(Err(Error::Unauthorized)));
    assert_eq!(app.finish_subscription(s(URL), body(FEED)), Err(Error::Unauthorized));
    assert_eq!(app.subscribe_with(s(URL), true, Some(Ok(FeedInfo { title: s("T"), description: s("D") }))),
        SubscribeStep::Done(Err(Error::Unauthorized)));
    assert_eq!(app.subscribe_to_podcast(s("not a uri")), SubscribeStep::Done(Err(Error::Unauthorized)));
    assert_eq!(app.db().get_podcast(s(URL)), Err(Error::NotFound));
    assert_eq!(app.get_user(ada.id), Ok(ada));
}

#[test]
fn a_url_that_is_no_uri_is_refused() {
    let mut app = AppState::new(InMemoryStore::new());
    let ada = app.add_user(s("Ada")).unwrap();
    app.login(ada.id).unwrap();
    assert_eq!(app.subscribe_to_podcast(s("not a uri")), SubscribeStep::Done(Err(Error::InvalidUrl)));
    assert_eq!(app.subscribe_to_podcast(s("")), SubscribeStep::Done(Err(Error::InvalidUrl)));
    assert_eq!(app.finish_subscription(s("not a uri"), body(FEED)), Err(Error::InvalidUrl));
    assert_eq!(app.db().get_podcast(s("not a uri")), Err(Error::NotFound));
    assert!(app.get_user(ada.id).unwrap().subscribed.is_empty());
    assert_eq!(
        app.subscribe_to_podcast(s("https://revolutionspodcast.libsyn.com/rss/")),
        SubscribeStep::NeedsFetch
    );
}

#[test]
fn subscribe_with_goes_by_the_flag_it_is_given() {
    let mut app = AppState::new(InMemoryStore::new());
    let ada = app.add_user(s("Ada")).unwrap();
    app.login(ada.id).unwrap();
    assert_eq!(app.subscribe_with(s(URL), false, None), SubscribeStep::Done(Err(Error::InvalidUrl)));
    assert_eq!(app.subscribe_with(s("not a uri"), true, None), SubscribeStep::NeedsFetch);
    assert_eq!(
        app.subscribe_with(s(URL), true, Some(Ok(FeedInfo { title: s("T"), description: s("D") }))),
        SubscribeStep::Done(Ok(vec![s(URL)]))
    );
    assert_eq!(app.db().get_podcast(s(URL)).unwrap().name, "T");
    assert_eq!(app.subscribe_with(s(URL), true, Some(Err(Error::Parse))), SubscribeStep::Done(Ok(vec![s(URL)])));
}

#[test]
fn a_failed_fetch_leaves_the_subscriptions_as_they_were() {
    let mut app = AppState::new(InMemoryStore::new());
    let ada = app.add_user(s("Ada")).unwrap();
    app.login(ada.id).unwrap();
    assert_eq!(app.subscribe_to_podcast(s(URL)), SubscribeStep::NeedsFetch);
    assert_eq!(app.finish_subscription(s(URL), FetchOutcome::Failed), Err(Error::Transport));
    assert!(app.get_user(ada.id).unwrap().subscribed.is_empty());
    assert_eq!(app.db().get_podcast(s(URL)), Err(Error::NotFound));
    assert_eq!(app.subscribe_to_podcast(s(URL)), SubscribeStep::NeedsFetch);
}

#[test]
fn an_unreadable_feed_leaves_the_subscriptions_as_they_were() {
    let mut app = AppState::new(InMemoryStore::new());
    let ada = app.add_user(s("Ada")).unwrap();
    app.login(ada.id).unwrap();
    let other = "https://example.com/other.xml";
    app.finish_subscription(s(other), body(FEED)).unwrap();
    assert_eq!(app.finish_subscription(s(URL), body("<rss><channel>")), Err(Error::Parse));
    assert_eq!(app.finish_subscription(s(URL), body("<rss><channel><title>T</title></channel></rss>")), Err(Error::Parse));
    assert_eq!(app.get_user(ada.id).unwrap().subscribed, vec![s(other)]);
    assert_eq!(app.db().get_podcast(s(URL)), Err(Error::NotFound));
}

#[test]
fn a_known_podcast_is_not_filed_again() {
    let mut app = AppState::new(InMemoryStore::new());
    let ada = app.add_user(s("Ada")).unwrap();
    app.login(ada.id).unwrap();
    app.finish_subscription(s(URL), body(FEED)).unwrap();
    let first = app.db().get_podcast(s(URL)).unwrap();
    let changed = "<rss><channel><title>Changed</title><description>Changed</description></channel></rss>";
    assert_eq!(app.finish_subscription(s(URL), body(changed)), Ok(vec![s(URL)]));
    assert_eq!(app.finish_subscription(s(URL), FetchOutcome::Failed), Ok(vec![s(URL)]));
    assert_eq!(app.db().get_podcast(s(URL)), Ok(first));
}

#[test]
fn two_users_share_one_podcast_record() {
    let mut app = AppState::new(InMemoryStore::new());
    let ada = app.add_user(s("Ada")).unwrap();
    let bob = app.add_user(s("Bob")).unwrap();
    app.login(ada.id).unwrap();
    assert_eq!(app.subscribe_to_podcast(s(URL)), SubscribeStep::NeedsFetch);
    app.finish_subscription(s(URL), body(FEED)).unwrap();
    let first = app.db().get_podcast(s(URL)).unwrap();
    app.login(bob.id).unwrap();
    assert_eq!(app.subscribe_to_podcast(s(URL)), SubscribeStep::Done(Ok(vec![s(URL)])));
    assert_eq!(app.db().get_podcast(s(URL)), Ok(first));
    assert_eq!(app.get_user(ada.id).unwrap().subscribed, vec![s(URL)]);
    assert_eq!(app.get_user(bob.id).unwrap().subscribed, vec![s(URL)]);
}

#[test]
fn resolve_twice_fetches_once_and_returns_the_same_record() {
    let mut store = InMemoryStore::new();
    assert_eq!(resolve(&store, s(URL)), ResolveStep::NeedsFetch);
    let first = resolve_fetched(&mut store, s(URL), body(FEED)).unwrap();
    assert_eq!(first.name, "Example Cast");
    assert_eq!(first.description, "A show.");
    assert_eq!(first.rss, URL);
    match resolve(&store, s(URL)) {
        ResolveStep::Resolved(second) => assert_eq!(second, first),
        other => panic!("a known feed asked for {:?}", other),
    }
    assert_eq!(resolve_fetched(&mut store, s(URL), FetchOutcome::Failed), Ok(first));
}

#[test]
fn resolve_reports_why_a_feed_could_not_be_learned() {
    let mut store = InMemoryStore::new();
    assert_eq!(resolve_fetched(&mut store, s(URL), FetchOutcome::Failed), Err(Error::Transport));
    assert_eq!(resolve_fetched(&mut store, s(URL), body("<html/>")), Err(Error::Parse));
    assert_eq!(resolve_with(&mut store, s(URL), Some(Err(Error::Parse))), ResolveStep::Failed(Error::Parse));
    assert_eq!(resolve_with(&mut store, s(URL), None), ResolveStep::NeedsFetch);
    assert_eq!(store.get_podcast(s(URL)), Err(Error::NotFound));
}

#[test]
fn resolve_with_files_the_feed_it_is_given() {
    let mut store = InMemoryStore::new();
    let feed = FeedInfo { title: s("T"), description: s("D") };
    match resolve_with(&mut store, s(URL), Some(Ok(feed))) {
        ResolveStep::Resolved(p) => {
            assert_eq!(p.name, "T");
            assert_eq!(p.description, "D");
            assert_eq!(p.rss, URL);
            assert_eq!(store.get_podcast(s(URL)), Ok(p));
        },
        other => panic!("a feed at hand gave {:?}", other),
    }
}

#[test]
fn read_feed_tells_transport_from_parse_failures() {
    assert_eq!(read_feed(FetchOutcome::Failed), Err(Error::Transport));
    assert_eq!(read_feed(body("")), Err(Error::Parse));
    assert_eq!(read_feed(body(FEED)), Ok(FeedInfo { title: s("Example Cast"), description: s("A show.") }));
}

#[test]
fn status_codes_of_successes() {
    assert_eq!(success_status(Operation::AddUser), 201);
    assert_eq!(success_status(Operation::GetUser), 200);
    assert_eq!(success_status(Operation::Login), 200);
    assert_eq!(success_status(Operation::UserStatus), 200);
    assert_eq!(success_status(Operation::Subscribe), 201);
}

#[test]
fn status_codes_of_errors() {
    assert_eq!(error_status(Error::NotFound), 404);
    assert_eq!(error_status(Error::Unauthorized), 400);
    assert_eq!(error_status(Error::InvalidUrl), 400);
    assert_eq!(error_status(Error::DbError), 500);
    assert_eq!(error_status(Error::Transport), 500);
    assert_eq!(error_status(Error::Parse), 500);
}
