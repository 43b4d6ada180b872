use lead_oxide::opts::{Limit, Opts, Port};
use lead_oxide::types::{Countries, Country, LastChecked, Level, Protocol, TimeToConnect};

fn check_equivalent_params(opts: Opts, expected: &[&str]) {
    let url = opts.query_string();
    let mut params: Vec<String> = url.split('&').map(String::from).collect();
    params.sort();

    let mut expected = expected.to_vec();
    expected.sort_unstable();

    assert_eq!(params, expected);
}

#[test]
fn url_serialization() {
    // Base `Opts`
    check_equivalent_params(Opts::default(), &["format=json", "limit=5"]);
    // Using a key will up the limit
    check_equivalent_params(
        Opts::builder().api_key("<key>".to_string()).build(),
        &["api=%3Ckey%3E", "format=json", "limit=20"],
    );
    // An empty countries list is left out
    check_equivalent_params(
        Opts::builder().countries(Countries::default()).build(),
        &["format=json", "limit=5"],
    );
    // Kitchen sink
    check_equivalent_params(
        Opts::builder()
            .api_key("<key>".to_string())
            .level(Level::Elite)
            .protocol(Protocol::Socks4)
            .countries(Countries::block().countries(&[
                Country::from_code("CH").unwrap(),
                Country::from_code("ES").unwrap(),
            ]))
            .last_checked(LastChecked::try_from(60 * 10).unwrap())
            .time_to_connect(TimeToConnect::try_from(10).unwrap())
            .port(Port::new(8080).unwrap())
            .cookies(true)
            .connects_to_google(false)
            .https(true)
            .post(false)
            .referer(true)
            .forwards_user_agent(false)
            .build(),
        &[
            "limit=20",
            "format=json",
            "api=%3Ckey%3E",
            "level=elite",
            "type=socks4",
            "not_country=CH%2CES",
            "last_check=10",
            "speed=10",
            "port=8080",
            "cookies=true",
            "google=false",
            "https=true",
            "post=false",
            "referer=true",
            "user_agent=false",
        ],
    );
}

#[test]
fn query_pairs_in_order() {
    let opts = Opts::builder()
        .countries(Countries::allow().country(Country::from_code("CA").unwrap()))
        .last_checked(LastChecked::new(119).unwrap())
        .build();
    let pairs = opts.query_pairs();
    let expected: Vec<(String, String)> = vec![
        ("country".to_string(), "CA".to_string()),
        ("last_check".to_string(), "1".to_string()),
        ("limit".to_string(), "5".to_string()),
        ("format".to_string(), "json".to_string()),
    ];
    assert_eq!(pairs, expected);
    assert_eq!(opts.query_string(), "country=CA&last_check=1&limit=5&format=json");
}

#[test]
fn page_size_follows_key() {
    assert_eq!(Opts::default().page_size(), 5);
    assert!(!Opts::default().is_premium());
    let premium = Opts::builder().api_key("k".to_string()).build();
    assert_eq!(premium.page_size(), 20);
    assert!(premium.is_premium());
    assert_eq!(Limit::Free.page_size(), 5);
    assert_eq!(Limit::Premium.page_size(), 20);
}

#[test]
fn port_rejects_zero() {
    assert!(Port::new(0).is_none());
    assert_eq!(Port::new(1).unwrap().get(), 1);
}

#[test]
fn builder_defaults_to_default_opts() {
    assert_eq!(Opts::builder().build(), Opts::default());
    assert_eq!(Opts::from(Opts::builder().post(true)), Opts::builder().post(true).build());
}

#[test]
fn from_builder_converts_durations() {
    let builder = Opts::builder()
        .last_checked(LastChecked::try_from(600).unwrap())
        .time_to_connect(TimeToConnect::try_from(10).unwrap());
    let opts = Opts::from(builder);
    let pairs = opts.query_pairs();
    assert!(pairs.contains(&("last_check".to_string(), "10".to_string())));
    assert!(pairs.contains(&("speed".to_string(), "10".to_string())));
}
