use synth::InputArgs;
use synth::Mode;
use synth::config::Config;
use synth::errors::NoResultError;
use synth::websites::{Wallbase, WallbaseData, Website};

fn args(color: Option<&str>, query: Option<&str>, resolution: Option<&str>) -> InputArgs {
    InputArgs {
        color: color.map(|s| s.to_owned()),
        query: query.map(|s| s.to_owned()),
        resolution: resolution.map(|s| s.to_owned()),
        save: None,
        load: None,
    }
}

fn full_config() -> Config {
    Config {
        base_url: Some("https://x/".to_owned()),
        api: Some("v1?key=K".to_owned()),
        categories: Some("100".to_owned()),
        purity: Some("100".to_owned()),
    }
}

#[test]
fn build_url_scenario_color_and_resolution() {
    let url = Wallbase::build_url(&full_config(), &args(Some("seashell"), None, Some("1920x1080")))
        .unwrap();
    assert_eq!(
        url,
        "https://x/v1?key=K&categories=100&purity=100&sorting=random&color=seashell&resolutions=1920x1080"
    );
}

#[test]
fn build_url_no_optional_params() {
    let url = Wallbase::build_url(&full_config(), &args(None, None, None)).unwrap();
    assert_eq!(url, "https://x/v1?key=K&categories=100&purity=100&sorting=random");
}

#[test]
fn build_url_optional_params_keep_fixed_order() {
    let url = Wallbase::build_url(
        &full_config(),
        &args(Some("seashell"), Some("mountain"), Some("1920x1080")),
    )
    .unwrap();
    assert_eq!(
        url,
        "https://x/v1?key=K&categories=100&purity=100&sorting=random&color=seashell&q=mountain&resolutions=1920x1080"
    );
}

#[test]
fn build_url_escapes_query_spaces() {
    let url =
        Wallbase::build_url(&full_config(), &args(None, Some("new york city at night"), None))
            .unwrap();
    assert_eq!(
        url,
        "https://x/v1?key=K&categories=100&purity=100&sorting=random&q=new+york+city+at+night"
    );
    let after_fixed = url.split("&sorting=random").nth(1).unwrap();
    assert!(!after_fixed.contains(' '));
}

#[test]
fn build_url_missing_keys_fail_in_order() {
    let mut c = full_config();
    c.base_url = None;
    let e = Wallbase::build_url(&c, &args(None, None, None)).unwrap_err();
    assert_eq!(e.missing_key, "base_url");

    let mut c = full_config();
    c.api = None;
    let e = Wallbase::build_url(&c, &args(None, None, None)).unwrap_err();
    assert_eq!(e.missing_key, "api");

    let mut c = full_config();
    c.categories = None;
    let e = Wallbase::build_url(&c, &args(None, None, None)).unwrap_err();
    assert_eq!(e.missing_key, "categories");

    let mut c = full_config();
    c.purity = None;
    let e = Wallbase::build_url(&c, &args(None, None, None)).unwrap_err();
    assert_eq!(e.missing_key, "purity");
}

#[test]
fn config_from_toml_reads_string_keys() {
    let text = "base_url = \"https://x/\"\napi = \"v1?key=K\"\ncategories = \"100\"\npurity = \"100\"\n";
    let c = Config::from_toml(text);
    assert_eq!(c.base_url.as_deref(), Some("https://x/"));
    assert_eq!(c.api.as_deref(), Some("v1?key=K"));
    assert_eq!(c.categories.as_deref(), Some("100"));
    assert_eq!(c.purity.as_deref(), Some("100"));
    let url = Wallbase::build_url(&c, &args(Some("seashell"), None, Some("1920x1080"))).unwrap();
    assert_eq!(
        url,
        "https://x/v1?key=K&categories=100&purity=100&sorting=random&color=seashell&resolutions=1920x1080"
    );
}

#[test]
fn config_from_toml_skips_missing_and_non_string_keys() {
    let c = Config::from_toml("base_url = \"https://x/\"\npurity = 100\n");
    assert_eq!(c.base_url.as_deref(), Some("https://x/"));
    assert!(c.api.is_none());
    assert!(c.categories.is_none());
    assert!(c.purity.is_none());
}

fn record(path: &str) -> WallbaseData {
    WallbaseData {
        path: path.to_owned(),
        resolution: "1920x1080".to_owned(),
        views: 7,
        favorites: 3,
        id: "abc123".to_owned(),
    }
}

#[test]
fn build_rejects_empty_result_set() {
    let e = Wallbase::build(Vec::new()).unwrap_err();
    assert_eq!(e.details, "No results found");
}

#[test]
fn get_image_selects_first_record() {
    let w = Wallbase::build(vec![record("https://img/first.jpg"), record("https://img/second.png")])
        .unwrap();
    assert_eq!(w.get_image(), "https://img/first.jpg");
}

#[test]
fn no_result_error_keeps_its_message() {
    let e = NoResultError::new("nothing matched");
    assert_eq!(e.details(), "nothing matched");
}

#[test]
fn mode_picks_the_requested_operation() {
    let mut a = args(None, None, None);
    assert!(matches!(a.mode(), Mode::Fetch));
    a.save = Some("alpha".to_owned());
    assert!(matches!(a.mode(), Mode::Save(n) if n == "alpha"));
    a.save = None;
    a.load = Some("alpha".to_owned());
    assert!(matches!(a.mode(), Mode::Load(n) if n == "alpha"));
}

#[test]
fn build_url_sends_an_all_space_query_as_plus_signs() {
    let url = Wallbase::build_url(&full_config(), &args(None, Some("   "), None)).unwrap();
    assert_eq!(url, "https://x/v1?key=K&categories=100&purity=100&sorting=random&q=+++");
}

#[test]
fn build_url_keeps_an_empty_query_parameter_empty() {
    let url = Wallbase::build_url(&full_config(), &args(None, Some(""), None)).unwrap();
    assert_eq!(url, "https://x/v1?key=K&categories=100&purity=100&sorting=random&q=");
}
