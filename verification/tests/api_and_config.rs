use rup::api::{select_api, supported_apis, ApiKind, UploadError};
use rup::cli::{effective_service, plan, split_service_argument, Cli, Commands, Plan};
use rup::config::{ApiConfig, Config};
use rup::menu::{
    api_for_choice, api_menu_items, asks_for_time, chosen_api_config, main_menu_items,
    main_menu_prompt, menu_step, time_for_choice, time_menu_items, ConfigMenu, MenuEvent,
};
use rup::options::Options;
use rup::status::{status_row, status_word};

#[test]
fn default_config_uses_litterbox_without_options() {
    let c = Config::default();
    assert_eq!(c.api.api_type, "litterbox");
    assert_eq!(c.api.options.len(), 0);
    assert_eq!(c.api.upload_time(), "1h");
    assert_eq!(c.api.shown_time(), "");
}

#[test]
fn default_config_is_selectable() {
    let c = Config::default();
    assert_eq!(select_api(&c.api.api_type), Ok(ApiKind::Litterbox));
}

#[test]
fn select_api_accepts_the_four_services() {
    assert_eq!(select_api("litterbox"), Ok(ApiKind::Litterbox));
    assert_eq!(select_api("temp_sh"), Ok(ApiKind::TempSh));
    assert_eq!(select_api("uguu"), Ok(ApiKind::Uguu));
    assert_eq!(select_api("bashupload"), Ok(ApiKind::Bashupload));
}

#[test]
fn select_api_refuses_other_names() {
    let e = select_api("dropbox").unwrap_err();
    assert_eq!(e, UploadError::UnsupportedApiType("dropbox".to_string()));
    assert_eq!(e.message(), "Unsupported API type: dropbox");
    assert!(select_api("Litterbox").is_err());
    assert!(select_api("").is_err());
    assert!(select_api("temp.sh").is_err());
}

#[test]
fn names_round_trip_through_select_api() {
    for k in supported_apis() {
        assert_eq!(select_api(&k.name()), Ok(k));
    }
}

#[test]
fn status_urls_follow_service_order() {
    let v = supported_apis();
    let urls: Vec<String> = v.iter().map(|k| k.status_url()).collect();
    assert_eq!(
        urls,
        vec![
            "https://litterbox.catbox.moe/",
            "https://temp.sh/",
            "https://uguu.se/",
            "https://bashupload.com/"
        ]
    );
}

#[test]
fn options_read_back_what_was_written() {
    let mut o = Options::new();
    assert_eq!(o.get("time"), None);
    o.insert("time".to_string(), "12h".to_string());
    assert_eq!(o.get("time"), Some("12h".to_string()));
    o.insert("other".to_string(), "x".to_string());
    o.insert("time".to_string(), "72h".to_string());
    assert_eq!(o.get("time"), Some("72h".to_string()));
    assert_eq!(o.get("other"), Some("x".to_string()));
    assert_eq!(o.len(), 2);
    let mut keys = o.keys();
    keys.sort();
    assert_eq!(keys, vec!["other".to_string(), "time".to_string()]);
}

#[test]
fn upload_time_uses_configured_time() {
    let mut options = Options::new();
    options.insert("time".to_string(), "24h".to_string());
    let api = ApiConfig { api_type: "litterbox".to_string(), options };
    assert_eq!(api.upload_time(), "24h");
    assert_eq!(api.shown_time(), "24h");
}

#[test]
fn plan_follows_the_command_line() {
    let c = Cli { files: vec![], command: Some(Commands::Config) };
    assert_eq!(plan(&c), Plan::Configure);
    let c = Cli { files: vec!["a".to_string()], command: Some(Commands::Status) };
    assert_eq!(plan(&c), Plan::ShowStatus);
    let c = Cli { files: vec![], command: None };
    assert_eq!(plan(&c), Plan::NoFiles);
    let c = Cli { files: vec!["a.txt".to_string()], command: None };
    assert_eq!(plan(&c), Plan::Upload);
}

#[test]
fn status_rows() {
    let r = status_row(ApiKind::TempSh, Some((true, 123)), "temp_sh");
    assert_eq!(r.name, "temp_sh");
    assert!(r.online);
    assert_eq!(r.latency, "123 ms");
    assert!(r.configured);
    let r = status_row(ApiKind::Uguu, Some((false, 0)), "temp_sh");
    assert!(!r.online);
    assert_eq!(r.latency, "0 ms");
    assert!(!r.configured);
    let r = status_row(ApiKind::Bashupload, None, "bashupload");
    assert!(!r.online);
    assert_eq!(r.latency, "- ms");
    assert!(r.configured);
    let r = status_row(ApiKind::Litterbox, Some((true, 1_000_070)), "x");
    assert_eq!(r.latency, "1000070 ms");
    assert_eq!(status_word(true), "ONLINE");
    assert_eq!(status_word(false), "OFFLINE");
}

#[test]
fn exactly_one_configured_row() {
    for name in ["litterbox", "temp_sh", "uguu", "bashupload"] {
        let n = supported_apis()
            .into_iter()
            .filter(|k| status_row(*k, None, name).configured)
            .count();
        assert_eq!(n, 1);
    }
    let n = supported_apis()
        .into_iter()
        .filter(|k| status_row(*k, None, "nothing").configured)
        .count();
    assert_eq!(n, 0);
}

#[test]
fn menu_moves_between_states() {
    assert_eq!(menu_step(ConfigMenu::Main, MenuEvent::MainChoice(0)), Some(ConfigMenu::ApiSettings));
    assert_eq!(menu_step(ConfigMenu::Main, MenuEvent::MainChoice(1)), None);
    assert_eq!(menu_step(ConfigMenu::ApiSettings, MenuEvent::ApiConfigured), Some(ConfigMenu::Main));
    assert_eq!(main_menu_items(), vec!["API Settings", "Save and Exit"]);
    assert_eq!(api_menu_items().len(), 4);
    assert_eq!(api_menu_items()[2], "uguu.se (up to 128 MiB per file, files expire after 3 hours)");
    assert_eq!(time_menu_items(), vec!["1h", "12h", "24h", "72h"]);
}

#[test]
fn main_menu_prompt_shows_time_when_set() {
    let c = Config::default();
    assert_eq!(main_menu_prompt(&c), "Current API: litterbox");
    let c = Config { api: chosen_api_config(ApiKind::Litterbox, Some(1)) };
    assert_eq!(main_menu_prompt(&c), "Current API: litterbox (time: 12h)");
    let c = Config { api: chosen_api_config(ApiKind::Bashupload, None) };
    assert_eq!(main_menu_prompt(&c), "Current API: bashupload");
}

#[test]
fn chosen_configuration_is_uploadable_and_keeps_the_time() {
    for i in 0..4 {
        let k = api_for_choice(i);
        let t = if asks_for_time(k) { Some(3) } else { None };
        let api = chosen_api_config(k, t);
        assert_eq!(select_api(&api.api_type), Ok(k));
        if k == ApiKind::Litterbox {
            assert_eq!(api.upload_time(), "72h");
            assert_eq!(api.options.len(), 1);
        } else {
            assert_eq!(api.options.len(), 0);
        }
    }
    assert_eq!(api_for_choice(0), ApiKind::Litterbox);
    assert_eq!(api_for_choice(3), ApiKind::Bashupload);
    assert_eq!(time_for_choice(2), "24h");
    assert!(asks_for_time(ApiKind::Litterbox));
    assert!(!asks_for_time(ApiKind::TempSh));
}

#[test]
fn other_services_drop_the_time() {
    let api = chosen_api_config(ApiKind::TempSh, Some(2));
    assert_eq!(api.options.get("time"), None);
    assert_eq!(api.upload_time(), "1h");
}

fn strings(v: &[&str]) -> Vec<String> {
    v.iter().map(|s| s.to_string()).collect()
}

#[test]
fn trailing_service_argument_picks_the_service() {
    let a = split_service_argument(&strings(&["a.txt", "b.txt", "temp_sh"]), false);
    assert_eq!(a.files, strings(&["a.txt", "b.txt"]));
    assert_eq!(a.service, Some(ApiKind::TempSh));
    assert_eq!(effective_service(a.service, "litterbox"), Ok(ApiKind::TempSh));
    let a = split_service_argument(&strings(&["*", "uguu"]), false);
    assert_eq!(a.files, strings(&["*"]));
    assert_eq!(a.service, Some(ApiKind::Uguu));
}

#[test]
fn trailing_argument_that_is_a_file_stays_a_file() {
    let a = split_service_argument(&strings(&["a.txt", "temp_sh"]), true);
    assert_eq!(a.files, strings(&["a.txt", "temp_sh"]));
    assert_eq!(a.service, None);
    let a = split_service_argument(&strings(&["a.txt", "dropbox"]), false);
    assert_eq!(a.files, strings(&["a.txt", "dropbox"]));
    assert_eq!(a.service, None);
    let a = split_service_argument(&strings(&["temp_sh", "a.txt"]), false);
    assert_eq!(a.service, None);
    let a = split_service_argument(&Vec::new(), false);
    assert!(a.files.is_empty());
    assert_eq!(a.service, None);
}

#[test]
fn without_a_picked_service_the_configured_one_is_used() {
    assert_eq!(effective_service(None, "bashupload"), Ok(ApiKind::Bashupload));
    assert_eq!(
        effective_service(None, "nope"),
        Err(UploadError::UnsupportedApiType("nope".to_string()))
    );
    assert_eq!(effective_service(Some(ApiKind::Litterbox), "nope"), Ok(ApiKind::Litterbox));
}

#[test]
fn loose_time_is_taken_as_the_time_option() {
    let mut api = ApiConfig { api_type: "litterbox".to_string(), options: Options::new() };
    api.adopt_loose_time(Some("12h".to_string()));
    assert_eq!(api.upload_time(), "12h");
    api.adopt_loose_time(Some("72h".to_string()));
    assert_eq!(api.upload_time(), "12h");
    api.adopt_loose_time(None);
    assert_eq!(api.options.len(), 1);
    assert_eq!(api.api_type, "litterbox");
}
