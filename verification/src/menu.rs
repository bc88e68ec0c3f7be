//! The configuration menu: its states, the choices it offers, and the
//! configuration a choice produces.

use vstd::prelude::*;
use crate::api::{ApiKind, api_name, service_order};
use crate::config::{ApiConfig, Config, time_key, time_or};
use crate::options::Options;
use crate::text::{push_str, string_of};

verus! {

/// Where the configuration menu stands.
#[derive(Clone, Copy, PartialEq, Eq, Structural, Debug)]
pub enum ConfigMenu {
    /// The main menu: edit the API settings, or save and leave.
    Main,
    /// Choosing the service and its options.
    ApiSettings,
}

/// What happened in the current menu.
#[derive(Clone, Copy, PartialEq, Eq, Structural, Debug)]
pub enum MenuEvent {
    /// An item of the main menu was chosen (0: API settings, 1: save and exit).
    MainChoice(usize),
    /// The API settings were chosen and saved.
    ApiConfigured,
}

/// Whether an event can happen in a menu state.
pub open spec fn event_fits(menu: ConfigMenu, event: MenuEvent) -> bool {
    match (menu, event) {
        (ConfigMenu::Main, MenuEvent::MainChoice(i)) => i < 2,
        (ConfigMenu::ApiSettings, MenuEvent::ApiConfigured) => true,
        _ => false,
    }
}

/// The next menu state, or `None` once the user saves and leaves. From the
/// main menu, item 0 opens the API settings and item 1 leaves; the API
/// settings always lead back to the main menu.
pub fn menu_step(menu: ConfigMenu, event: MenuEvent) -> (next: Option<ConfigMenu>)
    requires
        event_fits(menu, event),
    ensures
        menu == ConfigMenu::ApiSettings ==> next == Some(ConfigMenu::Main),
        event == MenuEvent::MainChoice(0) ==> next == Some(ConfigMenu::ApiSettings),
        event == MenuEvent::MainChoice(1) ==> next is None,
{
    match event {
        MenuEvent::MainChoice(i) => {
            if i == 0 {
                Some(ConfigMenu::ApiSettings)
            } else {
                None
            }
        },
        MenuEvent::ApiConfigured => Some(ConfigMenu::Main),
    }
}

/// The items of the main menu.
pub fn main_menu_items() -> (v: Vec<String>)
    ensures
        v@.len() == 2,
        v@[0]@ == "API Settings"@,
        v@[1]@ == "Save and Exit"@,
{
    vec![string_of("API Settings"), string_of("Save and Exit")]
}

/// The heading of the main menu: `Current API: <api>`, followed by
/// ` (time: <time>)` when a non-empty time is configured.
pub open spec fn main_prompt_text(api_type: Seq<char>, options: Map<Seq<char>, Seq<char>>) -> Seq<char> {
    let time = time_or(options, Seq::<char>::empty());
    if time.len() == 0 {
        "Current API: "@ + api_type
    } else {
        "Current API: "@ + api_type + " (time: "@ + time + ")"@
    }
}

/// The heading of the main menu for the current configuration.
pub fn main_menu_prompt(config: &Config) -> (m: String)
    ensures
        m@ == main_prompt_text(config.api.api_type@, config.api.options@),
{
    let time = config.api.shown_time();
    let mut m = string_of("Current API: ");
    push_str(&mut m, config.api.api_type.as_str());
    if time.as_str().unicode_len() != 0 {
        push_str(&mut m, " (time: ");
        push_str(&mut m, time.as_str());
        push_str(&mut m, ")");
    }
    m
}

/// The items of the service menu, in the order of [`service_order`].
pub fn api_menu_items() -> (v: Vec<String>)
    ensures
        v@.len() == 4,
        v@[0]@ == "litterbox (up to 1GB per file)"@,
        v@[1]@ == "temp_sh (up to 4GB per file, files expire after 3 days)"@,
        v@[2]@ == "uguu.se (up to 128 MiB per file, files expire after 3 hours)"@,
        v@[3]@ == "bashupload (up to 50GB per file, files expire after 3 days, one-time download)"@,
{
    vec![
        string_of("litterbox (up to 1GB per file)"),
        string_of("temp_sh (up to 4GB per file, files expire after 3 days)"),
        string_of("uguu.se (up to 128 MiB per file, files expire after 3 hours)"),
        string_of("bashupload (up to 50GB per file, files expire after 3 days, one-time download)"),
    ]
}

/// The service an item of the service menu selects.
pub fn api_for_choice(i: usize) -> (k: ApiKind)
    requires
        i < 4,
    ensures
        k == service_order()[i as int],
{
    if i == 0 {
        ApiKind::Litterbox
    } else if i == 1 {
        ApiKind::TempSh
    } else if i == 2 {
        ApiKind::Uguu
    } else {
        ApiKind::Bashupload
    }
}

/// Whether choosing a service goes on to ask for an expiry time: only
/// litterbox does.
pub fn asks_for_time(kind: ApiKind) -> (r: bool)
    ensures
        r == (kind == ApiKind::Litterbox),
{
    kind == ApiKind::Litterbox
}

/// The expiry times litterbox offers, in menu order.
pub open spec fn time_choices() -> Seq<Seq<char>> {
    seq!["1h"@, "12h"@, "24h"@, "72h"@]
}

/// The items of the expiry time menu.
pub fn time_menu_items() -> (v: Vec<String>)
    ensures
        v@.len() == 4,
        forall|i: int| 0 <= i < 4 ==> #[trigger] v@[i]@ == time_choices()[i],
{
    let v = vec![string_of("1h"), string_of("12h"), string_of("24h"), string_of("72h")];
    assert forall|i: int| 0 <= i < 4 implies #[trigger] v@[i]@ == time_choices()[i] by {}
    v
}

/// The expiry time an item of the time menu selects.
pub fn time_for_choice(i: usize) -> (t: String)
    requires
        i < 4,
    ensures
        t@ == time_choices()[i as int],
{
    if i == 0 {
        string_of("1h")
    } else if i == 1 {
        string_of("12h")
    } else if i == 2 {
        string_of("24h")
    } else {
        string_of("72h")
    }
}

/// The options a choice of service and time sets: the time for litterbox,
/// nothing for the other services.
pub open spec fn chosen_options(kind: ApiKind, time_choice: Option<usize>) -> Map<Seq<char>, Seq<char>> {
    if kind == ApiKind::Litterbox {
        Map::<Seq<char>, Seq<char>>::empty().insert(time_key(), time_choices()[time_choice->0 as int])
    } else {
        Map::<Seq<char>, Seq<char>>::empty()
    }
}

/// The API settings that replace the configured ones after a choice in the
/// menu: the chosen service, with the chosen time when it is litterbox.
pub fn chosen_api_config(kind: ApiKind, time_choice: Option<usize>) -> (c: ApiConfig)
    requires
        kind == ApiKind::Litterbox ==> (time_choice matches Some(t) && t < 4),
    ensures
        c.api_type@ == api_name(kind),
        c.options@ == chosen_options(kind, time_choice),
{
    let mut options = Options::new();
    if kind == ApiKind::Litterbox {
        let t = match time_choice {
            Some(t) => t,
            None => 0,
        };
        options.insert(string_of("time"), time_for_choice(t));
    }
    ApiConfig { api_type: kind.name(), options }
}

} // verus!
