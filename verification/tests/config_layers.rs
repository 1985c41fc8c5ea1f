use raddio::config::{Config, Station, UiConfig};

fn empty_ui() -> UiConfig {
    UiConfig {
        max_height: None,
        max_width: None,
        rounded_corners: None,
        border: None,
        border_color: None,
        prefix: None,
        prefix_color: None,
        multiline: None,
    }
}

fn station(name: &str, run: &[&str], default: Option<&str>, ui: Option<UiConfig>) -> Station {
    Station {
        name: name.to_string(),
        description: format!("{} station", name),
        run: run.iter().map(|s| s.to_string()).collect(),
        default: default.map(|s| s.to_string()),
        override_ui: ui,
    }
}

#[test]
fn default_ui_matches_documented_defaults() {
    let d = UiConfig::default();
    assert_eq!(d.max_height, Some(3));
    assert_eq!(d.max_width, Some(40));
    assert_eq!(d.rounded_corners, Some(true));
    assert_eq!(d.border, Some(true));
    assert_eq!(d.border_color.as_deref(), Some("#ffffff"));
    assert_eq!(d.prefix.as_deref(), Some(" \u{f044} "));
    assert_eq!(d.prefix_color, None);
    assert_eq!(d.multiline, Some(false));
}

#[test]
fn override_with_takes_only_the_fields_set() {
    let base = UiConfig::default();
    let mut over = empty_ui();
    over.max_width = Some(30);
    over.border_color = Some("#ff0000".to_string());
    let r = base.override_with(&over);
    assert_eq!(r.max_width, Some(30));
    assert_eq!(r.border_color.as_deref(), Some("#ff0000"));
    assert_eq!(r.max_height, Some(3));
    assert_eq!(r.prefix.as_deref(), Some(" \u{f044} "));
    assert_eq!(r.multiline, Some(false));
}

#[test]
fn override_with_empty_is_identity() {
    let base = UiConfig::default();
    assert_eq!(base.override_with(&empty_ui()), base);
    assert_eq!(empty_ui().override_with(&base), base);
}

#[test]
fn override_with_itself_is_identity() {
    let mut a = UiConfig::default();
    a.prefix_color = Some("#123456".to_string());
    assert_eq!(a.override_with(&a), a);
}

#[test]
fn override_with_is_associative() {
    let a = UiConfig::default();
    let mut b = empty_ui();
    b.max_height = Some(7);
    b.prefix = Some("> ".to_string());
    let mut c = empty_ui();
    c.max_height = Some(9);
    c.border = Some(false);
    let left = a.override_with(&b).override_with(&c);
    let right = a.override_with(&b.override_with(&c));
    assert_eq!(left, right);
    assert_eq!(left.max_height, Some(9));
    assert_eq!(left.border, Some(false));
    assert_eq!(left.prefix.as_deref(), Some("> "));
}

#[test]
fn get_ui_without_block_is_defaults() {
    let c = Config { stations: vec![], ui: None };
    assert_eq!(c.get_ui(), UiConfig::default());
}

#[test]
fn get_ui_keeps_the_user_settings() {
    let mut ui = empty_ui();
    ui.max_height = Some(12);
    ui.rounded_corners = Some(false);
    let c = Config { stations: vec![], ui: Some(ui) };
    let r = c.get_ui();
    assert_eq!(r.max_height, Some(12));
    assert_eq!(r.rounded_corners, Some(false));
    assert_eq!(r.max_width, Some(40));
    assert_eq!(r.border_color.as_deref(), Some("#ffffff"));
}

#[test]
fn station_override_falls_back_to_global_then_defaults() {
    let mut global = empty_ui();
    global.max_height = Some(6);
    global.max_width = Some(50);
    let mut own = empty_ui();
    own.max_width = Some(30);
    let c = Config {
        stations: vec![station("s", &["echo", "{}"], None, Some(own))],
        ui: Some(global),
    };
    let r = c.ui_for(&c.stations[0]);
    assert_eq!(r.max_width, Some(30));
    assert_eq!(r.max_height, Some(6));
    assert_eq!(r.border, Some(true));
    assert_eq!(r.prefix_color, None);
}

#[test]
fn station_without_override_uses_global() {
    let mut global = empty_ui();
    global.multiline = Some(true);
    let c = Config { stations: vec![station("s", &["true"], None, None)], ui: Some(global) };
    let r = c.ui_for(&c.stations[0]);
    assert_eq!(r, c.get_ui());
    assert_eq!(r.multiline, Some(true));
}

#[test]
fn default_config_has_no_station_and_default_ui() {
    let c = Config::default();
    assert!(c.stations.is_empty());
    assert_eq!(c.ui, Some(UiConfig::default()));
}

#[test]
fn init_config_holds_the_echo_station() {
    let c = Config::init_config();
    assert_eq!(c.ui, Some(UiConfig::default()));
    assert_eq!(c.stations.len(), 1);
    let s = &c.stations[0];
    assert_eq!(s.name, "echo");
    assert_eq!(s.description, "Echo");
    assert_eq!(s.run, vec!["echo".to_string(), "{}".to_string()]);
    assert_eq!(s.default, None);
    let ui = s.override_ui.as_ref().unwrap();
    assert_eq!(ui.max_height, Some(10));
    assert_eq!(ui.max_width, Some(70));
    assert_eq!(ui.rounded_corners, Some(true));
    assert_eq!(ui.border, Some(true));
    assert_eq!(ui.border_color.as_deref(), Some("#0000FF"));
    assert_eq!(ui.prefix.as_deref(), Some(" => "));
    assert_eq!(ui.prefix_color.as_deref(), Some("#00FF00"));
    assert_eq!(ui.multiline, Some(true));
}

#[test]
fn list_station_by_names_keeps_order() {
    let c = Config {
        stations: vec![
            station("switch session", &["zellij"], None, None),
            station("echo", &["echo", "{}"], None, None),
        ],
        ui: None,
    };
    assert_eq!(c.list_station_by_names(), vec!["switch session", "echo"]);
    let empty = Config { stations: vec![], ui: None };
    assert!(empty.list_station_by_names().is_empty());
}

#[test]
fn find_station_returns_first_match() {
    let c = Config {
        stations: vec![
            station("a", &["one"], None, None),
            station("b", &["two"], None, None),
            station("b", &["three"], None, None),
        ],
        ui: None,
    };
    assert_eq!(c.find_station("b").unwrap().run, vec!["two".to_string()]);
    assert_eq!(c.find_station("a").unwrap().run, vec!["one".to_string()]);
    assert!(c.find_station("c").is_none());
    assert!(c.find_station("").is_none());
}
