//! Configuration model: the stations, the global UI block, and how the
//! layers of UI settings combine.

pub mod station;
pub mod ui_config;
pub mod utils;

use vstd::prelude::*;

pub use station::Station;
pub use ui_config::UiConfig;
pub use utils::{config_path_segments, hex_color_readable, parse_hex_color, Rgb};

use station::StationView;
use ui_config::{default_view, empty_view, layer, UiView};

verus! {

/// The whole configuration file: the stations and the global UI block.
#[derive(Debug, PartialEq, Eq, PartialOrd, Ord)]
pub struct Config {
    pub stations: Vec<Station>,
    pub ui: Option<UiConfig>,
}

/// The abstract value of a `Config`.
pub struct ConfigView {
    pub stations: Seq<StationView>,
    pub ui: Option<UiView>,
}

impl View for Config {
    type V = ConfigView;

    open spec fn view(&self) -> ConfigView {
        ConfigView {
            stations: self.stations@.map_values(|s: Station| s@),
            ui: station::ui_layer_view(self.ui),
        }
    }
}

/// The view of a configuration holds every station's view, in order, and the
/// view of its `ui` block.
pub proof fn lemma_config_view_fields(c: Config)
    ensures
        c@.stations.len() == c.stations@.len(),
        forall|i: int| 0 <= i < c.stations@.len() ==> #[trigger] c@.stations[i] == c.stations@[i]@,
        c.ui is None <==> c@.ui is None,
        forall|u: UiConfig| c.ui == Some(u) ==> #[trigger] c@.ui == Some(u@),
{
}

/// A layer that may be absent: an absent one sets nothing.
pub open spec fn layer_or_empty(u: Option<UiView>) -> UiView {
    match u {
        Some(v) => v,
        None => empty_view(),
    }
}

/// The global UI settings: the configuration's `ui` block over the defaults.
pub open spec fn global_ui(c: ConfigView) -> UiView {
    layer(default_view(), layer_or_empty(c.ui))
}

/// The settings a station is shown with: its own `override_ui` over the
/// global settings, which lie over the defaults.
pub open spec fn station_ui(c: ConfigView, s: StationView) -> UiView {
    layer(global_ui(c), layer_or_empty(s.override_ui))
}

/// How one resolved field relates to the layers: the station's value when it
/// sets one, else the global block's when that sets one, else the default.
pub open spec fn falls_back<T>(
    resolved: Option<T>,
    station: Option<T>,
    global: Option<T>,
    default: Option<T>,
) -> bool {
    &&& station is Some ==> resolved == station
    &&& station is None && global is Some ==> resolved == global
    &&& station is None && global is None ==> resolved == default
}

/// The value that a layer which may be absent gives one field: the field's
/// value in the layer when the layer is there, and none when it is absent.
pub open spec fn set_in<T>(layer: Option<UiView>, field: spec_fn(UiView) -> Option<T>) -> Option<T> {
    match layer {
        Some(v) => field(v),
        None => None,
    }
}

/// A station's `override_ui` overrides exactly the fields it sets; every other
/// field falls back to the global `ui` block, then to the built-in defaults
/// (max height 3, max width 40, rounded corners, a border, border color
/// `#ffffff`, the icon prefix, no prefix color, single line).
pub proof fn lemma_station_ui_precedence(c: ConfigView, s: StationView)
    ensures
        ({
            let r = station_ui(c, s);
            let st = s.override_ui;
            let g = c.ui;
            &&& falls_back(
                r.max_height,
                set_in(st, |v: UiView| v.max_height),
                set_in(g, |v: UiView| v.max_height),
                Some(3usize),
            )
            &&& falls_back(
                r.max_width,
                set_in(st, |v: UiView| v.max_width),
                set_in(g, |v: UiView| v.max_width),
                Some(40usize),
            )
            &&& falls_back(
                r.rounded_corners,
                set_in(st, |v: UiView| v.rounded_corners),
                set_in(g, |v: UiView| v.rounded_corners),
                Some(true),
            )
            &&& falls_back(
                r.border,
                set_in(st, |v: UiView| v.border),
                set_in(g, |v: UiView| v.border),
                Some(true),
            )
            &&& falls_back(
                r.border_color,
                set_in(st, |v: UiView| v.border_color),
                set_in(g, |v: UiView| v.border_color),
                Some("#ffffff"@),
            )
            &&& falls_back(
                r.prefix,
                set_in(st, |v: UiView| v.prefix),
                set_in(g, |v: UiView| v.prefix),
                Some(" \u{f044} "@),
            )
            &&& falls_back(
                r.prefix_color,
                set_in(st, |v: UiView| v.prefix_color),
                set_in(g, |v: UiView| v.prefix_color),
                None,
            )
            &&& falls_back(
                r.multiline,
                set_in(st, |v: UiView| v.multiline),
                set_in(g, |v: UiView| v.multiline),
                Some(false),
            )
        }),
{
}

/// The global settings are the `ui` block's fields where it sets them and the
/// defaults elsewhere; a station without `override_ui` is shown with exactly
/// the global settings.
pub proof fn lemma_global_ui(c: ConfigView, s: StationView)
    ensures
        s.override_ui is None ==> station_ui(c, s) == global_ui(c),
        c.ui is None ==> global_ui(c) == default_view(),
{
}

impl Config {
    /// The global UI settings, every field that the `ui` block leaves unset
    /// taken from the defaults.
    pub fn get_ui(&self) -> (ui: UiConfig)
        ensures
            ui@ == global_ui(self@),
    {
        match &self.ui {
            Some(ui) => UiConfig::default().override_with(ui),
            None => UiConfig::default(),
        }
    }

    /// The UI settings that `station` is shown with.
    pub fn ui_for(&self, station: &Station) -> (ui: UiConfig)
        ensures
            ui@ == station_ui(self@, station@),
    {
        let global = self.get_ui();
        match &station.override_ui {
            Some(conf) => global.override_with(conf),
            None => global,
        }
    }

    /// The configuration that `init` writes: the default UI block and one
    /// example station that echoes its input, shown with its own UI settings.
    pub fn init_config() -> (conf: Self)
        ensures
            conf@.ui == Some(default_view()),
            conf@.stations.len() == 1,
            conf@.stations[0].name == "echo"@,
            conf@.stations[0].description == "Echo"@,
            conf@.stations[0].run == seq!["echo"@, "{}"@],
            conf@.stations[0].default == None::<Seq<char>>,
            conf@.stations[0].override_ui == Some(
                UiView {
                    max_height: Some(10),
                    max_width: Some(70),
                    rounded_corners: Some(true),
                    border: Some(true),
                    border_color: Some("#0000FF"@),
                    prefix: Some(" => "@),
                    prefix_color: Some("#00FF00"@),
                    multiline: Some(true),
                },
            ),
    {
        let mut conf = Self::default();
        let mut run: Vec<String> = Vec::new();
        run.push(String::from_str("echo"));
        run.push(String::from_str("{}"));
        conf.stations.push(
            Station {
                name: String::from_str("echo"),
                description: String::from_str("Echo"),
                run,
                default: None,
                override_ui: Some(
                    UiConfig {
                        max_height: Some(10),
                        max_width: Some(70),
                        rounded_corners: Some(true),
                        border: Some(true),
                        border_color: Some(String::from_str("#0000FF")),
                        prefix: Some(String::from_str(" => ")),
                        prefix_color: Some(String::from_str("#00FF00")),
                        multiline: Some(true),
                    },
                ),
            },
        );
        assert(conf@.stations[0].run =~= seq!["echo"@, "{}"@]);
        conf
    }

    /// The names of the stations, in the order of the configuration.
    pub fn list_station_by_names(&self) -> (names: Vec<&str>)
        ensures
            names@.len() == self.stations@.len(),
            forall|i: int| 0 <= i < names@.len() ==> #[trigger] names@[i]@ == self.stations@[i].name@,
    {
        let mut result: Vec<&str> = Vec::new();
        let n = self.stations.len();
        for i in 0..n
            invariant
                n == self.stations.len(),
                result@.len() == i,
                forall|j: int| 0 <= j < i ==> #[trigger] result@[j]@ == self.stations@[j].name@,
        {
            result.push(self.stations[i].name.as_str());
        }
        result
    }

    /// The first station named `name`, if any.
    pub fn find_station(&self, name: &str) -> (found: Option<&Station>)
        ensures
            match found {
                Some(s) => exists|i: int|
                    0 <= i < self.stations@.len() && self.stations@[i] == *s
                        && #[trigger] self.stations@[i].name@ == name@
                        && forall|j: int| 0 <= j < i ==> self.stations@[j].name@ != name@,
                None => forall|j: int|
                    0 <= j < self.stations@.len() ==> #[trigger] self.stations@[j].name@ != name@,
            },
    {
        let target = name.to_owned();
        let n = self.stations.len();
        for i in 0..n
            invariant
                n == self.stations.len(),
                target@ == name@,
                forall|j: int| 0 <= j < i ==> #[trigger] self.stations@[j].name@ != name@,
        {
            if self.stations[i].name == target {
                return Some(&self.stations[i]);
            }
        }
        None
    }
}

impl Default for Config {
    fn default() -> (conf: Self)
        ensures
            conf@.stations.len() == 0,
            conf@.ui == Some(default_view()),
    {
        Config { stations: Vec::new(), ui: Some(UiConfig::default()) }
    }
}

} // verus!
