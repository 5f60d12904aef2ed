use vstd::prelude::*;
use vstd::string::*;

use crate::geolocation::{CitySearchResult, CitySearchResultView, result_views};
use crate::text::{is_blank, is_blank_text};

verus! {

/// A coordinate as the applet's logic reads it: the decimal text it is shown
/// as, and whether it is zero.
#[derive(Debug, Clone)]
pub struct Coordinate {
    pub text: String,
    pub is_zero: bool,
}

pub struct CoordinateView {
    pub text: Seq<char>,
    pub is_zero: bool,
}

impl View for Coordinate {
    type V = CoordinateView;

    open spec fn view(&self) -> CoordinateView {
        CoordinateView { text: self.text@, is_zero: self.is_zero }
    }
}

/// Where the machine's public address is, as the geolocation service puts it.
#[derive(Debug, Clone)]
pub struct IpGeolocation {
    pub latitude: Coordinate,
    pub longitude: Coordinate,
    pub city: String,
    pub region: String,
    pub country: String,
}

/// What the applet reacts to: timer ticks, the weather service's answers and
/// the user's edits in the settings popup.
#[derive(Debug, Clone)]
pub enum Message {
    /// The minute timer fired.
    Tick,
    /// A new temperature arrived (the value itself is kept by the caller).
    UpdateTemperature,
    /// The panel button was pressed. `new_popup` is a fresh window id, used if
    /// the popup opens; `has_main_window` tells whether the panel window exists.
    TogglePopup { new_popup: u64, has_main_window: bool },
    LatitudeInput(String),
    LongitudeInput(String),
    ToggleTemperatureUnit(bool),
    /// Save was pressed; `coordinates_valid` tells whether both coordinate
    /// inputs read as numbers.
    SaveConfig { coordinates_valid: bool },
    ClosePopup,
    GetCurrentLocation,
    /// The outcome of locating the machine: a label and the coordinates.
    LocationFound(String, Coordinate, Coordinate),
    CitySearchInput(String),
    CitySearchResults(Vec<CitySearchResult>),
    SelectCity(CitySearchResult),
}

/// What the caller is asked to do after a message, in order.
#[derive(Debug, Clone)]
pub enum Action {
    /// Reload the configuration and fetch the forecast for it.
    RefreshWeather,
    /// Open the settings popup under this id.
    CreatePopup(u64),
    /// Close the popup with this id.
    DestroyPopup(u64),
    /// Store the coordinates typed in and this temperature unit.
    WriteConfig { use_fahrenheit: bool },
    /// Look up the machine's location from its public address.
    LocateByIp,
    /// Search Nominatim for this query.
    SearchCities(String),
}

/// The applet's state, apart from the temperature itself.
pub struct Weather {
    pub popup: Option<u64>,
    pub latitude_input: String,
    pub longitude_input: String,
    pub use_fahrenheit: bool,
    pub location_status: String,
    pub city_search_input: String,
    pub city_search_results: Vec<CitySearchResult>,
}

pub struct WeatherView {
    pub popup: Option<u64>,
    pub latitude_input: Seq<char>,
    pub longitude_input: Seq<char>,
    pub use_fahrenheit: bool,
    pub location_status: Seq<char>,
    pub city_search_input: Seq<char>,
    pub city_search_results: Seq<CitySearchResultView>,
}

impl View for Weather {
    type V = WeatherView;

    open spec fn view(&self) -> WeatherView {
        WeatherView {
            popup: self.popup,
            latitude_input: self.latitude_input@,
            longitude_input: self.longitude_input@,
            use_fahrenheit: self.use_fahrenheit,
            location_status: self.location_status@,
            city_search_input: self.city_search_input@,
            city_search_results: result_views(self.city_search_results@),
        }
    }
}

pub enum MessageView {
    Tick,
    UpdateTemperature,
    TogglePopup { new_popup: u64, has_main_window: bool },
    LatitudeInput(Seq<char>),
    LongitudeInput(Seq<char>),
    ToggleTemperatureUnit(bool),
    SaveConfig { coordinates_valid: bool },
    ClosePopup,
    GetCurrentLocation,
    LocationFound(Seq<char>, CoordinateView, CoordinateView),
    CitySearchInput(Seq<char>),
    CitySearchResults(Seq<CitySearchResultView>),
    SelectCity(CitySearchResultView),
}

impl View for Message {
    type V = MessageView;

    open spec fn view(&self) -> MessageView {
        match self {
            Message::Tick => MessageView::Tick,
            Message::UpdateTemperature => MessageView::UpdateTemperature,
            Message::TogglePopup { new_popup, has_main_window } => MessageView::TogglePopup {
                new_popup: *new_popup,
                has_main_window: *has_main_window,
            },
            Message::LatitudeInput(v) => MessageView::LatitudeInput(v@),
            Message::LongitudeInput(v) => MessageView::LongitudeInput(v@),
            Message::ToggleTemperatureUnit(f) => MessageView::ToggleTemperatureUnit(*f),
            Message::SaveConfig { coordinates_valid } => MessageView::SaveConfig {
                coordinates_valid: *coordinates_valid,
            },
            Message::ClosePopup => MessageView::ClosePopup,
            Message::GetCurrentLocation => MessageView::GetCurrentLocation,
            Message::LocationFound(label, lat, lon) => MessageView::LocationFound(label@, lat@, lon@),
            Message::CitySearchInput(q) => MessageView::CitySearchInput(q@),
            Message::CitySearchResults(r) => MessageView::CitySearchResults(result_views(r@)),
            Message::SelectCity(c) => MessageView::SelectCity(c@),
        }
    }
}

pub enum ActionView {
    RefreshWeather,
    CreatePopup(u64),
    DestroyPopup(u64),
    WriteConfig { use_fahrenheit: bool },
    LocateByIp,
    SearchCities(Seq<char>),
}

impl View for Action {
    type V = ActionView;

    open spec fn view(&self) -> ActionView {
        match self {
            Action::RefreshWeather => ActionView::RefreshWeather,
            Action::CreatePopup(id) => ActionView::CreatePopup(*id),
            Action::DestroyPopup(id) => ActionView::DestroyPopup(*id),
            Action::WriteConfig { use_fahrenheit } => ActionView::WriteConfig {
                use_fahrenheit: *use_fahrenheit,
            },
            Action::LocateByIp => ActionView::LocateByIp,
            Action::SearchCities(q) => ActionView::SearchCities(q@),
        }
    }
}

pub open spec fn action_views(s: Seq<Action>) -> Seq<ActionView> {
    s.map_values(|a: Action| a@)
}

pub open spec fn initial_status() -> Seq<char> {
    "Enter coordinates manually or detect automatically"@
}

pub open spec fn locating_status() -> Seq<char> {
    "Getting location..."@
}

pub open spec fn found_status(label: Seq<char>) -> Seq<char> {
    "Found: "@ + label
}

pub open spec fn selected_status(display_name: Seq<char>) -> Seq<char> {
    "Selected: "@ + display_name
}

/// The state the applet starts in, with the saved coordinates and unit.
pub open spec fn initial_state(latitude: Seq<char>, longitude: Seq<char>, use_fahrenheit: bool) -> WeatherView {
    WeatherView {
        popup: None,
        latitude_input: latitude,
        longitude_input: longitude,
        use_fahrenheit,
        location_status: initial_status(),
        city_search_input: seq![],
        city_search_results: seq![],
    }
}

/// Closing the popup, if one is open.
pub open spec fn close_popup(s: WeatherView) -> (WeatherView, Seq<ActionView>) {
    match s.popup {
        Some(id) => (WeatherView { popup: None, ..s }, seq![ActionView::DestroyPopup(id)]),
        None => (s, seq![]),
    }
}

/// The applet's response to a message: the next state and what to do.
pub open spec fn step(s: WeatherView, m: MessageView) -> (WeatherView, Seq<ActionView>) {
    match m {
        MessageView::Tick => (s, seq![ActionView::RefreshWeather]),
        MessageView::UpdateTemperature => (s, seq![]),
        MessageView::TogglePopup { new_popup, has_main_window } => match s.popup {
            Some(id) => (WeatherView { popup: None, ..s }, seq![ActionView::DestroyPopup(id)]),
            None => (
                WeatherView { popup: Some(new_popup), ..s },
                if has_main_window {
                    seq![ActionView::CreatePopup(new_popup)]
                } else {
                    seq![]
                },
            ),
        },
        MessageView::LatitudeInput(v) => (WeatherView { latitude_input: v, ..s }, seq![]),
        MessageView::LongitudeInput(v) => (WeatherView { longitude_input: v, ..s }, seq![]),
        MessageView::ToggleTemperatureUnit(f) => (WeatherView { use_fahrenheit: f, ..s }, seq![]),
        MessageView::SaveConfig { coordinates_valid } => {
            if coordinates_valid {
                let (closed, closing) = close_popup(s);
                (
                    closed,
                    seq![
                        ActionView::WriteConfig { use_fahrenheit: s.use_fahrenheit },
                        ActionView::RefreshWeather,
                    ] + closing,
                )
            } else {
                (s, seq![])
            }
        },
        MessageView::ClosePopup => close_popup(s),
        MessageView::GetCurrentLocation => (
            WeatherView { location_status: locating_status(), ..s },
            seq![ActionView::LocateByIp],
        ),
        MessageView::LocationFound(label, lat, lon) => {
            if !lat.is_zero && !lon.is_zero {
                (
                    WeatherView {
                        latitude_input: lat.text,
                        longitude_input: lon.text,
                        location_status: found_status(label),
                        ..s
                    },
                    seq![],
                )
            } else {
                (WeatherView { location_status: label, ..s }, seq![])
            }
        },
        MessageView::CitySearchInput(q) => {
            if !is_blank_text(q) {
                (WeatherView { city_search_input: q, ..s }, seq![ActionView::SearchCities(q)])
            } else {
                (WeatherView { city_search_input: q, city_search_results: seq![], ..s }, seq![])
            }
        },
        MessageView::CitySearchResults(r) => (WeatherView { city_search_results: r, ..s }, seq![]),
        MessageView::SelectCity(c) => (
            WeatherView {
                latitude_input: c.latitude,
                longitude_input: c.longitude,
                location_status: selected_status(c.display_name),
                city_search_input: seq![],
                city_search_results: seq![],
                ..s
            },
            seq![],
        ),
    }
}

/// The label shown for a located machine: its city and region.
pub open spec fn location_label(city: Seq<char>, region: Seq<char>) -> Seq<char> {
    city + ", "@ + region
}

pub open spec fn failure_label() -> Seq<char> {
    "Location detection failed"@
}

/// The coordinate reported when locating fails.
pub open spec fn zero_coordinate() -> CoordinateView {
    CoordinateView { text: "0"@, is_zero: true }
}

/// The message that reports the outcome of locating the machine: its city
/// and region with its coordinates, or the failure with zero coordinates.
pub fn location_found(result: Option<IpGeolocation>) -> (m: Message)
    ensures
        match result {
            Some(loc) => m@ == MessageView::LocationFound(
                location_label(loc.city@, loc.region@),
                loc.latitude@,
                loc.longitude@,
            ),
            None => m@ == MessageView::LocationFound(
                failure_label(),
                zero_coordinate(),
                zero_coordinate(),
            ),
        },
{
    match result {
        Some(loc) => {
            let mut label = loc.city;
            label.append(", ");
            label.append(loc.region.as_str());
            Message::LocationFound(label, loc.latitude, loc.longitude)
        },
        None => Message::LocationFound(
            String::from_str("Location detection failed"),
            Coordinate { text: String::from_str("0"), is_zero: true },
            Coordinate { text: String::from_str("0"), is_zero: true },
        ),
    }
}

// ---------------------------------------------------------------------------
// Laws of the applet's state machine
// ---------------------------------------------------------------------------

/// Law: a tick changes nothing and asks for the weather to be refreshed.
pub proof fn law_tick_refreshes(s: WeatherView)
    ensures
        step(s, MessageView::Tick) == (s, seq![ActionView::RefreshWeather]),
{
}

/// Law: a new temperature leaves the rest of the state alone.
pub proof fn law_temperature_changes_nothing_else(s: WeatherView)
    ensures
        step(s, MessageView::UpdateTemperature) == (s, Seq::<ActionView>::empty()),
{
}

/// Law: pressing the panel button twice, starting with the popup closed,
/// leaves the state as it was; the first press opens a popup (asking for it
/// only when the panel window exists) and the second closes that same popup.
pub proof fn law_toggle_twice_restores(
    s: WeatherView,
    first_id: u64,
    first_main: bool,
    second_id: u64,
    second_main: bool,
)
    requires
        s.popup is None,
    ensures
        ({
            let (s1, a1) = step(s, MessageView::TogglePopup { new_popup: first_id, has_main_window: first_main });
            let (s2, a2) = step(s1, MessageView::TogglePopup { new_popup: second_id, has_main_window: second_main });
            &&& s1.popup == Some(first_id)
            &&& a1 == (if first_main { seq![ActionView::CreatePopup(first_id)] } else { Seq::<ActionView>::empty() })
            &&& s2 == s
            &&& a2 == seq![ActionView::DestroyPopup(first_id)]
        }),
{
    let (s1, a1) = step(s, MessageView::TogglePopup { new_popup: first_id, has_main_window: first_main });
    let (s2, a2) = step(s1, MessageView::TogglePopup { new_popup: second_id, has_main_window: second_main });
    assert(s2 == s);
}

/// Law: closing leaves no popup open, destroys the one that was open (and
/// nothing when none was), and changes nothing else.
pub proof fn law_close_popup(s: WeatherView)
    ensures
        step(s, MessageView::ClosePopup).0 == (WeatherView { popup: None, ..s }),
        step(s, MessageView::ClosePopup).1 == match s.popup {
            Some(id) => seq![ActionView::DestroyPopup(id)],
            None => Seq::<ActionView>::empty(),
        },
{
}

/// Law: saving with a coordinate that does not read as a number changes
/// nothing and asks for nothing.
pub proof fn law_save_refused(s: WeatherView)
    ensures
        step(s, MessageView::SaveConfig { coordinates_valid: false }) == (s, Seq::<ActionView>::empty()),
{
}

/// Law: a successful save stores the configuration with the chosen unit, then
/// refreshes the weather, then closes the popup if one is open; the inputs
/// stay as they were.
pub proof fn law_save_accepted(s: WeatherView)
    ensures
        ({
            let (s1, a) = step(s, MessageView::SaveConfig { coordinates_valid: true });
            &&& s1 == (WeatherView { popup: None, ..s })
            &&& a.len() == (if s.popup is Some { 3int } else { 2int })
            &&& a[0] == ActionView::WriteConfig { use_fahrenheit: s.use_fahrenheit }
            &&& a[1] == ActionView::RefreshWeather
            &&& (s.popup matches Some(id) ==> a[2] == ActionView::DestroyPopup(id))
        }),
{
}

/// Law: editing an input changes that input alone and asks for nothing.
pub proof fn law_inputs_are_independent(s: WeatherView, v: Seq<char>, f: bool)
    ensures
        step(s, MessageView::LatitudeInput(v)) == (WeatherView { latitude_input: v, ..s }, Seq::<ActionView>::empty()),
        step(s, MessageView::LongitudeInput(v)) == (WeatherView { longitude_input: v, ..s }, Seq::<ActionView>::empty()),
        step(s, MessageView::ToggleTemperatureUnit(f)) == (WeatherView { use_fahrenheit: f, ..s }, Seq::<ActionView>::empty()),
{
}

/// Law: asking for the current location reports that it is being looked up
/// and asks for exactly one lookup; nothing else changes.
pub proof fn law_locate_request(s: WeatherView)
    ensures
        step(s, MessageView::GetCurrentLocation) == (
            WeatherView { location_status: "Getting location..."@, ..s },
            seq![ActionView::LocateByIp],
        ),
{
}

/// Law: the label of a located machine is its city, a comma and a space, and
/// its region.
pub proof fn law_location_label(city: Seq<char>, region: Seq<char>)
    ensures
        location_label(city, region).len() == city.len() + region.len() + 2,
        location_label(city, region).take(city.len() as int) == city,
        location_label(city, region)[city.len() as int] == ',',
        location_label(city, region)[city.len() + 1int] == ' ',
        location_label(city, region).skip(city.len() + 2int) == region,
{
    reveal_strlit(", ");
    assert(location_label(city, region).take(city.len() as int) =~= city);
    assert(location_label(city, region).skip(city.len() + 2int) =~= region);
}

/// Law: a blank search text clears the offered cities and sends no request;
/// any other text sends exactly one request, for that text, and keeps the
/// cities offered so far until the answer arrives.
pub proof fn law_search_input(s: WeatherView, q: Seq<char>)
    ensures
        is_blank_text(q) ==> step(s, MessageView::CitySearchInput(q)) == (
            WeatherView { city_search_input: q, city_search_results: seq![], ..s },
            Seq::<ActionView>::empty(),
        ),
        !is_blank_text(q) ==> step(s, MessageView::CitySearchInput(q)) == (
            WeatherView { city_search_input: q, ..s },
            seq![ActionView::SearchCities(q)],
        ),
{
}

/// Law: an answer to a city search replaces the cities offered so far, with
/// exactly the cities it carries; nothing else changes and nothing is asked
/// for.
pub proof fn law_search_results_replace(s: WeatherView, r: Seq<CitySearchResultView>)
    ensures
        step(s, MessageView::CitySearchResults(r)).0.city_search_results == r,
        step(s, MessageView::CitySearchResults(r)).0 == (WeatherView { city_search_results: r, ..s }),
        step(s, MessageView::CitySearchResults(r)).1.len() == 0,
{
}

/// Law: of two answers to city searches in a row, the later one alone is
/// offered; the earlier one leaves no trace.
pub proof fn law_latest_search_results_win(
    s: WeatherView,
    first: Seq<CitySearchResultView>,
    second: Seq<CitySearchResultView>,
)
    ensures
        step(step(s, MessageView::CitySearchResults(first)).0, MessageView::CitySearchResults(second)).0
            == step(s, MessageView::CitySearchResults(second)).0,
        step(step(s, MessageView::CitySearchResults(first)).0, MessageView::CitySearchResults(second)).0.city_search_results.len()
            == second.len(),
{
}

/// Law: choosing a city takes its coordinates into the inputs, names it in
/// the status line and clears the search.
pub proof fn law_select_city(s: WeatherView, c: CitySearchResultView)
    ensures
        ({
            let (s1, a) = step(s, MessageView::SelectCity(c));
            &&& s1.latitude_input == c.latitude
            &&& s1.longitude_input == c.longitude
            &&& s1.location_status == selected_status(c.display_name)
            &&& s1.city_search_input.len() == 0
            &&& s1.city_search_results.len() == 0
            &&& s1.popup == s.popup
            &&& s1.use_fahrenheit == s.use_fahrenheit
            &&& a.len() == 0
        }),
{
}

/// Law: a located position is taken into the inputs only when neither
/// coordinate is zero; otherwise the inputs stay and the label alone is shown.
pub proof fn law_location_found(s: WeatherView, label: Seq<char>, lat: CoordinateView, lon: CoordinateView)
    ensures
        ({
            let (s1, a) = step(s, MessageView::LocationFound(label, lat, lon));
            &&& a.len() == 0
            &&& (!lat.is_zero && !lon.is_zero) ==> s1 == (WeatherView {
                latitude_input: lat.text,
                longitude_input: lon.text,
                location_status: found_status(label),
                ..s
            })
            &&& (lat.is_zero || lon.is_zero) ==> s1 == (WeatherView { location_status: label, ..s })
        }),
{
}

/// Law: a failed lookup only reports the failure in the status line.
pub proof fn law_failed_location_keeps_inputs(s: WeatherView)
    ensures
        step(s, MessageView::LocationFound(failure_label(), zero_coordinate(), zero_coordinate())) == (
            WeatherView { location_status: failure_label(), ..s },
            Seq::<ActionView>::empty(),
        ),
{
}

/// Law: popups are opened and closed in step with the state; a popup is
/// destroyed only when it is the one open, and leaves none open, and a popup
/// is created only when none was open, under the id the state then holds.
pub proof fn law_popup_actions_follow_state(s: WeatherView, m: MessageView)
    ensures
        forall|i: int| 0 <= i < step(s, m).1.len() ==> match #[trigger] step(s, m).1[i] {
            ActionView::DestroyPopup(id) => s.popup == Some(id) && step(s, m).0.popup is None,
            ActionView::CreatePopup(id) => s.popup is None && step(s, m).0.popup == Some(id),
            _ => true,
        },
{
    let (s1, a) = step(s, m);
    match m {
        MessageView::SaveConfig { coordinates_valid } => {
            if coordinates_valid {
                let (closed, closing) = close_popup(s);
                let head = seq![
                    ActionView::WriteConfig { use_fahrenheit: s.use_fahrenheit },
                    ActionView::RefreshWeather,
                ];
                assert forall|i: int| 0 <= i < a.len() implies match #[trigger] a[i] {
                    ActionView::DestroyPopup(id) => s.popup == Some(id) && s1.popup is None,
                    ActionView::CreatePopup(id) => s.popup is None && s1.popup == Some(id),
                    _ => true,
                } by {
                    if i >= 2 {
                        assert(a[i] == closing[i - 2]);
                    } else {
                        assert(a[i] == head[i]);
                    }
                }
            }
        },
        _ => {},
    }
}

impl Weather {
    /// The applet at start-up, with the saved coordinates (as text) and unit,
    /// and the message it sends itself first: a tick, to fetch the weather.
    pub fn init(latitude: String, longitude: String, use_fahrenheit: bool) -> (r: (Weather, Message))
        ensures
            r.0@ == initial_state(latitude@, longitude@, use_fahrenheit),
            r.1@ == MessageView::Tick,
    {
        let w = Weather {
            popup: None,
            latitude_input: latitude,
            longitude_input: longitude,
            use_fahrenheit,
            location_status: String::from_str("Enter coordinates manually or detect automatically"),
            city_search_input: String::new(),
            city_search_results: Vec::new(),
        };
        proof {
            assert(result_views(w.city_search_results@) =~= seq![]);
        }
        (w, Message::Tick)
    }

    fn close_popup(&mut self) -> (actions: Vec<Action>)
        ensures
            (final(self)@, action_views(actions@)) == close_popup(old(self)@),
    {
        let mut actions: Vec<Action> = Vec::new();
        match self.popup {
            Some(id) => {
                self.popup = None;
                actions.push(Action::DestroyPopup(id));
                proof {
                    assert(action_views(actions@) =~= seq![ActionView::DestroyPopup(id)]);
                }
            },
            None => {
                proof {
                    assert(action_views(actions@) =~= seq![]);
                }
            },
        }
        actions
    }

    /// Reacts to `message`: updates the state and returns, in order, what the
    /// caller is to do.
    pub fn update(&mut self, message: Message) -> (actions: Vec<Action>)
        ensures
            (final(self)@, action_views(actions@)) == step(old(self)@, message@),
    {
        let ghost m = message@;
        let mut actions: Vec<Action> = Vec::new();
        match message {
            Message::Tick => {
                actions.push(Action::RefreshWeather);
            },
            Message::UpdateTemperature => {},
            Message::TogglePopup { new_popup, has_main_window } => {
                match self.popup {
                    Some(id) => {
                        self.popup = None;
                        actions.push(Action::DestroyPopup(id));
                    },
                    None => {
                        self.popup = Some(new_popup);
                        if has_main_window {
                            actions.push(Action::CreatePopup(new_popup));
                        }
                    },
                }
            },
            Message::LatitudeInput(v) => {
                self.latitude_input = v;
            },
            Message::LongitudeInput(v) => {
                self.longitude_input = v;
            },
            Message::ToggleTemperatureUnit(f) => {
                self.use_fahrenheit = f;
            },
            Message::SaveConfig { coordinates_valid } => {
                if coordinates_valid {
                    actions.push(Action::WriteConfig { use_fahrenheit: self.use_fahrenheit });
                    actions.push(Action::RefreshWeather);
                    let mut closing = self.close_popup();
                    actions.append(&mut closing);
                }
            },
            Message::ClosePopup => {
                actions = self.close_popup();
            },
            Message::GetCurrentLocation => {
                self.location_status = String::from_str("Getting location...");
                actions.push(Action::LocateByIp);
            },
            Message::LocationFound(label, lat, lon) => {
                if !lat.is_zero && !lon.is_zero {
                    self.latitude_input = lat.text;
                    self.longitude_input = lon.text;
                    let mut status = String::from_str("Found: ");
                    status.append(label.as_str());
                    self.location_status = status;
                } else {
                    self.location_status = label;
                }
            },
            Message::CitySearchInput(query) => {
                if !is_blank(query.as_str()) {
                    self.city_search_input = query.clone();
                    actions.push(Action::SearchCities(query));
                } else {
                    self.city_search_input = query;
                    self.city_search_results.clear();
                }
            },
            Message::CitySearchResults(results) => {
                self.city_search_results = results;
            },
            Message::SelectCity(city) => {
                self.latitude_input = city.latitude;
                self.longitude_input = city.longitude;
                let mut status = String::from_str("Selected: ");
                status.append(city.display_name.as_str());
                self.location_status = status;
                self.city_search_input = String::new();
                self.city_search_results.clear();
            },
        }
        proof {
            let (s2, a2) = step(old(self)@, m);
            assert(self@ == s2) by {
                assert(result_views(self.city_search_results@) =~= s2.city_search_results);
            }
            assert(action_views(actions@) =~= a2);
        }
        actions
    }
}

} // verus!
