//! The forecast of a region: what is taken from the provider's document, what
//! becomes of a failed request, and the canned forecasts of the demo mode.

use crate::clock::now;
use crate::codes::{icon_for_code, icon_of};
use crate::error::{BackendError, ErrorView};
use crate::json::{parse_json, parsed_json, Json};
use vstd::prelude::*;

verus! {

/// A region with a forecast.
#[derive(Debug, Clone, Copy, PartialEq, Eq, Structural)]
pub enum Region {
    Tokyo,
    Fukuoka,
}

/// The address of a region's forecast document.
pub open spec fn forecast_url_text(region: Region) -> Seq<char> {
    match region {
        Region::Tokyo => "https://www.jma.go.jp/bosai/forecast/data/forecast/130000.json"@,
        Region::Fukuoka => "https://www.jma.go.jp/bosai/forecast/data/forecast/400000.json"@,
    }
}

/// The address of a region's forecast document.
pub fn forecast_url(region: Region) -> (r: &'static str)
    ensures
        r@ == forecast_url_text(region),
{
    match region {
        Region::Tokyo => "https://www.jma.go.jp/bosai/forecast/data/forecast/130000.json",
        Region::Fukuoka => "https://www.jma.go.jp/bosai/forecast/data/forecast/400000.json",
    }
}

/// The weather as the widget shows it.
#[derive(Debug, Clone, PartialEq, Eq)]
pub struct WeatherInfo {
    pub description: String,
    /// Degrees Celsius, in the decimal text that the forecast carries.
    pub temperature: String,
    pub weather_code: String,
    /// Percent.
    pub humidity: i32,
    pub icon: String,
}

pub struct WeatherView {
    pub description: Seq<char>,
    pub temperature: Seq<char>,
    pub weather_code: Seq<char>,
    pub humidity: int,
    pub icon: Seq<char>,
}

impl View for WeatherInfo {
    type V = WeatherView;

    open spec fn view(&self) -> WeatherView {
        WeatherView {
            description: self.description@,
            temperature: self.temperature@,
            weather_code: self.weather_code@,
            humidity: self.humidity as int,
            icon: self.icon@,
        }
    }
}

/// The humidity shown with every fetched forecast: the document carries none.
pub const DEFAULT_HUMIDITY: i32 = 50;

/// The member under a key of a value that was found, if it is an object with
/// that key.
pub open spec fn then_member(value: Option<Json>, key: Seq<char>) -> Option<Json> {
    match value {
        Some(json) => json.member(key),
        None => None,
    }
}

/// The element at an index of a value that was found, if it is an array that
/// long.
pub open spec fn then_element(value: Option<Json>, index: int) -> Option<Json> {
    match value {
        Some(json) => json.element(index),
        None => None,
    }
}

/// The first area of one block of the time series of the document's first
/// forecast.
pub open spec fn area_of(doc: Json, block: int) -> Option<Json> {
    then_element(
        then_member(
            then_element(then_member(doc.element(0), "timeSeries"@), block),
            "areas"@,
        ),
        0,
    )
}

/// The first entry of a list of an area, where that entry is a text.
pub open spec fn first_text(area: Option<Json>, key: Seq<char>) -> Option<Seq<char>> {
    match then_element(then_member(area, key), 0) {
        Some(json) => json.text(),
        None => None,
    }
}

/// The text that was found, or the fallback.
pub open spec fn text_or(found: Option<Seq<char>>, fallback: Seq<char>) -> Seq<char> {
    match found {
        Some(text) => text,
        None => fallback,
    }
}

/// The weather that a forecast document gives: code and wording from the
/// first block of the time series, the temperature from the third, each with
/// its fallback where the document has no text at that place.
pub open spec fn weather_of(doc: Json) -> WeatherView {
    let code = text_or(first_text(area_of(doc, 0), "weatherCodes"@), ""@);
    WeatherView {
        description: text_or(first_text(area_of(doc, 0), "weathers"@), "不明"@),
        temperature: text_or(first_text(area_of(doc, 2), "temps"@), "0"@),
        weather_code: code,
        humidity: DEFAULT_HUMIDITY as int,
        icon: icon_of(code),
    }
}

/// The value behind a reference that was found.
pub open spec fn unref(value: Option<&Json>) -> Option<Json> {
    match value {
        Some(json) => Some(*json),
        None => None,
    }
}

fn member_of<'a>(value: Option<&'a Json>, key: &str) -> (r: Option<&'a Json>)
    ensures
        unref(r) == then_member(unref(value), key@),
{
    match value {
        Some(json) => json.get_member(key),
        None => None,
    }
}

fn element_of<'a>(value: Option<&'a Json>, index: usize) -> (r: Option<&'a Json>)
    ensures
        unref(r) == then_element(unref(value), index as int),
{
    match value {
        Some(json) => json.get_index(index),
        None => None,
    }
}

fn find_area<'a>(doc: &'a Json, block: usize) -> (r: Option<&'a Json>)
    ensures
        unref(r) == area_of(*doc, block as int),
{
    let forecast = doc.get_index(0);
    let series = member_of(forecast, "timeSeries");
    let chosen = element_of(series, block);
    let areas = member_of(chosen, "areas");
    element_of(areas, 0)
}

fn find_text(area: Option<&Json>, key: &str, fallback: &str) -> (r: String)
    ensures
        r@ == text_or(first_text(unref(area), key@), fallback@),
{
    let list = member_of(area, key);
    let text = match element_of(list, 0) {
        Some(json) => json.as_text(),
        None => None,
    };
    match text {
        Some(found) => found.to_owned(),
        None => fallback.to_owned(),
    }
}

/// Takes the weather from a forecast document. Never fails: a place of the
/// document that holds no text gives its fallback.
pub fn weather_from_document(doc: &Json) -> (info: WeatherInfo)
    ensures
        info@ == weather_of(*doc),
{
    let first = find_area(doc, 0);
    let weather_code = find_text(first, "weatherCodes", "");
    let description = find_text(first, "weathers", "不明");
    let third = find_area(doc, 2);
    let temperature = find_text(third, "temps", "0");
    let icon = icon_for_code(weather_code.as_str()).to_owned();
    WeatherInfo { description, temperature, weather_code, humidity: DEFAULT_HUMIDITY, icon }
}

/// How a request for a forecast document ended.
#[derive(Debug, PartialEq, Eq)]
pub enum FetchOutcome {
    /// No answer came; the transport's own words.
    Unreachable(String),
    /// An answer came and its body was read to the end.
    Replied { status: u16, body: Vec<u8> },
    /// An answer came, but its body could not be read to the end; the
    /// transport's own words.
    Unreadable { status: u16, detail: String },
}

/// The statuses with which a service reports success.
pub open spec fn is_success(status: int) -> bool {
    200 <= status <= 299
}

/// A result of the weather functions, in terms of the views of what it holds.
pub open spec fn result_view(r: Result<WeatherInfo, BackendError>) -> Result<
    WeatherView,
    ErrorView,
> {
    match r {
        Ok(info) => Ok(info@),
        Err(e) => Err(e@),
    }
}

/// What an answer gives, from its status and from what the parser made of its
/// body: the status as an error unless it reports success, else the parser's
/// error, else the weather of the document.
pub open spec fn weather_of_reply(status: int, parsed: Result<Json, Seq<char>>) -> Result<
    WeatherView,
    ErrorView,
> {
    if !is_success(status) {
        Err(ErrorView::Api(status))
    } else {
        match parsed {
            Ok(doc) => Ok(weather_of(doc)),
            Err(detail) => Err(ErrorView::Parse(detail)),
        }
    }
}

/// What a request gives, however it ended.
pub open spec fn weather_of_fetch(outcome: FetchOutcome) -> Result<WeatherView, ErrorView> {
    match outcome {
        FetchOutcome::Unreachable(detail) => Err(ErrorView::Network(detail@)),
        FetchOutcome::Replied { status, body } => weather_of_reply(
            status as int,
            parsed_json(body@),
        ),
        FetchOutcome::Unreadable { status, detail } => weather_of_reply(
            status as int,
            Err(detail@),
        ),
    }
}

/// What the parser made of a body, the error's words as their characters.
pub open spec fn parsed_view(parsed: Result<Json, String>) -> Result<Json, Seq<char>> {
    match parsed {
        Ok(doc) => Ok(doc),
        Err(detail) => Err(detail@),
    }
}

/// Decides what an answer gives, from its status and from what the parser
/// made of its body.
pub fn weather_from_reply(status: u16, parsed: Result<Json, String>) -> (r: Result<
    WeatherInfo,
    BackendError,
>)
    ensures
        result_view(r) == weather_of_reply(status as int, parsed_view(parsed)),
{
    if status < 200 || status > 299 {
        return Err(BackendError::Api(status));
    }
    match parsed {
        Ok(doc) => Ok(weather_from_document(&doc)),
        Err(detail) => Err(BackendError::Parse(detail)),
    }
}

/// Decides what a request for a forecast document gives: the weather, or the
/// error that says how the request failed.
pub fn weather_from_fetch(outcome: FetchOutcome) -> (r: Result<WeatherInfo, BackendError>)
    ensures
        result_view(r) == weather_of_fetch(outcome),
{
    match outcome {
        FetchOutcome::Unreachable(detail) => Err(BackendError::Network(detail)),
        FetchOutcome::Replied { status, body } => {
            let parsed = parse_json(body.as_slice());
            weather_from_reply(status, parsed)
        },
        FetchOutcome::Unreadable { status, detail } => weather_from_reply(status, Err(detail)),
    }
}

/// The canned forecasts of the demo mode, three for each region.
pub open spec fn demo_record(region: Region, index: int) -> WeatherView {
    match region {
        Region::Tokyo => if index == 0 {
            WeatherView {
                description: "晴れ"@,
                temperature: "22.5"@,
                weather_code: "100"@,
                humidity: 45,
                icon: "01d"@,
            }
        } else if index == 1 {
            WeatherView {
                description: "曇り"@,
                temperature: "18.3"@,
                weather_code: "110"@,
                humidity: 65,
                icon: "03d"@,
            }
        } else {
            WeatherView {
                description: "小雨"@,
                temperature: "15.8"@,
                weather_code: "120"@,
                humidity: 78,
                icon: "10d"@,
            }
        },
        Region::Fukuoka => if index == 0 {
            WeatherView {
                description: "福岡 - 晴れ"@,
                temperature: "23.5"@,
                weather_code: "100"@,
                humidity: 42,
                icon: "01d"@,
            }
        } else if index == 1 {
            WeatherView {
                description: "福岡 - 曇り"@,
                temperature: "19.8"@,
                weather_code: "110"@,
                humidity: 60,
                icon: "03d"@,
            }
        } else {
            WeatherView {
                description: "福岡 - 小雨"@,
                temperature: "17.2"@,
                weather_code: "120"@,
                humidity: 75,
                icon: "10d"@,
            }
        },
    }
}

/// The demo forecast of a region at a minute of the hour: the canned
/// forecasts take turns, minute by minute.
pub open spec fn demo_weather_at(region: Region, minute: int) -> WeatherView {
    demo_record(region, minute % 3)
}

fn canned(description: &str, temperature: &str, weather_code: &str, humidity: i32, icon: &str) -> (r:
    WeatherInfo)
    ensures
        r@ == (WeatherView {
            description: description@,
            temperature: temperature@,
            weather_code: weather_code@,
            humidity: humidity as int,
            icon: icon@,
        }),
{
    WeatherInfo {
        description: description.to_owned(),
        temperature: temperature.to_owned(),
        weather_code: weather_code.to_owned(),
        humidity,
        icon: icon.to_owned(),
    }
}

/// The demo forecast of a region at a minute of the hour.
pub fn demo_weather(region: Region, minute: u32) -> (info: WeatherInfo)
    ensures
        info@ == demo_weather_at(region, minute as int),
{
    let index = minute % 3;
    match region {
        Region::Tokyo => if index == 0 {
            canned("晴れ", "22.5", "100", 45, "01d")
        } else if index == 1 {
            canned("曇り", "18.3", "110", 65, "03d")
        } else {
            canned("小雨", "15.8", "120", 78, "10d")
        },
        Region::Fukuoka => if index == 0 {
            canned("福岡 - 晴れ", "23.5", "100", 42, "01d")
        } else if index == 1 {
            canned("福岡 - 曇り", "19.8", "110", 60, "03d")
        } else {
            canned("福岡 - 小雨", "17.2", "120", 75, "10d")
        },
    }
}

/// The demo forecasts repeat every three minutes.
pub proof fn lemma_demo_weather_period(region: Region, minute: int)
    ensures
        demo_weather_at(region, minute + 3) == demo_weather_at(region, minute),
{
}

/// The demo forecast of Tokyo at the moment of the call.
pub fn get_tokyo_weather_demo() -> (info: WeatherInfo)
    ensures
        exists|minute: int| 0 <= minute <= 59 && info@ == #[trigger] demo_weather_at(
            Region::Tokyo,
            minute,
        ),
{
    let at = now();
    let info = demo_weather(Region::Tokyo, at.minute());
    assert(info@ == demo_weather_at(Region::Tokyo, at@.minute));
    info
}

/// The demo forecast of Fukuoka at the moment of the call.
pub fn get_fukuoka_weather_demo() -> (info: WeatherInfo)
    ensures
        exists|minute: int| 0 <= minute <= 59 && info@ == #[trigger] demo_weather_at(
            Region::Fukuoka,
            minute,
        ),
{
    let at = now();
    let info = demo_weather(Region::Fukuoka, at.minute());
    assert(info@ == demo_weather_at(Region::Fukuoka, at@.minute));
    info
}

} // verus!
