use weather_cli::report::{Observation, Style};
use weather_cli::session::{Action, Event, Phase, Prompt, Session};
use weather_cli::store::{ConfigFile, LocationRecord, StoreError};
use weather_cli::weather::{api_key_from, request_url, FetchError, KeyError};

fn line(s: &str) -> Event {
    Event::Line(s.to_string())
}

fn record(city: &str, country: &str) -> LocationRecord {
    LocationRecord { city: city.to_string(), country: country.to_string() }
}

fn london() -> Observation {
    Observation {
        description: "light rain".to_string(),
        temperature: 12_500_000,
        feels_like: 11_800_000,
        humidity: 87_000_000,
        pressure: 1_012_000_000,
        wind_speed: 3_600_000,
        location_name: "London".to_string(),
    }
}

/// A session that has shown its first report and asks whether to go on.
fn at_first_prompt() -> Session {
    let mut s = Session::new();
    s.step(Event::Begin);
    s.step(Event::Loaded(Ok(record("Paris", "FR"))));
    s.step(Event::Fetched(Ok(london())));
    assert_eq!(s.phase, Phase::AskFirst);
    s
}

/// A session inside the repeat loop, asking whether to go on.
fn at_loop_prompt() -> Session {
    let mut s = at_first_prompt();
    s.step(line("yes"));
    s.step(line("Tokyo"));
    s.step(line("JP"));
    s.step(Event::Fetched(Ok(london())));
    assert_eq!(s.phase, Phase::AskAgain);
    s
}

#[test]
fn begin_ensures_then_loads() {
    let mut s = Session::new();
    let a = s.step(Event::Begin);
    assert_eq!(a.len(), 2);
    assert!(matches!(a[0], Action::EnsureConfig));
    assert!(matches!(a[1], Action::LoadConfig));
    assert_eq!(s.phase, Phase::Loading);
}

#[test]
fn new_user_setup_saves_and_shows_london() {
    let mut file = ConfigFile::Absent;
    let mut s = Session::new();
    s.step(Event::Begin);
    file.ensure_exists();
    let a = s.step(Event::Loaded(file.load()));
    assert!(matches!(a[0], Action::AnnounceNewUser));
    assert!(matches!(a[1], Action::Ask(Prompt::NewDefaultCity)));
    let a = s.step(line("London"));
    assert!(matches!(a[0], Action::Ask(Prompt::NewDefaultCountry)));
    let a = s.step(line("GB"));
    assert_eq!(a.len(), 2);
    match (&a[0], &a[1]) {
        (Action::Save { city, country }, Action::Fetch { city: c2, country: k2 }) => {
            assert_eq!((city.as_str(), country.as_str()), ("London", "GB"));
            assert_eq!((c2.as_str(), k2.as_str()), ("London", "GB"));
            assert!(file.save(city, country).is_ok());
        },
        _ => panic!("expected a save and a fetch"),
    }
    let stored = file.load().unwrap();
    assert_eq!((stored.city.as_str(), stored.country.as_str()), ("London", "GB"));
    let a = s.step(Event::Fetched(Ok(london())));
    match &a[0] {
        Action::Show(r) => {
            assert!(r.text.starts_with("Weather in London: "));
            assert_eq!(r.style, Style::Plain);
        },
        _ => panic!("expected a report"),
    }
    assert!(matches!(a[1], Action::Ask(Prompt::SearchAnother)));
}

#[test]
fn stored_default_is_queried_at_once() {
    let mut s = Session::new();
    s.step(Event::Begin);
    let a = s.step(Event::Loaded(Ok(record("Paris", "FR"))));
    assert_eq!(a.len(), 1);
    match &a[0] {
        Action::Fetch { city, country } => assert_eq!((city.as_str(), country.as_str()), ("Paris", "FR")),
        _ => panic!("expected a fetch"),
    }
    assert_eq!(s.phase, Phase::FirstFetch);
}

#[test]
fn fetch_failure_is_shown_and_the_prompt_follows() {
    let mut s = Session::new();
    s.step(Event::Begin);
    s.step(Event::Loaded(Ok(record("Paris", "FR"))));
    let a = s.step(Event::Fetched(Err(FetchError { message: "connection refused".to_string() })));
    assert_eq!(a.len(), 2);
    match &a[0] {
        Action::ShowError(m) => assert_eq!(m, "connection refused"),
        _ => panic!("expected an error line"),
    }
    assert!(matches!(a[1], Action::Ask(Prompt::SearchAnother)));
    assert!(!s.is_done());
}

#[test]
fn fetch_failure_inside_the_loop_keeps_going() {
    let mut s = at_first_prompt();
    s.step(line("maybe"));
    s.step(line("Nowhere"));
    s.step(line("XX"));
    let a = s.step(Event::Fetched(Err(FetchError { message: "404".to_string() })));
    assert!(matches!(a[0], Action::ShowError(_)));
    assert!(matches!(a[1], Action::Ask(Prompt::SearchAnother)));
    assert_eq!(s.phase, Phase::AskAgain);
}

#[test]
fn first_prompt_ends_only_on_no() {
    let mut s = at_first_prompt();
    let a = s.step(line("no"));
    assert!(matches!(a[0], Action::Farewell));
    assert!(s.is_done());

    for answer in ["", "yes", "No", "nope"] {
        let mut s = at_first_prompt();
        let a = s.step(line(answer));
        assert!(matches!(a[0], Action::Ask(Prompt::City)));
        assert_eq!(s.phase, Phase::LoopCity);
    }
}

#[test]
fn loop_prompt_goes_on_only_on_yes() {
    let mut s = at_loop_prompt();
    let a = s.step(line("yes"));
    assert!(matches!(a[0], Action::Ask(Prompt::City)));
    assert_eq!(s.phase, Phase::LoopCity);

    for answer in ["", "no", "Yes", "y"] {
        let mut s = at_loop_prompt();
        let a = s.step(line(answer));
        assert!(matches!(a[0], Action::Farewell));
        assert!(s.is_done());
    }
}

#[test]
fn loop_queries_the_entered_place() {
    let mut s = at_first_prompt();
    s.step(line("yes"));
    let a = s.step(line("Tokyo"));
    assert!(matches!(a[0], Action::Ask(Prompt::CountryCode)));
    let a = s.step(line("JP"));
    match &a[0] {
        Action::Fetch { city, country } => assert_eq!((city.as_str(), country.as_str()), ("Tokyo", "JP")),
        _ => panic!("expected a fetch"),
    }
}

#[test]
fn load_failure_resets_once_then_fails() {
    let mut s = Session::new();
    s.step(Event::Begin);
    let a = s.step(Event::Loaded(Err(StoreError::Corrupt)));
    assert!(matches!(a[0], Action::ResetConfig));
    assert!(matches!(a[1], Action::LoadConfig));
    let a = s.step(Event::Loaded(Err(StoreError::Empty)));
    assert!(matches!(a[0], Action::Fail(StoreError::Empty)));
    assert!(s.is_done());
}

#[test]
fn load_failure_recovers_after_reset() {
    let mut s = Session::new();
    s.step(Event::Begin);
    s.step(Event::Loaded(Err(StoreError::Missing)));
    let a = s.step(Event::Loaded(Ok(record("", ""))));
    assert!(matches!(a[0], Action::AnnounceNewUser));
    assert_eq!(s.phase, Phase::SetupCity);
}

#[test]
fn unexpected_events_change_nothing() {
    let mut s = Session::new();
    assert!(s.step(line("hello")).is_empty());
    assert_eq!(s.phase, Phase::Start);
    let mut s = at_first_prompt();
    assert!(s.step(Event::Begin).is_empty());
    assert_eq!(s.phase, Phase::AskFirst);
    let mut d = at_first_prompt();
    d.step(line("no"));
    assert!(d.step(line("yes")).is_empty());
    assert!(d.is_done());
}

#[test]
fn request_url_for_a_place() {
    assert_eq!(
        request_url("London", "GB", "k3y"),
        "https://api.openweathermap.org/data/2.5/weather?q=London,GB&units=metric&appid=k3y"
    );
}

#[test]
fn api_key_must_be_set() {
    assert_eq!(api_key_from(None), Err(KeyError::Unset));
    assert_eq!(api_key_from(Some(String::new())), Err(KeyError::Blank));
    assert_eq!(api_key_from(Some("abc".to_string())), Ok("abc".to_string()));
}
