//! The interactive session as a state machine: each event that the terminal,
//! the configuration file or the weather query hands in yields the next state
//! and the actions to perform, in order.
use vstd::prelude::*;
use crate::report::{render, report_text, style_of, text_is, Observation, Report, Style};
use crate::store::{is_unset, LocationRecord, StoreError};
use crate::weather::FetchError;

verus! {

/// Where the session stands.
#[derive(Clone, Copy, Debug, PartialEq, Eq, Structural)]
pub enum Phase {
    /// Nothing has happened yet.
    Start,
    /// Waiting for the default location to be loaded.
    Loading,
    /// Waiting for the default location after the configuration was reset.
    Reloading,
    /// Waiting for the city of a new default.
    SetupCity,
    /// Waiting for the country code of a new default.
    SetupCountry,
    /// Waiting for the first query's outcome.
    FirstFetch,
    /// Waiting for the answer to the first "search another city?".
    AskFirst,
    /// Waiting for the city of another search.
    LoopCity,
    /// Waiting for the country code of another search.
    LoopCountry,
    /// Waiting for the outcome of another search.
    LoopFetch,
    /// Waiting for the answer to a later "search another city?".
    AskAgain,
    /// The session is over.
    Done,
}

/// What a prompt asks for.
#[derive(Clone, Copy, Debug, PartialEq, Eq, Structural)]
pub enum Prompt {
    NewDefaultCity,
    NewDefaultCountry,
    SearchAnother,
    City,
    CountryCode,
}

/// What happened since the last step.
pub enum Event {
    /// The program started.
    Begin,
    /// The default location was read, or could not be.
    Loaded(Result<LocationRecord, StoreError>),
    /// A line was read from the terminal, with surrounding whitespace trimmed.
    Line(String),
    /// A weather query finished.
    Fetched(Result<Observation, FetchError>),
}

/// What to do next.
pub enum Action {
    /// Create the configuration file with an unset default if it is absent.
    EnsureConfig,
    /// Replace the configuration with one holding an unset default.
    ResetConfig,
    /// Read the default location and hand it back as `Event::Loaded`.
    LoadConfig,
    /// Tell the user that no default is set yet.
    AnnounceNewUser,
    /// Ask a question and hand the answer back as `Event::Line`.
    Ask(Prompt),
    /// Make this the default location; the outcome is not reported back.
    Save { city: String, country: String },
    /// Query the weather and hand the outcome back as `Event::Fetched`.
    Fetch { city: String, country: String },
    /// Show a weather report.
    Show(Report),
    /// Show the message of a failed query.
    ShowError(String),
    /// Say goodbye; the session ended normally.
    Farewell,
    /// The configuration cannot be read even after a reset.
    Fail(StoreError),
}

/// The session: its phase and the place being asked about.
pub struct Session {
    pub phase: Phase,
    pub city: String,
    pub country: String,
}

/// An event as plain values.
pub enum EventView {
    Begin,
    Loaded(Result<(Seq<char>, Seq<char>), StoreError>),
    Line(Seq<char>),
    Fetched(Result<Observation, Seq<char>>),
}

/// An action as plain values; a report is its text and style.
pub enum ActionView {
    EnsureConfig,
    ResetConfig,
    LoadConfig,
    AnnounceNewUser,
    Ask(Prompt),
    Save(Seq<char>, Seq<char>),
    Fetch(Seq<char>, Seq<char>),
    Show(Seq<char>, Style),
    ShowError(Seq<char>),
    Farewell,
    Fail(StoreError),
}

/// A session as plain values.
pub struct SessionView {
    pub phase: Phase,
    pub city: Seq<char>,
    pub country: Seq<char>,
}

impl View for Event {
    type V = EventView;

    open spec fn view(&self) -> EventView {
        match self {
            Event::Begin => EventView::Begin,
            Event::Loaded(Ok(r)) => EventView::Loaded(Ok((r.city@, r.country@))),
            Event::Loaded(Err(e)) => EventView::Loaded(Err(*e)),
            Event::Line(s) => EventView::Line(s@),
            Event::Fetched(Ok(o)) => EventView::Fetched(Ok(*o)),
            Event::Fetched(Err(f)) => EventView::Fetched(Err(f.message@)),
        }
    }
}

impl View for Action {
    type V = ActionView;

    open spec fn view(&self) -> ActionView {
        match self {
            Action::EnsureConfig => ActionView::EnsureConfig,
            Action::ResetConfig => ActionView::ResetConfig,
            Action::LoadConfig => ActionView::LoadConfig,
            Action::AnnounceNewUser => ActionView::AnnounceNewUser,
            Action::Ask(p) => ActionView::Ask(*p),
            Action::Save { city, country } => ActionView::Save(city@, country@),
            Action::Fetch { city, country } => ActionView::Fetch(city@, country@),
            Action::Show(r) => ActionView::Show(r.text@, r.style),
            Action::ShowError(m) => ActionView::ShowError(m@),
            Action::Farewell => ActionView::Farewell,
            Action::Fail(e) => ActionView::Fail(*e),
        }
    }
}

impl View for Session {
    type V = SessionView;

    open spec fn view(&self) -> SessionView {
        SessionView { phase: self.phase, city: self.city@, country: self.country@ }
    }
}

/// The views of a sequence of actions.
pub open spec fn action_views(a: Seq<Action>) -> Seq<ActionView> {
    a.map_values(|x: Action| x@)
}

/// What is shown for the outcome of a query, followed by the question
/// whether to search another city.
pub open spec fn outcome_actions(r: Result<Observation, Seq<char>>) -> Seq<ActionView> {
    match r {
        Ok(o) => seq![
            ActionView::Show(report_text(o), style_of(o.description@)),
            ActionView::Ask(Prompt::SearchAnother),
        ],
        Err(m) => seq![ActionView::ShowError(m), ActionView::Ask(Prompt::SearchAnother)],
    }
}

/// What follows a loaded default: a set default is queried at once; an unset
/// one starts the setup of a new default.
pub open spec fn after_load(s: SessionView, city: Seq<char>, country: Seq<char>) -> (SessionView, Seq<ActionView>) {
    if is_unset(city, country) {
        (
            SessionView { phase: Phase::SetupCity, ..s },
            seq![ActionView::AnnounceNewUser, ActionView::Ask(Prompt::NewDefaultCity)],
        )
    } else {
        (
            SessionView { phase: Phase::FirstFetch, city, country },
            seq![ActionView::Fetch(city, country)],
        )
    }
}

/// The next state and the actions for event `e` in state `s`. An event that
/// the phase does not wait for changes nothing.
#[verifier::opaque]
pub open spec fn step_spec(s: SessionView, e: EventView) -> (SessionView, Seq<ActionView>) {
    let unchanged = (s, Seq::<ActionView>::empty());
    match s.phase {
        Phase::Start => match e {
            EventView::Begin => (
                SessionView { phase: Phase::Loading, ..s },
                seq![ActionView::EnsureConfig, ActionView::LoadConfig],
            ),
            _ => unchanged,
        },
        Phase::Loading => match e {
            EventView::Loaded(Ok((c, k))) => after_load(s, c, k),
            EventView::Loaded(Err(_)) => (
                SessionView { phase: Phase::Reloading, ..s },
                seq![ActionView::ResetConfig, ActionView::LoadConfig],
            ),
            _ => unchanged,
        },
        Phase::Reloading => match e {
            EventView::Loaded(Ok((c, k))) => after_load(s, c, k),
            EventView::Loaded(Err(err)) => (
                SessionView { phase: Phase::Done, ..s },
                seq![ActionView::Fail(err)],
            ),
            _ => unchanged,
        },
        Phase::SetupCity => match e {
            EventView::Line(l) => (
                SessionView { phase: Phase::SetupCountry, city: l, ..s },
                seq![ActionView::Ask(Prompt::NewDefaultCountry)],
            ),
            _ => unchanged,
        },
        Phase::SetupCountry => match e {
            EventView::Line(l) => (
                SessionView { phase: Phase::FirstFetch, country: l, ..s },
                seq![ActionView::Save(s.city, l), ActionView::Fetch(s.city, l)],
            ),
            _ => unchanged,
        },
        Phase::FirstFetch => match e {
            EventView::Fetched(r) => (SessionView { phase: Phase::AskFirst, ..s }, outcome_actions(r)),
            _ => unchanged,
        },
        Phase::AskFirst => match e {
            EventView::Line(l) => if l == "no"@ {
                (SessionView { phase: Phase::Done, ..s }, seq![ActionView::Farewell])
            } else {
                (SessionView { phase: Phase::LoopCity, ..s }, seq![ActionView::Ask(Prompt::City)])
            },
            _ => unchanged,
        },
        Phase::LoopCity => match e {
            EventView::Line(l) => (
                SessionView { phase: Phase::LoopCountry, city: l, ..s },
                seq![ActionView::Ask(Prompt::CountryCode)],
            ),
            _ => unchanged,
        },
        Phase::LoopCountry => match e {
            EventView::Line(l) => (
                SessionView { phase: Phase::LoopFetch, country: l, ..s },
                seq![ActionView::Fetch(s.city, l)],
            ),
            _ => unchanged,
        },
        Phase::LoopFetch => match e {
            EventView::Fetched(r) => (SessionView { phase: Phase::AskAgain, ..s }, outcome_actions(r)),
            _ => unchanged,
        },
        Phase::AskAgain => match e {
            EventView::Line(l) => if l == "yes"@ {
                (SessionView { phase: Phase::LoopCity, ..s }, seq![ActionView::Ask(Prompt::City)])
            } else {
                (SessionView { phase: Phase::Done, ..s }, seq![ActionView::Farewell])
            },
            _ => unchanged,
        },
        Phase::Done => unchanged,
    }
}

fn outcome(r: Result<Observation, FetchError>) -> (a: Vec<Action>)
    ensures
        action_views(a@) == outcome_actions(
            match r {
                Ok(o) => Ok::<Observation, Seq<char>>(o),
                Err(f) => Err::<Observation, Seq<char>>(f.message@),
            },
        ),
{
    let mut a: Vec<Action> = Vec::new();
    match r {
        Ok(o) => a.push(Action::Show(render(&o))),
        Err(f) => a.push(Action::ShowError(f.message)),
    }
    a.push(Action::Ask(Prompt::SearchAnother));
    assert(action_views(a@) =~= outcome_actions(
        match r {
            Ok(o) => Ok::<Observation, Seq<char>>(o),
            Err(f) => Err::<Observation, Seq<char>>(f.message@),
        },
    ));
    a
}

impl Session {
    /// A session that has not started.
    pub fn new() -> (s: Session)
        ensures
            s@.phase == Phase::Start,
            s@.city.len() == 0,
            s@.country.len() == 0,
    {
        Session { phase: Phase::Start, city: String::new(), country: String::new() }
    }

    /// Whether the session is over.
    pub fn is_done(&self) -> (r: bool)
        ensures
            r == (self.phase == Phase::Done),
    {
        self.phase == Phase::Done
    }

    fn after_load(&mut self, rec: LocationRecord) -> (a: Vec<Action>)
        ensures
            (final(self)@, action_views(a@)) == after_load(old(self)@, rec.city@, rec.country@),
    {
        let mut a: Vec<Action> = Vec::new();
        if rec.is_unset() {
            self.phase = Phase::SetupCity;
            a.push(Action::AnnounceNewUser);
            a.push(Action::Ask(Prompt::NewDefaultCity));
        } else {
            self.phase = Phase::FirstFetch;
            a.push(Action::Fetch { city: rec.city.clone(), country: rec.country.clone() });
            self.city = rec.city;
            self.country = rec.country;
        }
        assert(action_views(a@) =~= after_load(old(self)@, rec.city@, rec.country@).1);
        a
    }

    /// Takes the session one step: hands in event `e`, moves to the next
    /// phase and returns the actions to perform, in order.
    pub fn step(&mut self, e: Event) -> (a: Vec<Action>)
        ensures
            (final(self)@, action_views(a@)) == step_spec(old(self)@, e@),
    {
        proof {
            reveal(step_spec);
        }
        let ghost ev = e@;
        let mut a: Vec<Action> = Vec::new();
        match (self.phase, e) {
            (Phase::Start, Event::Begin) => {
                self.phase = Phase::Loading;
                a.push(Action::EnsureConfig);
                a.push(Action::LoadConfig);
            },
            (Phase::Loading, Event::Loaded(Ok(rec))) | (Phase::Reloading, Event::Loaded(Ok(rec))) => {
                a = self.after_load(rec);
            },
            (Phase::Loading, Event::Loaded(Err(_))) => {
                self.phase = Phase::Reloading;
                a.push(Action::ResetConfig);
                a.push(Action::LoadConfig);
            },
            (Phase::Reloading, Event::Loaded(Err(err))) => {
                self.phase = Phase::Done;
                a.push(Action::Fail(err));
            },
            (Phase::SetupCity, Event::Line(l)) => {
                self.phase = Phase::SetupCountry;
                self.city = l;
                a.push(Action::Ask(Prompt::NewDefaultCountry));
            },
            (Phase::SetupCountry, Event::Line(l)) => {
                self.phase = Phase::FirstFetch;
                a.push(Action::Save { city: self.city.clone(), country: l.clone() });
                a.push(Action::Fetch { city: self.city.clone(), country: l.clone() });
                self.country = l;
            },
            (Phase::FirstFetch, Event::Fetched(r)) => {
                self.phase = Phase::AskFirst;
                a = outcome(r);
            },
            (Phase::AskFirst, Event::Line(l)) => {
                if text_is(&l, "no") {
                    self.phase = Phase::Done;
                    a.push(Action::Farewell);
                } else {
                    self.phase = Phase::LoopCity;
                    a.push(Action::Ask(Prompt::City));
                }
            },
            (Phase::LoopCity, Event::Line(l)) => {
                self.phase = Phase::LoopCountry;
                self.city = l;
                a.push(Action::Ask(Prompt::CountryCode));
            },
            (Phase::LoopCountry, Event::Line(l)) => {
                self.phase = Phase::LoopFetch;
                a.push(Action::Fetch { city: self.city.clone(), country: l.clone() });
                self.country = l;
            },
            (Phase::LoopFetch, Event::Fetched(r)) => {
                self.phase = Phase::AskAgain;
                a = outcome(r);
            },
            (Phase::AskAgain, Event::Line(l)) => {
                if text_is(&l, "yes") {
                    self.phase = Phase::LoopCity;
                    a.push(Action::Ask(Prompt::City));
                } else {
                    self.phase = Phase::Done;
                    a.push(Action::Farewell);
                }
            },
            _ => {},
        }
        assert(action_views(a@) =~= step_spec(old(self)@, ev).1);
        a
    }
}

/// At the first "search another city?" the session ends exactly on the answer
/// "no"; at every later one it goes on exactly on the answer "yes", and ends
/// on any other.
pub proof fn lemma_continue_asymmetry(s: SessionView, line: Seq<char>)
    ensures
        s.phase == Phase::AskFirst ==> (step_spec(s, EventView::Line(line)).0.phase == Phase::Done
            <==> line == "no"@),
        s.phase == Phase::AskFirst && line != "no"@ ==> step_spec(s, EventView::Line(line)).0.phase
            == Phase::LoopCity,
        s.phase == Phase::AskAgain ==> (step_spec(s, EventView::Line(line)).0.phase
            == Phase::LoopCity <==> line == "yes"@),
        s.phase == Phase::AskAgain && line != "yes"@ ==> step_spec(s, EventView::Line(line)).0.phase
            == Phase::Done,
{
    reveal(step_spec);
}

/// A failed query is not fatal: its message is shown and the session still
/// asks whether to search another city.
pub proof fn lemma_fetch_failure_continues(s: SessionView, message: Seq<char>)
    requires
        s.phase == Phase::FirstFetch || s.phase == Phase::LoopFetch,
    ensures
        step_spec(s, EventView::Fetched(Err(message))).1 == seq![
            ActionView::ShowError(message),
            ActionView::Ask(Prompt::SearchAnother),
        ],
        step_spec(s, EventView::Fetched(Err(message))).0.phase != Phase::Done,
{
    reveal(step_spec);
}

/// The state and the actions after handing in the events `es` one after
/// another.
pub open spec fn run(s: SessionView, es: Seq<EventView>) -> (SessionView, Seq<ActionView>)
    decreases es.len(),
{
    if es.len() == 0 {
        (s, Seq::empty())
    } else {
        let first = step_spec(s, es[0]);
        let rest = run(first.0, es.drop_first());
        (rest.0, first.1 + rest.1)
    }
}

/// The weather queries among a sequence of actions, in order, as city and
/// country code.
pub open spec fn queries(acts: Seq<ActionView>) -> Seq<(Seq<char>, Seq<char>)>
    decreases acts.len(),
{
    if acts.len() == 0 {
        Seq::empty()
    } else {
        (match acts[0] {
            ActionView::Fetch(c, k) => seq![(c, k)],
            _ => Seq::empty(),
        }) + queries(acts.drop_first())
    }
}

/// One more search inside the repeat loop: the city and the country code
/// entered, the query's outcome and the answer to "search another city?".
pub struct Round {
    pub city: Seq<char>,
    pub country: Seq<char>,
    pub outcome: Result<Observation, Seq<char>>,
    pub answer: Seq<char>,
}

/// The events of a sequence of rounds.
pub open spec fn rounds_events(rs: Seq<Round>) -> Seq<EventView>
    decreases rs.len(),
{
    if rs.len() == 0 {
        Seq::empty()
    } else {
        seq![
            EventView::Line(rs[0].city),
            EventView::Line(rs[0].country),
            EventView::Fetched(rs[0].outcome),
            EventView::Line(rs[0].answer),
        ] + rounds_events(rs.drop_first())
    }
}

/// The places that a sequence of rounds asks about.
pub open spec fn round_places(rs: Seq<Round>) -> Seq<(Seq<char>, Seq<char>)> {
    rs.map_values(|r: Round| (r.city, r.country))
}

proof fn lemma_run_append(s: SessionView, a: Seq<EventView>, b: Seq<EventView>)
    ensures
        run(s, a + b) == (run(run(s, a).0, b).0, run(s, a).1 + run(run(s, a).0, b).1),
    decreases a.len(),
{
    if a.len() == 0 {
        assert(a + b =~= b);
        assert(Seq::<ActionView>::empty() + run(s, b).1 =~= run(s, b).1);
    } else {
        let first = step_spec(s, a[0]);
        assert((a + b).drop_first() =~= a.drop_first() + b);
        lemma_run_append(first.0, a.drop_first(), b);
        assert(first.1 + (run(first.0, a.drop_first()).1 + run(run(s, a).0, b).1) =~= (first.1
            + run(first.0, a.drop_first()).1) + run(run(s, a).0, b).1);
    }
}

proof fn lemma_queries_append(a: Seq<ActionView>, b: Seq<ActionView>)
    ensures
        queries(a + b) == queries(a) + queries(b),
    decreases a.len(),
{
    if a.len() == 0 {
        assert(a + b =~= b);
        assert(queries(a) + queries(b) =~= queries(b));
    } else {
        assert((a + b).drop_first() =~= a.drop_first() + b);
        lemma_queries_append(a.drop_first(), b);
        let h: Seq<(Seq<char>, Seq<char>)> = match a[0] {
            ActionView::Fetch(c, k) => seq![(c, k)],
            _ => Seq::empty(),
        };
        assert(h + (queries(a.drop_first()) + queries(b)) =~= (h + queries(a.drop_first()))
            + queries(b));
    }
}

proof fn lemma_round_steps(s: SessionView, r: Round)
    requires
        s.phase == Phase::LoopCity,
    ensures
        ({
            let s1 = step_spec(s, EventView::Line(r.city));
            let s2 = step_spec(s1.0, EventView::Line(r.country));
            let s3 = step_spec(s2.0, EventView::Fetched(r.outcome));
            let s4 = step_spec(s3.0, EventView::Line(r.answer));
            &&& s1.1 == seq![ActionView::Ask(Prompt::CountryCode)]
            &&& s2.1 == seq![ActionView::Fetch(r.city, r.country)]
            &&& s3.1 == outcome_actions(r.outcome)
            &&& s4.1 == seq![if r.answer == "yes"@ { ActionView::Ask(Prompt::City) } else { ActionView::Farewell }]
            &&& s4.0.phase == (if r.answer == "yes"@ { Phase::LoopCity } else { Phase::Done })
        }),
{
    reveal(step_spec);
}

proof fn lemma_one_round(s: SessionView, r: Round)
    requires
        s.phase == Phase::LoopCity,
    ensures
        queries(run(s, rounds_events(seq![r])).1) == seq![(r.city, r.country)],
        run(s, rounds_events(seq![r])).0.phase == (if r.answer == "yes"@ {
            Phase::LoopCity
        } else {
            Phase::Done
        }),
{
    let e1 = EventView::Line(r.city);
    let e2 = EventView::Line(r.country);
    let e3 = EventView::Fetched(r.outcome);
    let e4 = EventView::Line(r.answer);
    let es = rounds_events(seq![r]);
    assert(seq![r].drop_first() =~= Seq::<Round>::empty());
    assert(rounds_events(Seq::<Round>::empty()) == Seq::<EventView>::empty());
    assert(es =~= seq![e1, e2, e3, e4]);
    lemma_round_steps(s, r);
    let s1 = step_spec(s, e1);
    let s2 = step_spec(s1.0, e2);
    let s3 = step_spec(s2.0, e3);
    let s4 = step_spec(s3.0, e4);
    let empty = Seq::<EventView>::empty();
    assert(run(s4.0, empty) == (s4.0, Seq::<ActionView>::empty()));
    assert(seq![e4].drop_first() =~= empty);
    assert(run(s3.0, seq![e4]) == (s4.0, s4.1 + Seq::<ActionView>::empty()));
    assert(seq![e3, e4].drop_first() =~= seq![e4]);
    assert(run(s2.0, seq![e3, e4]) == (s4.0, s3.1 + (s4.1 + Seq::<ActionView>::empty())));
    assert(seq![e2, e3, e4].drop_first() =~= seq![e3, e4]);
    assert(run(s1.0, seq![e2, e3, e4]) == (s4.0, s2.1 + (s3.1 + (s4.1 + Seq::<ActionView>::empty()))));
    assert(es.drop_first() =~= seq![e2, e3, e4]);
    assert(run(s, es) == (s4.0, s1.1 + (s2.1 + (s3.1 + (s4.1 + Seq::<ActionView>::empty())))));
    lemma_queries_append(s1.1, s2.1 + (s3.1 + (s4.1 + Seq::<ActionView>::empty())));
    lemma_queries_append(s2.1, s3.1 + (s4.1 + Seq::<ActionView>::empty()));
    lemma_queries_append(s3.1, s4.1 + Seq::<ActionView>::empty());
    lemma_queries_append(s4.1, Seq::<ActionView>::empty());
    assert(queries(s1.1) =~= Seq::<(Seq<char>, Seq<char>)>::empty()) by {
        assert(s1.1.drop_first() =~= Seq::<ActionView>::empty());
    }
    assert(queries(s2.1) =~= seq![(r.city, r.country)]) by {
        assert(s2.1.drop_first() =~= Seq::<ActionView>::empty());
    }
    assert(queries(s3.1) =~= Seq::<(Seq<char>, Seq<char>)>::empty()) by {
        let tail = seq![ActionView::Ask(Prompt::SearchAnother)];
        assert(tail.drop_first() =~= Seq::<ActionView>::empty());
        assert(queries(Seq::<ActionView>::empty()) =~= Seq::<(Seq<char>, Seq<char>)>::empty());
        assert(queries(tail) =~= Seq::<(Seq<char>, Seq<char>)>::empty());
        assert(s3.1.drop_first() =~= tail);
    }
    assert(queries(s4.1) =~= Seq::<(Seq<char>, Seq<char>)>::empty()) by {
        assert(s4.1.drop_first() =~= Seq::<ActionView>::empty());
    }
    assert(queries(Seq::<ActionView>::empty()) =~= Seq::<(Seq<char>, Seq<char>)>::empty());
    assert(queries(run(s, es).1) =~= seq![(r.city, r.country)]);
}

/// Inside the repeat loop, a run of rounds whose answers are "yes" but for the
/// last makes exactly one query per round, for the place entered in that
/// round, and then the session is over.
pub proof fn lemma_loop_rounds(s: SessionView, rs: Seq<Round>)
    requires
        s.phase == Phase::LoopCity,
        rs.len() > 0,
        forall|i: int| 0 <= i < rs.len() - 1 ==> #[trigger] rs[i].answer == "yes"@,
        rs.last().answer != "yes"@,
    ensures
        run(s, rounds_events(rs)).0.phase == Phase::Done,
        queries(run(s, rounds_events(rs)).1) == round_places(rs),
    decreases rs.len(),
{
    let head = seq![rs[0]];
    let tail = rs.drop_first();
    assert(head.drop_first() =~= Seq::<Round>::empty());
    assert(rounds_events(Seq::<Round>::empty()) == Seq::<EventView>::empty());
    assert(rounds_events(head) =~= seq![
        EventView::Line(rs[0].city),
        EventView::Line(rs[0].country),
        EventView::Fetched(rs[0].outcome),
        EventView::Line(rs[0].answer),
    ]) by {
        assert(head.drop_first() =~= Seq::<Round>::empty());
    }
    assert(rounds_events(rs) =~= rounds_events(head) + rounds_events(tail));
    lemma_one_round(s, rs[0]);
    lemma_run_append(s, rounds_events(head), rounds_events(tail));
    let mid = run(s, rounds_events(head));
    if rs.len() == 1 {
        assert(tail =~= Seq::<Round>::empty());
        assert(rounds_events(tail) =~= Seq::<EventView>::empty());
        assert(mid.1 + Seq::<ActionView>::empty() =~= mid.1);
        assert(round_places(rs) =~= seq![(rs[0].city, rs[0].country)]);
    } else {
        assert(rs[0].answer == "yes"@);
        assert forall|i: int| 0 <= i < tail.len() - 1 implies #[trigger] tail[i].answer == "yes"@ by {
            assert(tail[i] == rs[i + 1]);
        }
        lemma_loop_rounds(mid.0, tail);
        lemma_queries_append(mid.1, run(mid.0, rounds_events(tail)).1);
        assert(round_places(rs) =~= seq![(rs[0].city, rs[0].country)] + round_places(tail));
    }
}

/// From the first "search another city?": the answer "no" ends the session
/// with no further query. Any other answer, followed by rounds whose answers
/// are "yes" but for the last, makes exactly one query per round, for the
/// place entered in that round, and then the session is over.
pub proof fn lemma_search_session(s: SessionView, first_answer: Seq<char>, rs: Seq<Round>)
    requires
        s.phase == Phase::AskFirst,
        first_answer != "no"@ ==> rs.len() > 0,
        first_answer != "no"@ ==> forall|i: int| 0 <= i < rs.len() - 1 ==> #[trigger] rs[i].answer == "yes"@,
        first_answer != "no"@ ==> rs.last().answer != "yes"@,
    ensures
        first_answer == "no"@ ==> run(s, seq![EventView::Line(first_answer)]).0.phase == Phase::Done,
        first_answer == "no"@ ==> queries(run(s, seq![EventView::Line(first_answer)]).1).len() == 0,
        first_answer != "no"@ ==> run(s, seq![EventView::Line(first_answer)] + rounds_events(rs)).0.phase
            == Phase::Done,
        first_answer != "no"@ ==> queries(
            run(s, seq![EventView::Line(first_answer)] + rounds_events(rs)).1,
        ) == round_places(rs),
{
    let e = EventView::Line(first_answer);
    let first = step_spec(s, e);
    lemma_continue_asymmetry(s, first_answer);
    reveal(step_spec);
    assert(seq![e].drop_first() =~= Seq::<EventView>::empty());
    assert(run(first.0, Seq::<EventView>::empty()) == (first.0, Seq::<ActionView>::empty()));
    assert(run(s, seq![e]) == (first.0, first.1 + Seq::<ActionView>::empty()));
    assert(first.1 + Seq::<ActionView>::empty() =~= first.1);
    assert(first.1.drop_first() =~= Seq::<ActionView>::empty());
    assert(queries(Seq::<ActionView>::empty()) =~= Seq::<(Seq<char>, Seq<char>)>::empty());
    assert(queries(first.1) =~= Seq::<(Seq<char>, Seq<char>)>::empty());
    if first_answer != "no"@ {
        lemma_run_append(s, seq![e], rounds_events(rs));
        lemma_loop_rounds(first.0, rs);
        lemma_queries_append(first.1, run(first.0, rounds_events(rs)).1);
        assert(queries(first.1) + round_places(rs) =~= round_places(rs));
    }
}

} // verus!
