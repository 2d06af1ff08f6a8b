//! One round of the selection loop and the decision that follows it.

use crate::environment::Ambient;
use crate::focus::{AppState, Locks};
use crate::history::History;
use crate::location::Location;
use crate::query::{build_query_string, query_text};
use crate::title::{generate_title, title_text};
use vstd::prelude::*;

verus! {

/// The key that ended a selection round.
#[derive(PartialEq, Eq, Structural, Copy, Clone, Debug)]
pub enum Key {
    Esc,
    Enter,
    /// A letter pressed together with the control key.
    Ctrl(char),
    /// A function key, by its number.
    F(u8),
    /// Any key that has no meaning of its own here.
    Other,
}

/// What a selection round handed back.
#[derive(Debug)]
pub struct SelectionOutput {
    pub final_key: Key,
    /// The records that were selected when the round ended.
    pub selected_items: Vec<History>,
    /// The filter text as the user left it.
    pub query: String,
}

/// What the loop is to do after a round.
#[derive(Debug)]
pub struct SelectionResult {
    pub selected_cmd: Option<String>,
    pub abort: bool,
}

/// Whether `key` gives the search up.
pub open spec fn is_abort_key(key: Key) -> bool {
    key == Key::Esc || key == Key::Ctrl('c') || key == Key::Ctrl('d') || key == Key::Ctrl('z')
}

/// The scope after `key` was pressed in scope `loc`.
pub open spec fn location_after(loc: Location, key: Key) -> Location {
    match key {
        Key::F(n) => match Location::of_key(n) {
            Some(target) => target,
            None => loc,
        },
        Key::Ctrl(c) => if c == 'r' {
            loc.next()
        } else {
            loc
        },
        _ => loc,
    }
}

/// The grouping flag after `key` was pressed.
pub open spec fn grouped_after(grouped: bool, key: Key) -> bool {
    if key == Key::F(5) {
        !grouped
    } else {
        grouped
    }
}

/// Whether a round that ended like `output` confirms a command: Enter was
/// pressed while a record was selected.
pub open spec fn confirms(output: SelectionOutput) -> bool {
    output.final_key == Key::Enter && output.selected_items.len() > 0
}

/// Whether the round ends the search without a command: the selection gave
/// nothing back, or an abort key was pressed.
pub open spec fn gives_up(round: Option<SelectionOutput>) -> bool {
    match round {
        Some(output) => is_abort_key(output.final_key),
        None => true,
    }
}

/// The command that the round confirms, if it confirms one: the text of the
/// first selected record, as it was typed.
pub open spec fn confirmed_command(round: Option<SelectionOutput>) -> Option<Seq<char>> {
    match round {
        Some(output) => if confirms(output) {
            Some(output.selected_items[0].cmd@)
        } else {
            None
        },
        None => None,
    }
}

/// The key that the loop acts on before its next round: the final key of a
/// round that neither gave up nor confirmed. Any other round changes nothing,
/// which is what `Key::Other` stands for.
pub open spec fn effective_key(round: Option<SelectionOutput>) -> Key {
    match round {
        Some(output) => if is_abort_key(output.final_key) || confirms(output) {
            Key::Other
        } else {
            output.final_key
        },
        None => Key::Other,
    }
}

/// Interprets the end of a selection round.
///
/// No output at all and the abort keys end the search. Enter on a selected
/// record yields that record's command. Every other key leaves the loop
/// running; the function keys and Ctrl-R first change scope or grouping.
pub fn process_result(
    selected_items: &Option<SelectionOutput>,
    loc: &mut Location,
    grouped: &mut bool,
) -> (result: SelectionResult)
    ensures
        result.abort == gives_up(*selected_items),
        result.selected_cmd.deep_view() == confirmed_command(*selected_items),
        *final(loc) == location_after(*old(loc), effective_key(*selected_items)),
        *final(grouped) == grouped_after(*old(grouped), effective_key(*selected_items)),
{
    match selected_items {
        Some(sel) => {
            match sel.final_key {
                Key::Esc => {
                    return SelectionResult { selected_cmd: None, abort: true };
                },
                Key::Ctrl(c) => {
                    if c == 'c' || c == 'd' || c == 'z' {
                        return SelectionResult { selected_cmd: None, abort: true };
                    }
                    if c == 'r' {
                        *loc = loc.advance();
                    }
                },
                Key::Enter => {
                    if sel.selected_items.len() > 0 {
                        let chosen = sel.selected_items[0].command().clone();
                        return SelectionResult { selected_cmd: Some(chosen), abort: false };
                    }
                },
                Key::F(n) => {
                    if n == 5 {
                        *grouped = !*grouped;
                    } else {
                        match Location::direct(n) {
                            Some(target) => {
                                *loc = target;
                            },
                            None => {},
                        }
                    }
                },
                Key::Other => {},
            }
            SelectionResult { selected_cmd: None, abort: false }
        },
        None => SelectionResult { selected_cmd: None, abort: true },
    }
}

/// The scope that a search starts in: the session, or the directory where
/// no session is known.
pub open spec fn starting_location(session_id: Seq<char>) -> Location {
    if session_id.len() == 0 {
        Location::Directory
    } else {
        Location::Session
    }
}

/// The scope that a search starts in, given the ambient session identifier.
pub fn get_starting_location(session_id: &str) -> (location: Location)
    ensures
        location == starting_location(session_id@),
{
    let mut location = Location::Session;
    if session_id.unicode_len() == 0 {
        location = Location::Directory;
    }
    location
}

/// Where the loop stands after a round.
#[derive(Debug)]
pub enum Phase {
    /// Another round follows.
    Browsing,
    /// A command was chosen.
    Confirmed(String),
    /// The search was given up.
    Aborted,
}

/// A phase as plain values.
pub enum PhaseView {
    Browsing,
    Confirmed(Seq<char>),
    Aborted,
}

impl View for Phase {
    type V = PhaseView;

    open spec fn view(&self) -> PhaseView {
        match self {
            Phase::Browsing => PhaseView::Browsing,
            Phase::Confirmed(cmd) => PhaseView::Confirmed(cmd@),
            Phase::Aborted => PhaseView::Aborted,
        }
    }
}

/// What a search is looking at between two rounds.
#[derive(Debug)]
pub struct SessionState {
    pub location: Location,
    /// Whether the executions of one command in one place show as one row.
    pub grouped: bool,
    pub focus: AppState,
    /// The filter text typed so far.
    pub query: String,
}

/// A session state as plain values.
pub struct Session {
    pub location: Location,
    pub grouped: bool,
    pub locks: Locks,
    pub query: Seq<char>,
}

impl View for SessionState {
    type V = Session;

    open spec fn view(&self) -> Session {
        Session {
            location: self.location,
            grouped: self.grouped,
            locks: self.focus@,
            query: self.query@,
        }
    }
}

/// The locks after `key`. Where the lock keys are in use, function key 6
/// sets the session lock to the ambient session, or lifts it if it is set,
/// and function key 7 does the same for the directory.
pub open spec fn locks_after(
    locks: Locks,
    key: Key,
    lock_keys: bool,
    session: Seq<char>,
    dir: Seq<char>,
) -> Locks {
    if lock_keys && key == Key::F(6) {
        if locks.session is Some {
            locks.unlock_session()
        } else {
            locks.lock_session(session)
        }
    } else if lock_keys && key == Key::F(7) {
        if locks.dir is Some {
            locks.unlock_dir()
        } else {
            locks.lock_dir(dir)
        }
    } else {
        locks
    }
}

impl Session {
    /// The state that a search begins in: the starting scope, grouped rows,
    /// no locks, and the filter text given on the command line.
    pub open spec fn initial(session_id: Seq<char>, query: Seq<char>) -> Session {
        Session {
            location: starting_location(session_id),
            grouped: true,
            locks: Locks::none(),
            query,
        }
    }

    /// The phase that follows a round.
    pub open spec fn phase_after(round: Option<SelectionOutput>) -> PhaseView {
        if gives_up(round) {
            PhaseView::Aborted
        } else {
            match confirmed_command(round) {
                Some(cmd) => PhaseView::Confirmed(cmd),
                None => PhaseView::Browsing,
            }
        }
    }

    /// The state after a round. A round that ends the search leaves the
    /// state as it is. Any other round hands its filter text on, and its
    /// final key may change scope, grouping or a lock.
    pub open spec fn after(
        self,
        round: Option<SelectionOutput>,
        lock_keys: bool,
        session: Seq<char>,
        dir: Seq<char>,
    ) -> Session {
        match round {
            Some(output) => if Self::phase_after(round) is Browsing {
                Session {
                    location: location_after(self.location, output.final_key),
                    grouped: grouped_after(self.grouped, output.final_key),
                    locks: locks_after(self.locks, output.final_key, lock_keys, session, dir),
                    query: output.query@,
                }
            } else {
                self
            },
            None => self,
        }
    }
}

/// The answer of a search once it has ended: the chosen command, or the
/// word that it was given up. A search that goes on has no answer yet.
pub open spec fn answer_of(phase: PhaseView) -> Option<Result<Seq<char>, Seq<char>>> {
    match phase {
        PhaseView::Browsing => None,
        PhaseView::Confirmed(cmd) => Some(Ok(cmd)),
        PhaseView::Aborted => Some(Err("Aborted"@)),
    }
}

/// The answer that a phase stands for, as plain text.
pub open spec fn answer_view(answer: Option<Result<String, String>>) -> Option<
    Result<Seq<char>, Seq<char>>,
> {
    match answer {
        Some(Ok(cmd)) => Some(Ok(cmd@)),
        Some(Err(reason)) => Some(Err(reason@)),
        None => None,
    }
}

impl Phase {
    /// What the search returns, once it has ended.
    pub fn answer(self) -> (answer: Option<Result<String, String>>)
        ensures
            answer_view(answer) == answer_of(self@),
    {
        match self {
            Phase::Browsing => None,
            Phase::Confirmed(cmd) => Some(Ok(cmd)),
            Phase::Aborted => Some(Err(String::from_str("Aborted"))),
        }
    }
}

impl SessionState {
    /// The state that a search begins in.
    pub fn new(session_id: &str, thequery: String) -> (state: SessionState)
        ensures
            state@ == Session::initial(session_id@, thequery@),
    {
        SessionState {
            location: get_starting_location(session_id),
            grouped: true,
            focus: AppState::new(),
            query: thequery,
        }
    }

    /// Takes the outcome of a round and moves the state on: see
    /// `Session::after` for the state and `Session::phase_after` for
    /// the phase.
    pub fn step(
        &mut self,
        round: &Option<SelectionOutput>,
        env: &Ambient,
        lock_keys: bool,
    ) -> (phase: Phase)
        ensures
            phase@ == Session::phase_after(*round),
            final(self)@ == old(self)@.after(*round, lock_keys, env.session_id@, env.dir@),
    {
        let result = process_result(round, &mut self.location, &mut self.grouped);
        if result.abort {
            return Phase::Aborted;
        }
        match result.selected_cmd {
            Some(cmd) => {
                return Phase::Confirmed(cmd);
            },
            None => {},
        }
        match round {
            Some(output) => {
                if lock_keys {
                    match output.final_key {
                        Key::F(n) => {
                            if n == 6 {
                                if self.focus.focus_session.is_some() {
                                    self.focus.focus_session = None;
                                } else {
                                    self.focus.focus_session = Some(env.session_id.clone());
                                }
                            } else if n == 7 {
                                if self.focus.focus_dir.is_some() {
                                    self.focus.focus_dir = None;
                                } else {
                                    self.focus.focus_dir = Some(env.dir.clone());
                                }
                            }
                        },
                        _ => {},
                    }
                }
                self.query = output.query.clone();
            },
            None => {},
        }
        Phase::Browsing
    }
}

/// What the selection is set up with for one round.
#[derive(Debug)]
pub struct SelectorOptions {
    pub height: String,
    pub multi: bool,
    pub reverse: bool,
    pub prompt: String,
    /// The filter text that the round starts with.
    pub query: String,
    /// The keys that end a round or scroll, each with its action.
    pub bind: Vec<String>,
    /// The banner above the list.
    pub header: String,
    /// The preview command; the empty one switches the preview window on.
    pub preview: String,
    pub nosort: bool,
}

/// The selector options as plain values.
pub struct Options {
    pub height: Seq<char>,
    pub multi: bool,
    pub reverse: bool,
    pub prompt: Seq<char>,
    pub query: Seq<char>,
    pub bind: Seq<Seq<char>>,
    pub header: Seq<char>,
    pub preview: Seq<char>,
    pub nosort: bool,
}

impl View for SelectorOptions {
    type V = Options;

    open spec fn view(&self) -> Options {
        Options {
            height: self.height@,
            multi: self.multi,
            reverse: self.reverse,
            prompt: self.prompt@,
            query: self.query@,
            bind: self.bind.deep_view(),
            header: self.header@,
            preview: self.preview@,
            nosort: self.nosort,
        }
    }
}

/// The key bindings of a round: the keys that end it so that the loop can
/// act on them, and the two that scroll by half a page.
pub open spec fn key_bindings(lock_keys: bool) -> Seq<Seq<char>> {
    let fixed = seq![
        "f1:abort"@,
        "f2:abort"@,
        "f3:abort"@,
        "f4:abort"@,
        "f5:abort"@,
        "ctrl-r:abort"@,
        "ctrl-u:half-page-up"@,
        "ctrl-d:half-page-down"@,
    ];
    if lock_keys {
        fixed + seq!["f6:abort"@, "f7:abort"@]
    } else {
        fixed
    }
}

/// The options of a round: the whole screen, one selection at most, the
/// list upside down, and the preview window switched on.
pub open spec fn options_for(
    query: Seq<char>,
    header: Seq<char>,
    nosort: bool,
    lock_keys: bool,
) -> Options {
    Options {
        height: "100%"@,
        multi: false,
        reverse: true,
        prompt: "history >>"@,
        query,
        bind: key_bindings(lock_keys),
        header,
        preview: Seq::empty(),
        nosort,
    }
}

/// What one round is run with: the options of the selection and the query
/// that produces its rows.
#[derive(Debug)]
pub struct Round {
    pub options: SelectorOptions,
    pub sql: String,
}

/// Sets up the options of a round.
pub fn selector_options(query: &str, header: String, nosort: bool, lock_keys: bool) -> (options:
    SelectorOptions)
    ensures
        options@ == options_for(query@, header@, nosort, lock_keys),
{
    let mut bind: Vec<String> = Vec::new();
    bind.push(String::from_str("f1:abort"));
    bind.push(String::from_str("f2:abort"));
    bind.push(String::from_str("f3:abort"));
    bind.push(String::from_str("f4:abort"));
    bind.push(String::from_str("f5:abort"));
    bind.push(String::from_str("ctrl-r:abort"));
    bind.push(String::from_str("ctrl-u:half-page-up"));
    bind.push(String::from_str("ctrl-d:half-page-down"));
    if lock_keys {
        bind.push(String::from_str("f6:abort"));
        bind.push(String::from_str("f7:abort"));
    }
    proof {
        assert(bind.deep_view() =~= key_bindings(lock_keys));
    }
    SelectorOptions {
        height: String::from_str("100%"),
        multi: false,
        reverse: true,
        prompt: String::from_str("history >>"),
        query: String::from_str(query),
        bind,
        header,
        preview: String::new(),
        nosort,
    }
}

impl SessionState {
    /// Prepares the next round: the banner and the query of the current
    /// scope, over the locked values where locks are set, and the filter
    /// text carried over from the round before.
    pub fn prepare(&self, env: &Ambient, nosort: bool, lock_keys: bool) -> (round: Round)
        ensures
            round.options@ == options_for(
                self@.query,
                title_text(self.location, self.focus@, env.session_id@, env.dir@, env.host@),
                nosort,
                lock_keys,
            ),
            round.sql@ == query_text(
                self.location,
                self.grouped,
                self.focus@.resolve_session(env.session_id@),
                self.focus@.resolve_dir(env.dir@),
                env.host@,
            ),
    {
        let title = generate_title(&self.location, &self.focus, env);
        let options = selector_options(self.query.as_str(), title, nosort, lock_keys);
        let sql = build_query_string(&self.location, self.grouped, &self.focus, env);
        Round { options, sql }
    }
}

/// A search ends in exactly one way: it is given up where the selection
/// gave nothing back or an abort key was pressed, it is confirmed where
/// Enter was pressed on a selected record, and in every other case it goes
/// on. A confirmed search answers with the first selected record's command
/// as it was typed; a search given up answers with the word of it.
pub proof fn lemma_how_a_round_ends(round: Option<SelectionOutput>)
    ensures
        Session::phase_after(round) is Aborted <==> (round is None || is_abort_key(
            round->0.final_key,
        )),
        Session::phase_after(round) is Confirmed <==> (round is Some && round->0.final_key
            == Key::Enter && round->0.selected_items.len() > 0),
        Session::phase_after(round) is Confirmed ==> Session::phase_after(round)
            == PhaseView::Confirmed(round->0.selected_items[0].cmd@) && answer_of(
            Session::phase_after(round),
        ) == Some(Ok::<Seq<char>, Seq<char>>(round->0.selected_items[0].cmd@)),
        Session::phase_after(round) is Aborted ==> answer_of(Session::phase_after(round)) == Some(
            Err::<Seq<char>, Seq<char>>("Aborted"@),
        ),
        Session::phase_after(round) is Browsing <==> answer_of(Session::phase_after(round)) is None,
{
}

/// A round that ends the search changes nothing of the state. A round after
/// which the search goes on hands its filter text to the next round,
/// whatever its final key was.
pub proof fn lemma_state_after_a_round(
    state: Session,
    round: Option<SelectionOutput>,
    lock_keys: bool,
    session: Seq<char>,
    dir: Seq<char>,
)
    ensures
        !(Session::phase_after(round) is Browsing) ==> state.after(round, lock_keys, session, dir)
            == state,
        Session::phase_after(round) is Browsing ==> state.after(round, lock_keys, session, dir).query
            == round->0.query@,
{
}

/// What the keys do to a search that goes on. Function keys one to four
/// select their scope, Ctrl-R the next scope of the cycle, and function key
/// five turns grouping over; no key does two of these, and any other key
/// leaves scope and grouping alone. Locks only change by the lock keys, and
/// only where these are in use.
pub proof fn lemma_what_keys_do(
    state: Session,
    output: SelectionOutput,
    lock_keys: bool,
    session: Seq<char>,
    dir: Seq<char>,
)
    requires
        Session::phase_after(Some(output)) is Browsing,
    ensures
        ({
            let next = state.after(Some(output), lock_keys, session, dir);
            let key = output.final_key;
            &&& forall|n: u8|
                key == Key::F(n) && 1 <= n <= 4 ==> Location::of_key(n) == Some(next.location)
                    && next.grouped == state.grouped
            &&& key == Key::Ctrl('r') ==> next.location == state.location.next() && next.grouped
                == state.grouped
            &&& key == Key::F(5) ==> next.grouped == !state.grouped && next.location
                == state.location
            &&& (forall|n: u8| key == Key::F(n) ==> n == 0 || n > 5) && key != Key::Ctrl('r')
                ==> next.location == state.location && next.grouped == state.grouped
            &&& !(lock_keys && (key == Key::F(6) || key == Key::F(7))) ==> next.locks == state.locks
            &&& lock_keys && key == Key::F(6) ==> next.locks.dir == state.locks.dir && (
            next.locks.session is Some <==> state.locks.session is None) && (
            next.locks.session is Some ==> next.locks.session == Some(session))
            &&& lock_keys && key == Key::F(7) ==> next.locks.session == state.locks.session && (
            next.locks.dir is Some <==> state.locks.dir is None) && (next.locks.dir is Some
                ==> next.locks.dir == Some(dir))
        }),
{
    let key = output.final_key;
    if (forall|n: u8| key == Key::F(n) ==> n == 0 || n > 5) {
        match key {
            Key::F(n) => {
                assert(n == 0 || n > 5);
            },
            _ => {},
        }
    }
}

/// Turning grouping over twice, or going round the cycle of scopes, leads
/// back to where the search was.
pub proof fn lemma_keys_undo(loc: Location, grouped: bool)
    ensures
        grouped_after(grouped_after(grouped, Key::F(5)), Key::F(5)) == grouped,
        location_after(
            location_after(
                location_after(location_after(loc, Key::Ctrl('r')), Key::Ctrl('r')),
                Key::Ctrl('r'),
            ),
            Key::Ctrl('r'),
        ) == loc,
        location_after(
            location_after(location_after(Location::Session, Key::Ctrl('r')), Key::Ctrl('r')),
            Key::Ctrl('r'),
        ) == Location::Everywhere,
{
}

/// A search without a session starts in the directory, any other in the
/// session; it starts grouped, unlocked, and with the filter text it was given.
pub proof fn lemma_initial_state(session_id: Seq<char>, query: Seq<char>)
    ensures
        Session::initial(session_id, query).location == if session_id == Seq::<char>::empty() {
            Location::Directory
        } else {
            Location::Session
        },
        Session::initial(session_id, query).grouped,
        Session::initial(session_id, query).locks == Locks::none(),
        Session::initial(session_id, query).query == query,
{
    if session_id.len() == 0 {
        assert(session_id =~= Seq::<char>::empty());
    }
}

} // verus!
