//! The browsing state machine: the key list, the filter, the selection, the
//! view mode and the detail cache, and what each input event does to them.

use vstd::prelude::*;
use vstd::string::*;
use crate::cache::{DetailCache, Lookup};
use crate::fetch::{advance_spec, begin_spec, Fetch, FetchView, Outcome, Progress, Reply};
use crate::details::{format_ttl, ttl_text, DetailsView, KeyDetails};
use crate::filter::{apply_filter, clone_keys, filter_spec, views};
use crate::frame::{
    body_of, body_spec, help_line, help_spec, DetailRegion, DetailRegionView, Frame, FrameView,
    ListRegion, ListRegionView, MainRegion, MainRegionView,
};
use crate::selection::{select_next, select_previous};
use crate::text::{decimal, decimal_text, join, pop_char, push_char};

verus! {

/// Which of the two views is open.
#[derive(Clone, Copy, Debug, PartialEq, Eq, Structural)]
pub enum Mode {
    Listing,
    Detail,
}

/// A key press. `Char('Q')` quits and `Char('R')` reloads the key list;
/// `Interrupt` is the interrupt combination of the terminal.
#[derive(Clone, Copy, Debug, PartialEq, Eq, Structural)]
pub enum Key {
    Char(char),
    Enter,
    Esc,
    Backspace,
    Up,
    Down,
    Interrupt,
    Other,
}

/// The key press that a character stands for: with the control key held,
/// `c` is the interrupt combination and any other character means nothing;
/// without it, the character itself.
pub open spec fn key_for_char_spec(c: char, control: bool) -> Key {
    if control {
        if c == 'c' || c == 'C' {
            Key::Interrupt
        } else {
            Key::Other
        }
    } else {
        Key::Char(c)
    }
}

/// Decodes a character key of the terminal.
pub fn key_for_char(c: char, control: bool) -> (key: Key)
    ensures
        key == key_for_char_spec(c, control),
{
    if control {
        if c == 'c' || c == 'C' {
            Key::Interrupt
        } else {
            Key::Other
        }
    } else {
        Key::Char(c)
    }
}

/// What the caller is to do after an event.
pub enum Command {
    /// Go on with the next event.
    Continue,
    /// End the session.
    Quit,
    /// List the keys of the store and report them, or the failure.
    Reload,
    /// Put the question of this fetch to the store, about the key of the
    /// fetch, and report the fetch with the answer.
    Ask(Fetch),
}

/// The mathematical value of a `Command`.
pub enum Action {
    Continue,
    Quit,
    Reload,
    Ask(FetchView),
}

impl View for Command {
    type V = Action;

    open spec fn view(&self) -> Action {
        match self {
            Command::Continue => Action::Continue,
            Command::Quit => Action::Quit,
            Command::Reload => Action::Reload,
            Command::Ask(f) => Action::Ask(f@),
        }
    }
}

/// The mathematical value of an `App`.
pub struct AppView {
    pub keys: Seq<Seq<char>>,
    pub query: Seq<char>,
    pub selection: Option<usize>,
    pub mode: Mode,
    pub scroll: nat,
    pub status: Seq<char>,
    pub cache: Map<Seq<char>, DetailsView>,
}

/// The status line after `n` keys were listed.
pub open spec fn found_text(n: nat) -> Seq<char> {
    decimal(n) + " keys found"@
}

/// The status line after the first connection failed.
pub open spec fn connect_failure_text(error: Seq<char>, addr: Seq<char>) -> Seq<char> {
    "Connection failed: "@ + error + " URL: "@ + addr
}

impl AppView {
    /// The active list: every key while the query is empty, else the keys
    /// that match it.
    pub open spec fn visible(self) -> Seq<Seq<char>> {
        if self.query.len() == 0 {
            self.keys
        } else {
            filter_spec(self.keys, self.query)
        }
    }

    /// A selection points into the active list.
    pub open spec fn valid(self) -> bool {
        match self.selection {
            Some(i) => i < self.visible().len(),
            None => true,
        }
    }

    /// The key under the selection.
    pub open spec fn selected_key(self) -> Option<Seq<char>> {
        match self.selection {
            Some(i) => if i < self.visible().len() {
                Some(self.visible()[i as int])
            } else {
                None
            },
            None => None,
        }
    }

    /// The details that the detail view shows: those of the selected key,
    /// while the detail view is open and the cache knows the key.
    pub open spec fn shown(self) -> Option<DetailsView> {
        match self.selected_key() {
            Some(k) => if self.mode == Mode::Detail && self.cache.contains_key(k) {
                Some(self.cache[k])
            } else {
                None
            },
            None => None,
        }
    }

    /// `Up` in the list: one step towards the start, from the first key or
    /// from no selection to the last key. Nothing moves in an empty list.
    pub open spec fn move_up(self) -> AppView {
        let n = self.visible().len();
        if n == 0 {
            self
        } else {
            let next = match self.selection {
                Some(i) => if i > 0 {
                    (i - 1) as usize
                } else {
                    (n - 1) as usize
                },
                None => (n - 1) as usize,
            };
            AppView { selection: Some(next), ..self }
        }
    }

    /// `Down` in the list: one step towards the end, from the last key to
    /// the first, from no selection to the first. Nothing moves in an empty
    /// list.
    pub open spec fn move_down(self) -> AppView {
        let n = self.visible().len();
        if n == 0 {
            self
        } else {
            let next = match self.selection {
                Some(i) => if i + 1 < n {
                    (i + 1) as usize
                } else {
                    0usize
                },
                None => 0usize,
            };
            AppView { selection: Some(next), ..self }
        }
    }

    /// `Up` in the detail view: one row towards the top; the top row stays.
    pub open spec fn scroll_up(self) -> AppView {
        if self.scroll > 0 {
            AppView { scroll: (self.scroll - 1) as nat, ..self }
        } else {
            self
        }
    }

    /// `Down` in the detail view: one row towards the bottom; the offset
    /// never passes the last row of the details shown.
    pub open spec fn scroll_down(self) -> AppView {
        match self.shown() {
            Some(d) => if self.scroll + 1 < KeyDetails::rows_spec(d) {
                AppView { scroll: self.scroll + 1, ..self }
            } else {
                self
            },
            None => self,
        }
    }

    /// A printable character in the list: it joins the query, and the
    /// selection is dropped. The detail view ignores it.
    pub open spec fn typed(self, c: char) -> AppView {
        if self.mode == Mode::Listing {
            AppView { query: self.query.push(c), selection: None, ..self }
        } else {
            self
        }
    }

    /// `Backspace` in the list: the last character leaves the query, and the
    /// selection is dropped. The detail view ignores it.
    pub open spec fn erased(self) -> AppView {
        if self.mode == Mode::Listing {
            AppView {
                query: if self.query.len() > 0 {
                    self.query.drop_last()
                } else {
                    self.query
                },
                selection: None,
                ..self
            }
        } else {
            self
        }
    }

    /// Whether `Enter` must first ask the store: the list is open, a key is
    /// selected, and the cache does not know it.
    pub open spec fn wants_fetch(self) -> bool {
        self.mode == Mode::Listing && self.selected_key().is_some() && !self.cache.contains_key(
            self.selected_key().unwrap(),
        )
    }

    /// `Enter`: with a selected key that the cache knows, the detail view
    /// opens at its top. Otherwise nothing changes.
    pub open spec fn entered(self) -> AppView {
        if self.mode == Mode::Listing && self.selected_key().is_some() && !self.wants_fetch() {
            AppView { mode: Mode::Detail, scroll: 0, ..self }
        } else {
            self
        }
    }

    /// `Esc`: back to the list, with the detail scroll offset forgotten.
    pub open spec fn escaped(self) -> AppView {
        AppView { mode: Mode::Listing, scroll: 0, ..self }
    }

    /// The state after a key press.
    pub open spec fn after_key(self, key: Key) -> AppView {
        match key {
            Key::Char(c) => if c == 'Q' || c == 'R' {
                self
            } else {
                self.typed(c)
            },
            Key::Enter => self.entered(),
            Key::Esc => self.escaped(),
            Key::Backspace => self.erased(),
            Key::Up => if self.mode == Mode::Detail {
                self.scroll_up()
            } else {
                self.move_up()
            },
            Key::Down => if self.mode == Mode::Detail {
                self.scroll_down()
            } else {
                self.move_down()
            },
            Key::Interrupt => self,
            Key::Other => self,
        }
    }

    /// What a key press asks of the caller.
    pub open spec fn command_for(self, key: Key) -> Action {
        match key {
            Key::Char(c) => if c == 'Q' {
                Action::Quit
            } else if c == 'R' {
                Action::Reload
            } else {
                Action::Continue
            },
            Key::Interrupt => Action::Quit,
            Key::Enter => if self.wants_fetch() {
                Action::Ask(begin_spec(self.selected_key().unwrap()))
            } else {
                Action::Continue
            },
            _ => Action::Continue,
        }
    }

    /// The state after the store listed `keys`: the new list, an empty
    /// cache, no selection, and the count in the status line.
    pub open spec fn loaded(self, keys: Seq<Seq<char>>) -> AppView {
        AppView {
            keys,
            selection: None,
            cache: Map::empty(),
            status: found_text(keys.len()),
            ..self
        }
    }

    /// The state with another status line. This is all that a failure of
    /// the store changes.
    pub open spec fn with_status(self, status: Seq<char>) -> AppView {
        AppView { status, ..self }
    }

    /// The state after the details of `key` arrived: the cache knows them,
    /// and the detail view opens at its top if the list is open on that key.
    pub open spec fn learned(self, key: Seq<char>, details: DetailsView) -> AppView {
        let cache = self.cache.insert(key, details);
        if self.mode == Mode::Listing && self.selected_key() == Some(key) {
            AppView { cache, mode: Mode::Detail, scroll: 0, ..self }
        } else {
            AppView { cache, ..self }
        }
    }
}

/// The text of the search box.
pub open spec fn search_text(query: Seq<char>) -> Seq<char> {
    "Search: "@ + query
}

/// The title of the key list: how many keys are visible, of how many.
pub open spec fn list_title(visible: nat, total: nat) -> Seq<char> {
    "Redis Keys ("@ + decimal(visible) + "/"@ + decimal(total) + ")"@
}

/// The frame of a state. The main region is the detail view while details
/// are shown, else the list view.
pub open spec fn render_spec(v: AppView) -> FrameView {
    FrameView {
        main: match v.shown() {
            Some(d) => MainRegionView::Detail(
                DetailRegionView {
                    key: v.selected_key().unwrap(),
                    type_tag: d.raw_type,
                    body: body_spec(d),
                    ttl: ttl_text(d.ttl),
                    scroll: v.scroll,
                },
            ),
            None => MainRegionView::Listing(
                ListRegionView {
                    search: search_text(v.query),
                    title: list_title(v.visible().len(), v.keys.len()),
                    items: v.visible(),
                    selected: v.selection,
                },
            ),
        },
        status: v.status,
        help: help_spec(),
    }
}

/// An event that reaches the browser: a key press, or what the store
/// answered to a command.
pub enum Event {
    /// A key was pressed.
    Key(Key),
    /// The keys of the store were listed, or listing them failed.
    Keys(Result<Vec<String>, String>),
    /// The store answered the question of a fetch, or failed to.
    Answer(Fetch, Reply),
}

impl AppView {
    /// The state after the store answered a fetch: unchanged while the
    /// fetch goes on; with the details learned once it is done; with the
    /// failure in the status line, and nothing cached, where it failed.
    pub open spec fn answered(self, fetch: FetchView, reply: Reply) -> AppView {
        match advance_spec(fetch, reply) {
            Outcome::Ask(_) => self,
            Outcome::Done(key, details) => self.learned(key, details),
            Outcome::Failed(message) => self.with_status(message),
        }
    }

    /// The state after an event.
    pub open spec fn after_event(self, event: Event) -> AppView {
        match event {
            Event::Key(key) => self.after_key(key),
            Event::Keys(Ok(keys)) => self.loaded(views(keys@)),
            Event::Keys(Err(message)) => self.with_status(message@),
            Event::Answer(fetch, reply) => self.answered(fetch@, reply),
        }
    }

    /// What an event asks of the caller.
    pub open spec fn command_after(self, event: Event) -> Action {
        match event {
            Event::Key(key) => self.command_for(key),
            Event::Keys(_) => Action::Continue,
            Event::Answer(fetch, reply) => match advance_spec(fetch@, reply) {
                Outcome::Ask(next) => Action::Ask(next),
                _ => Action::Continue,
            },
        }
    }
}

/// The state before anything is known of the store.
pub open spec fn initial() -> AppView {
    AppView {
        keys: Seq::empty(),
        query: Seq::empty(),
        selection: None,
        mode: Mode::Listing,
        scroll: 0,
        status: "not connected"@,
        cache: Map::empty(),
    }
}

/// The view model of the browser.
pub struct App {
    keys: Vec<String>,
    matches: Vec<String>,
    cache: DetailCache,
    status: String,
    query: String,
    mode: Mode,
    selection: Option<usize>,
    scroll: usize,
}

impl View for App {
    type V = AppView;

    closed spec fn view(&self) -> AppView {
        AppView {
            keys: views(self.keys@),
            query: self.query@,
            selection: self.selection,
            mode: self.mode,
            scroll: self.scroll as nat,
            status: self.status@,
            cache: self.cache@,
        }
    }
}

impl App {
    /// The parts fit together: while a query stands, the stored matches are
    /// those of the query, and the cache stores no key twice.
    pub closed spec fn consistent(&self) -> bool {
        &&& self.cache.wf()
        &&& self.query@.len() > 0 ==> views(self.matches@) == filter_spec(
            views(self.keys@),
            self.query@,
        )
    }

    /// The state is valid: the selection points into the active list, and
    /// the parts fit together.
    pub open spec fn wf(&self) -> bool {
        self@.valid() && self.consistent()
    }

    /// A browser that is not connected: the list is open and empty, with no
    /// query and no selection.
    pub fn new() -> (app: App)
        ensures
            app.wf(),
            app@ == initial(),
    {
        let app = App {
            keys: Vec::new(),
            matches: Vec::new(),
            cache: DetailCache::new(),
            status: String::from_str("not connected"),
            query: String::new(),
            mode: Mode::Listing,
            selection: None,
            scroll: 0,
        };
        proof {
            assert(views(app.keys@) =~= Seq::<Seq<char>>::empty());
        }
        app
    }

    /// Replaces the status line.
    pub fn set_status(&mut self, status: String)
        requires
            old(self).wf(),
        ensures
            final(self).wf(),
            final(self)@ == old(self)@.with_status(status@),
    {
        self.status = status;
    }

    /// The view that is open.
    pub fn mode(&self) -> (r: Mode)
        ensures
            r == self@.mode,
    {
        self.mode
    }

    /// The index of the selected key in the active list.
    pub fn selection(&self) -> (r: Option<usize>)
        ensures
            r == self@.selection,
    {
        self.selection
    }

    /// The scroll offset of the detail view.
    pub fn scroll(&self) -> (r: usize)
        ensures
            r == self@.scroll,
    {
        self.scroll
    }

    /// The status line.
    pub fn status(&self) -> (r: &String)
        ensures
            r@ == self@.status,
    {
        &self.status
    }

    /// The query of the filter.
    pub fn query(&self) -> (r: &String)
        ensures
            r@ == self@.query,
    {
        &self.query
    }

    /// Every key of the store, as last listed.
    pub fn keys(&self) -> (r: &Vec<String>)
        ensures
            views(r@) == self@.keys,
    {
        &self.keys
    }

    /// The active list: what the list view shows and the selection moves over.
    pub fn visible_keys(&self) -> (r: &Vec<String>)
        requires
            self.wf(),
        ensures
            views(r@) == self@.visible(),
    {
        self.active()
    }

    /// The detail cache.
    pub fn cache(&self) -> (r: &DetailCache)
        ensures
            r@ == self@.cache,
    {
        &self.cache
    }

    fn active(&self) -> (list: &Vec<String>)
        requires
            self.wf(),
        ensures
            views(list@) == self@.visible(),
    {
        if self.query.as_str().is_empty() {
            &self.keys
        } else {
            &self.matches
        }
    }

    /// The key under the selection, if a key is selected.
    pub fn selected_key(&self) -> (r: Option<String>)
        requires
            self.wf(),
        ensures
            match r {
                Some(k) => self@.selected_key() == Some(k@),
                None => self@.selected_key().is_none(),
            },
    {
        let list = self.active();
        match self.selection {
            Some(i) => if i < list.len() {
                Some(list[i].clone())
            } else {
                None
            },
            None => None,
        }
    }

    fn move_up(&mut self)
        requires
            old(self).wf(),
        ensures
            final(self).wf(),
            final(self)@ == old(self)@.move_up(),
    {
        let n = self.active().len();
        if n > 0 {
            let at_start = match self.selection {
                Some(i) => i == 0,
                None => true,
            };
            if at_start {
                self.selection = Some(n - 1);
            } else {
                self.selection = select_previous(self.selection);
            }
        }
    }

    fn move_down(&mut self)
        requires
            old(self).wf(),
        ensures
            final(self).wf(),
            final(self)@ == old(self)@.move_down(),
    {
        let n = self.active().len();
        if n > 0 {
            let at_end = match self.selection {
                Some(i) => i >= n - 1,
                None => false,
            };
            if at_end {
                self.selection = Some(0);
            } else {
                self.selection = select_next(self.selection);
            }
        }
    }

    fn scroll_down(&mut self)
        requires
            old(self).wf(),
        ensures
            final(self).wf(),
            final(self)@ == old(self)@.scroll_down(),
    {
        if let Mode::Detail = self.mode {
            if let Some(k) = self.selected_key() {
                if let Some(d) = self.cache.get(k.as_str()) {
                    let rows = d.rows();
                    if self.scroll < rows && self.scroll + 1 < rows {
                        self.scroll = self.scroll + 1;
                    }
                }
            }
        }
    }

    fn type_char(&mut self, c: char)
        requires
            old(self).wf(),
        ensures
            final(self).wf(),
            final(self)@ == old(self)@.typed(c),
    {
        if let Mode::Listing = self.mode {
            push_char(&mut self.query, c);
            self.matches = apply_filter(&self.keys, self.query.as_str());
            self.selection = None;
        }
    }

    fn erase_char(&mut self)
        requires
            old(self).wf(),
        ensures
            final(self).wf(),
            final(self)@ == old(self)@.erased(),
    {
        if let Mode::Listing = self.mode {
            let _ = pop_char(&mut self.query);
            if !self.query.as_str().is_empty() {
                self.matches = apply_filter(&self.keys, self.query.as_str());
            }
            self.selection = None;
        }
    }

    fn enter(&mut self) -> (r: Command)
        requires
            old(self).wf(),
        ensures
            final(self).wf(),
            final(self)@ == old(self)@.entered(),
            r@ == old(self)@.command_for(Key::Enter),
    {
        if let Mode::Listing = self.mode {
            if let Some(k) = self.selected_key() {
                match self.cache.ensure_details(k) {
                    Lookup::Hit(_) => {
                        self.mode = Mode::Detail;
                        self.scroll = 0;
                    },
                    Lookup::Miss(fetch) => {
                        return Command::Ask(fetch);
                    },
                }
            }
        }
        Command::Continue
    }

    /// Takes the answer to `Command::Reload`. A list of keys replaces the
    /// old one, empties the cache, drops the selection and puts the count in
    /// the status line. A failure changes the status line only.
    pub fn load_keys(&mut self, listing: Result<Vec<String>, String>)
        requires
            old(self).wf(),
        ensures
            final(self).wf(),
            final(self)@ == old(self)@.after_event(Event::Keys(listing)),
    {
        match listing {
            Ok(keys) => {
                self.status = join(decimal_text(keys.len() as u64), " keys found");
                self.keys = keys;
                self.cache.clear();
                self.selection = None;
                if !self.query.as_str().is_empty() {
                    self.matches = apply_filter(&self.keys, self.query.as_str());
                }
            },
            Err(message) => {
                self.status = message;
            },
        }
    }

    /// Takes the answer to `Command::Ask`. While the fetch goes on, the
    /// next question is handed out and nothing changes. Once it is done, the
    /// details enter the cache under the key of the fetch, and the detail
    /// view opens at its top if the list is open on that key. A failure
    /// changes the status line only.
    pub fn load_key_details(&mut self, fetch: Fetch, reply: Reply) -> (r: Command)
        requires
            old(self).wf(),
        ensures
            final(self).wf(),
            final(self)@ == old(self)@.after_event(Event::Answer(fetch, reply)),
            r@ == old(self)@.command_after(Event::Answer(fetch, reply)),
    {
        match fetch.advance(reply) {
            Progress::Ask(next) => Command::Ask(next),
            Progress::Done(key, details) => {
                let open_it = match self.mode {
                    Mode::Listing => match self.selected_key() {
                        Some(k) => k == key,
                        None => false,
                    },
                    Mode::Detail => false,
                };
                self.cache.insert(key, details);
                if open_it {
                    self.mode = Mode::Detail;
                    self.scroll = 0;
                }
                Command::Continue
            },
            Progress::Failed(message) => {
                self.status = message;
                Command::Continue
            },
        }
    }

    /// Takes the outcome of the first connection to the store at `addr`: the
    /// keys that were listed, or the text of the failure. A failure leaves
    /// the browser running on an empty list, with the failure and the
    /// address in the status line.
    pub fn connect_redis(&mut self, addr: &str, listing: Result<Vec<String>, String>)
        requires
            old(self).wf(),
        ensures
            final(self).wf(),
            final(self)@ == match listing {
                Ok(keys) => old(self)@.loaded(views(keys@)),
                Err(error) => old(self)@.with_status(connect_failure_text(error@, addr@)),
            },
    {
        match listing {
            Ok(keys) => {
                self.load_keys(Ok(keys));
            },
            Err(error) => {
                let text = join(
                    join(join(String::from_str("Connection failed: "), error.as_str()), " URL: "),
                    addr,
                );
                self.status = text;
            },
        }
    }

    /// Takes one event and tells the caller what to do next.
    pub fn run(&mut self, event: Event) -> (r: Command)
        requires
            old(self).wf(),
        ensures
            final(self).wf(),
            final(self)@ == old(self)@.after_event(event),
            r@ == old(self)@.command_after(event),
    {
        match event {
            Event::Key(key) => self.handle_key_events(key),
            Event::Keys(listing) => {
                self.load_keys(listing);
                Command::Continue
            },
            Event::Answer(fetch, reply) => self.load_key_details(fetch, reply),
        }
    }

    /// Builds the frame of the current state. The state is left as it is.
    pub fn render(&self) -> (frame: Frame)
        requires
            self.wf(),
        ensures
            frame@ == render_spec(self@),
    {
        let mut detail: Option<DetailRegion> = None;
        if let Mode::Detail = self.mode {
            if let Some(k) = self.selected_key() {
                if let Some(d) = self.cache.get(k.as_str()) {
                    detail = Some(
                        DetailRegion {
                            key: k,
                            type_tag: d.raw_type.clone(),
                            body: body_of(d),
                            ttl: format_ttl(d.ttl),
                            scroll: self.scroll,
                        },
                    );
                }
            }
        }
        let main = match detail {
            Some(region) => MainRegion::Detail(region),
            None => {
                let list = self.active();
                let title = join(
                    join(
                        join(
                            join(
                                String::from_str("Redis Keys ("),
                                decimal_text(list.len() as u64).as_str(),
                            ),
                            "/",
                        ),
                        decimal_text(self.keys.len() as u64).as_str(),
                    ),
                    ")",
                );
                MainRegion::Listing(
                    ListRegion {
                        search: join(String::from_str("Search: "), self.query.as_str()),
                        title,
                        items: clone_keys(list),
                        selected: self.selection,
                    },
                )
            },
        };
        Frame { main, status: self.status.clone(), help: help_line() }
    }

    /// Takes one key press: changes the state as `after_key` says and tells
    /// the caller what to do next.
    pub fn handle_key_events(&mut self, key: Key) -> (r: Command)
        requires
            old(self).wf(),
        ensures
            final(self).wf(),
            final(self)@ == old(self)@.after_key(key),
            r@ == old(self)@.command_for(key),
    {
        match key {
            Key::Char(c) => {
                if c == 'Q' {
                    Command::Quit
                } else if c == 'R' {
                    Command::Reload
                } else {
                    self.type_char(c);
                    Command::Continue
                }
            },
            Key::Interrupt => Command::Quit,
            Key::Enter => self.enter(),
            Key::Esc => {
                self.mode = Mode::Listing;
                self.scroll = 0;
                Command::Continue
            },
            Key::Backspace => {
                self.erase_char();
                Command::Continue
            },
            Key::Up => {
                match self.mode {
                    Mode::Detail => {
                        if self.scroll > 0 {
                            self.scroll = self.scroll - 1;
                        }
                    },
                    Mode::Listing => {
                        self.move_up();
                    },
                }
                Command::Continue
            },
            Key::Down => {
                match self.mode {
                    Mode::Detail => {
                        self.scroll_down();
                    },
                    Mode::Listing => {
                        self.move_down();
                    },
                }
                Command::Continue
            },
            Key::Other => Command::Continue,
        }
    }
}

} // verus!
