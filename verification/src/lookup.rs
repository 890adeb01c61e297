//! Looking a game up: where its page lives, where its cached copy lives,
//! which ids are known to be missing, and the protocol that decides when
//! the cache is read, when the network is asked and when a page is stored.
//!
//! The library performs no input or output. [`Lookup`] is a state machine:
//! the caller reports what happened as a [`LookupEvent`] and carries out
//! the [`LookupAction`] it is handed.

use crate::board::CATEGORY_COUNT;
use crate::decimal::{decimal_text, push_decimal};
use crate::game::Game;
use crate::parser::{parse_page, parsed_page};
use crate::pattern::Patterns;
use crate::text::{chars_of, contains, contains_text, string_of};
use std::string::FromUtf8Error;
use vstd::prelude::*;
use vstd::utf8::{decode_utf8, valid_utf8};

verus! {

/// What every source location starts with; the decimal id follows.
pub const SOURCE_PREFIX: &'static str = "https://www.j-archive.com/showgame.php?game_id=";

/// Number of characters of a source location that its cache path drops.
pub const SOURCE_PREFIX_LEN: usize = 47;

/// The directory that holds the cached pages.
pub const CACHE_ROOT: &'static str = "./cache/";

/// The text by which the source says that it has no such game.
pub const ERROR_MARKER: &'static str = "ERROR";

/// An id that the source is known not to have.
pub const MISSING_GAME: usize = 1132;

/// Why a lookup ended without a page.
#[derive(Clone, Copy, Debug, PartialEq, Eq, Structural)]
pub enum LookupError {
    /// The transport failed.
    Fetch,
    /// The payload is not valid text.
    Decode,
    /// The id is known to be missing, or the source says so.
    NotFound,
}

/// Where a lookup stands.
#[derive(Clone, Copy, Debug, PartialEq, Eq, Structural)]
pub enum LookupState {
    Start,
    AwaitingCache,
    AwaitingPage,
    Done,
}

/// What the caller reports to a lookup.
#[derive(Debug)]
pub enum LookupEvent {
    /// The lookup is to start.
    Begin,
    /// The cache holds this text under the path asked for.
    CacheHit(String),
    /// The cache holds nothing readable under the path asked for.
    CacheMiss,
    /// The source answered with these bytes.
    Page(Vec<u8>),
    /// The source could not be reached.
    TransportFailure,
}

/// What a lookup asks the caller to do.
#[derive(Debug)]
pub enum LookupAction {
    /// Read the cache entry at this path and report a hit or a miss.
    ReadCache(String),
    /// Fetch this location and report the bytes or a failure.
    Download(String),
    /// The lookup has its page. Where `store` names a path, write the page
    /// there first; a failed write does not fail the lookup.
    Deliver { page: String, store: Option<String> },
    /// The lookup ended without a page.
    Fail(LookupError),
    /// The event does not fit the state: nothing changed, nothing to do.
    Ignore,
}

/// An event as mathematical values.
pub enum EventView {
    Begin,
    CacheHit(Seq<char>),
    CacheMiss,
    Page(Seq<u8>),
    TransportFailure,
}

/// An action as mathematical values.
pub enum ActionView {
    ReadCache(Seq<char>),
    Download(Seq<char>),
    Deliver { page: Seq<char>, store: Option<Seq<char>> },
    Fail(LookupError),
    Ignore,
}

impl View for LookupEvent {
    type V = EventView;

    open spec fn view(&self) -> EventView {
        match self {
            LookupEvent::Begin => EventView::Begin,
            LookupEvent::CacheHit(text) => EventView::CacheHit(text@),
            LookupEvent::CacheMiss => EventView::CacheMiss,
            LookupEvent::Page(bytes) => EventView::Page(bytes@),
            LookupEvent::TransportFailure => EventView::TransportFailure,
        }
    }
}

impl View for LookupAction {
    type V = ActionView;

    open spec fn view(&self) -> ActionView {
        match self {
            LookupAction::ReadCache(path) => ActionView::ReadCache(path@),
            LookupAction::Download(url) => ActionView::Download(url@),
            LookupAction::Deliver { page, store } => ActionView::Deliver {
                page: page@,
                store: match store {
                    Some(path) => Some(path@),
                    None => None,
                },
            },
            LookupAction::Fail(e) => ActionView::Fail(*e),
            LookupAction::Ignore => ActionView::Ignore,
        }
    }
}

/// The id is on the list of games that the source is known not to have.
pub open spec fn is_missing(game_id: usize) -> bool {
    game_id == MISSING_GAME
}

/// The source location of a game: the fixed prefix, then the id in
/// decimal.
pub open spec fn url_of(game_id: usize) -> Seq<char> {
    SOURCE_PREFIX@ + decimal_text(game_id as nat)
}

/// The cache path of a source location: the cache directory, then the
/// location without its first 47 characters. A shorter location has no
/// cache path.
pub open spec fn cache_path_of(url: Seq<char>) -> Option<Seq<char>> {
    if url.len() >= SOURCE_PREFIX_LEN {
        Some(CACHE_ROOT@ + url.skip(SOURCE_PREFIX_LEN as int))
    } else {
        None
    }
}

/// The cache path of a game: the cache directory, then the id in decimal.
pub open spec fn cache_path_of_game(game_id: usize) -> Seq<char> {
    CACHE_ROOT@ + decimal_text(game_id as nat)
}

/// The text holds the marker by which the source reports an unknown game.
pub open spec fn has_error_marker(page: Seq<char>) -> bool {
    contains(page, ERROR_MARKER@)
}

/// What a lookup of `game_id` does in `state` when `event` is reported:
/// the state it moves to and the action it asks for.
pub open spec fn lookup_step(game_id: usize, state: LookupState, event: EventView) -> (
    LookupState,
    ActionView,
) {
    match (state, event) {
        (LookupState::Start, EventView::Begin) => if is_missing(game_id) {
            (LookupState::Done, ActionView::Fail(LookupError::NotFound))
        } else {
            (LookupState::AwaitingCache, ActionView::ReadCache(cache_path_of_game(game_id)))
        },
        (LookupState::AwaitingCache, EventView::CacheHit(text)) => (
            LookupState::Done,
            ActionView::Deliver { page: text, store: None },
        ),
        (LookupState::AwaitingCache, EventView::CacheMiss) => (
            LookupState::AwaitingPage,
            ActionView::Download(url_of(game_id)),
        ),
        (LookupState::AwaitingPage, EventView::Page(bytes)) => if !valid_utf8(bytes) {
            (LookupState::Done, ActionView::Fail(LookupError::Decode))
        } else if has_error_marker(decode_utf8(bytes)) {
            (LookupState::Done, ActionView::Fail(LookupError::NotFound))
        } else {
            (
                LookupState::Done,
                ActionView::Deliver {
                    page: decode_utf8(bytes),
                    store: Some(cache_path_of_game(game_id)),
                },
            )
        },
        (LookupState::AwaitingPage, EventView::TransportFailure) => (
            LookupState::Done,
            ActionView::Fail(LookupError::Fetch),
        ),
        _ => (state, ActionView::Ignore),
    }
}

/// The actions that a lookup asks for, one for each event of `events`
/// reported in turn, starting in `state`.
pub open spec fn lookup_run(game_id: usize, state: LookupState, events: Seq<EventView>) -> Seq<
    ActionView,
>
    decreases events.len(),
{
    if events.len() == 0 {
        Seq::empty()
    } else {
        let (next, action) = lookup_step(game_id, state, events[0]);
        seq![action] + lookup_run(game_id, next, events.skip(1))
    }
}

/// The action asks the caller to touch the cache or the network.
pub open spec fn is_request(action: ActionView) -> bool {
    action is ReadCache || action is Download
}

/// A page in hand makes a game: the id is not known to be missing, the
/// page does not carry the marker of an unknown game, and it yields the
/// thirteen categories of a complete game.
pub open spec fn game_available(game_id: usize, page: Seq<char>) -> bool {
    &&& !is_missing(game_id)
    &&& !has_error_marker(page)
    &&& parsed_page(page).categories.len() == CATEGORY_COUNT
}

#[verifier::external_type_specification]
#[verifier::external_body]
pub struct ExFromUtf8Error(FromUtf8Error);

/// `String::from_utf8` turns bytes into a string exactly when they are
/// valid UTF-8, and the string then holds the text that they encode.
pub assume_specification[ String::from_utf8 ](vec: Vec<u8>) -> (r: Result<String, FromUtf8Error>)
    ensures
        r.is_ok() == valid_utf8(vec@),
        r matches Ok(s) ==> s@ == decode_utf8(vec@),
;

/// Tells whether the source is known not to have the game.
pub fn is_known_missing(game_id: usize) -> (b: bool)
    ensures
        b == is_missing(game_id),
{
    game_id == MISSING_GAME
}

/// The source location of a game.
pub fn gen_url(game_id: usize) -> (url: String)
    ensures
        url@ == url_of(game_id),
{
    let mut out = chars_of(SOURCE_PREFIX);
    push_decimal(&mut out, game_id);
    string_of(&out)
}

/// The cache path of a source location, if the location is long enough to
/// have one.
pub fn cache_path(url: &str) -> (path: Option<String>)
    ensures
        path.is_some() == cache_path_of(url@).is_some(),
        path matches Some(p) ==> cache_path_of(url@) == Some(p@),
{
    let location = chars_of(url);
    if location.len() < SOURCE_PREFIX_LEN {
        return None;
    }
    let mut out = chars_of(CACHE_ROOT);
    let mut i: usize = SOURCE_PREFIX_LEN;
    while i < location.len()
        invariant
            SOURCE_PREFIX_LEN <= i <= location.len(),
            out@ == CACHE_ROOT@ + location@.subrange(SOURCE_PREFIX_LEN as int, i as int),
        decreases location.len() - i,
    {
        out.push(location[i]);
        i += 1;
    }
    assert(location@.subrange(SOURCE_PREFIX_LEN as int, location.len() as int) == location@.skip(
        SOURCE_PREFIX_LEN as int,
    ));
    Some(string_of(&out))
}

/// The cache path of a game's source location is the cache directory
/// followed by the id in decimal.
pub proof fn lemma_cache_path_of_url(game_id: usize)
    ensures
        cache_path_of(url_of(game_id)) == Some(cache_path_of_game(game_id)),
{
    reveal_strlit("https://www.j-archive.com/showgame.php?game_id=");
    let url = url_of(game_id);
    assert(SOURCE_PREFIX@.len() == SOURCE_PREFIX_LEN);
    assert(url.skip(SOURCE_PREFIX_LEN as int) == decimal_text(game_id as nat));
}

/// Tells whether a page holds the marker of an unknown game.
pub fn page_has_error_marker(page: &str) -> (b: bool)
    ensures
        b == has_error_marker(page@),
{
    let text = chars_of(page);
    let marker = chars_of(ERROR_MARKER);
    contains_text(&text, &marker)
}

/// One lookup of one game.
#[derive(Debug)]
pub struct Lookup {
    game_id: usize,
    state: LookupState,
}

impl Lookup {
    /// The game that is looked up.
    pub closed spec fn spec_game_id(&self) -> usize {
        self.game_id
    }

    /// Where the lookup stands.
    pub closed spec fn spec_state(&self) -> LookupState {
        self.state
    }

    /// A lookup of `game_id` that has not started.
    pub fn new(game_id: usize) -> (lookup: Lookup)
        ensures
            lookup.spec_game_id() == game_id,
            lookup.spec_state() == LookupState::Start,
    {
        Lookup { game_id, state: LookupState::Start }
    }

    /// The game that is looked up.
    pub fn game_id(&self) -> (id: usize)
        ensures
            id == self.spec_game_id(),
    {
        self.game_id
    }

    /// Where the lookup stands.
    pub fn state(&self) -> (state: LookupState)
        ensures
            state == self.spec_state(),
    {
        self.state
    }

    /// Takes an event and says what to do next.
    pub fn step(&mut self, event: LookupEvent) -> (action: LookupAction)
        ensures
            final(self).spec_game_id() == old(self).spec_game_id(),
            (final(self).spec_state(), action@) == lookup_step(
                old(self).spec_game_id(),
                old(self).spec_state(),
                event@,
            ),
    {
        match (self.state, event) {
            (LookupState::Start, LookupEvent::Begin) => {
                if is_known_missing(self.game_id) {
                    self.state = LookupState::Done;
                    LookupAction::Fail(LookupError::NotFound)
                } else {
                    self.state = LookupState::AwaitingCache;
                    LookupAction::ReadCache(self.cache_path())
                }
            },
            (LookupState::AwaitingCache, LookupEvent::CacheHit(text)) => {
                self.state = LookupState::Done;
                LookupAction::Deliver { page: text, store: None }
            },
            (LookupState::AwaitingCache, LookupEvent::CacheMiss) => {
                self.state = LookupState::AwaitingPage;
                LookupAction::Download(gen_url(self.game_id))
            },
            (LookupState::AwaitingPage, LookupEvent::Page(bytes)) => {
                self.state = LookupState::Done;
                match String::from_utf8(bytes) {
                    Err(_) => LookupAction::Fail(LookupError::Decode),
                    Ok(page) => {
                        if page_has_error_marker(page.as_str()) {
                            LookupAction::Fail(LookupError::NotFound)
                        } else {
                            LookupAction::Deliver { page, store: Some(self.cache_path()) }
                        }
                    },
                }
            },
            (LookupState::AwaitingPage, LookupEvent::TransportFailure) => {
                self.state = LookupState::Done;
                LookupAction::Fail(LookupError::Fetch)
            },
            _ => LookupAction::Ignore,
        }
    }

    /// The cache path of the game that is looked up.
    pub fn cache_path(&self) -> (path: String)
        ensures
            path@ == cache_path_of_game(self.spec_game_id()),
    {
        let mut out = chars_of(CACHE_ROOT);
        push_decimal(&mut out, self.game_id);
        string_of(&out)
    }
}

/// The game that a page in hand holds, if it holds one: `None` for an id
/// known to be missing, for a page that carries the marker of an unknown
/// game, and for a page without its thirteen categories. An incomplete
/// page is thus not told apart from a missing game here; a caller that
/// wants the failure itself, with the boards that were read, calls
/// [`parse_page`].
pub fn get_game_data(patterns: &Patterns, game_id: usize, page: &str) -> (game: Option<Game>)
    requires
        patterns.wf(),
    ensures
        game.is_some() == game_available(game_id, page@),
        is_missing(game_id) ==> game.is_none(),
        has_error_marker(page@) ==> game.is_none(),
        game matches Some(g) ==> g.wf() && g@ == parsed_page(page@) && g@.categories.len()
            == CATEGORY_COUNT,
{
    if is_known_missing(game_id) {
        return None;
    }
    if page_has_error_marker(page) {
        return None;
    }
    match parse_page(patterns, page) {
        Ok(game) => Some(game),
        Err(_) => None,
    }
}

/// None of the actions asks the caller to touch the cache or the network.
pub open spec fn no_requests(actions: Seq<ActionView>) -> bool {
    forall|i: int| 0 <= i < actions.len() ==> !is_request(#[trigger] actions[i])
}

/// Once a lookup is done, it asks for nothing more.
pub proof fn lemma_done_stays_idle(game_id: usize, events: Seq<EventView>)
    ensures
        no_requests(lookup_run(game_id, LookupState::Done, events)),
    decreases events.len(),
{
    if events.len() > 0 {
        let (next, action) = lookup_step(game_id, LookupState::Done, events[0]);
        let rest = lookup_run(game_id, next, events.skip(1));
        lemma_done_stays_idle(game_id, events.skip(1));
        assert forall|i: int| 0 <= i < (seq![action] + rest).len() implies !is_request(
            #[trigger] (seq![action] + rest)[i],
        ) by {
            if i > 0 {
                assert((seq![action] + rest)[i] == rest[i - 1]);
            }
        }
    }
}

/// A lookup of a game that is known to be missing never asks for the cache
/// or the network, whatever events are reported to it and in how many
/// steps.
pub proof fn lemma_missing_game_never_requested(game_id: usize, events: Seq<EventView>)
    requires
        is_missing(game_id),
    ensures
        no_requests(lookup_run(game_id, LookupState::Start, events)),
    decreases events.len(),
{
    if events.len() > 0 {
        let (next, action) = lookup_step(game_id, LookupState::Start, events[0]);
        let rest = lookup_run(game_id, next, events.skip(1));
        if next == LookupState::Start {
            lemma_missing_game_never_requested(game_id, events.skip(1));
        } else {
            lemma_done_stays_idle(game_id, events.skip(1));
        }
        assert forall|i: int| 0 <= i < (seq![action] + rest).len() implies !is_request(
            #[trigger] (seq![action] + rest)[i],
        ) by {
            if i > 0 {
                assert((seq![action] + rest)[i] == rest[i - 1]);
            }
        }
    }
}

/// A cache hit is served from the cache. In no state does the report of a
/// hit lead to a download; a lookup that awaits the cache delivers exactly
/// the cached text, asks for nothing to be stored, and asks for nothing
/// more afterwards.
pub proof fn lemma_cache_hit_never_downloads(
    game_id: usize,
    state: LookupState,
    text: Seq<char>,
    later: Seq<EventView>,
)
    ensures
        !(lookup_step(game_id, state, EventView::CacheHit(text)).1 is Download),
        lookup_step(game_id, LookupState::AwaitingCache, EventView::CacheHit(text)) == (
            LookupState::Done,
            ActionView::Deliver { page: text, store: None },
        ),
        no_requests(
            lookup_run(
                game_id,
                LookupState::AwaitingCache,
                seq![EventView::CacheHit(text)] + later,
            ),
        ),
{
    let events = seq![EventView::CacheHit(text)] + later;
    let (next, action) = lookup_step(game_id, LookupState::AwaitingCache, events[0]);
    let rest = lookup_run(game_id, next, events.skip(1));
    assert(events.skip(1) == later);
    lemma_done_stays_idle(game_id, later);
    assert forall|i: int| 0 <= i < (seq![action] + rest).len() implies !is_request(
        #[trigger] (seq![action] + rest)[i],
    ) by {
        if i > 0 {
            assert((seq![action] + rest)[i] == rest[i - 1]);
        }
    }
}

} // verus!
