//! What a key press or a mouse wheel turn does to the browser state, and what the
//! program around it has to do next.
use crate::models::{lemma_next_prev_inverse, next_tab, prev_tab, Tab};
use crate::text::{pop_char, push_char};
use crate::scraper::slug_of;
use crate::ui::app::{
    begin_search, cancel_search, clamp_usize, go_to_landing, page_rows, AppState, AppView,
};
use vstd::prelude::*;

verus! {

/// A key, as far as the browser tells keys apart.
#[derive(Debug, Clone, Copy, PartialEq, Eq, Structural)]
pub enum Key {
    Char(char),
    Enter,
    Esc,
    Backspace,
    Tab,
    BackTab,
    Up,
    Down,
    PageUp,
    PageDown,
    Home,
    End,
    Other,
}

/// A key press, with whether Control was held.
#[derive(Debug, Clone, Copy, PartialEq, Eq, Structural)]
pub struct KeyPress {
    pub key: Key,
    pub ctrl: bool,
}

/// A turn of the mouse wheel.
#[derive(Debug, Clone, Copy, PartialEq, Eq, Structural)]
pub enum Wheel {
    Up,
    Down,
    Other,
}

/// A rectangle of the screen.
#[derive(Debug, Clone, Copy, PartialEq, Eq, Structural)]
pub struct Area {
    pub x: u16,
    pub y: u16,
    pub width: u16,
    pub height: u16,
}

/// What the program has to do after an input.
#[derive(Debug)]
pub enum Effect {
    /// Nothing more.
    Continue,
    /// Quit the program.
    Quit,
    /// Open the theme picker.
    OpenThemePicker,
    /// Copy the import code of the shown player.
    CopyImportCode,
    /// Look up `slug` in the background and deliver the result under `request_id`.
    StartLookup { request_id: u64, slug: String },
}

/// An effect with its texts as character sequences.
pub enum EffectView {
    Continue,
    Quit,
    OpenThemePicker,
    CopyImportCode,
    StartLookup { request_id: u64, slug: Seq<char> },
}

impl View for Effect {
    type V = EffectView;

    open spec fn view(&self) -> EffectView {
        match self {
            Effect::Continue => EffectView::Continue,
            Effect::Quit => EffectView::Quit,
            Effect::OpenThemePicker => EffectView::OpenThemePicker,
            Effect::CopyImportCode => EffectView::CopyImportCode,
            Effect::StartLookup { request_id, slug } => EffectView::StartLookup {
                request_id: *request_id,
                slug: slug@,
            },
        }
    }
}

/// The state with `c` typed at the end of the query.
pub open spec fn typed(s: AppView, c: char) -> AppView {
    AppView { search_query: s.search_query.push(c), ..s }
}

/// The state with the last character of the query erased, if there is one.
pub open spec fn erased(s: AppView) -> AppView {
    if s.search_query.len() > 0 {
        AppView { search_query: s.search_query.drop_last(), ..s }
    } else {
        s
    }
}

/// Starting a search for `query`, and the lookup it asks for when it starts.
pub open spec fn search_step(s: AppView, query: Seq<char>) -> (AppView, EffectView) {
    let (t, started) = begin_search(s, query);
    match started {
        Some((id, slug)) => (t, EffectView::StartLookup { request_id: id, slug }),
        None => (t, EffectView::Continue),
    }
}

/// Submitting the typed query: searched for unless it is empty or a search is running.
pub open spec fn submit_step(s: AppView) -> (AppView, EffectView) {
    if s.search_query.len() > 0 && !s.is_loading {
        search_step(s, s.search_query)
    } else {
        (s, EffectView::Continue)
    }
}

/// Escape: gives up the running search; with none, quits from the landing screen and
/// goes back to it from anywhere else.
pub open spec fn escape_step(s: AppView) -> (AppView, EffectView) {
    let (t, cancelled) = cancel_search(s);
    if cancelled {
        (t, EffectView::Continue)
    } else if t.on_landing {
        (t, EffectView::Quit)
    } else {
        (go_to_landing(t), EffectView::Continue)
    }
}

/// A scroll key: moves the settings table when a player is shown.
pub open spec fn scroll_step(s: AppView, key: Key) -> AppView {
    if s.player_data is None {
        s
    } else {
        let o = s.scroll_offset as int;
        let to = match key {
            Key::Up => clamp_usize(o - 1),
            Key::Down => clamp_usize(o + 1),
            Key::PageUp => clamp_usize(o - page_rows(s)),
            Key::PageDown => clamp_usize(o + page_rows(s)),
            Key::Home => 0,
            _ => usize::MAX,
        };
        AppView { scroll_offset: to, ..s }
    }
}

/// A key on the landing screen: `q` quits only when nothing is typed, and a plain
/// character is handled as on the results screen (`t` on an empty query opens the
/// theme picker, anything else is typed).
pub open spec fn landing_step(s: AppView, p: KeyPress) -> (AppView, EffectView) {
    match p.key {
        Key::Esc => (s, EffectView::Quit),
        Key::Enter => if !s.on_landing {
            submit_step(s)
        } else {
            let left = AppView { on_landing: false, ..s };
            if s.search_query.len() > 0 {
                search_step(left, s.search_query)
            } else {
                (left, EffectView::Continue)
            }
        },
        Key::Backspace => (erased(s), EffectView::Continue),
        Key::Char(c) => if (c == 'q' || c == 'Q') && s.search_query.len() == 0 {
            (s, EffectView::Quit)
        } else if (c == 't' || c == 'T') && p.ctrl {
            (s, EffectView::OpenThemePicker)
        } else if !p.ctrl {
            character_step(s, c)
        } else {
            (s, EffectView::Continue)
        },
        _ => (s, EffectView::Continue),
    }
}

/// A key while a search is running.
pub open spec fn loading_step(s: AppView, p: KeyPress) -> (AppView, EffectView) {
    match p.key {
        Key::Esc => escape_step(s),
        Key::Backspace => (erased(s), EffectView::Continue),
        Key::Char(c) => if !p.ctrl {
            (typed(s, c), EffectView::Continue)
        } else {
            (s, EffectView::Continue)
        },
        _ => (s, EffectView::Continue),
    }
}

/// A character typed on the results screen: `t` on an empty query opens the theme
/// picker, anything else is typed.
pub open spec fn character_step(s: AppView, c: char) -> (AppView, EffectView) {
    if s.search_query.len() == 0 && (c == 't' || c == 'T') {
        (s, EffectView::OpenThemePicker)
    } else {
        (typed(s, c), EffectView::Continue)
    }
}

/// A key on the results screen with no search running.
pub open spec fn browse_step(s: AppView, p: KeyPress) -> (AppView, EffectView) {
    match p.key {
        Key::Tab => (
            AppView { current_tab: next_tab(s.current_tab), scroll_offset: 0, ..s },
            EffectView::Continue,
        ),
        Key::BackTab => (
            AppView { current_tab: prev_tab(s.current_tab), scroll_offset: 0, ..s },
            EffectView::Continue,
        ),
        Key::Esc => escape_step(s),
        Key::Up | Key::Down | Key::PageUp | Key::PageDown | Key::Home | Key::End => (
            scroll_step(s, p.key),
            EffectView::Continue,
        ),
        Key::Enter => submit_step(s),
        Key::Backspace => (erased(s), EffectView::Continue),
        Key::Char(c) => if (c == 't' || c == 'T') && p.ctrl {
            (s, EffectView::OpenThemePicker)
        } else if (c == 'y' || c == 'Y') && p.ctrl {
            (s, EffectView::CopyImportCode)
        } else if c == 'q' || c == 'Q' {
            if s.search_query.len() == 0 {
                (s, EffectView::Quit)
            } else {
                (typed(s, 'q'), EffectView::Continue)
            }
        } else {
            character_step(s, c)
        },
        Key::Other => (s, EffectView::Continue),
    }
}

/// A key press, with the theme picker closed: the landing screen, a running search
/// and the results screen each read keys their own way.
pub open spec fn key_step(s: AppView, p: KeyPress) -> (AppView, EffectView) {
    if s.on_landing {
        landing_step(s, p)
    } else if s.is_loading {
        loading_step(s, p)
    } else {
        browse_step(s, p)
    }
}

/// A wheel turn, with the theme picker closed: it scrolls the settings table of a
/// shown player when it happens over the table and no search is running.
pub open spec fn wheel_step(s: AppView, wheel: Wheel, over_table: bool) -> AppView {
    if s.is_loading || !over_table || s.player_data is None {
        s
    } else {
        match wheel {
            Wheel::Up => AppView { scroll_offset: clamp_usize(s.scroll_offset - 1), ..s },
            Wheel::Down => AppView { scroll_offset: clamp_usize(s.scroll_offset + 1), ..s },
            Wheel::Other => s,
        }
    }
}

/// Whether the cell at `column`, `row` lies inside `area`.
pub open spec fn area_holds(area: Area, column: u16, row: u16) -> bool {
    area.x <= column < area.x + area.width && area.y <= row < area.y + area.height
}

/// Whether the cell at `column`, `row` lies inside `area`, whose right and bottom edges
/// stay on the screen.
pub fn contains(area: Area, column: u16, row: u16) -> (b: bool)
    requires
        area.x + area.width <= u16::MAX,
        area.y + area.height <= u16::MAX,
    ensures
        b == area_holds(area, column, row),
{
    column >= area.x && column < area.x + area.width && row >= area.y && row < area.y
        + area.height
}

fn search(state: &mut AppState, query: &str) -> (e: Effect)
    ensures
        (final(state)@, e@) == search_step(old(state)@, query@),
{
    match state.begin_search(query) {
        Some((request_id, slug)) => Effect::StartLookup { request_id, slug },
        None => Effect::Continue,
    }
}

fn submit_search(state: &mut AppState) -> (e: Effect)
    ensures
        (final(state)@, e@) == submit_step(old(state)@),
{
    let query = state.search_query.clone();
    if query.unicode_len() > 0 && !state.is_loading {
        search(state, query.as_str())
    } else {
        Effect::Continue
    }
}

fn handle_escape(state: &mut AppState) -> (e: Effect)
    ensures
        (final(state)@, e@) == escape_step(old(state)@),
{
    if state.cancel_search() {
        return Effect::Continue;
    }
    if state.on_landing {
        return Effect::Quit;
    }
    state.go_to_landing();
    Effect::Continue
}

fn type_char(state: &mut AppState, c: char)
    ensures
        final(state)@ == typed(old(state)@, c),
{
    push_char(&mut state.search_query, c);
}

fn erase_char(state: &mut AppState)
    ensures
        final(state)@ == erased(old(state)@),
{
    let _ = pop_char(&mut state.search_query);
}

fn scroll_if_player_loaded(state: &mut AppState, key: Key)
    requires
        key is Up || key is Down || key is PageUp || key is PageDown || key is Home || key is End,
    ensures
        final(state)@ == scroll_step(old(state)@, key),
{
    if state.player_data.is_none() {
        return;
    }
    match key {
        Key::Up => state.scroll_up(),
        Key::Down => state.scroll_down(),
        Key::PageUp => state.scroll_page_up(),
        Key::PageDown => state.scroll_page_down(),
        Key::Home => state.scroll_top(),
        _ => state.scroll_bottom(),
    }
}

fn handle_landing_key(state: &mut AppState, press: KeyPress) -> (e: Effect)
    ensures
        (final(state)@, e@) == landing_step(old(state)@, press),
{
    match press.key {
        Key::Esc => Effect::Quit,
        Key::Enter => {
            if !state.on_landing {
                return submit_search(state);
            }
            let query = state.search_query.clone();
            state.leave_landing();
            if query.unicode_len() > 0 {
                search(state, query.as_str())
            } else {
                Effect::Continue
            }
        },
        Key::Backspace => {
            erase_char(state);
            Effect::Continue
        },
        Key::Char(c) => {
            if (c == 'q' || c == 'Q') && state.search_query.unicode_len() == 0 {
                Effect::Quit
            } else if (c == 't' || c == 'T') && press.ctrl {
                Effect::OpenThemePicker
            } else if !press.ctrl {
                handle_character(state, c)
            } else {
                Effect::Continue
            }
        },
        _ => Effect::Continue,
    }
}

fn handle_loading_key(state: &mut AppState, press: KeyPress) -> (e: Effect)
    ensures
        (final(state)@, e@) == loading_step(old(state)@, press),
{
    match press.key {
        Key::Esc => handle_escape(state),
        Key::Backspace => {
            erase_char(state);
            Effect::Continue
        },
        Key::Char(c) => {
            if !press.ctrl {
                type_char(state, c);
            }
            Effect::Continue
        },
        _ => Effect::Continue,
    }
}

fn handle_character(state: &mut AppState, c: char) -> (e: Effect)
    ensures
        (final(state)@, e@) == character_step(old(state)@, c),
{
    if state.search_query.unicode_len() == 0 && (c == 't' || c == 'T') {
        Effect::OpenThemePicker
    } else {
        type_char(state, c);
        Effect::Continue
    }
}

fn handle_browse_key(state: &mut AppState, press: KeyPress) -> (e: Effect)
    ensures
        (final(state)@, e@) == browse_step(old(state)@, press),
{
    match press.key {
        Key::Tab => {
            state.next_tab();
            Effect::Continue
        },
        Key::BackTab => {
            state.prev_tab();
            Effect::Continue
        },
        Key::Esc => handle_escape(state),
        Key::Up | Key::Down | Key::PageUp | Key::PageDown | Key::Home | Key::End => {
            scroll_if_player_loaded(state, press.key);
            Effect::Continue
        },
        Key::Enter => submit_search(state),
        Key::Backspace => {
            erase_char(state);
            Effect::Continue
        },
        Key::Char(c) => {
            if (c == 't' || c == 'T') && press.ctrl {
                Effect::OpenThemePicker
            } else if (c == 'y' || c == 'Y') && press.ctrl {
                Effect::CopyImportCode
            } else if c == 'q' || c == 'Q' {
                if state.search_query.unicode_len() == 0 {
                    return Effect::Quit;
                }
                type_char(state, 'q');
                Effect::Continue
            } else {
                handle_character(state, c)
            }
        },
        Key::Other => Effect::Continue,
    }
}

/// Handles a key press while the theme picker is closed, and says what to do next.
pub fn handle_key(state: &mut AppState, press: KeyPress) -> (e: Effect)
    ensures
        (final(state)@, e@) == key_step(old(state)@, press),
{
    if state.on_landing {
        return handle_landing_key(state, press);
    }
    if state.is_loading {
        return handle_loading_key(state, press);
    }
    handle_browse_key(state, press)
}

/// Handles a wheel turn while the theme picker is closed; `over_table` tells whether
/// the pointer is over the settings table.
pub fn handle_wheel(state: &mut AppState, wheel: Wheel, over_table: bool)
    ensures
        final(state)@ == wheel_step(old(state)@, wheel, over_table),
{
    if state.is_loading || !over_table || state.player_data.is_none() {
        return;
    }
    match wheel {
        Wheel::Up => state.scroll_up(),
        Wheel::Down => state.scroll_down(),
        Wheel::Other => {},
    }
}

/// A key press never starts a search while one is running, and a key press keeps a
/// well-formed state well formed.
pub proof fn lemma_keys_keep_protocol(s: AppView, p: KeyPress)
    requires
        s.wf(),
    ensures
        key_step(s, p).0.wf(),
        s.is_loading && !s.on_landing ==> !(key_step(s, p).1 is StartLookup),
{
}

/// Escape on the landing screen with no search running quits, and elsewhere it never
/// quits while a search runs: it gives the search up instead.
pub proof fn lemma_escape(s: AppView)
    ensures
        !s.is_loading && s.on_landing ==> escape_step(s).1 is Quit,
        s.is_loading ==> escape_step(s).1 is Continue && !escape_step(s).0.is_loading,
{
}

/// With no search running, on either screen, `q` quits exactly when nothing is typed;
/// otherwise a plain `q` is typed like any letter.
pub proof fn lemma_q_quits_only_on_empty_query(s: AppView, ctrl: bool)
    requires
        !s.is_loading,
    ensures
        (key_step(s, KeyPress { key: Key::Char('q'), ctrl }).1 is Quit) <==> s.search_query.len()
            == 0,
        s.search_query.len() > 0 && (!ctrl || !s.on_landing) ==> key_step(
            s,
            KeyPress { key: Key::Char('q'), ctrl },
        ).0 == typed(s, 'q'),
{
}

/// On the results screen with no search running, Tab then Shift+Tab comes back to the
/// same tab, scrolled to the top.
pub proof fn lemma_tab_keys_undo(s: AppView)
    requires
        !s.on_landing,
        !s.is_loading,
        s.current_tab != Tab::Gear,
    ensures
        ({
            let forward = key_step(s, KeyPress { key: Key::Tab, ctrl: false }).0;
            let back = key_step(forward, KeyPress { key: Key::BackTab, ctrl: false }).0;
            back == AppView { scroll_offset: 0, ..s }
        }),
{
    lemma_next_prev_inverse(s.current_tab);
}


/// On the results screen with a player shown and no search running, the scroll keys
/// move the settings table and nothing else: Up and Down by one row, PageUp and
/// PageDown by a page (the visible rows, at least one), stopping at zero and at the
/// largest offset; Home goes to the top and End to the bottom.
pub proof fn lemma_scroll_keys_move_the_table(s: AppView, ctrl: bool)
    requires
        !s.on_landing,
        !s.is_loading,
        s.player_data is Some,
    ensures
        ({
            let o = s.scroll_offset as int;
            let page: int = if s.visible_rows == 0 { 1 } else { s.visible_rows as int };
            let moved = |to: int| (AppView { scroll_offset: to as usize, ..s }, EffectView::Continue);
            &&& key_step(s, KeyPress { key: Key::Up, ctrl }) == moved(if o >= 1 { o - 1 } else { 0 })
            &&& key_step(s, KeyPress { key: Key::Down, ctrl }) == moved(
                if o < usize::MAX { o + 1 } else { o },
            )
            &&& key_step(s, KeyPress { key: Key::PageUp, ctrl }) == moved(
                if o >= page { o - page } else { 0 },
            )
            &&& key_step(s, KeyPress { key: Key::PageDown, ctrl }) == moved(
                if o + page <= usize::MAX { o + page } else { usize::MAX as int },
            )
            &&& key_step(s, KeyPress { key: Key::Home, ctrl }) == moved(0)
            &&& key_step(s, KeyPress { key: Key::End, ctrl }) == moved(usize::MAX as int)
        }),
{
}

/// Paging up never scrolls down, and a page down followed by a page up comes back to
/// where it started, short of the largest offset.
pub proof fn lemma_page_keys_undo(s: AppView)
    requires
        !s.on_landing,
        !s.is_loading,
        s.player_data is Some,
    ensures
        key_step(s, KeyPress { key: Key::PageUp, ctrl: false }).0.scroll_offset <= s.scroll_offset,
        key_step(s, KeyPress { key: Key::PageDown, ctrl: false }).0.scroll_offset >= s.scroll_offset,
        ({
            let page: int = if s.visible_rows == 0 { 1 } else { s.visible_rows as int };
            s.scroll_offset + page <= usize::MAX ==> key_step(
                key_step(s, KeyPress { key: Key::PageDown, ctrl: false }).0,
                KeyPress { key: Key::PageUp, ctrl: false },
            ).0 == s
        }),
{
}

/// Without a player shown, the scroll keys leave the state as it is.
pub proof fn lemma_scroll_keys_need_a_player(s: AppView, ctrl: bool)
    requires
        !s.on_landing,
        !s.is_loading,
        s.player_data is None,
    ensures
        key_step(s, KeyPress { key: Key::Up, ctrl }).0 == s,
        key_step(s, KeyPress { key: Key::Down, ctrl }).0 == s,
        key_step(s, KeyPress { key: Key::PageUp, ctrl }).0 == s,
        key_step(s, KeyPress { key: Key::PageDown, ctrl }).0 == s,
        key_step(s, KeyPress { key: Key::Home, ctrl }).0 == s,
        key_step(s, KeyPress { key: Key::End, ctrl }).0 == s,
{
}

/// Over the settings table of a shown player, with no search running, the wheel scrolls
/// one row: up towards zero, down away from it.
pub proof fn lemma_wheel_scrolls_one_row(s: AppView)
    requires
        !s.is_loading,
        s.player_data is Some,
    ensures
        wheel_step(s, Wheel::Up, true) == (AppView {
            scroll_offset: if s.scroll_offset >= 1 { (s.scroll_offset - 1) as usize } else { 0 },
            ..s
        }),
        wheel_step(s, Wheel::Down, true) == (AppView {
            scroll_offset: if s.scroll_offset < usize::MAX { (s.scroll_offset + 1) as usize } else { s.scroll_offset },
            ..s
        }),
        wheel_step(s, Wheel::Up, false) == s,
        wheel_step(s, Wheel::Down, false) == s,
{
}


/// With no search running, on either screen: a plain character other than `q` and `t`
/// is added to the end of the query, Backspace takes the last character off it, and
/// Ctrl+T opens the theme picker; on the results screen Ctrl+Y copies the import code.
/// None of these touches anything else of the state.
pub proof fn lemma_typing_keys(s: AppView, c: char)
    requires
        !s.is_loading,
        c != 'q' && c != 'Q' && c != 't' && c != 'T',
    ensures
        key_step(s, KeyPress { key: Key::Char(c), ctrl: false }) == (
            AppView { search_query: s.search_query.push(c), ..s },
            EffectView::Continue,
        ),
        key_step(s, KeyPress { key: Key::Backspace, ctrl: false }) == (
            AppView {
                search_query: if s.search_query.len() > 0 {
                    s.search_query.take(s.search_query.len() - 1)
                } else {
                    s.search_query
                },
                ..s
            },
            EffectView::Continue,
        ),
        key_step(s, KeyPress { key: Key::Char('t'), ctrl: true }) == (s, EffectView::OpenThemePicker),
        !s.on_landing ==> key_step(s, KeyPress { key: Key::Char('y'), ctrl: true }) == (
            s,
            EffectView::CopyImportCode,
        ),
{
    if s.search_query.len() > 0 {
        assert(s.search_query.drop_last() =~= s.search_query.take(s.search_query.len() - 1));
    }
}

/// Enter submits the typed query when it names a player: the lookup asked for is for
/// the query's slug, and a search is then running; from the landing screen Enter also
/// leaves it. A blank query starts nothing.
pub proof fn lemma_enter_submits(s: AppView)
    requires
        !s.is_loading,
    ensures
        ({
            let (t, e) = key_step(s, KeyPress { key: Key::Enter, ctrl: false });
            &&& !t.on_landing
            &&& (slug_of(s.search_query) matches Some(slug) ==> t.is_loading && e
                == EffectView::StartLookup { request_id: t.request_id, slug })
            &&& (slug_of(s.search_query) is None ==> e == EffectView::Continue && !t.is_loading)
        }),
{
}

} // verus!
