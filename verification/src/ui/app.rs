//! The browser's state and the transitions that searches, tabs and scrolling make.
use crate::models::{next_tab, opt_view, prev_tab, PlayerData, Tab};
use crate::scraper::{player_slug, slug_of};
use crate::text::{chars_of, trim, trim_chars, trim_str};
use vstd::prelude::*;

verus! {

/// What the browser shows and what it waits for.
///
/// A search runs in the background; `request_id` tells its result apart from those of
/// searches that were given up.
pub struct AppState {
    pub player_data: Option<PlayerData>,
    pub current_tab: Tab,
    pub search_query: String,
    pub is_loading: bool,
    pub loading_query: Option<String>,
    pub request_id: u64,
    pub error_message: Option<String>,
    pub copied: bool,
    pub scroll_offset: usize,
    pub visible_rows: usize,
    pub on_landing: bool,
}

/// The browser state with its texts as character sequences.
pub struct AppView {
    pub player_data: Option<PlayerData>,
    pub current_tab: Tab,
    pub search_query: Seq<char>,
    pub is_loading: bool,
    pub loading_query: Option<Seq<char>>,
    pub request_id: u64,
    pub error_message: Option<Seq<char>>,
    pub copied: bool,
    pub scroll_offset: usize,
    pub visible_rows: usize,
    pub on_landing: bool,
}

impl View for AppState {
    type V = AppView;

    open spec fn view(&self) -> AppView {
        AppView {
            player_data: self.player_data,
            current_tab: self.current_tab,
            search_query: self.search_query@,
            is_loading: self.is_loading,
            loading_query: opt_view(self.loading_query),
            request_id: self.request_id,
            error_message: opt_view(self.error_message),
            copied: self.copied,
            scroll_offset: self.scroll_offset,
            visible_rows: self.visible_rows,
            on_landing: self.on_landing,
        }
    }
}

impl AppView {
    /// A search is in flight exactly when its query is recorded.
    pub open spec fn wf(self) -> bool {
        self.is_loading <==> self.loading_query is Some
    }
}

/// The state the browser starts in: on the landing screen, idle, on the first tab.
pub open spec fn initial_state() -> AppView {
    AppView {
        player_data: None,
        current_tab: Tab::Mouse,
        search_query: Seq::<char>::empty(),
        is_loading: false,
        loading_query: None,
        request_id: 0,
        error_message: None,
        copied: false,
        scroll_offset: 0,
        visible_rows: 0,
        on_landing: true,
    }
}

/// The next request number, wrapping from the largest to zero.
pub open spec fn next_request_id(id: u64) -> u64 {
    if id == u64::MAX {
        0
    } else {
        (id + 1) as u64
    }
}

/// Starting a search for `query`: refused while one is in flight or when the query
/// names no slug; otherwise a new request number is issued, and the error, the copied
/// mark and the scroll position are reset. The second part is the request number and
/// the slug to look up.
pub open spec fn begin_search(s: AppView, query: Seq<char>) -> (AppView, Option<(u64, Seq<char>)>) {
    if s.is_loading {
        (s, None)
    } else {
        match slug_of(query) {
            None => (s, None),
            Some(slug) => {
                let id = next_request_id(s.request_id);
                (
                    AppView {
                        is_loading: true,
                        loading_query: Some(trim(query)),
                        request_id: id,
                        error_message: None,
                        copied: false,
                        scroll_offset: 0,
                        ..s
                    },
                    Some((id, slug)),
                )
            },
        }
    }
}

/// Delivering the result of request `id`: taken only when a search is in flight and
/// `id` is its number; a player replaces the shown one and clears the error, an error
/// message clears the shown player.
pub open spec fn finish_search(s: AppView, id: u64, result: Result<PlayerData, Seq<char>>) -> (AppView, bool) {
    if !s.is_loading || s.request_id != id {
        (s, false)
    } else {
        let done = AppView { is_loading: false, loading_query: None, ..s };
        match result {
            Ok(p) => (AppView { player_data: Some(p), error_message: None, ..done }, true),
            Err(m) => (AppView { player_data: None, error_message: Some(m), ..done }, true),
        }
    }
}

/// Giving up the search in flight, if any: its request number is retired so that its
/// result is no longer taken.
pub open spec fn cancel_search(s: AppView) -> (AppView, bool) {
    if !s.is_loading {
        (s, false)
    } else {
        (
            AppView {
                is_loading: false,
                loading_query: None,
                request_id: next_request_id(s.request_id),
                ..s
            },
            true,
        )
    }
}

/// Going back to the landing screen: the search is given up and the player, the error,
/// the query, the copied mark, the scroll position and the tab are reset.
pub open spec fn go_to_landing(s: AppView) -> AppView {
    let c = cancel_search(s).0;
    AppView {
        player_data: None,
        error_message: None,
        search_query: Seq::<char>::empty(),
        copied: false,
        scroll_offset: 0,
        current_tab: Tab::Mouse,
        on_landing: true,
        ..c
    }
}

/// Clearing the shown player: the search is given up, and the player, the copied mark
/// and the scroll position are reset.
pub open spec fn clear_player(s: AppView) -> AppView {
    let c = cancel_search(s).0;
    AppView { player_data: None, copied: false, scroll_offset: 0, ..c }
}

/// The import code of the shown player, unless it is blank.
pub open spec fn import_code_of(s: AppView) -> Option<Seq<char>> {
    match s.player_data {
        Some(p) => match p.data.crosshair.import_code {
            Some(code) => if trim(code@).len() > 0 {
                Some(code@)
            } else {
                None
            },
            None => None,
        },
        None => None,
    }
}

/// `x` held within the range of `usize`.
pub open spec fn clamp_usize(x: int) -> usize {
    if x < 0 {
        0
    } else if x > usize::MAX {
        usize::MAX
    } else {
        x as usize
    }
}

/// The number of rows a page scroll moves: the visible rows, at least one.
pub open spec fn page_rows(s: AppView) -> int {
    if s.visible_rows == 0 {
        1
    } else {
        s.visible_rows as int
    }
}

impl AppState {
    /// The state the browser starts in.
    pub fn new() -> (s: AppState)
        ensures
            s@ == initial_state(),
    {
        AppState {
            player_data: None,
            current_tab: Tab::Mouse,
            search_query: String::new(),
            is_loading: false,
            loading_query: None,
            request_id: 0,
            error_message: None,
            copied: false,
            scroll_offset: 0,
            visible_rows: 0,
            on_landing: true,
        }
    }

    /// Goes back to the landing screen.
    pub fn go_to_landing(&mut self)
        ensures
            final(self)@ == go_to_landing(old(self)@),
    {
        self.cancel_search();
        self.player_data = None;
        self.error_message = None;
        self.search_query = String::new();
        self.copied = false;
        self.scroll_offset = 0;
        self.current_tab = Tab::Mouse;
        self.on_landing = true;
    }

    /// Leaves the landing screen.
    pub fn leave_landing(&mut self)
        ensures
            final(self)@ == (AppView { on_landing: false, ..old(self)@ }),
    {
        self.on_landing = false;
    }

    /// Starts a search for `query`; gives its request number and slug, or `None` when
    /// a search is in flight or the query is blank.
    pub fn begin_search(&mut self, query: &str) -> (r: Option<(u64, String)>)
        ensures
            final(self)@ == begin_search(old(self)@, query@).0,
            begin_search(old(self)@, query@).1 == match r {
                Some((id, slug)) => Some((id, slug@)),
                None => None,
            },
    {
        if self.is_loading {
            return None;
        }
        let slug = match player_slug(query) {
            Some(slug) => slug,
            None => return None,
        };
        self.is_loading = true;
        self.loading_query = Some(trim_str(query));
        self.request_id = self.request_id.wrapping_add(1);
        self.error_message = None;
        self.copied = false;
        self.scroll_offset = 0;
        Some((self.request_id, slug))
    }

    /// Delivers the result of request `request_id`; tells whether it was taken.
    pub fn finish_search(&mut self, request_id: u64, result: Result<PlayerData, String>) -> (taken: bool)
        ensures
            (final(self)@, taken) == finish_search(
                old(self)@,
                request_id,
                match result {
                    Ok(p) => Ok(p),
                    Err(m) => Err(m@),
                },
            ),
    {
        if !self.is_loading || self.request_id != request_id {
            return false;
        }
        self.is_loading = false;
        self.loading_query = None;
        match result {
            Ok(player) => {
                self.player_data = Some(player);
                self.error_message = None;
            },
            Err(message) => {
                self.player_data = None;
                self.error_message = Some(message);
            },
        }
        true
    }

    /// Gives up the search in flight; tells whether there was one.
    pub fn cancel_search(&mut self) -> (cancelled: bool)
        ensures
            (final(self)@, cancelled) == cancel_search(old(self)@),
    {
        if !self.is_loading {
            return false;
        }
        self.is_loading = false;
        self.loading_query = None;
        self.request_id = self.request_id.wrapping_add(1);
        true
    }

    /// Moves to the next tab, scrolled to the top.
    pub fn next_tab(&mut self)
        ensures
            final(self)@ == (AppView {
                current_tab: next_tab(old(self).current_tab),
                scroll_offset: 0,
                ..old(self)@
            }),
    {
        self.current_tab.next();
        self.scroll_offset = 0;
    }

    /// Moves to the previous tab, scrolled to the top.
    pub fn prev_tab(&mut self)
        ensures
            final(self)@ == (AppView {
                current_tab: prev_tab(old(self).current_tab),
                scroll_offset: 0,
                ..old(self)@
            }),
    {
        self.current_tab.prev();
        self.scroll_offset = 0;
    }

    /// The import code of the shown player, unless it is missing or blank.
    pub fn get_import_code(&self) -> (r: Option<String>)
        ensures
            opt_view(r) == import_code_of(self@),
    {
        match &self.player_data {
            Some(player) => match &player.data.crosshair.import_code {
                Some(code) => {
                    let chars = chars_of(code.as_str());
                    let trimmed = trim_chars(chars.as_slice());
                    if trimmed.len() > 0 {
                        Some(code.clone())
                    } else {
                        None
                    }
                },
                None => None,
            },
            None => None,
        }
    }

    /// Forgets that the import code was copied.
    pub fn clear_copied(&mut self)
        ensures
            final(self)@ == (AppView { copied: false, ..old(self)@ }),
    {
        self.copied = false;
    }

    /// Records that the import code was copied.
    pub fn set_copied(&mut self)
        ensures
            final(self)@ == (AppView { copied: true, ..old(self)@ }),
    {
        self.copied = true;
    }

    /// Scrolls one row up, stopping at the top.
    pub fn scroll_up(&mut self)
        ensures
            final(self)@ == (AppView {
                scroll_offset: clamp_usize(old(self).scroll_offset - 1),
                ..old(self)@
            }),
    {
        self.scroll_offset = self.scroll_offset.saturating_sub(1);
    }

    /// Scrolls one row down, stopping at the largest offset.
    pub fn scroll_down(&mut self)
        ensures
            final(self)@ == (AppView {
                scroll_offset: clamp_usize(old(self).scroll_offset + 1),
                ..old(self)@
            }),
    {
        self.scroll_offset = self.scroll_offset.saturating_add(1);
    }

    /// Scrolls by `delta` rows, down when it is positive, stopping at either end.
    pub fn scroll_by(&mut self, delta: isize)
        ensures
            final(self)@ == (AppView {
                scroll_offset: clamp_usize(old(self).scroll_offset + delta),
                ..old(self)@
            }),
    {
        if delta < 0 {
            let magnitude: usize = ((0 - (delta + 1)) as usize) + 1;
            self.scroll_offset = self.scroll_offset.saturating_sub(magnitude);
        } else {
            self.scroll_offset = self.scroll_offset.saturating_add(delta as usize);
        }
    }

    /// Scrolls one page up, stopping at the top.
    pub fn scroll_page_up(&mut self)
        ensures
            final(self)@ == (AppView {
                scroll_offset: clamp_usize(old(self).scroll_offset - page_rows(old(self)@)),
                ..old(self)@
            }),
    {
        let page = if self.visible_rows == 0 {
            1
        } else {
            self.visible_rows
        };
        self.scroll_offset = self.scroll_offset.saturating_sub(page);
    }

    /// Scrolls one page down, stopping at the largest offset.
    pub fn scroll_page_down(&mut self)
        ensures
            final(self)@ == (AppView {
                scroll_offset: clamp_usize(old(self).scroll_offset + page_rows(old(self)@)),
                ..old(self)@
            }),
    {
        let page = if self.visible_rows == 0 {
            1
        } else {
            self.visible_rows
        };
        self.scroll_offset = self.scroll_offset.saturating_add(page);
    }

    /// Scrolls to the top.
    pub fn scroll_top(&mut self)
        ensures
            final(self)@ == (AppView { scroll_offset: 0, ..old(self)@ }),
    {
        self.scroll_offset = 0;
    }

    /// Scrolls to the bottom: the largest offset, which drawing then holds to the
    /// table's last page.
    pub fn scroll_bottom(&mut self)
        ensures
            final(self)@ == (AppView { scroll_offset: usize::MAX, ..old(self)@ }),
    {
        self.scroll_offset = usize::MAX;
    }

    /// Holds the scroll offset to at most `max_scroll`.
    pub fn clamp_scroll_to(&mut self, max_scroll: usize)
        ensures
            final(self)@ == (AppView {
                scroll_offset: if old(self).scroll_offset <= max_scroll {
                    old(self).scroll_offset
                } else {
                    max_scroll
                },
                ..old(self)@
            }),
    {
        if self.scroll_offset > max_scroll {
            self.scroll_offset = max_scroll;
        }
    }

    /// Clears the shown player, giving up the search in flight.
    pub fn clear_player(&mut self)
        ensures
            final(self)@ == clear_player(old(self)@),
    {
        self.cancel_search();
        self.player_data = None;
        self.copied = false;
        self.scroll_offset = 0;
    }
}

impl Default for AppState {
    /// The state the browser starts in.
    fn default() -> (s: AppState)
        ensures
            s@ == initial_state(),
    {
        AppState::new()
    }
}

/// How long a toast stays on screen, in whole seconds.
pub const TOAST_SECONDS: u64 = 2;

/// Whether a toast is still shown at a frame: a shown toast that has been up for the
/// toast duration is hidden; one that was never timed keeps its visibility.
pub fn toast_stays(visible: bool, shown_for_secs: Option<u64>) -> (r: bool)
    ensures
        r == match shown_for_secs {
            Some(t) => visible && t < TOAST_SECONDS,
            None => visible,
        },
{
    match shown_for_secs {
        Some(t) => visible && t < TOAST_SECONDS,
        None => visible,
    }
}

// ---------------------------------------------------------------------------
// Laws of the search protocol
// ---------------------------------------------------------------------------

/// The initial state is well formed, and every transition keeps a well-formed state
/// well formed: a search is in flight exactly when its query is recorded.
pub proof fn lemma_transitions_keep_wf(
    s: AppView,
    query: Seq<char>,
    id: u64,
    result: Result<PlayerData, Seq<char>>,
)
    requires
        s.wf(),
    ensures
        initial_state().wf(),
        begin_search(s, query).0.wf(),
        finish_search(s, id, result).0.wf(),
        cancel_search(s).0.wf(),
        go_to_landing(s).wf(),
        clear_player(s).wf(),
{
}

/// A search started while another is in flight is refused and changes nothing.
pub proof fn lemma_begin_refused_while_loading(s: AppView, query: Seq<char>)
    requires
        s.is_loading,
    ensures
        begin_search(s, query) == (s, None::<(u64, Seq<char>)>),
{
}

/// The result of a search that was given up is ignored: after a search is started
/// and then cancelled, delivering the result under its request number is refused
/// and changes nothing.
pub proof fn lemma_cancelled_result_ignored(
    s: AppView,
    query: Seq<char>,
    result: Result<PlayerData, Seq<char>>,
)
    requires
        begin_search(s, query).1 is Some,
    ensures
        ({
            let started = begin_search(s, query);
            let id = started.1.unwrap().0;
            let cancelled = cancel_search(started.0).0;
            finish_search(cancelled, id, result) == (cancelled, false)
        }),
{
}

/// A result for any request number other than that of the search in flight is ignored.
pub proof fn lemma_stale_result_ignored(s: AppView, id: u64, result: Result<PlayerData, Seq<char>>)
    requires
        id != s.request_id,
    ensures
        finish_search(s, id, result) == (s, false),
{
}

/// The result of the search in flight is taken: a player is shown with no error, an
/// error is shown with no player, and the search is over.
pub proof fn lemma_current_result_taken(
    s: AppView,
    query: Seq<char>,
    result: Result<PlayerData, Seq<char>>,
)
    requires
        begin_search(s, query).1 is Some,
    ensures
        ({
            let started = begin_search(s, query);
            let id = started.1.unwrap().0;
            let done = finish_search(started.0, id, result);
            &&& done.1
            &&& !done.0.is_loading
            &&& done.0.loading_query is None
            &&& match result {
                Ok(p) => done.0.player_data == Some(p) && done.0.error_message is None,
                Err(m) => done.0.player_data is None && done.0.error_message == Some(m),
            }
        }),
{
}

/// A search started again after one was cancelled gets a different request number,
/// so the cancelled search's result cannot be taken for it.
pub proof fn lemma_restart_gets_new_id(s: AppView, first: Seq<char>, second: Seq<char>)
    requires
        begin_search(s, first).1 is Some,
        slug_of(second) is Some,
    ensures
        ({
            let started = begin_search(s, first);
            let cancelled = cancel_search(started.0).0;
            let restarted = begin_search(cancelled, second);
            &&& restarted.1 is Some
            &&& restarted.1.unwrap().0 != started.1.unwrap().0
        }),
{
}

/// Scrolling one row down and then one up returns to the start, short of the last
/// offset; scrolling up never moves down.
pub proof fn lemma_scroll_down_up(offset: usize)
    requires
        offset < usize::MAX,
    ensures
        clamp_usize(clamp_usize(offset + 1) - 1) == offset,
        clamp_usize(offset - 1) <= offset,
{
}


/// The browser starts on the landing screen with nothing typed, no player, no error,
/// no search running, the mouse tab and the top of the table. A search that starts
/// looks up the slug of the query, records the query trimmed, takes the next request
/// number and clears the error, the copied mark and the scroll position, keeping the
/// rest; one that is refused changes nothing. Going back to the landing screen clears
/// the player, the error, the query, the copied mark, the scroll position and the tab,
/// and leaves no search running.
pub proof fn lemma_start_search_and_landing(s: AppView, query: Seq<char>)
    ensures
        initial_state().on_landing && initial_state().search_query.len() == 0
            && initial_state().player_data is None && initial_state().error_message is None
            && !initial_state().is_loading && initial_state().current_tab == Tab::Mouse
            && initial_state().scroll_offset == 0,
        !s.is_loading && slug_of(query) is Some ==> begin_search(s, query) == (
            AppView {
                is_loading: true,
                loading_query: Some(trim(query)),
                request_id: if s.request_id == u64::MAX { 0 } else { (s.request_id + 1) as u64 },
                error_message: None,
                copied: false,
                scroll_offset: 0,
                ..s
            },
            Some((
                if s.request_id == u64::MAX { 0 } else { (s.request_id + 1) as u64 },
                slug_of(query)->0,
            )),
        ),
        s.is_loading || slug_of(query) is None ==> begin_search(s, query) == (s, None::<(u64, Seq<char>)>),
        ({
            let t = go_to_landing(s);
            &&& t.on_landing && !t.is_loading
            &&& t.player_data is None && t.error_message is None && t.search_query.len() == 0
            &&& !t.copied && t.scroll_offset == 0 && t.current_tab == Tab::Mouse
            &&& t.visible_rows == s.visible_rows
        }),
        import_code_of(s) == match s.player_data {
            Some(p) => match p.data.crosshair.import_code {
                Some(code) => if trim(code@).len() > 0 { Some(code@) } else { None },
                None => None,
            },
            None => None,
        },
{
}

} // verus!
