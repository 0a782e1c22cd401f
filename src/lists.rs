//! Load states, paginated lists and cursor-tracked selectable lists, with the
//! cache-then-fetch step that fills a list.

use vstd::prelude::*;
use crate::error::{error_message, JoltError};
use crate::store::{valid_at, CachedData};

verus! {

/// Loading state of data that comes from the cache or the network.
#[derive(Clone, Debug)]
pub enum LoadingState<T> {
    Idle,
    Loading,
    Loaded(T),
    Error(String),
}

impl<T> LoadingState<T> {
    /// Whether a load is under way.
    pub fn is_loading(&self) -> (r: bool)
        ensures
            r == self is Loading,
    {
        match self {
            LoadingState::Loading => true,
            _ => false,
        }
    }

    /// Whether data is present.
    pub fn is_loaded(&self) -> (r: bool)
        ensures
            r == self is Loaded,
    {
        match self {
            LoadingState::Loaded(_) => true,
            _ => false,
        }
    }

    /// The data, once loaded.
    pub fn data(&self) -> (r: Option<&T>)
        ensures
            self is Loaded ==> r == Some(&self->Loaded_0),
            !(self is Loaded) ==> r is None,
    {
        match self {
            LoadingState::Loaded(d) => Some(d),
            _ => None,
        }
    }
}

/// A list fetched page by page.
#[derive(Clone, Debug)]
pub struct PaginatedList<T> {
    pub items: Vec<T>,
    /// Number of items the source reports in all.
    pub total_count: u64,
    pub current_page: u32,
    /// Whether the source has items not yet fetched.
    pub has_more: bool,
    pub loading_more: bool,
}

impl<T> PaginatedList<T> {
    /// The first page of a list of `total_count` items.
    pub fn new(items: Vec<T>, total_count: u64) -> (r: Self)
        ensures
            r.items@ == items@,
            r.total_count == total_count,
            r.current_page == 1,
            r.has_more == (items@.len() < total_count),
            !r.loading_more,
    {
        let has_more = (items.len() as u64) < total_count;
        PaginatedList { items, total_count, current_page: 1, has_more, loading_more: false }
    }

    /// Appends the next page.
    pub fn append(&mut self, items: Vec<T>, total_count: u64)
        requires
            old(self).current_page < u32::MAX,
            old(self).items@.len() + items@.len() <= usize::MAX,
        ensures
            final(self).items@ == old(self).items@ + items@,
            final(self).total_count == total_count,
            final(self).current_page == old(self).current_page + 1,
            final(self).has_more == (final(self).items@.len() < total_count),
            !final(self).loading_more,
    {
        let mut more = items;
        self.items.append(&mut more);
        self.total_count = total_count;
        self.current_page = self.current_page + 1;
        self.has_more = (self.items.len() as u64) < total_count;
        self.loading_more = false;
    }

    /// Number of items fetched.
    pub fn len(&self) -> (r: usize)
        ensures
            r == self.items@.len(),
    {
        self.items.len()
    }

    /// Whether no item was fetched.
    pub fn is_empty(&self) -> (r: bool)
        ensures
            r == (self.items@.len() == 0),
    {
        self.items.len() == 0
    }
}

/// Cursor after moving down in a list of `n` items: it stays at the end.
pub open spec fn next_index(sel: Option<usize>, n: nat) -> usize {
    match sel {
        Some(i) => if i >= n - 1 { i } else { (i + 1) as usize },
        None => 0,
    }
}

/// Cursor after moving up: it stays at the start.
pub open spec fn prev_index(sel: Option<usize>) -> usize {
    match sel {
        Some(i) => if i == 0 { 0 } else { (i - 1) as usize },
        None => 0,
    }
}

/// The cursor of `l` after one step up (`up`) or down, when `active`; a list
/// that is not loaded or empty keeps its cursor.
pub open spec fn stepped<T>(l: SelectableList<T>, up: bool, active: bool) -> Option<usize> {
    if !active {
        l.selected
    } else {
        match loaded_len(l.data) {
            Some(n) => if n > 0 {
                Some(if up { prev_index(l.selected) } else { next_index(l.selected, n) })
            } else {
                l.selected
            },
            None => l.selected,
        }
    }
}

/// A list with its load state and a cursor.
#[derive(Clone, Debug)]
pub struct SelectableList<T> {
    pub data: LoadingState<PaginatedList<T>>,
    /// The cursor, if any item is selected.
    pub selected: Option<usize>,
    pub filter: Option<String>,
}

/// Number of loaded items, when loaded.
pub open spec fn loaded_len<T>(data: LoadingState<PaginatedList<T>>) -> Option<nat> {
    match data {
        LoadingState::Loaded(p) => Some(p.items@.len()),
        _ => None,
    }
}

impl<T> SelectableList<T> {
    /// Whether the list is empty and idle, with no cursor.
    pub open spec fn is_cleared(&self) -> bool {
        self.data is Idle && self.selected is None && self.filter is None
    }

    /// An idle list with no cursor.
    pub fn new() -> (r: Self)
        ensures
            r.is_cleared(),
    {
        SelectableList { data: LoadingState::Idle, selected: None, filter: None }
    }

    /// The cursor.
    pub fn selected(&self) -> (r: Option<usize>)
        ensures
            r == self.selected,
    {
        self.selected
    }

    /// Moves the cursor down one item, staying at the last.
    pub fn select_next(&mut self)
        ensures
            final(self).data == old(self).data,
            final(self).filter == old(self).filter,
            match loaded_len(old(self).data) {
                Some(n) => if n > 0 {
                    final(self).selected == Some(next_index(old(self).selected, n))
                } else {
                    final(self).selected == old(self).selected
                },
                None => final(self).selected == old(self).selected,
            },
    {
        let n = match &self.data {
            LoadingState::Loaded(p) => p.items.len(),
            _ => 0,
        };
        if n == 0 {
            return;
        }
        let i = match self.selected {
            Some(i) => if i >= n - 1 { i } else { i + 1 },
            None => 0,
        };
        self.selected = Some(i);
    }

    /// Moves the cursor up one item, staying at the first.
    pub fn select_prev(&mut self)
        ensures
            final(self).data == old(self).data,
            final(self).filter == old(self).filter,
            match loaded_len(old(self).data) {
                Some(n) => if n > 0 {
                    final(self).selected == Some(prev_index(old(self).selected))
                } else {
                    final(self).selected == old(self).selected
                },
                None => final(self).selected == old(self).selected,
            },
    {
        let n = match &self.data {
            LoadingState::Loaded(p) => p.items.len(),
            _ => 0,
        };
        if n == 0 {
            return;
        }
        let i = match self.selected {
            Some(i) => if i == 0 { 0 } else { i - 1 },
            None => 0,
        };
        self.selected = Some(i);
    }

    /// The item under the cursor.
    pub fn selected_item(&self) -> (r: Option<&T>)
        ensures
            match (self.selected, self.data) {
                (Some(i), LoadingState::Loaded(p)) => if i < p.items@.len() {
                    r == Some(&p.items@[i as int])
                } else {
                    r is None
                },
                _ => r is None,
            },
    {
        let i = match self.selected {
            Some(i) => i,
            None => return None,
        };
        match &self.data {
            LoadingState::Loaded(p) => if i < p.items.len() {
                Some(&p.items[i])
            } else {
                None
            },
            _ => None,
        }
    }

    /// Whether the cursor is within `threshold` items of the end of a list
    /// that has more pages.
    pub fn near_end(&self, threshold: usize) -> (r: bool)
        ensures
            match (self.selected, self.data) {
                (Some(i), LoadingState::Loaded(p)) => r == (p.has_more && i >= p.items@.len() - threshold),
                _ => !r,
            },
    {
        match (self.selected, &self.data) {
            (Some(i), LoadingState::Loaded(p)) => {
                let n = p.items.len();
                let lim = if n >= threshold { n - threshold } else { 0 };
                p.has_more && i >= lim
            },
            _ => false,
        }
    }

    /// Puts the cursor on the first item, or clears it when there is none.
    pub fn reset_selection(&mut self)
        ensures
            final(self).data == old(self).data,
            final(self).filter == old(self).filter,
            match loaded_len(old(self).data) {
                Some(n) => final(self).selected == if n > 0 { Some(0usize) } else { None },
                None => final(self).selected is None,
            },
    {
        let n = match &self.data {
            LoadingState::Loaded(p) => p.items.len(),
            _ => 0,
        };
        if n > 0 {
            self.selected = Some(0);
        } else {
            self.selected = None;
        }
    }

    /// Fills the list with its first page and puts the cursor on the first item.
    pub fn set_loaded(&mut self, items: Vec<T>, total_count: u64)
        ensures
            final(self).data is Loaded,
            final(self).data->Loaded_0.items@ == items@,
            final(self).data->Loaded_0.total_count == total_count,
            final(self).data->Loaded_0.has_more == (items@.len() < total_count),
            final(self).selected == if items@.len() > 0 { Some(0usize) } else { None },
            final(self).filter == old(self).filter,
    {
        self.data = LoadingState::Loaded(PaginatedList::new(items, total_count));
        self.reset_selection();
    }

    /// Marks a load as under way.
    pub fn set_loading(&mut self)
        ensures
            final(self).data is Loading,
            final(self).selected == old(self).selected,
            final(self).filter == old(self).filter,
    {
        self.data = LoadingState::Loading;
    }

    /// Records a failed load.
    pub fn set_error(&mut self, error: String)
        ensures
            final(self).data == LoadingState::<PaginatedList<T>>::Error(error),
            final(self).selected == old(self).selected,
            final(self).filter == old(self).filter,
    {
        self.data = LoadingState::Error(error);
    }

    /// The first step of entering a level: nothing to do when the list is
    /// already loaded; else fill it from a cached entry that is still valid at
    /// `now`; else mark it loading. Returns whether a fetch is needed.
    pub fn begin_load(&mut self, cached: Option<CachedData<Vec<T>>>, now: i64, ttl: u64) -> (fetch: bool)
        ensures
            old(self).data is Loaded ==> !fetch && final(self).data == old(self).data
                && final(self).selected == old(self).selected,
            !(old(self).data is Loaded) ==> match cached {
                Some(e) => if valid_at(e.immutable, e.cached_at, now, ttl) {
                    !fetch && final(self).data is Loaded && final(self).data->Loaded_0.items@ == e.data@
                        && final(self).data->Loaded_0.total_count == e.data@.len() && final(self).selected == if e.data@.len()
                        > 0 { Some(0usize) } else { None }
                } else {
                    fetch && final(self).data is Loading
                },
                None => fetch && final(self).data is Loading,
            },
    {
        if self.data.is_loaded() {
            return false;
        }
        match cached {
            Some(e) => {
                if e.is_valid_at(now, ttl) {
                    let count = e.data.len() as u64;
                    self.set_loaded(e.data, count);
                    return false;
                }
            },
            None => {},
        }
        self.set_loading();
        true
    }

    /// The second step: the list takes the fetched page, or the error's
    /// message. Returns the message on failure.
    pub fn finish_load(&mut self, result: Result<(Vec<T>, u64), JoltError>) -> (r: Option<String>)
        ensures
            match result {
                Ok((items, total)) => r is None && final(self).data is Loaded && final(self).data->Loaded_0.items@
                    == items@ && final(self).data->Loaded_0.total_count == total && final(self).selected == if items@.len()
                    > 0 { Some(0usize) } else { None },
                Err(e) => r is Some && r->Some_0@ == error_message(e) && final(self).data is Error
                    && final(self).data->Error_0@ == error_message(e),
            },
    {
        match result {
            Ok((items, total)) => {
                self.set_loaded(items, total);
                None
            },
            Err(e) => {
                let m = e.message();
                self.set_error(m.clone());
                Some(m)
            },
        }
    }
}

} // verus!
