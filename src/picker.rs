//! State of the session picker: the session list, its pages, the selection,
//! and a cache of previews so that moving around does not re-read files.
//! Reading session files is left to a `PreviewSource` that the caller
//! supplies.
use vstd::prelude::*;
use crate::pagination::Pagination;
use crate::store::KeyedStore;
use crate::text::push_str;

verus! {

/// A (role, content, timestamp) message of a session preview.
pub type PreviewMessage = (String, String, String);

/// A saved session and what is known of it.
#[derive(Debug)]
pub struct SessionInfo {
    pub id: String,
    pub path: String,
    pub cwd: String,
    pub age: String,
    pub mtime: u64,
    pub message_count: usize,
    pub last_role: String,
    pub total_tokens: usize,
    pub model: String,
}

impl Clone for SessionInfo {
    fn clone(&self) -> (r: SessionInfo)
        ensures
            r == *self,
    {
        SessionInfo {
            id: self.id.clone(),
            path: self.path.clone(),
            cwd: self.cwd.clone(),
            age: self.age.clone(),
            mtime: self.mtime,
            message_count: self.message_count,
            last_role: self.last_role.clone(),
            total_tokens: self.total_tokens,
            model: self.model.clone(),
        }
    }
}

/// A copy of a list of preview messages.
pub fn copy_messages(v: &Vec<PreviewMessage>) -> (r: Vec<PreviewMessage>)
    ensures
        r@ == v@,
{
    let mut out: Vec<PreviewMessage> = Vec::new();
    let mut i: usize = 0;
    while i < v.len()
        invariant
            i <= v@.len(),
            out@ == v@.subrange(0, i as int),
        decreases v@.len() - i,
    {
        let m = &v[i];
        out.push((m.0.clone(), m.1.clone(), m.2.clone()));
        proof {
            assert(out@ =~= v@.subrange(0, i + 1));
        }
        i = i + 1;
    }
    assert(out@ =~= v@);
    out
}

/// Relies on `SystemTime::elapsed` of the Unix epoch: whole seconds since
/// the epoch, 0 if the clock is before it.
#[verifier::external_body]
pub(crate) fn unix_now() -> u64 {
    std::time::UNIX_EPOCH.elapsed().map(|d| d.as_secs()).unwrap_or(0)
}

/// A cached preview and when it was cached (Unix seconds).
#[derive(Debug)]
pub struct PreviewCache {
    pub messages: Vec<PreviewMessage>,
    pub cached_at: u64,
}

/// Message count and last role of a session, and when they were recorded.
#[derive(Debug)]
pub struct MessageSummary {
    message_count: usize,
    last_role: String,
    last_update: u64,
}

impl Clone for MessageSummary {
    fn clone(&self) -> (r: MessageSummary)
        ensures
            r == *self,
    {
        MessageSummary {
            message_count: self.message_count,
            last_role: self.last_role.clone(),
            last_update: self.last_update,
        }
    }
}

impl MessageSummary {
    pub closed spec fn fields(&self) -> (usize, Seq<char>, u64) {
        (self.message_count, self.last_role@, self.last_update)
    }
}

/// Caches of session metadata (by file path), previews (by session id) and
/// message summaries (by file path), with hit and miss counts.
pub struct CacheLayer {
    meta_cache: KeyedStore<SessionInfo>,
    preview_cache: KeyedStore<PreviewCache>,
    summary_cache: KeyedStore<MessageSummary>,
    meta_hits: usize,
    meta_misses: usize,
    preview_hits: usize,
    preview_misses: usize,
}

impl CacheLayer {
    pub closed spec fn wf(&self) -> bool {
        self.meta_cache.wf() && self.preview_cache.wf() && self.summary_cache.wf()
    }

    /// Cached metadata by file path.
    pub closed spec fn metas(&self) -> Map<Seq<char>, SessionInfo> {
        self.meta_cache@
    }

    /// Cached previews by session id.
    pub closed spec fn previews(&self) -> Map<Seq<char>, Seq<PreviewMessage>> {
        self.preview_cache@.map_values(|p: PreviewCache| p.messages@)
    }

    /// When each cached preview was stored.
    pub closed spec fn preview_times(&self) -> Map<Seq<char>, u64> {
        self.preview_cache@.map_values(|p: PreviewCache| p.cached_at)
    }

    /// Cached summaries by file path.
    pub closed spec fn summaries(&self) -> Map<Seq<char>, MessageSummary> {
        self.summary_cache@
    }

    /// Meta hits, meta misses, preview hits, preview misses.
    pub closed spec fn counts(&self) -> (usize, usize, usize, usize) {
        (self.meta_hits, self.meta_misses, self.preview_hits, self.preview_misses)
    }

    /// An empty cache with zero counts.
    pub fn new() -> (r: CacheLayer)
        ensures
            r.wf(),
            r.metas() == Map::<Seq<char>, SessionInfo>::empty(),
            r.previews() == Map::<Seq<char>, Seq<PreviewMessage>>::empty(),
            r.summaries() == Map::<Seq<char>, MessageSummary>::empty(),
            r.counts() == (0usize, 0usize, 0usize, 0usize),
    {
        let r = CacheLayer {
            meta_cache: KeyedStore::new(),
            preview_cache: KeyedStore::new(),
            summary_cache: KeyedStore::new(),
            meta_hits: 0,
            meta_misses: 0,
            preview_hits: 0,
            preview_misses: 0,
        };
        assert(r.previews() =~= Map::<Seq<char>, Seq<PreviewMessage>>::empty());
        r
    }

    /// The cached metadata of `path`, counted as a hit; on a miss, caches
    /// and returns `default`. Counts saturate.
    pub fn get_or_insert_meta(&mut self, path: &String, default: SessionInfo) -> (r: SessionInfo)
        requires
            old(self).wf(),
        ensures
            final(self).wf(),
            final(self).previews() == old(self).previews(),
            final(self).preview_times() == old(self).preview_times(),
            final(self).summaries() == old(self).summaries(),
            old(self).metas().contains_key(path@) ==> r == old(self).metas()[path@]
                && final(self).metas() == old(self).metas() && final(self).counts() == (
                sat_inc(old(self).counts().0),
                old(self).counts().1,
                old(self).counts().2,
                old(self).counts().3,
            ),
            !old(self).metas().contains_key(path@) ==> r == default && final(self).metas() == old(self).metas().insert(path@, default) && final(self).counts() == (
                old(self).counts().0,
                sat_inc(old(self).counts().1),
                old(self).counts().2,
                old(self).counts().3,
            ),
    {
        match self.meta_cache.get(path.as_str()) {
            Some(info) => {
                let r = info.clone();
                self.meta_hits = self.meta_hits.saturating_add(1);
                r
            },
            None => {
                self.meta_misses = self.meta_misses.saturating_add(1);
                self.meta_cache.insert(path.clone(), default.clone());
                default
            },
        }
    }

    /// The cached preview of `session_id`; counts a hit or a miss.
    pub fn get_preview(&mut self, session_id: &str) -> (r: Option<Vec<PreviewMessage>>)
        requires
            old(self).wf(),
        ensures
            final(self).wf(),
            final(self).metas() == old(self).metas(),
            final(self).previews() == old(self).previews(),
            final(self).preview_times() == old(self).preview_times(),
            final(self).summaries() == old(self).summaries(),
            match r {
                Some(m) => old(self).previews().contains_key(session_id@) && m@ == old(self).previews()[session_id@] && final(self).counts() == (
                    old(self).counts().0,
                    old(self).counts().1,
                    sat_inc(old(self).counts().2),
                    old(self).counts().3,
                ),
                None => !old(self).previews().contains_key(session_id@) && final(self).counts() == (
                    old(self).counts().0,
                    old(self).counts().1,
                    old(self).counts().2,
                    sat_inc(old(self).counts().3),
                ),
            },
    {
        match self.preview_cache.get(session_id) {
            Some(cached) => {
                let m = copy_messages(&cached.messages);
                self.preview_hits = self.preview_hits.saturating_add(1);
                Some(m)
            },
            None => {
                self.preview_misses = self.preview_misses.saturating_add(1);
                None
            },
        }
    }

    /// Stores the preview of `session_id`, stamped with the current time.
    pub fn cache_preview(&mut self, session_id: String, messages: Vec<PreviewMessage>)
        requires
            old(self).wf(),
        ensures
            final(self).wf(),
            final(self).metas() == old(self).metas(),
            final(self).previews() == old(self).previews().insert(session_id@, messages@),
            final(self).preview_times().dom() == old(self).preview_times().dom().insert(session_id@),
            final(self).summaries() == old(self).summaries(),
            final(self).counts() == old(self).counts(),
    {
        let now = unix_now();
        self.cache_preview_at(session_id, messages, now);
        assert(self.preview_times().dom() =~= old(self).preview_times().dom().insert(session_id@));
    }

    /// Stores the preview of `session_id`, stamped `now`.
    pub fn cache_preview_at(&mut self, session_id: String, messages: Vec<PreviewMessage>, now: u64)
        requires
            old(self).wf(),
        ensures
            final(self).wf(),
            final(self).metas() == old(self).metas(),
            final(self).previews() == old(self).previews().insert(session_id@, messages@),
            final(self).preview_times() == old(self).preview_times().insert(session_id@, now),
            final(self).summaries() == old(self).summaries(),
            final(self).counts() == old(self).counts(),
    {
        let ghost k = session_id@;
        let ghost msgs = messages@;
        self.preview_cache.insert(session_id, PreviewCache { messages, cached_at: now });
        assert(self.previews() =~= old(self).previews().insert(k, msgs));
        assert(self.preview_times() =~= old(self).preview_times().insert(k, now));
    }

    /// The cached summary of `path`.
    pub fn get_summary(&mut self, path: &String) -> (r: Option<MessageSummary>)
        requires
            old(self).wf(),
        ensures
            *final(self) == *old(self),
            match r {
                Some(s) => old(self).summaries().contains_key(path@) && s == old(self).summaries()[path@],
                None => !old(self).summaries().contains_key(path@),
            },
    {
        match self.summary_cache.get(path.as_str()) {
            Some(s) => Some(s.clone()),
            None => None,
        }
    }

    /// Stores the summary of `path`, stamped with the current time.
    pub fn cache_summary(&mut self, path: String, message_count: usize, last_role: String)
        requires
            old(self).wf(),
        ensures
            final(self).wf(),
            final(self).metas() == old(self).metas(),
            final(self).previews() == old(self).previews(),
            final(self).preview_times() == old(self).preview_times(),
            final(self).summaries().dom() == old(self).summaries().dom().insert(path@),
            final(self).summaries()[path@].fields().0 == message_count,
            final(self).summaries()[path@].fields().1 == last_role@,
            forall|k: Seq<char>|
                k != path@ && #[trigger] old(self).summaries().contains_key(k) ==> final(self).summaries()[k] == old(self).summaries()[k],
            final(self).counts() == old(self).counts(),
    {
        let now = unix_now();
        self.cache_summary_at(path, message_count, last_role, now);
    }

    /// Stores the summary of `path`, stamped `now`.
    pub fn cache_summary_at(&mut self, path: String, message_count: usize, last_role: String, now: u64)
        requires
            old(self).wf(),
        ensures
            final(self).wf(),
            final(self).metas() == old(self).metas(),
            final(self).previews() == old(self).previews(),
            final(self).preview_times() == old(self).preview_times(),
            final(self).summaries().dom() == old(self).summaries().dom().insert(path@),
            final(self).summaries()[path@].fields() == (message_count, last_role@, now),
            forall|k: Seq<char>|
                k != path@ && #[trigger] old(self).summaries().contains_key(k) ==> final(self).summaries()[k] == old(self).summaries()[k],
            final(self).counts() == old(self).counts(),
    {
        let ghost k = path@;
        self.summary_cache.insert(path, MessageSummary { message_count, last_role, last_update: now });
        assert(self.summaries().dom() =~= old(self).summaries().dom().insert(k));
    }

    /// Drops the cached preview of `session_id`.
    pub fn remove_preview(&mut self, session_id: &str)
        requires
            old(self).wf(),
        ensures
            final(self).wf(),
            final(self).metas() == old(self).metas(),
            final(self).previews() == old(self).previews().remove(session_id@),
            final(self).preview_times() == old(self).preview_times().remove(session_id@),
            final(self).summaries() == old(self).summaries(),
            final(self).counts() == old(self).counts(),
    {
        self.preview_cache.remove(session_id);
        assert(self.previews() =~= old(self).previews().remove(session_id@));
        assert(self.preview_times() =~= old(self).preview_times().remove(session_id@));
    }

    /// Empties the three caches; the counts stay.
    pub fn clear(&mut self)
        requires
            old(self).wf(),
        ensures
            final(self).wf(),
            final(self).metas() == Map::<Seq<char>, SessionInfo>::empty(),
            final(self).previews() == Map::<Seq<char>, Seq<PreviewMessage>>::empty(),
            final(self).summaries() == Map::<Seq<char>, MessageSummary>::empty(),
            final(self).counts() == old(self).counts(),
    {
        self.meta_cache.clear();
        self.preview_cache.clear();
        self.summary_cache.clear();
        assert(self.previews() =~= Map::<Seq<char>, Seq<PreviewMessage>>::empty());
    }

    /// (meta hits, meta misses, preview hits, preview misses).
    pub fn stats(&self) -> (r: (usize, usize, usize, usize))
        ensures
            r == self.counts(),
    {
        (self.meta_hits, self.meta_misses, self.preview_hits, self.preview_misses)
    }
}

impl Default for CacheLayer {
    fn default() -> (r: CacheLayer)
        ensures
            r.wf(),
            r.metas() == Map::<Seq<char>, SessionInfo>::empty(),
            r.previews() == Map::<Seq<char>, Seq<PreviewMessage>>::empty(),
            r.counts() == (0usize, 0usize, 0usize, 0usize),
    {
        CacheLayer::new()
    }
}

/// `n + 1`, or `n` at the top of the range.
pub open spec fn sat_inc(n: usize) -> usize {
    if n < usize::MAX {
        (n + 1) as usize
    } else {
        n
    }
}

/// Where previews come from: the last `limit` messages of the session file
/// at `path`.
pub trait PreviewSource {
    fn recent_messages(&self, path: &String, limit: usize) -> Vec<PreviewMessage>;
}

/// Number of sessions on a page of the picker.
pub const SESSIONS_PER_PAGE: usize = 30;

/// Number of messages prefetched for a preview.
pub const PREFETCH_MESSAGES: usize = 6;

/// Layout of the picker.
#[derive(Clone, Copy, Debug, PartialEq, Eq, Structural)]
pub enum ViewMode {
    /// List and preview side by side.
    Split,
    /// The preview of the selected session, full screen.
    FullPreview,
    /// The session list, full screen.
    SessionOnly,
}

/// The mode after `m` in the cycle Split, FullPreview, SessionOnly.
pub open spec fn next_mode(m: ViewMode) -> ViewMode {
    match m {
        ViewMode::Split => ViewMode::FullPreview,
        ViewMode::FullPreview => ViewMode::SessionOnly,
        ViewMode::SessionOnly => ViewMode::Split,
    }
}

/// The ids of `s[lo..hi]`.
pub open spec fn ids_between(s: Seq<SessionInfo>, lo: int, hi: int) -> Set<Seq<char>> {
    Set::new(|k: Seq<char>| exists|i: int| lo <= i < hi && 0 <= i < s.len() && (#[trigger] s[i]).id@ == k)
}

/// `after` holds the previews of `before` unchanged, plus one for each id of
/// `ids`, and the same metadata and summaries.
pub open spec fn previews_grown(before: CacheLayer, after: CacheLayer, ids: Set<Seq<char>>) -> bool {
    &&& after.wf()
    &&& after.previews().dom() == before.previews().dom().union(ids)
    &&& forall|k: Seq<char>| #[trigger] before.previews().contains_key(k) ==> after.previews()[k]
        == before.previews()[k]
    &&& after.metas() == before.metas()
    &&& after.summaries() == before.summaries()
}

/// State of the session picker.
pub struct PickerState {
    pub sessions: Vec<SessionInfo>,
    pub selected_idx: usize,
    pub scroll_offset_left: usize,
    pub scroll_offset_right: usize,
    pub pagination: Pagination,
    pub view_mode: ViewMode,
    pub modal_active: bool,
    pub modal_message: String,
    pub cache: CacheLayer,
}

/// What handling an event asks of the caller.
#[derive(Clone, Debug)]
pub struct EventOutcome {
    /// The session to resume, or the empty string to close the picker.
    pub selection: Option<String>,
    /// A session file to delete.
    pub delete_path: Option<String>,
}

impl PickerState {
    /// The pagination tracks the list and the caches are well formed.
    pub open spec fn wf(&self) -> bool {
        &&& self.pagination.wf()
        &&& self.pagination.total_items == self.sessions@.len()
        &&& self.cache.wf()
    }

    /// `self` and `other` differ at most in their caches.
    pub open spec fn same_but_cache(&self, other: &PickerState) -> bool {
        &&& self.sessions@ == other.sessions@
        &&& self.selected_idx == other.selected_idx
        &&& self.scroll_offset_left == other.scroll_offset_left
        &&& self.scroll_offset_right == other.scroll_offset_right
        &&& self.pagination == other.pagination
        &&& self.view_mode == other.view_mode
        &&& self.modal_active == other.modal_active
        &&& self.modal_message@ == other.modal_message@
    }

    /// The ids of the current page's sessions.
    pub open spec fn page_ids(&self) -> Set<Seq<char>> {
        ids_between(
            self.sessions@,
            self.pagination.current_page * self.pagination.items_per_page,
            (self.pagination.current_page + 1) * self.pagination.items_per_page,
        )
    }

    /// A picker over `sessions`, on the first page with the first session
    /// selected, whose first page's previews are fetched from `source`.
    pub fn new<S: PreviewSource>(sessions: Vec<SessionInfo>, source: &S) -> (r: PickerState)
        ensures
            r.wf(),
            r.sessions@ == sessions@,
            r.selected_idx == 0,
            r.scroll_offset_left == 0,
            r.scroll_offset_right == 0,
            r.pagination == (Pagination {
                total_items: sessions@.len() as usize,
                items_per_page: SESSIONS_PER_PAGE,
                current_page: 0,
            }),
            r.view_mode == ViewMode::Split,
            !r.modal_active,
            r.modal_message@.len() == 0,
            r.cache.previews().dom() == ids_between(sessions@, 0, SESSIONS_PER_PAGE as int),
            r.cache.metas() == Map::<Seq<char>, SessionInfo>::empty(),
    {
        let n = sessions.len();
        let pagination = Pagination::new(n, SESSIONS_PER_PAGE);
        let mut state = PickerState {
            sessions,
            selected_idx: 0,
            scroll_offset_left: 0,
            scroll_offset_right: 0,
            pagination,
            view_mode: ViewMode::Split,
            modal_active: false,
            modal_message: String::new(),
            cache: CacheLayer::new(),
        };
        let ghost c0 = state.cache;
        proof {
            let c = state.pagination.current_page as int;
            let p = state.pagination.items_per_page as int;
            assert(c * p == 0 && (c + 1) * p == 30) by (nonlinear_arith)
                requires
                    c == 0,
                    p == 30,
            ;
            assert(state.page_ids() =~= ids_between(state.sessions@, 0, SESSIONS_PER_PAGE as int));
        }
        state.prefetch_visible_page(source);
        proof {
            assert(c0.previews().dom() =~= Set::<Seq<char>>::empty());
            assert(state.cache.previews().dom() =~= ids_between(state.sessions@, 0, SESSIONS_PER_PAGE as int));
        }
        state
    }

    /// The selected session, if the selection is within the list.
    pub fn selected_session(&self) -> (r: Option<&SessionInfo>)
        ensures
            match r {
                Some(s) => self.selected_idx < self.sessions@.len() && *s == self.sessions@[self.selected_idx as int],
                None => self.selected_idx >= self.sessions@.len(),
            },
    {
        if self.selected_idx < self.sessions.len() {
            Some(&self.sessions[self.selected_idx])
        } else {
            None
        }
    }

    /// The sessions of the current page.
    pub fn current_page_sessions(&self) -> (r: &[SessionInfo])
        requires
            self.wf(),
        ensures
            r@ == self.sessions@.subrange(
                self.pagination.current_page * self.pagination.items_per_page,
                if (self.pagination.current_page + 1) * self.pagination.items_per_page
                    <= self.sessions@.len() {
                    (self.pagination.current_page + 1) * self.pagination.items_per_page
                } else {
                    self.sessions@.len() as int
                },
            ),
    {
        let range = self.pagination.page_range();
        vstd::slice::slice_subrange(self.sessions.as_slice(), range.start, range.end)
    }

    /// Fetches the preview of the session at `idx` into the cache, unless it
    /// is cached already or `idx` is past the list.
    pub fn prefetch_preview_for_index<S: PreviewSource>(&mut self, idx: usize, source: &S)
        requires
            old(self).wf(),
        ensures
            final(self).wf(),
            final(self).same_but_cache(old(self)),
            previews_grown(
                old(self).cache,
                final(self).cache,
                ids_between(old(self).sessions@, idx as int, idx + 1),
            ),
    {
        let ghost ids = ids_between(self.sessions@, idx as int, idx + 1);
        if idx < self.sessions.len() {
            let id = self.sessions[idx].id.clone();
            let cached = self.cache.get_preview(id.as_str());
            if cached.is_none() {
                let messages = source.recent_messages(&self.sessions[idx].path, PREFETCH_MESSAGES);
                self.cache.cache_preview(id, messages);
            }
            proof {
                assert(ids =~= set![self.sessions@[idx as int].id@]);
                assert(self.cache.previews().dom() =~= old(self).cache.previews().dom().union(ids));
            }
        } else {
            assert(ids =~= Set::<Seq<char>>::empty());
            assert(self.cache.previews().dom() =~= old(self).cache.previews().dom().union(ids));
        }
    }

    /// Fetches the previews of the sessions next to the selection.
    pub fn prefetch_adjacent_sessions<S: PreviewSource>(&mut self, source: &S)
        requires
            old(self).wf(),
        ensures
            final(self).wf(),
            final(self).same_but_cache(old(self)),
            previews_grown(
                old(self).cache,
                final(self).cache,
                ids_between(old(self).sessions@, old(self).selected_idx + 1, old(self).selected_idx + 2).union(
                    if old(self).selected_idx > 0 {
                        ids_between(old(self).sessions@, old(self).selected_idx - 1, old(self).selected_idx as int)
                    } else {
                        Set::empty()
                    },
                ),
            ),
    {
        let ghost s0 = self.sessions@;
        let ghost sel = self.selected_idx as int;
        let ghost c0 = self.cache;
        if self.selected_idx < self.sessions.len() && self.selected_idx + 1 < self.sessions.len() {
            self.prefetch_preview_for_index(self.selected_idx + 1, source);
        } else {
            assert(ids_between(s0, sel + 1, sel + 2) =~= Set::<Seq<char>>::empty());
            assert(self.cache.previews().dom() =~= c0.previews().dom().union(ids_between(s0, sel + 1, sel + 2)));
        }
        let ghost c1 = self.cache;
        if self.selected_idx > 0 {
            self.prefetch_preview_for_index(self.selected_idx - 1, source);
        } else {
            assert(self.cache.previews().dom() =~= c1.previews().dom().union(Set::<Seq<char>>::empty()));
        }
        proof {
            let a = ids_between(s0, sel + 1, sel + 2);
            let b = if sel > 0 { ids_between(s0, sel - 1, sel) } else { Set::empty() };
            assert(c1.previews().dom() =~= c0.previews().dom().union(a));
            assert(self.cache.previews().dom() =~= c1.previews().dom().union(b));
            assert(self.cache.previews().dom() =~= c0.previews().dom().union(a.union(b)));
            assert forall|k: Seq<char>| #[trigger] c0.previews().contains_key(k) implies self.cache.previews()[k]
                == c0.previews()[k] by {
                assert(c1.previews().contains_key(k));
            }
        }
    }

    /// Fetches the previews of the current page's sessions.
    pub fn prefetch_visible_page<S: PreviewSource>(&mut self, source: &S)
        requires
            old(self).wf(),
        ensures
            final(self).wf(),
            final(self).same_but_cache(old(self)),
            previews_grown(old(self).cache, final(self).cache, old(self).page_ids()),
    {
        let range = self.pagination.page_range();
        let ghost c0 = self.cache;
        let ghost s0 = self.sessions@;
        let mut idx: usize = range.start;
        assert(ids_between(s0, range.start as int, range.start as int) =~= Set::<Seq<char>>::empty());
        assert(c0.previews().dom() =~= c0.previews().dom().union(Set::<Seq<char>>::empty()));
        while idx < range.end
            invariant
                self.wf(),
                self.same_but_cache(old(self)),
                range.start <= idx <= range.end <= s0.len(),
                s0 == self.sessions@,
                previews_grown(c0, self.cache, ids_between(s0, range.start as int, idx as int)),
            decreases range.end - idx,
        {
            let ghost c1 = self.cache;
            self.prefetch_preview_for_index(idx, source);
            assert(ids_between(s0, range.start as int, idx as int).union(ids_between(s0, idx as int, idx + 1))
                =~= ids_between(s0, range.start as int, idx + 1));
            assert(self.cache.previews().dom() =~= c0.previews().dom().union(ids_between(s0, range.start as int, idx + 1)));
            assert forall|k: Seq<char>| #[trigger] c0.previews().contains_key(k) implies self.cache.previews()[k]
                == c0.previews()[k] by {
                assert(c1.previews().contains_key(k));
            }
            idx = idx + 1;
        }
        proof {
            let hi = (self.pagination.current_page + 1) * self.pagination.items_per_page;
            assert(ids_between(s0, range.start as int, range.end as int) =~= old(self).page_ids());
        }
    }

    /// Moves to the next page, if any: selects its first session, resets
    /// the preview scroll and fetches the page's previews.
    pub fn next_page<S: PreviewSource>(&mut self, source: &S)
        requires
            old(self).wf(),
        ensures
            final(self).wf(),
            final(self).sessions@ == old(self).sessions@,
            final(self).view_mode == old(self).view_mode,
            final(self).modal_active == old(self).modal_active,
            final(self).modal_message@ == old(self).modal_message@,
            final(self).scroll_offset_left == old(self).scroll_offset_left,
            final(self).cache.metas() == old(self).cache.metas(),
            final(self).cache.summaries() == old(self).cache.summaries(),
            old(self).cache.previews().dom().subset_of(final(self).cache.previews().dom()),
            old(self).pagination.current_page + 1 < crate::pagination::pages(
                old(self).sessions@.len(),
                old(self).pagination.items_per_page as nat,
            ) ==> final(self).pagination.current_page == old(self).pagination.current_page + 1
                && final(self).selected_idx == final(self).pagination.current_page
                * final(self).pagination.items_per_page && final(self).scroll_offset_right == 0,
            old(self).pagination.current_page + 1 >= crate::pagination::pages(
                old(self).sessions@.len(),
                old(self).pagination.items_per_page as nat,
            ) ==> final(self).pagination == old(self).pagination && final(self).selected_idx == old(
                self).selected_idx && final(self).scroll_offset_right == old(self).scroll_offset_right,
    {
        if self.pagination.next_page() {
            self.selected_idx = self.pagination.page_start();
            self.scroll_offset_right = 0;
            self.prefetch_visible_page(source);
        }
    }

    /// Moves to the previous page, if any: selects its first session, resets
    /// the preview scroll and fetches the page's previews.
    pub fn prev_page<S: PreviewSource>(&mut self, source: &S)
        requires
            old(self).wf(),
        ensures
            final(self).wf(),
            final(self).sessions@ == old(self).sessions@,
            final(self).view_mode == old(self).view_mode,
            final(self).modal_active == old(self).modal_active,
            final(self).modal_message@ == old(self).modal_message@,
            final(self).scroll_offset_left == old(self).scroll_offset_left,
            final(self).cache.metas() == old(self).cache.metas(),
            final(self).cache.summaries() == old(self).cache.summaries(),
            old(self).cache.previews().dom().subset_of(final(self).cache.previews().dom()),
            old(self).pagination.current_page > 0 ==> final(self).pagination.current_page == old(
                self).pagination.current_page - 1 && final(self).selected_idx == final(self).pagination.current_page
                * final(self).pagination.items_per_page && final(self).scroll_offset_right == 0,
            old(self).pagination.current_page == 0 ==> final(self).pagination == old(self).pagination
                && final(self).selected_idx == old(self).selected_idx && final(self).scroll_offset_right
                == old(self).scroll_offset_right,
    {
        if self.pagination.prev_page() {
            self.selected_idx = self.pagination.page_start();
            self.scroll_offset_right = 0;
            self.prefetch_visible_page(source);
        }
    }

    /// Moves the selection up one session, if it can, resetting the preview
    /// scroll and fetching the neighbours' previews.
    pub fn select_prev<S: PreviewSource>(&mut self, source: &S)
        requires
            old(self).wf(),
        ensures
            final(self).wf(),
            final(self).sessions@ == old(self).sessions@,
            final(self).pagination == old(self).pagination,
            final(self).view_mode == old(self).view_mode,
            final(self).modal_active == old(self).modal_active,
            final(self).modal_message@ == old(self).modal_message@,
            final(self).scroll_offset_left == old(self).scroll_offset_left,
            final(self).cache.metas() == old(self).cache.metas(),
            final(self).cache.summaries() == old(self).cache.summaries(),
            old(self).cache.previews().dom().subset_of(final(self).cache.previews().dom()),
            old(self).selected_idx > 0 ==> final(self).selected_idx == old(self).selected_idx - 1
                && final(self).scroll_offset_right == 0,
            old(self).selected_idx == 0 ==> final(self).selected_idx == 0
                && final(self).scroll_offset_right == old(self).scroll_offset_right,
    {
        if self.selected_idx > 0 {
            self.selected_idx = self.selected_idx - 1;
            self.scroll_offset_right = 0;
            self.prefetch_adjacent_sessions(source);
        }
    }

    /// Moves the selection down one session, if it can, resetting the
    /// preview scroll and fetching the neighbours' previews.
    pub fn select_next<S: PreviewSource>(&mut self, source: &S)
        requires
            old(self).wf(),
        ensures
            final(self).wf(),
            final(self).sessions@ == old(self).sessions@,
            final(self).pagination == old(self).pagination,
            final(self).view_mode == old(self).view_mode,
            final(self).modal_active == old(self).modal_active,
            final(self).modal_message@ == old(self).modal_message@,
            final(self).scroll_offset_left == old(self).scroll_offset_left,
            final(self).cache.metas() == old(self).cache.metas(),
            final(self).cache.summaries() == old(self).cache.summaries(),
            old(self).cache.previews().dom().subset_of(final(self).cache.previews().dom()),
            old(self).selected_idx + 1 < old(self).sessions@.len() ==> final(self).selected_idx == old(
                self).selected_idx + 1 && final(self).scroll_offset_right == 0,
            old(self).selected_idx + 1 >= old(self).sessions@.len() ==> final(self).selected_idx == old(
                self).selected_idx && final(self).scroll_offset_right == old(self).scroll_offset_right,
    {
        if self.selected_idx < self.sessions.len().saturating_sub(1) {
            self.selected_idx = self.selected_idx + 1;
            self.scroll_offset_right = 0;
            self.prefetch_adjacent_sessions(source);
        }
    }

    /// Selects the first session.
    pub fn select_first(&mut self)
        ensures
            *final(self) == (PickerState { selected_idx: 0, scroll_offset_right: 0, ..*old(self) }),
    {
        self.selected_idx = 0;
        self.scroll_offset_right = 0;
    }

    /// Selects the last session (the first, when there are none).
    pub fn select_last(&mut self)
        ensures
            final(self).selected_idx == if old(self).sessions@.len() > 0 {
                old(self).sessions@.len() - 1
            } else {
                0
            },
            *final(self) == (PickerState {
                selected_idx: final(self).selected_idx,
                scroll_offset_right: 0,
                ..*old(self)
            }),
    {
        self.selected_idx = self.sessions.len().saturating_sub(1);
        self.scroll_offset_right = 0;
    }

    /// Scrolls the preview up one line, stopping at the top.
    pub fn scroll_preview_up(&mut self)
        ensures
            *final(self) == (PickerState {
                scroll_offset_right: if old(self).scroll_offset_right > 0 {
                    (old(self).scroll_offset_right - 1) as usize
                } else {
                    0
                },
                ..*old(self)
            }),
    {
        self.scroll_offset_right = self.scroll_offset_right.saturating_sub(1);
    }

    /// Scrolls the preview down one line (saturating).
    pub fn scroll_preview_down(&mut self)
        ensures
            *final(self) == (PickerState {
                scroll_offset_right: sat_inc(old(self).scroll_offset_right),
                ..*old(self)
            }),
    {
        self.scroll_offset_right = self.scroll_offset_right.saturating_add(1);
    }

    /// Cycles the view mode: Split, FullPreview, SessionOnly, Split.
    pub fn toggle_view_mode(&mut self)
        ensures
            *final(self) == (PickerState { view_mode: next_mode(old(self).view_mode), ..*old(self) }),
    {
        self.view_mode = match self.view_mode {
            ViewMode::Split => ViewMode::FullPreview,
            ViewMode::FullPreview => ViewMode::SessionOnly,
            ViewMode::SessionOnly => ViewMode::Split,
        };
    }

    /// Opens the confirmation dialog for deleting the selected session, if
    /// the selection is within the list.
    pub fn confirm_delete(&mut self)
        ensures
            old(self).selected_idx < old(self).sessions@.len() ==> final(self).modal_active
                && final(self).modal_message@ == delete_prompt(
                old(self).sessions@[old(self).selected_idx as int].id@,
            ) && *final(self) == (PickerState {
                modal_active: true,
                modal_message: final(self).modal_message,
                ..*old(self)
            }),
            old(self).selected_idx >= old(self).sessions@.len() ==> *final(self) == *old(self),
    {
        if self.selected_idx < self.sessions.len() {
            let mut m = "Delete session '".to_owned();
            push_str(&mut m, self.sessions[self.selected_idx].id.as_str());
            push_str(&mut m, "'?\nThis action cannot be undone.\n\nPress 'y' to confirm or 'n' to cancel.");
            self.modal_active = true;
            self.modal_message = m;
        }
    }

    /// Closes the dialog and clears its message.
    pub fn close_modal(&mut self)
        ensures
            !final(self).modal_active,
            final(self).modal_message@.len() == 0,
            *final(self) == (PickerState {
                modal_active: false,
                modal_message: final(self).modal_message,
                ..*old(self)
            }),
    {
        self.modal_active = false;
        self.modal_message = String::new();
    }

    /// The preview of `session`: from the cache, else from `source`, and
    /// then cached.
    pub fn get_or_fetch_preview<S: PreviewSource>(&mut self, session: &SessionInfo, limit: usize, source: &S) -> (r: Vec<PreviewMessage>)
        requires
            old(self).wf(),
        ensures
            final(self).wf(),
            final(self).same_but_cache(old(self)),
            old(self).cache.previews().contains_key(session.id@) ==> r@ == old(self).cache.previews()[session.id@]
                && final(self).cache.previews() == old(self).cache.previews(),
            !old(self).cache.previews().contains_key(session.id@) ==> final(self).cache.previews() == old(
                self).cache.previews().insert(session.id@, r@),
    {
        if let Some(cached) = self.cache.get_preview(session.id.as_str()) {
            return cached;
        }
        let messages = source.recent_messages(&session.path, limit);
        let copy = copy_messages(&messages);
        self.cache.cache_preview(session.id.clone(), messages);
        copy
    }

    /// (meta hits, meta misses, preview hits, preview misses).
    pub fn cache_stats(&self) -> (r: (usize, usize, usize, usize))
        ensures
            r == self.cache.counts(),
    {
        self.cache.stats()
    }

    /// Empties the caches.
    pub fn clear_cache(&mut self)
        requires
            old(self).wf(),
        ensures
            final(self).wf(),
            final(self).same_but_cache(old(self)),
            final(self).cache.previews() == Map::<Seq<char>, Seq<PreviewMessage>>::empty(),
            final(self).cache.metas() == Map::<Seq<char>, SessionInfo>::empty(),
            final(self).cache.summaries() == Map::<Seq<char>, MessageSummary>::empty(),
    {
        self.cache.clear();
    }
}

/// The confirmation question for deleting session `id`.
pub open spec fn delete_prompt(id: Seq<char>) -> Seq<char> {
    "Delete session '"@ + id + "'?\nThis action cannot be undone.\n\nPress 'y' to confirm or 'n' to cancel."@
}

} // verus!