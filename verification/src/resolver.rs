use vstd::prelude::*;

verus! {

/// One playlist as the paginated account listing reports it.
pub struct PlaylistEntry {
    pub id: String,
    pub name: String,
}

/// The playlist selected for fallback playback: its remote id, its
/// (exactly matched) name, and its ordinal position in the account
/// listing. Selected once per session; immutable thereafter.
pub struct Playlist {
    pub id: String,
    pub name: String,
    pub position: usize,
}

/// Why playlist resolution failed. `PlaylistNotFound` covers both an
/// account with zero playlists and a listing in which no name matches;
/// `NetworkUnavailable` is a page fetch that failed, in which case no
/// partial result is handed on.
#[derive(Clone, Copy, PartialEq, Eq, Structural, Debug)]
pub enum ResolveError {
    PlaylistNotFound,
    NetworkUnavailable,
}

/// Accumulates the items of a paginated remote listing fetched with a
/// fixed page size and an increasing offset, until a page reports no
/// further results. The caller performs each fetch and feeds the page
/// back in; the paginator owns every decision: which offset to request
/// next, when the walk is complete, and what was collected.
pub struct Paginator<T> {
    items: Vec<T>,
    offset: u64,
    limit: u32,
    done: bool,
}

impl<T> Paginator<T> {
    /// Everything collected so far, in listing order.
    pub closed spec fn items_seq(&self) -> Seq<T> {
        self.items@
    }

    /// The offset at which the next page should be requested.
    pub closed spec fn offset_val(&self) -> u64 {
        self.offset
    }

    /// The fixed page size of the walk.
    pub closed spec fn limit_val(&self) -> u32 {
        self.limit
    }

    /// Whether a page has reported that no further results exist.
    pub closed spec fn is_done_val(&self) -> bool {
        self.done
    }

    /// The remote API bounds one page at 50 items.
    pub open spec fn wf(&self) -> bool {
        1 <= self.limit_val() <= 50
    }

    pub fn new(limit: u32) -> (p: Paginator<T>)
        requires
            1 <= limit <= 50,
        ensures
            p.wf(),
            p.items_seq() == Seq::<T>::empty(),
            p.offset_val() == 0,
            p.limit_val() == limit,
            !p.is_done_val(),
    {
        Paginator { items: Vec::new(), offset: 0, limit, done: false }
    }

    pub fn next_offset(&self) -> (o: u64)
        ensures
            o == self.offset_val(),
    {
        self.offset
    }

    pub fn page_limit(&self) -> (l: u32)
        ensures
            l == self.limit_val(),
    {
        self.limit
    }

    pub fn is_done(&self) -> (d: bool)
        ensures
            d == self.is_done_val(),
    {
        self.done
    }

    /// Record one fetched page: its items are appended to what earlier
    /// pages brought, the walk is complete exactly when the page reports
    /// no further results, and the next request moves one page size on.
    pub fn accept_page(&mut self, page_items: Vec<T>, has_next: bool)
        requires
            !old(self).is_done_val(),
            old(self).offset_val() + old(self).limit_val() <= u64::MAX,
        ensures
            final(self).items_seq() == old(self).items_seq() + page_items@,
            final(self).is_done_val() == !has_next,
            final(self).offset_val() == old(self).offset_val() + old(self).limit_val(),
            final(self).limit_val() == old(self).limit_val(),
            final(self).wf() == old(self).wf(),
    {
        let mut page_items = page_items;
        self.items.append(&mut page_items);
        self.done = !has_next;
        self.offset = self.offset + self.limit as u64;
    }

    /// Hand out everything collected, ending the walk.
    pub fn into_items(self) -> (v: Vec<T>)
        ensures
            v@ == self.items_seq(),
    {
        self.items
    }
}

/// Scan a full account listing for the first playlist whose name equals
/// `name` exactly (case-sensitive); an account with no match — zero
/// playlists included — yields `PlaylistNotFound`.
pub fn select_playlist(playlists: &Vec<PlaylistEntry>, name: &String) -> (r: Result<
    Playlist,
    ResolveError,
>)
    ensures
        (r is Ok) == (exists|i: int|
            0 <= i < playlists@.len() && playlists@[i].name@ == name@),
        r is Ok ==> {
            let p = r.unwrap();
            &&& 0 <= (p.position as int) < playlists@.len()
            &&& playlists@[p.position as int].name@ == name@
            &&& p.id@ == playlists@[p.position as int].id@
            &&& p.name@ == name@
            &&& forall|j: int| 0 <= j < p.position ==> playlists@[j].name@ != name@
        },
        r is Err ==> r == Err::<Playlist, ResolveError>(ResolveError::PlaylistNotFound),
{
    let mut i: usize = 0;
    while i < playlists.len()
        invariant
            0 <= i <= playlists@.len(),
            forall|j: int| 0 <= j < i ==> playlists@[j].name@ != name@,
        decreases playlists@.len() - i,
    {
        let entry = &playlists[i];
        if entry.name == *name {
            return Ok(Playlist { id: entry.id.clone(), name: name.clone(), position: i });
        }
        i = i + 1;
    }
    Err(ResolveError::PlaylistNotFound)
}

} // verus!
