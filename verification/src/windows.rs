//! The open windows together with the process that owns each.

use vstd::prelude::*;

verus! {

/// What asking for the owner of a window gave.
#[derive(Debug, Clone, Copy, PartialEq, Eq, Structural)]
pub enum PidLookup {
    /// A window of an X client. `client` is what the X server knows of the client, `property`
    /// what the client says of itself.
    X11 { client: Option<u32>, property: Option<u32> },
    /// A window of a Wayland client, with the process id of its credentials.
    Wayland { credentials: Option<i32> },
}

/// The process that a lookup names. What the X server knows goes before what the client says of
/// itself, and a negative id names no process.
pub open spec fn looked_up(lookup: PidLookup) -> Option<u32> {
    match lookup {
        PidLookup::X11 { client: Some(pid), .. } => Some(pid),
        PidLookup::X11 { client: None, property } => property,
        PidLookup::Wayland { credentials: Some(pid) } if pid >= 0 => Some(pid as u32),
        PidLookup::Wayland { .. } => None,
    }
}

fn resolve(lookup: PidLookup) -> (r: Option<u32>)
    ensures
        r == looked_up(lookup),
{
    match lookup {
        PidLookup::X11 { client: Some(pid), .. } => Some(pid),
        PidLookup::X11 { client: None, property } => property,
        PidLookup::Wayland { credentials: Some(pid) } => if pid >= 0 {
            Some(pid as u32)
        } else {
            None
        },
        PidLookup::Wayland { credentials: None } => None,
    }
}

/// The process that owns a window, remembered from the first lookup that named one. A lookup
/// that failed is not remembered, so that a window that has no process yet is asked again.
#[derive(Debug, Clone, Copy, PartialEq, Eq, Structural)]
pub struct CachedPid {
    pub pid: Option<u32>,
}

/// The owner of a window, given what is remembered and what a lookup would give.
pub open spec fn owner(cached: CachedPid, lookup: PidLookup) -> Option<u32> {
    match cached.pid {
        Some(pid) => Some(pid),
        None => looked_up(lookup),
    }
}

impl CachedPid {
    /// Nothing is known yet.
    pub fn new() -> (r: CachedPid)
        ensures
            r.pid is None,
    {
        CachedPid { pid: None }
    }

    /// The process that owns the window. `lookup` is only asked while nothing is known.
    pub fn pid_of<L: FnOnce() -> PidLookup>(&mut self, lookup: L) -> (r: Option<u32>)
        requires
            lookup.requires(()),
        ensures
            old(self).pid is Some ==> forall|found: PidLookup| r == #[trigger] owner(
                *old(self),
                found,
            ),
            old(self).pid is None ==> exists|found: PidLookup|
                lookup.ensures((), found) && r == #[trigger] owner(*old(self), found),
            final(self).pid == r,
    {
        if let Some(pid) = self.pid {
            return Some(pid);
        }
        let found = lookup();
        let pid = resolve(found);
        assert(pid == owner(*old(self), found));
        self.pid = pid;
        pid
    }
}

/// One row of the published list: process, application, title, and whether the window holds
/// focus.
pub type WindowRow = (u32, String, String, bool);

/// An open window.
#[derive(Debug)]
pub struct Toplevel {
    /// The process that owns it, if that is known.
    pub pid: Option<u32>,
    pub app_id: String,
    pub title: String,
    pub activated: bool,
}

/// A row with its texts.
pub open spec fn row(r: WindowRow) -> (u32, Seq<char>, Seq<char>, bool) {
    (r.0, r.1@, r.2@, r.3)
}

/// The rows of a list.
pub open spec fn rows(list: Seq<WindowRow>) -> Seq<(u32, Seq<char>, Seq<char>, bool)> {
    Seq::new(list.len(), |i: int| row(list[i]))
}

/// The rows of the windows whose process is known, in order.
pub open spec fn rows_of(toplevels: Seq<Toplevel>) -> Seq<(u32, Seq<char>, Seq<char>, bool)>
    decreases toplevels.len(),
{
    if toplevels.len() == 0 {
        seq![]
    } else {
        let before = rows_of(toplevels.drop_last());
        let window = toplevels.last();
        match window.pid {
            Some(pid) => before.push((pid, window.app_id@, window.title@, window.activated)),
            None => before,
        }
    }
}

/// The list may only be read by those who are allowed to.
#[derive(Debug, Clone, Copy, PartialEq, Eq, Structural)]
pub struct AccessDenied;

/// Whether a request may read the list, given whether its sender is allowed to. A request without
/// a sender may.
pub open spec fn may_read(sender_allowed: Option<bool>) -> bool {
    match sender_allowed {
        Some(allowed) => allowed,
        None => true,
    }
}

/// The published list of windows.
#[derive(Debug)]
pub struct WindowsState {
    windows: Vec<WindowRow>,
}

impl View for WindowsState {
    type V = Seq<(u32, Seq<char>, Seq<char>, bool)>;

    closed spec fn view(&self) -> Seq<(u32, Seq<char>, Seq<char>, bool)> {
        rows(self.windows@)
    }
}

/// The rows of the windows whose process is known.
fn snapshot(toplevels: Vec<Toplevel>) -> (r: Vec<WindowRow>)
    ensures
        rows(r@) == rows_of(toplevels@),
{
    let mut next: Vec<WindowRow> = Vec::new();
    let mut i: usize = 0;
    assert(rows(next@) =~= rows_of(toplevels@.take(0)));
    while i < toplevels.len()
        invariant
            i <= toplevels.len(),
            rows(next@) == rows_of(toplevels@.take(i as int)),
        decreases toplevels.len() - i,
    {
        let window = &toplevels[i];
        let ghost before = next@;
        if let Some(pid) = window.pid {
            next.push((pid, window.app_id.clone(), window.title.clone(), window.activated));
            assert(rows(next@) =~= rows(before).push(
                (pid, window.app_id@, window.title@, window.activated),
            ));
        }
        assert(toplevels@.take(i + 1).drop_last() =~= toplevels@.take(i as int));
        i = i + 1;
    }
    assert(toplevels@.take(i as int) =~= toplevels@);
    next
}

/// Whether a snapshot of `toplevels` is announced to those who have read `before`.
pub open spec fn announced(
    before: Seq<(u32, Seq<char>, Seq<char>, bool)>,
    toplevels: Seq<Toplevel>,
) -> bool {
    before != rows_of(toplevels)
}

/// Whether two lists have the same rows.
fn same_rows(a: &Vec<WindowRow>, b: &Vec<WindowRow>) -> (r: bool)
    ensures
        r == (rows(a@) == rows(b@)),
{
    if a.len() != b.len() {
        assert(rows(a@).len() != rows(b@).len());
        return false;
    }
    let mut i: usize = 0;
    while i < a.len()
        invariant
            i <= a.len(),
            a.len() == b.len(),
            forall|k: int| 0 <= k < i ==> rows(a@)[k] == #[trigger] rows(b@)[k],
        decreases a.len() - i,
    {
        let x = &a[i];
        let y = &b[i];
        if x.0 != y.0 || x.1 != y.1 || x.2 != y.2 || x.3 != y.3 {
            assert(rows(a@)[i as int] != rows(b@)[i as int]);
            return false;
        }
        assert(rows(a@)[i as int] == rows(b@)[i as int]);
        i = i + 1;
    }
    assert(rows(a@) =~= rows(b@));
    true
}

impl WindowsState {
    /// No window is open yet.
    pub fn new() -> (r: WindowsState)
        ensures
            r@ == Seq::<(u32, Seq<char>, Seq<char>, bool)>::empty(),
    {
        let r = WindowsState { windows: Vec::new() };
        assert(rows(r.windows@) =~= Seq::<(u32, Seq<char>, Seq<char>, bool)>::empty());
        r
    }

    /// Takes a snapshot of the open windows. Returns whether it differs from the last one, and
    /// so whether the change is to be announced.
    pub fn refresh(&mut self, toplevels: Vec<Toplevel>) -> (changed: bool)
        ensures
            final(self)@ == rows_of(toplevels@),
            changed == (old(self)@ != final(self)@),
            changed == announced(old(self)@, toplevels@),
    {
        let next = snapshot(toplevels);
        if same_rows(&self.windows, &next) {
            return false;
        }
        self.windows = next;
        true
    }

    /// The list, for a caller. `sender_allowed` tells whether the sender of the request is
    /// allowed to read it; a request without a sender is.
    pub fn list(&self, sender_allowed: Option<bool>) -> (r: Result<Vec<WindowRow>, AccessDenied>)
        ensures
            r is Err <==> sender_allowed == Some(false),
            r is Ok <==> may_read(sender_allowed),
            r matches Ok(list) ==> rows(list@) == self@,
    {
        if let Some(allowed) = sender_allowed {
            if !allowed {
                return Err(AccessDenied);
            }
        }
        let mut list: Vec<WindowRow> = Vec::new();
        let mut i: usize = 0;
        while i < self.windows.len()
            invariant
                i <= self.windows.len(),
                list.len() == i,
                forall|k: int| 0 <= k < i ==> row(#[trigger] list[k]) == row(self.windows[k]),
            decreases self.windows.len() - i,
        {
            let r = &self.windows[i];
            list.push((r.0, r.1.clone(), r.2.clone(), r.3));
            i = i + 1;
        }
        assert(rows(list@) =~= rows(self.windows@));
        Ok(list)
    }
}

/// The owner of a window never changes once it is known.
pub proof fn law_known_owner_is_kept(cached: CachedPid, lookup: PidLookup, later: PidLookup)
    requires
        owner(cached, lookup) is Some,
    ensures
        owner(CachedPid { pid: owner(cached, lookup) }, later) == owner(cached, lookup),
{
}

/// A failed lookup is forgotten: the next one is asked as if it were the first.
pub proof fn law_unknown_owner_is_asked_again(
    cached: CachedPid,
    lookup: PidLookup,
    later: PidLookup,
)
    requires
        owner(cached, lookup) is None,
    ensures
        owner(CachedPid { pid: owner(cached, lookup) }, later) == looked_up(later),
{
}

/// The published list has no more rows than there are windows, and one for each once every process
/// is known.
pub proof fn law_list_is_no_longer_than_the_windows(toplevels: Seq<Toplevel>)
    ensures
        rows_of(toplevels).len() <= toplevels.len(),
        (forall|i: int| #![trigger toplevels[i]] 0 <= i < toplevels.len() ==> toplevels[i].pid is Some)
            ==> rows_of(toplevels).len() == toplevels.len(),
    decreases toplevels.len(),
{
    if toplevels.len() > 0 {
        law_list_is_no_longer_than_the_windows(toplevels.drop_last());
    }
}

/// A row carries what the window it is read from carries, each in its place.
pub proof fn law_rows_carry_their_fields(list: Seq<WindowRow>)
    ensures
        rows(list).len() == list.len(),
        forall|i: int|
            #![trigger rows(list)[i]]
            0 <= i < list.len() ==> {
                &&& rows(list)[i].0 == list[i].0
                &&& rows(list)[i].1 == list[i].1@
                &&& rows(list)[i].2 == list[i].2@
                &&& rows(list)[i].3 == list[i].3
            },
{
}

/// A window makes one row of its own process, application, title and focus, and none while its
/// process is not known.
pub proof fn law_a_window_makes_its_own_row(window: Toplevel)
    ensures
        window.pid is None ==> rows_of(seq![window]) == Seq::<
            (u32, Seq<char>, Seq<char>, bool),
        >::empty(),
        window.pid matches Some(pid) ==> {
            let list = rows_of(seq![window]);
            &&& list.len() == 1
            &&& list[0].0 == pid
            &&& list[0].1 == window.app_id@
            &&& list[0].2 == window.title@
            &&& list[0].3 == window.activated
        },
{
    assert(seq![window].drop_last() =~= Seq::<Toplevel>::empty());
    reveal_with_fuel(rows_of, 2);
}

/// Windows do not change each other's rows: the rows of windows that are listed after others
/// follow the rows of those.
pub proof fn law_rows_follow_each_other(first: Seq<Toplevel>, then: Seq<Toplevel>)
    ensures
        rows_of(first + then) == rows_of(first) + rows_of(then),
    decreases then.len(),
{
    if then.len() == 0 {
        assert(first + then =~= first);
        assert(rows_of(first) + rows_of(then) =~= rows_of(first));
    } else {
        law_rows_follow_each_other(first, then.drop_last());
        assert((first + then).drop_last() =~= first + then.drop_last());
        assert((first + then).last() == then.last());
        assert(rows_of(first + then) =~= rows_of(first) + rows_of(then));
    }
}

/// Once every process is known, the row at each place is that of the window at that place.
pub proof fn law_row_is_of_the_window_at_its_place(toplevels: Seq<Toplevel>, i: int)
    requires
        forall|k: int|
            #![trigger toplevels[k]]
            0 <= k < toplevels.len() ==> toplevels[k].pid is Some,
        0 <= i < toplevels.len(),
    ensures
        rows_of(toplevels).len() == toplevels.len(),
        Some(rows_of(toplevels)[i].0) == toplevels[i].pid,
        rows_of(toplevels)[i].1 == toplevels[i].app_id@,
        rows_of(toplevels)[i].2 == toplevels[i].title@,
        rows_of(toplevels)[i].3 == toplevels[i].activated,
    decreases toplevels.len(),
{
    law_list_is_no_longer_than_the_windows(toplevels);
    law_list_is_no_longer_than_the_windows(toplevels.drop_last());
    if i < toplevels.len() - 1 {
        law_row_is_of_the_window_at_its_place(toplevels.drop_last(), i);
    }
}

/// A change is announced exactly if somebody who reads the list again sees something else: a
/// second snapshot of windows that make the same rows is not, and one that makes another row in
/// any place, or more or fewer rows, is.
pub proof fn law_changes_are_announced(
    before: Seq<Toplevel>,
    after: Seq<Toplevel>,
    i: int,
)
    ensures
        !announced(rows_of(before), before),
        rows_of(before).len() != rows_of(after).len() ==> announced(rows_of(before), after),
        0 <= i < rows_of(before).len() && i < rows_of(after).len() && rows_of(before)[i]
            != rows_of(after)[i] ==> announced(rows_of(before), after),
        rows_of(before) == rows_of(after) ==> !announced(rows_of(before), after),
{
}

/// Only a sender that is not allowed to is kept from reading the list.
pub proof fn law_only_others_are_kept_out()
    ensures
        may_read(None),
        may_read(Some(true)),
        !may_read(Some(false)),
{
}

/// What a lookup gives: of an X client the server's word and, only where that is missing, the
/// client's own; of a Wayland client its credentials, unless they are no process id.
pub proof fn law_lookups_trust_the_server_first(server: u32, client: Option<u32>, pid: i32)
    ensures
        looked_up(PidLookup::X11 { client: Some(server), property: client }) == Some(server),
        looked_up(PidLookup::X11 { client: None, property: client }) == client,
        looked_up(PidLookup::Wayland { credentials: None }) is None,
        pid < 0 ==> looked_up(PidLookup::Wayland { credentials: Some(pid) }) is None,
        pid >= 0 ==> (looked_up(PidLookup::Wayland { credentials: Some(pid) }) matches Some(found)
            && found == pid),
{
}

/// A process that is remembered is the answer whatever a lookup would give, and a lookup is the
/// answer where none is.
pub proof fn law_memory_goes_before_lookups(cached: CachedPid, lookup: PidLookup)
    ensures
        cached.pid is Some ==> owner(cached, lookup) == cached.pid,
        cached.pid is None ==> owner(cached, lookup) == looked_up(lookup),
{
}

} // verus!
