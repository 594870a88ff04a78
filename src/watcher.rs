//! A filesystem watch that follows exactly one file: the directory around
//! the file is watched (editors often replace a file rather than write it),
//! and the watcher's settled events are filtered down to that one file.

use vstd::prelude::*;
use crate::paths::{parent_dir, parent_of, paths_equal, same_path};

verus! {

#[verifier::external_type_specification]
#[verifier::external_body]
pub struct ExRecommendedWatcher(notify::RecommendedWatcher);

#[verifier::external_type_specification]
#[verifier::external_body]
pub struct ExNotifyError(notify::Error);

#[verifier::external_type_specification]
#[verifier::external_body]
pub struct ExDebouncedEvent(notify::DebouncedEvent);

#[verifier::external_type_specification]
#[verifier::external_body]
#[verifier::reject_recursive_types(T)]
pub struct ExReceiver<T>(std::sync::mpsc::Receiver<T>);

/// The quiet time after which the watcher reports a burst of events on a
/// path as one event.
pub const DEFAULT_DELAY_MS: u64 = 200;

/// A settled event from the watcher, reduced to what the filter reads.
pub enum RawEvent {
    Created(String),
    Written(String),
    Other,
}

/// Why a watch could not be set up or released.
pub enum WatchError {
    /// The path names no directory to watch (it is empty or a root).
    NoParent,
    /// The watcher could not be started.
    Open(notify::Error),
    /// The watcher refused to watch the directory.
    Watch(notify::Error),
    /// The watcher refused to release the previous directory.
    Unwatch(notify::Error),
}

/// Relies on `std::sync::mpsc::channel` and `Watcher::new` of notify: a
/// debounced watcher that sends its events into the returned receiver.
#[verifier::external_body]
fn open_watcher(delay_ms: u64) -> (r: Result<
    (notify::RecommendedWatcher, std::sync::mpsc::Receiver<notify::DebouncedEvent>),
    notify::Error,
>) {
    let (tx, rx) = std::sync::mpsc::channel();
    let delay = std::time::Duration::from_millis(delay_ms);
    <notify::RecommendedWatcher as notify::Watcher>::new(tx, delay).map(|w| (w, rx))
}

/// Relies on `Watcher::watch` of notify: starts watching a directory and
/// everything below it.
#[verifier::external_body]
fn watch_dir(w: &mut notify::RecommendedWatcher, dir: &str) -> (r: Result<(), notify::Error>) {
    notify::Watcher::watch(w, dir, notify::RecursiveMode::Recursive)
}

/// Relies on `Watcher::unwatch` of notify: stops watching a directory.
#[verifier::external_body]
fn unwatch_dir(w: &mut notify::RecommendedWatcher, dir: &str) -> (r: Result<(), notify::Error>) {
    notify::Watcher::unwatch(w, dir)
}

/// Relies on `Receiver::try_iter`: takes every event buffered so far
/// without waiting, in the order of arrival.
#[verifier::external_body]
fn drain_events(rx: &std::sync::mpsc::Receiver<notify::DebouncedEvent>) -> (r: Vec<RawEvent>) {
    let mut out = Vec::new();
    for event in rx.try_iter() {
        out.push(match event {
            notify::DebouncedEvent::Create(p) => RawEvent::Created(p.to_string_lossy().into_owned()),
            notify::DebouncedEvent::Write(p) => RawEvent::Written(p.to_string_lossy().into_owned()),
            _ => RawEvent::Other,
        });
    }
    out
}

pub open spec fn opt_view(o: Option<String>) -> Option<Seq<char>> {
    match o {
        Some(s) => Some(s@),
        None => None,
    }
}

/// Whether an event says that the watched file was created or written.
pub open spec fn is_change_of(e: RawEvent, watched: Option<Seq<char>>) -> bool {
    match e {
        RawEvent::Created(p) => watched is Some && same_path(p@, watched->0),
        RawEvent::Written(p) => watched is Some && same_path(p@, watched->0),
        RawEvent::Other => false,
    }
}

/// The path that an event names; an event of another kind names none.
pub open spec fn event_path(e: RawEvent) -> Seq<char> {
    match e {
        RawEvent::Created(p) => p@,
        RawEvent::Written(p) => p@,
        RawEvent::Other => Seq::empty(),
    }
}

/// The changes of the watched file that a batch of events reports, one for
/// each creation or write of it, in the order of the batch.
pub open spec fn changes_in(events: Seq<RawEvent>, watched: Option<Seq<char>>) -> Seq<Seq<char>>
    decreases events.len(),
{
    if events.len() == 0 {
        Seq::empty()
    } else {
        let rest = changes_in(events.drop_last(), watched);
        if is_change_of(events.last(), watched) {
            rest.push(event_path(events.last()))
        } else {
            rest
        }
    }
}

/// What a guard holds: the file of interest, the directory under watch, and
/// the changes of the file not yet handed out, oldest first.
pub ghost struct WatchState {
    pub path: Option<Seq<char>>,
    pub dir: Option<Seq<char>>,
    pub pending: Seq<Seq<char>>,
}

/// Whether `p` is the path that the guard already follows.
pub open spec fn is_current(s: WatchState, p: Seq<char>) -> bool {
    s.path is Some && same_path(s.path->0, p)
}

/// The state after a batch of events: each creation or write of the watched
/// file is queued; other events leave no trace.
pub open spec fn after_events(s: WatchState, events: Seq<RawEvent>) -> WatchState {
    WatchState { pending: s.pending + changes_in(events, s.path), ..s }
}

/// The change that a poll of state `s` hands out: the oldest pending one.
pub open spec fn next_change(s: WatchState) -> Option<Seq<char>> {
    if s.pending.len() > 0 {
        Some(s.pending[0])
    } else {
        None
    }
}

/// The state after the oldest pending change, if any, was handed out.
pub open spec fn after_take(s: WatchState) -> WatchState {
    if s.pending.len() > 0 {
        WatchState { pending: s.pending.drop_first(), ..s }
    } else {
        s
    }
}

/// Follows one file through a watch on its directory.
pub struct ConfigWatcher {
    watcher: notify::RecommendedWatcher,
    rx: std::sync::mpsc::Receiver<notify::DebouncedEvent>,
    path: Option<String>,
    dir: Option<String>,
    pending: Vec<String>,
}

impl View for ConfigWatcher {
    type V = WatchState;

    closed spec fn view(&self) -> WatchState {
        WatchState {
            path: opt_view(self.path),
            dir: opt_view(self.dir),
            pending: self.pending@.map_values(|p: String| p@),
        }
    }
}

/// The result of pointing a guard at a new file, from what releasing the
/// previous directory and watching the new one gave: a failed release is
/// reported first, and the new directory is watched either way.
pub fn retarget_result(released: Result<(), WatchError>, watched: Result<(), notify::Error>) -> (r:
    Result<(), WatchError>)
    ensures
        (r is Ok) == (released is Ok && watched is Ok),
        released is Err ==> r == released,
        released is Ok && watched is Err ==> r matches Err(WatchError::Watch(_)),
{
    match (released, watched) {
        (Err(first), _) => Err(first),
        (Ok(()), Err(e)) => Err(WatchError::Watch(e)),
        (Ok(()), Ok(())) => Ok(()),
    }
}

impl ConfigWatcher {
    /// The guard's own consistency: a watched directory is the parent of the
    /// followed file, and every pending change is a change of that file.
    pub open spec fn wf(&self) -> bool {
        &&& (self@.dir is Some ==> self@.path is Some && parent_of(self@.path->0) == self@.dir)
        &&& (self@.pending.len() > 0 ==> self@.path is Some)
        &&& forall|i: int|
            0 <= i < self@.pending.len() ==> same_path(#[trigger] self@.pending[i], self@.path->0)
    }

    /// A guard that follows no file yet, whose watcher settles bursts of
    /// events over `delay_ms` milliseconds.
    pub fn new(delay_ms: u64) -> (r: Result<ConfigWatcher, WatchError>)
        ensures
            r is Ok ==> r->Ok_0.wf() && r->Ok_0@ == (WatchState {
                path: None,
                dir: None,
                pending: Seq::empty(),
            }),
            r is Err ==> r->Err_0 is Open,
    {
        match open_watcher(delay_ms) {
            Ok((watcher, rx)) => {
                let w = ConfigWatcher { watcher, rx, path: None, dir: None, pending: Vec::new() };
                assert(w@.pending =~= Seq::empty());
                Ok(w)
            },
            Err(e) => Err(WatchError::Open(e)),
        }
    }

    /// The file that the guard follows.
    pub fn path(&self) -> (r: Option<&String>)
        ensures
            r is Some == self@.path is Some,
            r is Some ==> r->0@ == self@.path->0,
    {
        self.path.as_ref()
    }

    /// Whether the directory of the followed file is under watch; false after
    /// a failed watch, until the path is set again.
    pub fn is_watching(&self) -> (r: bool)
        ensures
            r == self@.dir is Some,
    {
        self.dir.is_some()
    }

    /// Whether an event reports a change of the file that the guard follows.
    pub fn is_change(&self, event: &RawEvent) -> (r: bool)
        ensures
            r == is_change_of(*event, self@.path),
    {
        match (event, &self.path) {
            (RawEvent::Created(p), Some(w)) => paths_equal(p.as_str(), w.as_str()),
            (RawEvent::Written(p), Some(w)) => paths_equal(p.as_str(), w.as_str()),
            _ => false,
        }
    }

    /// Points the guard at another file. Setting the path it already follows
    /// changes nothing. Otherwise the previous directory is released, the
    /// new file's directory is watched, and changes pending for the previous
    /// file are dropped. The new path is kept even where a watch call fails,
    /// so that setting it again retries; only a path without a directory is
    /// refused outright. The result is the one `retarget_result` gives for
    /// the release and the watch.
    pub fn change_file(&mut self, path: &str) -> (r: Result<(), WatchError>)
        requires
            old(self).wf(),
        ensures
            final(self).wf(),
            is_current(old(self)@, path@) ==> r is Ok && *final(self) == *old(self),
            !is_current(old(self)@, path@) && parent_of(path@) is None ==> (r matches Err(
                WatchError::NoParent,
            )) && *final(self) == *old(self),
            !is_current(old(self)@, path@) && parent_of(path@) is Some ==> {
                &&& final(self)@.path == Some(path@)
                &&& final(self)@.pending.len() == 0
                &&& !(r matches Err(WatchError::NoParent))
                &&& !(r matches Err(WatchError::Open(_)))
                &&& r is Ok ==> final(self)@.dir == parent_of(path@)
                &&& final(self)@.dir is None ==> r is Err
                &&& (r matches Err(WatchError::Watch(_))) ==> final(self)@.dir is None
                &&& (r matches Err(WatchError::Unwatch(_))) ==> old(self)@.dir is Some
                &&& old(self)@.dir is None ==> (r is Ok <==> final(self)@.dir is Some)
            },
    {
        if let Some(current) = &self.path {
            if paths_equal(current.as_str(), path) {
                return Ok(());
            }
        }
        let parent = match parent_dir(path) {
            Some(d) => d,
            None => return Err(WatchError::NoParent),
        };
        let mut released: Result<(), WatchError> = Ok(());
        if let Some(previous) = &self.dir {
            if let Err(e) = unwatch_dir(&mut self.watcher, previous.as_str()) {
                released = Err(WatchError::Unwatch(e));
            }
        }
        self.dir = None;
        self.pending = Vec::new();
        self.path = Some(path.to_owned());
        let watched = watch_dir(&mut self.watcher, parent.as_str());
        if watched.is_ok() {
            self.dir = Some(parent);
        }
        assert(self@.pending =~= Seq::empty());
        retarget_result(released, watched)
    }

    /// Takes in a batch of the watcher's events: each creation or write of
    /// the followed file is queued until it is handed out; all else is
    /// dropped.
    pub fn note_events(&mut self, events: &Vec<RawEvent>)
        requires
            old(self).wf(),
        ensures
            final(self).wf(),
            final(self)@ == after_events(old(self)@, events@),
    {
        let ghost start = self@;
        let mut i: usize = 0;
        while i < events.len()
            invariant
                i <= events.len(),
                self.wf(),
                self@ == after_events(start, events@.take(i as int)),
                start.path == self@.path,
            decreases events.len() - i,
        {
            let ghost before = self@.pending;
            let ghost e = events@[i as int];
            assert(events@.take(i + 1).drop_last() =~= events@.take(i as int));
            assert(events@.take(i + 1).last() == e);
            if self.is_change(&events[i]) {
                match &events[i] {
                    RawEvent::Created(p) => self.pending.push(p.clone()),
                    RawEvent::Written(p) => self.pending.push(p.clone()),
                    RawEvent::Other => {},
                }
                assert(self@.pending =~= before.push(event_path(e)));
            } else {
                assert(self@.pending =~= before);
            }
            assert(self@.pending =~= start.pending + changes_in(events@.take(i + 1), start.path));
            i += 1;
        }
        assert(events@.take(events.len() as int) =~= events@);
    }

    /// Hands out the oldest pending change of the followed file, if any.
    pub fn take_change(&mut self) -> (r: Option<String>)
        requires
            old(self).wf(),
        ensures
            final(self).wf(),
            opt_view(r) == next_change(old(self)@),
            final(self)@ == after_take(old(self)@),
    {
        if self.pending.len() == 0 {
            return None;
        }
        let r = self.pending.remove(0);
        assert(self@.pending =~= old(self)@.pending.drop_first());
        Some(r)
    }

    /// Hands out every pending change of the followed file, oldest first,
    /// and leaves none pending.
    pub fn take_all(&mut self) -> (r: Vec<String>)
        requires
            old(self).wf(),
        ensures
            final(self).wf(),
            r@.map_values(|p: String| p@) == old(self)@.pending,
            final(self)@ == (WatchState { pending: Seq::empty(), ..old(self)@ }),
    {
        let mut r: Vec<String> = Vec::new();
        std::mem::swap(&mut r, &mut self.pending);
        assert(self@.pending =~= Seq::empty());
        r
    }

    /// Drains what the watcher has buffered without waiting, queues each
    /// creation or write of the followed file, and hands out the oldest
    /// queued change. Each such event is handed out by exactly one call.
    pub fn check_events(&mut self) -> (r: Option<String>)
        requires
            old(self).wf(),
        ensures
            final(self).wf(),
            exists|batch: Seq<RawEvent>|
                {
                    &&& opt_view(r) == next_change(#[trigger] after_events(old(self)@, batch))
                    &&& final(self)@ == after_take(after_events(old(self)@, batch))
                },
    {
        let events = drain_events(&self.rx);
        self.note_events(&events);
        self.take_change()
    }

    /// Drains what the watcher has buffered without waiting, and hands out
    /// every change of the followed file now known, oldest first: the ones
    /// pending, then one for each creation or write in the drained batch.
    pub fn drain_changes(&mut self) -> (r: Vec<String>)
        requires
            old(self).wf(),
        ensures
            final(self).wf(),
            final(self)@ == (WatchState { pending: Seq::empty(), ..old(self)@ }),
            exists|batch: Seq<RawEvent>|
                r@.map_values(|p: String| p@) == #[trigger] after_events(old(self)@, batch).pending,
    {
        let events = drain_events(&self.rx);
        self.note_events(&events);
        self.take_all()
    }
}

/// Events that report no creation or write of the watched file (events for
/// other paths, other kinds of event) queue nothing.
pub proof fn lemma_unrelated_events_yield_nothing(s: WatchState, events: Seq<RawEvent>)
    requires
        forall|i: int| 0 <= i < events.len() ==> !#[trigger] is_change_of(events[i], s.path),
    ensures
        changes_in(events, s.path) == Seq::<Seq<char>>::empty(),
        after_events(s, events) == s,
        s.pending.len() == 0 ==> next_change(after_events(s, events)) is None,
    decreases events.len(),
{
    if events.len() > 0 {
        lemma_unrelated_events_yield_nothing(s, events.drop_last());
        assert(!is_change_of(events[events.len() - 1], s.path));
    }
    assert(s.pending + Seq::<Seq<char>>::empty() =~= s.pending);
}

/// Each creation or write of the watched file in a batch queues exactly one
/// change, naming the event's path, and the changes keep the batch's order:
/// one more event that is a change adds one change after the others, one
/// that is not adds none.
pub proof fn lemma_each_change_is_queued_once(s: WatchState, events: Seq<RawEvent>, e: RawEvent)
    ensures
        is_change_of(e, s.path) ==> changes_in(events.push(e), s.path) == changes_in(
            events,
            s.path,
        ).push(event_path(e)),
        !is_change_of(e, s.path) ==> changes_in(events.push(e), s.path) == changes_in(
            events,
            s.path,
        ),
        changes_in(events, s.path).len() <= events.len(),
    decreases events.len(),
{
    assert(events.push(e).drop_last() =~= events);
    if events.len() > 0 {
        lemma_each_change_is_queued_once(s, events.drop_last(), events.last());
    }
}

/// Polling hands out the queued changes one per call, oldest first: after
/// `n` polls of a state with `n` pending changes, the next poll gives
/// nothing.
pub proof fn lemma_polls_hand_out_each_change(s: WatchState, k: nat)
    requires
        k <= s.pending.len(),
    ensures
        take_n(s, k).pending == s.pending.skip(k as int),
        k < s.pending.len() ==> next_change(take_n(s, k)) == Some(s.pending[k as int]),
        k == s.pending.len() ==> next_change(take_n(s, k)) is None,
    decreases k,
{
    if k > 0 {
        lemma_polls_hand_out_each_change(s, (k - 1) as nat);
        assert(s.pending.skip(k - 1).drop_first() =~= s.pending.skip(k as int));
    } else {
        assert(s.pending.skip(0) =~= s.pending);
    }
}

/// The state after `k` polls that drained no new events.
pub open spec fn take_n(s: WatchState, k: nat) -> WatchState
    decreases k,
{
    if k == 0 {
        s
    } else {
        after_take(take_n(s, (k - 1) as nat))
    }
}

} // verus!
