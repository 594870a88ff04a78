//! The three watched files of an overlay (splits, auto splitter, layout),
//! polled once per frame in that order, and pointed at new files when the
//! settings change.

use vstd::prelude::*;
use crate::paths::parent_of;
use crate::watcher::{after_events, is_current, ConfigWatcher, RawEvent, WatchError, WatchState};

verus! {

/// One of the watched files.
#[derive(Clone, Copy, Debug, PartialEq, Eq, Structural)]
pub enum Slot {
    Splits,
    AutoSplitter,
    Layout,
}

/// A file to load again, and the slot it is loaded into.
pub struct Reload {
    pub slot: Slot,
    pub path: String,
}

/// What became of a new path setting for a slot.
pub enum SettingChange {
    /// The slot already follows that path.
    Unchanged,
    /// The slot now follows the path under a working watch: load it now.
    Reload(Reload),
    /// A watch call failed, or the path has no directory (the slot then
    /// keeps its old path): nothing is loaded.
    Failed(Slot, WatchError),
}

pub open spec fn reload_view(r: Reload) -> (Slot, Seq<char>) {
    (r.slot, r.path@)
}

/// The reloads for one slot, one for each change that its guard handed out.
pub open spec fn slot_steps(slot: Slot, changes: Seq<Seq<char>>) -> Seq<(Slot, Seq<char>)> {
    changes.map_values(|p: Seq<char>| (slot, p))
}

/// The reloads of one frame, in the fixed order of the slots.
pub open spec fn frame_plan(
    splits: Seq<Seq<char>>,
    autosplitter: Seq<Seq<char>>,
    layout: Seq<Seq<char>>,
) -> Seq<(Slot, Seq<char>)> {
    slot_steps(Slot::Splits, splits) + slot_steps(Slot::AutoSplitter, autosplitter) + slot_steps(
        Slot::Layout,
        layout,
    )
}

pub open spec fn strings_view(v: Seq<String>) -> Seq<Seq<char>> {
    v.map_values(|p: String| p@)
}

/// The place of a slot in the order in which a frame polls them.
pub open spec fn slot_rank(slot: Slot) -> int {
    match slot {
        Slot::Splits => 0,
        Slot::AutoSplitter => 1,
        Slot::Layout => 2,
    }
}

/// Within a frame the reloads follow the fixed order of the slots, and each
/// change that a slot's guard handed out gives exactly one reload of that
/// slot, from that change's path, in the order of the changes.
pub proof fn lemma_frame_reloads_each_change_once(
    splits: Seq<Seq<char>>,
    autosplitter: Seq<Seq<char>>,
    layout: Seq<Seq<char>>,
)
    ensures
        ({
            let plan = frame_plan(splits, autosplitter, layout);
            let x = splits.len() as int;
            let y = autosplitter.len() as int;
            &&& plan.len() == splits.len() + autosplitter.len() + layout.len()
            &&& forall|i: int| 0 <= i < x ==> #[trigger] plan[i] == (Slot::Splits, splits[i])
            &&& forall|i: int|
                0 <= i < y ==> #[trigger] plan[x + i] == (Slot::AutoSplitter, autosplitter[i])
            &&& forall|i: int|
                0 <= i < layout.len() ==> #[trigger] plan[x + y + i] == (Slot::Layout, layout[i])
            &&& forall|i: int, j: int|
                0 <= i < j < plan.len() ==> slot_rank(#[trigger] plan[i].0) <= slot_rank(
                    #[trigger] plan[j].0,
                )
        }),
{
    let xs = slot_steps(Slot::Splits, splits);
    let ys = slot_steps(Slot::AutoSplitter, autosplitter);
    let zs = slot_steps(Slot::Layout, layout);
    let plan = frame_plan(splits, autosplitter, layout);
    let x = splits.len() as int;
    let y = autosplitter.len() as int;
    assert(plan == xs + ys + zs);
    assert forall|i: int| 0 <= i < plan.len() implies (i < x ==> plan[i] == xs[i]) && (x <= i < x
        + y ==> plan[i] == ys[i - x]) && (x + y <= i ==> plan[i] == zs[i - x - y]) by {}
    assert forall|i: int| 0 <= i < plan.len() implies slot_rank(#[trigger] plan[i].0) == (if i
        < x {
        0int
    } else if i < x + y {
        1int
    } else {
        2int
    }) by {}
    assert forall|i: int| 0 <= i < y implies #[trigger] plan[x + i] == (
        Slot::AutoSplitter,
        autosplitter[i],
    ) by {
        assert(plan[x + i] == ys[i]);
    }
    assert forall|i: int| 0 <= i < layout.len() implies #[trigger] plan[x + y + i] == (
        Slot::Layout,
        layout[i],
    ) by {
        assert(plan[x + y + i] == zs[i]);
    }
}

/// Appends one reload of `slot` for each path, in order.
fn push_reloads(r: &mut Vec<Reload>, slot: Slot, paths: &Vec<String>)
    ensures
        final(r)@.map_values(|x: Reload| reload_view(x)) == old(r)@.map_values(
            |x: Reload| reload_view(x),
        ) + slot_steps(slot, strings_view(paths@)),
{
    let ghost start = r@.map_values(|x: Reload| reload_view(x));
    let mut i: usize = 0;
    while i < paths.len()
        invariant
            i <= paths.len(),
            r@.map_values(|x: Reload| reload_view(x)) =~= start + slot_steps(
                slot,
                strings_view(paths@.take(i as int)),
            ),
        decreases paths.len() - i,
    {
        let ghost before = r@;
        let p = paths[i].clone();
        r.push(Reload { slot, path: p });
        assert(paths@.take(i + 1) =~= paths@.take(i as int).push(paths@[i as int]));
        assert(r@.map_values(|x: Reload| reload_view(x)) =~= before.map_values(
            |x: Reload| reload_view(x),
        ).push((slot, paths@[i as int]@)));
        assert(strings_view(paths@.take(i + 1)) =~= strings_view(paths@.take(i as int)).push(
            paths@[i as int]@,
        ));
        assert(slot_steps(slot, strings_view(paths@.take(i + 1))) =~= slot_steps(
            slot,
            strings_view(paths@.take(i as int)),
        ).push((slot, paths@[i as int]@)));
        i += 1;
    }
    assert(paths@.take(paths.len() as int) =~= paths@);
}

/// The reloads of one frame, given the changes that each slot's guard
/// handed out.
pub fn plan_reloads(splits: Vec<String>, autosplitter: Vec<String>, layout: Vec<String>) -> (r:
    Vec<Reload>)
    ensures
        r@.map_values(|x: Reload| reload_view(x)) == frame_plan(
            strings_view(splits@),
            strings_view(autosplitter@),
            strings_view(layout@),
        ),
{
    let mut r: Vec<Reload> = Vec::new();
    assert(r@.map_values(|x: Reload| reload_view(x)) =~= Seq::empty());
    push_reloads(&mut r, Slot::Splits, &splits);
    push_reloads(&mut r, Slot::AutoSplitter, &autosplitter);
    push_reloads(&mut r, Slot::Layout, &layout);
    assert(Seq::<(Slot, Seq<char>)>::empty() + slot_steps(Slot::Splits, strings_view(splits@))
        =~= slot_steps(Slot::Splits, strings_view(splits@)));
    r
}

/// What applying the path setting `setting` to the guard of `slot` does:
/// the path it follows already changes nothing; a path without a directory
/// is refused and changes nothing; any other path is followed from now on,
/// with a reload of it asked for exactly where retargeting succeeded.
pub open spec fn setting_applied(
    before: WatchState,
    after: WatchState,
    slot: Slot,
    setting: Seq<char>,
    r: SettingChange,
) -> bool {
    if is_current(before, setting) {
        r is Unchanged && after == before
    } else if parent_of(setting) is None {
        (r matches SettingChange::Failed(s, WatchError::NoParent) && s == slot) && after == before
    } else {
        &&& after.path == Some(setting)
        &&& after.pending.len() == 0
        &&& !(r is Unchanged)
        &&& !(r matches SettingChange::Failed(_, WatchError::NoParent))
        &&& !(r matches SettingChange::Failed(_, WatchError::Open(_)))
        &&& r is Reload ==> r->Reload_0.slot == slot && r->Reload_0.path@ == setting
            && after.dir == parent_of(setting)
        &&& r is Failed ==> r->Failed_0 == slot
        &&& after.dir is None ==> r is Failed
        &&& before.dir is None ==> (r is Reload <==> after.dir is Some)
    }
}

/// What an absent or present setting for `slot` does to its guard.
pub open spec fn maybe_applied(
    before: WatchState,
    after: WatchState,
    slot: Slot,
    setting: Option<Seq<char>>,
    r: SettingChange,
) -> bool {
    match setting {
        Some(p) => setting_applied(before, after, slot, p, r),
        None => r is Unchanged && after == before,
    }
}

pub open spec fn opt_str_view(o: Option<&str>) -> Option<Seq<char>> {
    match o {
        Some(s) => Some(s@),
        None => None,
    }
}

/// What a retarget of the guard of `slot` to `setting` asks for: a reload of
/// the file where it succeeded, the failure otherwise.
pub fn setting_change(slot: Slot, setting: &str, retarget: Result<(), WatchError>) -> (r:
    SettingChange)
    ensures
        retarget is Ok ==> r is Reload && r->Reload_0.slot == slot && r->Reload_0.path@ == setting@,
        retarget is Err ==> (r matches SettingChange::Failed(s, _) && s == slot) && r->Failed_1
            == retarget->Err_0,
{
    match retarget {
        Ok(()) => SettingChange::Reload(Reload { slot, path: setting.to_owned() }),
        Err(e) => SettingChange::Failed(slot, e),
    }
}

impl ConfigWatcher {
    /// Applies a path setting to this guard, which serves `slot`: a path
    /// other than the followed one is watched, and a reload of it is asked
    /// for only where the watch was set up.
    pub fn apply_setting(&mut self, slot: Slot, setting: &str) -> (r: SettingChange)
        requires
            old(self).wf(),
        ensures
            final(self).wf(),
            setting_applied(old(self)@, final(self)@, slot, setting@, r),
            is_current(old(self)@, setting@) ==> *final(self) == *old(self),
    {
        if let Some(current) = self.path() {
            if crate::paths::paths_equal(current.as_str(), setting) {
                return SettingChange::Unchanged;
            }
        }
        let retarget = self.change_file(setting);
        setting_change(slot, setting, retarget)
    }
}

/// The guards of the three slots.
pub struct Watchers {
    splits: ConfigWatcher,
    autosplitter: ConfigWatcher,
    layout: ConfigWatcher,
}

impl Watchers {
    /// The state of the guard that serves `slot`.
    pub closed spec fn slot(&self, slot: Slot) -> WatchState {
        match slot {
            Slot::Splits => self.splits@,
            Slot::AutoSplitter => self.autosplitter@,
            Slot::Layout => self.layout@,
        }
    }

    pub closed spec fn wf(&self) -> bool {
        &&& self.splits.wf()
        &&& self.autosplitter.wf()
        &&& self.layout.wf()
    }

    /// Three guards that follow no file yet.
    pub fn new(delay_ms: u64) -> (r: Result<Watchers, WatchError>)
        ensures
            r is Ok ==> r->Ok_0.wf() && forall|s: Slot|
                #[trigger] r->Ok_0.slot(s) == (WatchState { path: None, dir: None, pending: Seq::empty() }),
    {
        let splits = ConfigWatcher::new(delay_ms)?;
        let autosplitter = ConfigWatcher::new(delay_ms)?;
        let layout = ConfigWatcher::new(delay_ms)?;
        Ok(Watchers { splits, autosplitter, layout })
    }

    /// The path that the guard of `slot` follows.
    pub fn path(&self, slot: Slot) -> (r: Option<&String>)
        ensures
            r is Some == self.slot(slot).path is Some,
            r is Some ==> r->0@ == self.slot(slot).path->0,
    {
        match slot {
            Slot::Splits => self.splits.path(),
            Slot::AutoSplitter => self.autosplitter.path(),
            Slot::Layout => self.layout.path(),
        }
    }

    /// Whether the directory of the file of `slot` is under watch.
    pub fn is_watching(&self, slot: Slot) -> (r: bool)
        ensures
            r == self.slot(slot).dir is Some,
    {
        match slot {
            Slot::Splits => self.splits.is_watching(),
            Slot::AutoSplitter => self.autosplitter.is_watching(),
            Slot::Layout => self.layout.is_watching(),
        }
    }

    /// Applies a path setting to the guard of `slot`; the other guards are
    /// left as they are.
    pub fn apply_setting(&mut self, slot: Slot, setting: &str) -> (r: SettingChange)
        requires
            old(self).wf(),
        ensures
            final(self).wf(),
            forall|s: Slot| s != slot ==> #[trigger] final(self).slot(s) == old(self).slot(s),
            setting_applied(old(self).slot(slot), final(self).slot(slot), slot, setting@, r),
    {
        match slot {
            Slot::Splits => self.splits.apply_setting(slot, setting),
            Slot::AutoSplitter => self.autosplitter.apply_setting(slot, setting),
            Slot::Layout => self.layout.apply_setting(slot, setting),
        }
    }

    /// Applies the path settings of the three slots, in the order splits,
    /// auto splitter, layout; an absent setting leaves its slot as it is.
    /// The changes come back in that order, one for each slot.
    pub fn apply_settings(
        &mut self,
        splits: Option<&str>,
        autosplitter: Option<&str>,
        layout: Option<&str>,
    ) -> (r: Vec<SettingChange>)
        requires
            old(self).wf(),
        ensures
            final(self).wf(),
            r.len() == 3,
            maybe_applied(
                old(self).slot(Slot::Splits),
                final(self).slot(Slot::Splits),
                Slot::Splits,
                opt_str_view(splits),
                r[0],
            ),
            maybe_applied(
                old(self).slot(Slot::AutoSplitter),
                final(self).slot(Slot::AutoSplitter),
                Slot::AutoSplitter,
                opt_str_view(autosplitter),
                r[1],
            ),
            maybe_applied(
                old(self).slot(Slot::Layout),
                final(self).slot(Slot::Layout),
                Slot::Layout,
                opt_str_view(layout),
                r[2],
            ),
    {
        let mut r: Vec<SettingChange> = Vec::new();
        let first = match splits {
            Some(p) => self.apply_setting(Slot::Splits, p),
            None => SettingChange::Unchanged,
        };
        r.push(first);
        let second = match autosplitter {
            Some(p) => self.apply_setting(Slot::AutoSplitter, p),
            None => SettingChange::Unchanged,
        };
        r.push(second);
        let third = match layout {
            Some(p) => self.apply_setting(Slot::Layout, p),
            None => SettingChange::Unchanged,
        };
        r.push(third);
        r
    }

    /// Polls the three guards, in the order splits, auto splitter, layout,
    /// and lists the files to load again: for each slot, one reload for each
    /// change of its file, the pending ones first, then those of the events
    /// that its watcher had buffered. No change is left pending.
    pub fn poll_all(&mut self) -> (r: Vec<Reload>)
        requires
            old(self).wf(),
        ensures
            final(self).wf(),
            forall|s: Slot| #[trigger] final(self).slot(s) == (WatchState {
                pending: Seq::empty(),
                ..old(self).slot(s)
            }),
            exists|a: Seq<RawEvent>, b: Seq<RawEvent>, c: Seq<RawEvent>|
                r@.map_values(|x: Reload| reload_view(x)) == #[trigger] frame_plan(
                    after_events(old(self).slot(Slot::Splits), a).pending,
                    after_events(old(self).slot(Slot::AutoSplitter), b).pending,
                    after_events(old(self).slot(Slot::Layout), c).pending,
                ),
    {
        let a = self.splits.drain_changes();
        let b = self.autosplitter.drain_changes();
        let c = self.layout.drain_changes();
        let ghost (sa, sb, sc) = (strings_view(a@), strings_view(b@), strings_view(c@));
        let r = plan_reloads(a, b, c);
        assert(exists|ba: Seq<RawEvent>| sa == #[trigger] after_events(old(self).slot(Slot::Splits), ba).pending);
        assert(exists|bb: Seq<RawEvent>| sb == #[trigger] after_events(old(self).slot(Slot::AutoSplitter), bb).pending);
        assert(exists|bc: Seq<RawEvent>| sc == #[trigger] after_events(old(self).slot(Slot::Layout), bc).pending);
        let ghost ba = choose|ba: Seq<RawEvent>| sa == #[trigger] after_events(old(self).slot(Slot::Splits), ba).pending;
        let ghost bb = choose|bb: Seq<RawEvent>| sb == #[trigger] after_events(old(self).slot(Slot::AutoSplitter), bb).pending;
        let ghost bc = choose|bc: Seq<RawEvent>| sc == #[trigger] after_events(old(self).slot(Slot::Layout), bc).pending;
        assert(r@.map_values(|x: Reload| reload_view(x)) == frame_plan(
            after_events(old(self).slot(Slot::Splits), ba).pending,
            after_events(old(self).slot(Slot::AutoSplitter), bb).pending,
            after_events(old(self).slot(Slot::Layout), bc).pending,
        ));
        r
    }
}

} // verus!
