//! Per-guild player state: volume, mute, pitch and filters, and the store
//! that keeps one record per guild.
//!
//! Remote changes follow a two-phase discipline: the caller first asks the
//! remote service for a change and commits it here only once the service has
//! acknowledged it, so that a failed request leaves the local record as it was.

use std::collections::HashMap;

use vstd::prelude::*;

use crate::filter::{FilterSet, ONE_BITS};

verus! {

/// The lowest audible volume, in percent.
pub const MIN_VOLUME: u16 = 1;

/// The highest volume, in percent.
pub const MAX_VOLUME: u16 = 1000;

/// The volume of a fresh player, in percent.
pub const DEFAULT_VOLUME: u16 = 100;

/// The state of one guild's player. The volume is always an audible percent
/// in `MIN_VOLUME..=MAX_VOLUME`; being muted is a separate flag, so a muted
/// player keeps the volume it returns to.
#[derive(Clone, Copy, Debug, PartialEq, Eq, Structural)]
pub struct PlayerState {
    pub volume: u16,
    pub muted: bool,
    /// Bit pattern of the pitch multiplier last set.
    pub pitch: u64,
    pub filters: FilterSet,
}

impl PlayerState {
    /// The volume is in range.
    pub open spec fn wf(self) -> bool {
        MIN_VOLUME <= self.volume <= MAX_VOLUME
    }

    /// The state of a player that nothing has changed yet.
    pub open spec fn spec_new() -> PlayerState {
        PlayerState {
            volume: DEFAULT_VOLUME,
            muted: false,
            pitch: ONE_BITS,
            filters: FilterSet::spec_empty(),
        }
    }

    /// The state of a player that nothing has changed yet.
    pub fn new() -> (r: PlayerState)
        ensures
            r == PlayerState::spec_new(),
            r.wf(),
    {
        PlayerState {
            volume: DEFAULT_VOLUME,
            muted: false,
            pitch: ONE_BITS,
            filters: FilterSet::empty(),
        }
    }

    /// The volume in percent.
    pub fn volume(&self) -> (r: u16)
        ensures
            r == self.volume,
    {
        self.volume
    }

    /// Records a new volume.
    pub fn set_volume(&mut self, volume: u16)
        requires
            MIN_VOLUME <= volume <= MAX_VOLUME,
        ensures
            *final(self) == (PlayerState { volume, ..*old(self) }),
    {
        self.volume = volume;
    }

    /// Records whether the player is muted.
    pub fn set_muted(&mut self, muted: bool)
        ensures
            *final(self) == (PlayerState { muted, ..*old(self) }),
    {
        self.muted = muted;
    }

    /// Records the pitch multiplier last set.
    pub fn set_pitch(&mut self, pitch: u64)
        ensures
            *final(self) == (PlayerState { pitch, ..*old(self) }),
    {
        self.pitch = pitch;
    }

    /// Records the filter set last sent to the player.
    pub fn set_filters(&mut self, filters: FilterSet)
        ensures
            *final(self) == (PlayerState { filters, ..*old(self) }),
    {
        self.filters = filters;
    }

    /// The state after the volume moved by `delta`, or the same state where
    /// the result would leave the volume range.
    pub open spec fn spec_adjusted(self, delta: int) -> PlayerState {
        if MIN_VOLUME <= self.volume + delta <= MAX_VOLUME {
            PlayerState { volume: (self.volume + delta) as u16, ..self }
        } else {
            self
        }
    }

    /// Moves the volume by `delta` where the result stays in range, and says
    /// whether it did.
    pub fn adjust_volume(&mut self, delta: i16) -> (r: bool)
        ensures
            *final(self) == old(self).spec_adjusted(delta as int),
            r == (MIN_VOLUME <= old(self).volume + delta <= MAX_VOLUME),
    {
        let v: i32 = self.volume as i32 + delta as i32;
        if MIN_VOLUME as i32 <= v && v <= MAX_VOLUME as i32 {
            self.volume = v as u16;
            true
        } else {
            false
        }
    }

    /// Commits a volume change after the remote service answered: the change
    /// where it was acknowledged, nothing where it was not.
    pub fn commit(&mut self, change: VolumeChange, acknowledged: bool)
        requires
            old(self).wf(),
            change.wf(),
        ensures
            acknowledged ==> *final(self) == change.spec_committed(*old(self)),
            !acknowledged ==> *final(self) == *old(self),
            final(self).wf(),
    {
        if acknowledged {
            match change {
                VolumeChange::SetVolume(v) => self.set_volume(v),
                VolumeChange::Mute => self.set_muted(true),
            }
        }
    }
}

/// A change of a player's loudness, decided before the remote service is
/// asked for it: either a new audible volume (asked of the audio player) or
/// muting (asked of the gateway's voice-state API).
#[derive(Clone, Copy, Debug, PartialEq, Eq, Structural)]
pub enum VolumeChange {
    SetVolume(u16),
    Mute,
}

impl VolumeChange {
    /// A new volume is in range.
    pub open spec fn wf(self) -> bool {
        match self {
            VolumeChange::SetVolume(v) => MIN_VOLUME <= v <= MAX_VOLUME,
            VolumeChange::Mute => true,
        }
    }

    /// The state once this change is committed.
    pub open spec fn spec_committed(self, state: PlayerState) -> PlayerState {
        match self {
            VolumeChange::SetVolume(v) => PlayerState { volume: v, ..state },
            VolumeChange::Mute => PlayerState { muted: true, ..state },
        }
    }
}

/// The command that lowers the volume by a percent in `1..=1000` (10 where
/// not given).
#[derive(Clone, Copy, Debug, PartialEq, Eq, Structural)]
pub struct Down {
    pub percent: Option<i64>,
}

impl Down {
    /// The percent is in the range the command accepts.
    pub open spec fn wf(self) -> bool {
        match self.percent {
            Some(p) => 1 <= p <= 1000,
            None => true,
        }
    }

    /// How many percent the volume goes down.
    pub open spec fn spec_decrement(self) -> int {
        match self.percent {
            Some(p) => p as int,
            None => 10,
        }
    }

    /// The change this command makes to a player at `old_percent`: the lower
    /// volume where it stays above zero, muting otherwise.
    pub open spec fn spec_plan(self, old_percent: u16) -> VolumeChange {
        if old_percent - self.spec_decrement() > 0 {
            VolumeChange::SetVolume((old_percent - self.spec_decrement()) as u16)
        } else {
            VolumeChange::Mute
        }
    }

    /// Decides the change for a player at `old_percent`.
    pub fn plan(&self, old_percent: u16) -> (r: VolumeChange)
        requires
            self.wf(),
        ensures
            r == self.spec_plan(old_percent),
            old_percent <= MAX_VOLUME ==> r.wf(),
    {
        let decrement: u16 = match self.percent {
            Some(p) => p as u16,
            None => 10,
        };
        if old_percent > decrement {
            VolumeChange::SetVolume(old_percent - decrement)
        } else {
            VolumeChange::Mute
        }
    }
}

/// Lowering the volume by at least what it is never stores a volume of zero
/// or below: the plan is to mute, muting leaves the stored volume audible, and
/// a refused mute leaves the state as it was.
pub proof fn lemma_down_to_nothing_mutes(down: Down, state: PlayerState)
    requires
        down.wf(),
        state.wf(),
        state.volume - down.spec_decrement() <= 0,
    ensures
        down.spec_plan(state.volume) == VolumeChange::Mute,
        down.spec_plan(state.volume).spec_committed(state).muted,
        down.spec_plan(state.volume).spec_committed(state).volume == state.volume,
        down.spec_plan(state.volume).spec_committed(state).wf(),
{
}

/// The sum of a sequence of volume steps.
pub open spec fn sum_of(deltas: Seq<int>) -> int
    decreases deltas.len(),
{
    if deltas.len() == 0 {
        0
    } else {
        sum_of(deltas.drop_last()) + deltas.last()
    }
}

/// The state after each step of `deltas` in turn, as [`PlayerState::adjust_volume`]
/// makes them.
pub open spec fn adjusted_by_all(state: PlayerState, deltas: Seq<int>) -> PlayerState
    decreases deltas.len(),
{
    if deltas.len() == 0 {
        state
    } else {
        adjusted_by_all(state, deltas.drop_last()).spec_adjusted(deltas.last())
    }
}

/// Writers that each move the volume by a step, taking their turns in
/// whatever order they arrive, lose no update: as long as every intermediate
/// volume stays in range, the volume ends at the start plus the sum of all
/// steps, and nothing else changes.
pub proof fn lemma_no_lost_updates(state: PlayerState, deltas: Seq<int>)
    requires
        forall|k: int|
            0 <= k <= deltas.len() ==> MIN_VOLUME <= #[trigger] (state.volume + sum_of(
                deltas.take(k),
            )) <= MAX_VOLUME,
    ensures
        adjusted_by_all(state, deltas) == (PlayerState {
            volume: (state.volume + sum_of(deltas)) as u16,
            ..state
        }),
    decreases deltas.len(),
{
    if deltas.len() == 0 {
        assert(deltas.take(0) =~= deltas);
    } else {
        let rest = deltas.drop_last();
        assert forall|k: int| 0 <= k <= rest.len() implies MIN_VOLUME <= #[trigger] (state.volume
            + sum_of(rest.take(k))) <= MAX_VOLUME by {
            assert(rest.take(k) =~= deltas.take(k));
            assert(state.volume + sum_of(deltas.take(k)) >= MIN_VOLUME);
        }
        lemma_no_lost_updates(state, rest);
        assert(deltas.take(deltas.len() as int) =~= deltas);
        assert(state.volume + sum_of(deltas.take(deltas.len() as int)) >= MIN_VOLUME);
    }
}

/// The player records of all guilds, keyed by guild id. A guild's record is
/// created on its first write and removed only when asked; reading a guild
/// without a record gives the fresh state.
pub struct PlayerStore {
    states: HashMap<u64, PlayerState>,
}

impl View for PlayerStore {
    type V = Map<u64, PlayerState>;

    closed spec fn view(&self) -> Map<u64, PlayerState> {
        self.states@
    }
}

impl PlayerStore {
    /// Every record is well formed.
    pub open spec fn wf(&self) -> bool {
        forall|g: u64| #[trigger] self@.contains_key(g) ==> self@[g].wf()
    }

    /// The state of `guild` as a reader sees it.
    pub open spec fn state_of(&self, guild: u64) -> PlayerState {
        if self@.contains_key(guild) {
            self@[guild]
        } else {
            PlayerState::spec_new()
        }
    }

    /// A store with no record.
    pub fn new() -> (r: PlayerStore)
        ensures
            r@ == Map::<u64, PlayerState>::empty(),
            r.wf(),
    {
        PlayerStore { states: HashMap::new() }
    }

    /// A snapshot of the state of `guild`.
    pub fn read(&self, guild: u64) -> (r: PlayerState)
        requires
            self.wf(),
        ensures
            r == self.state_of(guild),
            r.wf(),
    {
        broadcast use vstd::std_specs::hash::group_hash_axioms;

        match self.states.get(&guild) {
            Some(s) => *s,
            None => PlayerState::new(),
        }
    }

    /// Replaces the state of `guild`; no other guild is touched.
    pub fn write(&mut self, guild: u64, state: PlayerState)
        requires
            old(self).wf(),
            state.wf(),
        ensures
            final(self)@ == old(self)@.insert(guild, state),
            final(self).wf(),
    {
        broadcast use vstd::std_specs::hash::group_hash_axioms;

        self.states.insert(guild, state);
        assert forall|g: u64| #[trigger] self@.contains_key(g) implies self@[g].wf() by {
            if g != guild {
                assert(old(self)@.contains_key(g));
            }
        }
    }

    /// Drops the record of `guild`, as when the bot leaves its voice channel.
    pub fn remove(&mut self, guild: u64)
        requires
            old(self).wf(),
        ensures
            final(self)@ == old(self)@.remove(guild),
            final(self).wf(),
    {
        broadcast use vstd::std_specs::hash::group_hash_axioms;

        self.states.remove(&guild);
        assert forall|g: u64| #[trigger] self@.contains_key(g) implies self@[g].wf() by {
            assert(old(self)@.contains_key(g));
        }
    }

    /// Moves the volume of `guild` by `delta` in one read-then-write step,
    /// where the result stays in range; says whether it did.
    pub fn adjust_volume(&mut self, guild: u64, delta: i16) -> (r: bool)
        requires
            old(self).wf(),
        ensures
            final(self)@ == old(self)@.insert(
                guild,
                old(self).state_of(guild).spec_adjusted(delta as int),
            ),
            r == (MIN_VOLUME <= old(self).state_of(guild).volume + delta <= MAX_VOLUME),
            final(self).wf(),
    {
        let mut state = self.read(guild);
        let r = state.adjust_volume(delta);
        self.write(guild, state);
        r
    }

    /// Commits a volume change of `guild` after the remote service answered:
    /// the change where it was acknowledged, nothing where it was not.
    pub fn commit(&mut self, guild: u64, change: VolumeChange, acknowledged: bool)
        requires
            old(self).wf(),
            change.wf(),
        ensures
            acknowledged ==> final(self)@ == old(self)@.insert(
                guild,
                change.spec_committed(old(self).state_of(guild)),
            ),
            !acknowledged ==> final(self)@ == old(self)@,
            final(self).wf(),
    {
        if acknowledged {
            let mut state = self.read(guild);
            state.commit(change, true);
            self.write(guild, state);
        }
    }
}

} // verus!
