use vstd::prelude::*;

use vstd::arithmetic::div_mod::lemma_div_is_ordered_by_denominator;

use crate::util::{bpm_to_ns, period_ns, NS_PER_MINUTE};

verus! {

/// A command that a caller sends to the engine.
#[derive(Debug, Clone, Copy, PartialEq, Eq, Structural)]
pub enum AudioMessage {
    Play,
    Pause,
    Toggle,
    SetBpm(u16),
    SetVolume(u16),
}

/// What travels on the control channel: a caller's command, or the handle's
/// own request that the scheduler stop.
#[derive(Debug, Clone, Copy, PartialEq, Eq, Structural)]
pub enum InternalAudioMessage {
    Shutdown,
    External(AudioMessage),
}

/// How long the active flag stays open at each beat onset, in nanoseconds.
pub const CLICK_NS: u128 = 50_000_000;

/// The tempo the scheduler starts with.
pub const START_BPM: u128 = 55;

/// The scheduler's local state as a mathematical value.
pub struct SchedulerModel {
    pub running: bool,
    pub paused: bool,
    pub beat_ns: int,
}

/// The state a fresh scheduler starts in.
pub open spec fn initial_model() -> SchedulerModel {
    SchedulerModel { running: true, paused: false, beat_ns: period_ns(START_BPM as int) }
}

/// The effect of one command on the scheduler's state. A tempo of zero is
/// not a tempo and leaves the beat period as it was.
pub open spec fn step(s: SchedulerModel, m: InternalAudioMessage) -> SchedulerModel {
    match m {
        InternalAudioMessage::Shutdown => SchedulerModel { running: false, ..s },
        InternalAudioMessage::External(msg) => match msg {
            AudioMessage::Play => SchedulerModel { paused: false, ..s },
            AudioMessage::Pause => SchedulerModel { paused: true, ..s },
            AudioMessage::Toggle => SchedulerModel { paused: !s.paused, ..s },
            AudioMessage::SetBpm(b) => if b > 0 {
                SchedulerModel { beat_ns: period_ns(b as int), ..s }
            } else {
                s
            },
            AudioMessage::SetVolume(_) => s,
        },
    }
}

/// The commands of `msgs` applied in arrival order.
pub open spec fn apply_all(s: SchedulerModel, msgs: Seq<InternalAudioMessage>) -> SchedulerModel
    decreases msgs.len(),
{
    if msgs.len() == 0 {
        s
    } else {
        step(apply_all(s, msgs.drop_last()), msgs.last())
    }
}

/// The volume of the last `SetVolume` among `msgs`, if there is one.
pub open spec fn last_volume(msgs: Seq<InternalAudioMessage>) -> Option<u16>
    decreases msgs.len(),
{
    if msgs.len() == 0 {
        None
    } else {
        match msgs.last() {
            InternalAudioMessage::External(AudioMessage::SetVolume(v)) => Some(v),
            _ => last_volume(msgs.drop_last()),
        }
    }
}

/// The state after one drained batch, applied in arrival order. A channel
/// whose senders are gone is an implicit shutdown after the batch that came
/// with the hang-up.
pub open spec fn after_batch(
    s: SchedulerModel,
    msgs: Seq<InternalAudioMessage>,
    connected: bool,
) -> SchedulerModel {
    if connected {
        apply_all(s, msgs)
    } else {
        SchedulerModel { running: false, ..apply_all(s, msgs) }
    }
}

/// The deadlines of one beat, in nanoseconds from its onset: when the active flag
/// clears, and when the next beat begins.
#[derive(Debug, Clone, Copy, PartialEq, Eq, Structural)]
pub struct BeatTiming {
    pub click_end_ns: u128,
    pub beat_end_ns: u128,
}

/// What the caller of one scheduler iteration does after the batch: store a
/// volume, clear the active flag at once, and time a beat.
#[derive(Debug, Clone, Copy, PartialEq, Eq, Structural)]
pub struct BeatActions {
    pub volume: Option<u16>,
    pub silence: bool,
    pub timing: Option<BeatTiming>,
}

/// A beat never ends before its click does.
pub open spec fn beat_end(beat_ns: int) -> int {
    if beat_ns > CLICK_NS as int {
        beat_ns
    } else {
        CLICK_NS as int
    }
}

/// Whether a state times a beat: it is running and not paused.
pub open spec fn sounding(s: SchedulerModel) -> bool {
    s.running && !s.paused
}

/// The actions owed after a batch drained at a beat onset from state `s`.
/// Only the last volume of the batch is stored. The active flag, set at the onset
/// unless `s` was paused, is cleared at once where no click follows (a pause
/// or a stop), and otherwise after the click.
pub open spec fn actions_of(
    s: SchedulerModel,
    msgs: Seq<InternalAudioMessage>,
    connected: bool,
) -> BeatActions {
    let e = after_batch(s, msgs, connected);
    BeatActions {
        volume: last_volume(msgs),
        silence: !s.paused && !sounding(e),
        timing: if sounding(e) {
            Some(BeatTiming { click_end_ns: CLICK_NS, beat_end_ns: beat_end(e.beat_ns) as u128 })
        } else {
            None
        },
    }
}

/// The values that one loop iteration stores into the active flag, in order: the
/// onset, the clearing after a pause or stop, and the clearing after the click.
pub open spec fn flag_writes(
    s: SchedulerModel,
    msgs: Seq<InternalAudioMessage>,
    connected: bool,
) -> Seq<bool> {
    let a = actions_of(s, msgs, connected);
    let onset: Seq<bool> = if !s.paused {
        seq![true]
    } else {
        seq![]
    };
    let clear_now: Seq<bool> = if a.silence {
        seq![false]
    } else {
        seq![]
    };
    let clear_after_click: Seq<bool> = if a.timing is Some {
        seq![false]
    } else {
        seq![]
    };
    onset + clear_now + clear_after_click
}

/// Whether a command resumes a paused scheduler.
pub open spec fn resumes(m: InternalAudioMessage) -> bool {
    m == InternalAudioMessage::External(AudioMessage::Play) || m
        == InternalAudioMessage::External(AudioMessage::Toggle)
}

/// Every loop iteration that writes the active flag leaves it clear, and an
/// iteration that begins paused never sets it: a pause silences the click
/// within the iteration that drains it, and the active flag stays clear while the
/// scheduler stays paused.
pub proof fn lemma_iteration_clears_flag(
    s: SchedulerModel,
    msgs: Seq<InternalAudioMessage>,
    connected: bool,
)
    ensures
        flag_writes(s, msgs, connected).len() > 0 ==> flag_writes(s, msgs, connected).last()
            == false,
        s.paused ==> forall|i: int|
            0 <= i < flag_writes(s, msgs, connected).len() ==> !flag_writes(
                s,
                msgs,
                connected,
            )[i],
{
}

/// A paused scheduler stays paused through any batch that holds neither a
/// `Play` nor a `Toggle`.
pub proof fn lemma_paused_until_resumed(
    s: SchedulerModel,
    msgs: Seq<InternalAudioMessage>,
    connected: bool,
)
    requires
        s.paused,
        forall|i: int| 0 <= i < msgs.len() ==> !resumes(#[trigger] msgs[i]),
    ensures
        after_batch(s, msgs, connected).paused,
    decreases msgs.len(),
{
    if msgs.len() > 0 {
        assert forall|i: int| 0 <= i < msgs.drop_last().len() implies !resumes(
            #[trigger] msgs.drop_last()[i],
        ) by {
            assert(msgs.drop_last()[i] == msgs[i]);
        }
        lemma_paused_until_resumed(s, msgs.drop_last(), true);
        assert(!resumes(msgs[msgs.len() - 1]));
    }
}

/// After a batch in which a `Pause` is followed by no `Play` and no `Toggle`,
/// the scheduler is paused.
pub proof fn lemma_pause_takes_hold(s: SchedulerModel, msgs: Seq<InternalAudioMessage>, i: int)
    requires
        0 <= i < msgs.len(),
        msgs[i] == InternalAudioMessage::External(AudioMessage::Pause),
        forall|j: int| i < j < msgs.len() ==> !resumes(#[trigger] msgs[j]),
    ensures
        apply_all(s, msgs).paused,
    decreases msgs.len(),
{
    if i < msgs.len() - 1 {
        let d = msgs.drop_last();
        assert forall|j: int| i < j < d.len() implies !resumes(#[trigger] d[j]) by {
            assert(d[j] == msgs[j]);
        }
        lemma_pause_takes_hold(s, d, i);
        assert(!resumes(msgs[msgs.len() - 1]));
    }
}

/// Once stopped, the scheduler is never started again by any batch.
pub proof fn lemma_stop_is_final(s: SchedulerModel, msgs: Seq<InternalAudioMessage>, connected: bool)
    requires
        !s.running,
    ensures
        !after_batch(s, msgs, connected).running,
    decreases msgs.len(),
{
    if msgs.len() > 0 {
        lemma_stop_is_final(s, msgs.drop_last(), true);
    }
}

/// A batch that holds a `Shutdown` stops the scheduler, whatever else it holds.
pub proof fn lemma_shutdown_stops(s: SchedulerModel, msgs: Seq<InternalAudioMessage>, i: int)
    requires
        0 <= i < msgs.len(),
        msgs[i] == InternalAudioMessage::Shutdown,
    ensures
        !apply_all(s, msgs).running,
    decreases msgs.len(),
{
    if i < msgs.len() - 1 {
        let d = msgs.drop_last();
        assert(d[i] == msgs[i]);
        lemma_shutdown_stops(s, d, i);
    }
}

/// After `SetBpm(b)`, a running scheduler times beats of `60_000_000_000 / b`
/// nanoseconds, for every tempo whose beat is at least as long as the click.
pub proof fn lemma_tempo_sets_period(s: SchedulerModel, b: u16)
    requires
        b > 0,
        period_ns(b as int) >= CLICK_NS as int,
        sounding(s),
    ensures
        actions_of(s, seq![InternalAudioMessage::External(AudioMessage::SetBpm(b))], true).timing
            == Some(
            BeatTiming { click_end_ns: CLICK_NS, beat_end_ns: period_ns(b as int) as u128 },
        ),
{
    let msgs = seq![InternalAudioMessage::External(AudioMessage::SetBpm(b))];
    assert(msgs.drop_last() =~= Seq::<InternalAudioMessage>::empty());
    assert(apply_all(s, msgs.drop_last()) == s);
    assert(msgs.last() == InternalAudioMessage::External(AudioMessage::SetBpm(b)));
    assert(apply_all(s, msgs).beat_ns == period_ns(b as int));
}

/// After a batch in which `SetVolume(v)` is followed by no other volume
/// command, the volume stored is `v`, whatever the scheduler's state and
/// tempo, and whether or not the channel hung up with that batch.
pub proof fn lemma_last_volume_is_stored(
    s: SchedulerModel,
    msgs: Seq<InternalAudioMessage>,
    i: int,
    v: u16,
)
    requires
        0 <= i < msgs.len(),
        msgs[i] == InternalAudioMessage::External(AudioMessage::SetVolume(v)),
        forall|j: int|
            i < j < msgs.len() ==> !(#[trigger] msgs[j] is External && msgs[j]->External_0 is SetVolume),
    ensures
        actions_of(s, msgs, true).volume == Some(v),
        actions_of(s, msgs, false).volume == Some(v),
    decreases msgs.len(),
{
    if i < msgs.len() - 1 {
        let d = msgs.drop_last();
        assert forall|j: int| i < j < d.len() implies !(#[trigger] d[j] is External
            && d[j]->External_0 is SetVolume) by {
            assert(d[j] == msgs[j]);
        }
        lemma_last_volume_is_stored(s, d, i, v);
        let m = msgs[msgs.len() - 1];
        assert(!(m is External && m->External_0 is SetVolume));
        assert(last_volume(msgs) == last_volume(d));
    }
}

/// The highest tempo whose beat is no shorter than the click.
pub const MAX_FULL_BEAT_BPM: u16 = 1200;

/// A beat at a tempo of at most 1200 bpm is at least as long as the click.
pub proof fn lemma_beat_outlasts_click(b: u16)
    requires
        1 <= b <= MAX_FULL_BEAT_BPM,
    ensures
        period_ns(b as int) >= CLICK_NS as int,
        beat_end(period_ns(b as int)) == period_ns(b as int),
{
    lemma_div_is_ordered_by_denominator(NS_PER_MINUTE as int, b as int, MAX_FULL_BEAT_BPM as int);
    assert(NS_PER_MINUTE as int / MAX_FULL_BEAT_BPM as int == CLICK_NS as int);
}

/// A tempo change takes effect at the next beat boundary, never in the beat
/// under way. Commands are drained only at beat onsets, so a `SetBpm(b)` sent
/// while a beat of tempo `b0` runs lies in the next onset's batch: the beat
/// under way, timed from the batch drained before it, lasts
/// `60_000_000_000 / b0`; the next beat and every later one with no further
/// command last `60_000_000_000 / b`. Both tempos are at most 1200 bpm, so
/// that no beat is shorter than the click.
pub proof fn lemma_tempo_change_at_next_beat(s: SchedulerModel, b0: u16, b: u16)
    requires
        sounding(s),
        s.beat_ns == period_ns(b0 as int),
        1 <= b0 <= MAX_FULL_BEAT_BPM,
        1 <= b <= MAX_FULL_BEAT_BPM,
    ensures
        actions_of(s, seq![], true).timing == Some(
            BeatTiming { click_end_ns: CLICK_NS, beat_end_ns: period_ns(b0 as int) as u128 },
        ),
        actions_of(
            after_batch(s, seq![], true),
            seq![InternalAudioMessage::External(AudioMessage::SetBpm(b))],
            true,
        ).timing == Some(
            BeatTiming { click_end_ns: CLICK_NS, beat_end_ns: period_ns(b as int) as u128 },
        ),
        forall|k: nat|
            #![trigger iterate_idle(after_batch(
                after_batch(s, seq![], true),
                seq![InternalAudioMessage::External(AudioMessage::SetBpm(b))],
                true,
            ), k)]
            actions_of(
                iterate_idle(
                    after_batch(
                        after_batch(s, seq![], true),
                        seq![InternalAudioMessage::External(AudioMessage::SetBpm(b))],
                        true,
                    ),
                    k,
                ),
                seq![],
                true,
            ).timing == Some(
                BeatTiming { click_end_ns: CLICK_NS, beat_end_ns: period_ns(b as int) as u128 },
            ),
{
    lemma_beat_outlasts_click(b0);
    lemma_beat_outlasts_click(b);
    let empty = Seq::<InternalAudioMessage>::empty();
    assert(seq![] =~= empty);
    assert(after_batch(s, empty, true) == s);
    lemma_tempo_sets_period(s, b);
    let n2 = after_batch(s, seq![InternalAudioMessage::External(AudioMessage::SetBpm(b))], true);
    let msgs = seq![InternalAudioMessage::External(AudioMessage::SetBpm(b))];
    assert(msgs.drop_last() =~= empty);
    assert(n2 == step(s, msgs.last()));
    assert forall|k: nat| #[trigger] iterate_idle(n2, k) == n2 by {
        lemma_idle_keeps_state(n2, k);
    }
}

/// The state after `k` beats whose batches were empty.
pub open spec fn iterate_idle(s: SchedulerModel, k: nat) -> SchedulerModel
    decreases k,
{
    if k == 0 {
        s
    } else {
        after_batch(iterate_idle(s, (k - 1) as nat), seq![], true)
    }
}

proof fn lemma_idle_keeps_state(s: SchedulerModel, k: nat)
    ensures
        iterate_idle(s, k) == s,
    decreases k,
{
    if k > 0 {
        lemma_idle_keeps_state(s, (k - 1) as nat);
        assert(apply_all(s, seq![]) == s);
    }
}

/// The scheduler thread's local state: whether it keeps looping, whether it
/// is paused, and the current beat period.
#[derive(Debug, Clone, Copy)]
pub struct Scheduler {
    running: bool,
    paused: bool,
    beat_ns: u128,
}

impl View for Scheduler {
    type V = SchedulerModel;

    closed spec fn view(&self) -> SchedulerModel {
        SchedulerModel { running: self.running, paused: self.paused, beat_ns: self.beat_ns as int }
    }
}

impl Scheduler {
    pub fn new() -> (r: Scheduler)
        ensures
            r@ == initial_model(),
    {
        Scheduler { running: true, paused: false, beat_ns: bpm_to_ns(START_BPM) }
    }

    pub fn is_running(&self) -> (r: bool)
        ensures
            r == self@.running,
    {
        self.running
    }

    pub fn is_paused(&self) -> (r: bool)
        ensures
            r == self@.paused,
    {
        self.paused
    }

    pub fn beat_ns(&self) -> (r: u128)
        ensures
            r == self@.beat_ns,
    {
        self.beat_ns
    }

    /// Applies one command.
    pub fn apply(&mut self, msg: InternalAudioMessage)
        ensures
            final(self)@ == step(old(self)@, msg),
    {
        match msg {
            InternalAudioMessage::Shutdown => self.running = false,
            InternalAudioMessage::External(m) => match m {
                AudioMessage::Play => self.paused = false,
                AudioMessage::Pause => self.paused = true,
                AudioMessage::Toggle => self.paused = !self.paused,
                AudioMessage::SetBpm(b) => {
                    if b > 0 {
                        self.beat_ns = bpm_to_ns(b as u128);
                    }
                },
                AudioMessage::SetVolume(_) => {},
            },
        }
    }

    /// Applies a batch drained at a beat onset, in arrival order, and says
    /// what the caller has to do before the next onset. `connected` is false
    /// when the channel's senders are gone: the batch is still applied, and
    /// the scheduler then stops as if a `Shutdown` had ended it.
    pub fn run_batch(&mut self, msgs: &Vec<InternalAudioMessage>, connected: bool) -> (r: BeatActions)
        ensures
            final(self)@ == after_batch(old(self)@, msgs@, connected),
            r == actions_of(old(self)@, msgs@, connected),
    {
        let was_paused = self.paused;
        let mut volume: Option<u16> = None;
        let mut i: usize = 0;
        while i < msgs.len()
            invariant
                i <= msgs@.len(),
                self@ == apply_all(old(self)@, msgs@.take(i as int)),
                volume == last_volume(msgs@.take(i as int)),
                was_paused == old(self)@.paused,
            decreases msgs@.len() - i,
        {
            let m = msgs[i];
            proof {
                assert(msgs@.take(i as int + 1).drop_last() =~= msgs@.take(i as int));
                assert(msgs@.take(i as int + 1).last() == m);
            }
            self.apply(m);
            if let InternalAudioMessage::External(AudioMessage::SetVolume(v)) = m {
                volume = Some(v);
            }
            i = i + 1;
        }
        assert(msgs@.take(msgs@.len() as int) =~= msgs@);
        if !connected {
            self.running = false;
        }
        let sounding = self.running && !self.paused;
        let timing = if sounding {
            let beat_end_ns = if self.beat_ns > CLICK_NS {
                self.beat_ns
            } else {
                CLICK_NS
            };
            Some(BeatTiming { click_end_ns: CLICK_NS, beat_end_ns })
        } else {
            None
        };
        BeatActions { volume, silence: !was_paused && !sounding, timing }
    }
}

} // verus!
