use std::sync::mpsc::channel;

use metronome::audio::{
    AudioMessage, BeatActions, BeatTiming, InternalAudioMessage, Scheduler, CLICK_NS,
};
use metronome::control::{absorb, batch_of, get_message, Lifecycle, Polled};
use metronome::synth::{advance_clock, sample_level};
use metronome::util::bpm_to_ns;

fn ext(m: AudioMessage) -> InternalAudioMessage {
    InternalAudioMessage::External(m)
}

/// Runs one scheduler iteration on a batch and returns the active flag writes it
/// makes, in order, together with its actions.
fn iteration(s: &mut Scheduler, msgs: Vec<InternalAudioMessage>) -> (Vec<bool>, BeatActions) {
    let mut writes = Vec::new();
    if !s.is_paused() {
        writes.push(true);
    }
    let a = s.run_batch(&msgs, true);
    if a.silence {
        writes.push(false);
    }
    if a.timing.is_some() {
        writes.push(false);
    }
    (writes, a)
}

#[test]
fn bpm_to_ns_exact_values() {
    assert_eq!(bpm_to_ns(120), 500_000_000);
    assert_eq!(bpm_to_ns(60), 1_000_000_000);
    assert_eq!(bpm_to_ns(1), 60_000_000_000);
    assert_eq!(bpm_to_ns(55), 1_090_909_090);
    assert_eq!(bpm_to_ns(7), 8_571_428_571);
}

#[test]
fn new_scheduler_runs_at_fifty_five_bpm() {
    let s = Scheduler::new();
    assert!(s.is_running());
    assert!(!s.is_paused());
    assert_eq!(s.beat_ns(), 1_090_909_090);
}

#[test]
fn beats_at_120_bpm_start_every_500_ms() {
    let mut s = Scheduler::new();
    let mut onsets = Vec::new();
    let mut now: u128 = 0;
    let (_, a) = iteration(&mut s, vec![ext(AudioMessage::SetBpm(120))]);
    onsets.push(now);
    now += a.timing.unwrap().beat_end_ns;
    for _ in 0..2 {
        let (writes, a) = iteration(&mut s, vec![]);
        assert_eq!(writes, vec![true, false]);
        onsets.push(now);
        let t = a.timing.unwrap();
        assert_eq!(t.click_end_ns, CLICK_NS);
        now += t.beat_end_ns;
    }
    assert_eq!(onsets, vec![0, 500_000_000, 1_000_000_000]);
}

#[test]
fn tempo_change_waits_for_the_next_beat() {
    let mut s = Scheduler::new();
    let (_, a) = iteration(&mut s, vec![ext(AudioMessage::SetBpm(120))]);
    let in_progress = a.timing.unwrap();
    // SetBpm(60) is sent while this beat is under way; it is drained at the
    // next onset, so the beat in progress keeps its length.
    let (_, b) = iteration(&mut s, vec![ext(AudioMessage::SetBpm(60))]);
    assert_eq!(in_progress.beat_end_ns, 500_000_000);
    assert_eq!(b.timing.unwrap().beat_end_ns, 1_000_000_000);
    assert_eq!(s.beat_ns(), 1_000_000_000);
}

#[test]
fn pause_clears_flag_and_it_stays_clear() {
    let mut s = Scheduler::new();
    let (writes, a) = iteration(&mut s, vec![ext(AudioMessage::Pause)]);
    assert_eq!(writes, vec![true, false]);
    assert!(a.silence);
    assert_eq!(a.timing, None);
    assert!(s.is_paused());
    for m in [AudioMessage::SetBpm(90), AudioMessage::SetVolume(10), AudioMessage::Pause] {
        let (writes, a) = iteration(&mut s, vec![ext(m)]);
        assert!(writes.iter().all(|w| !*w));
        assert_eq!(a.timing, None);
        assert!(s.is_paused());
    }
    let (writes, a) = iteration(&mut s, vec![ext(AudioMessage::Toggle)]);
    assert!(!s.is_paused());
    assert_eq!(writes, vec![false]);
    assert!(a.timing.is_some());
    let (writes, _) = iteration(&mut s, vec![]);
    assert_eq!(writes, vec![true, false]);
}

#[test]
fn play_resumes_and_toggle_flips() {
    let mut s = Scheduler::new();
    s.apply(ext(AudioMessage::Toggle));
    assert!(s.is_paused());
    s.apply(ext(AudioMessage::Toggle));
    assert!(!s.is_paused());
    s.apply(ext(AudioMessage::Pause));
    s.apply(ext(AudioMessage::Play));
    assert!(!s.is_paused());
}

#[test]
fn whole_backlog_is_applied_in_order() {
    let mut s = Scheduler::new();
    let msgs = vec![
        ext(AudioMessage::SetVolume(100)),
        ext(AudioMessage::Pause),
        ext(AudioMessage::SetBpm(240)),
        ext(AudioMessage::SetVolume(700)),
        ext(AudioMessage::Play),
        ext(AudioMessage::SetBpm(30)),
    ];
    let a = s.run_batch(&msgs, true);
    assert_eq!(a.volume, Some(700));
    assert!(!a.silence);
    assert_eq!(s.beat_ns(), 2_000_000_000);
    assert_eq!(
        a.timing,
        Some(BeatTiming { click_end_ns: CLICK_NS, beat_end_ns: 2_000_000_000 })
    );
}

#[test]
fn batch_without_volume_stores_none() {
    let mut s = Scheduler::new();
    let a = s.run_batch(&vec![ext(AudioMessage::Play)], true);
    assert_eq!(a.volume, None);
}

#[test]
fn zero_tempo_is_ignored() {
    let mut s = Scheduler::new();
    s.apply(ext(AudioMessage::SetBpm(120)));
    s.apply(ext(AudioMessage::SetBpm(0)));
    assert_eq!(s.beat_ns(), 500_000_000);
}

#[test]
fn beat_shorter_than_click_lasts_one_click() {
    let mut s = Scheduler::new();
    let a = s.run_batch(&vec![ext(AudioMessage::SetBpm(u16::MAX))], true);
    assert_eq!(s.beat_ns(), 915_541);
    assert_eq!(a.timing.unwrap().beat_end_ns, CLICK_NS);
    let a = s.run_batch(&vec![ext(AudioMessage::SetBpm(1200))], true);
    assert_eq!(a.timing.unwrap().beat_end_ns, 50_000_000);
}

#[test]
fn shutdown_stops_and_nothing_restarts() {
    let mut s = Scheduler::new();
    let (writes, a) = iteration(
        &mut s,
        vec![ext(AudioMessage::SetVolume(5)), InternalAudioMessage::Shutdown],
    );
    assert!(!s.is_running());
    assert_eq!(writes, vec![true, false]);
    assert!(a.silence);
    assert_eq!(a.volume, Some(5));
    assert_eq!(a.timing, None);
    for m in [AudioMessage::Play, AudioMessage::Toggle, AudioMessage::SetBpm(100)] {
        s.run_batch(&vec![ext(m)], true);
        assert!(!s.is_running());
    }
}

#[test]
fn hang_up_applies_batch_then_stops() {
    let mut s = Scheduler::new();
    let a = s.run_batch(&vec![ext(AudioMessage::SetVolume(9)), ext(AudioMessage::Pause)], false);
    assert!(!s.is_running());
    assert!(s.is_paused());
    assert_eq!(a.volume, Some(9));
    assert!(a.silence);
    assert_eq!(a.timing, None);
}

#[test]
fn hang_up_with_empty_batch_clears_flag() {
    let mut s = Scheduler::new();
    s.apply(ext(AudioMessage::SetBpm(120)));
    let a = s.run_batch(&vec![], false);
    assert!(!s.is_running());
    assert_eq!(s.beat_ns(), 500_000_000);
    assert_eq!(a.volume, None);
    assert!(a.silence);
    assert_eq!(a.timing, None);
}

#[test]
fn absorb_appends_message_and_goes_on() {
    let mut ret = vec![ext(AudioMessage::Play)];
    assert_eq!(absorb(&mut ret, Polled::Message(ext(AudioMessage::SetBpm(70)))), None);
    assert_eq!(ret, vec![ext(AudioMessage::Play), ext(AudioMessage::SetBpm(70))]);
}

#[test]
fn absorb_stops_on_empty_queue() {
    let mut ret = vec![ext(AudioMessage::Pause)];
    assert_eq!(absorb(&mut ret, Polled::Empty), Some(true));
    assert_eq!(ret, vec![ext(AudioMessage::Pause)]);
}

#[test]
fn absorb_stops_on_hang_up() {
    let mut ret = Vec::new();
    assert_eq!(absorb(&mut ret, Polled::HungUp), Some(false));
    assert!(ret.is_empty());
}

#[test]
fn batch_of_wait_results() {
    assert_eq!(batch_of(Some(ext(AudioMessage::Toggle))), (vec![ext(AudioMessage::Toggle)], true));
    assert_eq!(batch_of(None), (vec![], false));
}

#[test]
fn running_drain_takes_whole_backlog() {
    let (tx, rx) = channel();
    tx.send(ext(AudioMessage::Play)).unwrap();
    tx.send(ext(AudioMessage::SetBpm(80))).unwrap();
    tx.send(ext(AudioMessage::SetVolume(3))).unwrap();
    let (msgs, connected) = get_message(false, &rx);
    assert!(connected);
    assert_eq!(
        msgs,
        vec![ext(AudioMessage::Play), ext(AudioMessage::SetBpm(80)), ext(AudioMessage::SetVolume(3))]
    );
    let (msgs, connected) = get_message(false, &rx);
    assert!(connected);
    assert!(msgs.is_empty());
}

#[test]
fn paused_drain_blocks_for_one_message() {
    let (tx, rx) = channel();
    tx.send(ext(AudioMessage::Toggle)).unwrap();
    tx.send(ext(AudioMessage::SetBpm(80))).unwrap();
    let (msgs, connected) = get_message(true, &rx);
    assert!(connected);
    assert_eq!(msgs, vec![ext(AudioMessage::Toggle)]);
    let (msgs, _) = get_message(true, &rx);
    assert_eq!(msgs, vec![ext(AudioMessage::SetBpm(80))]);
}

#[test]
fn drain_reports_hang_up() {
    let (tx, rx) = channel();
    tx.send(ext(AudioMessage::Play)).unwrap();
    drop(tx);
    let (msgs, connected) = get_message(false, &rx);
    assert!(!connected);
    assert_eq!(msgs, vec![ext(AudioMessage::Play)]);
    let (msgs, connected) = get_message(true, &rx);
    assert!(!connected);
    assert!(msgs.is_empty());
    let (msgs, connected) = get_message(false, &rx);
    assert!(!connected);
    assert!(msgs.is_empty());
}

#[test]
fn shutdown_twice_is_a_no_op() {
    let mut l = Lifecycle::started();
    assert!(l.owns_thread());
    assert!(l.begin_shutdown());
    assert!(!l.owns_thread());
    assert!(!l.begin_shutdown());
    assert!(!l.owns_thread());
}

#[test]
fn inactive_flag_is_silent() {
    assert_eq!(sample_level(false, 1, 1000), 0);
    assert_eq!(sample_level(false, -1, 500), 0);
    assert_eq!(sample_level(false, 0, 0), 0);
}

#[test]
fn active_flag_scales_wave_by_volume() {
    assert_eq!(sample_level(true, 1, 1000), 1000);
    assert_eq!(sample_level(true, -1, 1000), -1000);
    assert_eq!(sample_level(true, 1, 250), 250);
    assert_eq!(sample_level(true, -1, 250), -250);
    assert_eq!(sample_level(true, 0, 250), 0);
    assert_eq!(sample_level(true, 1, u16::MAX), 65535);
    assert_eq!(sample_level(true, -1, u16::MAX), -65535);
}

#[test]
fn volume_scaling_ignores_tempo() {
    for bpm in [30u16, 120, 300] {
        let mut s = Scheduler::new();
        let a = s.run_batch(
            &vec![ext(AudioMessage::SetBpm(bpm)), ext(AudioMessage::SetVolume(400))],
            true,
        );
        let v = a.volume.unwrap();
        assert_eq!(sample_level(true, 1, v), 400);
        assert_eq!(sample_level(true, 1, v) * 1000 / sample_level(true, 1, 1000), 400);
    }
}

#[test]
fn sample_clock_wraps_at_rate() {
    assert_eq!(advance_clock(0, 48_000), 1);
    assert_eq!(advance_clock(47_998, 48_000), 47_999);
    assert_eq!(advance_clock(47_999, 48_000), 0);
    assert_eq!(advance_clock(0, 1), 0);
    assert_eq!(advance_clock(u32::MAX, 10), 6);
}
