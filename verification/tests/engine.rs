use anahata::feeder::{apply_command, feeder_pump, feeder_step, Command, CHUNK_FRAMES};
use anahata::output::render_block;
use anahata::ring::RingBuffer;
use anahata::track::Track;
use anahata::transport::{default_skip_window, Transport};
use anahata::Frame;

fn silent_track(frame_count: u64, sample_rate: u32) -> Track {
    Track {
        frames: vec![Frame { left: 0, right: 0 }; frame_count as usize],
        sample_rate,
        frame_count,
        title: "t".to_string(),
        artist: "a".to_string(),
    }
}

fn counting_track(frame_count: u64, sample_rate: u32) -> Track {
    let mut frames = Vec::new();
    for i in 0..frame_count {
        let v = (i % 1000) as i32;
        frames.push(Frame { left: v, right: -v });
    }
    Track {
        frames,
        sample_rate,
        frame_count,
        title: "t".to_string(),
        artist: "a".to_string(),
    }
}

#[test]
fn ring_capacity_four_push_pop() {
    let mut rb = RingBuffer::new(4);
    for i in 0..4 {
        assert!(rb.try_push(Frame { left: i, right: i }));
    }
    assert!(!rb.try_push(Frame { left: 9, right: 9 }));
    assert_eq!(rb.try_pop(), Some(Frame { left: 0, right: 0 }));
    assert!(rb.try_push(Frame { left: 9, right: 9 }));
}

#[test]
fn ring_fifo_order() {
    let mut rb = RingBuffer::new(8);
    for i in 0..6 {
        assert!(rb.try_push(Frame { left: i, right: 10 + i }));
    }
    for i in 0..6 {
        assert_eq!(rb.try_pop(), Some(Frame { left: i, right: 10 + i }));
    }
    assert_eq!(rb.try_pop(), None);
}

#[test]
fn ring_len_and_slots() {
    let mut rb = RingBuffer::new(3);
    assert_eq!(rb.len(), 0);
    assert_eq!(rb.slots(), 3);
    assert_eq!(rb.capacity(), 3);
    rb.try_push(Frame { left: 1, right: 1 });
    assert_eq!(rb.len(), 1);
    assert_eq!(rb.slots(), 2);
    // Wrap around the circular storage.
    rb.try_push(Frame { left: 2, right: 2 });
    rb.try_push(Frame { left: 3, right: 3 });
    assert_eq!(rb.try_pop(), Some(Frame { left: 1, right: 1 }));
    rb.try_push(Frame { left: 4, right: 4 });
    assert_eq!(rb.try_pop(), Some(Frame { left: 2, right: 2 }));
    assert_eq!(rb.try_pop(), Some(Frame { left: 3, right: 3 }));
    assert_eq!(rb.try_pop(), Some(Frame { left: 4, right: 4 }));
    assert_eq!(rb.try_pop(), None);
}

#[test]
fn skip_forward_ten_second_track() {
    // A ten-second track at 48 kHz, at rest at the start.
    let track = silent_track(480_000, 48_000);
    let mut t = Transport::new();
    let window = default_skip_window(track.sample_rate);
    assert_eq!(window, 240_000);
    t.skip_forward(&track, window);
    assert_eq!(t.playhead, 240_000);
    assert_eq!(t.position_ms, 5_000);
    t.skip_forward(&track, window);
    assert_eq!(t.playhead, 480_000);
    assert_eq!(t.position_ms, 10_000);
}

#[test]
fn skip_backward_clamps_to_zero() {
    let track = silent_track(480_000, 48_000);
    let mut t = Transport::new();
    t.skip_forward(&track, 100_000);
    assert_eq!(t.playhead, 100_000);
    t.skip_backward(&track, 240_000);
    assert_eq!(t.playhead, 0);
    assert_eq!(t.position_ms, 0);
}

#[test]
fn skip_round_trip_away_from_boundaries() {
    let track = silent_track(480_000, 48_000);
    let mut t = Transport::new();
    t.skip_forward(&track, 100_000);
    let before = t.playhead;
    t.skip_forward(&track, 50_000);
    t.skip_backward(&track, 50_000);
    assert_eq!(t.playhead, before);
}

#[test]
fn toggle_play_preserves_position() {
    let mut t = Transport::new();
    t.toggle_play();
    assert!(t.is_playing);
    t.toggle_play();
    assert!(!t.is_playing);
    assert_eq!(t.playhead, 0);
}

#[test]
fn install_track_sets_duration_before_playing() {
    let track = silent_track(480_000, 48_000);
    let mut t = Transport::new();
    t.install_track(&track);
    assert_eq!(t.duration_ms, 10_000);
    assert_eq!(t.playhead, 0);
    assert_eq!(t.position_ms, 0);
    assert!(t.is_playing);
}

#[test]
fn begin_track_change_rewinds_and_pauses() {
    let track = silent_track(480_000, 48_000);
    let mut t = Transport::new();
    t.install_track(&track);
    t.skip_forward(&track, 240_000);
    t.begin_track_change();
    assert_eq!(t.playhead, 0);
    assert_eq!(t.position_ms, 0);
    assert!(!t.is_playing);
    assert_eq!(t.duration_ms, 10_000);
}

#[test]
fn underrun_block_is_all_silence() {
    let mut rb = RingBuffer::new(64);
    let out = render_block(true, &mut rb, 128);
    assert_eq!(out.len(), 128);
    for f in &out {
        assert_eq!(f.left, 0);
        assert_eq!(f.right, 0);
    }
}

#[test]
fn paused_block_preserves_buffer_and_resume_continues() {
    let mut rb = RingBuffer::new(8);
    for i in 0..5 {
        rb.try_push(Frame { left: i, right: i });
    }
    // Paused: silence out, nothing drained.
    let out = render_block(false, &mut rb, 4);
    assert_eq!(out.len(), 4);
    for f in &out {
        assert_eq!(f.left, 0);
        assert_eq!(f.right, 0);
    }
    assert_eq!(rb.len(), 5);
    // Resumed: continues from the first buffered frame.
    let out = render_block(true, &mut rb, 3);
    assert_eq!(out[0], Frame { left: 0, right: 0 });
    assert_eq!(out[1], Frame { left: 1, right: 1 });
    assert_eq!(out[2], Frame { left: 2, right: 2 });
    assert_eq!(rb.len(), 2);
}

#[test]
fn playing_block_pads_shortfall_with_silence() {
    let mut rb = RingBuffer::new(8);
    rb.try_push(Frame { left: 7, right: 7 });
    let out = render_block(true, &mut rb, 3);
    assert_eq!(out[0], Frame { left: 7, right: 7 });
    assert_eq!(out[1], Frame { left: 0, right: 0 });
    assert_eq!(out[2], Frame { left: 0, right: 0 });
    assert_eq!(rb.len(), 0);
}

#[test]
fn feeder_pump_moves_one_chunk() {
    let track = counting_track(3000, 48_000);
    let mut t = Transport::new();
    t.install_track(&track);
    let mut rb = RingBuffer::new(2048);
    let pushed = feeder_pump(&mut t, &track, &mut rb);
    assert_eq!(pushed, CHUNK_FRAMES);
    assert_eq!(t.playhead, 1024);
    assert_eq!(rb.len(), 1024);
    assert_eq!(rb.try_pop(), Some(Frame { left: 0, right: 0 }));
    assert_eq!(rb.try_pop(), Some(Frame { left: 1, right: -1 }));
}

#[test]
fn feeder_pump_stops_at_full_buffer() {
    let track = counting_track(3000, 48_000);
    let mut t = Transport::new();
    t.install_track(&track);
    let mut rb = RingBuffer::new(1500);
    assert_eq!(feeder_pump(&mut t, &track, &mut rb), 1024);
    assert_eq!(feeder_pump(&mut t, &track, &mut rb), 1500 - 1024);
    assert_eq!(feeder_pump(&mut t, &track, &mut rb), 0);
    assert_eq!(t.playhead, 1500);
}

#[test]
fn feeder_pump_wraps_at_end_of_track() {
    let track = counting_track(10, 48_000);
    let mut t = Transport::new();
    t.install_track(&track);
    let mut rb = RingBuffer::new(32);
    assert_eq!(feeder_pump(&mut t, &track, &mut rb), 10);
    assert_eq!(t.playhead, 10);
    // End of track: the playhead wraps to the start and playback loops.
    assert_eq!(feeder_pump(&mut t, &track, &mut rb), 0);
    assert_eq!(t.playhead, 0);
    assert_eq!(t.position_ms, 0);
    assert!(t.is_playing);
}

#[test]
fn feeder_pump_paused_is_a_no_op() {
    let track = counting_track(100, 48_000);
    let mut t = Transport::new();
    let mut rb = RingBuffer::new(32);
    assert_eq!(feeder_pump(&mut t, &track, &mut rb), 0);
    assert_eq!(rb.len(), 0);
    assert_eq!(t.playhead, 0);
}

#[test]
fn apply_command_change_track_hands_back_the_path() {
    let track = counting_track(100, 48_000);
    let mut t = Transport::new();
    t.install_track(&track);
    let load = apply_command(
        &mut t,
        &track,
        Command::ChangeTrack("next.flac".to_string()),
        240_000,
    );
    assert_eq!(load, Some("next.flac".to_string()));
    assert!(!t.is_playing);
    assert_eq!(t.playhead, 0);
    assert_eq!(t.position_ms, 0);
}

#[test]
fn apply_command_skips_and_toggles() {
    let track = counting_track(100_000, 50_000);
    let mut t = Transport::new();
    assert_eq!(apply_command(&mut t, &track, Command::SkipForward, 25_000), None);
    assert_eq!(t.playhead, 25_000);
    assert_eq!(t.position_ms, 500);
    assert_eq!(apply_command(&mut t, &track, Command::SkipBackward, 30_000), None);
    assert_eq!(t.playhead, 0);
    assert_eq!(apply_command(&mut t, &track, Command::TogglePlay, 25_000), None);
    assert!(t.is_playing);
}

#[test]
fn feeder_step_polls_the_command_channel() {
    let track = counting_track(3000, 48_000);
    let mut t = Transport::new();
    t.install_track(&track);
    let mut rb = RingBuffer::new(2048);
    let (tx, rx) = crossbeam_channel::bounded::<Command>(32);
    tx.send(Command::SkipForward).unwrap();
    let (load, pushed) = feeder_step(&rx, &mut t, &track, &mut rb, 1000);
    assert_eq!(load, None);
    // The skip lands first, then one chunk is pumped from there.
    assert_eq!(pushed, 1024);
    assert_eq!(t.playhead, 1000 + 1024);
    // An empty channel still pumps; the end of the track caps the chunk.
    let (load, pushed) = feeder_step(&rx, &mut t, &track, &mut rb, 1000);
    assert_eq!(load, None);
    assert_eq!(pushed, 3000 - 2024);
    assert_eq!(t.playhead, 3000);
    // A track change ends the iteration with the path and pumps nothing.
    tx.send(Command::ChangeTrack("b.flac".to_string())).unwrap();
    let before = rb.len();
    let (load, pushed) = feeder_step(&rx, &mut t, &track, &mut rb, 1000);
    assert_eq!(load, Some("b.flac".to_string()));
    assert_eq!(pushed, 0);
    assert_eq!(rb.len(), before);
    assert!(!t.is_playing);
}
