use std::sync::atomic::Ordering;

use playback_core::controller::{Controller, PlayerControl, ServiceState};
use playback_core::facade::{clamp_gain, Core};
use playback_core::models::PlayState;
use playback_core::music::{picture_format, Music, MusicService, PictureFormat, PictureMime, TrackTags};
use playback_core::output::{apply_gain, select_output_rate, ConfigRange, SinkConfigError};
use playback_core::resample::{
    deinterleave, interleave, pad_to, take_chunk, ResampleError, ResamplePlan,
};
use playback_core::service::{dispatch, ServiceStep};

#[test]
fn controller_starts_playing() {
    let c = Controller::new();
    assert_eq!(c.state(), ServiceState::Playing);
    assert!(!c.is_paused());
}

#[test]
fn controller_transitions_follow_commands() {
    let mut c = Controller::new();
    c.pause();
    assert_eq!(c.state(), ServiceState::Paused);
    assert!(c.is_paused());
    c.play();
    assert_eq!(c.state(), ServiceState::Playing);
    c.seek_to(7);
    assert_eq!(c.state(), ServiceState::Seek(7));
    c.stop();
    assert_eq!(c.state(), ServiceState::Stopped);
}

#[test]
fn pausing_twice_equals_pausing_once() {
    let mut once = Controller::new();
    once.pause();
    let mut twice = Controller::new();
    twice.pause();
    twice.pause();
    assert_eq!(once.state(), twice.state());
}

#[test]
fn playing_while_playing_changes_nothing() {
    let mut c = Controller::new();
    c.play();
    assert_eq!(c.state(), ServiceState::Playing);
    c.play();
    assert_eq!(c.state(), ServiceState::Playing);
}

#[test]
fn player_control_starts_playing() {
    let c = PlayerControl::new();
    assert_eq!(c.get(), PlayState::Playing);
    let mut c2 = PlayerControl::new();
    c2.set(PlayState::Paused);
    assert_eq!(c2.get(), PlayState::Paused);
}

#[test]
fn dispatch_maps_each_command() {
    assert_eq!(dispatch(ServiceState::Playing), ServiceStep::Proceed);
    assert_eq!(dispatch(ServiceState::Paused), ServiceStep::WaitWhilePaused);
    assert_eq!(dispatch(ServiceState::Stopped), ServiceStep::Exit);
    assert_eq!(dispatch(ServiceState::Seek(9)), ServiceStep::HandleSeek(9));
}

#[test]
fn core_lifecycle_mirrors_user_actions() {
    let mut core = Core::new();
    assert_eq!(core.get_state(), PlayState::Stopped);
    assert!(core.current().is_none());

    let music = Music::from_parts("song.flac".to_string(), None);
    core.append(music);
    assert_eq!(core.get_state(), PlayState::Playing);
    assert!(core.current().is_some());

    core.pause();
    assert_eq!(core.get_state(), PlayState::Paused);
    core.play();
    assert_eq!(core.get_state(), PlayState::Playing);

    core.stop();
    assert_eq!(core.get_state(), PlayState::Stopped);
    assert!(core.current().is_none());
}

#[test]
fn gain_cell_starts_at_unity_and_follows_set_gain() {
    let core = Core::new();
    let cell = core.gain_handle();
    assert_eq!(cell.load(Ordering::Relaxed), 65536);
    core.set_gain(0);
    assert_eq!(cell.load(Ordering::Relaxed), 0);
    core.set_gain(32768);
    assert_eq!(cell.load(Ordering::Relaxed), 32768);
}

#[test]
fn clamp_gain_caps_at_unity() {
    assert_eq!(clamp_gain(0), 0);
    assert_eq!(clamp_gain(123), 123);
    assert_eq!(clamp_gain(65536), 65536);
    assert_eq!(clamp_gain(70000), 65536);
    assert_eq!(clamp_gain(u32::MAX), 65536);
}

#[test]
fn apply_gain_truncates_toward_zero() {
    assert_eq!(apply_gain(1000, 32768), 500);
    assert_eq!(apply_gain(-1000, 32768), -500);
    assert_eq!(apply_gain(3, 32768), 1);
    assert_eq!(apply_gain(-3, 32768), -1);
    assert_eq!(apply_gain(i32::MAX, 65536), i32::MAX);
    assert_eq!(apply_gain(i32::MIN, 65536), i32::MIN);
    assert_eq!(apply_gain(i32::MIN, 0), 0);
}

#[test]
fn preferred_rate_is_pinned_when_a_config_contains_it() {
    let configs = vec![
        ConfigRange { min_rate: 8000, max_rate: 22050 },
        ConfigRange { min_rate: 44100, max_rate: 96000 },
    ];
    assert_eq!(select_output_rate(&configs, 48000), Ok((1, 48000)));
    assert_eq!(select_output_rate(&configs, 16000), Ok((0, 16000)));
}

#[test]
fn unsupported_rate_falls_back_to_first_config_maximum() {
    // A device that only runs at 44.1 kHz plays a 48 kHz track at 44.1 kHz.
    let configs = vec![ConfigRange { min_rate: 44100, max_rate: 44100 }];
    assert_eq!(select_output_rate(&configs, 48000), Ok((0, 44100)));
}

#[test]
fn no_configs_is_an_error() {
    let configs: Vec<ConfigRange> = vec![];
    assert_eq!(
        select_output_rate(&configs, 44100),
        Err(SinkConfigError::NoSupportedConfig)
    );
}

#[test]
fn resample_plan_validates_parameters() {
    let plan = ResamplePlan::new(44100, 48000, 1024, 2).unwrap();
    assert_eq!(plan.input_rate, 44100);
    assert_eq!(plan.output_rate, 48000);
    assert!(!plan.is_identity());
    let same = ResamplePlan::new(44100, 44100, 1024, 2).unwrap();
    assert!(same.is_identity());
    assert_eq!(ResamplePlan::new(0, 48000, 1024, 2), Err(ResampleError::BadParams));
    assert_eq!(ResamplePlan::new(44100, 0, 1024, 2), Err(ResampleError::BadParams));
    assert_eq!(ResamplePlan::new(44100, 48000, 0, 2), Err(ResampleError::BadParams));
    assert_eq!(ResamplePlan::new(44100, 48000, 1024, 0), Err(ResampleError::BadParams));
}

#[test]
fn deinterleave_splits_channels() {
    let planes = deinterleave(&vec![1, 2, 3, 4, 5, 6], 2);
    assert_eq!(planes, vec![vec![1, 3, 5], vec![2, 4, 6]]);
    let mono = deinterleave(&vec![7, 8, 9], 1);
    assert_eq!(mono, vec![vec![7, 8, 9]]);
}

#[test]
fn interleave_inverts_deinterleave() {
    let samples = vec![1, 2, 3, 4, 5, 6, 7, 8, 9];
    let planes = deinterleave(&samples, 3);
    assert_eq!(interleave(&planes), samples);
}

#[test]
fn pad_to_appends_zeroes_only_when_short() {
    let mut short = vec![1, 2];
    pad_to(&mut short, 4);
    assert_eq!(short, vec![1, 2, 0, 0]);
    let mut long = vec![1, 2, 3, 4, 5];
    pad_to(&mut long, 4);
    assert_eq!(long, vec![1, 2, 3, 4, 5]);
}

#[test]
fn take_chunk_slices_and_pads() {
    let samples = vec![1, 2, 3, 4, 5];
    assert_eq!(take_chunk(&samples, 0, 4), vec![1, 2, 3, 4]);
    assert_eq!(take_chunk(&samples, 4, 4), vec![5, 0, 0, 0]);
    assert_eq!(take_chunk(&samples, 8, 3), vec![0, 0, 0]);
}

#[test]
fn music_keeps_path_and_tags() {
    let music = Music::from_parts("a/b.mp3".to_string(), None);
    assert_eq!(music.get_path().as_str(), "a/b.mp3");
    assert!(music.get_tags().is_none());

    let tagged = Music::from_parts(
        "c.flac".to_string(),
        Some(TrackTags { title: Some("Song".to_string()), pictures: vec![] }),
    );
    let tags = tagged.get_tags().unwrap();
    assert_eq!(tags.title.as_deref(), Some("Song"));
}

#[test]
fn picture_format_maps_known_kinds_only() {
    assert_eq!(picture_format(PictureMime::Png), Some(PictureFormat::Png));
    assert_eq!(picture_format(PictureMime::Jpeg), Some(PictureFormat::Jpeg));
    assert_eq!(picture_format(PictureMime::Tiff), Some(PictureFormat::Tiff));
    assert_eq!(picture_format(PictureMime::Bmp), Some(PictureFormat::Bmp));
    assert_eq!(picture_format(PictureMime::Gif), Some(PictureFormat::Gif));
    assert_eq!(picture_format(PictureMime::Other), None);
}

#[test]
fn music_service_queues_in_order() {
    let mut service = MusicService::new();
    assert_eq!(service.play_queue.len(), 0);
    assert_eq!(service.queue_index, 0);
    service.append_music(Music::from_parts("one.mp3".to_string(), None));
    service.append_music(Music::from_parts("two.mp3".to_string(), None));
    assert_eq!(service.play_queue.len(), 2);
    assert_eq!(service.play_queue[0].get_path().as_str(), "one.mp3");
    assert_eq!(service.play_queue[1].get_path().as_str(), "two.mp3");
}
