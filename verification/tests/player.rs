use music_player::action::{Command, Wakeup};
use music_player::channel::ChannelClosed;
use music_player::metadata::{Tag, TagRead};
use music_player::player::MusicPlayer;
use music_player::session::{DeviceAction, Next, Reaction, StartOutcome};
use music_player::track::{Music, Properties};
use music_player::volume::FULL;

fn wait() -> Reaction {
    Reaction { device: None, next: Next::Await }
}

fn read_of(seconds: u64) -> Option<TagRead> {
    Some(TagRead {
        tag: Some(Tag { title: None, artist: None, year: None, pictures: Vec::new() }),
        duration: seconds,
    })
}

/// One wakeup of a worker whose device starts whatever it is given.
fn tick(player: &mut MusicPlayer, now: u64, drained: bool) -> Option<DeviceAction> {
    let wakeup = player.receive();
    let mut reaction = player.react(wakeup, None, now, drained);
    let device = reaction.device;
    while let Next::Start(_) = reaction.next {
        reaction = player.settle_start(StartOutcome::Started, now);
        assert_eq!(reaction.device, None);
    }
    device
}

#[test]
fn a_new_player_shows_nothing() {
    let mut player = MusicPlayer::new();
    assert_eq!(player.get_queue_length(), 0);
    assert_eq!(player.get_queue(), Vec::new());
    assert_eq!(player.get_playing(), None);
    assert_eq!(player.get_volume(), FULL);
    assert_eq!(f32::from_bits(player.get_volume()), 1.0);
    assert_eq!(player.receive(), Wakeup::Idle);
}

#[test]
fn a_path_that_is_not_there_is_turned_away() {
    let mut player = MusicPlayer::new();
    assert_eq!(player.enqueue_checked(String::from("good.mp3"), true), Ok(true));
    tick(&mut player, 0, true);
    assert_eq!(player.enqueue_checked(String::from("next.mp3"), true), Ok(true));
    tick(&mut player, 0, false);
    assert_eq!(player.get_queue_length(), 1);
    assert_eq!(player.enqueue(String::from("no/such/dir/no-such-track.mp3")), Ok(false));
    assert_eq!(player.get_queue_length(), 1);
    assert_eq!(player.receive(), Wakeup::Idle);
    assert_eq!(player.enqueue_checked(String::from("whatever.mp3"), false), Ok(false));
    assert_eq!(player.receive(), Wakeup::Idle);
    tick(&mut player, 10, false);
    assert_eq!(player.get_queue_length(), 1);
    assert_eq!(player.get_playing().unwrap().path, "good.mp3");
}

#[test]
fn a_path_that_is_there_is_let_in() {
    let mut player = MusicPlayer::new();
    assert_eq!(player.enqueue(String::from(".")), Ok(true));
    assert_eq!(player.get_queue_length(), 0);
    assert_eq!(player.receive(), Wakeup::Command(Command::Enqueue(String::from("."))));
}

#[test]
fn a_path_that_is_not_there_is_turned_away_even_if_the_channel_is_closed() {
    let mut player = MusicPlayer::new();
    player.close();
    assert_eq!(player.enqueue_checked(String::from("a.mp3"), false), Ok(false));
    assert_eq!(player.enqueue_checked(String::from("a.mp3"), true), Err(ChannelClosed));
    assert_eq!(player.enqueue(String::from(".")), Err(ChannelClosed));
}

#[test]
fn every_send_fails_once_the_channel_is_closed() {
    let mut player = MusicPlayer::new();
    player.close();
    assert_eq!(player.pause(), Err(ChannelClosed));
    assert_eq!(player.resume(), Err(ChannelClosed));
    assert_eq!(player.skip(), Err(ChannelClosed));
    assert_eq!(player.stop(), Err(ChannelClosed));
    assert_eq!(player.toggle_pause(), Err(ChannelClosed));
    assert_eq!(player.set_volume(0.5f32.to_bits()), Err(ChannelClosed));
    assert_eq!(player.get_volume(), FULL);
    assert_eq!(player.receive(), Wakeup::ChannelClosed);
}

#[test]
fn the_callers_words_reach_the_worker_in_order() {
    let mut player = MusicPlayer::new();
    assert_eq!(player.pause(), Ok(()));
    assert_eq!(player.resume(), Ok(()));
    assert_eq!(player.skip(), Ok(()));
    assert_eq!(player.stop(), Ok(()));
    assert_eq!(player.set_volume(0.25f32.to_bits()), Ok(()));
    assert_eq!(player.receive(), Wakeup::Command(Command::Pause));
    assert_eq!(player.receive(), Wakeup::Command(Command::Resume));
    assert_eq!(player.receive(), Wakeup::Command(Command::Skip));
    assert_eq!(player.receive(), Wakeup::Command(Command::Stop));
    assert_eq!(player.receive(), Wakeup::Command(Command::SetVolume(0.25f32.to_bits())));
    assert_eq!(player.receive(), Wakeup::Idle);
}

#[test]
fn the_snapshots_change_only_when_the_worker_has_reacted() {
    let mut player = MusicPlayer::new();
    assert_eq!(player.enqueue_checked(String::from("a.mp3"), true), Ok(true));
    assert_eq!(player.get_queue_length(), 0);
    let wakeup = player.receive();
    assert_eq!(player.get_queue_length(), 0);
    let reaction = player.react(wakeup, read_of(10), 0, true);
    assert_eq!(reaction, Reaction { device: None, next: Next::Start(String::from("a.mp3")) });
    assert_eq!(player.get_queue_length(), 1);
    assert_eq!(player.get_playing(), None);
    assert_eq!(player.settle_start(StartOutcome::Started, 0), wait());
    assert_eq!(player.get_queue_length(), 0);
    let record = Properties { title: None, artist: None, year: None, duration: Some(10), cover: None };
    assert_eq!(
        player.get_playing(),
        Some(Music { path: String::from("a.mp3"), properties: Some(record), position: 0, playing: true })
    );
}

#[test]
fn a_track_whose_tags_could_not_be_read_gets_the_blank_record() {
    let mut player = MusicPlayer::new();
    assert_eq!(player.enqueue_checked(String::from("a.mp3"), true), Ok(true));
    let wakeup = player.receive();
    player.react(wakeup, None, 0, true);
    assert_eq!(player.get_queue()[0].properties, Some(Properties::blank()));
}

#[test]
fn queued_tracks_become_active_in_the_order_of_the_calls() {
    let mut player = MusicPlayer::new();
    let paths = ["a.mp3", "b.mp3", "c.mp3", "d.mp3"];
    for path in paths {
        assert_eq!(player.enqueue_checked(String::from(path), true), Ok(true));
        assert_eq!(player.pause(), Ok(()));
        assert_eq!(player.resume(), Ok(()));
    }
    let mut now: u64 = 0;
    let mut seen: Vec<String> = Vec::new();
    for _ in 0..60 {
        now += 1_000;
        let drained: bool = now % 3_000 == 0;
        tick(&mut player, now, drained);
        if let Some(track) = player.get_playing() {
            if seen.last() != Some(&track.path) {
                seen.push(track.path);
            }
        }
    }
    assert_eq!(seen, paths);
    assert_eq!(player.get_queue_length(), 0);
    assert_eq!(player.get_playing(), None);
}

#[test]
fn stop_clears_all_state() {
    let mut player = MusicPlayer::new();
    for path in ["a.mp3", "b.mp3", "c.mp3", "d.mp3", "e.mp3"] {
        assert_eq!(player.enqueue_checked(String::from(path), true), Ok(true));
    }
    for step in 0..5u64 {
        tick(&mut player, step, false);
    }
    assert_eq!(player.get_queue_length(), 4);
    assert!(player.get_playing().is_some());
    assert_eq!(player.stop(), Ok(()));
    assert_eq!(tick(&mut player, 10, false), Some(DeviceAction::Halt));
    assert_eq!(player.get_queue_length(), 0);
    assert_eq!(player.get_queue(), Vec::new());
    assert_eq!(player.get_playing(), None);
    assert_eq!(tick(&mut player, 20, true), None);
    assert_eq!(player.get_queue_length(), 0);
    assert_eq!(player.get_playing(), None);
}

#[test]
fn stop_on_an_empty_player_changes_nothing() {
    let mut player = MusicPlayer::new();
    assert_eq!(player.stop(), Ok(()));
    assert_eq!(tick(&mut player, 0, true), None);
    assert_eq!(player.get_queue_length(), 0);
    assert_eq!(player.get_playing(), None);
}

#[test]
fn skip_advances_by_exactly_one_track() {
    let mut player = MusicPlayer::new();
    assert_eq!(player.enqueue_checked(String::from("A.mp3"), true), Ok(true));
    assert_eq!(player.enqueue_checked(String::from("B.mp3"), true), Ok(true));
    assert_eq!(player.enqueue_checked(String::from("C.mp3"), true), Ok(true));
    for step in 0..3u64 {
        tick(&mut player, step, false);
    }
    assert_eq!(player.get_playing().unwrap().path, "A.mp3");
    assert_eq!(player.skip(), Ok(()));
    assert_eq!(tick(&mut player, 100, false), Some(DeviceAction::Halt));
    assert_eq!(player.get_playing().unwrap().path, "B.mp3");
    assert_eq!(player.get_playing().unwrap().position, 0);
    assert_eq!(player.get_queue(), vec![Music::pending(String::from("C.mp3"), Some(Properties::blank()))]);
    for step in 0..20u64 {
        tick(&mut player, 200 + step, false);
        assert!(player.get_queue().iter().all(|track| track.path != "A.mp3"));
        assert_eq!(player.get_playing().unwrap().path, "B.mp3");
    }
}

#[test]
fn a_corrupt_track_does_not_hold_up_the_one_behind_it() {
    let mut player = MusicPlayer::new();
    assert_eq!(player.enqueue_checked(String::from("corrupt.mp3"), true), Ok(true));
    assert_eq!(player.enqueue_checked(String::from("valid.mp3"), true), Ok(true));
    let first = player.receive();
    let reaction = player.react(first, None, 0, true);
    assert_eq!(reaction.next, Next::Start(String::from("corrupt.mp3")));
    let reaction = player.settle_start(StartOutcome::Undecodable, 0);
    assert_eq!(reaction, wait());
    assert_eq!(player.get_playing(), None);
    assert_eq!(player.get_queue_length(), 0);
    let second = player.receive();
    let reaction = player.react(second, None, 10, true);
    assert_eq!(reaction.next, Next::Start(String::from("valid.mp3")));
    assert_eq!(player.settle_start(StartOutcome::Started, 10), wait());
    assert_eq!(player.get_playing().unwrap().path, "valid.mp3");
    assert!(player.get_playing().unwrap().playing);
}

#[test]
fn a_corrupt_track_in_the_queue_is_passed_over_in_one_wakeup() {
    let mut player = MusicPlayer::new();
    for path in ["first.mp3", "corrupt.mp3", "valid.mp3"] {
        assert_eq!(player.enqueue_checked(String::from(path), true), Ok(true));
    }
    for step in 0..3u64 {
        tick(&mut player, step, false);
    }
    assert_eq!(player.get_playing().unwrap().path, "first.mp3");
    let wakeup = player.receive();
    let reaction = player.react(wakeup, None, 8_000, true);
    assert_eq!(reaction.next, Next::Start(String::from("corrupt.mp3")));
    let reaction = player.settle_start(StartOutcome::Undecodable, 8_000);
    assert_eq!(reaction.next, Next::Start(String::from("valid.mp3")));
    assert_eq!(player.settle_start(StartOutcome::Started, 8_000), wait());
    assert_eq!(player.get_playing().unwrap().path, "valid.mp3");
    assert_eq!(player.get_queue_length(), 0);
}

#[test]
fn the_volume_that_was_set_is_the_volume_that_is_read() {
    let mut player = MusicPlayer::new();
    assert_eq!(player.set_volume(0.5f32.to_bits()), Ok(()));
    assert_eq!(f32::from_bits(player.get_volume()), 0.5);
    assert_eq!(tick(&mut player, 0, true), Some(DeviceAction::SetVolume(0.5f32.to_bits())));
    assert_eq!(f32::from_bits(player.get_volume()), 0.5);
}

#[test]
fn setting_the_volume_again_is_setting_it_once() {
    let mut player = MusicPlayer::new();
    for _ in 0..3 {
        assert_eq!(player.set_volume(0.5f32.to_bits()), Ok(()));
        assert_eq!(f32::from_bits(player.get_volume()), 0.5);
    }
    for step in 0..3u64 {
        assert_eq!(tick(&mut player, step, true), Some(DeviceAction::SetVolume(0.5f32.to_bits())));
        assert_eq!(player.get_queue_length(), 0);
        assert_eq!(player.get_playing(), None);
    }
    assert_eq!(tick(&mut player, 9, true), None);
    assert_eq!(f32::from_bits(player.get_volume()), 0.5);
}

#[test]
fn the_last_volume_wins() {
    let mut player = MusicPlayer::new();
    assert_eq!(player.set_volume(0.2f32.to_bits()), Ok(()));
    assert_eq!(player.set_volume(0.9f32.to_bits()), Ok(()));
    assert_eq!(f32::from_bits(player.get_volume()), 0.9);
    assert_eq!(tick(&mut player, 0, true), Some(DeviceAction::SetVolume(0.2f32.to_bits())));
    assert_eq!(tick(&mut player, 1, true), Some(DeviceAction::SetVolume(0.9f32.to_bits())));
}

#[test]
fn a_volume_out_of_range_is_clamped_for_callers_and_device_alike() {
    let mut player = MusicPlayer::new();
    assert_eq!(player.set_volume(7.5f32.to_bits()), Ok(()));
    assert_eq!(f32::from_bits(player.get_volume()), 1.0);
    assert_eq!(tick(&mut player, 0, true), Some(DeviceAction::SetVolume(FULL)));
    assert_eq!(player.set_volume((-0.5f32).to_bits()), Ok(()));
    assert_eq!(f32::from_bits(player.get_volume()), 0.0);
    assert_eq!(tick(&mut player, 1, true), Some(DeviceAction::SetVolume(0)));
}

#[test]
fn toggle_resumes_where_nothing_plays() {
    let mut player = MusicPlayer::new();
    assert_eq!(player.toggle_pause(), Ok(true));
    assert_eq!(player.receive(), Wakeup::Command(Command::Resume));
}

#[test]
fn toggle_pauses_a_track_that_plays_and_resumes_one_that_is_held() {
    let mut player = MusicPlayer::new();
    assert_eq!(player.enqueue_checked(String::from("a.mp3"), true), Ok(true));
    tick(&mut player, 0, true);
    assert_eq!(player.toggle_pause(), Ok(false));
    assert_eq!(tick(&mut player, 1_000, false), Some(DeviceAction::Pause));
    assert!(!player.get_playing().unwrap().playing);
    assert_eq!(player.toggle_pause(), Ok(true));
    assert_eq!(tick(&mut player, 4_000, false), Some(DeviceAction::Resume));
    assert!(player.get_playing().unwrap().playing);
    assert_eq!(player.get_playing().unwrap().position, 1);
}

#[test]
fn toggle_goes_by_the_snapshot() {
    let mut player = MusicPlayer::new();
    assert_eq!(player.enqueue_checked(String::from("a.mp3"), true), Ok(true));
    tick(&mut player, 0, true);
    assert_eq!(player.toggle_pause(), Ok(false));
    assert_eq!(player.toggle_pause(), Ok(false));
    assert_eq!(player.receive(), Wakeup::Command(Command::Pause));
    assert_eq!(player.receive(), Wakeup::Command(Command::Pause));
}

#[test]
fn the_worker_is_told_to_leave_when_the_channel_is_closed() {
    let mut player = MusicPlayer::new();
    assert_eq!(player.enqueue_checked(String::from("a.mp3"), true), Ok(true));
    player.close();
    let wakeup = player.receive();
    assert_eq!(wakeup, Wakeup::Command(Command::Enqueue(String::from("a.mp3"))));
    let reaction = player.react(wakeup, None, 0, true);
    assert_eq!(reaction.next, Next::Start(String::from("a.mp3")));
    assert_eq!(player.settle_start(StartOutcome::Started, 0), wait());
    let wakeup = player.receive();
    assert_eq!(wakeup, Wakeup::ChannelClosed);
    let reaction = player.react(wakeup, None, 5, false);
    assert_eq!(reaction, Reaction { device: Some(DeviceAction::Halt), next: Next::Terminate });
    assert_eq!(player.get_playing(), None);
    assert_eq!(player.get_queue_length(), 0);
}

#[test]
fn two_tracks_with_a_pause_between() {
    let mut player = MusicPlayer::new();
    assert_eq!(player.enqueue_checked(String::from("trackA.mp3"), true), Ok(true));
    assert_eq!(player.enqueue_checked(String::from("trackB.mp3"), true), Ok(true));

    let wakeup = player.receive();
    let reaction = player.react(wakeup, read_of(10), 0, true);
    assert_eq!(reaction.next, Next::Start(String::from("trackA.mp3")));
    assert_eq!(player.settle_start(StartOutcome::Started, 0), wait());
    let wakeup = player.receive();
    assert_eq!(player.react(wakeup, read_of(7), 10, false), wait());

    assert_eq!(tick(&mut player, 2_000, false), None);
    let playing = player.get_playing().unwrap();
    assert_eq!(playing.path, "trackA.mp3");
    assert_eq!(playing.position, 2);
    assert!(playing.playing);
    assert_eq!(playing.properties.unwrap().duration, Some(10));
    assert_eq!(player.get_queue_length(), 1);

    assert_eq!(player.pause(), Ok(()));
    assert_eq!(tick(&mut player, 2_000, false), Some(DeviceAction::Pause));
    for now in [2_010u64, 3_000, 4_000, 4_990] {
        assert_eq!(tick(&mut player, now, false), None);
        assert_eq!(player.get_playing().unwrap().position, 2);
        assert!(!player.get_playing().unwrap().playing);
    }

    assert_eq!(player.resume(), Ok(()));
    assert_eq!(tick(&mut player, 5_000, false), Some(DeviceAction::Resume));
    assert_eq!(player.get_playing().unwrap().position, 2);
    assert!(player.get_playing().unwrap().playing);
    assert_eq!(player.get_queue_length(), 1);

    assert_eq!(tick(&mut player, 12_990, false), None);
    assert_eq!(player.get_playing().unwrap().path, "trackA.mp3");
    assert_eq!(player.get_playing().unwrap().position, 9);

    assert_eq!(tick(&mut player, 13_000, true), None);
    let playing = player.get_playing().unwrap();
    assert_eq!(playing.path, "trackB.mp3");
    assert_eq!(playing.position, 0);
    assert_eq!(playing.properties.unwrap().duration, Some(7));
    assert_eq!(player.get_queue_length(), 0);
}

#[test]
fn a_failed_device_shows_in_the_snapshots() {
    let mut player = MusicPlayer::new();
    assert_eq!(player.enqueue_checked(String::from("a.mp3"), true), Ok(true));
    assert_eq!(player.enqueue_checked(String::from("b.mp3"), true), Ok(true));
    tick(&mut player, 0, true);
    tick(&mut player, 1, false);
    assert_eq!(player.get_playing().unwrap().path, "a.mp3");
    let reaction = player.device_failed();
    assert_eq!(reaction, Reaction { device: None, next: Next::Start(String::from("b.mp3")) });
    assert_eq!(player.get_playing(), None);
    assert_eq!(player.get_queue_length(), 1);
    assert_eq!(player.settle_start(StartOutcome::Started, 5), wait());
    assert_eq!(player.get_playing().unwrap().path, "b.mp3");
}
