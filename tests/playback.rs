use spotic::args::{RepeatOperation, VolumeOperation};
use spotic::model::{current_track_of, NowPlaying, PlayError, PlayRequest, Playable, Track};
use spotic::playback::{
    clamp_volume, lowered_volume, playback_change, raised_volume, repeat_mode_for, reported_volume,
    target_volume, toggled_repeat, toggled_shuffle, PlaybackChange, PlaybackRequest, RepeatMode,
};

#[test]
fn volume_up_clamps_at_full() {
    assert_eq!(raised_volume(95, 10), 100);
    assert_eq!(raised_volume(40, 10), 50);
    assert_eq!(raised_volume(100, 255), 100);
    assert_eq!(target_volume(VolumeOperation::Increase(10), 95), 100);
}

#[test]
fn volume_down_clamps_at_zero() {
    assert_eq!(lowered_volume(5, 10), 0);
    assert_eq!(lowered_volume(50, 10), 40);
    assert_eq!(target_volume(VolumeOperation::Decrease(10), 5), 0);
}

#[test]
fn volume_set_clamps() {
    assert_eq!(clamp_volume(150), 100);
    assert_eq!(target_volume(VolumeOperation::SetTo(30), 90), 30);
    assert_eq!(target_volume(VolumeOperation::SetTo(200), 90), 100);
}

#[test]
fn reported_volume_is_a_percentage() {
    assert_eq!(reported_volume(None), None);
    assert_eq!(reported_volume(Some(42)), Some(42));
    assert_eq!(reported_volume(Some(300)), Some(100));
}

#[test]
fn pause_resume_and_toggle() {
    assert_eq!(playback_change(PlaybackRequest::Pause, true), Some(PlaybackChange::Pause));
    assert_eq!(playback_change(PlaybackRequest::Pause, false), None);
    assert_eq!(playback_change(PlaybackRequest::Resume, false), Some(PlaybackChange::Resume));
    assert_eq!(playback_change(PlaybackRequest::Resume, true), None);
    assert_eq!(playback_change(PlaybackRequest::Toggle, true), Some(PlaybackChange::Pause));
    assert_eq!(playback_change(PlaybackRequest::Toggle, false), Some(PlaybackChange::Resume));
}

#[test]
fn shuffle_and_repeat_toggles() {
    assert!(toggled_shuffle(false));
    assert!(!toggled_shuffle(true));
    assert_eq!(toggled_repeat(RepeatMode::Track), RepeatMode::Off);
    assert_eq!(toggled_repeat(RepeatMode::Off), RepeatMode::Context);
    assert_eq!(toggled_repeat(RepeatMode::Context), RepeatMode::Track);
    assert_eq!(repeat_mode_for(RepeatOperation::On), RepeatMode::Context);
    assert_eq!(repeat_mode_for(RepeatOperation::Track), RepeatMode::Track);
}

#[test]
fn playables_display_and_start() {
    let track = Playable::Track {
        name: "Song".to_string(),
        artists: vec!["A".to_string(), "B".to_string()],
        id: Some("t1".to_string()),
    };
    assert_eq!(track.to_display(), "\"Song\" by A, B");
    assert_eq!(track.type_string(), "Track");
    assert_eq!(track.describe(), "\"Song\" by A, B [Track]");
    assert_eq!(track.play_request(), Ok(PlayRequest::Track("t1".to_string())));

    let local = Playable::Track { name: "Local".to_string(), artists: vec![], id: None };
    assert_eq!(local.play_request(), Err(PlayError::TrackWithoutId));

    let album = Playable::Album { name: "LP".to_string(), artists: vec!["C".to_string()], id: None };
    assert_eq!(album.describe(), "\"LP\" by C [Album]");
    assert_eq!(album.play_request(), Err(PlayError::AlbumWithoutId));

    let list = Playable::Playlist { name: "Mix".to_string(), id: "p1".to_string() };
    assert_eq!(list.describe(), "Mix [Playlist]");
    assert_eq!(list.play_request(), Ok(PlayRequest::Playlist("p1".to_string())));

    let episode = Playable::Episode { name: "Ep 1".to_string(), id: "e1".to_string() };
    assert_eq!(episode.play_request(), Ok(PlayRequest::Episode("e1".to_string())));
}

#[test]
fn current_track_reports() {
    let t = current_track_of(
        true,
        NowPlaying::Track { name: "Song".to_string(), artists: vec!["A".to_string()] },
    )
    .unwrap();
    assert_eq!(t.title, "Song");
    assert_eq!(t.by, vec!["A".to_string()]);
    assert_eq!(t.describe(), "\"Song\" by A");

    let e = current_track_of(
        true,
        NowPlaying::Episode { name: "Ep".to_string(), show: "Show".to_string() },
    )
    .unwrap();
    assert_eq!(e.by, vec!["Show".to_string()]);

    assert!(current_track_of(false, NowPlaying::Other).is_none());
    assert!(current_track_of(
        false,
        NowPlaying::Track { name: "Song".to_string(), artists: vec![] }
    )
    .is_none());
    assert!(current_track_of(true, NowPlaying::Other).is_none());
    let named = Track { title: "X".to_string(), by: vec![] };
    assert_eq!(named.describe(), "\"X\" by ");
}
