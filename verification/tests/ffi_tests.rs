use voicefox::application::{ApplicationCommand, ApplicationEvent};
use voicefox::ffi::{command_queue_remove, command_search, FfiCommand, SongDto, VoicefoxEvent};
use voicefox::song::SongInfo;
use voicefox::source::SourceId;

#[test]
fn playback_event_maps_to_stable_ffi_shape() {
    let event = VoicefoxEvent::from_event(ApplicationEvent::PlaybackStarted {
        request_id: 42,
        song: SongInfo::new("test".into(), SourceId::Kw, "Test".into(), "Artist".into()),
        source_index: Some(3),
    });
    assert_eq!(event.kind, "playback");
    assert_eq!(event.request_id, 42);
    assert!(event.song.is_some());
}

#[test]
fn command_mapping_does_not_expose_application_types() {
    let command = FfiCommand::SeekMs(1_250);
    assert!(matches!(command.into_application().unwrap(), ApplicationCommand::Seek(d) if d.as_millis_saturating() == 1_250));
}

#[test]
fn search_and_queue_commands_carry_their_arguments() {
    assert!(matches!(
        command_search("晴天".to_string()).into_application().unwrap(),
        ApplicationCommand::Search { keyword, .. } if keyword == "晴天"
    ));
    assert!(matches!(command_queue_remove(2).into_application().unwrap(), ApplicationCommand::QueueRemove { index: 2 }));
}

#[test]
fn songs_round_trip_through_the_ffi_shape() {
    let song = SongInfo::new("7".into(), SourceId::Wy, "Song".into(), "Artist".into());
    let dto = SongDto::from_song(song);
    assert_eq!(dto.source, "wy");
    let back = dto.into_song().unwrap();
    assert_eq!(back.id, "7");
    assert_eq!(back.source, SourceId::Wy);
}

#[test]
fn unknown_source_names_are_rejected() {
    let mut dto = SongDto::from_song(SongInfo::new("7".into(), SourceId::Wy, "Song".into(), "Artist".into()));
    dto.source = "soda".to_string();
    assert!(dto.into_song().is_err());
}

#[test]
fn queue_events_carry_the_queue_and_index() {
    let song = SongInfo::new("1".into(), SourceId::Kw, "A".into(), "B".into());
    let event = VoicefoxEvent::from_event(ApplicationEvent::QueueChanged { queue: vec![song], index: 0 });
    assert_eq!(event.kind, "queue");
    assert_eq!(event.queue.len(), 1);
    assert_eq!(event.queue_index, 0);
}
