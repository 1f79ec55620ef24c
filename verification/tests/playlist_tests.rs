use playlist_aggregation::model::{MyError, Playlist, Video};
use playlist_aggregation::playlist::configuration::{init_configuration, Settings};
use playlist_aggregation::playlist::service::PlaylistService;

fn settings() -> Settings {
    Settings {
        application_port: 8080,
        video_service: "http://localhost:8081".to_string(),
        jaeger_agent_endpoint: "localhost:6831".to_string(),
    }
}

fn seeded_service() -> PlaylistService {
    PlaylistService::new_from_list(
        vec![
            Playlist { id: 1, video_ids: vec![1, 2], videos: None },
            Playlist { id: 2, video_ids: vec![1], videos: None },
            Playlist { id: 3, video_ids: vec![], videos: None },
        ],
        settings(),
    )
}

fn video(id: i32, link: &str) -> Video {
    Video { id, link: link.to_string() }
}

#[test]
fn present_id_is_echoed() {
    let service = seeded_service();
    let found = service.find_by_id(1).expect("playlist 1 is in the catalog");
    assert_eq!(found.id, 1);
    assert_eq!(found.video_ids, vec![1, 2]);
    assert_eq!(found.videos, None);

    let resolved = service
        .get_by_id(1, vec![Some(video(1, "111")), Some(video(2, "222"))])
        .expect("playlist 1 is in the catalog");
    assert_eq!(resolved.id, 1);
    assert_eq!(resolved.videos, Some(vec![video(1, "111"), video(2, "222")]));
}

#[test]
fn absent_id_is_not_found_without_lookups() {
    let service = seeded_service();
    // The catalog lookup alone settles the answer; no lookup outcomes exist.
    assert_eq!(service.find_by_id(4), None);
    assert_eq!(service.get_by_id(4, Vec::new()), None);
    assert_eq!(service.get_by_id(0, Vec::new()), None);
    assert_eq!(service.get_by_id(-1, Vec::new()), None);
}

#[test]
fn partial_failure_keeps_the_successes() {
    let service = seeded_service();
    let resolved = service
        .get_by_id(1, vec![Some(video(1, "111")), None])
        .expect("playlist 1 is in the catalog");
    assert_eq!(resolved.id, 1);
    assert_eq!(resolved.video_ids, vec![1, 2]);
    assert_eq!(resolved.videos, Some(vec![video(1, "111")]));
}

#[test]
fn all_failures_still_succeed_with_empty_videos() {
    let service = seeded_service();
    let resolved = service
        .get_by_id(1, vec![None, None])
        .expect("playlist 1 is in the catalog");
    assert_eq!(resolved.id, 1);
    assert_eq!(resolved.videos, Some(Vec::new()));
}

#[test]
fn empty_membership_resolves_to_empty_videos() {
    let service = seeded_service();
    // No member ids, so the caller issues zero lookups and hands in no outcomes.
    let resolved = service.get_by_id(3, Vec::new()).expect("playlist 3 is in the catalog");
    assert_eq!(resolved.id, 3);
    assert_eq!(resolved.video_ids, Vec::<i32>::new());
    assert_eq!(resolved.videos, Some(Vec::new()));
}

#[test]
fn resolution_preserves_submission_order() {
    let service = seeded_service();
    let resolved = service
        .get_by_id(1, vec![Some(video(1, "111")), Some(video(2, "222"))])
        .expect("playlist 1 is in the catalog");
    assert_eq!(resolved.videos, Some(vec![video(1, "111"), video(2, "222")]));

    let reordered = service
        .get_by_id(1, vec![Some(video(2, "222")), Some(video(1, "111"))])
        .expect("playlist 1 is in the catalog");
    assert_eq!(reordered.videos, Some(vec![video(2, "222"), video(1, "111")]));
}

#[test]
fn repeated_calls_with_constant_outcomes_are_identical() {
    let service = seeded_service();
    let first = service.get_by_id(2, vec![Some(video(1, "111"))]);
    let second = service.get_by_id(2, vec![Some(video(1, "111"))]);
    assert_eq!(first, second);
    assert_eq!(
        first,
        Some(Playlist { id: 2, video_ids: vec![1], videos: Some(vec![video(1, "111")]) })
    );
}

#[test]
fn attach_videos_keeps_id_and_membership() {
    let playlist = Playlist { id: 9, video_ids: vec![4, 5, 6], videos: None };
    let resolved = playlist.attach_videos(vec![None, Some(video(5, "five")), None]);
    assert_eq!(resolved.id, 9);
    assert_eq!(resolved.video_ids, vec![4, 5, 6]);
    assert_eq!(resolved.videos, Some(vec![video(5, "five")]));
    // The input playlist itself is untouched.
    assert_eq!(playlist.videos, None);
}

#[test]
fn duplicate_playlist_ids_resolve_to_first() {
    let service = PlaylistService::new_from_list(
        vec![
            Playlist { id: 8, video_ids: vec![1], videos: None },
            Playlist { id: 8, video_ids: vec![2], videos: None },
        ],
        settings(),
    );
    let found = service.find_by_id(8).expect("playlist 8 is in the catalog");
    assert_eq!(found.video_ids, vec![1]);
}

#[test]
fn playlist_init_configuration_adopts_loaded_settings() {
    let loaded = settings();
    let adopted = init_configuration(Some(loaded.clone()));
    assert_eq!(adopted, loaded);
}

#[test]
fn service_reports_its_settings() {
    let service = seeded_service();
    assert_eq!(*service.config(), settings());
}

#[test]
fn my_error_maps_to_internal_error_status() {
    let err = MyError::new("Cannot find".to_string());
    assert_eq!(err.message, "Cannot find".to_string());
    assert_eq!(err.status_code(), 500);
    assert_eq!(err.clone(), err);
}
