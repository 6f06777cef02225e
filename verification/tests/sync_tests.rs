use voicefox::library::collection::CustomPlaylist;
use voicefox::song::SongInfo;
use voicefox::source::SourceId;
use voicefox::sync::engine::SyncEngine;
use voicefox::sync::matcher::match_songs;
use voicefox::sync::model::{MatchConfidence, SyncCollection, SyncCollectionKind, SyncError, SyncOptions, SyncPolicy};
use voicefox::sync::preview::{find_target, sync_preview};
use voicefox::sync::report::{NeteaseSyncPreview, NeteaseSyncReport, SyncPhase, SyncUiState};
use voicefox::time::Duration;

fn song(id: &str, source: SourceId, name: &str, artist: &str, ms: u64) -> SongInfo {
    let mut s = SongInfo::new(id.into(), source, name.into(), artist.into());
    s.duration = Duration::from_millis(ms);
    s
}

fn collection(id: &str, name: &str, source: SourceId, songs: Vec<SongInfo>) -> SyncCollection {
    SyncCollection { kind: SyncCollectionKind::Playlist, id: id.into(), name: name.into(), source, songs }
}

fn playlist(id: &str, name: &str, songs: Vec<SongInfo>) -> CustomPlaylist {
    CustomPlaylist { id: id.into(), name: name.into(), songs, created_at_unix_nanos: 0, updated_at_unix_nanos: 0 }
}

#[test]
fn same_platform_id_wins() {
    let a = song("1", SourceId::Wy, "A", "B", 1000);
    let b = song("1", SourceId::Wy, "X", "Y", 9000);
    assert_eq!(match_songs(&[a], &[b], 5000, 92)[0].confidence, MatchConfidence::PlatformId);
}

#[test]
fn exact_metadata_cross_platform() {
    let a = song("1", SourceId::Wy, "晴天", "周杰伦", 269000);
    let b = song("2", SourceId::Tx, "晴天", "周杰伦", 270000);
    assert_eq!(match_songs(&[a], &[b], 5000, 92)[0].confidence, MatchConfidence::ExactMetadata);
}

#[test]
fn unmatched_is_explicit() {
    let a = song("1", SourceId::Wy, "A", "B", 1000);
    let b = song("2", SourceId::Tx, "C", "D", 1000);
    let r = match_songs(&[a], &[b], 5000, 92);
    assert!(r[0].target.is_none());
    assert_eq!(r[0].confidence, MatchConfidence::Unmatched);
}

#[test]
fn each_target_song_is_matched_at_most_once() {
    let a = song("1", SourceId::Wy, "晴天", "周杰伦", 269000);
    let b = song("2", SourceId::Wy, "晴天", "周杰伦", 269000);
    let t = song("9", SourceId::Tx, "晴天", "周杰伦", 269000);
    let r = match_songs(&[a, b], &[t], 5000, 92);
    assert!(r[0].target.is_some());
    assert!(r[1].target.is_none());
}

#[test]
fn a_collection_cannot_be_planned_into_itself() {
    let c = collection("p", "P", SourceId::Wy, vec![]);
    let r = SyncEngine::plan(c.clone(), c, &SyncOptions::default());
    match r {
        Err(e) => assert_eq!(e.message(), "同步参数无效: 源歌单和目标歌单不能是同一个对象"),
        Ok(_) => panic!("planning a collection into itself must fail"),
    }
}

#[test]
fn plan_adds_the_unmatched_songs_and_mirror_removes_the_extra_ones() {
    let source = collection(
        "l",
        "L",
        SourceId::Local,
        vec![song("1", SourceId::Wy, "晴天", "周杰伦", 269000), song("2", SourceId::Wy, "稻香", "周杰伦", 223000)],
    );
    let target = collection(
        "r",
        "R",
        SourceId::Wy,
        vec![song("1", SourceId::Wy, "晴天", "周杰伦", 269000), song("3", SourceId::Wy, "七里香", "周杰伦", 299000)],
    );
    let mut options = SyncOptions::default();
    let plan = SyncEngine::plan(source.clone(), target.clone(), &options).unwrap();
    assert_eq!(plan.additions_count(), 1);
    assert_eq!(plan.additions[0].id, "2");
    assert_eq!(plan.removals_count(), 0);
    assert_eq!(plan.matched_count(), 1);
    options.policy = SyncPolicy::Mirror;
    let mirror = SyncEngine::plan(source, target, &options).unwrap();
    assert_eq!(mirror.removals_count(), 1);
    assert_eq!(mirror.removals[0].id, "3");
}

#[test]
fn sync_errors_read_as_their_kind_and_detail() {
    assert_eq!(SyncError::NotLoggedIn("wy".into()).message(), "音源未登录: wy");
    assert_eq!(SyncError::Provider("x".into()).message(), "同步请求失败: x");
}

#[test]
fn bound_playlists_win_over_name_matches() {
    let remote = vec![
        collection("a", "Mix", SourceId::Wy, vec![]),
        collection("b", "Road", SourceId::Wy, vec![]),
        collection("c", "Mix", SourceId::Wy, vec![]),
    ];
    assert_eq!(find_target(&remote, &Some("b".into()), &"Mix".to_string()), Some(1));
    assert_eq!(find_target(&remote, &None, &"Mix".to_string()), Some(2));
    assert_eq!(find_target(&remote, &Some("zzz".into()), &"Mix".to_string()), Some(2));
    assert_eq!(find_target(&remote, &None, &"Other".to_string()), None);
}

#[test]
fn preview_counts_each_direction_and_the_account_only_playlists() {
    let shared = song("1", SourceId::Wy, "晴天", "周杰伦", 269000);
    let locals = vec![
        playlist("l1", "Mix", vec![shared.clone(), song("2", SourceId::Kw, "稻香", "周杰伦", 223000)]),
        playlist("l2", "OnlyHere", vec![song("5", SourceId::Kw, "夜曲", "周杰伦", 226000)]),
    ];
    let remote = vec![
        collection("r1", "Mix", SourceId::Wy, vec![shared.clone(), song("3", SourceId::Wy, "七里香", "周杰伦", 299000)]),
        collection("r2", "Remote", SourceId::Wy, vec![song("4", SourceId::Wy, "告白气球", "周杰伦", 215000)]),
        collection("r3", "我喜欢", SourceId::Wy, vec![]),
    ];
    let favorites = SyncCollection {
        kind: SyncCollectionKind::Favorites,
        id: "fav".into(),
        name: "我喜欢".into(),
        source: SourceId::Wy,
        songs: vec![shared.clone()],
    };
    let preview: NeteaseSyncPreview =
        sync_preview(&locals, &[None, None], &remote, vec![shared.clone()], Some(favorites)).unwrap();

    assert_eq!(preview.playlists.len(), 2);
    assert_eq!(preview.playlists[0].name, "Mix");
    assert_eq!(preview.playlists[0].upload, 1);
    assert_eq!(preview.playlists[0].download, 1);
    assert_eq!(preview.playlists[0].matched, 1);
    assert_eq!(preview.playlists[0].unmatched, 2);
    assert_eq!(preview.playlists[0].mapping, "名称匹配");
    assert_eq!(preview.playlists[1].upload, 1);
    assert_eq!(preview.playlists[1].mapping, "");
    assert_eq!(preview.local_only, 1);
    assert_eq!(preview.remote_only, 1);
    assert_eq!(preview.upload, 2);
    assert_eq!(preview.download, 2);
    assert_eq!(preview.matched, 1);
    assert_eq!(preview.unmatched, 2);
    assert_eq!(preview.favorites_upload, 0);
    assert_eq!(preview.favorites_download, 0);
    assert_eq!(
        preview.unmatched_songs,
        vec![("稻香".to_string(), "周杰伦".to_string()), ("七里香".to_string(), "周杰伦".to_string())]
    );
}

#[test]
fn preview_without_account_favorites_fails() {
    let r = sync_preview(&[], &[], &[], vec![], None);
    assert_eq!(r.unwrap_err(), "网易云未找到“我喜欢”");
}

#[test]
fn preview_lists_at_most_one_hundred_unmatched_songs() {
    let many: Vec<SongInfo> = (0..150).map(|i| song(&i.to_string(), SourceId::Kw, &format!("s{i}"), "a", 1000)).collect();
    let locals = vec![playlist("l", "Big", many)];
    let remote = vec![collection("r", "Big", SourceId::Wy, vec![])];
    let favorites = collection("fav", "我喜欢", SourceId::Wy, vec![]);
    let preview = sync_preview(&locals, &[Some("r".into())], &remote, vec![], Some(favorites)).unwrap();
    assert_eq!(preview.upload, 150);
    assert_eq!(preview.unmatched, 150);
    assert_eq!(preview.unmatched_songs.len(), 100);
    assert_eq!(preview.playlists[0].mapping, "已绑定");
}

#[test]
fn sync_dialog_moves_through_its_phases() {
    let mut state = SyncUiState::default();
    assert_eq!(state.phase, SyncPhase::Preparing);
    assert!(!state.can_confirm());
    state.preview_loaded(Ok(NeteaseSyncPreview::default()));
    assert_eq!(state.phase, SyncPhase::Preview);
    assert!(state.can_confirm());
    state.start_running();
    assert_eq!(state.phase, SyncPhase::Running);
    state.sync_finished(Ok(NeteaseSyncReport::default()));
    assert_eq!(state.phase, SyncPhase::Done);

    let mut failed = SyncUiState::default();
    failed.preview_loaded(Err("boom".into()));
    assert_eq!(failed.phase, SyncPhase::Failed);
    assert_eq!(failed.error.as_deref(), Some("boom"));
}

use voicefox::sync::run::{SyncRequest, SyncRun};

/// Runs a plan against a platform that finds each song by title among
/// `catalog` and adds whatever it is given.
fn run_plan(plan: &voicefox::sync::model::SyncPlan, options: &SyncOptions, catalog: &[SongInfo], writable: bool) -> (Result<voicefox::sync::model::SyncReport, SyncError>, Vec<usize>) {
    let (mut run, mut request) = SyncRun::start();
    let mut batches = Vec::new();
    loop {
        request = match request {
            SyncRequest::CheckWrite => run.on_write_support(plan, options, false, writable, "wy"),
            SyncRequest::Search(i) => {
                let wanted = &plan.additions[i];
                let found: Vec<SongInfo> = catalog.iter().filter(|s| s.name == wanted.name).cloned().collect();
                run.on_candidates(plan, options, false, Ok(found))
            }
            SyncRequest::Add(songs) => {
                batches.push(songs.len());
                run.on_added(plan, options, false, Ok(songs.len()))
            }
            SyncRequest::Remove => run.on_removed(plan, Ok(0)),
            SyncRequest::Finished(result) => return (result, batches),
        };
    }
}

#[test]
fn a_run_adds_what_the_platform_finds_in_batches_and_reports_the_rest() {
    let source = collection(
        "l",
        "L",
        SourceId::Local,
        vec![
            song("1", SourceId::Kw, "晴天", "周杰伦", 269000),
            song("2", SourceId::Kw, "稻香", "周杰伦", 223000),
            song("3", SourceId::Kw, "不存在", "无名", 100000),
        ],
    );
    let target = collection("r", "Target", SourceId::Wy, vec![]);
    let mut options = SyncOptions::default();
    options.batch_size = 2;
    let plan = SyncEngine::plan(source, target, &options).unwrap();
    let catalog = vec![song("w1", SourceId::Wy, "晴天", "周杰伦", 269000), song("w2", SourceId::Wy, "稻香", "周杰伦", 223000)];

    let (result, batches) = run_plan(&plan, &options, &catalog, true);
    let report = result.unwrap();
    assert_eq!(batches, vec![2]);
    assert_eq!(report.added, 2);
    assert_eq!(report.removed, 0);
    assert_eq!(report.unmatched, 1);
    assert_eq!(report.failed[0].song, "不存在");
    assert_eq!(report.failed[0].reason, "目标音源找不到可匹配歌曲");
    assert_eq!(report.collection_name, "Target");
}

#[test]
fn a_platform_that_cannot_write_ends_the_run() {
    let source = collection("l", "L", SourceId::Local, vec![song("1", SourceId::Kw, "晴天", "周杰伦", 269000)]);
    let target = collection("r", "R", SourceId::Wy, vec![]);
    let options = SyncOptions::default();
    let plan = SyncEngine::plan(source, target, &options).unwrap();
    let (result, batches) = run_plan(&plan, &options, &[], false);
    assert!(batches.is_empty());
    match result {
        Err(SyncError::WriteUnsupported(name)) => assert_eq!(name, "wy"),
        _ => panic!("a platform that cannot write must end the run"),
    }
}
