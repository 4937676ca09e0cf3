use synapsed::station::state::ringtone::{
    calculate_stable_id, stable_id_from_hash, AudioConfig, RingtoneError, RingtoneItem, RingtoneManager,
};

fn entries(names: &[&str]) -> Option<Vec<String>> {
    Some(names.iter().map(|n| n.to_string()).collect())
}

fn model(m: &RingtoneManager) -> Vec<(i32, String, String)> {
    m.get_ringtone_model()
        .into_iter()
        .map(|r: RingtoneItem| (r.ringtone_id, r.ringtone_name, r.ringtone_path))
        .collect()
}

fn config(path: Option<&str>) -> AudioConfig {
    AudioConfig { ringtone_path: path.map(|p| p.to_string()) }
}

#[test]
fn missing_directory_is_refused() {
    let r = RingtoneManager::new(config(None), "/ringtones", None);
    assert!(matches!(r, Err(RingtoneError::DirectoryNotFound)));
}

#[test]
fn lists_mp3_files_sorted_with_unassigned_first() {
    let (m, changed) =
        RingtoneManager::new(config(None), "/r", entries(&["bell.mp3", "notes.txt", "alarm.MP3", ".mp3", "chime.Mp3"]))
            .unwrap();
    assert!(!changed);
    let got = model(&m);
    let shown: Vec<(String, String)> = got.iter().map(|(_, n, p)| (n.clone(), p.clone())).collect();
    assert_eq!(
        shown,
        vec![
            ("Unassigned".to_string(), "".to_string()),
            ("Alarm".to_string(), "/r/alarm.MP3".to_string()),
            ("Bell".to_string(), "/r/bell.mp3".to_string()),
            ("Chime".to_string(), "/r/chime.Mp3".to_string()),
        ]
    );
    assert_eq!(got[0].0, -1);
    for (id, _, path) in &got[1..] {
        assert_eq!(*id, calculate_stable_id(path));
        assert!(*id >= 0);
    }
    assert_eq!(m.get_ringtone_id(), -1);
    assert_eq!(m.get_ringtone_path(), None);
    assert_eq!(m.ringtone_dir(), "/r");
}

#[test]
fn stem_keeps_inner_dots_and_upper_cases_unicode() {
    let (m, _) = RingtoneManager::new(config(None), "/r/", entries(&["über.ton.mp3"])).unwrap();
    let got = model(&m);
    assert_eq!(got[1].1, "Über.ton");
    assert_eq!(got[1].2, "/r/über.ton.mp3");
}

#[test]
fn unlisted_choice_is_dropped_on_load() {
    let (m, changed) = RingtoneManager::new(config(Some("/r/gone.mp3")), "/r", entries(&["bell.mp3"])).unwrap();
    assert!(changed);
    assert_eq!(m.get_ringtone_path(), None);
    assert_eq!(m.audio_config().ringtone_path, None);
    assert_eq!(m.get_ringtone_id(), -1);
}

#[test]
fn listed_choice_is_kept_on_load() {
    let (m, changed) = RingtoneManager::new(config(Some("/r/bell.mp3")), "/r", entries(&["bell.mp3"])).unwrap();
    assert!(!changed);
    assert_eq!(m.get_ringtone_path(), Some("/r/bell.mp3"));
    assert_eq!(m.get_ringtone_id(), calculate_stable_id("/r/bell.mp3"));
}

#[test]
fn choose_then_read_back() {
    let dir = entries(&["a.mp3", "b.mp3"]);
    let (mut m, _) = RingtoneManager::new(config(None), "/r", dir.clone()).unwrap();
    let id_b = model(&m)[2].0;
    m.set_ringtone_id(id_b, dir.clone()).unwrap();
    assert_eq!(m.get_ringtone_id(), id_b);
    assert_eq!(m.get_ringtone_path(), Some("/r/b.mp3"));
    m.set_ringtone_id(-1, dir).unwrap();
    assert_eq!(m.get_ringtone_id(), -1);
    assert_eq!(m.get_ringtone_path(), None);
}

#[test]
fn unknown_id_is_refused_and_keeps_choice() {
    let dir = entries(&["a.mp3"]);
    let (mut m, _) = RingtoneManager::new(config(Some("/r/a.mp3")), "/r", dir.clone()).unwrap();
    let id_a = m.get_ringtone_id();
    let unknown = if id_a == 7 { 8 } else { 7 };
    assert_eq!(m.set_ringtone_id(unknown, dir), Err(RingtoneError::UnknownRingtoneId));
    assert_eq!(m.get_ringtone_path(), Some("/r/a.mp3"));
    assert_eq!(m.set_ringtone_id(id_a, None), Err(RingtoneError::DirectoryNotFound));
    assert_eq!(m.get_ringtone_path(), Some("/r/a.mp3"));
}

#[test]
fn refresh_drops_a_removed_choice() {
    let (mut m, _) = RingtoneManager::new(config(Some("/r/a.mp3")), "/r", entries(&["a.mp3", "b.mp3"])).unwrap();
    assert_eq!(m.refresh_ringtones(entries(&["a.mp3", "c.mp3"])), Ok(false));
    assert_eq!(m.get_ringtone_path(), Some("/r/a.mp3"));
    assert_eq!(model(&m).len(), 3);
    assert_eq!(m.refresh_ringtones(entries(&["b.mp3"])), Ok(true));
    assert_eq!(m.get_ringtone_path(), None);
    assert_eq!(m.refresh_ringtones(None), Err(RingtoneError::DirectoryNotFound));
    assert_eq!(model(&m).len(), 1);
}

#[test]
fn fetch_without_directory_empties_the_list() {
    let (mut m, _) = RingtoneManager::new(config(None), "/r", entries(&["a.mp3"])).unwrap();
    assert_eq!(m.fetch_ringtone_files(None), Err(RingtoneError::DirectoryNotFound));
    assert_eq!(model(&m).len(), 1);
}

#[test]
fn validate_reports_nothing_for_a_listed_choice() {
    let (mut m, _) = RingtoneManager::new(config(Some("/r/a.mp3")), "/r", entries(&["a.mp3"])).unwrap();
    assert!(!m.validate_internal_audio_config());
}

#[test]
fn ids_are_the_low_31_bits_of_the_hash() {
    assert_eq!(stable_id_from_hash(0), 0);
    assert_eq!(stable_id_from_hash(0xFFFF_FFFF_FFFF_FFFF), 0x7FFF_FFFF);
    assert_eq!(stable_id_from_hash(0x8000_0001), 1);
    assert_eq!(stable_id_from_hash(0x1234_5678_9ABC_DEF0), 0x1ABC_DEF0);
    assert!(calculate_stable_id("/r/a.mp3") >= 0);
    assert_eq!(calculate_stable_id("/r/a.mp3"), calculate_stable_id("/r/a.mp3"));
}

#[test]
fn second_refresh_with_the_same_directory_changes_nothing() {
    let dir = entries(&["b.mp3", "a.mp3", "c.wav"]);
    let (mut m, _) = RingtoneManager::new(config(Some("/r/gone.mp3")), "/r", dir.clone()).unwrap();
    let first = model(&m);
    assert_eq!(m.refresh_ringtones(dir.clone()), Ok(false));
    assert_eq!(model(&m), first);
    let id_a = first[1].0;
    m.set_ringtone_id(id_a, dir.clone()).unwrap();
    assert_eq!(m.refresh_ringtones(dir), Ok(false));
    assert_eq!(m.get_ringtone_id(), id_a);
}

#[test]
fn ascii_names_are_upper_cased_at_the_start_only() {
    let (m, _) = RingtoneManager::new(config(None), "/r", entries(&["zebra.mp3", "1up.mp3", "aB.mp3"])).unwrap();
    let names: Vec<String> = model(&m).into_iter().map(|(_, n, _)| n).collect();
    assert_eq!(names, vec!["Unassigned", "1up", "AB", "Zebra"]);
}

#[test]
fn ids_survive_a_refresh_and_are_accepted() {
    let (mut m, _) = RingtoneManager::new(config(None), "/r", entries(&["a.mp3", "b.mp3"])).unwrap();
    let before = model(&m);
    assert_eq!(m.refresh_ringtones(entries(&["b.mp3", "c.mp3", "a.mp3"])), Ok(false));
    let after = model(&m);
    assert_eq!(after[1], before[1]);
    assert_eq!(after[2], before[2]);
    assert_eq!(m.set_ringtone_id(before[2].0, entries(&["a.mp3", "b.mp3", "c.mp3"])), Ok(()));
    assert_eq!(m.get_ringtone_id(), before[2].0);
    assert_eq!(m.get_ringtone_path(), Some("/r/b.mp3"));
}
