use pocket_tray::voices::VoiceStore;

#[test]
fn store_loads_each_voice_once() {
    let mut s: VoiceStore<u32> = VoiceStore::new();
    assert!(s.is_empty());
    assert!(s.insert("alba".to_string(), 1));
    assert!(s.insert("jean".to_string(), 2));
    assert!(!s.insert("alba".to_string(), 3));
    assert_eq!(s.get("alba"), Some(&1));
    assert_eq!(s.get("jean"), Some(&2));
    assert_eq!(s.get("ghost"), None);
    assert!(s.contains("jean"));
    assert!(!s.contains("jea"));
    assert_eq!(s.ids_vec(), vec!["alba".to_string(), "jean".to_string()]);
}
