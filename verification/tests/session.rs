use rtun::session::{accept_session_id, session_ids};
use rtun::{
    new_session_id, ApplicationServerManifest, ClientInfo, RandomNumbers, RtunState, SessionStore,
};
use std::collections::HashSet;

#[test]
fn new_session_has_no_application_server() {
    let info: ClientInfo<u32> = ClientInfo::new(7, RtunState::Established);
    assert_eq!(info.session_id, 7);
    assert_eq!(info.state, RtunState::Established);
    assert!(info.application_stream.is_none());
    assert!(info.manifest.is_none());
}

#[test]
fn only_the_suspended_session_itself_is_resumable() {
    let mut info: ClientInfo<u32> = ClientInfo::new(7, RtunState::Established);
    assert!(!info.check_resumable(&7));
    info.suspend();
    assert!(info.check_resumable(&7));
    assert!(!info.check_resumable(&8));
    info.resume();
    assert!(!info.check_resumable(&7));
    info.close();
    assert!(!info.check_resumable(&7));
    let early: ClientInfo<u32> = ClientInfo::new(7, RtunState::NotEstablished);
    assert!(!early.check_resumable(&7));
}

#[test]
fn resume_undoes_suspend() {
    let mut info: ClientInfo<u32> = ClientInfo::new(7, RtunState::Established);
    info.application_stream = Some(3);
    info.suspend();
    assert_eq!(info.state, RtunState::Suspended);
    info.resume();
    assert_eq!(info.state, RtunState::Established);
    assert_eq!(info.session_id, 7);
    assert_eq!(info.application_stream, Some(3));
}

#[test]
fn close_hands_out_the_stream() {
    let mut info: ClientInfo<u32> = ClientInfo::new(7, RtunState::Suspended);
    assert!(info.close().is_none());
    assert_eq!(info.state, RtunState::Closed);
    info.application_stream = Some(3);
    assert_eq!(info.close(), Some(&3));
    assert_eq!(info.application_stream, Some(3));
}

#[test]
fn clone_keeps_everything() {
    let mut info: ClientInfo<u32> = ClientInfo::new(7, RtunState::Suspended);
    info.application_stream = Some(3);
    info.manifest = Some(ApplicationServerManifest { ipaddr: "10.0.0.1".to_string(), port: 80 });
    let copy = info.clone();
    assert_eq!(copy.session_id, 7);
    assert_eq!(copy.state, RtunState::Suspended);
    assert_eq!(copy.application_stream, Some(3));
    assert_eq!(copy.manifest, info.manifest);
}

#[test]
fn taken_ids_are_not_accepted() {
    let taken: HashSet<u64> = [1, 2].into_iter().collect();
    assert_eq!(accept_session_id(&taken, 1), None);
    assert_eq!(accept_session_id(&taken, 3), Some(3));
}

#[test]
fn new_ids_are_free_and_random() {
    let mut numbers = RandomNumbers::new();
    let mut taken: HashSet<u64> = HashSet::new();
    for _ in 0..1000 {
        let id = new_session_id(&taken, &mut numbers).unwrap();
        assert!(taken.insert(id));
    }
    let empty: HashSet<u64> = HashSet::new();
    assert_ne!(new_session_id(&empty, &mut numbers), new_session_id(&empty, &mut numbers));
}

#[test]
fn two_sources_give_different_numbers() {
    let mut one = RandomNumbers::new();
    let mut other = RandomNumbers::new();
    assert_ne!(one.next_u64(), other.next_u64());
    assert_ne!(one.next_u64(), one.next_u64());
}

#[test]
fn ids_of_a_store() {
    let mut store: SessionStore<u32> = SessionStore::new();
    assert!(session_ids(&store).is_empty());
    for id in [5, 9, u64::MAX] {
        store.insert(id, ClientInfo::new(id, RtunState::Established));
    }
    let expected: HashSet<u64> = [5, 9, u64::MAX].into_iter().collect();
    assert_eq!(session_ids(&store), expected);
}
