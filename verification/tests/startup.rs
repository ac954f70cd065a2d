//! The slot that keeps the engine's handle.

use espeakng::{decide_admission, get, initialise, Admission, Request};
use once_cell::sync::OnceCell;

#[test]
fn empty_slot_holds_no_handle() {
    let slot: OnceCell<u32> = OnceCell::new();
    assert_eq!(get(&slot), None);
}

#[test]
fn empty_slot_starts_an_initialisation() {
    let slot: OnceCell<u32> = OnceCell::new();
    match initialise(&slot, Some("/data")) {
        Admission::Fresh(session) => {
            assert!(matches!(session.request(), Some(Request::SetSynthCallback)));
            let session = session.advance(espeakng::Reply::Done);
            match session.request() {
                Some(Request::InitializePath { path }) => {
                    assert_eq!(path, Some(b"/data\0".to_vec()))
                }
                other => panic!("unexpected request {:?}", other),
            }
        }
        Admission::Existing(_) => panic!("nothing was published"),
    }
    assert_eq!(get(&slot), None);
}

#[test]
fn initialise_twice_returns_the_same_handle() {
    let slot: OnceCell<u32> = OnceCell::new();
    slot.set(41).unwrap();
    let first = get(&slot);
    assert!(matches!(initialise(&slot, Some("/a")), Admission::Existing(41)));
    assert!(matches!(initialise(&slot, Some("/b")), Admission::Existing(41)));
    assert!(matches!(initialise(&slot, None), Admission::Existing(41)));
    assert_eq!(get(&slot), first);
    assert_eq!(get(&slot), Some(41));
}

#[test]
fn failed_initialisation_leaves_the_slot_empty() {
    let slot: OnceCell<u32> = OnceCell::new();
    if let Admission::Fresh(session) = initialise(&slot, None) {
        let session = session
            .advance(espeakng::Reply::Done)
            .advance(espeakng::Reply::Done)
            .advance(espeakng::Reply::Status(0x1000_02FF));
        assert!(matches!(session.finish(), Some(Err(_))));
    }
    assert_eq!(get(&slot), None);
    assert!(matches!(initialise(&slot, None), Admission::Fresh(_)));
}

#[test]
fn admission_goes_by_the_published_handle_alone() {
    assert!(matches!(decide_admission(Some('h'), Some("/a")), Admission::Existing('h')));
    assert!(matches!(decide_admission(Some('h'), None), Admission::Existing('h')));
    assert!(matches!(decide_admission(None::<char>, None), Admission::Fresh(_)));
}
