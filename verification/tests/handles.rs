use vlc::{
    HandleState, Instance, Media, MediaLibrary, MediaList, MediaPlayer, ModuleDescriptionList,
    NativeHandle,
};

#[test]
fn null_from_constructor_is_no_handle() {
    assert!(NativeHandle::from_raw(0).is_none());
    assert!(Instance::from_raw(0).is_none());
    assert!(Media::from_raw(0).is_none());
    assert!(MediaPlayer::from_raw(0).is_none());
    assert!(MediaList::from_raw(0).is_none());
    assert!(MediaLibrary::from_raw(0).is_none());
    assert!(ModuleDescriptionList::from_raw(0).is_none());
}

#[test]
fn handle_keeps_its_address() {
    let h = NativeHandle::from_raw(0x1000).unwrap();
    assert_eq!(h.raw(), 0x1000);
    assert!(h.is_live());
    assert_eq!(Instance::from_raw(0x20).unwrap().raw(), 0x20);
    assert_eq!(Media::from_raw(0x21).unwrap().raw(), 0x21);
    assert_eq!(MediaPlayer::from_raw(0x22).unwrap().raw(), 0x22);
    assert_eq!(MediaList::from_raw(0x23).unwrap().raw(), 0x23);
    assert_eq!(MediaLibrary::from_raw(0x24).unwrap().raw(), 0x24);
    assert_eq!(ModuleDescriptionList::from_raw(0x25).unwrap().raw(), 0x25);
}

#[test]
fn construct_then_drop_releases_once() {
    let mut released: Vec<usize> = Vec::new();
    let mut h = Instance::from_raw(0xbeef).unwrap();
    if let Some(p) = h.release() {
        released.push(p);
    }
    assert_eq!(released, vec![0xbeef]);
    assert!(!h.is_live());
}

#[test]
fn repeated_teardown_releases_once() {
    let mut count = 0;
    let mut h = Media::from_raw(0x40).unwrap();
    for _ in 0..5 {
        if h.release().is_some() {
            count += 1;
        }
    }
    assert_eq!(count, 1);
    assert_eq!(h.raw(), 0x40);
}

#[test]
fn failed_operation_then_drop_still_releases_once() {
    let mut count = 0;
    let mut player = MediaPlayer::from_raw(0x50).unwrap();
    assert_eq!(MediaPlayer::play(-1), Err(()));
    assert!(player.is_live());
    if player.release().is_some() {
        count += 1;
    }
    if player.release().is_some() {
        count += 1;
    }
    assert_eq!(count, 1);
}

#[test]
fn handle_states_are_distinct() {
    assert_ne!(HandleState::Uninitialized, HandleState::Live);
    assert_ne!(HandleState::Live, HandleState::Released);
    assert_ne!(HandleState::Uninitialized, HandleState::Released);
}

#[test]
fn event_manager_view_keeps_its_address() {
    let media = Media::from_raw(0x60).unwrap();
    let em = media.event_manager(0x61);
    assert_eq!(em.raw(), 0x61);
    let player = MediaPlayer::from_raw(0x62).unwrap();
    assert_eq!(player.event_manager(0x63).raw(), 0x63);
    let list = MediaList::from_raw(0x64).unwrap();
    assert_eq!(list.event_manager(0x65).raw(), 0x65);
}

#[test]
fn default_construction_passes_no_arguments() {
    let native = Instance::new();
    assert_eq!(native.argc, 0);
    assert!(native.argv.is_empty());
    let same = Instance::with_args(&None).unwrap();
    assert_eq!(same.argc, 0);
    assert!(same.argv.is_empty());
}

#[test]
fn construction_arguments_are_marshaled_or_refused() {
    let args = Some(vec![String::from("--no-xlib"), String::from("-vvv")]);
    let native = Instance::with_args(&args).unwrap();
    assert_eq!(native.argc, 2);
    assert_eq!(native.argv, vec![b"--no-xlib\0".to_vec(), b"-vvv\0".to_vec()]);
    let bad = Some(vec![String::from("--no\0xlib")]);
    match Instance::with_args(&bad) {
        Err(e) => assert_eq!(e, vlc::ArgsError::Nul { index: 0, position: 4 }),
        Ok(_) => panic!("an argument with a null byte was marshaled"),
    }
}

#[test]
fn media_locators_are_marshaled_or_refused() {
    assert_eq!(Media::new_location("http://a/b"), Ok(b"http://a/b\0".to_vec()));
    assert_eq!(Media::new_location("a\0b"), Err(vlc::NulError { position: 1 }));
    assert_eq!(Media::new_path("/tmp/a.ogg"), Some(b"/tmp/a.ogg\0".to_vec()));
    assert_eq!(Media::new_path("/tmp/\0a.ogg"), None);
}
