use vlc::{ArgsError, Instance, NulError, Vlm, VlmError};

#[test]
fn broadcast_arguments_are_marshaled() {
    let options = Some(vec![String::from("sout-keep")]);
    let a = Instance::add_broadcast("ch1", "file:///in.ts", "#std", &options, true, false).unwrap();
    assert_eq!(a.name, b"ch1\0".to_vec());
    assert_eq!(a.input, b"file:///in.ts\0".to_vec());
    assert_eq!(a.output, b"#std\0".to_vec());
    assert_eq!(a.options.argc, 1);
    assert_eq!(a.options.argv, vec![b"sout-keep\0".to_vec()]);
    assert_eq!(a.enabled, 1);
    assert_eq!(a.loop_broadcast, 0);
}

#[test]
fn broadcast_without_options_has_count_zero() {
    let a = Instance::add_broadcast("n", "i", "o", &None, false, true).unwrap();
    assert_eq!(a.options.argc, 0);
    assert!(a.options.argv.is_empty());
    assert_eq!(a.enabled, 0);
    assert_eq!(a.loop_broadcast, 1);
}

#[test]
fn first_text_with_null_byte_decides_the_error() {
    let bad_options = Some(vec![String::from("a\0")]);
    let e = |r: Result<vlc::BroadcastArgs, VlmError>| r.err().unwrap();
    assert_eq!(
        e(Instance::add_broadcast("n\0", "i\0", "o\0", &bad_options, true, true)),
        VlmError::Name(NulError { position: 1 })
    );
    assert_eq!(
        e(Instance::add_broadcast("n", "\0i", "o\0", &bad_options, true, true)),
        VlmError::Input(NulError { position: 0 })
    );
    assert_eq!(
        e(Instance::add_broadcast("n", "i", "ou\0", &bad_options, true, true)),
        VlmError::Output(NulError { position: 2 })
    );
    assert_eq!(
        e(Instance::add_broadcast("n", "i", "o", &bad_options, true, true)),
        VlmError::Options(ArgsError::Nul { index: 0, position: 1 })
    );
}

#[test]
fn vod_arguments_are_marshaled() {
    let a = Instance::add_vod("v", "in", "ts", &None, true).unwrap();
    assert_eq!(a.name, b"v\0".to_vec());
    assert_eq!(a.input, b"in\0".to_vec());
    assert_eq!(a.mux, b"ts\0".to_vec());
    assert_eq!(a.options.argc, 0);
    assert_eq!(a.enabled, 1);
    match Instance::add_vod("v", "in", "t\0s", &None, true) {
        Err(e) => assert_eq!(e, VlmError::Mux(NulError { position: 1 })),
        Ok(_) => panic!("a muxer name with a null byte was marshaled"),
    }
}

#[test]
fn media_requests_succeed_on_zero_only() {
    assert_eq!(Instance::play_media(0), Ok(()));
    assert_eq!(Instance::play_media(-1), Err(()));
    assert_eq!(Instance::pause_media(0), Ok(()));
    assert_eq!(Instance::pause_media(1), Err(()));
    assert_eq!(Instance::stop_media(0), Ok(()));
    assert_eq!(Instance::stop_media(-1), Err(()));
}

#[test]
fn instance_queries_fail_on_minus_one_only() {
    assert_eq!(Instance::get_media_instance_length(-1), Err(()));
    assert_eq!(Instance::get_media_instance_length(5000), Ok(5000));
    assert_eq!(Instance::get_media_instance_time(-1), Err(()));
    assert_eq!(Instance::get_media_instance_time(0), Ok(0));
    assert_eq!(Instance::get_media_instance_rate(-1), Err(()));
    assert_eq!(Instance::get_media_instance_rate(-2), Ok(-2));
}

#[test]
fn show_media_fails_on_null() {
    assert_eq!(Instance::show_media(None), Err(()));
    assert_eq!(
        Instance::show_media(Some(&b"{\"name\":\"v\"}\0"[..])),
        Ok(String::from("{\"name\":\"v\"}"))
    );
}
