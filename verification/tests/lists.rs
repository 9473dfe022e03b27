use std::borrow::Cow;

use vlc::sys::{libvlc_module_description_t, libvlc_track_description_t};
use vlc::{
    MediaPlayer, MediaPlayerAudioEx, MediaPlayerVideoEx, ModuleDescription, ModuleDescriptionList,
    ModuleDescriptionListIter, ModuleDescriptionRef, TrackDescription, TrackDescriptionList,
};

const BASE: usize = 0x1000;
const STEP: usize = 0x40;

fn module_nodes(names: &[&'static [u8]]) -> Vec<libvlc_module_description_t<'static>> {
    let k = names.len();
    (0..k)
        .map(|i| libvlc_module_description_t {
            psz_name: Some(names[i]),
            psz_shortname: None,
            psz_longname: Some(&b"long\0"[..]),
            psz_help: Some(&b"\0"[..]),
            p_next: if i + 1 < k { BASE + (i + 1) * STEP } else { 0 },
        })
        .collect()
}

fn walk_modules(
    head: usize,
    nodes: &[libvlc_module_description_t<'static>],
) -> (Vec<ModuleDescriptionRef<'static>>, usize) {
    let mut it = ModuleDescriptionListIter::from_raw(head);
    let mut out = Vec::new();
    let mut reads = 0;
    while let Some(p) = it.current() {
        assert_ne!(p, 0);
        let node = &nodes[(p - BASE) / STEP];
        reads += 1;
        out.push(it.next(node).unwrap());
        assert!(reads <= nodes.len());
    }
    (out, reads)
}

#[test]
fn list_of_k_nodes_yields_k_items() {
    let names: [&'static [u8]; 5] = [b"a\0", b"b\0", b"c\0", b"d\0", b"e\0"];
    for k in 1..=5 {
        let nodes = module_nodes(&names[..k]);
        let (items, reads) = walk_modules(BASE, &nodes);
        assert_eq!(reads, k);
        assert_eq!(items.len(), k);
        for i in 0..k {
            let expected = String::from_utf8(names[i][..1].to_vec()).unwrap();
            assert_eq!(items[i].name, Some(Cow::Owned(expected)));
        }
    }
}

#[test]
fn empty_list_yields_nothing_and_reads_nothing() {
    let (items, reads) = walk_modules(0, &[]);
    assert!(items.is_empty());
    assert_eq!(reads, 0);
    let it = ModuleDescriptionListIter::from_raw(0);
    assert_eq!(it.current(), None);
}

#[test]
fn exhausted_cursor_ignores_what_it_is_offered() {
    let nodes = module_nodes(&[b"only\0"]);
    let mut it = ModuleDescriptionListIter::from_raw(BASE);
    assert!(it.next(&nodes[0]).is_some());
    assert_eq!(it.current(), None);
    assert!(it.next(&nodes[0]).is_none());
    assert_eq!(it.current(), None);
}

#[test]
fn walk_starts_at_the_head_of_the_list() {
    let list = ModuleDescriptionList::from_raw(BASE).unwrap();
    let it = list.into_iter();
    assert_eq!(it.current(), Some(BASE));
}

#[test]
fn module_description_reads_each_string() {
    let node = libvlc_module_description_t {
        psz_name: Some(&b"equalizer\0"[..]),
        psz_shortname: Some(&b"eq\0"[..]),
        psz_longname: Some(&b"Equalizer with 10 bands\0"[..]),
        psz_help: None,
        p_next: 0,
    };
    let mut it = ModuleDescriptionListIter::from_raw(BASE);
    let d = it.next(&node).unwrap();
    assert_eq!(d.name, Some(Cow::Borrowed("equalizer")));
    assert_eq!(d.shortname, Some(Cow::Borrowed("eq")));
    assert_eq!(d.longname, Some(Cow::Borrowed("Equalizer with 10 bands")));
    assert_eq!(d.help, None);
}

#[test]
fn into_owned_copies_name_and_short_name() {
    let d = ModuleDescriptionRef {
        name: Some(Cow::Borrowed("n")),
        shortname: Some(Cow::Borrowed("s")),
        longname: Some(Cow::Borrowed("l")),
        help: None,
    };
    assert_eq!(
        d.into_owned(),
        ModuleDescription {
            name: Some(String::from("n")),
            shortname: Some(String::from("s")),
            longname: Some(String::from("n")),
            help: Some(String::from("s")),
        }
    );
    let e = ModuleDescriptionRef { name: None, shortname: None, longname: None, help: None };
    assert_eq!(
        e.into_owned(),
        ModuleDescription { name: None, shortname: None, longname: None, help: None }
    );
}

fn track_nodes(k: usize) -> Vec<libvlc_track_description_t<'static>> {
    let names: [&'static [u8]; 4] = [b"Disable\0", b"Track 1\0", b"Track 2\0", b"Track 3\0"];
    (0..k)
        .map(|i| libvlc_track_description_t {
            i_id: i as i32 - 1,
            psz_name: Some(names[i]),
            p_next: if i + 1 < k { BASE + (i + 1) * STEP } else { 0 },
        })
        .collect()
}

fn collect_tracks(walk: Option<TrackDescriptionList>, k: usize) -> Option<Vec<TrackDescription>> {
    let nodes = track_nodes(k);
    let mut walk = walk?;
    let mut reads = 0;
    while let Some(p) = walk.current() {
        walk.push(&nodes[(p - BASE) / STEP]);
        reads += 1;
        assert!(reads <= k);
    }
    assert_eq!(reads, k);
    Some(walk.into_vec())
}

#[test]
fn track_description_list_yields_every_node() {
    for k in 1..=4 {
        let found = collect_tracks(TrackDescriptionList::from_raw(BASE), k).unwrap();
        assert_eq!(found.len(), k);
        assert_eq!(found[0], TrackDescription { id: -1, name: Some(String::from("Disable")) });
        assert_eq!(found[k - 1].id, k as i32 - 2);
    }
}

#[test]
fn missing_track_description_list_is_absent() {
    assert!(TrackDescriptionList::from_raw(0).is_none());
    assert!(MediaPlayer::get_audio_track_description(0).is_none());
    assert!(MediaPlayer::get_video_track_description(0).is_none());
    assert_eq!(collect_tracks(MediaPlayer::get_audio_track_description(0), 0), None);
}

#[test]
fn audio_and_video_track_lists_are_walked_alike() {
    let audio = collect_tracks(MediaPlayer::get_audio_track_description(BASE), 3).unwrap();
    let video = collect_tracks(MediaPlayer::get_video_track_description(BASE), 3).unwrap();
    assert_eq!(audio, video);
    assert_eq!(audio[2], TrackDescription { id: 1, name: Some(String::from("Track 2")) });
}

#[test]
fn finished_walk_takes_no_more_nodes() {
    let nodes = track_nodes(1);
    let mut walk = TrackDescriptionList::from_raw(BASE).unwrap();
    walk.push(&nodes[0]);
    walk.push(&nodes[0]);
    assert_eq!(walk.current(), None);
    assert_eq!(walk.into_vec().len(), 1);
}
