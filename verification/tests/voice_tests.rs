use bobo_ro_ctd::{
    decimal_string, find_voice_file, find_voice_file_by, set_debug_console, voice_file_from_probes, voice_file_name, voice_file_path,
    ConsoleAction,
};
use std::cell::RefCell;
use std::path::{Path, PathBuf};

#[test]
fn decimal_numerals() {
    assert_eq!(decimal_string(0), "0");
    assert_eq!(decimal_string(7), "7");
    assert_eq!(decimal_string(10), "10");
    assert_eq!(decimal_string(305), "305");
    assert_eq!(decimal_string(usize::MAX), usize::MAX.to_string());
}

#[test]
fn voice_file_names() {
    assert_eq!(voice_file_name(5, "mp3"), "5.mp3");
    assert_eq!(voice_file_name(12, "flac"), "12.flac");
}

#[test]
fn voice_paths_in_order() {
    let expected = ["3.mp3", "3.wav", "3.ogg", "3.m4a", "3.flac"];
    for (i, name) in expected.iter().enumerate() {
        assert_eq!(voice_file_path(3, i), Path::new("assets/voice").join(name));
    }
}

#[test]
fn missing_voice_file() {
    assert_eq!(find_voice_file(987654), None);
}

#[test]
fn console_follows_debug_switch() {
    assert_eq!(set_debug_console(true), ConsoleAction::Allocate);
    assert_eq!(set_debug_console(false), ConsoleAction::Release);
}

#[test]
fn first_existing_voice_file_is_chosen() {
    assert_eq!(voice_file_from_probes(4, &vec![false, false, true]), Some(voice_file_path(4, 2)));
    assert_eq!(voice_file_from_probes(4, &vec![true]), Some(Path::new("assets/voice").join("4.mp3")));
    assert_eq!(voice_file_from_probes(4, &vec![false; 5]), None);
    assert_eq!(voice_file_from_probes(4, &Vec::new()), None);
}

#[test]
fn search_asks_in_extension_order_and_stops_at_first_yes() {
    let wav = Path::new("assets/voice").join("3.wav");
    let ogg = Path::new("assets/voice").join("3.ogg");
    let asked = RefCell::new(Vec::new());
    let probe = |p: &PathBuf| {
        asked.borrow_mut().push(p.clone());
        *p == wav || *p == ogg
    };
    assert_eq!(find_voice_file_by(3, &probe), Some(wav.clone()));
    assert_eq!(*asked.borrow(), vec![voice_file_path(3, 0), voice_file_path(3, 1)]);
    asked.borrow_mut().clear();
    assert_eq!(find_voice_file_by(4, &probe), None);
    assert_eq!(asked.borrow().len(), 5);
}
