use shebang::elevation::{Action, Event};
use shebang::mode::{elevate, is_executable};
use shebang::sfile::SFile;

/// Serves one request against a mode held in memory, as a caller with a
/// working file system would; gives back whether it ended well.
fn serve(sfile: &mut SFile, disk: &mut u32) -> bool {
    let mut event = Event::Requested;
    loop {
        match sfile.make_executable(event) {
            Action::Finish => return true,
            Action::Abort => return false,
            Action::ReadMode => event = Event::ModeRead(*disk),
            Action::WriteMode(mode) => {
                *disk = mode;
                event = Event::ModeWritten;
            }
        }
    }
}

#[test]
fn make_shabang_works() {
    let mut disk: u32 = 0o600;
    let mut sfile = SFile::new("#!/usr/bin/python\n\nprint(\"Hello, World!\")", disk);
    assert_eq!(sfile.executable(), false);
    assert!(serve(&mut sfile, &mut disk));
    assert_eq!(sfile.executable(), true);
    assert_eq!(disk, 0o700);
    assert_eq!(disk & 0o111, (0o600 & 0o444) >> 2);
}

#[test]
fn elevate_mirrors_read_bits() {
    assert_eq!(elevate(0o666), 0o777);
    assert_eq!(elevate(0o600), 0o700);
    assert_eq!(elevate(0o644), 0o755);
    assert_eq!(elevate(0o640), 0o750);
    assert_eq!(elevate(0o400), 0o500);
    assert_eq!(elevate(0o040), 0o050);
    assert_eq!(elevate(0o004), 0o005);
    assert_eq!(elevate(0o000), 0o000);
    assert_eq!(elevate(0o200), 0o200);
    assert_eq!(elevate(0o222), 0o222);
    assert_eq!(elevate(0o777), 0o777);
}

#[test]
fn elevate_leaves_other_bits_alone() {
    assert_eq!(elevate(0o4644), 0o4755);
    assert_eq!(elevate(0o7600), 0o7700);
    assert_eq!(elevate(0o100644), 0o100755);
    assert_eq!(elevate(0o100), 0o100);
    assert_eq!(elevate(0o104), 0o105);
    assert_eq!(elevate(0o011), 0o011);
    assert_eq!(elevate(0o411), 0o511);
    assert_eq!(elevate(u32::MAX), u32::MAX);
}

#[test]
fn elevate_holds_its_laws_on_every_low_mode() {
    for mode in 0u32..0o10000 {
        let raised = elevate(mode);
        assert_eq!(raised, mode | ((mode & 0o444) >> 2));
        assert_eq!(elevate(raised), raised);
        assert_eq!(raised & !mode & 0o111, ((mode & 0o444) >> 2) & !mode);
        assert_eq!(raised & mode, mode);
        assert_eq!(raised & !0o111, mode & !0o111);
        if mode & 0o111 == 0 {
            assert_eq!(raised & 0o111, (mode & 0o444) >> 2);
        }
    }
}

#[test]
fn is_executable_looks_at_the_three_execute_bits() {
    assert!(is_executable(0o100));
    assert!(is_executable(0o010));
    assert!(is_executable(0o001));
    assert!(is_executable(0o755));
    assert!(!is_executable(0));
    assert!(!is_executable(0o666));
    assert!(!is_executable(0o7666));
}

#[test]
fn request_walks_through_read_and_write() {
    let mut sfile = SFile::new("#!/bin/sh\n", 0o644);
    assert_eq!(sfile.make_executable(Event::Requested), Action::ReadMode);
    assert_eq!(sfile.executable(), false);
    assert_eq!(
        sfile.make_executable(Event::ModeRead(0o640)),
        Action::WriteMode(0o750)
    );
    assert_eq!(sfile.executable(), false);
    assert_eq!(sfile.make_executable(Event::ModeWritten), Action::Finish);
    assert_eq!(sfile.executable(), true);
    assert_eq!(sfile.make_executable(Event::Requested), Action::Finish);
}

#[test]
fn the_mode_read_counts_and_not_the_mode_at_construction() {
    let mut disk: u32 = 0o644;
    let mut sfile = SFile::new("echo hi\n", disk);
    disk = 0o400;
    assert!(serve(&mut sfile, &mut disk));
    assert_eq!(disk, 0o500);
    assert_eq!(sfile.executable(), true);
}

#[test]
fn executable_file_is_left_alone() {
    let mut disk: u32 = 0o744;
    let mut sfile = SFile::new("#!/bin/sh\n", disk);
    assert_eq!(sfile.executable(), true);
    assert_eq!(sfile.make_executable(Event::Requested), Action::Finish);
    assert!(serve(&mut sfile, &mut disk));
    assert_eq!(disk, 0o744);
    assert_eq!(sfile.executable(), true);
}

#[test]
fn second_request_changes_nothing() {
    for start in [0o600u32, 0o644, 0o666, 0o200, 0o000, 0o4640, 0o755, 0o100] {
        let mut disk = start;
        let mut sfile = SFile::new("#!/bin/sh\nexit 0\n", disk);
        assert!(serve(&mut sfile, &mut disk));
        let once = disk;
        assert_eq!(sfile.executable(), true);
        assert!(serve(&mut sfile, &mut disk));
        assert_eq!(disk, once);
        assert_eq!(sfile.executable(), true);
        assert_eq!(sfile.shebang(), &Some(String::from("#!/bin/sh\n")));
        assert_eq!(sfile.contents(), &String::from("exit 0\n"));
    }
}

#[test]
fn failure_leaves_the_flag_unset() {
    let mut sfile = SFile::new("#!/bin/sh\n", 0o644);
    assert_eq!(sfile.make_executable(Event::Requested), Action::ReadMode);
    assert_eq!(sfile.make_executable(Event::Failed), Action::Abort);
    assert_eq!(sfile.executable(), false);

    assert_eq!(sfile.make_executable(Event::Requested), Action::ReadMode);
    assert_eq!(
        sfile.make_executable(Event::ModeRead(0o644)),
        Action::WriteMode(0o755)
    );
    assert_eq!(sfile.make_executable(Event::Failed), Action::Abort);
    assert_eq!(sfile.executable(), false);
    assert_eq!(sfile.shebang(), &Some(String::from("#!/bin/sh\n")));
}

#[test]
fn failure_does_not_take_the_flag_away() {
    let mut sfile = SFile::new("#!/bin/sh\n", 0o755);
    assert_eq!(sfile.make_executable(Event::Failed), Action::Abort);
    assert_eq!(sfile.executable(), true);
}

#[test]
fn flag_is_set_even_where_no_class_may_read() {
    let mut disk: u32 = 0o200;
    let mut sfile = SFile::new("x", disk);
    assert!(serve(&mut sfile, &mut disk));
    assert_eq!(disk, 0o200);
    assert_eq!(sfile.executable(), true);
}

#[test]
fn write_changes_nothing() {
    let mut sfile = SFile::new("#!/bin/sh\necho hi\n", 0o644);
    sfile.write();
    assert_eq!(sfile.shebang(), &Some(String::from("#!/bin/sh\n")));
    assert_eq!(sfile.contents(), &String::from("echo hi\n"));
    assert_eq!(sfile.executable(), false);
}
