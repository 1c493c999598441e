use hpatchz::classify::allowed_print;
use hpatchz::classify::classify;
use hpatchz::classify::contains_sub;
use hpatchz::classify::is_blank_line;
use hpatchz::classify::trimmed;
use hpatchz::exit_outcome;
use hpatchz::runner::drain_decision;
use hpatchz::runner::HPatchz;
use hpatchz::runner::HPatchzType;
use hpatchz::runner::StreamSource;
use hpatchz::slicing::joined_path;
use hpatchz::slicing::slice_bytes;
use hpatchz::slicing::sliced_diff_file_name;
use hpatchz::store::MaterializeAction;
use hpatchz::store::PayloadStore;
use hpatchz::LogLevel;
use hpatchz::PatchError;
use hpatchz::ABNORMAL_EXIT;

#[test]
fn classify_surfaces_milestone_lines_at_info() {
    assert_eq!(classify("Patch inited: foo.bin"), Some(LogLevel::Info));
    assert_eq!(classify("begin patch file data.pak"), Some(LogLevel::Info));
    assert_eq!(classify("end patch file data.pak"), Some(LogLevel::Info));
}

#[test]
fn classify_suppresses_blank_and_chatter() {
    assert_eq!(classify("   "), None);
    assert_eq!(classify(""), None);
    assert_eq!(classify("\t\r\n"), None);
    assert_eq!(classify("random chatter"), None);
    assert_eq!(classify("progress: 42%"), None);
}

#[test]
fn allowed_print_is_an_allow_list() {
    assert!(allowed_print("Patch inited: a"));
    assert!(allowed_print("xx begin patch file yy"));
    assert!(allowed_print("end patch file"));
    assert!(!allowed_print("Patch init"));
    assert!(!allowed_print("begin patch"));
    assert!(!allowed_print(""));
    assert!(!allowed_print("  \t "));
}

#[test]
fn contains_sub_finds_substrings() {
    assert!(contains_sub("hello world", "world"));
    assert!(contains_sub("abc", "abc"));
    assert!(contains_sub("abc", ""));
    assert!(!contains_sub("abc", "abd"));
    assert!(!contains_sub("ab", "abc"));
    assert!(!contains_sub("", "a"));
}

#[test]
fn trimmed_strips_flanking_whitespace() {
    assert_eq!(trimmed("  a  "), "a");
    assert_eq!(trimmed("abc"), "abc");
    assert_eq!(trimmed("\t Patch inited \r"), "Patch inited");
    assert_eq!(trimmed("   "), "");
    assert_eq!(trimmed(""), "");
}

#[test]
fn is_blank_line_matches_whitespace_only() {
    assert!(is_blank_line(""));
    assert!(is_blank_line(" \t\r\n"));
    assert!(!is_blank_line(" x "));
}

#[test]
fn slice_bytes_copies_the_requested_range() {
    let data: Vec<u8> = (0u8..=9).collect();
    let sliced = slice_bytes(&data, 2, 3).unwrap();
    assert_eq!(sliced, vec![2u8, 3, 4]);
}

#[test]
fn slice_bytes_truncates_at_end_of_file() {
    let data: Vec<u8> = (0u8..=9).collect();
    let sliced = slice_bytes(&data, 5, 1000).unwrap();
    assert_eq!(sliced, vec![5u8, 6, 7, 8, 9]);
}

#[test]
fn slice_bytes_at_end_of_file_is_empty() {
    let data: Vec<u8> = vec![1, 2, 3];
    let sliced = slice_bytes(&data, 3, 4).unwrap();
    assert!(sliced.is_empty());
}

#[test]
fn slice_bytes_rejects_offset_beyond_end() {
    let data: Vec<u8> = vec![1, 2, 3];
    assert_eq!(slice_bytes(&data, 4, 0), Err(PatchError::Io));
    assert_eq!(slice_bytes(&data, u64::MAX, 1), Err(PatchError::Io));
}

#[test]
fn sliced_diff_file_name_is_deterministic() {
    assert_eq!(
        sliced_diff_file_name("foo.bin.diff", 200, 300),
        "foo.bin.diff_200_300.diff"
    );
    assert_eq!(sliced_diff_file_name("d", 0, 0), "d_0_0.diff");
    assert_eq!(
        sliced_diff_file_name("d", u64::MAX, 1),
        "d_18446744073709551615_1.diff"
    );
}

#[test]
fn joined_path_inserts_separator() {
    assert_eq!(joined_path("dest", "x.diff"), "dest/x.diff");
}

#[test]
fn drain_surfaces_every_stderr_line_but_filters_stdout() {
    assert_eq!(
        drain_decision(StreamSource::Stderr, "anything at all"),
        Some(LogLevel::Warn)
    );
    assert_eq!(drain_decision(StreamSource::Stderr, ""), Some(LogLevel::Warn));
    assert_eq!(
        drain_decision(StreamSource::Stdout, "Patch inited: a"),
        Some(LogLevel::Info)
    );
    assert_eq!(drain_decision(StreamSource::Stdout, "anything at all"), None);
}

#[test]
fn exit_outcome_keeps_normal_exit_codes() {
    assert_eq!(exit_outcome(Some(7)), 7);
    assert_eq!(exit_outcome(Some(0)), 0);
    assert_eq!(exit_outcome(Some(255)), 255);
}

#[test]
fn exit_outcome_maps_signal_death_to_sentinel() {
    assert_eq!(exit_outcome(None), -99);
    assert_eq!(ABNORMAL_EXIT, -99);
}

#[test]
fn patch_builds_the_fixed_argument_order() {
    let handle = HPatchz::new(
        HPatchzType::Hoyo,
        String::from("/tmp/hpatchz.tmp"),
        vec![String::from("--quiet"), String::from("-x")],
    );
    let cmd = handle.patch("game.pak", "out", "update.diff");
    assert_eq!(cmd.program, "/tmp/hpatchz.tmp");
    assert_eq!(cmd.args, vec!["game.pak", "update.diff", "out", "-f", "--quiet", "-x"]);
}

#[test]
fn patch_legacy_builds_the_same_command() {
    let handle = HPatchz::new(HPatchzType::Kuro, String::from("p"), Vec::new());
    let a = handle.patch("s", "d", "x.diff");
    let b = handle.patch_legacy("s", "d", "x.diff");
    assert_eq!(a.program, b.program);
    assert_eq!(a.args, b.args);
    assert_eq!(b.args, vec!["s", "x.diff", "d", "-f"]);
}

#[test]
fn patch_offset_plans_slice_name_and_command() {
    let handle = HPatchz::new(HPatchzType::Hoyo, String::from("p"), Vec::new());
    let mut data: Vec<u8> = Vec::new();
    for i in 0..1000u64 {
        data.push((i % 251) as u8);
    }
    let plan = handle
        .patch_offset("src.pak", "dest", "c.diff", &data, 200, 300)
        .unwrap();
    assert_eq!(plan.sliced_bytes.len(), 300);
    assert_eq!(plan.sliced_bytes[..], data[200..500]);
    assert_eq!(plan.sliced_file_name, "c.diff_200_300.diff");
    assert_eq!(plan.sliced_path, "dest/c.diff_200_300.diff");
    assert_eq!(plan.command.program, "p");
    assert_eq!(
        plan.command.args,
        vec!["src.pak", "dest/c.diff_200_300.diff", "dest", "-f"]
    );
}

#[test]
fn patch_offset_rejects_offset_beyond_end() {
    let handle = HPatchz::new(HPatchzType::Hoyo, String::from("p"), Vec::new());
    let data: Vec<u8> = vec![0; 10];
    assert!(matches!(
        handle.patch_offset("s", "d", "c.diff", &data, 11, 1),
        Err(PatchError::Io)
    ));
}

#[test]
fn sequential_offset_patches_on_disjoint_ranges_both_succeed() {
    let handle = HPatchz::new(HPatchzType::Kuro, String::from("p"), Vec::new());
    let mut data: Vec<u8> = Vec::new();
    for i in 0..1000u64 {
        data.push((i % 256) as u8);
    }
    let first = handle
        .patch_offset("s", "dest_a", "c.diff", &data, 0, 100)
        .unwrap();
    let second = handle
        .patch_offset("s", "dest_b", "c.diff", &data, 500, 100)
        .unwrap();
    assert_eq!(first.sliced_bytes[..], data[0..100]);
    assert_eq!(second.sliced_bytes[..], data[500..600]);
    assert_ne!(first.sliced_path, second.sliced_path);
}

#[test]
fn materialize_writes_once_then_reuses() {
    let mut store = PayloadStore::new(false);
    let (name, action) = store.materialize(HPatchzType::Hoyo);
    assert_eq!(name, "hpatchz.tmp");
    assert_eq!(action, MaterializeAction::WritePayload(HPatchzType::Hoyo));

    let (name_again, action_again) = store.materialize(HPatchzType::Kuro);
    assert_eq!(name_again, "hpatchz.tmp");
    assert_eq!(action_again, MaterializeAction::NoWrite);
}

#[test]
fn materialize_after_release_writes_again() {
    let mut store = PayloadStore::new(true);
    let (_, action) = store.materialize(HPatchzType::Kuro);
    assert_eq!(action, MaterializeAction::NoWrite);

    store.release();
    let (_, action) = store.materialize(HPatchzType::Kuro);
    assert_eq!(action, MaterializeAction::WritePayload(HPatchzType::Kuro));
}
