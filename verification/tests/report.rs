use forward_as_attachment_mta::message::InvocationArgs;
use forward_as_attachment_mta::report::{
    build_report, debug_list_string, more_than_owner_has_access, permission_warning_text,
    ConfigPermissions, HostIdentity, ProcessIdentity,
};

fn process() -> ProcessIdentity {
    ProcessIdentity {
        uid: 1000,
        gid: 100,
        effective_uid: 0,
        effective_gid: 4294967295,
        username: Some("alice".to_owned()),
        groupname: Some("users".to_owned()),
        effective_username: Some("root".to_owned()),
        effective_groupname: None,
    }
}

fn host() -> HostIdentity {
    HostIdentity {
        hostname: "box".to_owned(),
        device_name: "Alice's box".to_owned(),
        distro: "Debian GNU/Linux 12".to_owned(),
        platform: "Linux".to_owned(),
    }
}

#[test]
fn owner_only_modes_are_not_too_lax() {
    assert!(!more_than_owner_has_access(0o600));
    assert!(!more_than_owner_has_access(0o700));
    assert!(!more_than_owner_has_access(0o100400));
    assert!(!more_than_owner_has_access(0));
    assert!(!more_than_owner_has_access(0o4700));
}

#[test]
fn any_bit_for_group_or_others_is_too_lax() {
    for bit in [0o001u32, 0o002, 0o004, 0o010, 0o020, 0o040] {
        assert!(more_than_owner_has_access(0o600 | bit), "bit {:o}", bit);
    }
    assert!(more_than_owner_has_access(0o644));
    assert!(more_than_owner_has_access(0o100777));
    assert!(more_than_owner_has_access(u32::MAX));
}

#[test]
fn a_lax_mode_is_warned_of_with_its_permission_string() {
    assert_eq!(
        permission_warning_text(&ConfigPermissions::Mode(0o100644)),
        "WARNING: the config file contains SMTP credentials and has too-lax permissions: rw-r--r--\n"
    );
    assert_eq!(
        permission_warning_text(&ConfigPermissions::Mode(0o640)),
        "WARNING: the config file contains SMTP credentials and has too-lax permissions: rw-r-----\n"
    );
    assert_eq!(
        permission_warning_text(&ConfigPermissions::Mode(0o1777)),
        "WARNING: the config file contains SMTP credentials and has too-lax permissions: rwxrwxrwt\n"
    );
}

#[test]
fn a_strict_mode_is_not_warned_of() {
    assert_eq!(permission_warning_text(&ConfigPermissions::Mode(0o100600)), "");
    assert_eq!(permission_warning_text(&ConfigPermissions::Mode(0o400)), "");
}

#[test]
fn an_unknown_mode_is_warned_of_with_the_reason() {
    assert_eq!(
        permission_warning_text(&ConfigPermissions::Unknown("Permission denied (os error 13)".to_owned())),
        "WARNING: could not determine permissions of the config file, they may or may not be too lax: Permission denied (os error 13)\n"
    );
}

#[test]
fn a_list_is_written_as_debug_writes_it() {
    let lists: [Vec<String>; 5] = [
        vec![],
        vec!["sendmail".to_owned()],
        vec!["sendmail".to_owned(), "-froot".to_owned(), "-t".to_owned()],
        vec!["a \"quoted\" word".to_owned(), "back\\slash".to_owned(), "line\nbreak\ttab".to_owned()],
        vec!["".to_owned(), "\u{e9}\u{1f600}\u{7f}\u{0}".to_owned(), "'".to_owned()],
    ];
    for list in lists.iter() {
        assert_eq!(debug_list_string(list), format!("{:?}", list));
    }
    assert_eq!(debug_list_string(&lists[2]), r#"["sendmail", "-froot", "-t"]"#);
}

#[test]
fn arguments_are_shown_with_a_mark_where_they_were_replaced() {
    let list = vec!["sendmail".to_owned(), "-f\u{fffd}".to_owned()];
    assert_eq!(InvocationArgs::AllUtf8(list.clone()).display(), ": [\"sendmail\", \"-f\u{fffd}\"]");
    assert_eq!(
        InvocationArgs::Lossy(list).display(),
        "(non-utf-8): : [\"sendmail\", \"-f\u{fffd}\"]"
    );
    assert_eq!(InvocationArgs::AllUtf8(vec![]).display(), ": []");
}

#[test]
fn the_report_of_a_run() {
    let args = InvocationArgs::AllUtf8(vec!["sendmail".to_owned(), "-froot".to_owned()]);
    let report = build_report("box", &ConfigPermissions::Mode(0o100600), &args, &process(), &host());
    assert_eq!(
        report,
        "A process on host \"box\" invoked the sendmail binary.\n\
         On that host, the sendmail binary is provided by the forwad-as-attachment-mta package.\n\
         The original message is attached inline to this wrapper message.\n\
         \n\
         Invocation args: : [\"sendmail\", \"-froot\"]\n\
         \n\
         uid:1000 gid:100 euid:0 egid:4294967295\n\
         username: alice\n\
         groupname: users\n\
         effective username: root\n\
         effective groupname: \n\
         \n\
         hostname: box\n\
         device name: Alice's box\n\
         distro: Debian GNU/Linux 12\n\
         platform: Linux\n\
         \n"
    );
}

#[test]
fn the_report_warns_of_a_lax_configuration_file() {
    let args = InvocationArgs::Lossy(vec![]);
    let report = build_report("a\"b", &ConfigPermissions::Mode(0o100660), &args, &process(), &host());
    assert!(report.starts_with(
        "A process on host \"a\\\"b\" invoked the sendmail binary.\n\
         On that host, the sendmail binary is provided by the forwad-as-attachment-mta package.\n\
         WARNING: the config file contains SMTP credentials and has too-lax permissions: rw-rw----\n\
         The original message is attached inline to this wrapper message.\n\
         \n\
         Invocation args: (non-utf-8): : []\n\
         \n\
         uid:1000 "
    ));
}

fn flag(mode: u32, bit: u32, shown: char) -> char {
    if mode & bit != 0 {
        shown
    } else {
        '-'
    }
}

fn execute_flag(mode: u32, bit: u32, special_bit: u32, special: char, alone: char) -> char {
    match (mode & special_bit != 0, mode & bit != 0) {
        (true, true) => special,
        (true, false) => alone,
        (false, true) => 'x',
        (false, false) => '-',
    }
}

#[test]
fn every_lax_mode_is_shown_by_its_nine_bit_tests() {
    for mode in 0u32..0o10000 {
        for file_type in [0u32, 0o100000, 0o040000] {
            let mode = mode | file_type;
            let shown: String = [
                flag(mode, 0o400, 'r'),
                flag(mode, 0o200, 'w'),
                execute_flag(mode, 0o100, 0o4000, 's', 'S'),
                flag(mode, 0o040, 'r'),
                flag(mode, 0o020, 'w'),
                execute_flag(mode, 0o010, 0o2000, 's', 'S'),
                flag(mode, 0o004, 'r'),
                flag(mode, 0o002, 'w'),
                execute_flag(mode, 0o001, 0o1000, 't', 'T'),
            ]
            .iter()
            .collect();
            let expected = if mode & 0o077 != 0 {
                format!(
                    "WARNING: the config file contains SMTP credentials and has too-lax permissions: {shown}\n"
                )
            } else {
                String::new()
            };
            assert_eq!(permission_warning_text(&ConfigPermissions::Mode(mode)), expected);
        }
    }
}

#[test]
fn special_bits_are_shown_in_the_place_of_the_execute_bits() {
    let warning = |mode: u32| permission_warning_text(&ConfigPermissions::Mode(mode));
    assert!(warning(0o4755).ends_with(": rwsr-xr-x\n"));
    assert!(warning(0o4655).ends_with(": rwSr-xr-x\n"));
    assert!(warning(0o2775).ends_with(": rwxrwsr-x\n"));
    assert!(warning(0o2765).ends_with(": rwxrwSr-x\n"));
    assert!(warning(0o1776).ends_with(": rwxrwxrwT\n"));
    assert!(warning(0o0007).ends_with(": ------rwx\n"));
}
