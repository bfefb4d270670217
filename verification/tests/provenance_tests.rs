use opspad::terminal::provenance::{
    is_command_run, logged_command, normalize_command, remembered_command, COMMAND_LIMIT,
    COMMAND_ORIGIN,
};
use opspad::terminal::session_manager::WriteMeta;

fn tagged(origin: &str) -> WriteMeta {
    WriteMeta { origin: Some(origin.to_string()) }
}

#[test]
fn the_marker_and_the_limit() {
    assert_eq!(COMMAND_ORIGIN, "commanddock");
    assert_eq!(COMMAND_LIMIT, 512);
}

#[test]
fn normalize_strips_line_breaks_then_trims() {
    assert_eq!(normalize_command("ls -la\r\n"), "ls -la");
    assert_eq!(normalize_command("  kubectl get pods \n"), "kubectl get pods");
    assert_eq!(normalize_command("a\nb\rc"), "abc");
    assert_eq!(normalize_command("echo  two  spaces"), "echo  two  spaces");
    assert_eq!(normalize_command(" \r\n\t "), "");
    assert_eq!(normalize_command(""), "");
    // a line break between blanks: the blanks meet and are trimmed together
    assert_eq!(normalize_command(" \n x \n "), "x");
}

#[test]
fn normalize_cuts_to_512_characters() {
    let long = "x".repeat(600);
    assert_eq!(normalize_command(&long), "x".repeat(512));
    let exact = "y".repeat(512);
    assert_eq!(normalize_command(&exact), exact);
    let short = "z".repeat(511);
    assert_eq!(normalize_command(&short), short);
}

#[test]
fn normalize_counts_characters_not_bytes() {
    let long = "é".repeat(600);
    let cut = normalize_command(&long);
    assert_eq!(cut.chars().count(), 512);
    assert_eq!(cut, "é".repeat(512));
}

#[test]
fn normalize_trims_before_it_cuts() {
    let mut data = String::from("   ");
    data.push_str(&"a".repeat(512));
    data.push_str("bbb   ");
    assert_eq!(normalize_command(&data), "a".repeat(512));
}

#[test]
fn a_tagged_string_of_600_with_line_breaks_is_remembered_cut_to_512() {
    // 600 characters: every tenth is a line break, alternately "\r" and "\n"
    let mut data = String::new();
    let mut i = 0;
    while i < 600 {
        if i % 10 == 9 {
            data.push(if (i / 10) % 2 == 0 { '\r' } else { '\n' });
        } else {
            data.push((b'a' + (i % 7) as u8) as char);
        }
        i += 1;
    }
    assert_eq!(data.chars().count(), 600);
    let expected: String = data
        .replace('\r', "")
        .replace('\n', "")
        .trim()
        .chars()
        .take(512)
        .collect();
    assert_eq!(expected.chars().count(), 512);
    let got = remembered_command(&data, &tagged("commanddock"));
    assert_eq!(got, Some(expected));
}

#[test]
fn only_the_marker_is_a_command_run() {
    assert!(is_command_run(&tagged("commanddock")));
    assert!(!is_command_run(&tagged("user")));
    assert!(!is_command_run(&tagged("CommandDock")));
    assert!(!is_command_run(&tagged("commanddock ")));
    assert!(!is_command_run(&tagged("")));
    assert!(!is_command_run(&WriteMeta { origin: None }));
    assert!(!is_command_run(&WriteMeta::default()));
}

#[test]
fn untagged_writes_are_never_remembered() {
    let commands = ["ls -la\n", "sudo rm -rf /tmp/x\r\n", "password123", "kubectl get pods"];
    for data in commands {
        assert_eq!(remembered_command(data, &WriteMeta::default()), None);
        assert_eq!(remembered_command(data, &tagged("user")), None);
        assert_eq!(remembered_command(data, &tagged("keyboard")), None);
    }
}

#[test]
fn tagged_writes_are_remembered_unless_empty() {
    assert_eq!(
        remembered_command("ls -la\r\n", &tagged("commanddock")),
        Some("ls -la".to_string())
    );
    assert_eq!(remembered_command("\r\n", &tagged("commanddock")), None);
    assert_eq!(remembered_command("   ", &tagged("commanddock")), None);
    assert_eq!(remembered_command("", &tagged("commanddock")), None);
}

#[test]
fn history_keeps_line_feeds_inside_and_has_no_limit() {
    assert_eq!(
        logged_command("echo a\r\necho b\r\n", Some("commanddock")),
        Some("echo a\necho b".to_string())
    );
    let long = "x".repeat(600);
    assert_eq!(logged_command(&long, Some("commanddock")), Some(long.clone()));
    assert_eq!(logged_command(" \r\n ", Some("commanddock")), None);
    assert_eq!(logged_command("ls", Some("user")), None);
    assert_eq!(logged_command("ls", None), None);
}
