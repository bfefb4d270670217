use opspad::terminal::registry::{CommandRecord, Registry, Session, SessionMeta};
use opspad::terminal::session_manager::{SpawnSpec, TerminalKind, WriteMeta};
use opspad::terminal::{SessionId, TerminalError};

fn meta(tag: &str) -> SessionMeta {
    SessionMeta {
        kind: TerminalKind::Local,
        environment_tag: tag.to_string(),
        cols: 120,
        rows: 30,
        last_command: None,
    }
}

fn session(tag: &str, resources: u32) -> Session<u32> {
    Session { meta: meta(tag), resources }
}

fn spec(cols: Option<u16>, rows: Option<u16>) -> SpawnSpec {
    SpawnSpec {
        kind: TerminalKind::Ssh,
        environment_tag: "PROD".to_string(),
        initial_cols: cols,
        initial_rows: rows,
        program: "ssh".to_string(),
        args: vec!["-tt".to_string(), "ops@bastion".to_string()],
    }
}

fn command_run() -> WriteMeta {
    WriteMeta { origin: Some("commanddock".to_string()) }
}

fn is_not_found<T>(r: &Result<T, TerminalError>) -> bool {
    matches!(r, Err(TerminalError::NotFound))
}

fn has_identifier_shape(id: &str) -> bool {
    let chars: Vec<char> = id.chars().collect();
    if chars.len() != 36 {
        return false;
    }
    let mut i = 0;
    while i < 36 {
        let c = chars[i];
        let ok = if i == 8 || i == 13 || i == 18 || i == 23 {
            c == '-'
        } else {
            ('0'..='9').contains(&c) || ('a'..='f').contains(&c)
        };
        if !ok {
            return false;
        }
        i += 1;
    }
    true
}

#[test]
fn a_new_registry_tracks_nothing() {
    let reg: Registry<u32> = Registry::new();
    assert!(!reg.contains("a"));
    assert!(reg.get("a").is_none());
    assert!(!reg.contains(""));
}

#[test]
fn the_registry_counts_its_sessions() {
    let mut reg: Registry<u32> = Registry::new();
    assert!(reg.is_empty());
    assert_eq!(reg.len(), 0);
    reg.insert("a".to_string(), session("DEV", 1));
    reg.insert("b".to_string(), session("DEV", 2));
    assert_eq!(reg.len(), 2);
    reg.insert("a".to_string(), session("DEV", 3));
    assert_eq!(reg.len(), 2);
    assert!(reg.resize("a", 1, 1).is_ok());
    assert!(reg.begin_write("b", "x", &command_run(), 1).is_ok());
    assert_eq!(reg.len(), 2);
    assert!(reg.finalize("a").is_some());
    assert_eq!(reg.len(), 1);
    assert!(!reg.is_empty());
    assert!(reg.close("b").is_ok());
    assert!(reg.close("b").is_err());
    assert_eq!(reg.len(), 0);
    assert!(reg.is_empty());
}

#[test]
fn insert_then_get() {
    let mut reg: Registry<u32> = Registry::new();
    assert!(reg.insert("a".to_string(), session("DEV", 1)).is_none());
    assert!(reg.insert("b".to_string(), session("PROD", 2)).is_none());
    assert!(reg.contains("a"));
    assert!(reg.contains("b"));
    assert!(!reg.contains("c"));
    let a = reg.get("a").unwrap();
    assert_eq!(a.resources, 1);
    assert_eq!(a.meta.environment_tag, "DEV");
    assert_eq!((a.meta.cols, a.meta.rows), (120, 30));
    assert!(a.meta.last_command.is_none());
    let b = reg.get("b").unwrap();
    assert_eq!(b.resources, 2);
    assert_eq!(b.meta.environment_tag, "PROD");
}

#[test]
fn insert_under_a_tracked_id_replaces_and_hands_back_the_old_session() {
    let mut reg: Registry<u32> = Registry::new();
    reg.insert("a".to_string(), session("DEV", 1));
    reg.insert("b".to_string(), session("DEV", 2));
    let old = reg.insert("a".to_string(), session("STAGE", 3)).unwrap();
    assert_eq!(old.resources, 1);
    assert_eq!(old.meta.environment_tag, "DEV");
    let a = reg.get("a").unwrap();
    assert_eq!(a.resources, 3);
    assert_eq!(a.meta.environment_tag, "STAGE");
    assert_eq!(reg.get("b").unwrap().resources, 2);
}

#[test]
fn remove_finds_the_session_only_the_first_time() {
    let mut reg: Registry<u32> = Registry::new();
    reg.insert("a".to_string(), session("DEV", 1));
    reg.insert("b".to_string(), session("DEV", 2));
    let first = reg.remove("a");
    assert_eq!(first.unwrap().resources, 1);
    assert!(reg.remove("a").is_none());
    assert!(reg.remove("a").is_none());
    assert!(!reg.contains("a"));
    assert_eq!(reg.get("b").unwrap().resources, 2);
}

#[test]
fn remove_of_an_id_never_issued_finds_nothing() {
    let mut reg: Registry<u32> = Registry::new();
    reg.insert("a".to_string(), session("DEV", 1));
    assert!(reg.remove("zzz").is_none());
    assert!(reg.remove("").is_none());
    assert!(reg.contains("a"));
}

#[test]
fn register_tracks_the_session_under_a_fresh_identifier() {
    let mut reg: Registry<u32> = Registry::new();
    let SessionId(id) = reg.register(&spec(None, None), 7);
    assert!(has_identifier_shape(&id), "{}", id);
    let s = reg.get(&id).unwrap();
    assert_eq!(s.resources, 7);
    assert_eq!(s.meta.kind, TerminalKind::Ssh);
    assert_eq!(s.meta.environment_tag, "PROD");
    assert_eq!((s.meta.cols, s.meta.rows), (120, 30));
    assert!(s.meta.last_command.is_none());
}

#[test]
fn register_records_the_opening_size() {
    let mut reg: Registry<u32> = Registry::new();
    let SessionId(a) = reg.register(&spec(Some(80), Some(24)), 1);
    let SessionId(b) = reg.register(&spec(Some(100), None), 2);
    let SessionId(c) = reg.register(&spec(None, Some(50)), 3);
    assert_eq!((reg.get(&a).unwrap().meta.cols, reg.get(&a).unwrap().meta.rows), (80, 24));
    assert_eq!((reg.get(&b).unwrap().meta.cols, reg.get(&b).unwrap().meta.rows), (100, 30));
    assert_eq!((reg.get(&c).unwrap().meta.cols, reg.get(&c).unwrap().meta.rows), (120, 50));
}

#[test]
fn registered_identifiers_differ() {
    let mut reg: Registry<u32> = Registry::new();
    let mut ids: Vec<String> = Vec::new();
    let mut i = 0;
    while i < 50 {
        let SessionId(id) = reg.register(&spec(None, None), i);
        assert!(has_identifier_shape(&id));
        assert!(!ids.contains(&id));
        ids.push(id);
        i += 1;
    }
    let mut k = 0;
    while k < 50 {
        assert_eq!(reg.get(&ids[k as usize]).unwrap().resources, k);
        k += 1;
    }
}

#[test]
fn a_failed_spawn_tracks_nothing() {
    let mut reg: Registry<u32> = Registry::new();
    reg.insert("a".to_string(), session("DEV", 1));
    let r = reg.complete_spawn(&spec(None, None), Err("openpty failed: no ptys".to_string()));
    match r {
        Err(TerminalError::Backend(msg)) => assert_eq!(msg, "openpty failed: no ptys"),
        _ => panic!("a failed spawn must be a backend error"),
    }
    assert!(reg.contains("a"));
    assert_eq!(reg.get("a").unwrap().resources, 1);
}

#[test]
fn a_successful_spawn_is_tracked() {
    let mut reg: Registry<u32> = Registry::new();
    let r = reg.complete_spawn(&spec(Some(90), Some(40)), Ok(5));
    let id = match r {
        Ok(SessionId(id)) => id,
        Err(_) => panic!("a successful spawn must be tracked"),
    };
    assert!(has_identifier_shape(&id));
    let s = reg.get(&id).unwrap();
    assert_eq!(s.resources, 5);
    assert_eq!((s.meta.cols, s.meta.rows), (90, 40));
}

#[test]
fn write_resize_close_of_an_unknown_id_are_not_found() {
    let mut reg: Registry<u32> = Registry::new();
    reg.insert("a".to_string(), session("DEV", 1));
    for id in ["never-issued", "", "A", "a "] {
        assert!(is_not_found(&reg.begin_write(id, "ls\n", &WriteMeta::default(), 1)));
        assert!(is_not_found(&reg.begin_write(id, "ls\n", &command_run(), 1)));
        assert!(is_not_found(&reg.resize(id, 80, 24)));
        assert!(is_not_found(&reg.close(id)));
        assert!(reg.finalize(id).is_none());
    }
    let a = reg.get("a").unwrap();
    assert_eq!((a.meta.cols, a.meta.rows), (120, 30));
    assert!(a.meta.last_command.is_none());
}

#[test]
fn write_resize_close_of_a_removed_id_are_not_found() {
    let mut reg: Registry<u32> = Registry::new();
    reg.insert("a".to_string(), session("DEV", 1));
    reg.insert("b".to_string(), session("DEV", 2));
    assert!(reg.close("a").is_ok());
    assert!(is_not_found(&reg.begin_write("a", "ls\n", &command_run(), 1)));
    assert!(is_not_found(&reg.resize("a", 80, 24)));
    assert!(is_not_found(&reg.close("a")));
    assert!(reg.finalize("b").is_some());
    assert!(is_not_found(&reg.begin_write("b", "ls\n", &command_run(), 1)));
    assert!(is_not_found(&reg.resize("b", 80, 24)));
    assert!(is_not_found(&reg.close("b")));
}

#[test]
fn resize_is_reflected() {
    let mut reg: Registry<u32> = Registry::new();
    reg.insert("a".to_string(), session("DEV", 1));
    reg.insert("b".to_string(), session("DEV", 2));
    let resources = *reg.resize("a", 80, 24).unwrap();
    assert_eq!(resources, 1);
    let a = reg.get("a").unwrap();
    assert_eq!((a.meta.cols, a.meta.rows), (80, 24));
    assert_eq!(a.meta.environment_tag, "DEV");
    assert!(a.meta.last_command.is_none());
    let b = reg.get("b").unwrap();
    assert_eq!((b.meta.cols, b.meta.rows), (120, 30));
}

#[test]
fn resize_keeps_the_last_size_asked_for() {
    let mut reg: Registry<u32> = Registry::new();
    reg.insert("a".to_string(), session("DEV", 1));
    assert!(reg.resize("a", 80, 24).is_ok());
    assert!(reg.resize("a", 200, 60).is_ok());
    assert!(reg.resize("a", 0, 0).is_ok());
    assert!(reg.resize("a", 65535, 1).is_ok());
    let a = reg.get("a").unwrap();
    assert_eq!((a.meta.cols, a.meta.rows), (65535, 1));
}

#[test]
fn an_untagged_write_leaves_the_last_command_alone() {
    let mut reg: Registry<u32> = Registry::new();
    reg.insert("a".to_string(), session("DEV", 1));
    for data in ["ls -la\n", "sudo systemctl restart nginx\r\n", "hunter2\n"] {
        assert!(reg.begin_write("a", data, &WriteMeta::default(), 10).is_ok());
        assert!(reg
            .begin_write("a", data, &WriteMeta { origin: Some("user".to_string()) }, 11)
            .is_ok());
        assert!(reg.get("a").unwrap().meta.last_command.is_none());
    }
    assert!(reg.begin_write("a", "uptime\n", &command_run(), 12).is_ok());
    assert!(reg.begin_write("a", "hunter2\n", &WriteMeta::default(), 13).is_ok());
    let rec: &CommandRecord = reg.get("a").unwrap().meta.last_command.as_ref().unwrap();
    assert_eq!(rec.command, "uptime");
    assert_eq!(rec.at, 12);
}

#[test]
fn a_tagged_write_is_remembered_with_its_time() {
    let mut reg: Registry<u32> = Registry::new();
    reg.insert("a".to_string(), session("DEV", 1));
    reg.insert("b".to_string(), session("DEV", 2));
    assert!(reg.begin_write("a", "  kubectl get pods -n prod \r\n", &command_run(), 1234).is_ok());
    let a = reg.get("a").unwrap();
    let rec = a.meta.last_command.as_ref().unwrap();
    assert_eq!(rec.command, "kubectl get pods -n prod");
    assert_eq!(rec.at, 1234);
    assert_eq!((a.meta.cols, a.meta.rows), (120, 30));
    assert_eq!(a.resources, 1);
    assert!(reg.get("b").unwrap().meta.last_command.is_none());
}

#[test]
fn a_tagged_write_of_nothing_keeps_the_earlier_command() {
    let mut reg: Registry<u32> = Registry::new();
    reg.insert("a".to_string(), session("DEV", 1));
    assert!(reg.begin_write("a", "uptime\n", &command_run(), 1).is_ok());
    assert!(reg.begin_write("a", "\r\n", &command_run(), 2).is_ok());
    assert!(reg.begin_write("a", "   ", &command_run(), 3).is_ok());
    let rec = reg.get("a").unwrap().meta.last_command.as_ref().unwrap();
    assert_eq!(rec.command, "uptime");
    assert_eq!(rec.at, 1);
}

#[test]
fn a_tagged_write_of_600_characters_is_remembered_cut_to_512() {
    let mut reg: Registry<u32> = Registry::new();
    reg.insert("a".to_string(), session("DEV", 1));
    let mut data = String::from("  ");
    data.push_str(&"ab\r\n".repeat(149));
    data.push_str("  ");
    assert_eq!(data.chars().count(), 600);
    assert!(reg.begin_write("a", &data, &command_run(), 9).is_ok());
    let rec = reg.get("a").unwrap().meta.last_command.as_ref().unwrap();
    assert_eq!(rec.command, "ab".repeat(149));
    let long = "q\n".repeat(300);
    assert_eq!(long.chars().count(), 600);
    assert!(reg.begin_write("a", &long, &command_run(), 10).is_ok());
    let rec = reg.get("a").unwrap().meta.last_command.as_ref().unwrap();
    assert_eq!(rec.command, "q".repeat(300));
    let longer = "w".repeat(600);
    assert!(reg.begin_write("a", &longer, &command_run(), 11).is_ok());
    let rec = reg.get("a").unwrap().meta.last_command.as_ref().unwrap();
    assert_eq!(rec.command, "w".repeat(512));
    assert_eq!(rec.at, 11);
}

#[test]
fn a_write_hands_on_the_raw_bytes() {
    let mut reg: Registry<u32> = Registry::new();
    reg.insert("a".to_string(), session("DEV", 41));
    let (resources, bytes) = reg.begin_write("a", "  ls -la \r\n", &command_run(), 1).unwrap();
    assert_eq!(*resources, 41);
    assert_eq!(bytes, "  ls -la \r\n".as_bytes());
    let (_, bytes) = reg.begin_write("a", "é✓", &WriteMeta::default(), 2).unwrap();
    assert_eq!(bytes, "é✓".as_bytes());
    let (_, bytes) = reg.begin_write("a", "", &WriteMeta::default(), 3).unwrap();
    assert_eq!(bytes.len(), 0);
}

#[test]
fn writes_in_sequence_hand_on_their_bytes_in_that_order() {
    let mut reg: Registry<u32> = Registry::new();
    reg.insert("a".to_string(), session("DEV", 1));
    reg.insert("b".to_string(), session("DEV", 2));
    let writes = ["echo one\n", "echo two\r\n", "", "ls\n", "\u{1b}[A", "exit\n"];
    let mut child: Vec<u8> = Vec::new();
    let mut n: u64 = 0;
    for w in writes {
        let meta = if n % 2 == 0 { command_run() } else { WriteMeta::default() };
        let (_, bytes) = reg.begin_write("a", w, &meta, n).unwrap();
        child.extend_from_slice(bytes);
        assert!(reg.resize("b", 10, 10).is_ok());
        n += 1;
    }
    assert_eq!(child, writes.concat().into_bytes());
}

#[test]
fn close_hands_the_session_over_once() {
    let mut reg: Registry<u32> = Registry::new();
    reg.insert("a".to_string(), session("DEV", 1));
    reg.insert("b".to_string(), session("DEV", 2));
    let closed = reg.close("a");
    assert_eq!(closed.ok().unwrap().resources, 1);
    assert!(!reg.contains("a"));
    assert!(is_not_found(&reg.close("a")));
    assert!(reg.contains("b"));
}

#[test]
fn a_natural_exit_is_announced_exactly_once() {
    let mut reg: Registry<u32> = Registry::new();
    reg.insert("a".to_string(), session("DEV", 1));
    reg.insert("b".to_string(), session("DEV", 2));
    // the output loop and the exit-wait loop both finalize; either may be first
    let first = reg.finalize("a");
    let second = reg.finalize("a");
    assert_eq!(first.unwrap().session_id, "a");
    assert!(second.is_none());
    assert!(reg.finalize("a").is_none());
    assert!(!reg.contains("a"));
    assert!(reg.contains("b"));
    assert_eq!(reg.finalize("b").unwrap().session_id, "b");
}

#[test]
fn exits_are_counted_for_each_session() {
    let mut reg: Registry<u32> = Registry::new();
    let mut ids: Vec<String> = Vec::new();
    let mut i = 0;
    while i < 5 {
        let SessionId(id) = reg.register(&spec(None, None), i);
        ids.push(id);
        i += 1;
    }
    let mut announced = 0;
    // both loops of every session finalize, in interleaved order
    for id in ids.iter() {
        if reg.finalize(id).is_some() {
            announced += 1;
        }
    }
    for id in ids.iter().rev() {
        if reg.finalize(id).is_some() {
            announced += 1;
        }
    }
    assert_eq!(announced, 5);
}

#[test]
fn no_exit_is_announced_after_close() {
    let mut reg: Registry<u32> = Registry::new();
    reg.insert("a".to_string(), session("DEV", 1));
    assert!(reg.close("a").is_ok());
    assert!(reg.finalize("a").is_none());
    assert!(reg.finalize("a").is_none());
}

#[test]
fn close_after_a_natural_exit_is_not_found() {
    let mut reg: Registry<u32> = Registry::new();
    reg.insert("a".to_string(), session("DEV", 1));
    assert!(reg.finalize("a").is_some());
    assert!(is_not_found(&reg.close("a")));
}

#[test]
fn sessions_at_spawn() {
    let m = SessionMeta::at_spawn(&spec(None, Some(10)));
    assert_eq!(m.kind, TerminalKind::Ssh);
    assert_eq!(m.environment_tag, "PROD");
    assert_eq!((m.cols, m.rows), (120, 10));
    assert!(m.last_command.is_none());
}
