use opspad::db::ssh_scope;
use opspad::terminal::launch::ssh_args;
use opspad::terminal::provenance::{logged_command, normalize_command, remembered_command};
use opspad::terminal::session_manager::WriteMeta;
use opspad::text::{str_is_blank, trimmed};

const ALPHABET: [char; 6] = [' ', 'a', '\r', '\n', '\u{A0}', 'é'];

/// Every string over `ALPHABET` of at most `max_len` characters.
fn all_strings(max_len: usize) -> Vec<String> {
    let mut out = vec![String::new()];
    let mut last = vec![String::new()];
    let mut len = 0;
    while len < max_len {
        let mut next = Vec::new();
        for s in last.iter() {
            for c in ALPHABET {
                let mut t = s.clone();
                t.push(c);
                next.push(t);
            }
        }
        out.extend(next.iter().cloned());
        last = next;
        len += 1;
    }
    out
}

fn cut(s: &str, limit: usize) -> String {
    s.chars().take(limit).collect()
}

#[test]
fn trimming_agrees_with_the_standard_library_on_every_short_string() {
    for s in all_strings(5) {
        assert_eq!(trimmed(&s), s.trim(), "{:?}", s);
        assert_eq!(str_is_blank(&s), s.trim().is_empty(), "{:?}", s);
    }
}

#[test]
fn normalizing_agrees_with_replace_and_trim_on_every_short_string() {
    for s in all_strings(5) {
        let expected = cut(s.replace('\r', "").replace('\n', "").trim(), 512);
        assert_eq!(normalize_command(&s), expected, "{:?}", s);
    }
}

#[test]
fn remembering_agrees_with_replace_and_trim_on_every_short_string() {
    let run = WriteMeta { origin: Some("commanddock".to_string()) };
    let typed = WriteMeta { origin: Some("user".to_string()) };
    let plain = WriteMeta { origin: None };
    for s in all_strings(4) {
        let normal = cut(s.replace('\r', "").replace('\n', "").trim(), 512);
        let expected = if normal.is_empty() { None } else { Some(normal) };
        assert_eq!(remembered_command(&s, &run), expected, "{:?}", s);
        assert_eq!(remembered_command(&s, &typed), None, "{:?}", s);
        assert_eq!(remembered_command(&s, &plain), None, "{:?}", s);
    }
}

#[test]
fn logging_agrees_with_replace_and_trim_on_every_short_string() {
    for s in all_strings(4) {
        let text = s.replace('\r', "").trim().to_string();
        let expected = if text.is_empty() { None } else { Some(text) };
        assert_eq!(logged_command(&s, Some("commanddock")), expected, "{:?}", s);
        assert_eq!(logged_command(&s, Some("user")), None, "{:?}", s);
        assert_eq!(logged_command(&s, None), None, "{:?}", s);
    }
}

#[test]
fn the_cut_is_at_512_characters_for_every_length_around_it() {
    let mut n = 500;
    while n <= 530 {
        let data = "é".repeat(n);
        let got = normalize_command(&data);
        assert_eq!(got.chars().count(), if n < 512 { n } else { 512 });
        assert_eq!(got, cut(&data, 512));
        let padded = format!("  {}\r\n  ", "k".repeat(n));
        assert_eq!(normalize_command(&padded), "k".repeat(if n < 512 { n } else { 512 }));
        n += 1;
    }
}

#[test]
fn ssh_args_agree_with_the_assembly_rule_on_every_combination() {
    let ports = [None, Some(0u16), Some(22), Some(2222), Some(65535)];
    let identities = [None, Some(""), Some("  "), Some("~/.ssh/id"), Some(" k ")];
    let extras: [Vec<&str>; 3] = [vec![], vec!["-A"], vec!["-o", "X=y", "-v"]];
    for port in ports {
        for identity in identities {
            for extra in extras.iter() {
                let mut expected: Vec<String> = vec!["-tt".to_string()];
                if let Some(p) = port {
                    expected.push("-p".to_string());
                    expected.push(p.to_string());
                }
                if let Some(id) = identity {
                    if !id.trim().is_empty() {
                        expected.push("-i".to_string());
                        expected.push(id.to_string());
                    }
                }
                expected.extend(extra.iter().map(|s| s.to_string()));
                expected.push("ops@host.example".to_string());
                let got = ssh_args(
                    "ops",
                    "host.example",
                    port,
                    identity.map(|s| s.to_string()),
                    extra.iter().map(|s| s.to_string()).collect(),
                );
                assert_eq!(got, expected);
            }
        }
    }
}

#[test]
fn scopes_agree_with_the_rule_on_every_combination() {
    let host_ids = [None, Some(""), Some("  "), Some("h1"), Some(" h 2 ")];
    let ports = [None, Some(0u16), Some(22), Some(65535)];
    for host_id in host_ids {
        for port in ports {
            let expected = match host_id.map(str::trim).filter(|s| !s.is_empty()) {
                Some(hid) => format!("ssh:{hid}"),
                None => format!("ssh:{}@{}:{}", "u", "h", port.unwrap_or(22)),
            };
            assert_eq!(ssh_scope(host_id, "u", "h", port), expected);
        }
    }
}
