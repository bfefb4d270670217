//! The records that the application stores (hosts, command shortcuts), and
//! the rules by which they are made from what the user enters and from what
//! a stored row holds. The storage itself is the caller's.

use vstd::prelude::*;
use vstd::string::StringExecFns;
use crate::ident::{fresh_identifier, is_identifier};
use crate::text::{
    chars_of, decimal, is_blank, opt_text, push_decimal, string_of, string_of_range, trim,
    trim_bounds,
};

verus! {

/// The port of a host that names none.
pub const DEFAULT_PORT: u16 = 22;

/// How many history entries are listed when the caller names no limit.
pub const DEFAULT_HISTORY_LIMIT: i64 = 200;

/// The most history entries that are listed at once.
pub const MAX_HISTORY_LIMIT: i64 = 500;

/// How many history entries are kept.
pub const HISTORY_CAPACITY: i64 = 300;

/// A stored host.
#[derive(Clone, Debug)]
pub struct Host {
    pub id: String,
    pub label: String,
    pub hostname: String,
    pub port: u16,
    pub username: String,
    pub environment_tag: String,
    pub identity_file: Option<String>,
    pub color: Option<String>,
}

/// What the user enters for a new host.
#[derive(Clone, Debug)]
pub struct HostCreate {
    pub label: String,
    pub hostname: String,
    pub port: Option<u16>,
    pub username: String,
    pub environment_tag: String,
    pub identity_file: Option<String>,
    pub color: Option<String>,
}

/// What the user enters to change a host.
#[derive(Clone, Debug)]
pub struct HostUpdate {
    pub id: String,
    pub label: String,
    pub hostname: String,
    pub port: u16,
    pub username: String,
    pub environment_tag: String,
    pub identity_file: Option<String>,
    pub color: Option<String>,
}

/// A stored command shortcut.
#[derive(Clone, Debug)]
pub struct DockCommand {
    pub id: String,
    pub title: String,
    pub command: String,
    pub requires_confirm: bool,
    pub color: Option<String>,
}

/// What the user enters for a new command shortcut.
#[derive(Clone, Debug)]
pub struct DockCommandCreate {
    pub title: String,
    pub command: String,
    pub requires_confirm: Option<bool>,
    pub color: Option<String>,
}

impl Host {
    /// The host that `input` describes, stored under `id`: every field as
    /// entered, and port 22 where none is entered.
    pub fn from_create(id: String, input: HostCreate) -> (host: Host)
        ensures
            host.id == id,
            host.label == input.label,
            host.hostname == input.hostname,
            host.port == match input.port {
                Some(p) => p,
                None => DEFAULT_PORT,
            },
            host.username == input.username,
            host.environment_tag == input.environment_tag,
            host.identity_file == input.identity_file,
            host.color == input.color,
    {
        Host {
            id,
            label: input.label,
            hostname: input.hostname,
            port: match input.port {
                Some(p) => p,
                None => DEFAULT_PORT,
            },
            username: input.username,
            environment_tag: input.environment_tag,
            identity_file: input.identity_file,
            color: input.color,
        }
    }

    /// The host that `input` describes, under a fresh identifier.
    pub fn create(input: HostCreate) -> (host: Host)
        ensures
            is_identifier(host.id@),
            host.label == input.label,
            host.hostname == input.hostname,
            host.port == match input.port {
                Some(p) => p,
                None => DEFAULT_PORT,
            },
            host.username == input.username,
            host.environment_tag == input.environment_tag,
            host.identity_file == input.identity_file,
            host.color == input.color,
    {
        Host::from_create(fresh_identifier(), input)
    }

    /// The host as it is after the change `input`: every field as entered.
    pub fn from_update(input: HostUpdate) -> (host: Host)
        ensures
            host.id == input.id,
            host.label == input.label,
            host.hostname == input.hostname,
            host.port == input.port,
            host.username == input.username,
            host.environment_tag == input.environment_tag,
            host.identity_file == input.identity_file,
            host.color == input.color,
    {
        Host {
            id: input.id,
            label: input.label,
            hostname: input.hostname,
            port: input.port,
            username: input.username,
            environment_tag: input.environment_tag,
            identity_file: input.identity_file,
            color: input.color,
        }
    }
}

impl DockCommand {
    /// The shortcut that `input` describes, stored under `id`: every field
    /// as entered, and no confirmation asked where none is entered.
    pub fn from_create(id: String, input: DockCommandCreate) -> (cmd: DockCommand)
        ensures
            cmd.id == id,
            cmd.title == input.title,
            cmd.command == input.command,
            cmd.requires_confirm == match input.requires_confirm {
                Some(b) => b,
                None => false,
            },
            cmd.color == input.color,
    {
        DockCommand {
            id,
            title: input.title,
            command: input.command,
            requires_confirm: match input.requires_confirm {
                Some(b) => b,
                None => false,
            },
            color: input.color,
        }
    }

    /// The shortcut that `input` describes, under a fresh identifier.
    pub fn create(input: DockCommandCreate) -> (cmd: DockCommand)
        ensures
            is_identifier(cmd.id@),
            cmd.title == input.title,
            cmd.command == input.command,
            cmd.requires_confirm == match input.requires_confirm {
                Some(b) => b,
                None => false,
            },
            cmd.color == input.color,
    {
        DockCommand::from_create(fresh_identifier(), input)
    }
}

/// The terminal size that a stored pair of columns holds: both numbers must
/// be there and positive; each is then taken modulo 65536.
pub open spec fn stored_size(cols: Option<i64>, rows: Option<i64>) -> Option<(u16, u16)> {
    match (cols, rows) {
        (Some(c), Some(r)) => if c > 0 && r > 0 {
            Some(((c % 65536) as u16, (r % 65536) as u16))
        } else {
            None
        },
        _ => None,
    }
}

/// The terminal size that the stored columns `cols` and `rows` hold, if they
/// hold one.
pub fn size_from_columns(cols: Option<i64>, rows: Option<i64>) -> (r: Option<(u16, u16)>)
    ensures
        r == stored_size(cols, rows),
{
    match (cols, rows) {
        (Some(c), Some(r)) => {
            if c > 0 && r > 0 {
                Some(((c % 65536) as u16, (r % 65536) as u16))
            } else {
                None
            }
        },
        _ => None,
    }
}

/// The port that a stored number holds: the number modulo 65536.
pub fn port_from_column(stored: u32) -> (port: u16)
    ensures
        port == stored % 65536,
{
    (stored % 65536) as u16
}

/// Whether a stored flag asks for confirmation: any number but zero does.
pub fn confirm_from_column(stored: i64) -> (r: bool)
    ensures
        r == (stored != 0),
{
    stored != 0
}

/// The number that a confirmation flag is stored as: one or zero.
pub fn confirm_to_column(requires_confirm: bool) -> (stored: i64)
    ensures
        stored == if requires_confirm {
            1int
        } else {
            0int
        },
{
    if requires_confirm {
        1
    } else {
        0
    }
}

/// The sort order of the record at place `index` of a reordered list: places
/// count from one.
pub fn sort_order_at(index: usize) -> (order: i64)
    requires
        index < i64::MAX,
    ensures
        order == index + 1,
{
    (index as i64) + 1
}

/// How many history entries to list: the limit asked for, or 200 if none is,
/// brought into the range from 1 to 500.
pub open spec fn listed_history(limit: Option<i64>) -> i64 {
    let asked = match limit {
        Some(n) => n,
        None => DEFAULT_HISTORY_LIMIT,
    };
    if asked < 1 {
        1
    } else if asked > MAX_HISTORY_LIMIT {
        MAX_HISTORY_LIMIT
    } else {
        asked
    }
}

/// How many history entries to list.
pub fn history_limit(limit: Option<i64>) -> (n: i64)
    ensures
        n == listed_history(limit),
        1 <= n <= MAX_HISTORY_LIMIT,
{
    let asked = match limit {
        Some(n) => n,
        None => DEFAULT_HISTORY_LIMIT,
    };
    if asked < 1 {
        1
    } else if asked > MAX_HISTORY_LIMIT {
        MAX_HISTORY_LIMIT
    } else {
        asked
    }
}

/// The scope under which the preferences of a remote session are kept: that
/// of the stored host if the session was opened from one (its identifier,
/// trimmed, is not empty), else one made of user, host and port, with port
/// 22 where none is given.
pub open spec fn ssh_scope_text(
    host_id: Option<Seq<char>>,
    user: Seq<char>,
    host: Seq<char>,
    port: Option<u16>,
) -> Seq<char> {
    match host_id {
        Some(id) if trim(id).len() > 0 => "ssh:"@ + trim(id),
        _ => "ssh:"@ + user + "@"@ + host + ":"@ + decimal(
            match port {
                Some(p) => p as nat,
                None => DEFAULT_PORT as nat,
            },
        ),
    }
}

/// The runbook that a new installation starts with.
pub const DEFAULT_RUNBOOK: &'static str =
    "# On-call quick checks\n- Verify environment label before running anything.\n- Prefer read-only commands first.\n- For PROD, require confirmation for destructive ops.\n";

fn shortcut(title: &str, command: &str, requires_confirm: bool) -> (cmd: DockCommandCreate)
    ensures
        cmd.title@ == title@,
        cmd.command@ == command@,
        cmd.requires_confirm == Some(requires_confirm),
        cmd.color is None,
{
    DockCommandCreate {
        title: String::from_str(title),
        command: String::from_str(command),
        requires_confirm: Some(requires_confirm),
        color: None,
    }
}

/// The command shortcuts that a new installation starts with, in their sort
/// order: two that run at once and one that asks for confirmation.
pub fn seed_commands() -> (cmds: Vec<DockCommandCreate>)
    ensures
        cmds@.len() == 3,
        cmds@[0].title@ == "Tail service logs"@,
        cmds@[0].command@ == "journalctl -u {service} -f"@,
        cmds@[0].requires_confirm == Some(false),
        cmds@[1].title@ == "List pods"@,
        cmds@[1].command@ == "kubectl get pods -n {ns}"@,
        cmds@[1].requires_confirm == Some(false),
        cmds@[2].title@ == "Restart deployment (danger)"@,
        cmds@[2].command@ == "kubectl rollout restart deploy/{name} -n {ns}"@,
        cmds@[2].requires_confirm == Some(true),
        forall|i: int| 0 <= i < 3 ==> (#[trigger] cmds@[i]).color is None,
{
    let mut cmds: Vec<DockCommandCreate> = Vec::new();
    cmds.push(shortcut("Tail service logs", "journalctl -u {service} -f", false));
    cmds.push(shortcut("List pods", "kubectl get pods -n {ns}", false));
    cmds.push(
        shortcut("Restart deployment (danger)", "kubectl rollout restart deploy/{name} -n {ns}", true),
    );
    cmds
}

fn demo_host(label: &str, hostname: &str, environment_tag: &str) -> (host: HostCreate)
    ensures
        host.label@ == label@,
        host.hostname@ == hostname@,
        host.port == Some(DEFAULT_PORT),
        host.username@ == "ubuntu"@,
        host.environment_tag@ == environment_tag@,
        host.identity_file is None,
        host.color is None,
{
    HostCreate {
        label: String::from_str(label),
        hostname: String::from_str(hostname),
        port: Some(DEFAULT_PORT),
        username: String::from_str("ubuntu"),
        environment_tag: String::from_str(environment_tag),
        identity_file: None,
        color: None,
    }
}

/// The hosts that a development build starts with, in their sort order: one
/// for each of the environments DEV, STAGE and PROD, all for user `ubuntu` on
/// port 22.
pub fn seed_hosts() -> (hosts: Vec<HostCreate>)
    ensures
        hosts@.len() == 3,
        hosts@[0].label@ == "ops-bastion"@,
        hosts@[0].hostname@ == "10.0.1.10"@,
        hosts@[0].environment_tag@ == "DEV"@,
        hosts@[1].label@ == "payments-api"@,
        hosts@[1].hostname@ == "10.9.0.12"@,
        hosts@[1].environment_tag@ == "STAGE"@,
        hosts@[2].label@ == "prod-db-primary"@,
        hosts@[2].hostname@ == "10.1.2.3"@,
        hosts@[2].environment_tag@ == "PROD"@,
        forall|i: int|
            0 <= i < 3 ==> {
                &&& (#[trigger] hosts@[i]).port == Some(DEFAULT_PORT)
                &&& hosts@[i].username@ == "ubuntu"@
                &&& hosts@[i].identity_file is None
                &&& hosts@[i].color is None
            },
{
    let mut hosts: Vec<HostCreate> = Vec::new();
    hosts.push(demo_host("ops-bastion", "10.0.1.10", "DEV"));
    hosts.push(demo_host("payments-api", "10.9.0.12", "STAGE"));
    hosts.push(demo_host("prod-db-primary", "10.1.2.3", "PROD"));
    hosts
}

/// The scope under which the preferences of local sessions are kept.
pub const LOCAL_SCOPE: &'static str = "local";

/// The scope under which the preferences of a remote session are kept.
pub fn ssh_scope(host_id: Option<&str>, user: &str, host: &str, port: Option<u16>) -> (scope:
    String)
    ensures
        scope@ == ssh_scope_text(
            match host_id {
                Some(id) => Some(id@),
                None => None,
            },
            user@,
            host@,
            port,
        ),
{
    if let Some(id) = host_id {
        let v = chars_of(id);
        let (a, b) = trim_bounds(&v);
        if a < b {
            let trimmed = string_of_range(&v, a, b);
            return String::from_str("ssh:").concat(trimmed.as_str());
        }
    }
    let p = match port {
        Some(p) => p,
        None => DEFAULT_PORT,
    };
    let mut digits: Vec<char> = Vec::new();
    push_decimal(&mut digits, p);
    assert(Seq::<char>::empty() + decimal(p as nat) =~= decimal(p as nat));
    let number = string_of(&digits);
    String::from_str("ssh:").concat(user).concat("@").concat(host).concat(":").concat(
        number.as_str(),
    )
}

} // verus!
