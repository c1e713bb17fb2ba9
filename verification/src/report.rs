//! The report that is sent as the plain text of the forwarding message: who
//! invoked the program, how, and on which host. Nothing of the forwarded
//! message itself goes into it.

use vstd::prelude::*;
use vstd::string::StringExecFns;

use crate::message::{InvocationArgs, InvocationArgsView};
use crate::text::{decimal, decimal_string};

verus! {

/// The identity of the running process.
#[derive(Debug, PartialEq, Eq)]
pub struct ProcessIdentity {
    pub uid: u32,
    pub gid: u32,
    pub effective_uid: u32,
    pub effective_gid: u32,
    /// The name of the user `uid`, where it has one.
    pub username: Option<String>,
    /// The name of the group `gid`, where it has one.
    pub groupname: Option<String>,
    /// The name of the user `effective_uid`, where it has one.
    pub effective_username: Option<String>,
    /// The name of the group `effective_gid`, where it has one.
    pub effective_groupname: Option<String>,
}

/// The identity of the running process, as sequences.
pub struct ProcessIdentityView {
    pub uid: u32,
    pub gid: u32,
    pub effective_uid: u32,
    pub effective_gid: u32,
    pub username: Option<Seq<char>>,
    pub groupname: Option<Seq<char>>,
    pub effective_username: Option<Seq<char>>,
    pub effective_groupname: Option<Seq<char>>,
}

impl View for ProcessIdentity {
    type V = ProcessIdentityView;

    open spec fn view(&self) -> ProcessIdentityView {
        ProcessIdentityView {
            uid: self.uid,
            gid: self.gid,
            effective_uid: self.effective_uid,
            effective_gid: self.effective_gid,
            username: self.username.deep_view(),
            groupname: self.groupname.deep_view(),
            effective_username: self.effective_username.deep_view(),
            effective_groupname: self.effective_groupname.deep_view(),
        }
    }
}

/// The identity of the host and its system.
#[derive(Debug, PartialEq, Eq)]
pub struct HostIdentity {
    pub hostname: String,
    pub device_name: String,
    pub distro: String,
    pub platform: String,
}

/// The identity of the host and its system, as sequences.
pub struct HostIdentityView {
    pub hostname: Seq<char>,
    pub device_name: Seq<char>,
    pub distro: Seq<char>,
    pub platform: Seq<char>,
}

impl View for HostIdentity {
    type V = HostIdentityView;

    open spec fn view(&self) -> HostIdentityView {
        HostIdentityView {
            hostname: self.hostname@,
            device_name: self.device_name@,
            distro: self.distro@,
            platform: self.platform@,
        }
    }
}

/// What is known of the permissions of the configuration file.
#[derive(Debug, PartialEq, Eq)]
pub enum ConfigPermissions {
    /// The mode bits of the file.
    Mode(u32),
    /// The mode could not be read; the text says why.
    Unknown(String),
}

/// What is known of the permissions of the configuration file, as sequences.
pub enum ConfigPermissionsView {
    Mode(u32),
    Unknown(Seq<char>),
}

impl View for ConfigPermissions {
    type V = ConfigPermissionsView;

    open spec fn view(&self) -> ConfigPermissionsView {
        match self {
            ConfigPermissions::Mode(mode) => ConfigPermissionsView::Mode(*mode),
            ConfigPermissions::Unknown(reason) => ConfigPermissionsView::Unknown(reason@),
        }
    }
}

/// `text` as std's `Debug` writes a `str`: in double quotes, with escapes.
pub uninterp spec fn debug_quoted(text: Seq<char>) -> Seq<char>;

/// Writes `text` in double quotes, with escapes.
///
/// Wraps the `Debug` formatting of `str`. The contract only names the
/// outcome, which depends on `text` alone.
#[verifier::external_body]
fn debug_quote(text: &str) -> (quoted: String)
    ensures
        quoted@ == debug_quoted(text@),
{
    format!("{:?}", text)
}

/// The character for a read or write bit: `shown` where `mode` has the bit,
/// else `-`.
pub open spec fn access_flag(mode: u32, bit: u32, shown: char) -> char {
    if mode & bit != 0 {
        shown
    } else {
        '-'
    }
}

/// The character for an execute bit and the special bit that shares its
/// place: `x` or `-` without the special bit, the small `special` with both
/// bits, the capital `alone` with the special bit only.
pub open spec fn execute_flag(mode: u32, bit: u32, special_bit: u32, special: char, alone: char)
    -> char {
    if mode & special_bit != 0 {
        if mode & bit != 0 {
            special
        } else {
            alone
        }
    } else if mode & bit != 0 {
        'x'
    } else {
        '-'
    }
}

/// The nine characters by which `ls -l` shows the permission bits of
/// `mode`: read, write and execute for the owner, the group and all others,
/// with set-user-id, set-group-id and the sticky bit shown in the place of
/// the execute bits.
pub open spec fn permission_text(mode: u32) -> Seq<char> {
    seq![
        access_flag(mode, 0o400, 'r'),
        access_flag(mode, 0o200, 'w'),
        execute_flag(mode, 0o100, 0o4000, 's', 'S'),
        access_flag(mode, 0o040, 'r'),
        access_flag(mode, 0o020, 'w'),
        execute_flag(mode, 0o010, 0o2000, 's', 'S'),
        access_flag(mode, 0o004, 'r'),
        access_flag(mode, 0o002, 'w'),
        execute_flag(mode, 0o001, 0o1000, 't', 'T'),
    ]
}

/// Writes the permission bits of `mode` as `ls -l` shows them.
///
/// Wraps `uucore::fs::display_permissions_unix`, called without the leading
/// character for the file type. It pushes nine characters, each chosen by
/// testing one bit of `mode`, or two where a special bit shares the place of
/// an execute bit; the contract states the same nine tests.
#[verifier::external_body]
fn display_permissions(mode: u32) -> (text: String)
    ensures
        text@ == permission_text(mode),
{
    uucore::fs::display_permissions_unix(mode, false)
}

/// The permission bits of the file's group.
///
/// Wraps the constant `libc::S_IRWXG`, which is octal 70 on every platform
/// that `libc` knows.
#[verifier::external_body]
fn group_bits() -> (bits: u32)
    ensures
        bits == 0o070,
{
    libc::S_IRWXG as u32
}

/// The permission bits of all other users.
///
/// Wraps the constant `libc::S_IRWXO`, which is octal 7 on every platform
/// that `libc` knows.
#[verifier::external_body]
fn other_bits() -> (bits: u32)
    ensures
        bits == 0o007,
{
    libc::S_IRWXO as u32
}

/// Whether `mode` lets anyone but the owner at the file.
pub open spec fn too_lax(mode: u32) -> bool {
    mode & 0o077 != 0
}

/// Tests whether `mode` lets anyone but the file's owner read, write or
/// execute the file.
pub fn more_than_owner_has_access(mode: u32) -> (lax: bool)
    ensures
        lax == too_lax(mode),
{
    let group = group_bits();
    let other = other_bits();
    assert(0o070u32 | 0o007u32 == 0o077u32) by (bit_vector);
    (mode & (group | other)) != 0
}

/// The items of a list as `Debug` writes them: each in quotes, with `, `
/// between them.
pub open spec fn debug_items(items: Seq<Seq<char>>) -> Seq<char>
    decreases items.len(),
{
    if items.len() == 0 {
        Seq::empty()
    } else if items.len() == 1 {
        debug_quoted(items[0])
    } else {
        debug_items(items.drop_last()) + ", "@ + debug_quoted(items.last())
    }
}

/// A list of texts as `Debug` writes it: the items in square brackets.
pub open spec fn debug_list(items: Seq<Seq<char>>) -> Seq<char> {
    "["@ + debug_items(items) + "]"@
}

/// Writes a list of texts as `Debug` does: `["a", "b"]`.
pub fn debug_list_string(items: &Vec<String>) -> (text: String)
    ensures
        text@ == debug_list(items.deep_view()),
{
    let ghost all = items.deep_view();
    let mut inner = String::new();
    let mut i: usize = 0;
    while i < items.len()
        invariant
            i <= items.len(),
            all == items.deep_view(),
            inner@ == debug_items(all.take(i as int)),
        decreases items.len() - i,
    {
        proof {
            assert(all.take(i + 1).drop_last() == all.take(i as int));
            assert(all.take(i + 1).last() == items[i as int]@);
        }
        if i > 0 {
            inner.append(", ");
        }
        let quoted = debug_quote(items[i].as_str());
        inner.append(quoted.as_str());
        i += 1;
    }
    proof {
        assert(all.take(all.len() as int) == all);
    }
    let mut text = String::new();
    text.append("[");
    text.append(inner.as_str());
    text.append("]");
    text
}

/// The arguments as the report shows them.
pub open spec fn args_text(args: InvocationArgsView) -> Seq<char> {
    match args {
        InvocationArgsView::AllUtf8(list) => ""@ + ": "@ + debug_list(list),
        InvocationArgsView::Lossy(list) => "(non-utf-8): "@ + ": "@ + debug_list(list),
    }
}

impl InvocationArgs {
    /// The arguments as the report shows them: the list, behind a mark where
    /// it holds replaced parts.
    pub fn display(&self) -> (text: String)
        ensures
            text@ == args_text(self@),
    {
        let mut text = String::new();
        match self {
            InvocationArgs::AllUtf8(list) => {
                text.append("");
                text.append(": ");
                let shown = debug_list_string(list);
                text.append(shown.as_str());
            },
            InvocationArgs::Lossy(list) => {
                text.append("(non-utf-8): ");
                text.append(": ");
                let shown = debug_list_string(list);
                text.append(shown.as_str());
            },
        }
        text
    }
}

/// The line of the report on the permissions of the configuration file, if
/// there is one.
pub open spec fn permission_warning(permissions: ConfigPermissionsView) -> Seq<char> {
    match permissions {
        ConfigPermissionsView::Mode(mode) => if too_lax(mode) {
            "WARNING: the config file contains SMTP credentials and has too-lax permissions: "@
                + permission_text(mode) + "\n"@
        } else {
            Seq::empty()
        },
        ConfigPermissionsView::Unknown(reason) =>
            "WARNING: could not determine permissions of the config file, they may or may not be too lax: "@
                + reason + "\n"@,
    }
}

/// Writes the warning on the configuration file, which holds the password
/// of the mail account: one line where the file's group or other users have
/// any access to it, one line where its mode is not known, nothing else.
pub fn permission_warning_text(permissions: &ConfigPermissions) -> (text: String)
    ensures
        text@ == permission_warning(permissions@),
{
    let mut text = String::new();
    match permissions {
        ConfigPermissions::Mode(mode) => {
            if more_than_owner_has_access(*mode) {
                text.append(
                    "WARNING: the config file contains SMTP credentials and has too-lax permissions: ",
                );
                let shown = display_permissions(*mode);
                text.append(shown.as_str());
                text.append("\n");
            }
        },
        ConfigPermissions::Unknown(reason) => {
            text.append(
                "WARNING: could not determine permissions of the config file, they may or may not be too lax: ",
            );
            text.append(reason.as_str());
            text.append("\n");
        },
    }
    text
}

/// A name, or nothing where there is none.
pub open spec fn name_or_empty(name: Option<Seq<char>>) -> Seq<char> {
    match name {
        Some(name) => name,
        None => Seq::empty(),
    }
}

/// One line of the report: a label and a name, which may be missing.
pub open spec fn name_line(label: Seq<char>, name: Option<Seq<char>>) -> Seq<char> {
    label + ": "@ + name_or_empty(name) + "\n"@
}

fn name_line_text(label: &str, name: &Option<String>) -> (text: String)
    ensures
        text@ == name_line(label@, name.deep_view()),
{
    let mut text = String::new();
    text.append(label);
    text.append(": ");
    match name {
        Some(name) => {
            text.append(name.as_str());
        },
        None => {
            assert(text@ + Seq::<char>::empty() == text@);
        },
    }
    text.append("\n");
    text
}

/// The lines of the report on the process.
pub open spec fn process_lines(process: ProcessIdentityView) -> Seq<char> {
    "uid:"@ + decimal(process.uid as nat) + " gid:"@ + decimal(process.gid as nat) + " euid:"@
        + decimal(process.effective_uid as nat) + " egid:"@ + decimal(
        process.effective_gid as nat,
    ) + "\n"@ + name_line("username"@, process.username) + name_line(
        "groupname"@,
        process.groupname,
    ) + name_line("effective username"@, process.effective_username) + name_line(
        "effective groupname"@,
        process.effective_groupname,
    )
}

fn process_lines_text(process: &ProcessIdentity) -> (text: String)
    ensures
        text@ == process_lines(process@),
{
    let mut text = String::new();
    text.append("uid:");
    text.append(decimal_string(process.uid).as_str());
    text.append(" gid:");
    text.append(decimal_string(process.gid).as_str());
    text.append(" euid:");
    text.append(decimal_string(process.effective_uid).as_str());
    text.append(" egid:");
    text.append(decimal_string(process.effective_gid).as_str());
    text.append("\n");
    text.append(name_line_text("username", &process.username).as_str());
    text.append(name_line_text("groupname", &process.groupname).as_str());
    text.append(name_line_text("effective username", &process.effective_username).as_str());
    text.append(name_line_text("effective groupname", &process.effective_groupname).as_str());
    text
}

/// The lines of the report on the host.
pub open spec fn host_lines(host: HostIdentityView) -> Seq<char> {
    "hostname: "@ + host.hostname + "\n"@ + "device name: "@ + host.device_name + "\n"@
        + "distro: "@ + host.distro + "\n"@ + "platform: "@ + host.platform + "\n"@
}

fn host_lines_text(host: &HostIdentity) -> (text: String)
    ensures
        text@ == host_lines(host@),
{
    let mut text = String::new();
    text.append("hostname: ");
    text.append(host.hostname.as_str());
    text.append("\n");
    text.append("device name: ");
    text.append(host.device_name.as_str());
    text.append("\n");
    text.append("distro: ");
    text.append(host.distro.as_str());
    text.append("\n");
    text.append("platform: ");
    text.append(host.platform.as_str());
    text.append("\n");
    text
}

/// The report of a run on the host `invoking_host`.
pub open spec fn report_text(
    invoking_host: Seq<char>,
    permissions: ConfigPermissionsView,
    args: InvocationArgsView,
    process: ProcessIdentityView,
    host: HostIdentityView,
) -> Seq<char> {
    "A process on host "@ + debug_quoted(invoking_host) + " invoked the sendmail binary.\n"@
        + "On that host, the sendmail binary is provided by the forwad-as-attachment-mta package.\n"@
        + permission_warning(permissions)
        + "The original message is attached inline to this wrapper message.\n"@ + "\n"@
        + "Invocation args: "@ + args_text(args) + "\n"@ + "\n"@ + process_lines(process) + "\n"@
        + host_lines(host) + "\n"@
}

/// Writes the report: which host invoked the program, a warning where the
/// configuration file is open to others, that the message is attached, the
/// arguments, the identity of the process, and the identity of the host.
pub fn build_report(
    invoking_host: &str,
    permissions: &ConfigPermissions,
    args: &InvocationArgs,
    process: &ProcessIdentity,
    host: &HostIdentity,
) -> (report: String)
    ensures
        report@ == report_text(invoking_host@, permissions@, args@, process@, host@),
{
    let mut report = String::new();
    report.append("A process on host ");
    report.append(debug_quote(invoking_host).as_str());
    report.append(" invoked the sendmail binary.\n");
    report.append(
        "On that host, the sendmail binary is provided by the forwad-as-attachment-mta package.\n",
    );
    report.append(permission_warning_text(permissions).as_str());
    report.append("The original message is attached inline to this wrapper message.\n");
    report.append("\n");
    report.append("Invocation args: ");
    report.append(args.display().as_str());
    report.append("\n");
    report.append("\n");
    report.append(process_lines_text(process).as_str());
    report.append("\n");
    report.append(host_lines_text(host).as_str());
    report.append("\n");
    report
}

} // verus!
