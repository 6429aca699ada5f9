use vstd::prelude::*;
use crate::lines::{heading_of, section_of, tail_of, first_heading, first_section, tail_lines};
use crate::text::{trim, is_blank, concat, push_str, str_eq};

verus! {

/// The working directory: the configured one, else `/workspace`.
pub open spec fn workdir_of(var: Option<Seq<char>>) -> Seq<char> {
    match var { Some(v) => v, None => "/workspace"@ }
}

/// The working directory, from the value of `UPDATE_WORKDIR` if it is set.
pub fn workdir(var: Option<String>) -> (r: String)
    ensures
        r@ == workdir_of(match var { Some(v) => Some(v@), None => None }),
{
    match var { Some(v) => v, None => "/workspace".to_owned() }
}

/// The project directory on the host: the configured one, else `/root/kamism`.
pub open spec fn hostdir_of(var: Option<Seq<char>>) -> Seq<char> {
    match var { Some(v) => v, None => "/root/kamism"@ }
}

/// The project directory on the host, from the value of `HOST_PROJECT_DIR` if set.
pub fn hostdir(var: Option<String>) -> (r: String)
    ensures
        r@ == hostdir_of(match var { Some(v) => Some(v@), None => None }),
{
    match var { Some(v) => v, None => "/root/kamism".to_owned() }
}

/// The update log inside the working directory.
pub fn log_path(workdir: &str) -> (r: String)
    ensures
        r@ == workdir@ + "/.auto_update_cron.log"@,
{
    concat(workdir, "/.auto_update_cron.log")
}

/// The change log inside the working directory.
pub fn changelog_path(workdir: &str) -> (r: String)
    ensures
        r@ == workdir@ + "/CHANGELOG.md"@,
{
    concat(workdir, "/CHANGELOG.md")
}

/// The marker of a running update inside the working directory.
pub fn running_marker_path(workdir: &str) -> (r: String)
    ensures
        r@ == workdir@ + "/.auto_update_running"@,
{
    concat(workdir, "/.auto_update_running")
}

/// The last 300 lines of the update log.
pub fn tail_log(log: &str) -> (r: String)
    ensures
        r@ == tail_of(log@, 300),
{
    tail_lines(log, 300)
}

/// Whether a user of role `role` is refused the update pages (all but `admin` are).
pub fn admin_only(role: &str) -> (refused: bool)
    ensures
        refused == (role@ != "admin"@),
{
    !str_eq(role, "admin")
}

/// What the update page is built from: the results of the git commands (none when a
/// command failed), the files read (none when missing), and the version record.
pub struct UpdateFacts {
    /// `git rev-parse --short origin/main`.
    pub latest: Option<String>,
    /// `git log -1 --pretty=%s origin/main`.
    pub latest_message: Option<String>,
    /// The local change log (empty when missing).
    pub local_changelog: String,
    /// `git show origin/main:CHANGELOG.md`.
    pub remote_changelog: Option<String>,
    /// The installed version, commit and message, when recorded.
    pub installed: Option<(String, String, String)>,
    /// `git rev-parse --short HEAD`.
    pub head: Option<String>,
    /// `git log -1 --pretty=%s HEAD`.
    pub head_message: Option<String>,
    /// The running marker's content.
    pub running_marker: Option<String>,
    /// The update log's content.
    pub log: Option<String>,
}

/// The update page.
pub struct UpdateStatus {
    pub current: String,
    pub latest: String,
    pub current_message: String,
    pub latest_message: String,
    pub current_version: String,
    pub latest_version: String,
    pub has_update: bool,
    pub running: bool,
    pub changelog: String,
    pub log: String,
}

/// `o` or `d` when it is none.
pub open spec fn or_text(o: Option<String>, d: Seq<char>) -> Seq<char> {
    match o { Some(s) => s@, None => d }
}

fn or_owned(o: &Option<String>, d: &str) -> (r: String)
    ensures
        r@ == or_text(*o, d@),
{
    match o { Some(s) => s.clone(), None => d.to_owned() }
}

/// The current commit: the installed one when recorded, else the checked-out one.
pub open spec fn current_hash(f: UpdateFacts) -> Seq<char> {
    match f.installed { Some((_, h, _)) => h@, None => or_text(f.head, "unknown"@) }
}

/// The update page: the latest commit and message (`unknown` and empty when git
/// fails); the remote change log, falling back to the local one; the current version,
/// commit and message from the record, else from the local change log's first heading
/// and the checked-out commit; an update is available when the current commit is not
/// the latest; an update is running when its marker holds more than white space; the
/// change log shown is the remote's first section when an update is available, else
/// all of it; the log shown is the update log's last 300 lines.
pub fn update_status(f: &UpdateFacts) -> (r: UpdateStatus)
    ensures
        r.latest@ == or_text(f.latest, "unknown"@),
        r.latest_message@ == or_text(f.latest_message, Seq::empty()),
        r.current@ == current_hash(*f),
        r.current_message@ == match f.installed { Some((_, _, m)) => m@, None => or_text(f.head_message, Seq::empty()) },
        r.current_version@ == match f.installed { Some((v, _, _)) => v@, None => heading_of(f.local_changelog@) },
        r.has_update == (current_hash(*f) != or_text(f.latest, "unknown"@)),
        r.running == match f.running_marker { Some(m) => trim(m@).len() > 0, None => false },
        r.latest_version@ == heading_of(or_text(f.remote_changelog, f.local_changelog@)),
        r.changelog@ == if r.has_update { section_of(or_text(f.remote_changelog, f.local_changelog@)) } else { or_text(f.remote_changelog, f.local_changelog@) },
        r.log@ == tail_of(or_text(f.log, Seq::empty()), 300),
{
    proof {
        reveal_strlit("");
    }
    let latest = or_owned(&f.latest, "unknown");
    let latest_message = or_owned(&f.latest_message, "");
    let remote = or_owned(&f.remote_changelog, f.local_changelog.as_str());
    let (current_version, current, current_message) = match &f.installed {
        Some((v, h, m)) => (v.clone(), h.clone(), m.clone()),
        None => (first_heading(f.local_changelog.as_str()), or_owned(&f.head, "unknown"), or_owned(&f.head_message, "")),
    };
    let has_update = !str_eq(current.as_str(), latest.as_str());
    let running = match &f.running_marker { Some(m) => !is_blank(m.as_str()), None => false };
    let changelog = if has_update { first_section(remote.as_str()) } else { remote.clone() };
    let latest_version = first_heading(remote.as_str());
    let log_text = or_owned(&f.log, "");
    let log = tail_log(log_text.as_str());
    UpdateStatus { current, latest, current_message, latest_message, current_version, latest_version, has_update, running, changelog, log }
}

/// The shell command that starts an update of the project at `host` on the host.
pub open spec fn update_command_text(host: Seq<char>) -> Seq<char> {
    "docker run --rm -v /var/run/docker.sock:/var/run/docker.sock -v "@ + host + ":"@ + host + " -w "@
        + host
        + " -e DATABASE_URL=\"$DATABASE_URL\" docker:27-cli sh -lc 'apk add --no-cache git bash postgresql-client >/dev/null && : > "@
        + host + "/.auto_update_cron.log && bash "@ + host
        + "/auto_update.sh' >/tmp/kamism_update_trigger.log 2>&1 &"@
}

/// The shell command that starts an update (see `update_command_text`).
pub fn update_command(host: &str) -> (r: String)
    ensures
        r@ == update_command_text(host@),
{
    let mut r = "docker run --rm -v /var/run/docker.sock:/var/run/docker.sock -v ".to_owned();
    push_str(&mut r, host);
    push_str(&mut r, ":");
    push_str(&mut r, host);
    push_str(&mut r, " -w ");
    push_str(&mut r, host);
    push_str(&mut r, " -e DATABASE_URL=\"$DATABASE_URL\" docker:27-cli sh -lc 'apk add --no-cache git bash postgresql-client >/dev/null && : > ");
    push_str(&mut r, host);
    push_str(&mut r, "/.auto_update_cron.log && bash ");
    push_str(&mut r, host);
    push_str(&mut r, "/auto_update.sh' >/tmp/kamism_update_trigger.log 2>&1 &");
    r
}

} // verus!
