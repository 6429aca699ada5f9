use kamism::lines::{first_heading, first_section, join_range, split_lines, tail_lines};
use kamism::system_update::{
    admin_only, changelog_path, hostdir, log_path, running_marker_path, tail_log, update_command, update_status,
    workdir, UpdateFacts,
};

const LOG: &str = "# Changelog\r\n\nintro\n## [1.2.0] - new\n- a\n- b\n## [1.1.0]\n- old\n";

#[test]
fn lines_as_str_lines() {
    assert_eq!(split_lines("a\r\nb\n\nc\n"), vec!["a", "b", "", "c"]);
    assert_eq!(split_lines(""), Vec::<String>::new());
    assert_eq!(split_lines("x"), vec!["x"]);
    assert_eq!(split_lines("x\r"), vec!["x\r"]);
    let ls = split_lines("1\n2\n3");
    assert_eq!(join_range(&ls, 1, 3), "2\n3");
    assert_eq!(join_range(&ls, 1, 1), "");
}

#[test]
fn change_log_heading() {
    assert_eq!(first_heading(LOG), "## [1.2.0] - new");
    assert_eq!(first_heading("no headings\n# x"), "## [未知版本]");
    assert_eq!(first_heading("  ## [x]\n## [y]  "), "## [y]");
}

#[test]
fn change_log_first_section() {
    assert_eq!(first_section(LOG), "## [1.2.0] - new\n- a\n- b");
    assert_eq!(first_section("nothing"), "");
    assert_eq!(first_section("## [only]\n\n  "), "## [only]");
}

#[test]
fn last_lines_of_a_log() {
    assert_eq!(tail_lines("a\nb\nc\n", 2), "b\nc");
    assert_eq!(tail_lines("a\nb", 5), "a\nb");
    let long: String = (0..400).map(|i| format!("{}\n", i)).collect();
    let t = tail_log(&long);
    assert!(t.starts_with("100\n"));
    assert!(t.ends_with("\n399"));
    assert_eq!(t.lines().count(), 300);
}

#[test]
fn update_paths() {
    assert_eq!(workdir(None), "/workspace");
    assert_eq!(workdir(Some("/w".to_string())), "/w");
    assert_eq!(hostdir(None), "/root/kamism");
    assert_eq!(hostdir(Some("/h".to_string())), "/h");
    assert_eq!(log_path("/w"), "/w/.auto_update_cron.log");
    assert_eq!(changelog_path("/w"), "/w/CHANGELOG.md");
    assert_eq!(running_marker_path("/w"), "/w/.auto_update_running");
}

#[test]
fn only_admins_update() {
    assert!(!admin_only("admin"));
    assert!(admin_only("merchant"));
    assert!(admin_only("Admin"));
}

#[test]
fn update_command_names_the_host_directory() {
    assert_eq!(
        update_command("/srv/k"),
        "docker run --rm -v /var/run/docker.sock:/var/run/docker.sock -v /srv/k:/srv/k -w /srv/k -e DATABASE_URL=\"$DATABASE_URL\" docker:27-cli sh -lc 'apk add --no-cache git bash postgresql-client >/dev/null && : > /srv/k/.auto_update_cron.log && bash /srv/k/auto_update.sh' >/tmp/kamism_update_trigger.log 2>&1 &"
    );
}

fn facts() -> UpdateFacts {
    UpdateFacts {
        latest: Some("abc123".to_string()),
        latest_message: Some("fix".to_string()),
        local_changelog: "## [1.0.0]\n- first\n".to_string(),
        remote_changelog: Some(LOG.to_string()),
        installed: None,
        head: Some("def456".to_string()),
        head_message: Some("old".to_string()),
        running_marker: Some("  \n".to_string()),
        log: Some("l1\nl2\n".to_string()),
    }
}

#[test]
fn update_status_with_a_newer_remote() {
    let s = update_status(&facts());
    assert_eq!(s.current, "def456");
    assert_eq!(s.latest, "abc123");
    assert_eq!(s.current_message, "old");
    assert_eq!(s.latest_message, "fix");
    assert_eq!(s.current_version, "## [1.0.0]");
    assert_eq!(s.latest_version, "## [1.2.0] - new");
    assert!(s.has_update);
    assert!(!s.running);
    assert_eq!(s.changelog, "## [1.2.0] - new\n- a\n- b");
    assert_eq!(s.log, "l1\nl2");
}

#[test]
fn update_status_when_installed_is_latest() {
    let mut f = facts();
    f.installed = Some(("v9".to_string(), "abc123".to_string(), "msg".to_string()));
    f.running_marker = Some("1".to_string());
    f.remote_changelog = None;
    f.latest_message = None;
    f.log = None;
    let s = update_status(&f);
    assert_eq!(s.current, "abc123");
    assert_eq!(s.current_version, "v9");
    assert_eq!(s.current_message, "msg");
    assert_eq!(s.latest_message, "");
    assert!(!s.has_update);
    assert!(s.running);
    assert_eq!(s.changelog, "## [1.0.0]\n- first\n");
    assert_eq!(s.latest_version, "## [1.0.0]");
    assert_eq!(s.log, "");
}

#[test]
fn update_status_when_git_fails() {
    let mut f = facts();
    f.latest = None;
    f.head = None;
    let s = update_status(&f);
    assert_eq!(s.latest, "unknown");
    assert_eq!(s.current, "unknown");
    assert!(!s.has_update);
}

#[test]
fn first_section_holds_one_heading() {
    let s = first_section(LOG);
    assert_eq!(s.lines().next().unwrap().trim(), first_heading(LOG));
    assert!(s.lines().skip(1).all(|l| !l.starts_with("## [")));
    assert_eq!(s, s.trim());
}

#[test]
fn first_section_with_carriage_returns_and_blanks() {
    let md = "x\r\n## [2.0] \r\n- a  \r\n\r\n## [1.0]\r\n";
    let s = first_section(md);
    assert_eq!(s, "## [2.0] \n- a");
    assert_eq!(s.lines().next().unwrap().trim(), first_heading(md));
    assert!(s.lines().skip(1).all(|l| !l.starts_with("## [")));
}
