use jobserver_copier::command::copier_log_fname;
use jobserver_copier::command::host_of;
use jobserver_copier::command::resolve_ssh_user;
use jobserver_copier::command::rsync_args;
use jobserver_copier::command::rsync_source_arg;
use jobserver_copier::command::u64_to_string;

#[test]
fn decimal_rendering_is_exact() {
    assert_eq!(u64_to_string(0), "0");
    assert_eq!(u64_to_string(7), "7");
    assert_eq!(u64_to_string(10), "10");
    assert_eq!(u64_to_string(9876543210), "9876543210");
    assert_eq!(u64_to_string(u64::MAX), "18446744073709551615");
}

#[test]
fn log_file_path_holds_the_job_id() {
    assert_eq!(copier_log_fname(42), "/tmp/jobserver-rsync-42.log");
    assert_eq!(copier_log_fname(0), "/tmp/jobserver-rsync-0.log");
}

#[test]
fn host_is_everything_before_the_first_colon() {
    assert_eq!(host_of("remote:22"), "remote");
    assert_eq!(host_of("remote"), "remote");
    assert_eq!(host_of("a:b:c"), "a");
    assert_eq!(host_of(":22"), "");
    assert_eq!(host_of(""), "");
}

#[test]
fn ssh_user_fallback_chain() {
    let s = |x: &str| Some(String::from(x));
    assert_eq!(resolve_ssh_user(s("override"), s("user"), s("username")), "override");
    assert_eq!(resolve_ssh_user(None, s("user"), s("username")), "user");
    assert_eq!(resolve_ssh_user(None, None, s("username")), "username");
    assert_eq!(resolve_ssh_user(None, None, None), "root");
}

#[test]
fn source_argument_is_wildcarded_and_split() {
    assert_eq!(rsync_source_arg("user", "m:22", "/a/"), "user@m:/a/*");
    assert_eq!(rsync_source_arg("root", "host", "/r"), "root@host:/r*");
}

#[test]
fn full_argument_vector() {
    let args = rsync_args("u", "h:2222", "/path/", "/dest");
    assert_eq!(
        args,
        vec![
            String::from("-avvzP"),
            String::from("-e"),
            String::from("ssh -o StrictHostKeyChecking=yes"),
            String::from("--timeout=60"),
            String::from("u@h:/path/*"),
            String::from("/dest"),
        ]
    );
}
