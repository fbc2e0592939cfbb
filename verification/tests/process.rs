use wallpaper::error::Error;
use wallpaper::process::{get_stdout, run, Command, Output};

fn process_output(code: Option<i32>, stdout: &[u8]) -> Output {
    Output { code, stdout: stdout.to_vec() }
}

#[test]
fn command_collects_its_arguments_in_order() {
    let c = Command::new("dconf").arg("read").arg("/a/b");
    assert_eq!(c.program, "dconf");
    assert_eq!(c.args, vec!["read".to_string(), "/a/b".to_string()]);
}

#[test]
fn command_without_arguments() {
    let c = Command::new("id");
    assert_eq!(c.program, "id");
    assert!(c.args.is_empty());
}

#[test]
fn run_succeeds_on_exit_code_zero() {
    assert_eq!(run("dconf", &process_output(Some(0), b"")), Ok(()));
}

#[test]
fn run_ignores_the_output() {
    assert_eq!(run("dconf", &process_output(Some(0), &[0xff, 0xfe])), Ok(()));
}

#[test]
fn run_fails_with_the_command_and_its_code() {
    assert_eq!(
        run("dconf", &process_output(Some(3), b"")),
        Err(Error::CommandFailed { command: "dconf".to_string(), code: 3 })
    );
    assert_eq!(
        run("feh", &process_output(Some(-7), b"")),
        Err(Error::CommandFailed { command: "feh".to_string(), code: -7 })
    );
}

#[test]
fn run_reports_minus_one_where_there_is_no_code() {
    assert_eq!(
        run("qdbus", &process_output(None, b"")),
        Err(Error::CommandFailed { command: "qdbus".to_string(), code: -1 })
    );
}

#[test]
fn get_stdout_returns_the_output_untouched() {
    assert_eq!(get_stdout("id", process_output(Some(0), b"1000\n")), Ok("1000\n".to_string()));
    assert_eq!(get_stdout("id", process_output(Some(0), b"")), Ok(String::new()));
}

#[test]
fn get_stdout_decodes_utf8() {
    assert_eq!(
        get_stdout("dconf", process_output(Some(0), "'/ä.png'".as_bytes())),
        Ok("'/ä.png'".to_string())
    );
}

#[test]
fn get_stdout_fails_before_it_looks_at_the_output() {
    assert_eq!(
        get_stdout("dconf", process_output(Some(1), &[0xff])),
        Err(Error::CommandFailed { command: "dconf".to_string(), code: 1 })
    );
    assert_eq!(
        get_stdout("dconf", process_output(None, b"x")),
        Err(Error::CommandFailed { command: "dconf".to_string(), code: -1 })
    );
}

#[test]
fn get_stdout_rejects_output_that_is_not_utf8() {
    assert_eq!(
        get_stdout("dconf", process_output(Some(0), &[b'a', 0xff, b'b'])),
        Err(Error::InvalidUtf8(vec![b'a', 0xff, b'b']))
    );
}

#[test]
fn output_success_is_exit_code_zero() {
    assert!(process_output(Some(0), b"").success());
    assert!(!process_output(Some(1), b"").success());
    assert!(!process_output(None, b"").success());
}
