use mclang_up::install::{
    components, confirm, install, update, get_install_branch, get_install_location, install_plan, path_instruction,
    update_plan, Args, Command, InstallConfig, InstallError, Progress, Step, Workflow,
};
use mclang_up::logger::{code_block, error, help, info};
use mclang_up::process::{
    captured_block, check_if_installed, run_cmd, DependencyReport, ExecutionError, ExitStatus,
    running_line, InvocationOutcome, InvocationSpec, OutputMode,
};
use mclang_up::prompt::{Prompt, PromptError};

fn outcome(status: ExitStatus, stdout: &str, stderr: &str) -> InvocationOutcome {
    InvocationOutcome {
        status,
        stdout: stdout.as_bytes().to_vec(),
        stderr: stderr.as_bytes().to_vec(),
    }
}

fn config(verbose: bool) -> InstallConfig {
    InstallConfig::resolve("/opt/mc", "/home/u", "stable", verbose).unwrap()
}

fn run_of(step: &Step) -> &InvocationSpec {
    match step {
        Step::Run(spec) => spec,
        Step::Check(p) => panic!("expected a command, found a check of {p}"),
    }
}

/// Drives a run, answering each check with `found` and each command with the
/// status that `status_of` gives; returns the command lines that were run.
fn drive(wf: &mut Workflow, found: bool, status_of: &dyn Fn(&InvocationSpec) -> ExitStatus) -> Vec<String> {
    let mut ran = Vec::new();
    while let Some(step) = wf.current().cloned() {
        match step {
            Step::Check(_) => {
                wf.probed(found);
            }
            Step::Run(spec) => {
                ran.push(format!("{} @ {}", spec.command_line(), spec.cwd));
                wf.exited(&outcome(status_of(&spec), "", ""));
            }
        }
    }
    ran
}

#[test]
fn code_block_numbers_each_line() {
    assert_eq!(
        code_block("a\nb"),
        "\x1b[34m1 | a\x1b[0m\n\x1b[34m2 | b\x1b[0m\n"
    );
}

#[test]
fn code_block_of_empty_text_is_empty() {
    assert_eq!(code_block(""), "");
}

#[test]
fn code_block_drops_line_endings() {
    assert_eq!(
        code_block("x\r\ny\n"),
        "\x1b[34m1 | x\x1b[0m\n\x1b[34m2 | y\x1b[0m\n"
    );
    assert_eq!(code_block("\n"), "\x1b[34m1 | \x1b[0m\n");
    assert_eq!(code_block("z\r"), "\x1b[34m1 | z\r\x1b[0m\n");
}

#[test]
fn code_block_counts_past_nine() {
    let text = "l\n".repeat(12);
    let block = code_block(&text);
    assert!(block.contains("\x1b[34m10 | l\x1b[0m\n"));
    assert!(block.ends_with("\x1b[34m12 | l\x1b[0m\n"));
    assert_eq!(block.lines().count(), 12);
}

#[test]
fn log_lines_carry_a_colored_tag() {
    assert_eq!(error("boom"), "\x1b[31merror\x1b[0m: boom");
    assert_eq!(info("ok"), "\x1b[32minfo\x1b[0m: ok");
    assert_eq!(help(""), "\x1b[36mhelp\x1b[0m: ");
}

#[test]
fn prompt_string_takes_out_line_breaks() {
    assert_eq!(Prompt::string("yes\n"), "yes");
    assert_eq!(Prompt::string("a\n\rb"), "ab");
    assert_eq!(Prompt::string("\r\n"), "\r");
    assert_eq!(Prompt::string("\n\n\r\r"), "\r");
}

#[test]
fn prompt_default_fills_an_empty_answer() {
    assert_eq!(Prompt::default("", "stable"), "stable");
    assert_eq!(Prompt::default("dev", "stable"), "dev");
}

#[test]
fn prompt_bool_reads_yes_and_no_in_any_case() {
    assert_eq!(Prompt::bool("YES", Some(false)), Ok(true));
    assert_eq!(Prompt::bool("Nah", None), Ok(false));
    assert_eq!(Prompt::bool("", Some(true)), Ok(true));
    assert_eq!(Prompt::bool("", Some(false)), Ok(false));
    assert_eq!(Prompt::bool("", None), Err(PromptError::UnknownAnswer));
    assert_eq!(Prompt::bool("maybe", Some(true)), Err(PromptError::UnknownAnswer));
}

#[test]
fn prompt_yes_no_takes_lowered_answers() {
    assert_eq!(Prompt::yes_no("t", None), Ok(true));
    assert_eq!(Prompt::yes_no("f", None), Ok(false));
    assert_eq!(Prompt::yes_no("Y", None), Err(PromptError::UnknownAnswer));
}

#[test]
fn branch_outside_the_accepted_set_is_refused() {
    assert_eq!(get_install_branch("foo"), Err(InstallError::InvalidInput));
    assert_eq!(
        InstallConfig::resolve("", "/home/u", "foo", false).err(),
        Some(InstallError::InvalidInput)
    );
}

#[test]
fn accepted_branches() {
    assert_eq!(get_install_branch(""), Ok("stable".to_string()));
    assert_eq!(get_install_branch("dev"), Ok("dev".to_string()));
    assert_eq!(get_install_branch("main-v2"), Ok("main-v2".to_string()));
}

#[test]
fn install_location_defaults_to_home() {
    assert_eq!(get_install_location("", "/home/u"), "/home/u/.mclang");
    assert_eq!(get_install_location("/opt/mc", "/home/u"), "/opt/mc");
}

#[test]
fn empty_confirmation_aborts() {
    assert_eq!(confirm(""), Err(InstallError::UserAborted));
    assert_eq!(confirm("no"), Err(InstallError::UserAborted));
    assert_eq!(confirm("Yes"), Ok(()));
    assert_eq!(confirm("sure"), Err(InstallError::InvalidInput));
}

#[test]
fn exit_zero_succeeds_without_output() {
    let r = run_cmd(&outcome(ExitStatus::Code(0), "lots\nof output\n", "warning\n"));
    assert_eq!(r.result, Ok(()));
    assert_eq!(r.stdout_block, None);
    assert_eq!(r.stderr_block, None);
    assert!(!r.show_exit_code);
}

#[test]
fn nonzero_exit_fails_and_shows_numbered_output() {
    let r = run_cmd(&outcome(ExitStatus::Code(3), "first\nsecond\n", ""));
    assert_eq!(r.result, Err(ExecutionError::Exit(3)));
    assert_eq!(
        r.stdout_block,
        Some("\x1b[34m1 | first\x1b[0m\n\x1b[34m2 | second\x1b[0m\n".to_string())
    );
    assert_eq!(r.stderr_block, None);
    assert!(r.show_exit_code);
}

#[test]
fn invalid_bytes_are_replaced_in_captured_output() {
    let o = InvocationOutcome {
        status: ExitStatus::Code(1),
        stdout: vec![],
        stderr: vec![b'a', 0xff, b'b'],
    };
    let r = run_cmd(&o);
    assert_eq!(r.stderr_block, Some("\x1b[34m1 | a\u{FFFD}b\x1b[0m\n".to_string()));
}

#[test]
fn captured_block_of_empty_text_is_none() {
    assert_eq!(captured_block(""), None);
    assert_eq!(captured_block("x"), Some("\x1b[34m1 | x\x1b[0m\n".to_string()));
}

#[test]
fn signal_is_a_failure_of_its_own() {
    let r = run_cmd(&outcome(ExitStatus::Signal, "out\n", "err\n"));
    assert_eq!(r.result, Err(ExecutionError::Signal));
    assert_eq!(r.stdout_block, None);
    assert_eq!(r.stderr_block, None);
    assert!(!r.show_exit_code);
}

#[test]
fn dependency_reports() {
    assert_eq!(
        check_if_installed(false, "no-such-program", false),
        DependencyReport::Missing { toolchain: false }
    );
    assert_eq!(
        check_if_installed(true, "cargo", false),
        DependencyReport::Missing { toolchain: true }
    );
    assert_eq!(
        check_if_installed(true, "git", true),
        DependencyReport::Found { announce: true }
    );
    assert_eq!(
        check_if_installed(false, "git", true),
        DependencyReport::Found { announce: false }
    );
}

#[test]
fn missing_dependency_does_not_halt_the_run() {
    let mut wf = install(&config(false), "y").unwrap();
    let ran = drive(&mut wf, false, &|_| ExitStatus::Code(0));
    assert_eq!(wf.progress_now(), Progress::Succeeded);
    assert!(ran[0].starts_with("mkdir -p /opt/mc"));
}

#[test]
fn args_choose_the_command() {
    let mut a = Args { update: true, install: true, verbose: false, component: "all".to_string() };
    assert_eq!(a.command(), Command::Install);
    a.install = false;
    assert_eq!(a.command(), Command::Update);
    a.update = false;
    assert_eq!(a.command(), Command::Nothing);
}

#[test]
fn known_components_in_order() {
    let names: Vec<String> = components().into_iter().map(|c| c.name).collect();
    assert_eq!(names, vec!["mclangc", "mclang-up", "mclang-pkm", "libmc"]);
}

#[test]
fn command_line_echoes_program_and_arguments() {
    let spec = InvocationSpec {
        program: "git".to_string(),
        args: vec!["pull".to_string(), "origin".to_string(), "dev".to_string()],
        cwd: "/x".to_string(),
        mode: OutputMode::Capture,
    };
    assert_eq!(spec.command_line(), "git pull origin dev");
}

#[test]
fn output_mode_follows_verbosity() {
    for step in install_plan(&config(true)) {
        if let Step::Run(spec) = step {
            assert_eq!(spec.mode, OutputMode::Inherit);
        }
    }
    for step in update_plan(&config(false)) {
        if let Step::Run(spec) = step {
            assert_eq!(spec.mode, OutputMode::Capture);
        }
    }
}

#[test]
fn install_with_everything_succeeding() {
    let mut wf = install(&config(false), "y").unwrap();
    let ran = drive(&mut wf, true, &|_| ExitStatus::Code(0));
    assert_eq!(wf.progress_now(), Progress::Succeeded);
    assert_eq!(
        ran,
        vec![
            "mkdir -p /opt/mc @ ./",
            "mkdir -p /opt/mc/components @ ./",
            "rm -rf ./mclangc ./mclang-up ./mclang-pkm ./libmc @ /opt/mc/components",
            "git clone -b stable https://github.com/mc-lang/mclangc.git @ /opt/mc/components",
            "cargo build --release @ /opt/mc/components/mclangc",
            "git clone -b stable https://github.com/mc-lang/mclang-up.git @ /opt/mc/components",
            "cargo build --release @ /opt/mc/components/mclang-up",
            "git clone -b stable https://github.com/mc-lang/mclang-pkm.git @ /opt/mc/components",
            "cargo build --release @ /opt/mc/components/mclang-pkm",
            "git clone -b stable https://github.com/mc-lang/libmc.git @ /opt/mc/components",
            "mkdir -p ./bin @ /opt/mc",
            "cp -f ./components/mclangc/target/release/mclangc ./components/mclang-up/target/release/mclang-up ./components/mclang-pkm/target/release/mclang-pkm ./bin @ /opt/mc",
        ]
    );
    assert_eq!(
        path_instruction("/opt/mc"),
        "Before you can use MCLang you have to put 'export PATH=\"$PATH:/opt/mc/bin\"' in your .bashrc or .zshrc (for fish shell it is diffrent)"
    );
}

#[test]
fn install_stops_at_the_second_build() {
    let mut wf = install(&config(false), "y").unwrap();
    let ran = drive(&mut wf, true, &|spec| {
        if spec.program == "cargo" && spec.cwd.ends_with("/mclang-up") {
            ExitStatus::Code(1)
        } else {
            ExitStatus::Code(0)
        }
    });
    assert_eq!(wf.progress_now(), Progress::Failed(ExecutionError::Exit(1)));
    assert_eq!(ran.len(), 7);
    assert_eq!(ran[4], "cargo build --release @ /opt/mc/components/mclangc");
    assert_eq!(ran[6], "cargo build --release @ /opt/mc/components/mclang-up");
    assert!(ran.iter().all(|l| !l.contains("mclang-pkm.git") && !l.starts_with("cp ") && !l.contains("./bin")));
    assert!(wf.current().is_none());
}

#[test]
fn spawn_failure_ends_the_run() {
    let mut wf = update(&config(false), "yes").unwrap();
    wf.probed(true);
    wf.probed(true);
    wf.spawn_failed();
    assert_eq!(wf.progress_now(), Progress::Failed(ExecutionError::Spawn));
    assert!(wf.current().is_none());
}

#[test]
fn update_pulls_and_builds_each_component() {
    let mut wf = update(&config(false), "yes").unwrap();
    let ran = drive(&mut wf, true, &|_| ExitStatus::Code(0));
    assert_eq!(wf.progress_now(), Progress::Succeeded);
    assert_eq!(ran[0], "git pull origin stable @ /opt/mc/components/mclangc");
    assert_eq!(ran[1], "cargo build --release @ /opt/mc/components/mclangc");
    assert_eq!(ran[6], "git pull origin stable @ /opt/mc/components/libmc");
    assert_eq!(ran[7], "mkdir -p ./bin @ /opt/mc");
    assert_eq!(ran.len(), 9);
}

#[test]
fn unconfirmed_runs_do_not_start() {
    assert_eq!(install(&config(false), "").err(), Some(InstallError::UserAborted));
    assert_eq!(update(&config(false), "N").err(), Some(InstallError::UserAborted));
    assert_eq!(install(&config(false), "perhaps").err(), Some(InstallError::InvalidInput));
}

#[test]
fn failure_without_captured_output_shows_no_block() {
    let r = run_cmd(&outcome(ExitStatus::Code(2), "", ""));
    assert_eq!(r.result, Err(ExecutionError::Exit(2)));
    assert_eq!(r.stdout_block, None);
    assert_eq!(r.stderr_block, None);
    assert!(r.show_exit_code);
}

#[test]
fn command_is_echoed_only_in_verbose_mode() {
    let spec = InvocationSpec {
        program: "cargo".to_string(),
        args: vec!["build".to_string(), "--release".to_string()],
        cwd: "/x".to_string(),
        mode: OutputMode::Inherit,
    };
    assert_eq!(running_line(true, &spec), Some("Running 'cargo build --release'".to_string()));
    assert_eq!(running_line(false, &spec), None);
}
