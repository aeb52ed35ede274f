use gaem_launcher::descriptor::{curl, gaem, jre, launch_command, DependencyDescriptor};
use gaem_launcher::process::{Invocation, ProcessOutcome};
use gaem_launcher::task::{InFlight, Job, Task, TaskEvent, TaskPhase, TaskStep};
use std::sync::mpsc::channel;

fn went_well() -> TaskEvent {
    TaskEvent::Finished(ProcessOutcome::Exited {
        success: true,
        detail: "exit status: 0".to_string(),
        stdout: Vec::new(),
    })
}

fn went_badly(detail: &str) -> TaskEvent {
    TaskEvent::Finished(ProcessOutcome::Exited {
        success: false,
        detail: detail.to_string(),
        stdout: Vec::new(),
    })
}

fn not_started(detail: &str) -> TaskEvent {
    TaskEvent::Finished(ProcessOutcome::SpawnFailed { detail: detail.to_string() })
}

fn step(report: &str, flag: Option<InFlight>, run: Option<Invocation>) -> TaskStep {
    TaskStep { reports: vec![report.to_string()], flag, run }
}

fn nothing() -> TaskStep {
    TaskStep { reports: Vec::new(), flag: None, run: None }
}

fn self_installing() -> DependencyDescriptor {
    DependencyDescriptor::new(
        "tool".to_string(),
        None,
        "https://example.org/tool.exe".to_string(),
        "tool.exe".to_string(),
        "tool".to_string(),
    )
    .unwrap()
}

#[test]
fn a_fetch_task_holds_the_download() {
    let payload = gaem("D:/games".to_string());
    let task = Task::fetch(&payload);
    let expected = Task {
        job: Job::Fetch {
            name: "gaem".to_string(),
            download: curl(&payload.url, "D:/games"),
        },
        phase: TaskPhase::Pending,
    };
    assert_eq!(task, expected);
    assert_eq!(task.job.name(), "gaem");
    assert!(!task.is_done());
}

#[test]
fn an_install_task_holds_download_and_installer() {
    let dependency = jre();
    let task = Task::install(&dependency, "D:/games");
    let expected = Task {
        job: Job::Install {
            name: "jre".to_string(),
            download: curl(dependency.url(), "D:/games"),
            install: dependency.install_command("D:/games"),
        },
        phase: TaskPhase::Pending,
    };
    assert_eq!(task, expected);
    assert_eq!(task.job.name(), "jre");
}

#[test]
fn a_launch_task_holds_the_run_command() {
    let task = Task::launch(&jre(), &gaem("D:/games".to_string()));
    let expected = Task {
        job: Job::Launch {
            name: "gaem".to_string(),
            run: launch_command("java", "D:/games", "term-paper.jar"),
        },
        phase: TaskPhase::Pending,
    };
    assert_eq!(task, expected);
    assert_eq!(task.job.name(), "gaem");
}

#[test]
fn a_fetch_that_goes_well_announces_downloads_and_ends() {
    let payload = gaem("D:/games".to_string());
    let mut task = Task::fetch(&payload);
    let first = task.advance(&TaskEvent::Start);
    assert_eq!(first, step("curling gaem...", None, Some(curl(&payload.url, "D:/games"))));
    assert_eq!(task.phase, TaskPhase::Downloading);
    let second = task.advance(&went_well());
    assert_eq!(second, step("gaem has been succesffully curl'd", Some(InFlight::Idle), None));
    assert_eq!(task.phase, TaskPhase::Done);
    assert!(task.is_done());
}

#[test]
fn a_fetch_that_goes_badly_says_why_and_ends() {
    let mut task = Task::fetch(&gaem("D:/games".to_string()));
    task.advance(&TaskEvent::Start);
    let second = task.advance(&went_badly("exit status: 6"));
    assert_eq!(second, step("failed to curl gaem: exit status: 6", Some(InFlight::Idle), None));
    assert!(task.is_done());
}

#[test]
fn a_missing_downloader_is_named() {
    let mut task = Task::fetch(&gaem("D:/games".to_string()));
    task.advance(&TaskEvent::Start);
    let second = task.advance(&not_started("program not found"));
    assert_eq!(
        second,
        step(
            "cannot fetch gaem: curl is missing: program not found",
            Some(InFlight::Idle),
            None
        )
    );
    assert!(task.is_done());
}

#[test]
fn an_install_that_goes_well_downloads_then_installs() {
    let dependency = jre();
    let mut task = Task::install(&dependency, "D:/games");
    let first = task.advance(&TaskEvent::Start);
    assert_eq!(first, step("curling jre...", None, Some(curl(dependency.url(), "D:/games"))));
    assert_eq!(task.phase, TaskPhase::Downloading);
    let second = task.advance(&went_well());
    let expected = TaskStep {
        reports: vec![
            "jre has been succesffully curl'd".to_string(),
            "starting installer...".to_string(),
        ],
        flag: Some(InFlight::Installing),
        run: Some(dependency.install_command("D:/games")),
    };
    assert_eq!(second, expected);
    assert_eq!(task.phase, TaskPhase::Installing);
    let third = task.advance(&went_well());
    assert_eq!(third, step("jre has been installed", Some(InFlight::Idle), None));
    assert!(task.is_done());
}

#[test]
fn an_install_picks_its_command_by_the_kind() {
    let dependency = self_installing();
    let mut task = Task::install(&dependency, "D:/games");
    task.advance(&TaskEvent::Start);
    let second = task.advance(&went_well());
    let run = second.run.unwrap();
    assert_eq!(run.program, "D:/games/tool.exe");
    assert_eq!(run.args, vec!["/S".to_string()]);
}

#[test]
fn an_install_does_not_run_the_installer_after_a_failed_download() {
    let mut task = Task::install(&jre(), "D:/games");
    task.advance(&TaskEvent::Start);
    let second = task.advance(&went_badly("exit status: 22"));
    assert_eq!(second, step("failed to curl jre: exit status: 22", Some(InFlight::Idle), None));
    assert!(task.is_done());
    assert_eq!(task.advance(&went_well()), nothing());
}

#[test]
fn an_installer_that_fails_is_reported() {
    let mut task = Task::install(&jre(), "D:/games");
    task.advance(&TaskEvent::Start);
    task.advance(&went_well());
    let third = task.advance(&went_badly("exit status: 1603"));
    assert_eq!(
        third,
        step("failed to install jre: exit status: 1603", Some(InFlight::Idle), None)
    );
    assert!(task.is_done());
}

#[test]
fn an_installer_that_cannot_be_started_is_reported() {
    let mut task = Task::install(&jre(), "D:/games");
    task.advance(&TaskEvent::Start);
    task.advance(&went_well());
    let third = task.advance(&not_started("access denied"));
    assert_eq!(third, step("failed to install jre: access denied", Some(InFlight::Idle), None));
}

#[test]
fn a_launch_announces_runs_and_reports_the_exit() {
    let mut task = Task::launch(&jre(), &gaem("D:/games".to_string()));
    let first = task.advance(&TaskEvent::Start);
    assert_eq!(
        first,
        step(
            "starting gaem...",
            None,
            Some(launch_command("java", "D:/games", "term-paper.jar"))
        )
    );
    assert_eq!(task.phase, TaskPhase::Launching);
    let second = task.advance(&went_well());
    assert_eq!(second, step("gaem has exited: exit status: 0", None, None));
    assert!(task.is_done());
}

#[test]
fn a_launch_that_cannot_be_started_is_reported_and_leaves_the_flag() {
    let mut task = Task::launch(&jre(), &gaem("D:/games".to_string()));
    task.advance(&TaskEvent::Start);
    let second = task.advance(&not_started("program not found"));
    assert_eq!(second, step("failed to start gaem: program not found", None, None));
    assert!(task.is_done());
}

#[test]
fn an_event_that_is_not_awaited_changes_nothing() {
    let mut task = Task::fetch(&gaem("D:/games".to_string()));
    assert_eq!(task.advance(&went_well()), nothing());
    assert_eq!(task.phase, TaskPhase::Pending);
    task.advance(&TaskEvent::Start);
    assert_eq!(task.advance(&TaskEvent::Start), nothing());
    assert_eq!(task.phase, TaskPhase::Downloading);
    task.advance(&went_well());
    assert_eq!(task.advance(&TaskEvent::Start), nothing());
    assert_eq!(task.advance(&went_well()), nothing());
    assert_eq!(task.phase, TaskPhase::Done);
}

#[test]
fn a_task_hands_out_two_commands_at_most() {
    let mut task = Task::install(&jre(), "D:/games");
    let mut commands = 0;
    let mut event = TaskEvent::Start;
    for _ in 0..10 {
        let step = task.advance(&event);
        if step.run.is_some() {
            commands += 1;
        }
        event = went_well();
    }
    assert_eq!(commands, 2);
    assert!(task.is_done());
}

#[test]
fn a_step_is_delivered_message_first() {
    let (status, status_end) = channel::<String>();
    let (flag, flag_end) = channel::<InFlight>();
    let run = curl("https://example.org/a", "D:/games");
    let handed = step("starting installer...", Some(InFlight::Installing), Some(run.duplicate()))
        .deliver(&status, &flag);
    assert_eq!(handed, Some(run));
    assert_eq!(status_end.try_recv().ok(), Some("starting installer...".to_string()));
    assert_eq!(flag_end.try_recv().ok(), Some(InFlight::Installing));
    assert!(status_end.try_recv().is_err());
    assert!(flag_end.try_recv().is_err());
}

#[test]
fn a_step_delivers_its_messages_in_their_order() {
    let (status, status_end) = channel::<String>();
    let (flag, flag_end) = channel::<InFlight>();
    let dependency = jre();
    let mut task = Task::install(&dependency, "D:/games");
    task.advance(&TaskEvent::Start);
    let handed = task.advance(&went_well()).deliver(&status, &flag);
    assert_eq!(handed, Some(dependency.install_command("D:/games")));
    assert_eq!(status_end.try_recv().ok(), Some("jre has been succesffully curl'd".to_string()));
    assert_eq!(status_end.try_recv().ok(), Some("starting installer...".to_string()));
    assert!(status_end.try_recv().is_err());
    assert_eq!(flag_end.try_recv().ok(), Some(InFlight::Installing));
    assert!(flag_end.try_recv().is_err());
}

#[test]
fn a_good_install_reports_four_messages() {
    let (status, status_end) = channel::<String>();
    let (flag, flag_end) = channel::<InFlight>();
    let mut task = Task::install(&jre(), "D:/games");
    let mut event = TaskEvent::Start;
    while task.advance(&event).deliver(&status, &flag).is_some() {
        event = went_well();
    }
    let mut reports = Vec::new();
    while let Ok(report) = status_end.try_recv() {
        reports.push(report);
    }
    assert_eq!(
        reports,
        vec![
            "curling jre...".to_string(),
            "jre has been succesffully curl'd".to_string(),
            "starting installer...".to_string(),
            "jre has been installed".to_string(),
        ]
    );
    let mut flags = Vec::new();
    while let Ok(value) = flag_end.try_recv() {
        flags.push(value);
    }
    assert_eq!(flags, vec![InFlight::Installing, InFlight::Idle]);
}

#[test]
fn an_empty_step_sends_nothing() {
    let (status, status_end) = channel::<String>();
    let (flag, flag_end) = channel::<InFlight>();
    assert_eq!(nothing().deliver(&status, &flag), None);
    assert!(status_end.try_recv().is_err());
    assert!(flag_end.try_recv().is_err());
}

#[test]
fn a_step_is_delivered_even_when_nobody_listens() {
    let (status, status_end) = channel::<String>();
    let (flag, flag_end) = channel::<InFlight>();
    drop(status_end);
    drop(flag_end);
    let handed = step("gaem has exited: ok", Some(InFlight::Idle), None).deliver(&status, &flag);
    assert_eq!(handed, None);
}
