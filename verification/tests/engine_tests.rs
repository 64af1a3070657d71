use cypackages::engine::{Action, Event, InstallRun, RunStatus};
use cypackages::errors::SetupError;
use cypackages::manager::PackageManager;
use cypackages::package::Package;
use cypackages::sys::PackageCache;

/// What a driver performed, recorded for assertions.
#[derive(Debug, PartialEq, Clone)]
enum Performed {
    Probe(String),
    Run(String, Vec<String>),
    Sleep(u64),
    Mark(Vec<String>),
}

/// Drive a run to completion: probes always find their program, each
/// spawned command consumes the next scripted outcome (success once the
/// script runs out), and sleeps and cache marks are acknowledged.
fn drive(run: &mut InstallRun, outcomes: &[bool]) -> Vec<Performed> {
    let mut log = Vec::new();
    let mut k = 0;
    loop {
        match run.next_action() {
            Action::Probe(p) => {
                log.push(Performed::Probe(p));
                run.on_event(Event::Probed { found: true });
            }
            Action::Run(c) => {
                let ok = if k < outcomes.len() { outcomes[k] } else { true };
                k += 1;
                log.push(Performed::Run(c.program.clone(), c.args.clone()));
                run.on_event(Event::Ran { success: ok, detail: String::new() });
            }
            Action::Sleep(ms) => {
                log.push(Performed::Sleep(ms));
                run.on_event(Event::Slept);
            }
            Action::MarkFresh(names) => {
                log.push(Performed::Mark(names.clone()));
                run.on_event(Event::Marked);
            }
            Action::Done => break,
        }
    }
    log
}

fn shell_tools() -> Vec<Package> {
    vec![Package::new("zsh"), Package::new("tmux"), Package::new("htop")]
}

fn succeeded(run: &InstallRun) -> bool {
    matches!(run.status(), RunStatus::Succeeded)
}

#[test]
fn test_ubuntu_success_path() {
    // detect() = Apt; the recipe's two update steps run in order; then the
    // single-batch install runs once; on success all three packages are
    // marked fresh.
    let pm = PackageManager::detect_from(false, false, true, false).unwrap();
    assert_eq!(pm, PackageManager::Apt);

    let mut run = pm.install(&shell_tools());
    let log = drive(&mut run, &[]);
    assert!(succeeded(&run));

    let strs = |v: &[&str]| v.iter().map(|s| s.to_string()).collect::<Vec<_>>();
    let expected = vec![
        Performed::Probe("sudo".to_string()),
        Performed::Probe("sudo".to_string()),
        Performed::Probe("sudo".to_string()),
        Performed::Run("sudo".to_string(), strs(&["apt-get", "-y", "clean"])),
        Performed::Run("sudo".to_string(), strs(&["apt-get", "-y", "update"])),
        Performed::Run(
            "sudo".to_string(),
            strs(&["apt-get", "install", "-y", "zsh", "tmux", "htop"]),
        ),
        Performed::Mark(strs(&["zsh", "tmux", "htop"])),
    ];
    assert_eq!(log, expected);

    // The driver records the marked names in the freshness cache.
    let mut cache = PackageCache::with_cache_dir("/tmp/cache".to_string());
    for entry in &log {
        if let Performed::Mark(names) = entry {
            for name in names {
                cache.update("linux", name, 7_000);
            }
        }
    }
    assert!(cache.is_fresh("linux", "zsh", 7_000));
    assert!(cache.is_fresh("linux", "tmux", 7_000));
    assert!(cache.is_fresh("linux", "htop", 7_000));
    assert!(!cache.is_fresh("linux", "ripgrep", 7_000));
}

#[test]
fn test_batching_boundary() {
    // 23 packages with batch size 10 produce exactly 3 install
    // invocations, of 10, 10 and 3 names.
    let packages: Vec<Package> = (0..23)
        .map(|i| Package::new(&format!("pkg{}", i)))
        .collect();
    let mut run = PackageManager::Apt.install(&packages);
    let log = drive(&mut run, &[]);
    assert!(succeeded(&run));

    let installs: Vec<&Performed> = log
        .iter()
        .filter(|p| matches!(p, Performed::Run(_, args) if args.get(1).map(|a| a == "install").unwrap_or(false)))
        .collect();
    assert_eq!(installs.len(), 3);
    let sizes: Vec<usize> = installs
        .iter()
        .map(|p| match p {
            Performed::Run(_, args) => args.len() - 3,
            _ => unreachable!(),
        })
        .collect();
    assert_eq!(sizes, vec![10, 10, 3]);

    let marks: Vec<&Performed> = log.iter().filter(|p| matches!(p, Performed::Mark(_))).collect();
    assert_eq!(marks.len(), 3);
}

#[test]
fn test_retry_bound() {
    // A command that always fails is attempted exactly three times, with
    // non-decreasing exponential delays between attempts, and the final
    // error reports the attempt count.
    let mut run = PackageManager::Apt.install(&shell_tools());
    let log = drive(&mut run, &[false, false, false]);

    let clean_runs = log
        .iter()
        .filter(|p| matches!(p, Performed::Run(_, args) if args.last().map(|a| a == "clean").unwrap_or(false)))
        .count();
    assert_eq!(clean_runs, 3);

    let delays: Vec<u64> = log
        .iter()
        .filter_map(|p| match p {
            Performed::Sleep(ms) => Some(*ms),
            _ => None,
        })
        .collect();
    assert_eq!(delays, vec![1000, 2000]);
    assert!(delays.windows(2).all(|w| w[0] <= w[1]));

    // Nothing beyond the failing update step ever ran.
    assert!(!log.iter().any(
        |p| matches!(p, Performed::Run(_, args) if args.contains(&"install".to_string()))
    ));

    match run.status() {
        RunStatus::Failed(SetupError::RetryExhausted { attempts, command, .. }) => {
            assert_eq!(*attempts, 3);
            assert_eq!(command.program, "sudo");
        }
        other => panic!("unexpected status: {:?}", other),
    }
}

#[test]
fn test_transient_failure_recovers() {
    // The install command fails twice, then succeeds on the third attempt:
    // the run succeeds and only that batch's packages are marked fresh.
    let mut run = PackageManager::Apt.install(&vec![Package::new("zsh")]);
    let log = drive(&mut run, &[true, true, false, false, true]);
    assert!(succeeded(&run));

    let install_runs = log
        .iter()
        .filter(|p| matches!(p, Performed::Run(_, args) if args.get(1).map(|a| a == "install").unwrap_or(false)))
        .count();
    assert_eq!(install_runs, 3);

    let delays: Vec<u64> = log
        .iter()
        .filter_map(|p| match p {
            Performed::Sleep(ms) => Some(*ms),
            _ => None,
        })
        .collect();
    assert_eq!(delays, vec![1000, 2000]);

    let marks: Vec<Vec<String>> = log
        .iter()
        .filter_map(|p| match p {
            Performed::Mark(names) => Some(names.clone()),
            _ => None,
        })
        .collect();
    assert_eq!(marks, vec![vec!["zsh".to_string()]]);
}

#[test]
fn test_validation_short_circuit() {
    // A package whose resolved name holds a space fails the run after the
    // update steps, and the install command is never issued.
    let bad = Package::new("zsh").with_alternatives(vec!["apt:bad name".to_string()]);
    let mut run = PackageManager::Apt.install(&vec![Package::new("tmux"), bad]);
    let log = drive(&mut run, &[]);

    match run.status() {
        RunStatus::Failed(SetupError::InvalidPackageName { name }) => {
            assert_eq!(name, "bad name");
        }
        other => panic!("unexpected status: {:?}", other),
    }

    // The two update steps did run; no install invocation ever appeared.
    let update_runs = log
        .iter()
        .filter(|p| matches!(p, Performed::Run(_, _)))
        .count();
    assert_eq!(update_runs, 2);
    assert!(!log.iter().any(
        |p| matches!(p, Performed::Run(_, args) if args.contains(&"install".to_string()))
    ));
}

#[test]
fn test_missing_command_aborts_before_any_run() {
    // Pre-flight: a recipe command absent from the path fails the run
    // before any update or install step is spawned.
    let mut run = PackageManager::Brew.install(&shell_tools());
    match run.next_action() {
        Action::Probe(p) => assert_eq!(p, "brew"),
        other => panic!("unexpected action: {:?}", other),
    }
    run.on_event(Event::Probed { found: false });
    match run.status() {
        RunStatus::Failed(SetupError::CommandNotFound { command }) => {
            assert_eq!(command, "brew");
        }
        other => panic!("unexpected status: {:?}", other),
    }
    assert!(run.is_finished());
}

#[test]
fn test_mismatched_event_is_ignored() {
    // An event that does not answer the pending action leaves the run
    // where it stands.
    let mut run = PackageManager::Apt.install(&shell_tools());
    match run.next_action() {
        Action::Probe(p) => assert_eq!(p, "sudo"),
        other => panic!("unexpected action: {:?}", other),
    }
    run.on_event(Event::Marked);
    run.on_event(Event::Slept);
    match run.next_action() {
        Action::Probe(p) => assert_eq!(p, "sudo"),
        other => panic!("unexpected action: {:?}", other),
    }
    assert!(matches!(run.status(), RunStatus::Running));
}

#[test]
fn test_empty_install_is_noop() {
    let mut run = PackageManager::Yum.install(&Vec::new());
    let log = drive(&mut run, &[]);
    assert!(log.is_empty());
    assert!(succeeded(&run));
}

#[test]
fn test_install_deterministic() {
    // Installing the same package set twice issues the same command
    // sequence both times.
    let packages: Vec<Package> = (0..13)
        .map(|i| Package::new(&format!("tool{}", i)))
        .collect();
    let mut first = PackageManager::Yum.install(&packages);
    let mut second = PackageManager::Yum.install(&packages);
    let log1 = drive(&mut first, &[]);
    let log2 = drive(&mut second, &[]);
    assert_eq!(log1, log2);
    assert!(succeeded(&first) && succeeded(&second));
}

#[test]
fn test_execute_runs_one_batch() {
    // `Recipe::execute` takes its packages as a single batch; batching is
    // the caller's concern.
    let packages: Vec<Package> = (0..15)
        .map(|i| Package::new(&format!("tool{}", i)))
        .collect();
    let recipe = PackageManager::Brew.recipe();
    let mut empty_run = recipe.execute(&PackageManager::Brew, &Vec::new());
    assert!(succeeded(&empty_run));
    assert!(matches!(empty_run.next_action(), Action::Done));

    let mut run = recipe.execute(&PackageManager::Brew, &packages);
    let log = drive(&mut run, &[]);
    assert!(succeeded(&run));
    let installs = log
        .iter()
        .filter(|p| matches!(p, Performed::Run(_, args) if args.first().map(|a| a == "install").unwrap_or(false)))
        .count();
    assert_eq!(installs, 1);

    // Name resolution follows the manager: brew-tagged alternatives win.
    let pkg = Package::new("fd-find").with_alternatives(vec!["brew:fd".to_string()]);
    let mut run = PackageManager::Brew.install(&vec![pkg]);
    let log = drive(&mut run, &[]);
    assert!(log.contains(&Performed::Run(
        "brew".to_string(),
        vec!["install".to_string(), "fd".to_string()],
    )));
}
