use cypackages::catalog;
use cypackages::config::Config;
use cypackages::config::collect_env;
use cypackages::errors::SetupError;
use cypackages::gpu::{classify_gpu, parse_metal_profile, parse_nvidia_smi, GpuType};
use cypackages::manager::PackageManager;
use cypackages::menu::{
    filter_separators, get_available_components, get_target_description, InstallTarget,
};
use cypackages::package::Package;
use cypackages::package_manager::{
    listing_mentions, parse_apt_candidate_version, parse_brew_info_version,
    parse_cargo_search_version, AptManager, BrewManager, CargoManager,
};
use cypackages::recipe::Recipe;
use cypackages::recipes::{DevToolsRecipe, PackageSpec, Recipe as PlatformRecipe};
use cypackages::command::CommandLine;
use cypackages::setup::{
    default_home_for, install_or_upgrade_decision, setup_package_manager_plan, UpgradeStep,
};
use cypackages::shell::{appended_if_missing, merged_shell_config, shell_config_file,
    shell_config_template};
use cypackages::sys::{delay_ms_for, detect_platform, PackageCache};

#[test]
fn test_core_packages() {
    let packages = vec!["zsh", "tmux", "htop"]
        .into_iter()
        .map(String::from)
        .collect::<Vec<_>>();
    assert!(!packages.is_empty());
    assert!(packages.contains(&"zsh".to_string()));
    assert!(packages.contains(&"tmux".to_string()));
    assert!(packages.contains(&"htop".to_string()));
}

#[test]
fn test_dev_packages() {
    let packages = catalog::get_dev_packages();
    assert!(!packages.is_empty());

    let utils = packages
        .iter()
        .find(|p| p.name_for(&PackageManager::Apt).contains("ripgrep"))
        .unwrap();
    assert!(utils.name_for(&PackageManager::Brew).contains("ripgrep"));
}

#[test]
fn test_package_manager_display() {
    assert_eq!(PackageManager::Apt.display_name(), "apt-get");
    assert_eq!(PackageManager::Yum.display_name(), "yum");
    assert_eq!(PackageManager::Brew.display_name(), "brew");
}

#[test]
fn test_recipe_generation() {
    let apt_recipe = PackageManager::Apt.recipe();
    assert_eq!(apt_recipe.install_command.program, "sudo");
    assert_eq!(apt_recipe.install_command.args, vec!["apt-get", "install", "-y"]);

    let yum_recipe = PackageManager::Yum.recipe();
    assert_eq!(yum_recipe.install_command.program, "sudo");
    assert_eq!(yum_recipe.install_command.args, vec!["yum", "install", "-y"]);

    let brew_recipe = PackageManager::Brew.recipe();
    assert_eq!(brew_recipe.install_command.program, "brew");
    assert_eq!(brew_recipe.install_command.args, vec!["install"]);
}

#[test]
fn test_package_creation() {
    let pkg = Package::new("git")
        .with_version("2.0.0")
        .with_alternatives(vec!["apt:git-all".to_string(), "brew:git".to_string()]);

    assert_eq!(pkg.name_for(&PackageManager::Apt), "git-all");
    assert_eq!(pkg.name_for(&PackageManager::Yum), "git");
    assert_eq!(pkg.name_for(&PackageManager::Brew), "git");
}

#[test]
fn test_package_display() {
    let pkg = Package::new("git");
    assert_eq!(pkg.display_string(), "git");

    let pkg_with_version = Package::new("git").with_version("2.0.0");
    assert_eq!(pkg_with_version.display_string(), "git=2.0.0");
}

#[test]
fn test_recipe_builder() {
    let recipe = Recipe::new()
        .with_update_steps(vec![
            CommandLine::new("apt-get", vec!["update"]),
            CommandLine::new("apt-get", vec!["upgrade"]),
        ])
        .with_install_step("apt-get", vec!["install", "-y"]);

    assert_eq!(recipe.update_steps.len(), 2);
    assert_eq!(recipe.install_command.program, "apt-get");
    assert_eq!(recipe.install_command.args, vec!["install", "-y"]);
}

#[test]
fn test_package_spec_creation() {
    let spec = PackageSpec::new("test", PackageManager::Apt);
    assert_eq!(spec.name, "test");
    assert_eq!(spec.manager_type, PackageManager::Apt);
}

#[test]
fn test_recipe_validation() {
    let recipe = PlatformRecipe::new();
    assert!(recipe.validate().is_ok());

    let ubuntu_pkgs = recipe.get_packages("ubuntu").unwrap();
    assert!(!ubuntu_pkgs.is_empty());
    assert_eq!(ubuntu_pkgs[0].manager_type, PackageManager::Apt);

    let macos_pkgs = recipe.get_packages("macos").unwrap();
    assert!(!macos_pkgs.is_empty());
    assert_eq!(macos_pkgs[0].manager_type, PackageManager::Brew);

    let amazon_pkgs = recipe.get_packages("amazon").unwrap();
    assert!(!amazon_pkgs.is_empty());
    assert_eq!(amazon_pkgs[0].manager_type, PackageManager::Yum);

    assert!(recipe.get_packages("windows").is_err());
}

#[test]
fn test_devtools_recipe() {
    let recipe = DevToolsRecipe::new();
    assert!(recipe.validate().is_ok());

    let ubuntu = recipe.get_packages("ubuntu").unwrap();
    assert!(ubuntu.iter().any(|p| p.name == "fd-find"));

    let macos = recipe.get_packages("macos").unwrap();
    assert!(macos.iter().any(|p| p.name == "fd"));

    let amazon = recipe.get_packages("amazon").unwrap();
    assert!(!amazon.iter().any(|p| p.name == "fd-find"));
}

#[test]
fn test_invalid_recipe() {
    let mut recipe = PlatformRecipe::new();

    recipe.insert("test", vec![]);
    assert!(recipe.validate().is_err());

    recipe.insert(
        "test",
        vec![
            PackageSpec::new("pkg1", PackageManager::Apt),
            PackageSpec::new("pkg2", PackageManager::Brew),
        ],
    );
    assert!(recipe.validate().is_err());

    recipe.insert("test", vec![PackageSpec::new("invalid name", PackageManager::Apt)]);
    assert!(recipe.validate().is_err());
}

#[test]
fn test_config_builder() {
    let config = Config::new()
        .key("TEST_KEY", Some("test_value".to_string()))
        .key("NONEXISTENT_KEY", None)
        .build();

    let lookup = |name: &str| {
        config
            .iter()
            .find(|(k, _)| k == name)
            .map(|(_, v)| v.clone())
    };
    assert_eq!(lookup("TEST_KEY"), Some("test_value".to_string()));
    assert_eq!(lookup("NONEXISTENT_KEY"), None);
}

#[test]
fn test_collect_env_reads_captured_environment() {
    let env = vec![
        ("OPENAI_API_KEY".to_string(), "abc".to_string()),
        ("IRRELEVANT".to_string(), "zzz".to_string()),
        ("NEO4J_USER".to_string(), "neo".to_string()),
    ];
    let built = collect_env(&env).build();
    assert_eq!(built.len(), 2);
    assert!(built.contains(&("OPENAI_API_KEY".to_string(), "abc".to_string())));
    assert!(built.contains(&("NEO4J_USER".to_string(), "neo".to_string())));
}

#[test]
fn test_name_resolution_falls_back_to_canonical() {
    let pkg = Package::new("git");
    assert_eq!(pkg.name_for(&PackageManager::Apt), "git");
    assert_eq!(pkg.name_for(&PackageManager::Yum), "git");
    assert_eq!(pkg.name_for(&PackageManager::Brew), "git");
    assert!(!pkg.name_for(&PackageManager::Apt).is_empty());
}

#[test]
fn test_catalog_get_unknown_group() {
    assert!(catalog::get("no-such-group").is_none());
    let base = catalog::get_base_packages();
    assert_eq!(base.len(), 2);
    let cargo = catalog::get_cargo_packages();
    assert_eq!(cargo.len(), 11);
    assert!(cargo.contains(&"zoxide"));
}

#[test]
fn test_detect_macos_requires_brew() {
    // OS = macOS, no brew present: detection fails naming Homebrew's URL,
    // whatever apt-get or yum probes would have said.
    let err = PackageManager::detect_from(true, false, true, true).unwrap_err();
    match err {
        SetupError::DetectionFailure { message } => {
            assert_eq!(message, "Homebrew not found. Please install it first: https://brew.sh");
            assert!(message.contains("https://brew.sh"));
        },
        other => panic!("unexpected error: {:?}", other),
    }
    match PackageManager::detect_from(true, true, false, false) {
        Ok(PackageManager::Brew) => {},
        other => panic!("unexpected detection: {:?}", other),
    }
}

#[test]
fn test_detect_prefers_apt_over_yum() {
    assert!(matches!(
        PackageManager::detect_from(false, true, true, true),
        Ok(PackageManager::Apt)
    ));
    assert!(matches!(
        PackageManager::detect_from(false, false, false, true),
        Ok(PackageManager::Yum)
    ));
    let err = PackageManager::detect_from(false, true, false, false).unwrap_err();
    match err {
        SetupError::DetectionFailure { message } => {
            assert_eq!(
                message,
                "No supported package manager found. Please install apt-get or yum."
            );
        },
        other => panic!("unexpected error: {:?}", other),
    }
}

#[test]
fn test_detect_platform_mappings() {
    assert_eq!(
        detect_platform("linux", "x86_64").unwrap(),
        ("linux".to_string(), "amd64".to_string())
    );
    assert_eq!(
        detect_platform("macos", "aarch64").unwrap(),
        ("darwin".to_string(), "arm64".to_string())
    );
    assert_eq!(
        detect_platform("windows", "x86_64").unwrap(),
        ("windows".to_string(), "amd64".to_string())
    );
    match detect_platform("freebsd", "x86_64").unwrap_err() {
        SetupError::DetectionFailure { message } => {
            assert_eq!(message, "Unsupported OS: freebsd");
        },
        other => panic!("unexpected error: {:?}", other),
    }
    match detect_platform("linux", "riscv64").unwrap_err() {
        SetupError::DetectionFailure { message } => {
            assert_eq!(message, "Unsupported architecture: riscv64");
        },
        other => panic!("unexpected error: {:?}", other),
    }
}

#[test]
fn test_freshness_window() {
    let mut cache = PackageCache::with_cache_dir("/tmp/cache".to_string());
    assert!(!cache.is_fresh("linux", "zsh", 5_000));
    cache.update("linux", "zsh", 5_000);
    assert!(cache.is_fresh("linux", "zsh", 5_000));
    assert!(cache.is_fresh("linux", "zsh", 5_000 + 24 * 60 * 60 - 1));
    assert!(!cache.is_fresh("linux", "zsh", 5_000 + 24 * 60 * 60));
    assert!(!cache.is_fresh("linux", "tmux", 5_000));
    // A later update moves the window.
    cache.update("linux", "zsh", 100_000);
    assert!(cache.is_fresh("linux", "zsh", 100_000 + 24 * 60 * 60 - 1));
}

#[test]
fn test_cache_path_layout() {
    let cache = PackageCache::with_cache_dir("/home/me/.cache/cypackages".to_string());
    assert_eq!(
        cache.get_cache_path("linux", "zsh"),
        "/home/me/.cache/cypackages/linux_zsh"
    );
}

#[test]
fn test_backoff_schedule() {
    assert_eq!(delay_ms_for(1), 1000);
    assert_eq!(delay_ms_for(2), 2000);
    assert_eq!(delay_ms_for(3), 4000);
    assert!(delay_ms_for(1) <= delay_ms_for(2));
    assert!(delay_ms_for(2) <= delay_ms_for(3));
}

#[test]
fn test_gpu_nvidia_parse() {
    let out = parse_nvidia_smi("NVIDIA GeForce RTX 3080, 535.54.03, 10240 MiB", true).unwrap();
    match out {
        GpuType::Nvidia { name, driver_version, memory, cuda_available } => {
            assert_eq!(name, "NVIDIA GeForce RTX 3080");
            assert_eq!(driver_version, "535.54.03");
            assert_eq!(memory, "10240 MiB");
            assert!(cuda_available);
        },
        other => panic!("unexpected gpu: {:?}", other),
    }
    assert!(parse_nvidia_smi("only, two", false).is_none());
}

#[test]
fn test_gpu_metal_parse() {
    let profile = "Graphics/Displays:\n\n    Apple M1:\n\n      Chipset Model: Apple M1\n      Type: GPU\n";
    let out = parse_metal_profile(profile).unwrap();
    match out {
        GpuType::Metal { device_name, architecture } => {
            assert_eq!(device_name, "Apple M1");
            assert_eq!(architecture, "Apple Silicon");
        },
        other => panic!("unexpected gpu: {:?}", other),
    }
    let intel = parse_metal_profile("  Chipset Model: Intel Iris Plus\n").unwrap();
    match intel {
        GpuType::Metal { device_name, architecture } => {
            assert_eq!(device_name, "Intel Iris Plus");
            assert_eq!(architecture, "Intel");
        },
        other => panic!("unexpected gpu: {:?}", other),
    }
    assert!(parse_metal_profile("no gpu line here").is_none());
}

#[test]
fn test_gpu_classification_order() {
    let g = classify_gpu(Some("A, 1.0, 8 GiB"), false, Some("Chipset Model: Apple M1"));
    assert!(matches!(g, GpuType::Nvidia { .. }));
    let g = classify_gpu(None, false, Some("Chipset Model: Apple M1"));
    assert!(matches!(g, GpuType::Metal { .. }));
    let g = classify_gpu(None, false, None);
    assert!(matches!(g, GpuType::NoGpu));
}

#[test]
fn test_shell_config_decision() {
    let template = shell_config_template();
    assert_eq!(merged_shell_config(""), Some(template.to_string()));
    assert_eq!(merged_shell_config(template), None);
    let merged = merged_shell_config("export FOO=1\n").unwrap();
    assert_eq!(merged, format!("export FOO=1\n\n{}", template));

    assert_eq!(shell_config_file("/bin/zsh"), ".zshrc");
    assert_eq!(shell_config_file("/usr/bin/bash"), ".bashrc");
    assert_eq!(shell_config_file("/bin/fish"), ".profile");

    assert_eq!(appended_if_missing("abc", "b"), None);
    assert_eq!(appended_if_missing("abc", "d"), Some("abcd".to_string()));
}

#[test]
fn test_setup_plan_commands() {
    let ubuntu = setup_package_manager_plan("ubuntu", false, false).unwrap();
    assert_eq!(ubuntu.len(), 2);
    assert_eq!(ubuntu[0].program, "sudo");
    assert_eq!(ubuntu[0].args, vec!["-n", "apt-get", "-y", "clean"]);
    assert_eq!(ubuntu[1].args, vec!["-n", "apt-get", "-y", "update"]);

    let amazon = setup_package_manager_plan("amazon", false, false).unwrap();
    assert_eq!(amazon[0].args, vec!["-n", "yum", "-y", "clean", "all"]);

    let macos = setup_package_manager_plan("macos", true, false).unwrap();
    assert_eq!(macos.len(), 1);
    assert_eq!(macos[0].program, "brew");
    assert_eq!(macos[0].args, vec!["update", "--force"]);

    let macos_fresh = setup_package_manager_plan("macos", false, true).unwrap();
    assert_eq!(macos_fresh.len(), 3);
    assert_eq!(macos_fresh[0].program, "bash");

    assert!(setup_package_manager_plan("windows", false, false).is_err());
}

#[test]
fn test_home_and_upgrade_decisions() {
    assert_eq!(default_home_for("ubuntu", "alex"), "/root");
    assert_eq!(default_home_for("amazon", "alex"), "/root");
    assert_eq!(default_home_for("macos", "alex"), "/Users/alex");

    assert_eq!(
        install_or_upgrade_decision(false, true, true),
        UpgradeStep::InstallIt
    );
    assert_eq!(
        install_or_upgrade_decision(true, true, false),
        UpgradeStep::UseCachedVersion
    );
    assert_eq!(
        install_or_upgrade_decision(true, false, false),
        UpgradeStep::RefreshVersion { force_upgrade: false }
    );
    assert_eq!(
        install_or_upgrade_decision(true, true, true),
        UpgradeStep::RefreshVersion { force_upgrade: true }
    );
}

#[test]
fn test_menu_components() {
    let components = get_available_components();
    assert_eq!(components.len(), 5);
    assert_eq!(components[0].name, "Secret.Rust (cysec)");
    let real = filter_separators(components);
    assert_eq!(real.len(), 4);
    assert!(real.iter().all(|m| !m.name.starts_with("─")));

    assert_eq!(
        get_target_description(&InstallTarget::Host),
        "Install directly on your host system."
    );
    assert_eq!(InstallTarget::Host.display_string(), "Install on Host System");
    assert_eq!(InstallTarget::DevContainer.display_string(), "Install in Dev Container");
}

#[test]
fn test_error_descriptions() {
    let e = SetupError::CommandNotFound { command: "sudo".to_string() };
    assert_eq!(e.describe(), "required command not found: sudo");
    let e = SetupError::InvalidPackageName { name: "bad name".to_string() };
    assert!(e.describe().contains("bad name"));
    let e = SetupError::InvalidRecipe { message: "empty".to_string() };
    assert_eq!(e.describe(), "invalid recipe: empty");
    let e = SetupError::CacheIoFailure { path: "/tmp/x".to_string() };
    assert!(e.describe().contains("/tmp/x"));
    let e = SetupError::RetryExhausted {
        attempts: 3,
        command: CommandLine::new("sudo", vec!["apt-get"]),
        detail: "E: lock held".to_string(),
    };
    let d = e.describe();
    assert!(d.contains("sudo"));
    assert!(d.contains("E: lock held"));
}

#[test]
fn test_version_parsers() {
    let cargo_out = "serde = \"1.0.210\"    # A generic serialization framework\n";
    assert_eq!(parse_cargo_search_version(cargo_out), Some("1.0.210".to_string()));
    assert_eq!(parse_cargo_search_version(""), None);

    let apt_out = "zsh:\n  Installed: (none)\n  Candidate: 5.8-3ubuntu1\n  Version table:\n";
    assert_eq!(parse_apt_candidate_version(apt_out), Some("5.8-3ubuntu1".to_string()));
    assert_eq!(parse_apt_candidate_version("zsh:\n  Installed: (none)\n"), None);

    let brew_out = "zsh: stable 5.9 (bottled), HEAD\nUNIX shell (command interpreter)\n";
    assert_eq!(parse_brew_info_version(brew_out), Some("stable".to_string()));

    let listing = "ripgrep v14.1.0:\n    rg\nzoxide v0.9.4:\n    zoxide\n";
    assert!(listing_mentions(listing, "zoxide"));
    assert!(!listing_mentions(listing, "htop"));
}

#[test]
fn test_manager_handle_names() {
    assert_eq!(CargoManager.name(), "cargo");
    assert_eq!(AptManager.name(), "apt");
    assert_eq!(BrewManager.name(), "brew");
}
