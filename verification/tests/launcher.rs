use session_supervisor::config::{Config, ConfigStore, HealthStatus, Platform};
use session_supervisor::error::AppError;
use session_supervisor::launcher::{
    decimal_text, group_text, plan_launch, plan_process, terminate_plan, LaunchMode, LaunchPlan,
    TerminateStep,
};

fn strings(items: &[&str]) -> Vec<String> {
    items.iter().map(|s| s.to_string()).collect()
}

fn config() -> Config {
    Config {
        claude_cmd: "/usr/bin/tool".to_string(),
        work_dir: Some("/work".to_string()),
        permission_mode: "acceptEdits".to_string(),
        session_dir: None,
        git_bin_path: None,
    }
}

#[test]
fn start_on_unix() {
    let plan = plan_launch(Platform::Unix, &config(), &LaunchMode::Start, "hello there");
    assert_eq!(
        plan,
        LaunchPlan {
            program: "/usr/bin/tool".to_string(),
            args: strings(&[
                "--print",
                "--verbose",
                "--output-format",
                "stream-json",
                "--permission-mode",
                "acceptEdits",
                "hello there",
            ]),
            work_dir: Some("/work".to_string()),
            env: vec![],
            hide_window: false,
            own_group: true,
        }
    );
}

#[test]
fn resume_on_unix() {
    let mode = LaunchMode::Resume("S123".to_string());
    let plan = plan_launch(Platform::Unix, &config(), &mode, "again");
    assert_eq!(plan.program, "/usr/bin/tool");
    assert_eq!(
        plan.args,
        strings(&[
            "--resume",
            "S123",
            "--print",
            "--verbose",
            "--output-format",
            "stream-json",
            "--permission-mode",
            "acceptEdits",
            "again",
        ])
    );
}

#[test]
fn start_on_windows_goes_through_the_interpreter() {
    let mut config = config();
    config.claude_cmd = "C:\\tools\\tool.cmd".to_string();
    config.work_dir = None;
    config.git_bin_path = Some("D:\\Git\\bash.exe".to_string());
    let plan = plan_launch(Platform::Windows, &config, &LaunchMode::Start, "a \"quoted\" & b");
    assert_eq!(
        plan,
        LaunchPlan {
            program: "cmd".to_string(),
            args: strings(&[
                "/c",
                "C:\\tools\\tool.cmd",
                "--print",
                "--verbose",
                "--output-format",
                "stream-json",
                "--permission-mode",
                "acceptEdits",
                "a \"quoted\" & b",
            ]),
            work_dir: None,
            env: vec![("CLAUDE_CODE_GIT_BASH_PATH".to_string(), "D:\\Git\\bash.exe".to_string())],
            hide_window: true,
            own_group: false,
        }
    );
}

#[test]
fn resume_on_windows() {
    let mode = LaunchMode::Resume("S9".to_string());
    let plan = plan_launch(Platform::Windows, &config(), &mode, "m");
    assert_eq!(
        plan.args,
        strings(&[
            "/c",
            "/usr/bin/tool",
            "--resume",
            "S9",
            "--print",
            "--verbose",
            "--output-format",
            "stream-json",
            "--permission-mode",
            "acceptEdits",
            "m",
        ])
    );
    assert_eq!(plan.args.last(), Some(&"m".to_string()));
}

#[test]
fn decimal_texts() {
    assert_eq!(decimal_text(0), "0");
    assert_eq!(decimal_text(7), "7");
    assert_eq!(decimal_text(10), "10");
    assert_eq!(decimal_text(1234567890), "1234567890");
    assert_eq!(decimal_text(4294967295), "4294967295");
}

#[test]
fn terminate_on_windows_kills_the_tree() {
    assert_eq!(
        terminate_plan(Platform::Windows, 4321),
        vec![TerminateStep::Run {
            program: "taskkill".to_string(),
            args: strings(&["/F", "/T", "/PID", "4321"]),
        }]
    );
}

#[test]
fn terminate_on_unix_asks_waits_and_forces_the_group() {
    assert_eq!(
        terminate_plan(Platform::Unix, 4321),
        vec![
            TerminateStep::Run {
                program: "kill".to_string(),
                args: strings(&["-TERM", "--", "-4321"]),
            },
            TerminateStep::Wait { millis: 500 },
            TerminateStep::Run {
                program: "kill".to_string(),
                args: strings(&["-9", "--", "-4321"]),
            },
        ]
    );
    assert_eq!(group_text(4321), "-4321");
    assert_eq!(group_text(4294967295), "-4294967295");
}

#[test]
fn terminate_on_unix_never_addresses_the_groups_that_mean_more() {
    assert_eq!(terminate_plan(Platform::Unix, 0), vec![]);
    assert_eq!(terminate_plan(Platform::Unix, 1), vec![]);
    assert_eq!(terminate_plan(Platform::Unix, 2).len(), 3);
}

#[test]
fn a_session_leads_its_own_group_where_groups_stand_for_trees() {
    let start = plan_launch(Platform::Unix, &config(), &LaunchMode::Start, "m");
    assert!(start.own_group);
    let resume = plan_launch(Platform::Unix, &config(), &LaunchMode::Resume("S".to_string()), "m");
    assert!(resume.own_group);
    let windows = plan_launch(Platform::Windows, &config(), &LaunchMode::Start, "m");
    assert!(!windows.own_group);
}

#[test]
fn new_config() {
    let config = Config::new("tool".to_string(), Some("bash".to_string()));
    assert_eq!(
        config,
        Config {
            claude_cmd: "tool".to_string(),
            work_dir: None,
            permission_mode: "bypassPermissions".to_string(),
            session_dir: None,
            git_bin_path: Some("bash".to_string()),
        }
    );
}

#[test]
fn store_takes_the_resolved_command() {
    let (store, changed) = ConfigStore::new(
        Config::new("tool".to_string(), None),
        "/cfg/config.json".to_string(),
        "tool",
        Some("/opt/bin/tool".to_string()),
    );
    assert!(changed);
    assert_eq!(store.get().claude_cmd, "/opt/bin/tool");
    assert_eq!(store.config_path(), "/cfg/config.json");
    let (store, changed) = ConfigStore::new(
        Config::new("/custom/tool".to_string(), None),
        "/cfg/config.json".to_string(),
        "tool",
        Some("/opt/bin/tool".to_string()),
    );
    assert!(!changed);
    assert_eq!(store.get().claude_cmd, "/custom/tool");
    let (store, changed) = ConfigStore::new(
        Config::new("tool".to_string(), None),
        "/cfg/config.json".to_string(),
        "tool",
        None,
    );
    assert!(!changed);
    assert_eq!(store.get().claude_cmd, "tool");
}

#[test]
fn store_changes() {
    let (mut store, _) =
        ConfigStore::new(config(), "/cfg/config.json".to_string(), "tool", None);
    assert_eq!(store.get(), &config());
    store.set_work_dir(None);
    assert_eq!(store.get().work_dir, None);
    assert_eq!(store.current_work_dir("/here".to_string()), "/here");
    store.set_work_dir(Some("/elsewhere".to_string()));
    assert_eq!(store.current_work_dir("/here".to_string()), "/elsewhere");
    store.set_claude_cmd("/bin/other".to_string());
    assert_eq!(store.get().claude_cmd, "/bin/other");
    assert_eq!(store.get().permission_mode, "acceptEdits");
    store.set_session_dir("/sessions".to_string());
    assert_eq!(store.get().session_dir, Some("/sessions".to_string()));
    store.update(Config::new("x".to_string(), None));
    assert_eq!(store.get(), &Config::new("x".to_string(), None));
    assert_eq!(store.config_path(), "/cfg/config.json");
}

#[test]
fn health() {
    let (store, _) = ConfigStore::new(config(), "/cfg/config.json".to_string(), "tool", None);
    assert_eq!(
        store.health_status(Some("1.2.3".to_string())),
        HealthStatus {
            claude_available: true,
            claude_version: Some("1.2.3".to_string()),
            work_dir: Some("/work".to_string()),
            config_valid: true,
        }
    );
    assert_eq!(
        store.health_status(None),
        HealthStatus {
            claude_available: false,
            claude_version: None,
            work_dir: Some("/work".to_string()),
            config_valid: true,
        }
    );
}

#[test]
fn messages_of_errors() {
    let detail = "x".to_string();
    assert_eq!(AppError::ClaudeNotFound(detail.clone()).to_message(), "CLI 未安装或不在 PATH 中");
    assert_eq!(AppError::ProcessError(detail.clone()).to_message(), "进程错误: x");
    assert_eq!(AppError::ParseError(detail.clone()).to_message(), "解析错误: x");
    assert_eq!(AppError::IoError(detail.clone()).to_message(), "IO 错误: x");
    assert_eq!(AppError::SerializationError(detail.clone()).to_message(), "序列化错误: x");
    assert_eq!(AppError::ConfigError(detail.clone()).to_message(), "配置错误: x");
    assert_eq!(AppError::SessionNotFound(detail.clone()).to_message(), "会话不存在: x");
    assert_eq!(AppError::PermissionDenied(detail.clone()).to_message(), "权限被拒绝: x");
    assert_eq!(AppError::InvalidPath(detail.clone()).to_message(), "无效路径: x");
    assert_eq!(AppError::Timeout.to_message(), "操作超时");
    assert_eq!(AppError::Unknown(detail.clone()).to_message(), "未知错误: x");
}

#[test]
fn descriptions_of_errors() {
    let detail = "x".to_string();
    assert_eq!(AppError::ClaudeNotFound(detail.clone()).describe(), "CLI not found at: x");
    assert_eq!(AppError::ProcessError(detail.clone()).describe(), "Process error: x");
    assert_eq!(AppError::ParseError(detail.clone()).describe(), "Failed to parse JSON: x");
    assert_eq!(AppError::IoError(detail.clone()).describe(), "IO error: x");
    assert_eq!(AppError::SerializationError(detail.clone()).describe(), "Serialization error: x");
    assert_eq!(AppError::ConfigError(detail.clone()).describe(), "Configuration error: x");
    assert_eq!(AppError::SessionNotFound(detail.clone()).describe(), "Session not found: x");
    assert_eq!(AppError::PermissionDenied(detail.clone()).describe(), "Permission denied: x");
    assert_eq!(AppError::InvalidPath(detail.clone()).describe(), "Invalid path: x");
    assert_eq!(AppError::Timeout.describe(), "Operation timed out");
    assert_eq!(AppError::Unknown(detail).describe(), "Unknown error: x");
}

#[test]
fn launch_configuration_prefers_the_given_directory() {
    let base = config();
    assert_eq!(base.for_launch(None), base);
    let other = base.for_launch(Some("/tmp/x".to_string()));
    assert_eq!(other.work_dir, Some("/tmp/x".to_string()));
    assert_eq!(other.claude_cmd, base.claude_cmd);
    assert_eq!(other.permission_mode, base.permission_mode);
    assert_eq!(other.session_dir, base.session_dir);
    assert_eq!(other.git_bin_path, base.git_bin_path);
}

#[test]
fn plain_process() {
    let args = strings(&["--version", "x y"]);
    let plan = plan_process(Platform::Unix, &config(), &args, true);
    assert_eq!(
        plan,
        LaunchPlan {
            program: "/usr/bin/tool".to_string(),
            args: strings(&["--version", "x y"]),
            work_dir: Some("/work".to_string()),
            env: vec![],
            hide_window: false,
            own_group: false,
        }
    );
    let plan = plan_process(Platform::Windows, &config(), &args, false);
    assert_eq!(plan.work_dir, None);
    assert_eq!(plan.env, vec![("CLAUDE_CODE_GIT_BIN_PATH".to_string(), "git".to_string())]);
    let mut with_helper = config();
    with_helper.git_bin_path = Some("C:\\git.exe".to_string());
    let plan = plan_process(Platform::Windows, &with_helper, &args, true);
    assert_eq!(
        plan.env,
        vec![("CLAUDE_CODE_GIT_BIN_PATH".to_string(), "C:\\git.exe".to_string())]
    );
}

#[test]
fn session_directories() {
    let (mut store, _) = ConfigStore::new(config(), "/cfg".to_string(), "tool", None);
    assert_eq!(
        store.session_dir(Some("/data/sessions".to_string())),
        Ok(("/data/sessions".to_string(), true))
    );
    assert_eq!(
        store.session_dir(None),
        Err(AppError::ConfigError("无法获取数据目录".to_string()))
    );
    store.set_session_dir("/mine".to_string());
    assert_eq!(
        store.session_dir(Some("/data/sessions".to_string())),
        Ok(("/mine".to_string(), false))
    );
    assert_eq!(store.session_dir(None), Ok(("/mine".to_string(), false)));
}

#[test]
fn default_configuration() {
    let unix = Config::default_for(Platform::Unix, "tool".to_string());
    assert_eq!(unix, Config::new("tool".to_string(), None));
    let windows = Config::default_for(Platform::Windows, "tool.cmd".to_string());
    assert_eq!(
        windows,
        Config::new(
            "tool.cmd".to_string(),
            Some("D:\\Program Files\\Git\\usr\\bin\\bash.exe".to_string())
        )
    );
    assert_eq!(windows.permission_mode, "bypassPermissions");
}
