use overlayed::lifecycle::startup_plan;
use overlayed::lifecycle::LaunchRole;
use overlayed::lifecycle::StartupStep;
use overlayed::log_level::log_level_from_setting;
use overlayed::log_level::LogLevel;
use overlayed::platform::document_title;
use overlayed::platform::window_setup;
use overlayed::platform::Platform;
use overlayed::platform::WindowOp;
use overlayed::platform::FLOAT_PANEL_LEVEL;
use overlayed::platform::FULLSCREEN_REFERENCE_LEVEL;
use overlayed::window::WindowLabel;

#[test]
fn default_platform_setup() {
    assert_eq!(
        window_setup(Platform::Default, false),
        vec![
            WindowOp::SetAlwaysOnTop(WindowLabel::Main, true),
            WindowOp::SetDocumentTitle(WindowLabel::Main),
            WindowOp::SetDocumentTitle(WindowLabel::Settings),
            WindowOp::SetDecorations(WindowLabel::Main, false),
        ]
    );
}

#[test]
fn macos_setup_in_development() {
    assert_eq!(
        window_setup(Platform::MacOs, true),
        vec![
            WindowOp::SetDocumentTitle(WindowLabel::Main),
            WindowOp::SetDocumentTitle(WindowLabel::Settings),
            WindowOp::SetDecorations(WindowLabel::Main, false),
            WindowOp::RemoveShadow(WindowLabel::Main),
            WindowOp::SetFloatPanel(WindowLabel::Main, FLOAT_PANEL_LEVEL),
            WindowOp::OpenDevtools(WindowLabel::Main),
            WindowOp::OpenDevtools(WindowLabel::Settings),
        ]
    );
    assert!(FLOAT_PANEL_LEVEL > FULLSCREEN_REFERENCE_LEVEL);
}

#[test]
fn document_titles() {
    assert_eq!(document_title(WindowLabel::Main), "Overlayed - Main");
    assert_eq!(document_title(WindowLabel::Settings), "Overlayed - Settings");
}

#[test]
fn launch_role_from_lock() {
    assert_eq!(LaunchRole::from_lock(true), LaunchRole::Primary);
    assert_eq!(LaunchRole::from_lock(false), LaunchRole::Secondary);
}

#[test]
fn secondary_launch_opens_no_window() {
    for platform in [Platform::Default, Platform::MacOs] {
        for dev in [false, true] {
            let plan = startup_plan(LaunchRole::Secondary, platform, dev);
            assert_eq!(plan, vec![StartupStep::ForwardInvocation, StartupStep::Exit]);
        }
    }
}

#[test]
fn primary_launch_order() {
    let plan = startup_plan(LaunchRole::Primary, Platform::Default, false);
    assert_eq!(
        plan,
        vec![
            StartupStep::ResolveWindows,
            StartupStep::Configure(WindowOp::SetAlwaysOnTop(WindowLabel::Main, true)),
            StartupStep::Configure(WindowOp::SetDocumentTitle(WindowLabel::Main)),
            StartupStep::Configure(WindowOp::SetDocumentTitle(WindowLabel::Settings)),
            StartupStep::Configure(WindowOp::SetDecorations(WindowLabel::Main, false)),
            StartupStep::InstallTray,
            StartupStep::InstallCloseInterceptors,
            StartupStep::BootstrapConfig,
        ]
    );
    let plan = startup_plan(LaunchRole::Primary, Platform::MacOs, true);
    assert_eq!(plan.len(), 11);
    assert_eq!(plan[0], StartupStep::ResolveWindows);
    assert_eq!(plan[10], StartupStep::BootstrapConfig);
}

#[test]
fn log_level_names_in_any_case() {
    assert_eq!(log_level_from_setting(Some("debug")), LogLevel::Debug);
    assert_eq!(log_level_from_setting(Some("WARN")), LogLevel::Warn);
    assert_eq!(log_level_from_setting(Some("TrAcE")), LogLevel::Trace);
    assert_eq!(log_level_from_setting(Some("off")), LogLevel::Off);
    assert_eq!(log_level_from_setting(Some("Error")), LogLevel::Error);
}

#[test]
fn log_level_defaults_to_info() {
    assert_eq!(log_level_from_setting(None), LogLevel::Info);
    assert_eq!(log_level_from_setting(Some("verbose")), LogLevel::Info);
    assert_eq!(log_level_from_setting(Some("")), LogLevel::Info);
    assert_eq!(log_level_from_setting(Some("info ")), LogLevel::Info);
}
