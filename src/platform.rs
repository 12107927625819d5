//! Per-platform window configuration. Both platforms title the windows, drop
//! the default decorations and, in development builds, open the inspectors;
//! the default platform keeps the main window always on top, while macOS
//! instead removes its shadow and raises it to a floating panel level.

use crate::window::WindowLabel;
use vstd::prelude::*;

verus! {

/// The stacking level of a fullscreen application that the main window must
/// stay above on macOS.
pub const FULLSCREEN_REFERENCE_LEVEL: i64 = 1000;

/// The floating panel level given to the main window on macOS.
pub const FLOAT_PANEL_LEVEL: i64 = FULLSCREEN_REFERENCE_LEVEL + 1;

/// The platform variant, fixed when the program is built.
#[derive(Clone, Copy, PartialEq, Eq, Structural, Debug)]
pub enum Platform {
    Default,
    MacOs,
}

/// One configuration call on a window.
#[derive(Clone, Copy, PartialEq, Eq, Structural, Debug)]
pub enum WindowOp {
    SetAlwaysOnTop(WindowLabel, bool),
    SetDocumentTitle(WindowLabel),
    SetDecorations(WindowLabel, bool),
    RemoveShadow(WindowLabel),
    SetFloatPanel(WindowLabel, i64),
    OpenDevtools(WindowLabel),
}

/// The document title of a window.
pub open spec fn document_title_spec(label: WindowLabel) -> Seq<char> {
    match label {
        WindowLabel::Main => "Overlayed - Main"@,
        WindowLabel::Settings => "Overlayed - Settings"@,
    }
}

/// The document title of the window `label`.
pub fn document_title(label: WindowLabel) -> (r: &'static str)
    ensures
        r@ == document_title_spec(label),
{
    match label {
        WindowLabel::Main => "Overlayed - Main",
        WindowLabel::Settings => "Overlayed - Settings",
    }
}

/// Keeping the main window above others: always-on-top on the default
/// platform; nothing here on macOS, where the panel level does it.
pub open spec fn leveling_ops(platform: Platform) -> Seq<WindowOp> {
    match platform {
        Platform::Default => seq![WindowOp::SetAlwaysOnTop(WindowLabel::Main, true)],
        Platform::MacOs => seq![],
    }
}

/// The calls that both platforms make: titles, then no decorations on the
/// main window.
pub open spec fn common_ops() -> Seq<WindowOp> {
    seq![
        WindowOp::SetDocumentTitle(WindowLabel::Main),
        WindowOp::SetDocumentTitle(WindowLabel::Settings),
        WindowOp::SetDecorations(WindowLabel::Main, false),
    ]
}

/// The native chrome of the platform.
pub open spec fn chrome_ops(platform: Platform) -> Seq<WindowOp> {
    match platform {
        Platform::Default => seq![],
        Platform::MacOs => seq![
            WindowOp::RemoveShadow(WindowLabel::Main),
            WindowOp::SetFloatPanel(WindowLabel::Main, FLOAT_PANEL_LEVEL),
        ],
    }
}

/// The inspector panels, opened in development builds only.
pub open spec fn devtools_ops(dev_build: bool) -> Seq<WindowOp> {
    if dev_build {
        seq![WindowOp::OpenDevtools(WindowLabel::Main), WindowOp::OpenDevtools(WindowLabel::Settings)]
    } else {
        seq![]
    }
}

/// Every configuration call of startup, in the order they must run.
pub open spec fn window_setup_spec(platform: Platform, dev_build: bool) -> Seq<WindowOp> {
    leveling_ops(platform) + common_ops() + chrome_ops(platform) + devtools_ops(dev_build)
}

/// The window configuration calls of startup for `platform`, in order.
pub fn window_setup(platform: Platform, dev_build: bool) -> (r: Vec<WindowOp>)
    ensures
        r@ == window_setup_spec(platform, dev_build),
{
    let mut ops: Vec<WindowOp> = Vec::new();
    if platform == Platform::Default {
        ops.push(WindowOp::SetAlwaysOnTop(WindowLabel::Main, true));
    }
    ops.push(WindowOp::SetDocumentTitle(WindowLabel::Main));
    ops.push(WindowOp::SetDocumentTitle(WindowLabel::Settings));
    ops.push(WindowOp::SetDecorations(WindowLabel::Main, false));
    if platform == Platform::MacOs {
        ops.push(WindowOp::RemoveShadow(WindowLabel::Main));
        ops.push(WindowOp::SetFloatPanel(WindowLabel::Main, FLOAT_PANEL_LEVEL));
    }
    if dev_build {
        ops.push(WindowOp::OpenDevtools(WindowLabel::Main));
        ops.push(WindowOp::OpenDevtools(WindowLabel::Settings));
    }
    assert(ops@ =~= window_setup_spec(platform, dev_build));
    ops
}

/// On macOS the main window is never made always-on-top; it is given a
/// floating panel level above the fullscreen reference level instead. On the
/// default platform it is made always-on-top and given no panel level.
pub proof fn lemma_platform_leveling(dev_build: bool)
    ensures
        forall|i: int|
            0 <= i < window_setup_spec(Platform::MacOs, dev_build).len() ==> !(
            #[trigger] window_setup_spec(Platform::MacOs, dev_build)[i] is SetAlwaysOnTop),
        window_setup_spec(Platform::MacOs, dev_build).contains(
            WindowOp::SetFloatPanel(WindowLabel::Main, FLOAT_PANEL_LEVEL),
        ),
        FLOAT_PANEL_LEVEL > FULLSCREEN_REFERENCE_LEVEL,
        window_setup_spec(Platform::Default, dev_build).contains(
            WindowOp::SetAlwaysOnTop(WindowLabel::Main, true),
        ),
        forall|i: int|
            0 <= i < window_setup_spec(Platform::Default, dev_build).len() ==> !(
            #[trigger] window_setup_spec(Platform::Default, dev_build)[i] is SetFloatPanel),
{
    let mac = window_setup_spec(Platform::MacOs, dev_build);
    let def = window_setup_spec(Platform::Default, dev_build);
    let mac_base = seq![
        WindowOp::SetDocumentTitle(WindowLabel::Main),
        WindowOp::SetDocumentTitle(WindowLabel::Settings),
        WindowOp::SetDecorations(WindowLabel::Main, false),
        WindowOp::RemoveShadow(WindowLabel::Main),
        WindowOp::SetFloatPanel(WindowLabel::Main, FLOAT_PANEL_LEVEL),
    ];
    let def_base = seq![
        WindowOp::SetAlwaysOnTop(WindowLabel::Main, true),
        WindowOp::SetDocumentTitle(WindowLabel::Main),
        WindowOp::SetDocumentTitle(WindowLabel::Settings),
        WindowOp::SetDecorations(WindowLabel::Main, false),
    ];
    assert(mac =~= mac_base + devtools_ops(dev_build));
    assert(def =~= def_base + devtools_ops(dev_build));
    assert(mac[4] == WindowOp::SetFloatPanel(WindowLabel::Main, FLOAT_PANEL_LEVEL));
    assert(def[0] == WindowOp::SetAlwaysOnTop(WindowLabel::Main, true));
}

} // verus!
