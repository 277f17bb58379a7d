//! Shared admission and focus policy for native auxiliary windows.
use vstd::prelude::*;

use crate::text::{equals_ignoring_ascii_case, same_text};

verus! {

/// What a native window says of itself. Names that could not be read are
/// missing.
pub struct NativeWindow {
    pub process_name: Option<String>,
    pub class_name: Option<String>,
    pub title: Option<String>,
    /// The window has an owner.
    pub owned: bool,
    /// The window has the child style.
    pub child: bool,
    /// The window has the extended tool style.
    pub tool: bool,
    /// The window has the extended style of windows that do not take focus.
    pub no_activate: bool,
}

/// The name was read and is equal to the text.
pub open spec fn named(name: Option<String>, text: Seq<char>) -> bool {
    name matches Some(name) && name@ == text
}

/// The title of the shell's run dialog.
pub open spec fn run_dialog_title(title: Seq<char>) -> bool {
    crate::text::same_letters(title, "Run"@) || title == "Выполнить"@
}

/// The name of a process whose windows are left alone.
pub open spec fn system_process(name: Seq<char>) -> bool {
    ||| crate::text::same_letters(name, "Taskmgr"@)
    ||| crate::text::same_letters(name, "regedit"@)
    ||| crate::text::same_letters(name, "SnippingTool"@)
    ||| crate::text::same_letters(name, "ScreenClippingHost"@)
    ||| crate::text::same_letters(name, "ScreenSketch"@)
}

/// The window belongs to a system utility that is left alone: to one of the
/// named processes, or the shell's run dialog.
pub open spec fn system_window(window: NativeWindow) -> bool {
    window.process_name matches Some(process) && {
        ||| system_process(process@)
        ||| {
            &&& crate::text::same_letters(process@, "explorer"@)
            &&& named(window.class_name, "#32770"@)
            &&& window.title matches Some(title) && run_dialog_title(title@)
        }
    }
}

/// System utilities that must remain outside WM layout and focus management.
pub fn is_unmanaged_system_window(window: &NativeWindow) -> (unmanaged: bool)
    ensures
        unmanaged == system_window(*window),
{
    let process = match &window.process_name {
        Some(process) => process.as_str(),
        None => return false,
    };
    if is_unmanaged_system_process(process) {
        return true;
    }
    if !equals_ignoring_ascii_case(process, "explorer") || !is_named(
        &window.class_name,
        "#32770",
    ) {
        return false;
    }
    match &window.title {
        Some(title) => is_run_dialog_title(title.as_str()),
        None => false,
    }
}

fn is_named(name: &Option<String>, text: &str) -> (same: bool)
    ensures
        same == named(*name, text@),
{
    match name {
        Some(name) => same_text(name.as_str(), text),
        None => false,
    }
}

/// Run is an Explorer-owned dialog, not a separate executable. Explorer itself
/// and its unrelated property and file dialogs are not excluded.
pub fn is_run_dialog_title(title: &str) -> (run: bool)
    ensures
        run == run_dialog_title(title@),
{
    equals_ignoring_ascii_case(title, "Run") || same_text(title, "Выполнить")
}

/// The editor is excluded as well as the capture and recording overlays, before
/// any cloak, layout insertion, animation or focus correction occurs.
pub fn is_unmanaged_system_process(name: &str) -> (unmanaged: bool)
    ensures
        unmanaged == system_process(name@),
{
    equals_ignoring_ascii_case(name, "Taskmgr") || equals_ignoring_ascii_case(name, "regedit")
        || equals_ignoring_ascii_case(name, "SnippingTool") || equals_ignoring_ascii_case(
        name,
        "ScreenClippingHost",
    ) || equals_ignoring_ascii_case(name, "ScreenSketch")
}

/// The window of the launcher that is managed although it is auxiliary.
pub open spec fn flow_launcher(window: NativeWindow) -> bool {
    named(window.process_name, "Flow.Launcher"@) && named(window.title, "Flow.Launcher"@)
}

/// Why a window is not managed, judging by its native relations: children come
/// first, then owned, tool and non-activating windows.
pub open spec fn auxiliary_reason(
    owned: bool,
    child: bool,
    tool: bool,
    no_activate: bool,
    flow_launcher: bool,
) -> Option<Seq<char>> {
    if flow_launcher {
        None
    } else if child {
        Some("child window"@)
    } else if owned {
        Some("owned auxiliary window"@)
    } else if tool {
        Some("tool window"@)
    } else if no_activate {
        Some("non-activating window"@)
    } else {
        None
    }
}

/// The text of an optional reason.
pub open spec fn text_of(reason: Option<&'static str>) -> Option<Seq<char>> {
    match reason {
        Some(reason) => Some(reason@),
        None => None,
    }
}

/// Why a window is not managed.
pub open spec fn reason_for(window: NativeWindow) -> Option<Seq<char>> {
    if system_window(window) {
        Some("system utility"@)
    } else {
        auxiliary_reason(
            window.owned,
            window.child,
            window.tool,
            window.no_activate,
            flow_launcher(window),
        )
    }
}

/// Re-evaluated on every admission/focus event, not cached by handle. A splash
/// may become a main window, and handles can be recycled.
pub fn unmanaged_window_reason(window: &NativeWindow) -> (reason: Option<&'static str>)
    ensures
        text_of(reason) == reason_for(*window),
{
    if is_unmanaged_system_window(window) {
        return Some("system utility");
    }
    let launcher = (window.owned || window.child || window.tool || window.no_activate) && is_named(
        &window.process_name,
        "Flow.Launcher",
    ) && is_named(&window.title, "Flow.Launcher");
    classify(window.owned, window.child, window.tool, window.no_activate, launcher)
}

/// Classifies a window by its native relations. Title, process, resizability and
/// the application style are deliberately not looked at: none establishes an
/// owner relationship.
pub fn classify(
    owned: bool,
    child: bool,
    tool: bool,
    no_activate: bool,
    flow_launcher: bool,
) -> (reason: Option<&'static str>)
    ensures
        text_of(reason) == auxiliary_reason(owned, child, tool, no_activate, flow_launcher),
{
    if flow_launcher {
        return None;
    }
    if child {
        return Some("child window");
    }
    if owned {
        return Some("owned auxiliary window");
    }
    if tool {
        return Some("tool window");
    }
    if no_activate {
        return Some("non-activating window");
    }
    None
}

/// A window without an owner, that is no child, tool or non-activating window
/// and belongs to no system utility, is always managed, whatever its names.
pub proof fn law_independent_windows_are_managed(window: NativeWindow)
    requires
        !window.owned,
        !window.child,
        !window.tool,
        !window.no_activate,
        !system_window(window),
    ensures
        reason_for(window) is None,
{
}

/// Whether a process is excluded does not depend on the case of its name.
pub proof fn law_system_processes_ignore_case(name: Seq<char>, other: Seq<char>)
    requires
        crate::text::same_letters(name, other),
    ensures
        system_process(name) == system_process(other),
{
    assert forall|text: Seq<char>|
        crate::text::same_letters(name, text) == #[trigger] crate::text::same_letters(
            other,
            text,
        ) by {
        if name.len() == text.len() {
            assert forall|i: int| 0 <= i < name.len() implies crate::text::same_letter(
                name[i],
                text[i],
            ) == crate::text::same_letter(other[i], text[i]) by {
                assert(crate::text::same_letter(name[i], other[i]));
                lemma_letters(name[i], other[i], text[i]);
            }
            if crate::text::same_letters(name, text) {
                assert forall|i: int| 0 <= i < other.len() implies crate::text::same_letter(
                    #[trigger] other[i],
                    text[i],
                ) by {
                    assert(crate::text::same_letter(name[i], text[i]));
                }
            }
            if crate::text::same_letters(other, text) {
                assert forall|i: int| 0 <= i < name.len() implies crate::text::same_letter(
                    #[trigger] name[i],
                    text[i],
                ) by {
                    assert(crate::text::same_letter(other[i], text[i]));
                }
            }
        }
    }
}

/// Equality up to case is an equivalence.
proof fn lemma_letters(a: char, b: char, c: char)
    requires
        crate::text::same_letter(a, b),
    ensures
        crate::text::same_letter(a, c) == crate::text::same_letter(b, c),
{
}

/// A window of no system utility is left alone exactly if it is a child, has an
/// owner, is a tool window or does not take focus, and is not the launcher. The
/// reason that is given is the first of these that holds.
pub proof fn law_auxiliary_windows_are_left_alone(window: NativeWindow)
    requires
        !system_window(window),
    ensures
        ({
            let launcher = window.process_name is Some && window.process_name->0@
                == "Flow.Launcher"@ && window.title is Some && window.title->0@
                == "Flow.Launcher"@;
            &&& reason_for(window) is None <==> launcher || !(window.child || window.owned
                || window.tool || window.no_activate)
            &&& !launcher && window.child ==> reason_for(window) == Some("child window"@)
            &&& !launcher && window.owned && !window.child ==> reason_for(window) == Some(
                "owned auxiliary window"@,
            )
            &&& !launcher && window.tool && !window.child && !window.owned ==> reason_for(window)
                == Some("tool window"@)
            &&& !launcher && window.no_activate && !window.child && !window.owned && !window.tool
                ==> reason_for(window) == Some("non-activating window"@)
        }),
{
}

/// System utilities come before everything else: not even the launcher's names
/// save such a window, and its native relations do not matter.
pub proof fn law_system_utilities_come_first(window: NativeWindow, other: NativeWindow)
    requires
        system_window(window),
        other.process_name == window.process_name,
        other.class_name == window.class_name,
        other.title == window.title,
    ensures
        reason_for(window) == Some("system utility"@),
        reason_for(other) == Some("system utility"@),
{
}

/// Windows of the file explorer are left alone only if they are the run dialog:
/// a native dialog that is named so.
pub proof fn law_only_the_run_dialog_of_the_explorer_is_left_alone(window: NativeWindow)
    requires
        window.process_name is Some,
        !system_process(window.process_name->0@),
    ensures
        system_window(window) <==> {
            &&& crate::text::same_letters(window.process_name->0@, "explorer"@)
            &&& window.class_name is Some
            &&& window.class_name->0@ == "#32770"@
            &&& window.title is Some
            &&& crate::text::same_letters(window.title->0@, "Run"@) || window.title->0@
                == "Выполнить"@
        },
{
}

/// A window whose process is unknown belongs to no system utility.
pub proof fn law_unknown_processes_are_no_utilities(window: NativeWindow)
    requires
        window.process_name is None,
    ensures
        !system_window(window),
{
}

} // verus!
