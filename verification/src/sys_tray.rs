//! The icon in the system tray and its menu.
use vstd::prelude::*;

use crate::text::{holds_text, join, same_text, uppercase};

verus! {

/// A command that the window manager runs.
#[derive(Clone, Copy, Debug, PartialEq, Eq, Structural)]
pub enum InvokeCommand {
    WmTogglePause,
    WmReloadConfig,
    Resize,
    /// Any other command.
    Other,
}

/// An entry of the tray menu.
#[derive(Clone, Copy, Debug, PartialEq, Eq, Structural)]
pub enum TrayMenuId {
    ToggleActive,
    ReloadConfig,
    ShowConfigFolder,
    ToggleWindowAnimations,
    RunOnStartup,
    Exit,
}

/// No entry has the name.
#[derive(Debug, PartialEq, Eq)]
pub struct InvalidMenuEvent {
    pub message: String,
}

/// What is said of an event that belongs to no entry.
pub fn invalid_event_message(event: &str) -> (message: String)
    ensures
        message@ == "Invalid tray menu event: "@ + event@,
{
    let mut message = String::from_str("Invalid tray menu event: ");
    message.append(event);
    message
}

impl TrayMenuId {
    /// The name under which the menu reports the entry.
    pub open spec fn name(self) -> Seq<char> {
        match self {
            TrayMenuId::ToggleActive => "toggle_active"@,
            TrayMenuId::ReloadConfig => "reload_config"@,
            TrayMenuId::ShowConfigFolder => "show_config_folder"@,
            TrayMenuId::ToggleWindowAnimations => "toggle_window_animations"@,
            TrayMenuId::RunOnStartup => "run_on_startup"@,
            TrayMenuId::Exit => "exit"@,
        }
    }

    /// The entry's label.
    pub open spec fn label(self) -> Seq<char> {
        match self {
            TrayMenuId::ToggleActive => "Active"@,
            TrayMenuId::ReloadConfig => "Reload config"@,
            TrayMenuId::ShowConfigFolder => "Show config folder"@,
            TrayMenuId::ToggleWindowAnimations => "Window animations"@,
            TrayMenuId::RunOnStartup => "Run on system startup"@,
            TrayMenuId::Exit => "Exit"@,
        }
    }

    pub fn as_str(&self) -> (name: &'static str)
        ensures
            name@ == self.name(),
    {
        match self {
            TrayMenuId::ToggleActive => "toggle_active",
            TrayMenuId::ReloadConfig => "reload_config",
            TrayMenuId::ShowConfigFolder => "show_config_folder",
            TrayMenuId::ToggleWindowAnimations => "toggle_window_animations",
            TrayMenuId::RunOnStartup => "run_on_startup",
            TrayMenuId::Exit => "exit",
        }
    }

    pub fn label_text(&self) -> (label: &'static str)
        ensures
            label@ == self.label(),
    {
        match self {
            TrayMenuId::ToggleActive => "Active",
            TrayMenuId::ReloadConfig => "Reload config",
            TrayMenuId::ShowConfigFolder => "Show config folder",
            TrayMenuId::ToggleWindowAnimations => "Window animations",
            TrayMenuId::RunOnStartup => "Run on system startup",
            TrayMenuId::Exit => "Exit",
        }
    }

    /// The entry of the name. Case and white space count.
    pub fn from_name(event: &str) -> (id: Result<TrayMenuId, InvalidMenuEvent>)
        ensures
            forall|entry: TrayMenuId| #[trigger]
                entry.name() == event@ <==> id == Ok::<TrayMenuId, InvalidMenuEvent>(entry),
            id matches Err(error) ==> error.message@ == "Invalid tray menu event: "@ + event@,
    {
        let id = if same_text(event, "toggle_active") {
            TrayMenuId::ToggleActive
        } else if same_text(event, "show_config_folder") {
            TrayMenuId::ShowConfigFolder
        } else if same_text(event, "reload_config") {
            TrayMenuId::ReloadConfig
        } else if same_text(event, "toggle_window_animations") {
            TrayMenuId::ToggleWindowAnimations
        } else if same_text(event, "run_on_startup") {
            TrayMenuId::RunOnStartup
        } else if same_text(event, "exit") {
            TrayMenuId::Exit
        } else {
            return Err(InvalidMenuEvent { message: invalid_event_message(event) });
        };
        proof {
            assert forall|entry: TrayMenuId| #[trigger] entry.name() == event@ implies entry
                == id by {
                law_menu_names_are_distinct(entry, id);
            }
        }
        Ok(id)
    }
}

/// No two entries have the same name, so that the name of an entry always leads
/// back to it.
pub proof fn law_menu_names_are_distinct(first: TrayMenuId, second: TrayMenuId)
    requires
        first.name() == second.name(),
    ensures
        first == second,
{
    reveal_strlit("toggle_active");
    reveal_strlit("reload_config");
    reveal_strlit("show_config_folder");
    reveal_strlit("toggle_window_animations");
    reveal_strlit("run_on_startup");
    reveal_strlit("exit");
    assert("toggle_active"@[0] != "reload_config"@[0]);
    assert("toggle_active"@.len() == 13);
    assert("reload_config"@.len() == 13);
    assert("show_config_folder"@.len() == 18);
    assert("toggle_window_animations"@.len() == 24);
    assert("run_on_startup"@.len() == 14);
    assert("exit"@.len() == 4);
}

/// An item of the tray menu.
#[derive(Clone, Copy, Debug, PartialEq, Eq, Structural)]
pub enum MenuEntry {
    Check { id: TrayMenuId, checked: bool },
    Item(TrayMenuId),
    Separator,
}

/// A keybinding: the commands that it runs and the keys of its shortcuts.
pub struct KeybindingConfig {
    pub commands: Vec<InvokeCommand>,
    pub bindings: Vec<Vec<String>>,
}

/// The keys in upper case.
pub open spec fn uppercase_keys(keys: Seq<Seq<char>>) -> Seq<Seq<char>> {
    keys.map_values(|key: Seq<char>| crate::text::uppercased(key))
}

/// A shortcut as it is shown: its keys in upper case, joined by plus signs.
pub open spec fn shortcut_of(keys: Seq<Seq<char>>) -> Seq<char> {
    crate::text::joined(uppercase_keys(keys), "+"@)
}

/// The shortcuts of some bindings.
pub open spec fn shortcuts_of(bindings: Seq<Vec<String>>) -> Seq<Seq<char>> {
    bindings.map_values(|keys: Vec<String>| shortcut_of(crate::text::texts(keys@)))
}

/// The shortcuts of all keybindings that toggle the pause.
pub open spec fn pause_shortcuts(keybindings: Seq<KeybindingConfig>) -> Seq<Seq<char>>
    decreases keybindings.len(),
{
    if keybindings.len() == 0 {
        seq![]
    } else {
        let front = pause_shortcuts(keybindings.drop_last());
        let last = keybindings.last();
        if last.commands@.contains(InvokeCommand::WmTogglePause) {
            front + shortcuts_of(last.bindings@)
        } else {
            front
        }
    }
}

/// The label of the menu entry that shows whether the manager is active.
pub open spec fn active_label_of(shortcuts: Seq<Seq<char>>) -> Seq<char> {
    if shortcuts.len() == 0 {
        "Active"@
    } else {
        "Active\t"@ + crate::text::joined(shortcuts, ", "@)
    }
}

fn shortcut_text(keys: &Vec<String>) -> (text: String)
    ensures
        text@ == shortcut_of(crate::text::texts(keys@)),
{
    let mut upper: Vec<String> = Vec::new();
    let ghost all = crate::text::texts(keys@);
    let mut i: usize = 0;
    while i < keys.len()
        invariant
            i <= keys.len(),
            all == crate::text::texts(keys@),
            crate::text::texts(upper@) =~= uppercase_keys(all.take(i as int)),
        decreases keys.len() - i,
    {
        let key = uppercase(keys[i].as_str());
        assert(all[i as int] == keys@[i as int]@);
        let ghost pushed = crate::text::texts(upper@).push(key@);
        upper.push(key);
        assert(crate::text::texts(upper@) =~= pushed);
        assert(uppercase_keys(all.take(i + 1)) =~= uppercase_keys(all.take(i as int)).push(
            crate::text::uppercased(all[i as int]),
        ));
        i += 1;
    }
    assert(all.take(all.len() as int) =~= all);
    join(&upper, "+")
}

/// Whether a keybinding runs the command.
fn runs_command(commands: &Vec<InvokeCommand>, command: InvokeCommand) -> (runs: bool)
    ensures
        runs == commands@.contains(command),
{
    let mut i: usize = 0;
    while i < commands.len()
        invariant
            i <= commands.len(),
            forall|k: int| 0 <= k < i ==> commands@[k] != command,
        decreases commands.len() - i,
    {
        if commands[i] == command {
            return true;
        }
        i += 1;
    }
    false
}

/// Appends a text, unless the list holds it.
fn add_distinct(list: &mut Vec<String>, text: String)
    ensures
        crate::text::texts(final(list)@) == if crate::text::texts(old(list)@).contains(text@) {
            crate::text::texts(old(list)@)
        } else {
            crate::text::texts(old(list)@).push(text@)
        },
{
    if !holds_text(list, text.as_str()) {
        let ghost pushed = crate::text::texts(list@).push(text@);
        list.push(text);
        assert(crate::text::texts(list@) =~= pushed);
    }
}

/// The label of the menu entry that shows whether the manager is active, given
/// the shortcuts that toggle the pause: each is named once.
pub fn active_label(shortcuts: &Vec<String>) -> (label: String)
    ensures
        label@ == active_label_of(crate::text::distinct(crate::text::texts(shortcuts@))),
{
    let mut unique: Vec<String> = Vec::new();
    let ghost all = crate::text::texts(shortcuts@);
    let mut i: usize = 0;
    assert(crate::text::texts(unique@) =~= crate::text::distinct(all.take(0)));
    while i < shortcuts.len()
        invariant
            i <= shortcuts.len(),
            all == crate::text::texts(shortcuts@),
            crate::text::texts(unique@) == crate::text::distinct(all.take(i as int)),
        decreases shortcuts.len() - i,
    {
        assert(all.take(i + 1).drop_last() =~= all.take(i as int));
        assert(all.take(i + 1).last() == shortcuts@[i as int]@);
        add_distinct(&mut unique, shortcuts[i].clone());
        i += 1;
    }
    assert(all.take(all.len() as int) =~= all);
    if unique.len() == 0 {
        assert(crate::text::texts(unique@).len() == 0);
        return String::from_str("Active");
    }
    assert(crate::text::texts(unique@).len() > 0);
    let mut label = String::from_str("Active\t");
    let list = join(&unique, ", ");
    label.append(list.as_str());
    label
}

/// Appends the shortcuts of some bindings.
fn add_shortcuts(list: &mut Vec<String>, bindings: &Vec<Vec<String>>)
    ensures
        crate::text::texts(final(list)@) == crate::text::texts(old(list)@) + shortcuts_of(
            bindings@,
        ),
{
    let ghost before = crate::text::texts(list@);
    let mut j: usize = 0;
    assert(before + shortcuts_of(bindings@.take(0)) =~= before);
    while j < bindings.len()
        invariant
            j <= bindings.len(),
            crate::text::texts(list@) =~= before + shortcuts_of(bindings@.take(j as int)),
        decreases bindings.len() - j,
    {
        let text = shortcut_text(&bindings[j]);
        let ghost pushed = crate::text::texts(list@).push(text@);
        list.push(text);
        assert(crate::text::texts(list@) =~= pushed);
        j += 1;
    }
    assert(bindings@.take(bindings@.len() as int) =~= bindings@);
}

/// The shortcuts of all keybindings that toggle the pause.
fn shortcuts_that_pause(keybindings: &Vec<KeybindingConfig>) -> (shortcuts: Vec<String>)
    ensures
        crate::text::texts(shortcuts@) == pause_shortcuts(keybindings@),
{
    let mut shortcuts: Vec<String> = Vec::new();
    let mut i: usize = 0;
    assert(keybindings@.take(0) =~= seq![]);
    assert(crate::text::texts(shortcuts@) =~= seq![]);
    while i < keybindings.len()
        invariant
            i <= keybindings.len(),
            crate::text::texts(shortcuts@) == pause_shortcuts(keybindings@.take(i as int)),
        decreases keybindings.len() - i,
    {
        assert(keybindings@.take(i + 1).drop_last() =~= keybindings@.take(i as int));
        if runs_command(&keybindings[i].commands, InvokeCommand::WmTogglePause) {
            add_shortcuts(&mut shortcuts, &keybindings[i].bindings);
        }
        i += 1;
    }
    assert(keybindings@.take(keybindings@.len() as int) =~= keybindings@);
    shortcuts
}

/// What a menu entry does.
#[derive(Clone, Copy, Debug, PartialEq, Eq, Structural)]
pub enum TrayAction {
    Run(InvokeCommand),
    /// Opens the folder that the configuration is in.
    OpenConfigFolder,
    SetWindowAnimations(bool),
    SetRunOnStartup(bool),
    Exit,
}

/// The configuration is in no folder.
#[derive(Clone, Copy, Debug, PartialEq, Eq, Structural)]
pub struct InvalidConfigPath;

/// The tray: what its menu shows and remembers.
pub struct SystemTray {
    /// The window manager is active.
    pub active: bool,
    /// The label of the entry that tells so.
    pub active_label: String,
    pub animations_enabled: bool,
    pub run_on_startup_enabled: bool,
}

impl SystemTray {
    /// What the entry does.
    pub open spec fn action_of(self, id: TrayMenuId) -> TrayAction {
        match id {
            TrayMenuId::ToggleActive => TrayAction::Run(InvokeCommand::WmTogglePause),
            TrayMenuId::ReloadConfig => TrayAction::Run(InvokeCommand::WmReloadConfig),
            TrayMenuId::ShowConfigFolder => TrayAction::OpenConfigFolder,
            TrayMenuId::ToggleWindowAnimations => TrayAction::SetWindowAnimations(
                !self.animations_enabled,
            ),
            TrayMenuId::RunOnStartup => TrayAction::SetRunOnStartup(!self.run_on_startup_enabled),
            TrayMenuId::Exit => TrayAction::Exit,
        }
    }

    /// What is remembered once the action was carried out.
    pub open spec fn after(self, action: TrayAction) -> SystemTray {
        match action {
            TrayAction::SetWindowAnimations(enabled) => SystemTray {
                animations_enabled: enabled,
                ..self
            },
            TrayAction::SetRunOnStartup(enabled) => SystemTray {
                run_on_startup_enabled: enabled,
                ..self
            },
            _ => self,
        }
    }

    /// The tray of a window manager that has just started. A setting that could
    /// not be read counts as disabled.
    pub fn new(animations_enabled: Option<bool>, run_on_startup_enabled: Option<bool>) -> (tray:
        SystemTray)
        ensures
            tray.active,
            tray.active_label@ == "Active"@,
            tray.animations_enabled == (animations_enabled == Some(true)),
            tray.run_on_startup_enabled == (run_on_startup_enabled == Some(true)),
    {
        SystemTray {
            active: true,
            active_label: String::from_str("Active"),
            animations_enabled: matches!(animations_enabled, Some(true)),
            run_on_startup_enabled: matches!(run_on_startup_enabled, Some(true)),
        }
    }

    /// Reflects whether the window manager is paused, however that came about.
    pub fn set_active(&mut self, active: bool)
        ensures
            *final(self) == (SystemTray { active, ..*old(self) }),
    {
        self.active = active;
    }

    /// Shows the currently configured pause shortcuts without registering
    /// additional menu accelerators (the keybinding listener owns them).
    pub fn update_active_shortcuts(&mut self, keybindings: &Vec<KeybindingConfig>)
        ensures
            final(self).active_label@ == active_label_of(
                crate::text::distinct(pause_shortcuts(keybindings@)),
            ),
            *final(self) == (SystemTray { active_label: final(self).active_label, ..*old(self) }),
    {
        self.active_label = active_label(&shortcuts_that_pause(keybindings));
    }

    /// Lays out the menu.
    pub fn create_tray_menu(&self) -> (entries: Vec<MenuEntry>)
        ensures
            entries@ == seq![
                MenuEntry::Check { id: TrayMenuId::ToggleActive, checked: self.active },
                MenuEntry::Separator,
                MenuEntry::Item(TrayMenuId::ReloadConfig),
                MenuEntry::Item(TrayMenuId::ShowConfigFolder),
                MenuEntry::Check {
                    id: TrayMenuId::ToggleWindowAnimations,
                    checked: self.animations_enabled,
                },
                MenuEntry::Check {
                    id: TrayMenuId::RunOnStartup,
                    checked: self.run_on_startup_enabled,
                },
                MenuEntry::Separator,
                MenuEntry::Item(TrayMenuId::Exit),
            ],
    {
        let mut entries: Vec<MenuEntry> = Vec::new();
        entries.push(MenuEntry::Check { id: TrayMenuId::ToggleActive, checked: self.active });
        entries.push(MenuEntry::Separator);
        entries.push(MenuEntry::Item(TrayMenuId::ReloadConfig));
        entries.push(MenuEntry::Item(TrayMenuId::ShowConfigFolder));
        entries.push(
            MenuEntry::Check {
                id: TrayMenuId::ToggleWindowAnimations,
                checked: self.animations_enabled,
            },
        );
        entries.push(
            MenuEntry::Check { id: TrayMenuId::RunOnStartup, checked: self.run_on_startup_enabled },
        );
        entries.push(MenuEntry::Separator);
        entries.push(MenuEntry::Item(TrayMenuId::Exit));
        entries
    }

    /// Decides what a menu entry does. `config_has_folder` tells whether the
    /// path of the configuration has a parent.
    pub fn handle_menu_event(&self, id: TrayMenuId, config_has_folder: bool) -> (action: Result<
        TrayAction,
        InvalidConfigPath,
    >)
        ensures
            action is Err <==> id is ShowConfigFolder && !config_has_folder,
            action matches Ok(action) ==> action == self.action_of(id),
    {
        match id {
            TrayMenuId::ToggleActive => Ok(TrayAction::Run(InvokeCommand::WmTogglePause)),
            TrayMenuId::ShowConfigFolder => if config_has_folder {
                Ok(TrayAction::OpenConfigFolder)
            } else {
                Err(InvalidConfigPath)
            },
            TrayMenuId::ReloadConfig => Ok(TrayAction::Run(InvokeCommand::WmReloadConfig)),
            TrayMenuId::ToggleWindowAnimations => Ok(
                TrayAction::SetWindowAnimations(!self.animations_enabled),
            ),
            TrayMenuId::RunOnStartup => Ok(
                TrayAction::SetRunOnStartup(!self.run_on_startup_enabled),
            ),
            TrayMenuId::Exit => Ok(TrayAction::Exit),
        }
    }

    /// Takes note that an action was carried out or failed. A setting that could
    /// not be changed is remembered as it was.
    pub fn carried_out(&mut self, action: TrayAction, succeeded: bool)
        ensures
            *final(self) == if succeeded {
                old(self).after(action)
            } else {
                *old(self)
            },
    {
        if !succeeded {
            return;
        }
        match action {
            TrayAction::SetWindowAnimations(enabled) => {
                self.animations_enabled = enabled;
            },
            TrayAction::SetRunOnStartup(enabled) => {
                self.run_on_startup_enabled = enabled;
            },
            _ => {},
        }
    }
}

/// Choosing an entry twice leaves the settings as they were.
pub proof fn law_choosing_twice_changes_nothing(tray: SystemTray, id: TrayMenuId)
    ensures
        ({
            let once = tray.after(tray.action_of(id));
            once.after(once.action_of(id)) == tray
        }),
{
}

/// The error of the image decoder.
#[verifier::external_type_specification]
#[verifier::external_body]
pub struct ExImageError(image::ImageError);

/// The pixels of an image in the format PNG, four bytes each, with the image's
/// width and height; nothing if the bytes hold no such image.
pub uninterp spec fn decoded_image(bytes: Seq<u8>) -> Option<(Seq<u8>, u32, u32)>;

/// `image::load_from_memory_with_format` for the format PNG, followed by
/// `DynamicImage::into_rgba8`: the image that the bytes encode, as raw pixels
/// with a byte each for red, green, blue and opacity. It depends on the bytes
/// alone: with the format given, none is guessed, and no decoder is used but
/// the built-in one. Which pixels they are, and which bytes hold an image, is
/// not said.
#[verifier::external_body]
fn decode_rgba(bytes: &[u8]) -> (image: Result<(Vec<u8>, u32, u32), image::ImageError>)
    ensures
        match image {
            Ok(image) => decoded_image(bytes@) == Some((image.0@, image.1, image.2)),
            Err(_) => decoded_image(bytes@) is None,
        },
{
    let image =
        image::load_from_memory_with_format(bytes, image::ImageFormat::Png)?.into_rgba8();
    let (width, height) = image.dimensions();
    Ok((image.into_raw(), width, height))
}

/// An icon of the tray.
#[verifier::external_type_specification]
#[verifier::external_body]
pub struct ExIcon(tray_icon::Icon);

/// The error of making an icon.
#[verifier::external_type_specification]
#[verifier::external_body]
pub struct ExBadIcon(tray_icon::BadIcon);

/// The pixels of an icon, four bytes each.
pub struct IconImage {
    pub rgba: Vec<u8>,
    pub width: u32,
    pub height: u32,
}

/// Why there is no icon.
#[derive(Clone, Copy, Debug, PartialEq, Eq, Structural)]
pub enum InvalidIcon {
    /// The bytes hold no image.
    NotAnImage,
    /// The image makes no icon.
    BadIcon,
}

/// An icon, with the picture that it was made of.
pub struct PictureIcon {
    icon: tray_icon::Icon,
    picture: Ghost<(Seq<u8>, u32, u32)>,
}

impl PictureIcon {
    /// The pixels that the icon was made of, with their width and height.
    pub closed spec fn picture(self) -> (Seq<u8>, u32, u32) {
        self.picture@
    }

    pub closed spec fn icon(self) -> tray_icon::Icon {
        self.icon
    }

    /// Hands out the icon.
    pub fn into_icon(self) -> (icon: tray_icon::Icon)
        ensures
            icon == self.icon(),
    {
        self.icon
    }
}

/// `tray_icon::Icon::from_rgba` of the given pixels, width and height: an icon
/// is made of exactly these, and only if there are four bytes for every pixel.
/// That it is made then is not said, since the system may fail to. The number
/// of pixels is computed with 32 bits.
#[verifier::external_body]
fn icon_from_rgba(input: (Vec<u8>, u32, u32)) -> (icon: Result<PictureIcon, tray_icon::BadIcon>)
    requires
        input.1 * input.2 <= u32::MAX,
    ensures
        icon matches Ok(icon) ==> icon.picture() == (input.0@, input.1, input.2),
        icon is Ok ==> input.0@.len() == 4 * (input.1 * input.2),
{
    let picture = Ghost((input.0@, input.1, input.2));
    let icon = tray_icon::Icon::from_rgba(input.0, input.1, input.2)?;
    Ok(PictureIcon { icon, picture })
}

/// Decodes an image.
pub fn decode_icon(bytes: &[u8]) -> (image: Result<IconImage, InvalidIcon>)
    ensures
        match image {
            Ok(image) => decoded_image(bytes@) == Some((image.rgba@, image.width, image.height)),
            Err(error) => error is NotAnImage && decoded_image(bytes@) is None,
        },
{
    match decode_rgba(bytes) {
        Ok((rgba, width, height)) => Ok(IconImage { rgba, width, height }),
        Err(_) => Err(InvalidIcon::NotAnImage),
    }
}

/// What an icon is made of: the pixels of an image with its width and height.
/// An image of more pixels than can be counted with 32 bits makes none.
pub fn icon_input(image: IconImage) -> (input: Result<(Vec<u8>, u32, u32), InvalidIcon>)
    ensures
        input == if image.width * image.height > u32::MAX {
            Err::<(Vec<u8>, u32, u32), InvalidIcon>(InvalidIcon::BadIcon)
        } else {
            Ok((image.rgba, image.width, image.height))
        },
{
    if image.width.checked_mul(image.height).is_none() {
        return Err(InvalidIcon::BadIcon);
    }
    Ok((image.rgba, image.width, image.height))
}

/// Makes an icon of an image. An image whose pixels do not match its size, or
/// cannot be counted with 32 bits, makes none.
pub fn make_icon(image: IconImage) -> (icon: Result<PictureIcon, InvalidIcon>)
    ensures
        icon matches Ok(icon) ==> icon.picture() == (image.rgba@, image.width, image.height),
        image.width * image.height > u32::MAX ==> icon is Err,
        icon is Ok ==> image.rgba@.len() == 4 * (image.width * image.height),
        icon matches Err(error) ==> error is BadIcon,
{
    match icon_input(image) {
        Ok(input) => match icon_from_rgba(input) {
            Ok(icon) => Ok(icon),
            Err(_) => Err(InvalidIcon::BadIcon),
        },
        Err(error) => Err(error),
    }
}

/// Loads the tray icon.
pub fn load_icon(bytes: &[u8]) -> (icon: Result<PictureIcon, InvalidIcon>)
    ensures
        icon matches Ok(icon) ==> Some(icon.picture()) == decoded_image(bytes@),
        decoded_image(bytes@) is None <==> icon == Err::<PictureIcon, InvalidIcon>(
            InvalidIcon::NotAnImage,
        ),
        decoded_image(bytes@) matches Some((rgba, width, height)) ==> {
            &&& width * height > u32::MAX ==> icon is Err
            &&& icon is Ok ==> rgba.len() == 4 * (width * height)
        },
{
    match decode_icon(bytes) {
        Ok(image) => make_icon(image),
        Err(error) => Err(error),
    }
}

/// Every entry does its own thing: the settings are turned to what they are not,
/// the pause and the configuration are left to the window manager.
pub proof fn law_entries_do_what_they_say(tray: SystemTray, id: TrayMenuId, enabled: bool)
    ensures
        ({
            let action = tray.action_of(id);
            &&& action == TrayAction::Run(InvokeCommand::WmTogglePause) <==> id is ToggleActive
            &&& action == TrayAction::Run(InvokeCommand::WmReloadConfig) <==> id is ReloadConfig
            &&& action is OpenConfigFolder <==> id is ShowConfigFolder
            &&& action is Exit <==> id is Exit
            &&& action == TrayAction::SetWindowAnimations(enabled) <==> id
                is ToggleWindowAnimations && enabled != tray.animations_enabled
            &&& action == TrayAction::SetRunOnStartup(enabled) <==> id is RunOnStartup && enabled
                != tray.run_on_startup_enabled
        }),
{
}

/// A setting that was changed is remembered as it was set; all else stays.
pub proof fn law_changed_settings_are_remembered(tray: SystemTray, action: TrayAction)
    ensures
        ({
            let after = tray.after(action);
            &&& after.active == tray.active
            &&& after.active_label == tray.active_label
            &&& after.animations_enabled == if action is SetWindowAnimations {
                action->SetWindowAnimations_0
            } else {
                tray.animations_enabled
            }
            &&& after.run_on_startup_enabled == if action is SetRunOnStartup {
                action->SetRunOnStartup_0
            } else {
                tray.run_on_startup_enabled
            }
        }),
{
}

/// One of the bindings is shown as the text.
pub open spec fn binds(bindings: Seq<Vec<String>>, text: Seq<char>) -> bool {
    exists|j: int|
        0 <= j < bindings.len() && shortcut_of(crate::text::texts((#[trigger] bindings[j])@))
            == text
}

/// The shortcuts that are shown are exactly those of keybindings that toggle the
/// pause, whatever else they do.
pub proof fn law_pause_shortcuts_toggle_the_pause(
    keybindings: Seq<KeybindingConfig>,
    text: Seq<char>,
)
    ensures
        pause_shortcuts(keybindings).contains(text) <==> exists|i: int|
            0 <= i < keybindings.len() && (#[trigger] keybindings[i]).commands@.contains(
                InvokeCommand::WmTogglePause,
            ) && binds(keybindings[i].bindings@, text),
    decreases keybindings.len(),
{
    if keybindings.len() > 0 {
        let front = keybindings.drop_last();
        let last = keybindings.last();
        let before = pause_shortcuts(front);
        let all = pause_shortcuts(keybindings);
        let added = shortcuts_of(last.bindings@);
        law_pause_shortcuts_toggle_the_pause(front, text);
        assert(added.contains(text) <==> binds(last.bindings@, text)) by {
            if added.contains(text) {
                let j = choose|j: int| 0 <= j < added.len() && added[j] == text;
                assert(shortcut_of(crate::text::texts(last.bindings@[j]@)) == text);
            }
            if binds(last.bindings@, text) {
                let j = choose|j: int|
                    0 <= j < last.bindings@.len() && shortcut_of(
                        crate::text::texts((#[trigger] last.bindings@[j])@),
                    ) == text;
                assert(added[j] == text);
            }
        }
        if all.contains(text) {
            let m = choose|m: int| 0 <= m < all.len() && all[m] == text;
            if m < before.len() {
                assert(before[m] == text);
                let i = choose|i: int|
                    0 <= i < front.len() && (#[trigger] front[i]).commands@.contains(
                        InvokeCommand::WmTogglePause,
                    ) && binds(front[i].bindings@, text);
                assert(keybindings[i] == front[i]);
            } else {
                assert(added[m - before.len()] == text);
                assert(keybindings[keybindings.len() - 1] == last);
            }
        }
        if exists|i: int|
            0 <= i < keybindings.len() && (#[trigger] keybindings[i]).commands@.contains(
                InvokeCommand::WmTogglePause,
            ) && binds(keybindings[i].bindings@, text) {
            let i = choose|i: int|
                0 <= i < keybindings.len() && (#[trigger] keybindings[i]).commands@.contains(
                    InvokeCommand::WmTogglePause,
                ) && binds(keybindings[i].bindings@, text);
            if i < front.len() {
                assert(front[i] == keybindings[i]);
                let m = choose|m: int| 0 <= m < before.len() && before[m] == text;
                assert(all[m] == text);
            } else {
                let m = choose|m: int| 0 <= m < added.len() && added[m] == text;
                assert(all[before.len() + m] == text);
            }
        }
    }
}

/// A shortcut of one key shows the key in upper case. One of several keys shows
/// them one by one, with a plus sign between them.
pub proof fn law_shortcuts_show_their_keys(keys: Seq<Seq<char>>, key: Seq<char>)
    ensures
        shortcut_of(seq![key]) == crate::text::uppercased(key),
        keys.len() > 0 ==> shortcut_of(keys.push(key)) == shortcut_of(keys) + seq!['+']
            + crate::text::uppercased(key),
{
    reveal_strlit("+");
    assert("+"@ =~= seq!['+']);
    assert(uppercase_keys(seq![key]) =~= seq![crate::text::uppercased(key)]);
    assert(uppercase_keys(keys.push(key)).drop_last() =~= uppercase_keys(keys));
}

/// The label names the shortcuts behind a tab, separated by commas, in order;
/// without shortcuts it stands alone.
pub proof fn law_labels_name_their_shortcuts(shortcuts: Seq<Seq<char>>, text: Seq<char>)
    ensures
        active_label_of(seq![]) == "Active"@,
        active_label_of(seq![text]) == "Active"@ + seq!['\t'] + text,
        shortcuts.len() > 0 ==> active_label_of(shortcuts.push(text)) == active_label_of(shortcuts)
            + seq![',', ' '] + text,
{
    reveal_strlit("Active");
    reveal_strlit("Active\t");
    reveal_strlit(", ");
    assert("Active\t"@ =~= "Active"@ + seq!['\t']);
    assert(", "@ =~= seq![',', ' ']);
    assert(shortcuts.push(text).drop_last() =~= shortcuts);
    assert(shortcuts.len() > 0 ==> active_label_of(shortcuts.push(text)) =~= active_label_of(
        shortcuts,
    ) + seq![',', ' '] + text);
}

/// The shortcuts are shown in the order of the keybindings: those of a further
/// one come after all others, each binding once.
pub proof fn law_shortcuts_follow_the_keybindings(
    keybindings: Seq<KeybindingConfig>,
    next: KeybindingConfig,
    j: int,
)
    requires
        0 <= j < next.bindings@.len(),
    ensures
        ({
            let before = pause_shortcuts(keybindings);
            let after = pause_shortcuts(keybindings.push(next));
            let n = before.len() as int;
            &&& before.is_prefix_of(after)
            &&& next.commands@.contains(InvokeCommand::WmTogglePause) ==> after.len() == n
                + next.bindings@.len() && after[n + j] == shortcut_of(
                crate::text::texts(next.bindings@[j]@),
            )
            &&& !next.commands@.contains(InvokeCommand::WmTogglePause) ==> after.len() == n
        }),
{
    assert(keybindings.push(next).drop_last() =~= keybindings);
}

/// Every entry is reported under its own name.
pub proof fn law_entries_go_by_their_names(id: TrayMenuId)
    ensures
        id.name() == "toggle_active"@ <==> id is ToggleActive,
        id.name() == "reload_config"@ <==> id is ReloadConfig,
        id.name() == "show_config_folder"@ <==> id is ShowConfigFolder,
        id.name() == "toggle_window_animations"@ <==> id is ToggleWindowAnimations,
        id.name() == "run_on_startup"@ <==> id is RunOnStartup,
        id.name() == "exit"@ <==> id is Exit,
{
    assert(TrayMenuId::ToggleActive.name() == "toggle_active"@);
    assert(TrayMenuId::ReloadConfig.name() == "reload_config"@);
    assert(TrayMenuId::ShowConfigFolder.name() == "show_config_folder"@);
    assert(TrayMenuId::ToggleWindowAnimations.name() == "toggle_window_animations"@);
    assert(TrayMenuId::RunOnStartup.name() == "run_on_startup"@);
    assert(TrayMenuId::Exit.name() == "exit"@);
    assert forall|other: TrayMenuId| id.name() == #[trigger] other.name() implies id == other by {
        law_menu_names_are_distinct(id, other);
    }
}

} // verus!
