//! The tray's event-loop decisions: applying a settings file that changed
//! on disk field by field, deferring a learning reload that may be the
//! tray's own save, and what a menu click or a hotkey asks for. The host
//! performs what these functions return.

use crate::text::{str_eq, string_of};
use vstd::prelude::*;

verus! {

/// The settings the tray acts on.
#[derive(Debug)]
pub struct SettingsView {
    pub input_method: String,
    pub auto_correct: bool,
    pub backspace_mode: String,
    pub learning_enabled: bool,
    pub shorthand: bool,
    pub strict_spelling: bool,
    pub startup: bool,
}

/// The mathematical content of a [`SettingsView`].
pub struct SettingsModel {
    pub input_method: Seq<char>,
    pub auto_correct: bool,
    pub backspace_mode: Seq<char>,
    pub learning_enabled: bool,
    pub shorthand: bool,
    pub strict_spelling: bool,
    pub startup: bool,
}

impl View for SettingsView {
    type V = SettingsModel;

    open spec fn view(&self) -> SettingsModel {
        SettingsModel {
            input_method: self.input_method@,
            auto_correct: self.auto_correct,
            backspace_mode: self.backspace_mode@,
            learning_enabled: self.learning_enabled,
            shorthand: self.shorthand,
            strict_spelling: self.strict_spelling,
            startup: self.startup,
        }
    }
}

/// One field of the settings that changed on disk, with its new value.
#[derive(Debug, PartialEq, Eq)]
pub enum SettingsChange {
    /// No runtime effect, but the in-memory copy must take it before any
    /// other setter re-saves the whole file.
    AutoCorrect(bool),
    InputMethod(String),
    BackspaceMode(String),
    LearningEnabled(bool),
    Shorthand(bool),
    StrictSpelling(bool),
    Startup(bool),
}

pub enum SettingsChangeView {
    AutoCorrect(bool),
    InputMethod(Seq<char>),
    BackspaceMode(Seq<char>),
    LearningEnabled(bool),
    Shorthand(bool),
    StrictSpelling(bool),
    Startup(bool),
}

impl View for SettingsChange {
    type V = SettingsChangeView;

    open spec fn view(&self) -> SettingsChangeView {
        match self {
            SettingsChange::AutoCorrect(b) => SettingsChangeView::AutoCorrect(*b),
            SettingsChange::InputMethod(m) => SettingsChangeView::InputMethod(m@),
            SettingsChange::BackspaceMode(m) => SettingsChangeView::BackspaceMode(m@),
            SettingsChange::LearningEnabled(b) => SettingsChangeView::LearningEnabled(*b),
            SettingsChange::Shorthand(b) => SettingsChangeView::Shorthand(*b),
            SettingsChange::StrictSpelling(b) => SettingsChangeView::StrictSpelling(*b),
            SettingsChange::Startup(b) => SettingsChangeView::Startup(*b),
        }
    }
}

pub open spec fn changes_view(v: Seq<SettingsChange>) -> Seq<SettingsChangeView> {
    v.map_values(|c: SettingsChange| c@)
}

/// `[x]` when `changed`, else nothing.
pub open spec fn when(changed: bool, x: SettingsChangeView) -> Seq<SettingsChangeView> {
    if changed {
        seq![x]
    } else {
        Seq::empty()
    }
}

/// The fields of `new` that differ from `known`, in the order they are
/// applied: auto-correct first, then method, backspace mode, learning,
/// shorthand, strict spelling and start-up.
pub open spec fn changes_of(known: SettingsModel, new: SettingsModel) -> Seq<SettingsChangeView> {
    when(new.auto_correct != known.auto_correct, SettingsChangeView::AutoCorrect(new.auto_correct))
        + when(
        new.input_method != known.input_method,
        SettingsChangeView::InputMethod(new.input_method),
    ) + when(
        new.backspace_mode != known.backspace_mode,
        SettingsChangeView::BackspaceMode(new.backspace_mode),
    ) + when(
        new.learning_enabled != known.learning_enabled,
        SettingsChangeView::LearningEnabled(new.learning_enabled),
    ) + when(new.shorthand != known.shorthand, SettingsChangeView::Shorthand(new.shorthand))
        + when(
        new.strict_spelling != known.strict_spelling,
        SettingsChangeView::StrictSpelling(new.strict_spelling),
    ) + when(new.startup != known.startup, SettingsChangeView::Startup(new.startup))
}

fn push_if(out: &mut Vec<SettingsChange>, changed: bool, x: SettingsChange)
    ensures
        changes_view(final(out)@) == changes_view(old(out)@) + when(changed, x@),
{
    let ghost before = changes_view(out@);
    if changed {
        out.push(x);
        assert(changes_view(out@) =~= before + when(changed, x@));
    } else {
        assert(changes_view(out@) =~= before + when(changed, x@));
    }
}

/// The settings file changed on disk: what to apply, compared with what
/// the tray itself last wrote (`known`). Nothing when they agree.
pub fn settings_changes(known: &SettingsView, new: &SettingsView) -> (r: Vec<SettingsChange>)
    ensures
        changes_view(r@) == changes_of(known@, new@),
{
    let mut out: Vec<SettingsChange> = Vec::new();
    assert(changes_view(out@) =~= Seq::<SettingsChangeView>::empty());
    push_if(
        &mut out,
        new.auto_correct != known.auto_correct,
        SettingsChange::AutoCorrect(new.auto_correct),
    );
    push_if(
        &mut out,
        !str_eq(new.input_method.as_str(), known.input_method.as_str()),
        SettingsChange::InputMethod(string_of(new.input_method.as_str())),
    );
    push_if(
        &mut out,
        !str_eq(new.backspace_mode.as_str(), known.backspace_mode.as_str()),
        SettingsChange::BackspaceMode(string_of(new.backspace_mode.as_str())),
    );
    push_if(
        &mut out,
        new.learning_enabled != known.learning_enabled,
        SettingsChange::LearningEnabled(new.learning_enabled),
    );
    push_if(&mut out, new.shorthand != known.shorthand, SettingsChange::Shorthand(new.shorthand));
    push_if(
        &mut out,
        new.strict_spelling != known.strict_spelling,
        SettingsChange::StrictSpelling(new.strict_spelling),
    );
    push_if(&mut out, new.startup != known.startup, SettingsChange::Startup(new.startup));
    assert(changes_view(out@) =~= changes_of(known@, new@));
    out
}

/// Settings that agree with what the tray knows change nothing.
pub proof fn lemma_same_settings_change_nothing(s: SettingsModel)
    ensures
        changes_of(s, s).len() == 0,
{
}

/// How long after the tray's own save of the learning file a change event
/// is taken to be that save landing (milliseconds).
pub const OWN_SAVE_WINDOW_MS: u64 = 2000;

/// One turn of the loop for the learning file: `pending` carries an event
/// not yet acted on, `event` says the watcher reported one now. The reload
/// happens while learning is on and the tray's own last save is more than
/// two seconds old; otherwise the event waits (never dropped), so an
/// external edit racing an autosave still applies once the window clears.
/// The result is (reload now, still pending).
pub open spec fn learning_step(pending: bool, event: bool, enabled: bool, ms_since_own_save: u64) -> (
    bool,
    bool,
) {
    let p = pending || event;
    let go = p && enabled && ms_since_own_save > OWN_SAVE_WINDOW_MS;
    (go, p && !go)
}

pub fn learning_reload_step(pending: bool, event: bool, enabled: bool, ms_since_own_save: u64) -> (r:
    (bool, bool))
    ensures
        r == learning_step(pending, event, enabled, ms_since_own_save),
{
    let p = pending || event;
    if p && enabled && ms_since_own_save > OWN_SAVE_WINDOW_MS {
        (true, false)
    } else {
        (false, p)
    }
}

/// A reported change is never lost: it is either reloaded now or still
/// pending. Nothing reloads while learning is off or within the window of
/// the tray's own save, and nothing reloads without a change.
pub proof fn lemma_learning_event_kept_until_reload(
    pending: bool,
    event: bool,
    enabled: bool,
    ms: u64,
)
    ensures
        (pending || event) ==> learning_step(pending, event, enabled, ms).0 || learning_step(
            pending,
            event,
            enabled,
            ms,
        ).1,
        (!enabled || ms <= OWN_SAVE_WINDOW_MS || !(pending || event)) ==> !learning_step(
            pending,
            event,
            enabled,
            ms,
        ).0,
{
}

/// A tray menu entry.
#[derive(Clone, Copy, Debug, PartialEq, Eq)]
pub enum MenuEntry {
    Quit,
    English,
    Telex,
    Vni,
    Nom,
    Config,
    /// The custom method row at this position.
    Custom(usize),
}

/// A global hotkey.
#[derive(Clone, Copy, Debug, PartialEq, Eq)]
pub enum HotkeyAction {
    /// Vietnamese on/off.
    Toggle,
    Telex,
    Vni,
    Nom,
    /// The custom method with this shortcut position.
    Custom(usize),
    /// Flip the last word between Vietnamese and the raw keys.
    ToggleLastWord,
}

/// What the tray does.
#[derive(Debug, PartialEq, Eq)]
pub enum TrayCommand {
    Exit,
    SetMethod(String),
    ToggleEnabled,
    /// Start the configuration window as a separate process.
    OpenConfig,
    ToggleLastWord,
    Nothing,
}

pub enum TrayCommandView {
    Exit,
    SetMethod(Seq<char>),
    ToggleEnabled,
    OpenConfig,
    ToggleLastWord,
    Nothing,
}

impl View for TrayCommand {
    type V = TrayCommandView;

    open spec fn view(&self) -> TrayCommandView {
        match self {
            TrayCommand::Exit => TrayCommandView::Exit,
            TrayCommand::SetMethod(m) => TrayCommandView::SetMethod(m@),
            TrayCommand::ToggleEnabled => TrayCommandView::ToggleEnabled,
            TrayCommand::OpenConfig => TrayCommandView::OpenConfig,
            TrayCommand::ToggleLastWord => TrayCommandView::ToggleLastWord,
            TrayCommand::Nothing => TrayCommandView::Nothing,
        }
    }
}

pub open spec fn ids_view(v: Seq<String>) -> Seq<Seq<char>> {
    v.map_values(|s: String| s@)
}

/// The method a custom row or shortcut at `index` selects, if there is one.
pub open spec fn custom_command(custom_ids: Seq<Seq<char>>, index: nat) -> TrayCommandView {
    if index < custom_ids.len() {
        TrayCommandView::SetMethod(custom_ids[index as int])
    } else {
        TrayCommandView::Nothing
    }
}

fn custom_at(custom_ids: &Vec<String>, index: usize) -> (r: TrayCommand)
    ensures
        r@ == custom_command(ids_view(custom_ids@), index as nat),
{
    if index < custom_ids.len() {
        TrayCommand::SetMethod(string_of(custom_ids[index].as_str()))
    } else {
        TrayCommand::Nothing
    }
}

pub open spec fn menu_command_of(entry: MenuEntry, custom_ids: Seq<Seq<char>>) -> TrayCommandView {
    match entry {
        MenuEntry::Quit => TrayCommandView::Exit,
        MenuEntry::English => TrayCommandView::SetMethod("english"@),
        MenuEntry::Telex => TrayCommandView::SetMethod("telex"@),
        MenuEntry::Vni => TrayCommandView::SetMethod("vni"@),
        MenuEntry::Nom => TrayCommandView::SetMethod("nom"@),
        MenuEntry::Config => TrayCommandView::OpenConfig,
        MenuEntry::Custom(i) => custom_command(custom_ids, i as nat),
    }
}

/// A menu click. `custom_ids` are the custom rows' method ids, in order.
pub fn menu_command(entry: MenuEntry, custom_ids: &Vec<String>) -> (r: TrayCommand)
    ensures
        r@ == menu_command_of(entry, ids_view(custom_ids@)),
{
    match entry {
        MenuEntry::Quit => TrayCommand::Exit,
        MenuEntry::English => TrayCommand::SetMethod(string_of("english")),
        MenuEntry::Telex => TrayCommand::SetMethod(string_of("telex")),
        MenuEntry::Vni => TrayCommand::SetMethod(string_of("vni")),
        MenuEntry::Nom => TrayCommand::SetMethod(string_of("nom")),
        MenuEntry::Config => TrayCommand::OpenConfig,
        MenuEntry::Custom(i) => custom_at(custom_ids, i),
    }
}

pub open spec fn hotkey_command_of(action: HotkeyAction, custom_ids: Seq<Seq<char>>) -> TrayCommandView {
    match action {
        HotkeyAction::Toggle => TrayCommandView::ToggleEnabled,
        HotkeyAction::Telex => TrayCommandView::SetMethod("telex"@),
        HotkeyAction::Vni => TrayCommandView::SetMethod("vni"@),
        HotkeyAction::Nom => TrayCommandView::SetMethod("nom"@),
        HotkeyAction::Custom(i) => custom_command(custom_ids, i as nat),
        HotkeyAction::ToggleLastWord => TrayCommandView::ToggleLastWord,
    }
}

/// A hotkey. A custom shortcut without a method at its position does
/// nothing.
pub fn hotkey_command(action: HotkeyAction, custom_ids: &Vec<String>) -> (r: TrayCommand)
    ensures
        r@ == hotkey_command_of(action, ids_view(custom_ids@)),
{
    match action {
        HotkeyAction::Toggle => TrayCommand::ToggleEnabled,
        HotkeyAction::Telex => TrayCommand::SetMethod(string_of("telex")),
        HotkeyAction::Vni => TrayCommand::SetMethod(string_of("vni")),
        HotkeyAction::Nom => TrayCommand::SetMethod(string_of("nom")),
        HotkeyAction::Custom(i) => custom_at(custom_ids, i),
        HotkeyAction::ToggleLastWord => TrayCommand::ToggleLastWord,
    }
}

} // verus!
