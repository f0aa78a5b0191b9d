use buttre_platform::autostart::{set_enabled, AutostartChange, AutostartPlatform};
use buttre_platform::candidates::CandidateView;
use buttre_platform::engine_bridge::{EngineAction, EngineBridge, ImeOp, KeyboardCmd};
use buttre_platform::explain::{apply_all, parse_explain_args, ExplainError, ExplainMethod};
use buttre_platform::ibus_engine::{
    candidate_key, current_radio, emit_ops, settings_command, CandidateKey, IbusSignal, KEY_1,
    KEY_ESCAPE, KEY_SPACE,
};
use buttre_platform::tray_events::{
    hotkey_command, learning_reload_step, menu_command, settings_changes, HotkeyAction, MenuEntry,
    SettingsChange, SettingsView, TrayCommand,
};
use buttre_platform::ui::{
    build_menu, get_tooltip, greyscale_rgba, icon_for_method, menu_checks, update_tray_icon,
    AccelKey, CustomMethod, IconChoice, IconSet, MethodInfo, TrayIconChoice,
};

fn cands(n: usize) -> Vec<CandidateView> {
    (0..n)
        .map(|i| CandidateView { display: format!("c{i} (g)"), value: format!("c{i}") })
        .collect()
}

// ── icons ──────────────────────────────────────────────────────────────────

#[test]
fn greyscale_flattens_colour_and_keeps_alpha() {
    let rgba = vec![200u8, 40, 40, 128];
    let grey = greyscale_rgba(&rgba);
    assert_eq!(grey.len(), 4, "pixel count must not change");
    assert_eq!(grey[0], grey[1], "r == g after greyscale");
    assert_eq!(grey[1], grey[2], "g == b after greyscale");
    assert_eq!(grey[3], 128, "alpha must be untouched — the shape is the icon");
    assert_eq!(grey[0], 87);
}

#[test]
fn greyscale_keeps_contrast_between_light_and_dark() {
    let rgba = vec![240, 240, 240, 255, 30, 30, 30, 255];
    let grey = greyscale_rgba(&rgba);
    assert!(grey[0] as i16 - grey[4] as i16 > 150, "contrast preserved");
}

#[test]
fn greyscale_uses_bt601_weights() {
    assert_eq!(greyscale_rgba(&[0, 255, 0, 7]), vec![149, 149, 149, 7]);
    assert_eq!(greyscale_rgba(&[255, 255, 255, 255]), vec![255, 255, 255, 255]);
    assert_eq!(greyscale_rgba(&[0, 0, 0, 0]), vec![0, 0, 0, 0]);
}

#[test]
fn undecodable_bytes_give_the_blank_icon() {
    let set = IconSet::from_bytes(b"not an image");
    assert_eq!(set.color.rgba, vec![0, 0, 0, 0]);
    assert_eq!((set.color.width, set.color.height), (1, 1));
    assert_eq!(set.grey.rgba, vec![0, 0, 0, 0]);
    assert_eq!(set.variant(false).rgba, set.grey.rgba);
}

#[test]
fn icon_set_builds_from_png_bytes() {
    let img = image::RgbaImage::from_raw(2, 1, vec![200, 40, 40, 128, 10, 20, 30, 255])
        .expect("two pixels");
    let mut bytes: Vec<u8> = Vec::new();
    img.write_to(&mut std::io::Cursor::new(&mut bytes), image::ImageFormat::Png)
        .expect("png encodes");
    let set = IconSet::from_bytes(&bytes);
    assert_eq!((set.color.width, set.color.height), (2, 1));
    assert_eq!(set.color.rgba, vec![200, 40, 40, 128, 10, 20, 30, 255]);
    assert_eq!(set.grey.rgba, greyscale_rgba(&set.color.rgba));
    assert_eq!(set.variant(true).rgba, set.color.rgba);
}

// ── tray ───────────────────────────────────────────────────────────────────

#[test]
fn tooltip_when_off_still_names_the_method() {
    let on = get_tooltip("telex", true, &Vec::new());
    let off = get_tooltip("telex", false, &Vec::new());
    assert!(on.contains("TELEX"));
    assert!(off.contains("Đã tắt"), "off must say so: {off}");
    assert!(off.contains("TELEX"), "off must still show what turning on gives: {off}");
}

#[test]
fn tooltip_never_mentions_english() {
    for method in ["telex", "vni", "nom", "sometoml"] {
        for enabled in [true, false] {
            let tip = get_tooltip(method, enabled, &Vec::new());
            assert!(!tip.to_lowercase().contains("english"), "{tip}");
        }
    }
}

#[test]
fn tooltip_spells_out_each_state() {
    assert_eq!(get_tooltip("telex", true, &Vec::new()), "buttre\nChữ Việt\nTELEX");
    assert_eq!(get_tooltip("vni", false, &Vec::new()), "buttre\nĐã tắt (Chữ Việt VNI)");
    assert_eq!(get_tooltip("nom", true, &Vec::new()), "buttre\nChữ Nôm");
    assert_eq!(get_tooltip("đổi", true, &Vec::new()), "buttre\nChữ Việt\nĐỔI");
    let customs = vec![CustomMethod {
        id: "cham".to_string(),
        name: "Cham".to_string(),
        icon: Some("cham.png".to_string()),
    }];
    assert_eq!(get_tooltip("cham", true, &customs), "buttre\nCustom\nCham");
    assert_eq!(icon_for_method("cham", &customs), IconChoice::CustomFile("cham.png".to_string()));
    assert_eq!(icon_for_method("vni", &customs), IconChoice::Vni);
    assert_eq!(icon_for_method("zzz", &customs), IconChoice::Vietnamese);
}

#[test]
fn tray_update_while_off_shows_the_off_icon() {
    let u = update_tray_icon("vni", false, &Vec::new());
    assert_eq!(u.icon, TrayIconChoice::English);
    assert_eq!(u.tooltip, "buttre\nOFF");
    let u = update_tray_icon("nom", true, &Vec::new());
    assert_eq!(u.icon, TrayIconChoice::Nom);
}

#[test]
fn off_checks_only_english() {
    let ids = vec!["cham".to_string()];
    let off = menu_checks("telex", false, &ids);
    assert!(off.english && !off.telex && !off.vni && !off.nom);
    assert_eq!(off.customs, vec![false]);
    let on = menu_checks("cham", true, &ids);
    assert!(!on.english && !on.telex);
    assert_eq!(on.customs, vec![true]);
}

#[test]
fn menu_lists_customs_with_shortcuts_in_order() {
    let mut methods = vec![
        MethodInfo { id: "telex".to_string(), name: "Telex".to_string(), builtin: true },
        MethodInfo { id: "vni".to_string(), name: "VNI".to_string(), builtin: true },
        MethodInfo { id: "nom".to_string(), name: "Chữ Nôm".to_string(), builtin: true },
    ];
    for i in 0..8 {
        methods.push(MethodInfo { id: format!("k{i}"), name: format!("K{i}"), builtin: false });
    }
    let plan = build_menu("k1", &methods);
    assert_eq!(plan.customs.len(), 8);
    assert_eq!(plan.customs[0].row.accelerator, Some(AccelKey::Digit(4)));
    assert_eq!(plan.customs[6].row.accelerator, Some(AccelKey::Digit(0)));
    assert_eq!(plan.customs[7].row.accelerator, None);
    assert!(plan.customs[1].row.checked);
    assert!(!plan.customs[0].row.checked);
    assert!(!plan.telex.checked);
}

// ── the engine bridge ──────────────────────────────────────────────────────

#[test]
fn a_separator_commits_the_word_before_passing_the_key() {
    let mut b = EngineBridge::new("telex");
    let o = b.process_char(
        'a',
        Some(vec![EngineAction::UpdateComposition { text: "a".to_string(), cursor: 1 }]),
    );
    assert!(o.handled);
    assert_eq!(o.ops, vec![ImeOp::Preedit("a".to_string())]);
    let o = b.process_char(
        ' ',
        Some(vec![
            EngineAction::ConfirmComposition("á".to_string()),
            EngineAction::Commit(" ".to_string()),
        ]),
    );
    assert!(!o.handled, "the space itself reaches the application");
    assert_eq!(o.ops, vec![ImeOp::Preedit(String::new()), ImeOp::Commit("á".to_string())]);
    assert_eq!(b.preedit(), "");
}

#[test]
fn a_confirmed_word_drops_the_stale_popup() {
    let mut b = EngineBridge::new("nom");
    b.process_char(
        'n',
        Some(vec![
            EngineAction::UpdateComposition { text: "n".to_string(), cursor: 1 },
            EngineAction::ShowCandidates { candidates: cands(3) },
        ]),
    );
    assert_eq!(b.candidate_count(), 3);
    let o = b.process_char(
        '.',
        Some(vec![
            EngineAction::ConfirmComposition("n".to_string()),
            EngineAction::Commit(".".to_string()),
        ]),
    );
    assert_eq!(o.ops.last(), Some(&ImeOp::HideCandidates));
    assert_eq!(b.candidate_count(), 0);
}

#[test]
fn while_off_every_key_passes_through() {
    let mut b = EngineBridge::new("telex");
    b.process_char(
        'a',
        Some(vec![EngineAction::UpdateComposition { text: "a".to_string(), cursor: 1 }]),
    );
    let step = b.set_enabled(false);
    assert_eq!(step.outcome.ops, vec![ImeOp::Preedit(String::new())]);
    assert_eq!(step.keyboard, vec![KeyboardCmd::Reset]);
    assert!(!b.is_enabled());
    let o = b.process_char(
        'b',
        Some(vec![EngineAction::UpdateComposition { text: "b".to_string(), cursor: 1 }]),
    );
    assert!(!o.handled && o.ops.is_empty());
    b.set_enabled(true);
    assert!(b.is_enabled());
    assert_eq!(b.method(), "telex", "the method survives an off/on cycle");
}

#[test]
fn flush_commits_the_repaired_word_once() {
    let mut b = EngineBridge::new("telex");
    b.process_char(
        'a',
        Some(vec![EngineAction::UpdateComposition { text: "tieng".to_string(), cursor: 5 }]),
    );
    let step = b.flush_pending(Some("tiếng".to_string()));
    assert_eq!(
        step.outcome.ops,
        vec![ImeOp::Preedit(String::new()), ImeOp::Commit("tiếng".to_string())]
    );
    assert_eq!(step.keyboard, vec![KeyboardCmd::CollectLearning, KeyboardCmd::Reset]);
    let again = b.flush_pending(None);
    assert!(again.outcome.ops.is_empty() && !again.outcome.handled);
    assert!(again.keyboard.is_empty());
}

#[test]
fn discard_clears_without_committing() {
    let mut b = EngineBridge::new("telex");
    b.process_char(
        'a',
        Some(vec![EngineAction::UpdateComposition { text: "vie".to_string(), cursor: 3 }]),
    );
    let step = b.discard();
    assert!(!step.outcome.ops.iter().any(|op| matches!(op, ImeOp::Commit(_))));
    assert_eq!(b.preedit(), "");
}

#[test]
fn selecting_a_candidate_clears_the_preedit_first() {
    let mut b = EngineBridge::new("nom");
    b.process_char(
        't',
        Some(vec![
            EngineAction::UpdateComposition { text: "troi".to_string(), cursor: 4 },
            EngineAction::ShowCandidates { candidates: cands(12) },
        ]),
    );
    b.cursor_page_down(9);
    let step = b.select_at_page(1, 9);
    assert_eq!(
        step.outcome.ops,
        vec![ImeOp::Preedit(String::new()), ImeOp::Commit("c10".to_string()), ImeOp::HideCandidates]
    );
    assert_eq!(b.candidate_count(), 0);
}

#[test]
fn no_preedit_mode_replaces_in_place() {
    let mut b = EngineBridge::new("telex");
    b.set_use_composition(false, None);
    let o = b.process_char(
        's',
        Some(vec![EngineAction::Replace { backspace_count: 1, text: "á".to_string() }]),
    );
    assert!(o.handled);
    assert_eq!(o.ops, vec![ImeOp::DeleteSurrounding(1), ImeOp::Commit("á".to_string())]);
    let o = b.process_char('x', Some(vec![EngineAction::Commit("x".to_string())]));
    assert!(!o.handled, "an echoed character is the key itself");
}

// ── IBus ───────────────────────────────────────────────────────────────────

#[test]
fn popup_keys_map_as_the_panel_expects() {
    assert_eq!(candidate_key(KEY_ESCAPE), Some(CandidateKey::Discard));
    assert_eq!(candidate_key(KEY_SPACE), Some(CandidateKey::SelectCurrent));
    assert_eq!(candidate_key(KEY_1 + 2), Some(CandidateKey::SelectAtPage(2)));
    assert_eq!(candidate_key(0x61), None);
}

#[test]
fn ops_become_ibus_signals_in_order() {
    let sigs = emit_ops(&vec![ImeOp::Preedit(String::new()), ImeOp::Commit("á".to_string())]);
    assert_eq!(sigs.last(), Some(&IbusSignal::CommitText("á".to_string())));
}

#[test]
fn the_off_state_shows_the_english_radio() {
    assert_eq!(current_radio(Some(false), Some("vni")), "english");
    assert_eq!(current_radio(Some(true), Some("vni")), "vni");
    assert_eq!(current_radio(None, None), "telex");
    assert_eq!(settings_command(true, Some("vni"), true, "vni"), None);
    assert_eq!(settings_command(false, None, true, "vni"), Some((false, "vni".to_string())));
}

// ── autostart and the explain command ──────────────────────────────────────

#[test]
fn autostart_changes_per_platform() {
    assert_eq!(
        set_enabled(AutostartPlatform::Windows, true, "C:\\a b\\buttre.exe"),
        Ok(AutostartChange::SetRunValue("\"C:\\a b\\buttre.exe\"".to_string()))
    );
    assert_eq!(set_enabled(AutostartPlatform::Windows, false, "x"), Ok(AutostartChange::DeleteRunValue));
    assert_eq!(set_enabled(AutostartPlatform::Linux, false, "x"), Ok(AutostartChange::RemoveDesktopEntry));
    match set_enabled(AutostartPlatform::Linux, true, "/usr/bin/buttre") {
        Ok(AutostartChange::WriteDesktopEntry(c)) => {
            assert!(c.starts_with("[Desktop Entry]\n"));
            assert!(c.contains("Exec=\"/usr/bin/buttre\"\n"));
        }
        other => panic!("unexpected {other:?}"),
    }
    assert!(set_enabled(AutostartPlatform::Macos, true, "x").is_err());
}

#[test]
fn explain_arguments_are_checked() {
    let args = |v: &[&str]| v.iter().map(|s| s.to_string()).collect::<Vec<String>>();
    let ok = parse_explain_args(&args(&["telex", "vieetj", "--learning"])).expect("valid");
    assert_eq!(ok.method, ExplainMethod::Telex);
    assert_eq!(ok.raw, "vieetj");
    assert!(ok.with_learning);
    assert_eq!(parse_explain_args(&args(&["vni"])), Err(ExplainError::Usage));
    let err = parse_explain_args(&args(&["qwerty", "abc"])).unwrap_err();
    assert_eq!(err, ExplainError::UnknownMethod("qwerty".to_string()));
    assert!(err.message().starts_with("unknown method 'qwerty'"));
}

#[test]
fn explain_replays_actions_on_the_screen() {
    let mut screen: Vec<char> = "vie".chars().collect();
    apply_all(
        &mut screen,
        &vec![
            EngineAction::Replace { backspace_count: 1, text: "ê".to_string() },
            EngineAction::Commit("t".to_string()),
        ],
    );
    assert_eq!(screen.iter().collect::<String>(), "viêt");
}

#[test]
fn an_empty_candidate_list_hides_the_popup_instead() {
    let mut b = EngineBridge::new("telex");
    let o = b.process_char(
        'a',
        Some(vec![
            EngineAction::UpdateComposition { text: "a".to_string(), cursor: 1 },
            EngineAction::ShowCandidates { candidates: Vec::new() },
        ]),
    );
    assert_eq!(o.ops, vec![ImeOp::Preedit("a".to_string())]);
    let mut b = EngineBridge::new("nom");
    b.process_char(
        'n',
        Some(vec![
            EngineAction::UpdateComposition { text: "n".to_string(), cursor: 1 },
            EngineAction::ShowCandidates { candidates: cands(2) },
        ]),
    );
    let o = b.process_char(
        'g',
        Some(vec![
            EngineAction::UpdateComposition { text: "ng".to_string(), cursor: 2 },
            EngineAction::ShowCandidates { candidates: Vec::new() },
        ]),
    );
    assert_eq!(o.ops, vec![ImeOp::Preedit("ng".to_string()), ImeOp::HideCandidates]);
    assert!(o.handled);
    assert_eq!(b.candidate_count(), 0);
    let mut idle = EngineBridge::new("nom");
    let o = idle.process_char('x', Some(vec![EngineAction::ShowCandidates { candidates: Vec::new() }]));
    assert!(o.ops.is_empty(), "nothing was showing, so nothing to hide");
    assert!(o.handled, "an empty lookup result still consumes the key");
}

// ── the tray's event loop ──────────────────────────────────────────────────

fn settings(method: &str, learning: bool) -> SettingsView {
    SettingsView {
        input_method: method.to_string(),
        auto_correct: false,
        backspace_mode: "smart".to_string(),
        learning_enabled: learning,
        shorthand: true,
        strict_spelling: false,
        startup: false,
    }
}

#[test]
fn an_external_settings_edit_applies_only_what_changed() {
    assert!(settings_changes(&settings("telex", true), &settings("telex", true)).is_empty());
    let mut new = settings("vni", false);
    new.auto_correct = true;
    new.startup = true;
    assert_eq!(
        settings_changes(&settings("telex", true), &new),
        vec![
            SettingsChange::AutoCorrect(true),
            SettingsChange::InputMethod("vni".to_string()),
            SettingsChange::LearningEnabled(false),
            SettingsChange::Startup(true),
        ]
    );
}

#[test]
fn a_learning_reload_waits_out_the_trays_own_save() {
    assert_eq!(learning_reload_step(false, true, true, 500), (false, true));
    assert_eq!(learning_reload_step(true, false, true, 2500), (true, false));
    assert_eq!(learning_reload_step(true, false, false, 9000), (false, true));
    assert_eq!(learning_reload_step(false, false, true, 9000), (false, false));
}

#[test]
fn menu_clicks_and_hotkeys_become_commands() {
    let customs = vec!["cham".to_string()];
    assert_eq!(menu_command(MenuEntry::Quit, &customs), TrayCommand::Exit);
    assert_eq!(menu_command(MenuEntry::English, &customs), TrayCommand::SetMethod("english".to_string()));
    assert_eq!(menu_command(MenuEntry::Custom(0), &customs), TrayCommand::SetMethod("cham".to_string()));
    assert_eq!(menu_command(MenuEntry::Custom(3), &customs), TrayCommand::Nothing);
    assert_eq!(menu_command(MenuEntry::Config, &customs), TrayCommand::OpenConfig);
    assert_eq!(hotkey_command(HotkeyAction::Toggle, &customs), TrayCommand::ToggleEnabled);
    assert_eq!(hotkey_command(HotkeyAction::Nom, &customs), TrayCommand::SetMethod("nom".to_string()));
    assert_eq!(hotkey_command(HotkeyAction::ToggleLastWord, &customs), TrayCommand::ToggleLastWord);
}
