use buttre_platform::backend_detect::{detect, ibus_socket_path, pick, ImeBackend, Probes};
use buttre_platform::engine_bridge::EngineAction;
use buttre_platform::ibus_props::{
    build_lookup_table, method_for_activation_in, method_items_from, method_prop_list,
    method_prop_updates_with, CustomKeyboard, MethodItem, PROP_STATE_CHECKED,
    PROP_STATE_UNCHECKED, PROP_TYPE_RADIO, PROP_TYPE_SEPARATOR,
};
use buttre_platform::keysym::{is_break_keysym, is_modifier_keysym, keysym_to_char as keyval_to_char};
use buttre_platform::kwin_ime::{
    kwinrc_input_method, kwinrc_points_at_buttre, manages_buttre_ime,
};
use buttre_platform::method_sync::{
    is_engine_method_in, is_valid_custom_id_in, read_enabled, read_method, write_enabled,
    write_method, MethodState,
};
use buttre_platform::watch::{
    drain_latest, drain_latest_learning_save, push_parent, route_event, watch_dirs, EventKind,
    WatchStep,
};
use buttre_platform::wayland_v1::{ImeV1Core, V1Request};

fn no_customs() -> Vec<String> {
    Vec::new()
}

fn installed(ids: &[&str]) -> Vec<String> {
    ids.iter().map(|s| s.to_string()).collect()
}

// ── kwinrc ──────────────────────────────────────────────────────────────────

#[test]
fn detects_buttre_in_wayland_section() {
    let rc = "[SomeGroup]\nInputMethod=other\n\n[Wayland]\nInputMethod=/home/u/.local/share/applications/buttre-ime.desktop\n";
    assert!(kwinrc_points_at_buttre(rc));
}

#[test]
fn tolerates_locale_flag_marker() {
    let rc = "[Wayland]\nInputMethod[$e]=/path/buttre-ime.desktop\n";
    assert!(kwinrc_points_at_buttre(rc));
}

#[test]
fn ignores_other_sections_and_other_imes() {
    assert!(!kwinrc_points_at_buttre(
        "[Other]\nInputMethod=/path/buttre-ime.desktop\n"
    ));
    assert!(!kwinrc_points_at_buttre(
        "[Wayland]\nInputMethod=/usr/share/applications/org.fcitx.Fcitx5.desktop\n"
    ));
    assert!(!kwinrc_points_at_buttre(""));
}

#[test]
fn kwinrc_value_is_read_from_the_wayland_section_only() {
    assert_eq!(
        kwinrc_input_method(Some("[Wayland]\nInputMethod=/x/buttre-ime.desktop\n")).as_deref(),
        Some("/x/buttre-ime.desktop")
    );
    assert_eq!(kwinrc_input_method(None), None);
    assert!(manages_buttre_ime(
        true,
        Some("[Wayland]\nInputMethod=/x/buttre-ime.desktop\n")
    ));
    assert!(!manages_buttre_ime(
        false,
        Some("[Wayland]\nInputMethod=/x/buttre-ime.desktop\n")
    ));
    assert!(!manages_buttre_ime(true, None));
}

// ── watched directories ────────────────────────────────────────────────────

#[test]
fn push_parent_dedupes_identical_directories() {
    let mut dirs = Vec::new();
    push_parent(&mut dirs, "/a/buttre/macros.toml");
    push_parent(&mut dirs, "/a/buttre/settings.toml");
    assert_eq!(dirs, vec!["/a/buttre".to_string()]);
}

#[test]
fn push_parent_keeps_distinct_directories() {
    let mut dirs = Vec::new();
    push_parent(&mut dirs, "/a/macros.toml");
    push_parent(&mut dirs, "/b/settings.toml");
    assert_eq!(dirs, vec!["/a".to_string(), "/b".to_string()]);
}

#[test]
fn push_parent_compares_paths_not_spellings() {
    let mut dirs = Vec::new();
    push_parent(&mut dirs, "/a/b/macros.toml");
    push_parent(&mut dirs, "/a//b/settings.toml");
    assert_eq!(dirs.len(), 2, "distinct strings are kept as the host wrote them");
    let mut dirs = Vec::new();
    push_parent(&mut dirs, "macros.toml");
    assert_eq!(dirs, vec!["".to_string()], "a bare file name lives in the empty directory");
}

#[test]
fn watch_dirs_skips_unresolved_paths_and_duplicates() {
    let dirs = watch_dirs(&vec![
        Some("/c/buttre/macros.toml".to_string()),
        None,
        Some("/c/buttre/settings.toml".to_string()),
        Some("/d/learning.toml".to_string()),
    ]);
    assert_eq!(dirs, vec!["/c/buttre".to_string(), "/d".to_string()]);
}

#[test]
fn events_are_routed_by_what_they_name() {
    let dir = "/c/buttre";
    assert_eq!(
        route_event(dir, &vec!["/c/buttre".to_string()], EventKind::Create),
        WatchStep::Rearm
    );
    assert_eq!(
        route_event(dir, &vec!["/c/buttre".to_string()], EventKind::Remove),
        WatchStep::Unwatch
    );
    assert_eq!(
        route_event(dir, &vec!["/c/buttre/macros.toml".to_string()], EventKind::Other),
        WatchStep::Forward
    );
    assert_eq!(
        route_event(dir, &vec!["/c/other.txt".to_string()], EventKind::Other),
        WatchStep::Ignore
    );
}

// ── keysyms ─────────────────────────────────────────────────────────────────

#[test]
fn test_keyval_conversion_identity_for_printable_ascii() {
    assert_eq!(keyval_to_char(0x0061), Some('a'));
    assert_eq!(keyval_to_char(0x0041), Some('A'));
    assert_eq!(keyval_to_char(0x0020), Some(' '));
    assert_eq!(keyval_to_char(0x0035), Some('5'));
    assert_eq!(keyval_to_char(0x002E), Some('.'));
    assert_eq!(keyval_to_char(0x003F), Some('?'));
}

#[test]
fn test_keyval_conversion_special_keys() {
    assert_eq!(keyval_to_char(0xFF0D), Some('\n'));
    assert_eq!(keyval_to_char(0xFF08), Some('\x08'));
    assert_eq!(keyval_to_char(0xFF1B), None);
    assert_eq!(keyval_to_char(0xFFE1), None);
}

#[test]
fn modifiers_and_break_keys_are_classified() {
    assert!(is_modifier_keysym(0xFFE1));
    assert!(is_modifier_keysym(0xFFE5));
    assert!(!is_modifier_keysym(0x0061));
    assert!(is_break_keysym(0xFF1B));
    assert!(is_break_keysym(0xFF51));
    assert!(!is_break_keysym(0x0020));
}

// ── backend detection ──────────────────────────────────────────────────────

#[test]
fn priority_is_fcitx_then_ibus_then_wayland() {
    let all = Probes {
        fcitx5: true,
        ibus: true,
        wayland: true,
    };
    assert_eq!(pick(all), Some(ImeBackend::Fcitx5));
    assert_eq!(
        pick(Probes {
            fcitx5: false,
            ..all
        }),
        Some(ImeBackend::IBus)
    );
    assert_eq!(
        pick(Probes {
            fcitx5: false,
            ibus: false,
            ..all
        }),
        Some(ImeBackend::WaylandIme)
    );
    assert_eq!(pick(Probes::default()), None);
    assert_eq!(detect(all), pick(all));
}

#[test]
fn ibus_socket_path_comes_from_the_unix_address() {
    assert_eq!(
        ibus_socket_path("unix:path=/tmp/ibus/dbus-abc,guid=123").as_deref(),
        Some("/tmp/ibus/dbus-abc")
    );
    assert_eq!(ibus_socket_path("tcp:host=localhost"), None);
}

// ── the method file ────────────────────────────────────────────────────────

#[test]
fn write_then_read_round_trips() {
    let content = write_method("vni", &no_customs()).expect("a built-in is written");
    assert_eq!(read_method(Some(&content), &no_customs()), "vni");
    let content = write_method("nom", &no_customs()).expect("a built-in is written");
    assert_eq!(read_method(Some(&content), &no_customs()), "nom");
}

#[test]
fn malformed_or_missing_falls_back_to_telex() {
    assert_eq!(read_method(Some("not-a-method\n"), &no_customs()), "telex");
    assert_eq!(read_method(None, &no_customs()), "telex");
}

#[test]
fn read_normalizes_case_and_whitespace() {
    assert_eq!(read_method(Some("  VNI \n"), &no_customs()), "vni");
}

#[test]
fn custom_id_round_trips_when_toml_exists() {
    let custom = installed(&["cham"]);
    let content = write_method("cham", &custom).expect("an installed custom id is written");
    assert_eq!(read_method(Some(&content), &custom), "cham");
}

#[test]
fn custom_id_without_toml_falls_back_to_telex() {
    assert_eq!(read_method(Some("cham"), &no_customs()), "telex");
    assert_eq!(write_method("cham", &no_customs()), None);
}

#[test]
fn traversal_ids_are_rejected_even_if_target_exists() {
    let custom = installed(&["ok", "../evil", "a/b", "a\\b", ""]);
    assert!(!is_valid_custom_id_in("../evil", &custom));
    assert!(!is_valid_custom_id_in("a/b", &custom));
    assert!(!is_valid_custom_id_in("a\\b", &custom));
    assert!(!is_valid_custom_id_in("", &custom));
    assert!(is_valid_custom_id_in("ok", &custom));
}

#[test]
fn uppercase_ids_are_rejected_even_if_file_exists() {
    let custom = installed(&["Cham"]);
    assert!(!is_valid_custom_id_in("Cham", &custom));
}

#[test]
fn builtins_are_engine_methods_regardless_of_custom_dir() {
    for id in ["telex", "vni", "nom", "english"] {
        assert!(is_engine_method_in(id, &no_customs()));
    }
    assert!(!is_engine_method_in("cham", &no_customs()));
}

#[test]
fn state_set_bumps_generation_only_on_change() {
    let mut state = MethodState::load(Some("telex"), &no_customs());
    assert!(!state.set("telex"));
    assert_eq!(state.generation(), 0);
    assert!(state.set("vni"));
    assert_eq!(state.generation(), 1);
    assert_eq!(state.method(), "vni");
    assert!(!state.set("vni"));
    assert_eq!(state.generation(), 1);
}

#[test]
fn enabled_file_round_trips_and_defaults_to_on() {
    assert_eq!(write_enabled(true), "1");
    assert_eq!(write_enabled(false), "0");
    assert!(read_enabled(Some(&write_enabled(true))));
    assert!(!read_enabled(Some(&write_enabled(false))));
    assert!(!read_enabled(Some(" 0\n")));
    assert!(read_enabled(None));
    assert!(read_enabled(Some("garbage")));
}

#[test]
fn unicode_ids_are_lower_cased_when_read() {
    let custom = installed(&["đà"]);
    assert_eq!(read_method(Some("ĐÀ"), &custom), "đà");
}

// ── IBus properties ────────────────────────────────────────────────────────

fn items_with_custom() -> Vec<MethodItem> {
    method_items_from(&vec![CustomKeyboard {
        stem: "cham".to_string(),
        name: Some("Cham".to_string()),
    }])
}

#[test]
fn activation_honors_only_a_checked_known_radio() {
    let none = no_customs();
    assert_eq!(
        method_for_activation_in("telex", PROP_STATE_CHECKED, &none).as_deref(),
        Some("telex")
    );
    assert_eq!(
        method_for_activation_in("vni", PROP_STATE_CHECKED, &none).as_deref(),
        Some("vni")
    );
    assert_eq!(
        method_for_activation_in("nom", PROP_STATE_CHECKED, &none).as_deref(),
        Some("nom")
    );
    assert_eq!(method_for_activation_in("vni", PROP_STATE_UNCHECKED, &none), None);
    assert_eq!(method_for_activation_in("telex", PROP_STATE_UNCHECKED, &none), None);
    assert_eq!(
        method_for_activation_in("english", PROP_STATE_CHECKED, &none).as_deref(),
        Some("english")
    );
    assert_eq!(method_for_activation_in("english", PROP_STATE_UNCHECKED, &none), None);
    assert_eq!(method_for_activation_in("config", PROP_STATE_CHECKED, &none), None);
    assert_eq!(method_for_activation_in("french", PROP_STATE_CHECKED, &none), None);
}

#[test]
fn activation_admits_custom_ids_with_guard() {
    let custom = installed(&["cham"]);
    assert_eq!(
        method_for_activation_in("cham", PROP_STATE_CHECKED, &custom).as_deref(),
        Some("cham")
    );
    assert_eq!(method_for_activation_in("cham", PROP_STATE_UNCHECKED, &custom), None);
    assert_eq!(method_for_activation_in("khmer", PROP_STATE_CHECKED, &custom), None);
    assert_eq!(method_for_activation_in("../cham", PROP_STATE_CHECKED, &custom), None);
}

#[test]
fn method_items_appends_valid_customs_after_builtins() {
    let items = method_items_from(&vec![
        CustomKeyboard { stem: "cham".to_string(), name: Some("Cham Keyboard".to_string()) },
        CustomKeyboard { stem: "broken".to_string(), name: None },
        CustomKeyboard { stem: "telex".to_string(), name: Some("Mine".to_string()) },
        CustomKeyboard { stem: "config".to_string(), name: Some("Config".to_string()) },
        CustomKeyboard { stem: "Upper".to_string(), name: Some("Upper".to_string()) },
    ]);
    let keys: Vec<&str> = items.iter().map(|i| i.key.as_str()).collect();
    assert_eq!(keys, vec!["english", "telex", "vni", "nom", "cham"]);
    assert_eq!(items[4].label, "Cham Keyboard");
}

#[test]
fn method_items_without_custom_dir_is_builtins_only() {
    assert_eq!(method_items_from(&Vec::new()).len(), 4);
}

#[test]
fn method_prop_updates_check_only_current() {
    let items = items_with_custom();
    for (current, expect_idx) in [
        ("english", 0usize),
        ("telex", 1),
        ("vni", 2),
        ("nom", 3),
        ("cham", 4),
    ] {
        let updates = method_prop_updates_with(current, &items);
        assert_eq!(updates.len(), items.len(), "one update per method radio");
        for (i, prop) in updates.iter().enumerate() {
            let expected = if i == expect_idx {
                PROP_STATE_CHECKED
            } else {
                PROP_STATE_UNCHECKED
            };
            assert_eq!(prop.state, expected, "radio {i} state for current={current}");
            assert_eq!(prop.prop_type, PROP_TYPE_RADIO);
        }
    }
}

#[test]
fn method_prop_list_ends_with_separator_and_settings() {
    let items = items_with_custom();
    let props = method_prop_list("vni", &items);
    assert_eq!(props.len(), items.len() + 2);
    assert_eq!(props[items.len()].prop_type, PROP_TYPE_SEPARATOR);
    assert_eq!(props[items.len() + 1].key, "config");
}

#[test]
fn lookup_table_sends_the_whole_list() {
    let table = build_lookup_table(&vec!["𡗶".to_string(), "天".to_string()], 1);
    assert_eq!(table.candidates, vec!["𡗶".to_string(), "天".to_string()]);
    assert_eq!(table.cursor, 1);
    assert_eq!(table.page_size, 9);
    assert_eq!(table.labels.len(), 9);
    assert_eq!(table.labels[0], "1");
    assert_eq!(table.labels[8], "9");
}

// ── the Wayland engine ─────────────────────────────────────────────────────

#[test]
fn preedit_caret_is_counted_in_bytes() {
    let mut ime = ImeV1Core::new("telex", 0);
    ime.activate();
    let reqs = ime.type_char(
        30,
        't',
        Some(vec![EngineAction::UpdateComposition { text: "việt".to_string(), cursor: 4 }]),
    );
    assert!(reqs.contains(&V1Request::PreeditCursor { bytes: 6 }), "{reqs:?}");
    assert!(reqs.contains(&V1Request::PreeditString {
        text: "việt".to_string(),
        commit: "việt".to_string()
    }));
}

#[test]
fn a_separator_commits_the_word_then_forwards_the_key() {
    let mut ime = ImeV1Core::new("telex", 0);
    ime.activate();
    ime.type_char(
        30,
        'a',
        Some(vec![EngineAction::UpdateComposition { text: "a".to_string(), cursor: 1 }]),
    );
    let reqs = ime.type_char(
        57,
        ' ',
        Some(vec![
            EngineAction::ConfirmComposition("á".to_string()),
            EngineAction::Commit(" ".to_string()),
        ]),
    );
    assert_eq!(reqs.first(), Some(&V1Request::CommitString("á".to_string())));
    assert_eq!(reqs.last(), Some(&V1Request::ForwardKey { pressed: true }));
}

#[test]
fn without_a_context_nothing_is_sent() {
    let mut ime = ImeV1Core::new("telex", 0);
    let reqs = ime.type_char(
        30,
        'a',
        Some(vec![EngineAction::UpdateComposition { text: "a".to_string(), cursor: 1 }]),
    );
    assert!(!reqs.iter().any(|r| matches!(r, V1Request::PreeditString { .. })));
}

// ── learning saves ─────────────────────────────────────────────────────────

#[test]
fn drain_latest_keeps_only_the_last_snapshot() {
    assert_eq!(drain_latest("a", vec!["b"]), "b");
    assert_eq!(drain_latest("a", Vec::new()), "a");
}

#[test]
fn drain_latest_learning_save_returns_none_when_empty() {
    assert!(drain_latest_learning_save(Vec::<u32>::new()).is_none());
}

#[test]
fn drain_latest_learning_save_debounces_to_the_last_queued_snapshot() {
    assert_eq!(drain_latest_learning_save(vec![1, 2, 3]), Some(3));
}
