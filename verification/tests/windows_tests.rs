use buttre_platform::candidates::{CandidateMotion, CandidateState, CandidateView};
use buttre_platform::input::{
    build_plain_replacement, build_selection_replacement, held_modifiers, key_input,
    send_replacement, send_unicode_char, shortcut_modifier_vks, wrap_in_modifier_release,
    send_replacement_under_held_modifiers, KeyInput, BUTTRE_INJECTED, KEYEVENTF_KEYUP, KEYEVENTF_UNICODE, VK_BACK, VK_LCONTROL, VK_LMENU, VK_LSHIFT,
    VK_LWIN, VK_RCONTROL, VK_RMENU, VK_RSHIFT, VK_RWIN,
};
use buttre_platform::method_owner::{decide, owner_of, MethodOwner, SurfacePath};
use buttre_platform::backend_detect::ImeBackend;
use buttre_platform::platform::{mode_name, select_mode, startup_method, BackendMode};
use buttre_platform::transport_claim::{is_claimed_by, publish, release, ClaimCell};
use buttre_platform::engine_bridge::EngineAction;
use buttre_platform::tsf_keys::{
    candidate_motion, claims_key, handle_candidate_key, is_buffer_reset_key, is_candidate_key,
    plan_actions, plan_backspace, plan_enter, plan_reset_key, plan_word_toggle, route_key_down,
    test_key_down, KeyDownRoute, KeyMods, OnError, TsfOp, VietnameseMode, VK_DIGIT_1, VK_DIGIT_9, VK_DOWN, VK_ESCAPE, VK_NEXT, VK_PRIOR, VK_RETURN,
    VK_SPACE, VK_UP, VK_WORD_TOGGLE,
};
use buttre_platform::tsf_registry::{
    clsid_buttre_text_service, enabled_langids_from, guid_profile, is_buttre_text_service_enabled,
    is_vietnamese_installed_in, language_ids_for, parse_profile_langid, parse_tip_entry,
    profile_key_name, stale_profiles, LANGID_ENGLISH_US, LANGID_VIETNAMESE,
};
use buttre_platform::tsf_session::{
    dll_add_ref, dll_can_unload, dll_get_ref_count, dll_release, logging_level, DllRefCount,
    LogLevel, SinkCookies, TF_INVALID_COOKIE,
};

const JA_JP: u32 = 0x0411;
const ARROWS: [u16; 4] = [0x25, 0x26, 0x27, 0x28];

fn shape(inputs: &[KeyInput]) -> Vec<(u16, bool)> {
    inputs
        .iter()
        .map(|ki| (ki.vk, ki.flags & KEYEVENTF_KEYUP != 0))
        .collect()
}

// ── synthesized input ──────────────────────────────────────────────────────

#[test]
fn watch_list_has_no_duplicates() {
    let mut seen = shortcut_modifier_vks();
    seen.sort_unstable();
    let len_before = seen.len();
    seen.dedup();
    assert_eq!(seen.len(), len_before);
}

#[test]
fn watches_both_variants_of_every_shortcut_modifier() {
    let list = shortcut_modifier_vks();
    for vk in [
        VK_LCONTROL, VK_RCONTROL, VK_LSHIFT, VK_RSHIFT, VK_LMENU, VK_RMENU, VK_LWIN, VK_RWIN,
    ] {
        assert!(list.contains(&vk), "missing modifier {vk:#x}");
    }
}

#[test]
fn modifier_wrap_releases_before_payload_and_restores_after() {
    let held = [VK_LCONTROL, VK_LSHIFT];
    let payload = vec![key_input(VK_BACK, 0), key_input(VK_BACK, KEYEVENTF_KEYUP)];
    let batch = wrap_in_modifier_release(&held, payload);
    assert_eq!(
        shape(&batch),
        vec![
            (VK_LCONTROL, true),
            (VK_LSHIFT, true),
            (VK_BACK, false),
            (VK_BACK, true),
            (VK_LCONTROL, false),
            (VK_LSHIFT, false),
        ]
    );
}

#[test]
fn modifier_wrap_with_nothing_held_is_the_payload_verbatim() {
    let payload = vec![key_input(VK_BACK, 0)];
    let batch = wrap_in_modifier_release(&[], payload);
    assert_eq!(shape(&batch), vec![(VK_BACK, false)]);
}

#[test]
fn held_modifiers_follow_the_watch_list_order() {
    let mut down = vec![false; 8];
    down[2] = true;
    down[0] = true;
    assert_eq!(held_modifiers(&down), vec![VK_LCONTROL, VK_LSHIFT]);
    assert!(held_modifiers(&vec![false; 8]).is_empty());
}

#[test]
fn replacement_deletes_then_types_each_utf16_unit() {
    let batch = build_plain_replacement(2, "ế");
    assert_eq!(batch.len(), 6);
    assert_eq!(shape(&batch[..4]), vec![(VK_BACK, false), (VK_BACK, true), (VK_BACK, false), (VK_BACK, true)]);
    assert_eq!(
        batch[4],
        KeyInput { vk: 0, scan: 0x1EBF, flags: KEYEVENTF_UNICODE, extra: BUTTRE_INJECTED }
    );
    assert_eq!(
        batch[5],
        KeyInput {
            vk: 0,
            scan: 0x1EBF,
            flags: KEYEVENTF_UNICODE | KEYEVENTF_KEYUP,
            extra: BUTTRE_INJECTED
        }
    );
}

#[test]
fn every_injected_event_is_tagged_for_the_hook() {
    let batches = [
        build_plain_replacement(3, "đ𡗶"),
        send_replacement(2, "ơ", true, false),
        send_replacement_under_held_modifiers(1, "x", &[VK_LCONTROL, VK_LSHIFT], false, false),
    ];
    for batch in batches {
        assert!(!batch.is_empty());
        assert!(batch.iter().all(|k| k.extra == BUTTRE_INJECTED));
    }
}

#[test]
fn characters_outside_the_bmp_become_surrogate_pairs() {
    let batch = send_unicode_char('𡗶');
    let units: Vec<u16> = batch.iter().filter(|k| k.flags & KEYEVENTF_KEYUP == 0).map(|k| k.scan).collect();
    let mut buf = [0u16; 2];
    assert_eq!(units, '𡗶'.encode_utf16(&mut buf).to_vec());
}

#[test]
fn selection_replacement_selects_instead_of_deleting_one_char() {
    let batch = build_selection_replacement(1, "a", false);
    let shape_of = shape(&batch);
    assert_eq!(shape_of[0], (VK_LSHIFT, false));
    assert_eq!(shape_of[3], (VK_LSHIFT, true));
    assert!(!shape_of.contains(&(VK_BACK, false)), "the selection is typed over");
    let omnibox = send_replacement(1, "a", true, false);
    assert_eq!(omnibox, batch);
    let plain = send_replacement(1, "a", false, false);
    assert_eq!(plain, build_plain_replacement(1, "a"));
}

// ── language profiles ──────────────────────────────────────────────────────

#[test]
fn tip_entries_parse_as_windows_writes_them() {
    let name = format!("0409:{}{}", clsid_buttre_text_service(), guid_profile());
    assert_eq!(parse_tip_entry(&name), Some(0x0409));
    let vietnamese = format!("042a:{}{}", clsid_buttre_text_service(), guid_profile());
    assert_eq!(parse_tip_entry(&vietnamese), Some(0x042A));
}

#[test]
fn guid_case_does_not_change_the_answer() {
    let lower = format!(
        "0409:{}{}",
        clsid_buttre_text_service().to_ascii_lowercase(),
        guid_profile().to_ascii_lowercase()
    );
    assert_eq!(parse_tip_entry(&lower), Some(0x0409));
}

#[test]
fn other_keyboards_are_not_mistaken_for_ours() {
    assert_eq!(parse_tip_entry("0409:00000409"), None, "plain layout");
    assert_eq!(
        parse_tip_entry(
            "042a:{C2CB2CF0-AF47-413E-9780-8BC3A3C16068}{5FB02EC5-0A77-4684-B4FA-DEF8A2195628}"
        ),
        None,
        "Microsoft's Vietnamese IME"
    );
    assert_eq!(parse_tip_entry("nonsense"), None);
    assert_eq!(parse_tip_entry(""), None);
}

#[test]
fn probing_this_machine_does_not_panic() {
    let _ = is_buttre_text_service_enabled(&enabled_langids_from(&Vec::new(), &Vec::new()));
}

#[test]
fn disabled_languages_do_not_count() {
    let ids = enabled_langids_from(&vec![0x042A, 0x0409, 0x042A], &vec![0x0409]);
    assert_eq!(ids, vec![0x042A]);
    assert!(is_buttre_text_service_enabled(&ids));
    assert!(!is_buttre_text_service_enabled(&enabled_langids_from(&vec![0x0409], &vec![0x0409])));
}

#[test]
fn no_vietnamese_profile_when_vietnamese_is_not_installed() {
    for default in [LANGID_ENGLISH_US, JA_JP] {
        let ids = language_ids_for(default, default, false);
        assert!(
            !ids.contains(&LANGID_VIETNAMESE),
            "phantom vi-VN entry for default {default:#06X}"
        );
        assert_eq!(ids, vec![default]);
    }
}

#[test]
fn vietnamese_is_registered_once_installed() {
    for default in [LANGID_ENGLISH_US, JA_JP, LANGID_VIETNAMESE] {
        assert!(
            language_ids_for(default, default, true).contains(&LANGID_VIETNAMESE),
            "vi-VN missing for default {default:#06X}"
        );
    }
}

#[test]
fn user_and_system_defaults_are_both_registered() {
    let ids = language_ids_for(JA_JP, LANGID_ENGLISH_US, false);
    assert!(ids.contains(&JA_JP));
    assert!(ids.contains(&LANGID_ENGLISH_US));
}

#[test]
fn each_language_is_included_exactly_once() {
    let ids = language_ids_for(LANGID_VIETNAMESE, LANGID_VIETNAMESE, true);
    assert_eq!(ids, vec![LANGID_VIETNAMESE]);
}

#[test]
fn zero_is_never_registered() {
    assert_eq!(
        language_ids_for(0, LANGID_ENGLISH_US, false),
        vec![LANGID_ENGLISH_US]
    );
    assert!(language_ids_for(0, 0, false).is_empty());
}

#[test]
fn profile_key_names_round_trip() {
    for langid in [LANGID_ENGLISH_US, LANGID_VIETNAMESE, JA_JP] {
        let key = format!("0x{langid:08X}");
        assert_eq!(profile_key_name(langid), key);
        assert_eq!(parse_profile_langid(&key), Some(langid));
    }
}

#[test]
fn unparseable_profile_names_are_left_alone() {
    assert_eq!(parse_profile_langid("Category"), None);
    assert_eq!(parse_profile_langid("0409"), None, "missing 0x prefix");
    assert_eq!(parse_profile_langid(""), None);
}

#[test]
fn only_profiles_we_no_longer_want_are_pruned() {
    let names = vec![
        "0x00000409".to_string(),
        "0x0000042A".to_string(),
        "Category".to_string(),
    ];
    assert_eq!(
        stale_profiles(&names, &vec![LANGID_VIETNAMESE]),
        vec!["0x00000409".to_string()]
    );
}

#[test]
fn vietnamese_tags_are_recognized() {
    assert!(is_vietnamese_installed_in(&vec!["en-US".to_string(), "vi-VN".to_string()]));
    assert!(is_vietnamese_installed_in(&vec!["vi".to_string()]));
    assert!(!is_vietnamese_installed_in(&vec!["en-US".to_string(), "video".to_string()]));
}

// ── the transport claim ────────────────────────────────────────────────────

#[test]
fn no_claim_means_the_hook_runs() {
    let mut cell = ClaimCell::new();
    publish(&mut cell, 0);
    let me = 4242;
    assert!(!is_claimed_by(&cell, me, true));
    assert!(!is_claimed_by(&cell, 0, true), "pid 0 is never a valid claim");
}

#[test]
fn a_live_claim_stands_the_hook_down_and_release_lifts_it() {
    let mut cell = ClaimCell::new();
    let me: u32 = 4242;
    publish(&mut cell, me);
    assert!(is_claimed_by(&cell, me, true), "own (live) process must satisfy the check");
    assert!(
        !is_claimed_by(&cell, me.wrapping_add(1), true),
        "a different foreground process must not"
    );
    release(&mut cell, me);
    assert!(!is_claimed_by(&cell, me, true), "release must lift the stand-down");
}

#[test]
fn release_only_clears_our_own_claim() {
    let mut cell = ClaimCell::new();
    let me: u32 = 4242;
    publish(&mut cell, me);
    release(&mut cell, me.wrapping_add(7));
    assert!(is_claimed_by(&cell, me, true), "foreign release must not clear our claim");
    release(&mut cell, me);
    assert!(!is_claimed_by(&cell, me, true));
}

#[test]
fn a_dead_processes_claim_is_ignored() {
    let mut cell = ClaimCell::new();
    let dead_pid: u32 = 777;
    publish(&mut cell, dead_pid);
    assert!(!is_claimed_by(&cell, dead_pid, false));
    release(&mut cell, dead_pid);
    assert_eq!(cell.value(), 0);
}

// ── the text service's keys ────────────────────────────────────────────────

#[test]
fn candidate_keys_and_motions_agree() {
    for vkey in [VK_UP, VK_DOWN, VK_PRIOR, VK_NEXT] {
        assert!(candidate_motion(vkey).is_some(), "vkey {vkey:#x} should move the highlight");
        assert!(is_candidate_key(vkey), "vkey {vkey:#x} must be claimed");
    }
    for vkey in [VK_RETURN, VK_ESCAPE, VK_SPACE] {
        assert!(candidate_motion(vkey).is_none(), "vkey {vkey:#x} selects or dismisses");
        assert!(is_candidate_key(vkey), "vkey {vkey:#x} must be claimed");
    }
    assert_eq!(candidate_motion(VK_UP), Some(CandidateMotion::Prev));
    assert_eq!(candidate_motion(VK_NEXT), Some(CandidateMotion::PageDown));
}

#[test]
fn every_selection_digit_is_claimed() {
    for (offset, vkey) in (VK_DIGIT_1..=VK_DIGIT_9).enumerate() {
        assert!(is_candidate_key(vkey), "digit {} unclaimed", offset + 1);
    }
    assert!(!is_candidate_key(0x30));
}

#[test]
fn ordinary_letters_are_left_alone() {
    for vkey in [0x41u16, 0x5A, VK_WORD_TOGGLE] {
        assert!(!is_candidate_key(vkey), "vkey {vkey:#x} must fall through");
    }
}

#[test]
fn navigation_keys_reach_the_application_when_nothing_is_composing() {
    for vkey in ARROWS.into_iter().chain([0x23, 0x24, VK_PRIOR, VK_NEXT, 0x2E]) {
        assert!(
            !claims_key(vkey, true, false, false),
            "vkey {vkey:#x} must move the caret when no composition is open"
        );
    }
}

#[test]
fn navigation_keys_close_an_open_composition_instead() {
    for vkey in ARROWS {
        assert!(
            claims_key(vkey, true, true, false),
            "vkey {vkey:#x} should close the composition while one is open"
        );
    }
}

#[test]
fn an_inactive_engine_claims_nothing() {
    for vkey in [0x41u16, 0x30, VK_SPACE, VK_ESCAPE].into_iter().chain(ARROWS) {
        assert!(
            !claims_key(vkey, false, true, true),
            "vkey {vkey:#x} must pass through when no keyboard is loaded"
        );
    }
}

#[test]
fn letters_are_always_claimed_while_active() {
    for vkey in [0x41u16, 0x5A, 0x30, 0x39, VK_SPACE] {
        assert!(claims_key(vkey, true, false, false));
    }
}

#[test]
fn the_popup_claims_its_keys_even_with_no_composition() {
    assert!(claims_key(VK_DIGIT_1, true, false, true));
    assert!(claims_key(VK_ESCAPE, true, false, true));
    assert!(!claims_key(VK_ESCAPE, true, false, false));
}

#[test]
fn every_navigation_key_that_is_also_a_reset_key_is_claimed() {
    for vkey in [VK_ESCAPE, VK_PRIOR, VK_NEXT] {
        assert!(is_buffer_reset_key(vkey));
        assert!(is_candidate_key(vkey));
    }
}

#[test]
fn digit_keys_pick_from_the_current_page() {
    let mut cands = CandidateState::default();
    cands.set(
        (0..12)
            .map(|i| CandidateView { display: format!("c{i} (g)"), value: format!("c{i}") })
            .collect(),
    );
    handle_candidate_key(&mut cands, VK_NEXT, 9);
    assert_eq!(cands.cursor(), 9);
    handle_candidate_key(&mut cands, VK_DIGIT_1 + 1, 9);
    assert!(cands.is_empty(), "a pick closes the list");
}

#[test]
fn test_settings_ids_map_to_modes() {
    assert_eq!(VietnameseMode::from_settings_id("telex"), VietnameseMode::Telex);
    assert_eq!(VietnameseMode::from_settings_id("vni"), VietnameseMode::VNI);
    assert_eq!(VietnameseMode::from_settings_id("nom"), VietnameseMode::Nom);
    assert_eq!(VietnameseMode::from_settings_id("english"), VietnameseMode::English);
}

#[test]
fn test_unknown_method_id_becomes_a_custom_lookup() {
    assert_eq!(
        VietnameseMode::from_settings_id("taynguyen"),
        VietnameseMode::Custom("taynguyen".to_string())
    );
}

// ── the COM server and its sinks ───────────────────────────────────────────

#[test]
fn test_ref_counting() {
    let mut rc = DllRefCount::new();
    let initial = dll_get_ref_count(&rc);
    dll_add_ref(&mut rc);
    assert_eq!(dll_get_ref_count(&rc), initial + 1);
    dll_release(&mut rc);
    assert_eq!(dll_get_ref_count(&rc), initial);
}

#[test]
fn the_dll_unloads_only_when_nothing_holds_it() {
    let mut rc = DllRefCount::new();
    assert!(dll_can_unload(&rc));
    dll_add_ref(&mut rc);
    assert!(!dll_can_unload(&rc));
    dll_release(&mut rc);
    assert!(dll_can_unload(&rc));
}

#[test]
fn teardown_unadvises_everything_once() {
    let mut sinks = SinkCookies::new();
    sinks.key_sink_advised(7);
    sinks.thread_sink_advised(11);
    sinks.thread_sink_advised(12);
    sinks.openclose_advised(13);
    let first = sinks.teardown();
    assert_eq!(first.key_sink_tid, Some(7));
    assert_eq!(first.thread_cookies, vec![11, 12]);
    assert_eq!(first.openclose_cookie, Some(13));
    let second = sinks.teardown();
    assert_eq!(second.key_sink_tid, None);
    assert!(second.thread_cookies.is_empty());
    assert_eq!(second.openclose_cookie, None);
    let mut invalid = SinkCookies::new();
    invalid.openclose_advised(TF_INVALID_COOKIE);
    assert_eq!(invalid.teardown().openclose_cookie, None);
}

#[test]
fn keystrokes_are_logged_only_when_asked() {
    assert_eq!(logging_level(false, false), LogLevel::Warn);
    assert_eq!(logging_level(false, true), LogLevel::Debug);
    assert_eq!(logging_level(true, false), LogLevel::Debug);
}

// ── who owns the method ────────────────────────────────────────────────────

#[test]
fn adr_0003_ownership_table() {
    assert_eq!(owner_of(SurfacePath::LinuxIbus), MethodOwner::Os);
    assert_eq!(owner_of(SurfacePath::LinuxFcitx5), MethodOwner::Os);
    assert_eq!(owner_of(SurfacePath::MacosImkit), MethodOwner::Os);
    assert_eq!(owner_of(SurfacePath::LinuxWaylandNative), MethodOwner::Buttre);
    assert_eq!(owner_of(SurfacePath::Windows), MethodOwner::Buttre);
    assert_eq!(owner_of(SurfacePath::LinuxUndetected), MethodOwner::Buttre);
    assert_eq!(owner_of(SurfacePath::LinuxFcitx5NoAddon), MethodOwner::Buttre);
}

#[test]
fn kwin_managed_wayland_owns_the_choice() {
    assert_eq!(decide(true, Some(ImeBackend::IBus), false), MethodOwner::Buttre);
    assert_eq!(decide(false, Some(ImeBackend::IBus), false), MethodOwner::Os);
    assert_eq!(decide(false, Some(ImeBackend::Fcitx5), false), MethodOwner::Buttre);
    assert_eq!(decide(false, Some(ImeBackend::Fcitx5), true), MethodOwner::Os);
    assert_eq!(decide(false, None, false), MethodOwner::Buttre);
}

// ── the Windows backend ───────────────────────────────────────────────────

#[test]
fn backend_mode_falls_back_to_the_hook() {
    assert_eq!(select_mode(true, true), BackendMode::Both);
    assert_eq!(select_mode(true, false), BackendMode::Tsf);
    assert_eq!(select_mode(false, true), BackendMode::Hook);
    assert_eq!(mode_name(BackendMode::Both), "TSF+Hook");
}

#[test]
fn a_saved_method_that_vanished_falls_back_to_english() {
    let available = vec!["telex".to_string(), "vni".to_string()];
    assert_eq!(startup_method("vni", &available), ("vni".to_string(), false));
    assert_eq!(startup_method("english", &available), ("english".to_string(), false));
    assert_eq!(startup_method("cham", &available), ("english".to_string(), true));
}

// ── OnKeyDown plans ────────────────────────────────────────────────────────

fn mods(ctrl: bool, shift: bool, alt: bool) -> KeyMods {
    KeyMods { ctrl, shift, alt }
}

#[test]
fn the_popup_gets_first_refusal_but_shortcuts_stay_the_applications() {
    let none = mods(false, false, false);
    assert_eq!(route_key_down(VK_ESCAPE, none, true), KeyDownRoute::Candidates);
    assert_eq!(route_key_down(VK_ESCAPE, none, false), KeyDownRoute::ResetKey);
    assert_eq!(route_key_down(VK_DIGIT_1, mods(true, false, false), true), KeyDownRoute::PassThrough);
    assert_eq!(route_key_down(VK_WORD_TOGGLE, mods(true, true, false), false), KeyDownRoute::WordToggle);
    assert_eq!(route_key_down(VK_WORD_TOGGLE, mods(true, true, true), false), KeyDownRoute::PassThrough);
    assert_eq!(route_key_down(0x41, none, false), KeyDownRoute::Translate);
    assert!(!test_key_down(0x41, mods(true, false, false), true, false, false));
    assert!(test_key_down(VK_SPACE, mods(true, false, false), true, false, false));
}

#[test]
fn a_reset_key_writes_the_repair_then_ends_the_word() {
    let plan = plan_reset_key(true, Some("tiếng".to_string()));
    assert!(!plan.handled, "the key itself still moves the caret");
    assert_eq!(
        plan.ops,
        vec![
            TsfOp::WriteText { text: "tiếng".to_string(), cursor: 5, on_error: OnError::Continue },
            TsfOp::EndComposition { on_error: OnError::Continue },
            TsfOp::ResetEngine,
            TsfOp::HideCandidates,
        ]
    );
    assert_eq!(plan_reset_key(false, None).ops, vec![TsfOp::ResetEngine, TsfOp::HideCandidates]);
}

#[test]
fn enter_without_a_composition_does_nothing() {
    assert!(plan_enter(false, Some("x".to_string())).ops.is_empty());
    assert_eq!(plan_enter(true, None).ops.len(), 3);
}

#[test]
fn the_word_toggle_eats_the_chord_only_when_it_flips_something() {
    let plan = plan_word_toggle(Some(EngineAction::UpdateComposition {
        text: "vieetj".to_string(),
        cursor: 6,
    }));
    assert!(plan.handled);
    assert_eq!(plan.ops.len(), 1);
    let nothing = plan_word_toggle(None);
    assert!(!nothing.handled && nothing.ops.is_empty());
}

#[test]
fn backspace_rewrites_the_whole_composition() {
    let replace = EngineAction::Replace { backspace_count: 1, text: "vi".to_string() };
    let plan = plan_backspace(&replace, "viê", true);
    assert!(plan.handled);
    assert_eq!(
        plan.ops,
        vec![TsfOp::WriteText {
            text: "viê".to_string(),
            cursor: 3,
            on_error: OnError::Stop { handled: false }
        }]
    );
    let emptied = plan_backspace(&replace, "", true);
    assert_eq!(emptied.ops, vec![TsfOp::EndComposition { on_error: OnError::Continue }]);
    let other = plan_backspace(&EngineAction::DoNothing, "viê", true);
    assert!(!other.handled, "the application deletes the character itself");
}

#[test]
fn a_committed_separator_ends_the_word_and_inserts_itself() {
    let plan = plan_actions(&vec![
        EngineAction::ConfirmComposition("việt".to_string()),
        EngineAction::Commit(" ".to_string()),
    ]);
    assert!(plan.handled);
    assert_eq!(plan.ops[0], TsfOp::WriteText { text: "việt".to_string(), cursor: 4, on_error: OnError::Continue });
    assert!(plan.ops.contains(&TsfOp::InsertText(" ".to_string())));
    let idle = plan_actions(&vec![EngineAction::DoNothing]);
    assert!(!idle.handled && idle.ops.is_empty());
}
