use stremio_shell::browser::{
    cursor_of, on_cursor_change, on_load_end, on_popup, on_process_message, post_message_script,
    CursorType, WebViewEvent,
};
use stremio_shell::config::{join_path, Config, InstanceConfig, MpvConfig, ServerConfig, TrayConfig, WebViewConfig};
use stremio_shell::decimal::{parse_i64, parse_u64, u64_text};
use stremio_shell::gpu::{get_gpu_switches, is_card_entry, vendor_from_pci_id, vendor_from_pci_line, GpuVendor};
use stremio_shell::keys::{
    get_anime4k_shader_command, key_events, mode_label, shader_hotkey, zoom_step, Key, KeyEventKind,
    NativeKeyCode, WindowsKeyCode, ZoomStep,
};
use stremio_shell::player::{EndError, NativeEvent, NativeValue, Player, PlayerAction, PlayerEvent};
use stremio_shell::property::{MpvProperty, MpvPropertyValue, PropertyClass, PropertyError};
use stremio_shell::types::{click_action, mouse_event, ClickAction, ClickButton, Cursor, MouseButton, MouseDelta, MousePosition, MouseState};

#[test]
fn command_without_engine_is_a_no_op() {
    let player = Player::new();
    assert!(player.command("keypress".to_string(), vec!["a".to_string()]).is_none());
    assert!(player.render(8, 4, 4).is_none());
    assert!(player.report_swap().is_none());
    assert!(player.observe_property("volume".to_string()).is_none());
}

#[test]
fn player_actions_once_set_up() {
    let mut player = Player::new();
    player.setup();
    assert!(!player.render_ready);
    player.engine_started();
    match player.command("keypress".to_string(), vec!["a".to_string()]) {
        Some(PlayerAction::Command(n, a)) => {
            assert_eq!(n, "keypress");
            assert_eq!(a, vec!["a".to_string()]);
        }
        other => panic!("unexpected {:?}", other),
    }
    assert!(player.render(8, 4, 4).is_none());
    player.setup();
    assert!(matches!(player.render(8, 4, 4), Some(PlayerAction::Render { fbo: 8, width: 4, height: 4 })));
    assert!(matches!(player.report_swap(), Some(PlayerAction::ReportSwap)));
    assert!(matches!(
        player.observe_property("pause".to_string()),
        Some(PlayerAction::Observe(_, PropertyClass::Bool))
    ));
    assert!(player.observe_property("unknown".to_string()).is_none());
    player.stop();
    assert!(player.render(8, 4, 4).is_none());
}

#[test]
fn set_property_checks_the_class() {
    let mut player = Player::new();
    let p = MpvProperty("pause".to_string(), MpvPropertyValue::Bool(true));
    assert!(matches!(player.set_property(p), Ok(None)));
    player.engine_started();
    let p = MpvProperty("pause".to_string(), MpvPropertyValue::Bool(true));
    assert!(matches!(player.set_property(p), Ok(Some(PlayerAction::SetProperty(_)))));
    let p = MpvProperty("volume".to_string(), MpvPropertyValue::Bool(true));
    assert!(matches!(player.set_property(p), Err(PropertyError::WrongType)));
    let p = MpvProperty("nope".to_string(), MpvPropertyValue::Bool(true));
    assert!(matches!(player.set_property(p), Err(PropertyError::UnknownName)));
}

#[test]
fn native_events_map_to_player_events() {
    assert!(matches!(PlayerEvent::from_native(NativeEvent::StartFile), Some(PlayerEvent::Start)));
    assert!(matches!(
        PlayerEvent::from_native(NativeEvent::EndFile(3)),
        Some(PlayerEvent::Stop(Some(EndError::Quit)))
    ));
    assert!(matches!(
        PlayerEvent::from_native(NativeEvent::EndFile(4)),
        Some(PlayerEvent::Stop(Some(EndError::General)))
    ));
    assert!(matches!(PlayerEvent::from_native(NativeEvent::EndFile(0)), Some(PlayerEvent::Stop(None))));
    match PlayerEvent::from_native(NativeEvent::PropertyChange("volume".to_string(), NativeValue::Double("50".to_string()))) {
        Some(PlayerEvent::PropertyChange(MpvProperty(n, MpvPropertyValue::Float(t)))) => {
            assert_eq!(n, "volume");
            assert_eq!(t, "50");
        }
        other => panic!("unexpected {:?}", other),
    }
    assert!(PlayerEvent::from_native(NativeEvent::PropertyChange("x".to_string(), NativeValue::Other)).is_none());
    assert!(PlayerEvent::from_native(NativeEvent::Other).is_none());
    assert_eq!(EndError::Quit.message_key(), "player_error_quit");
    assert_eq!(EndError::General.message_key(), "player_error_general");
}

#[test]
fn browser_callbacks() {
    assert!(matches!(on_cursor_change(CursorType::Hand), WebViewEvent::Cursor(Cursor::Pointer)));
    assert_eq!(cursor_of(CursorType::NoCursor), Cursor::Hidden);
    assert_eq!(cursor_of(CursorType::Other), Cursor::Default);
    assert!(matches!(on_load_end(true, 200), Some(WebViewEvent::Loaded)));
    assert!(on_load_end(true, 404).is_none());
    assert!(on_load_end(false, 200).is_none());
    assert!(matches!(on_process_message("READY", String::new()), Some(WebViewEvent::Ready)));
    match on_process_message("IPC", "{}".to_string()) {
        Some(WebViewEvent::Ipc(s)) => assert_eq!(s, "{}"),
        _ => panic!("expected a page message"),
    }
    assert!(on_process_message("OTHER", String::new()).is_none());
}

#[test]
fn popup_urls_are_parsed() {
    match on_popup("https://Example.com") {
        Some(WebViewEvent::Open(u)) => assert_eq!(u, "https://example.com/"),
        _ => panic!("expected an open intent"),
    }
    assert!(on_popup("not a url").is_none());
}

#[test]
fn message_script_quotes_the_message() {
    assert_eq!(post_message_script("{\"a\":1}"), "__postMessage(\"{\\\"a\\\":1}\")");
}

#[test]
fn decimal_numbers() {
    assert_eq!(parse_u64("0"), Some(0));
    assert_eq!(parse_u64("18446744073709551615"), Some(u64::MAX));
    assert_eq!(parse_u64("18446744073709551616"), None);
    assert_eq!(parse_u64(""), None);
    assert_eq!(parse_u64("1a"), None);
    assert_eq!(parse_i64("-9223372036854775808"), Some(i64::MIN));
    assert_eq!(parse_i64("+12"), Some(12));
    assert_eq!(parse_i64("9223372036854775808"), None);
    assert_eq!(parse_i64("-"), None);
    assert_eq!(u64_text(0), "0");
    assert_eq!(u64_text(1234567890), "1234567890");
}

#[test]
fn gpu_switches_by_vendor() {
    let intel = get_gpu_switches(GpuVendor::Intel);
    assert_eq!(intel.len(), 9);
    assert_eq!(intel[0], "disable-background-networking");
    assert_eq!(intel[8], "enable-zero-copy");
    assert_eq!(get_gpu_switches(GpuVendor::Nvidia)[5], "enable-gpu-rasterization");
    assert_eq!(get_gpu_switches(GpuVendor::Amd).len(), 8);
    assert_eq!(get_gpu_switches(GpuVendor::Unknown), vec![
        "disable-background-networking",
        "disable-component-update",
        "disable-sync",
        "disable-notifications",
        "disable-default-apps",
        "disable-cuda",
        "enable-gpu-rasterization",
    ]);
}

#[test]
fn gpu_vendor_detection() {
    assert_eq!(vendor_from_pci_line("00:02.0 VGA compatible controller: Intel Corporation UHD"), Some(GpuVendor::Intel));
    assert_eq!(vendor_from_pci_line("01:00.0 3D controller: NVIDIA Corporation"), Some(GpuVendor::Nvidia));
    assert_eq!(vendor_from_pci_line("03:00.0 Display controller: Advanced Micro Devices [AMD]"), Some(GpuVendor::Amd));
    assert_eq!(vendor_from_pci_line("00:1f.3 Audio device: Intel Corporation"), None);
    assert_eq!(vendor_from_pci_id("0x8086"), GpuVendor::Intel);
    assert_eq!(vendor_from_pci_id("0x10de"), GpuVendor::Nvidia);
    assert_eq!(vendor_from_pci_id("0x1002"), GpuVendor::Amd);
    assert_eq!(vendor_from_pci_id("0x1234"), GpuVendor::Unknown);
    assert!(is_card_entry("card0"));
    assert!(!is_card_entry("card0-DP-1"));
    assert!(!is_card_entry("renderD128"));
}

#[test]
fn config_paths() {
    assert_eq!(join_path("/run/user/1000/stremio", "stremio.sock"), "/run/user/1000/stremio/stremio.sock");
    assert_eq!(join_path("/data/", "x"), "/data/x");
    assert_eq!(join_path("", "x"), "x");
    assert_eq!(InstanceConfig::new("/run").socket_file, "/run/stremio.sock");
    assert_eq!(ServerConfig::new("/opt/app").file, "/opt/app/server.js");
    let w = WebViewConfig::new("/data");
    assert_eq!(w.cache_dir, "/data/cef/cache");
    assert_eq!(w.log_file, "/data/cef/log");
    assert_eq!(w.lock_file, "/data/cef/cache/SingletonLock");
    assert_eq!(TrayConfig::new("/run").icon_path, "/run/tray");
    assert_eq!(MpvConfig::new("/data").config_dir_str(), "/data/mpv-portable");
    let c = Config::new("/data", "/run", "/opt/app");
    assert_eq!(c.player.config_dir, "/data/mpv-portable");
    assert_eq!(c.tray.icon_path, "/run/tray");
}

#[test]
fn key_codes() {
    assert_eq!(WindowsKeyCode::try_from_key(Key::KeyA), Some(WindowsKeyCode(65)));
    assert_eq!(NativeKeyCode::try_from_key(Key::KeyA), Some(NativeKeyCode(38)));
    assert_eq!(WindowsKeyCode::try_from_key(Key::Minus), Some(WindowsKeyCode(173)));
    assert_eq!(NativeKeyCode::try_from_key(Key::F12), Some(NativeKeyCode(96)));
    assert_eq!(WindowsKeyCode::try_from_key(Key::Other), None);
    let events = key_events(Key::KeyA, true, true, Some('a'));
    assert_eq!(events.len(), 2);
    assert_eq!(events[0].kind, KeyEventKind::KeyDown);
    assert_eq!(events[0].modifiers, 4);
    assert_eq!(events[1].kind, KeyEventKind::Char);
    assert_eq!(events[1].character, 'a' as u32);
    let events = key_events(Key::Other, false, false, Some('a'));
    assert!(events.is_empty());
}

#[test]
fn shader_hotkeys() {
    assert_eq!(get_anime4k_shader_command(Key::Digit0), Some(("clr", "Shaders cleared")));
    assert!(get_anime4k_shader_command(Key::Digit7).is_none());
    assert_eq!(mode_label(Key::Digit3), "Anime4K: Mode C (Fast)");
    let cmds = shader_hotkey(Key::Digit0, true, true).unwrap();
    assert_eq!(cmds[0].0, "change-list");
    assert_eq!(cmds[0].1, vec!["glsl-shaders".to_string(), "clr".to_string(), String::new()]);
    assert_eq!(cmds[1].1, vec!["Shaders cleared".to_string()]);
    let cmds = shader_hotkey(Key::Digit1, true, true).unwrap();
    assert_eq!(cmds[0].1[1], "set");
    assert!(cmds[0].1[2].starts_with("~~/shaders/anime4k/Restore/Anime4K_Clamp_Highlights.glsl;"));
    assert_eq!(cmds[1].1, vec!["Anime4K: Mode A (HQ)".to_string()]);
    assert!(shader_hotkey(Key::Digit1, false, true).is_none());
    assert!(shader_hotkey(Key::Digit1, true, false).is_none());
}

#[test]
fn mouse_events_and_clicks() {
    let mut s = MouseState::default();
    s.position = MousePosition(3, 4);
    s.delta = MouseDelta(0, 1);
    s.pressed = true;
    let e = mouse_event(&s);
    assert_eq!((e.x, e.y, e.modifiers), (3, 4, 16));
    s.button = MouseButton::Middle;
    assert_eq!(mouse_event(&s).modifiers, 64);
    s.pressed = false;
    assert_eq!(mouse_event(&s).modifiers, 0);
    assert_eq!(click_action(&s), ClickAction::Click(ClickButton::Middle));
    s.button = MouseButton::Back;
    assert_eq!(click_action(&s), ClickAction::GoBack);
    s.pressed = true;
    assert_eq!(click_action(&s), ClickAction::Ignore);
}

fn strings(v: &[&str]) -> Vec<String> {
    v.iter().map(|s| s.to_string()).collect()
}

#[test]
fn presence_while_watching_a_series() {
    let args = strings(&[
        "watching", "series", "Show", "2", "5", "Pilot", "thumb.png", "poster.png", "60", "1500", "no",
        "https://imdb", "",
    ]);
    match stremio_shell::presence::presence_for(&args) {
        stremio_shell::presence::PresenceAction::Show(p) => {
            assert_eq!(p.details, "Show");
            assert_eq!(p.state, "Pilot (S2-E5)");
            assert_eq!(p.times, Some((60, 1500)));
            assert_eq!(p.large_image, "poster.png");
            assert_eq!(p.small, Some(("thumb.png".to_string(), "Pilot".to_string())));
            assert_eq!(p.buttons, vec![("More Details".to_string(), "https://imdb".to_string())]);
        }
        other => panic!("unexpected {:?}", other),
    }
}

#[test]
fn presence_paused_movie_and_pages() {
    let args = strings(&["watching", "movie", "Film", "", "", "", "", "img", "x", "9", "yes"]);
    match stremio_shell::presence::presence_for(&args) {
        stremio_shell::presence::PresenceAction::Show(p) => {
            assert_eq!(p.state, "Paused");
            assert_eq!(p.times, None);
            assert_eq!(p.small, None);
        }
        other => panic!("unexpected {:?}", other),
    }
    let args = strings(&["watching", "movie", "Film", "", "", "", "", "img", "x", "9"]);
    match stremio_shell::presence::presence_for(&args) {
        stremio_shell::presence::PresenceAction::Show(p) => {
            assert_eq!(p.state, "Enjoying a Movie");
            assert_eq!(p.times, Some((0, 9)));
        }
        other => panic!("unexpected {:?}", other),
    }
    match stremio_shell::presence::presence_for(&strings(&["board"])) {
        stremio_shell::presence::PresenceAction::Show(p) => {
            assert_eq!(p.details, "Resuming Favorites");
            assert_eq!(p.large_text, "Stremio");
        }
        other => panic!("unexpected {:?}", other),
    }
    match stremio_shell::presence::presence_for(&strings(&["meta-detail", "movie", "T", "i.png"])) {
        stremio_shell::presence::PresenceAction::Show(p) => assert_eq!(p.state, "Exploring a Movie"),
        other => panic!("unexpected {:?}", other),
    }
    assert!(matches!(stremio_shell::presence::presence_for(&strings(&["clear"])), stremio_shell::presence::PresenceAction::Clear));
    assert!(matches!(stremio_shell::presence::presence_for(&strings(&["watching"])), stremio_shell::presence::PresenceAction::Keep));
    assert!(matches!(stremio_shell::presence::presence_for(&vec![]), stremio_shell::presence::PresenceAction::Keep));
    assert_eq!(stremio_shell::presence::presence_window(1000, 60, 100), Some((940, 1040)));
    assert_eq!(stremio_shell::presence::presence_window(i64::MIN, 1, 0), None);
}

#[test]
fn zoom_shortcuts() {
    assert_eq!(zoom_step(true, 4, 61), Some(ZoomStep::In));
    assert_eq!(zoom_step(true, 4, 173), Some(ZoomStep::Out));
    assert_eq!(zoom_step(false, 4, 61), None);
    assert_eq!(zoom_step(true, 6, 61), None);
    assert_eq!(zoom_step(true, 4, 65), None);
}
