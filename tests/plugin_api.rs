use cjsh_plugin::abi::{
    create_plugin_string, plugin_args_t, plugin_error_t, plugin_string_from, PLUGIN_INTERFACE_VERSION,
};
use cjsh_plugin::plugin::{
    classify, current_time_callback, join_args, plugin_get_commands, plugin_get_default_settings,
    plugin_get_info, plugin_get_subscribed_events, plugin_handle_command, plugin_initialize,
    plugin_shutdown, plugin_update_setting, prompt_variable_names, random_quote_callback,
    uptime_callback, uptime_text, CommandKind, CommandReply, PluginState,
};
use cjsh_plugin::quotes::{quote_list, quote_text, random_quote};
use cjsh_plugin::text::{decimal_string, join_strings};

fn strings(v: &[&str]) -> Vec<String> {
    v.iter().map(|s| s.to_string()).collect()
}

fn args_of(v: &[&str]) -> plugin_args_t {
    let args = strings(v);
    let count = args.len() as i32;
    plugin_args_t { args, count, position: 0 }
}

#[test]
fn error_codes_are_stable() {
    assert_eq!(plugin_error_t::PLUGIN_SUCCESS.code(), 0);
    assert_eq!(plugin_error_t::PLUGIN_ERROR_GENERAL.code(), -1);
    assert_eq!(plugin_error_t::PLUGIN_ERROR_INVALID_ARGS.code(), -2);
    assert_eq!(plugin_error_t::PLUGIN_ERROR_NOT_IMPLEMENTED.code(), -3);
    assert_eq!(plugin_error_t::PLUGIN_ERROR_OUT_OF_MEMORY.code(), -4);
    assert_eq!(plugin_error_t::PLUGIN_ERROR_NULL_POINTER.code(), -5);
    assert_eq!(plugin_error_t::from_code(-5), Some(plugin_error_t::PLUGIN_ERROR_NULL_POINTER));
    assert_eq!(plugin_error_t::from_code(0), Some(plugin_error_t::PLUGIN_SUCCESS));
    assert_eq!(plugin_error_t::from_code(1), None);
    assert_eq!(plugin_error_t::from_code(-6), None);
}

#[test]
fn plugin_string_layout() {
    let s = create_plugin_string("abc");
    assert_eq!(s.data, vec![97u8, 98, 99, 0]);
    assert_eq!(s.length, 3);
    assert_eq!(s.capacity, 4);
    let e = create_plugin_string("");
    assert_eq!(e.data, vec![0u8]);
    assert_eq!(e.length, 0);
    assert_eq!(e.capacity, 1);
}

#[test]
fn plugin_string_with_nul_becomes_empty() {
    let s = plugin_string_from("a\0b");
    assert!(s.data.is_empty());
    assert_eq!(s.length, 0);
    assert_eq!(s.capacity, 0);
    let t = plugin_string_from("héllo");
    assert_eq!(t.length, 6);
    assert_eq!(t.capacity, 7);
    assert_eq!(t.data.last(), Some(&0u8));
}

#[test]
fn joining_and_decimals() {
    let parts = strings(&["echo", "a", "b", "c"]);
    assert_eq!(join_strings(&parts, 1, " "), "a b c");
    assert_eq!(join_strings(&parts, 3, ", "), "c");
    assert_eq!(join_strings(&parts, 4, " "), "");
    assert_eq!(join_args(&args_of(&["x", "1", "2"]), 0, "-"), "x-1-2");
    assert_eq!(decimal_string(0), "0");
    assert_eq!(decimal_string(1234567890), "1234567890");
    assert_eq!(decimal_string(u64::MAX), "18446744073709551615");
    assert_eq!(uptime_text(42), "42s");
}

#[test]
fn info_reports_interface_version() {
    let info = plugin_get_info();
    assert_eq!(info.name, "example_rust_plugin");
    assert_eq!(info.version, "1.0.0");
    assert_eq!(info.author, "Caden Finley");
    assert_eq!(info.interface_version, PLUGIN_INTERFACE_VERSION);
    assert_eq!(info.interface_version, 3);
}

#[test]
fn declared_names() {
    assert_eq!(
        plugin_get_commands(),
        strings(&["hello", "echo", "settings", "history", "quote", "time", "uptime", "help"])
    );
    assert_eq!(plugin_get_subscribed_events().len(), 6);
    assert_eq!(plugin_get_subscribed_events()[0], "main_process_pre_run");
    assert_eq!(prompt_variable_names(), strings(&["CURRENT_TIME", "PLUGIN_UPTIME", "RANDOM_QUOTE"]));
}

#[test]
fn hello_and_unknown_commands() {
    let mut st = PluginState::new();
    assert_eq!(plugin_initialize(&mut st), 0);
    assert!(plugin_get_commands().contains(&"hello".to_string()));
    assert!(plugin_get_commands().contains(&"echo".to_string()));
    let r = plugin_handle_command(&mut st, &args_of(&["hello"]));
    assert!(matches!(r, CommandReply::Greeting));
    assert_eq!(r.status(), plugin_error_t::PLUGIN_SUCCESS.code());
    let u = plugin_handle_command(&mut st, &args_of(&["unknown"]));
    assert!(matches!(&u, CommandReply::Unknown { command } if command == "unknown"));
    assert_eq!(u.status(), plugin_error_t::PLUGIN_ERROR_INVALID_ARGS.code());
    assert_eq!(st.command_history, strings(&["hello", "unknown"]));
}

#[test]
fn empty_argument_vector_is_invalid() {
    let mut st = PluginState::new();
    let r = plugin_handle_command(&mut st, &args_of(&[]));
    assert!(matches!(r, CommandReply::MissingCommand));
    assert_eq!(r.status(), -2);
    assert!(st.command_history.is_empty());
}

#[test]
fn echo_history_and_settings_commands() {
    let mut st = PluginState::new();
    plugin_initialize(&mut st);
    let e = plugin_handle_command(&mut st, &args_of(&["echo", "hi", "there"]));
    assert!(matches!(&e, CommandReply::Echo { text } if text == "hi there"));
    let e0 = plugin_handle_command(&mut st, &args_of(&["echo"]));
    assert!(matches!(&e0, CommandReply::Echo { text } if text.is_empty()));
    plugin_get_default_settings(&mut st);
    let s = plugin_handle_command(&mut st, &args_of(&["settings"]));
    match s {
        CommandReply::Settings { entries } => {
            assert_eq!(entries.len(), 3);
            assert_eq!(entries[0].key, "show_time_in_prompt");
            assert_eq!(entries[0].value, "true");
        }
        _ => panic!("settings reply expected"),
    }
    let h = plugin_handle_command(&mut st, &args_of(&["history"]));
    match h {
        CommandReply::History { commands } => {
            assert_eq!(commands, strings(&["echo", "echo", "settings", "history"]))
        }
        _ => panic!("history reply expected"),
    }
    assert!(matches!(plugin_handle_command(&mut st, &args_of(&["help"])), CommandReply::Help));
}

#[test]
fn event_command() {
    let mut st = PluginState::new();
    let r = plugin_handle_command(&mut st, &args_of(&["event", "plugin_enabled", "x", "y"]));
    match r {
        CommandReply::Event { name, args } => {
            assert_eq!(name, "plugin_enabled");
            assert_eq!(args, strings(&["x", "y"]));
        }
        _ => panic!("event reply expected"),
    }
    let n = plugin_handle_command(&mut st, &args_of(&["event"]));
    assert!(matches!(n, CommandReply::EventWithoutName));
    assert_eq!(n.status(), 0);
}

#[test]
fn quote_time_and_uptime_commands() {
    let mut st = PluginState::new();
    plugin_initialize(&mut st);
    let quotes = quote_list();
    match plugin_handle_command(&mut st, &args_of(&["quote"])) {
        CommandReply::Quote { text } => assert!(quotes.contains(&text)),
        _ => panic!("quote reply expected"),
    }
    match plugin_handle_command(&mut st, &args_of(&["uptime"])) {
        CommandReply::Uptime { text } => {
            assert!(text.ends_with('s'));
            assert!(text[..text.len() - 1].chars().all(|c| c.is_ascii_digit()));
        }
        _ => panic!("uptime reply expected"),
    }
    match plugin_handle_command(&mut st, &args_of(&["time"])) {
        CommandReply::Time { text } => assert!(!text.is_empty()),
        _ => panic!("time reply expected"),
    }
}

#[test]
fn classification() {
    assert_eq!(classify(&"hello".to_string()), CommandKind::Hello);
    assert_eq!(classify(&"event".to_string()), CommandKind::Event);
    assert_eq!(classify(&"Hello".to_string()), CommandKind::Unknown);
}

#[test]
fn callbacks_return_wire_strings() {
    let quotes = quote_list();
    for _ in 0..20 {
        let q = random_quote_callback();
        assert_eq!(q.capacity, q.length + 1);
        let text = String::from_utf8(q.data[..q.length as usize].to_vec()).unwrap();
        assert!(quotes.contains(&text));
        assert!(quotes.contains(&random_quote()));
    }
    let st = PluginState::new();
    let u = uptime_callback(&st);
    assert_eq!(u.data.last(), Some(&0u8));
    assert_eq!(u.data[u.length as usize - 1], b's');
    let t = current_time_callback();
    assert!(t.length > 0);
    assert_eq!(quote_text(None), "");
    assert_eq!(quote_text(Some("q".to_string())), "q");
}

#[test]
fn default_settings_are_stored() {
    let mut st = PluginState::new();
    let d = plugin_get_default_settings(&mut st);
    let pairs: Vec<(String, String)> = d.iter().map(|s| (s.key.clone(), s.value.clone())).collect();
    assert_eq!(
        pairs,
        vec![
            ("show_time_in_prompt".to_string(), "true".to_string()),
            ("quote_refresh_interval".to_string(), "60".to_string()),
            ("enable_background_tasks".to_string(), "true".to_string()),
        ]
    );
    assert_eq!(st.settings.len(), 3);
    plugin_get_default_settings(&mut st);
    assert_eq!(st.settings.len(), 3);
}

#[test]
fn disabling_background_tasks_stops_the_worker() {
    let mut st = PluginState::new();
    plugin_initialize(&mut st);
    assert!(st.background_thread_running);
    let r = plugin_update_setting(
        &mut st,
        Some("enable_background_tasks".to_string()),
        Some("false".to_string()),
    );
    assert_eq!(r, 0);
    assert!(!st.background_thread_running);
    assert_eq!(st.settings[0].value, "false");
    plugin_update_setting(&mut st, Some("enable_background_tasks".to_string()), Some("true".to_string()));
    assert!(st.background_thread_running);
}

#[test]
fn update_setting_refusals() {
    let mut st = PluginState::new();
    assert_eq!(plugin_update_setting(&mut st, None, Some("x".to_string())), -2);
    assert_eq!(plugin_update_setting(&mut st, Some("quote_refresh_interval".to_string()), None), -2);
    assert_eq!(plugin_update_setting(&mut st, Some("no_such_key".to_string()), Some("1".to_string())), -2);
    assert!(st.settings.is_empty());
    assert_eq!(
        plugin_update_setting(&mut st, Some("quote_refresh_interval".to_string()), Some("30".to_string())),
        0
    );
    assert_eq!(st.settings.len(), 1);
    assert_eq!(st.settings[0].value, "30");
}

#[test]
fn shutdown_stops_and_clears() {
    let mut st = PluginState::new();
    plugin_initialize(&mut st);
    plugin_handle_command(&mut st, &args_of(&["hello"]));
    plugin_shutdown(&mut st);
    assert!(!st.background_thread_running);
    assert!(st.command_history.is_empty());
}
