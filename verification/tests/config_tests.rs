use wasmtime_rb::config::{
    conversion_needed, decode_entry, hash_to_config, invalid_target, option_from_name, ConfigEntry,
    ConfigOption, ConfigSetting, OptLevel, ProfilingStrategy, RubyValue, ValueConversion,
    WasmBacktraceDetails,
};
use wasmtime_rb::error::ErrorKind;

fn ruby_bool(b: bool) -> RubyValue {
    RubyValue {
        truthy: b,
        integer: None,
        string: None,
        symbol: None,
        display: b.to_string(),
        inspect: b.to_string(),
    }
}

fn ruby_nil() -> RubyValue {
    RubyValue {
        truthy: false,
        integer: None,
        string: None,
        symbol: None,
        display: String::new(),
        inspect: "nil".to_string(),
    }
}

fn ruby_int(n: usize) -> RubyValue {
    RubyValue {
        truthy: true,
        integer: Some(n),
        string: None,
        symbol: None,
        display: n.to_string(),
        inspect: n.to_string(),
    }
}

fn ruby_str(s: &str) -> RubyValue {
    RubyValue {
        truthy: true,
        integer: None,
        string: Some(s.to_string()),
        symbol: None,
        display: s.to_string(),
        inspect: format!("{:?}", s),
    }
}

fn ruby_sym(s: &str) -> RubyValue {
    RubyValue {
        truthy: true,
        integer: None,
        string: None,
        symbol: Some(s.to_string()),
        display: s.to_string(),
        inspect: format!(":{}", s),
    }
}

fn entry(name: &str, value: RubyValue) -> ConfigEntry {
    ConfigEntry { name: name.to_string(), name_inspect: format!(":{}", name), value }
}

#[test]
fn option_names_select_their_options() {
    let cases = [
        ("debug_info", ConfigOption::DebugInfo),
        ("wasm_backtrace_details", ConfigOption::WasmBacktraceDetails),
        ("native_unwind_info", ConfigOption::NativeUnwindInfo),
        ("consume_fuel", ConfigOption::ConsumeFuel),
        ("epoch_interruption", ConfigOption::EpochInterruption),
        ("max_wasm_stack", ConfigOption::MaxWasmStack),
        ("wasm_threads", ConfigOption::WasmThreads),
        ("wasm_multi_memory", ConfigOption::WasmMultiMemory),
        ("wasm_memory64", ConfigOption::WasmMemory64),
        ("profiler", ConfigOption::Profiler),
        ("cranelift_opt_level", ConfigOption::CraneliftOptLevel),
        ("parallel_compilation", ConfigOption::ParallelCompilation),
        ("target", ConfigOption::Target),
    ];
    for (name, option) in cases {
        assert_eq!(option_from_name(name), Some(option));
    }
    assert_eq!(option_from_name("debug"), None);
    assert_eq!(option_from_name("Debug_info"), None);
    assert_eq!(option_from_name(""), None);
}

#[test]
fn boolean_options_take_truthiness() {
    match decode_entry(&entry("debug_info", ruby_bool(true))) {
        Ok(ConfigSetting::DebugInfo(true)) => {},
        other => panic!("unexpected {:?}", other),
    }
    match decode_entry(&entry("consume_fuel", ruby_nil())) {
        Ok(ConfigSetting::ConsumeFuel(false)) => {},
        other => panic!("unexpected {:?}", other),
    }
    // Any value other than nil and false is true, even a string.
    match decode_entry(&entry("wasm_threads", ruby_str("no"))) {
        Ok(ConfigSetting::WasmThreads(true)) => {},
        other => panic!("unexpected {:?}", other),
    }
    match decode_entry(&entry("epoch_interruption", ruby_int(0))) {
        Ok(ConfigSetting::EpochInterruption(true)) => {},
        other => panic!("unexpected {:?}", other),
    }
}

#[test]
fn backtrace_details_follow_truthiness() {
    match decode_entry(&entry("wasm_backtrace_details", ruby_bool(true))) {
        Ok(ConfigSetting::WasmBacktraceDetails(WasmBacktraceDetails::Enable)) => {},
        other => panic!("unexpected {:?}", other),
    }
    match decode_entry(&entry("wasm_backtrace_details", ruby_bool(false))) {
        Ok(ConfigSetting::WasmBacktraceDetails(WasmBacktraceDetails::Disable)) => {},
        other => panic!("unexpected {:?}", other),
    }
}

#[test]
fn max_wasm_stack_needs_an_integer() {
    match decode_entry(&entry("max_wasm_stack", ruby_int(1 << 20))) {
        Ok(ConfigSetting::MaxWasmStack(n)) => assert_eq!(n, 1 << 20),
        other => panic!("unexpected {:?}", other),
    }
    match decode_entry(&entry("max_wasm_stack", ruby_str("big"))) {
        Err(e) => {
            assert_eq!(e.kind, ErrorKind::TypeError);
            assert_eq!(e.message, "Invalid option big: max_wasm_stack");
        },
        other => panic!("unexpected {:?}", other),
    }
}

#[test]
fn target_needs_a_string() {
    match decode_entry(&entry("target", ruby_str("x86_64-unknown-linux-gnu"))) {
        Ok(ConfigSetting::Target(t)) => assert_eq!(t, "x86_64-unknown-linux-gnu"),
        other => panic!("unexpected {:?}", other),
    }
    match decode_entry(&entry("target", ruby_int(3))) {
        Err(e) => {
            assert_eq!(e.kind, ErrorKind::TypeError);
            assert_eq!(e.message, "Invalid option 3: target");
        },
        other => panic!("unexpected {:?}", other),
    }
}

#[test]
fn profiler_symbols() {
    let cases = [
        ("none", ProfilingStrategy::Off),
        ("jitdump", ProfilingStrategy::JitDump),
        ("vtune", ProfilingStrategy::VTune),
    ];
    for (sym, strategy) in cases {
        match decode_entry(&entry("profiler", ruby_sym(sym))) {
            Ok(ConfigSetting::Profiler(p)) => assert_eq!(p, strategy),
            other => panic!("unexpected {:?}", other),
        }
    }
    match decode_entry(&entry("profiler", ruby_sym("perf"))) {
        Err(e) => {
            assert_eq!(e.kind, ErrorKind::ArgumentError);
            assert_eq!(
                e.message,
                "invalid :profiler, expected one of :none, :jitdump, :vtune, got :perf"
            );
        },
        other => panic!("unexpected {:?}", other),
    }
    // A string that spells a choice is not the symbol.
    match decode_entry(&entry("profiler", ruby_str("vtune"))) {
        Err(e) => {
            assert_eq!(e.kind, ErrorKind::ArgumentError);
            assert_eq!(
                e.message,
                "invalid :profiler, expected one of :none, :jitdump, :vtune, got \"vtune\""
            );
        },
        other => panic!("unexpected {:?}", other),
    }
}

#[test]
fn cranelift_opt_level_symbols() {
    let cases = [
        ("none", OptLevel::Off),
        ("speed", OptLevel::Speed),
        ("speed_and_size", OptLevel::SpeedAndSize),
    ];
    for (sym, level) in cases {
        match decode_entry(&entry("cranelift_opt_level", ruby_sym(sym))) {
            Ok(ConfigSetting::CraneliftOptLevel(l)) => assert_eq!(l, level),
            other => panic!("unexpected {:?}", other),
        }
    }
    match decode_entry(&entry("cranelift_opt_level", ruby_int(2))) {
        Err(e) => {
            assert_eq!(e.kind, ErrorKind::ArgumentError);
            assert_eq!(
                e.message,
                "invalid :cranelift_opt_level, expected one of :none, :speed, :speed_and_size, got 2"
            );
        },
        other => panic!("unexpected {:?}", other),
    }
}

#[test]
fn unknown_option_is_an_argument_error() {
    match decode_entry(&entry("nope", ruby_bool(true))) {
        Err(e) => {
            assert_eq!(e.kind, ErrorKind::ArgumentError);
            assert_eq!(e.message, "Unknown option: :nope");
        },
        other => panic!("unexpected {:?}", other),
    }
}

#[test]
fn empty_hash_gives_a_config() {
    assert!(hash_to_config(&Vec::new()).is_ok());
}

#[test]
fn every_option_at_once_gives_a_config() {
    let entries = vec![
        entry("debug_info", ruby_bool(true)),
        entry("wasm_backtrace_details", ruby_bool(false)),
        entry("native_unwind_info", ruby_bool(true)),
        entry("consume_fuel", ruby_bool(true)),
        entry("epoch_interruption", ruby_bool(true)),
        entry("max_wasm_stack", ruby_int(1 << 20)),
        entry("wasm_threads", ruby_bool(false)),
        entry("wasm_multi_memory", ruby_bool(true)),
        entry("wasm_memory64", ruby_bool(false)),
        entry("parallel_compilation", ruby_bool(false)),
        entry("profiler", ruby_sym("none")),
        entry("cranelift_opt_level", ruby_sym("speed_and_size")),
        entry("target", ruby_str("x86_64-unknown-linux-gnu")),
    ];
    assert!(hash_to_config(&entries).is_ok());
}

#[test]
fn first_failing_entry_decides_the_error() {
    let entries = vec![
        entry("debug_info", ruby_bool(true)),
        entry("bogus", ruby_bool(true)),
        entry("max_wasm_stack", ruby_str("x")),
        entry("target", ruby_str("not a triple")),
    ];
    match hash_to_config(&entries) {
        Err(e) => {
            assert_eq!(e.kind, ErrorKind::ArgumentError);
            assert_eq!(e.message, "Unknown option: :bogus");
        },
        Ok(_) => panic!("expected an error"),
    }
    let entries = vec![
        entry("max_wasm_stack", ruby_str("x")),
        entry("bogus", ruby_bool(true)),
    ];
    match hash_to_config(&entries) {
        Err(e) => {
            assert_eq!(e.kind, ErrorKind::TypeError);
            assert_eq!(e.message, "Invalid option x: max_wasm_stack");
        },
        Ok(_) => panic!("expected an error"),
    }
}

#[test]
fn rejected_target_is_an_argument_error() {
    let entries = vec![entry("target", ruby_str("nonsense-arch-foo")), entry("bogus", ruby_nil())];
    match hash_to_config(&entries) {
        Err(e) => {
            assert_eq!(e.kind, ErrorKind::ArgumentError);
            let prefix = "Invalid target: nonsense-arch-foo: ";
            assert!(e.message.starts_with(prefix), "{}", e.message);
            // Wasmtime gives a reason after the triple.
            assert!(e.message.len() > prefix.len(), "{}", e.message);
        },
        Ok(_) => panic!("expected an error"),
    }
}

#[test]
fn invalid_target_message() {
    let e = invalid_target("abc", "Unrecognized architecture: abc");
    assert_eq!(e.kind, ErrorKind::ArgumentError);
    assert_eq!(e.message, "Invalid target: abc: Unrecognized architecture: abc");
}

#[test]
fn empty_hash_keeps_wasmtime_defaults() {
    let config = hash_to_config(&Vec::new()).ok().expect("accepted");
    let shown = format!("{:?}", config);
    assert!(shown.contains("debug_info: false"), "{}", shown);
    assert!(shown.contains("wasm_threads: false"), "{}", shown);
    assert!(shown.contains("parallel_compilation: true"), "{}", shown);
    assert!(shown.contains("\"opt_level\": \"speed\""), "{}", shown);
}

#[test]
fn hash_settings_reach_the_config() {
    let entries = vec![
        entry("debug_info", ruby_bool(true)),
        entry("wasm_threads", ruby_bool(true)),
        entry("parallel_compilation", ruby_bool(false)),
        entry("cranelift_opt_level", ruby_sym("speed_and_size")),
    ];
    let config = hash_to_config(&entries).ok().expect("accepted");
    let shown = format!("{:?}", config);
    assert!(shown.contains("debug_info: true"), "{}", shown);
    assert!(shown.contains("wasm_threads: true"), "{}", shown);
    assert!(shown.contains("parallel_compilation: false"), "{}", shown);
    assert!(shown.contains("\"opt_level\": \"speed_and_size\""), "{}", shown);
}

#[test]
fn last_entry_for_an_option_wins() {
    let entries = vec![entry("debug_info", ruby_bool(true)), entry("debug_info", ruby_nil())];
    let config = hash_to_config(&entries).ok().expect("accepted");
    let shown = format!("{:?}", config);
    assert!(shown.contains("debug_info: false"), "{}", shown);
}

#[test]
fn conversion_follows_the_option() {
    let cases = [
        ("debug_info", ValueConversion::Truthiness),
        ("parallel_compilation", ValueConversion::Truthiness),
        ("max_wasm_stack", ValueConversion::Integer),
        ("target", ValueConversion::String),
        ("profiler", ValueConversion::Symbol),
        ("cranelift_opt_level", ValueConversion::Symbol),
        ("nope", ValueConversion::Nothing),
    ];
    for (name, conversion) in cases {
        assert_eq!(conversion_needed(name), conversion);
    }
}

#[test]
fn target_spellings_that_parse_alike_are_accepted() {
    for triple in ["arm64-apple-darwin", "aarch64-apple-darwin"] {
        let config = hash_to_config(&vec![entry("target", ruby_str(triple))]).ok().expect("accepted");
        let shown = format!("{:?}", config);
        assert!(shown.contains("Aarch64"), "{}", shown);
    }
}
