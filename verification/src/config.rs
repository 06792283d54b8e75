//! Decoding of the Ruby configuration hash given to `Wasmtime::Engine.new`
//! into Wasmtime engine settings.
//!
//! Each entry of the hash is a symbol naming an option and a Ruby value. The
//! entries are decoded in the hash's order, and the first entry that cannot be
//! decoded (or whose target triple Wasmtime rejects) decides the error.

use vstd::prelude::*;
use vstd::string::StringExecFns;

use crate::error::{ErrorKind, RbError};
use crate::text::text_eq;

verus! {

/// What the decoding reads of a Ruby value: the outcome of each conversion
/// that an option may ask for, and the value's two textual forms.
#[derive(Debug)]
pub struct RubyValue {
    /// Ruby truthiness: false only for `nil` and `false`.
    pub truthy: bool,
    /// The value as a `usize`, where it is an Integer that fits one.
    pub integer: Option<usize>,
    /// The value as a Rust string, where it converts to a Ruby String.
    pub string: Option<String>,
    /// The name of the symbol, where the value is a Symbol.
    pub symbol: Option<String>,
    /// The value's `to_s`.
    pub display: String,
    /// The value's `inspect`.
    pub inspect: String,
}

/// One entry of the configuration hash: the option's symbol and its value.
#[derive(Debug)]
pub struct ConfigEntry {
    /// The name of the key symbol.
    pub name: String,
    /// The key symbol's `inspect` (such as `:debug_info`).
    pub name_inspect: String,
    pub value: RubyValue,
}

/// The options that the configuration hash accepts.
#[derive(Clone, Copy, Debug, PartialEq, Eq, Structural)]
pub enum ConfigOption {
    DebugInfo,
    WasmBacktraceDetails,
    NativeUnwindInfo,
    ConsumeFuel,
    EpochInterruption,
    MaxWasmStack,
    WasmThreads,
    WasmMultiMemory,
    WasmMemory64,
    Profiler,
    CraneliftOptLevel,
    ParallelCompilation,
    Target,
}

/// Cranelift's optimization level.
#[derive(Clone, Copy, Debug, PartialEq, Eq, Structural)]
pub enum OptLevel {
    /// No optimization (Wasmtime's `None` level).
    Off,
    Speed,
    SpeedAndSize,
}

/// The profiler the engine supports.
#[derive(Clone, Copy, Debug, PartialEq, Eq, Structural)]
pub enum ProfilingStrategy {
    /// No profiler (Wasmtime's `None` strategy).
    Off,
    JitDump,
    VTune,
}

/// Whether backtraces carry the details that wasm debug information gives.
#[derive(Clone, Copy, Debug, PartialEq, Eq, Structural)]
pub enum WasmBacktraceDetails {
    Enable,
    Disable,
}

/// One decoded engine setting.
#[derive(Debug)]
pub enum ConfigSetting {
    DebugInfo(bool),
    WasmBacktraceDetails(WasmBacktraceDetails),
    NativeUnwindInfo(bool),
    ConsumeFuel(bool),
    EpochInterruption(bool),
    MaxWasmStack(usize),
    WasmThreads(bool),
    WasmMultiMemory(bool),
    WasmMemory64(bool),
    Profiler(ProfilingStrategy),
    CraneliftOptLevel(OptLevel),
    ParallelCompilation(bool),
    Target(String),
}

/// The mathematical value of a [`ConfigSetting`].
pub enum SettingModel {
    DebugInfo(bool),
    WasmBacktraceDetails(WasmBacktraceDetails),
    NativeUnwindInfo(bool),
    ConsumeFuel(bool),
    EpochInterruption(bool),
    MaxWasmStack(usize),
    WasmThreads(bool),
    WasmMultiMemory(bool),
    WasmMemory64(bool),
    Profiler(ProfilingStrategy),
    CraneliftOptLevel(OptLevel),
    ParallelCompilation(bool),
    Target(Seq<char>),
}

impl View for ConfigSetting {
    type V = SettingModel;

    open spec fn view(&self) -> SettingModel {
        match self {
            ConfigSetting::DebugInfo(b) => SettingModel::DebugInfo(*b),
            ConfigSetting::WasmBacktraceDetails(d) => SettingModel::WasmBacktraceDetails(*d),
            ConfigSetting::NativeUnwindInfo(b) => SettingModel::NativeUnwindInfo(*b),
            ConfigSetting::ConsumeFuel(b) => SettingModel::ConsumeFuel(*b),
            ConfigSetting::EpochInterruption(b) => SettingModel::EpochInterruption(*b),
            ConfigSetting::MaxWasmStack(n) => SettingModel::MaxWasmStack(*n),
            ConfigSetting::WasmThreads(b) => SettingModel::WasmThreads(*b),
            ConfigSetting::WasmMultiMemory(b) => SettingModel::WasmMultiMemory(*b),
            ConfigSetting::WasmMemory64(b) => SettingModel::WasmMemory64(*b),
            ConfigSetting::Profiler(p) => SettingModel::Profiler(*p),
            ConfigSetting::CraneliftOptLevel(l) => SettingModel::CraneliftOptLevel(*l),
            ConfigSetting::ParallelCompilation(b) => SettingModel::ParallelCompilation(*b),
            ConfigSetting::Target(t) => SettingModel::Target(t@),
        }
    }
}

/// An error as a value: its class and its message.
pub type ErrorModel = (ErrorKind, Seq<char>);

/// The name of the symbol that selects an option.
pub open spec fn option_name(option: ConfigOption) -> Seq<char> {
    match option {
        ConfigOption::DebugInfo => "debug_info"@,
        ConfigOption::WasmBacktraceDetails => "wasm_backtrace_details"@,
        ConfigOption::NativeUnwindInfo => "native_unwind_info"@,
        ConfigOption::ConsumeFuel => "consume_fuel"@,
        ConfigOption::EpochInterruption => "epoch_interruption"@,
        ConfigOption::MaxWasmStack => "max_wasm_stack"@,
        ConfigOption::WasmThreads => "wasm_threads"@,
        ConfigOption::WasmMultiMemory => "wasm_multi_memory"@,
        ConfigOption::WasmMemory64 => "wasm_memory64"@,
        ConfigOption::Profiler => "profiler"@,
        ConfigOption::CraneliftOptLevel => "cranelift_opt_level"@,
        ConfigOption::ParallelCompilation => "parallel_compilation"@,
        ConfigOption::Target => "target"@,
    }
}

/// The option, if any, that a symbol name selects.
pub open spec fn option_named(name: Seq<char>) -> Option<ConfigOption> {
    if name == "debug_info"@ {
        Some(ConfigOption::DebugInfo)
    } else if name == "wasm_backtrace_details"@ {
        Some(ConfigOption::WasmBacktraceDetails)
    } else if name == "native_unwind_info"@ {
        Some(ConfigOption::NativeUnwindInfo)
    } else if name == "consume_fuel"@ {
        Some(ConfigOption::ConsumeFuel)
    } else if name == "epoch_interruption"@ {
        Some(ConfigOption::EpochInterruption)
    } else if name == "max_wasm_stack"@ {
        Some(ConfigOption::MaxWasmStack)
    } else if name == "wasm_threads"@ {
        Some(ConfigOption::WasmThreads)
    } else if name == "wasm_multi_memory"@ {
        Some(ConfigOption::WasmMultiMemory)
    } else if name == "wasm_memory64"@ {
        Some(ConfigOption::WasmMemory64)
    } else if name == "parallel_compilation"@ {
        Some(ConfigOption::ParallelCompilation)
    } else if name == "profiler"@ {
        Some(ConfigOption::Profiler)
    } else if name == "cranelift_opt_level"@ {
        Some(ConfigOption::CraneliftOptLevel)
    } else if name == "target"@ {
        Some(ConfigOption::Target)
    } else {
        None
    }
}

/// The optimization level a symbol name selects.
pub open spec fn opt_level_named(name: Seq<char>) -> Option<OptLevel> {
    if name == "none"@ {
        Some(OptLevel::Off)
    } else if name == "speed"@ {
        Some(OptLevel::Speed)
    } else if name == "speed_and_size"@ {
        Some(OptLevel::SpeedAndSize)
    } else {
        None
    }
}

/// The profiling strategy a symbol name selects.
pub open spec fn profiler_named(name: Seq<char>) -> Option<ProfilingStrategy> {
    if name == "none"@ {
        Some(ProfilingStrategy::Off)
    } else if name == "jitdump"@ {
        Some(ProfilingStrategy::JitDump)
    } else if name == "vtune"@ {
        Some(ProfilingStrategy::VTune)
    } else {
        None
    }
}

/// The error for a key that names no option.
pub open spec fn unknown_option_error(entry: ConfigEntry) -> ErrorModel {
    (ErrorKind::ArgumentError, "Unknown option: "@ + entry.name_inspect@)
}

/// The error for a value that does not convert to what its option needs.
pub open spec fn invalid_type_error(entry: ConfigEntry) -> ErrorModel {
    (ErrorKind::TypeError, "Invalid option "@ + entry.value.display@ + ": "@ + entry.name@)
}

/// The error for a value that is none of an option's symbols.
pub open spec fn invalid_choice_error(what: Seq<char>, choices: Seq<char>, entry: ConfigEntry) -> ErrorModel {
    (
        ErrorKind::ArgumentError,
        "invalid "@ + what + ", expected one of "@ + choices + ", got "@ + entry.value.inspect@,
    )
}

/// The error for a target triple that Wasmtime rejects, with its reason.
pub open spec fn invalid_target_error(target: Seq<char>, reason: Seq<char>) -> ErrorModel {
    (ErrorKind::ArgumentError, "Invalid target: "@ + target + ": "@ + reason)
}

/// What an entry decodes to, before Wasmtime has seen it.
pub open spec fn decode_spec(entry: ConfigEntry) -> Result<SettingModel, ErrorModel> {
    let v = entry.value;
    match option_named(entry.name@) {
        None => Err(unknown_option_error(entry)),
        Some(option) => match option {
            ConfigOption::DebugInfo => Ok(SettingModel::DebugInfo(v.truthy)),
            ConfigOption::WasmBacktraceDetails => Ok(
                SettingModel::WasmBacktraceDetails(
                    if v.truthy {
                        WasmBacktraceDetails::Enable
                    } else {
                        WasmBacktraceDetails::Disable
                    },
                ),
            ),
            ConfigOption::NativeUnwindInfo => Ok(SettingModel::NativeUnwindInfo(v.truthy)),
            ConfigOption::ConsumeFuel => Ok(SettingModel::ConsumeFuel(v.truthy)),
            ConfigOption::EpochInterruption => Ok(SettingModel::EpochInterruption(v.truthy)),
            ConfigOption::MaxWasmStack => match v.integer {
                Some(n) => Ok(SettingModel::MaxWasmStack(n)),
                None => Err(invalid_type_error(entry)),
            },
            ConfigOption::WasmThreads => Ok(SettingModel::WasmThreads(v.truthy)),
            ConfigOption::WasmMultiMemory => Ok(SettingModel::WasmMultiMemory(v.truthy)),
            ConfigOption::WasmMemory64 => Ok(SettingModel::WasmMemory64(v.truthy)),
            ConfigOption::ParallelCompilation => Ok(SettingModel::ParallelCompilation(v.truthy)),
            ConfigOption::Profiler => match v.symbol {
                Some(s) => match profiler_named(s@) {
                    Some(p) => Ok(SettingModel::Profiler(p)),
                    None => Err(invalid_choice_error(":profiler"@, ":none, :jitdump, :vtune"@, entry)),
                },
                None => Err(invalid_choice_error(":profiler"@, ":none, :jitdump, :vtune"@, entry)),
            },
            ConfigOption::CraneliftOptLevel => match v.symbol {
                Some(s) => match opt_level_named(s@) {
                    Some(l) => Ok(SettingModel::CraneliftOptLevel(l)),
                    None => Err(
                        invalid_choice_error(
                            ":cranelift_opt_level"@,
                            ":none, :speed, :speed_and_size"@,
                            entry,
                        ),
                    ),
                },
                None => Err(
                    invalid_choice_error(
                        ":cranelift_opt_level"@,
                        ":none, :speed, :speed_and_size"@,
                        entry,
                    ),
                ),
            },
            ConfigOption::Target => match v.string {
                Some(t) => Ok(SettingModel::Target(t@)),
                None => Err(invalid_type_error(entry)),
            },
        },
    }
}

/// Whether a decoding result matches its specification.
pub open spec fn setting_result_is(r: Result<ConfigSetting, RbError>, spec: Result<SettingModel, ErrorModel>) -> bool {
    match r {
        Ok(s) => spec == Ok::<SettingModel, ErrorModel>(s@),
        Err(e) => spec == Err::<SettingModel, ErrorModel>(e@),
    }
}

/// The option a symbol name selects, in the order the names are tried.
pub fn option_from_name(name: &str) -> (r: Option<ConfigOption>)
    ensures
        r == option_named(name@),
{
    if text_eq(name, "debug_info") {
        Some(ConfigOption::DebugInfo)
    } else if text_eq(name, "wasm_backtrace_details") {
        Some(ConfigOption::WasmBacktraceDetails)
    } else if text_eq(name, "native_unwind_info") {
        Some(ConfigOption::NativeUnwindInfo)
    } else if text_eq(name, "consume_fuel") {
        Some(ConfigOption::ConsumeFuel)
    } else if text_eq(name, "epoch_interruption") {
        Some(ConfigOption::EpochInterruption)
    } else if text_eq(name, "max_wasm_stack") {
        Some(ConfigOption::MaxWasmStack)
    } else if text_eq(name, "wasm_threads") {
        Some(ConfigOption::WasmThreads)
    } else if text_eq(name, "wasm_multi_memory") {
        Some(ConfigOption::WasmMultiMemory)
    } else if text_eq(name, "wasm_memory64") {
        Some(ConfigOption::WasmMemory64)
    } else if text_eq(name, "parallel_compilation") {
        Some(ConfigOption::ParallelCompilation)
    } else if text_eq(name, "profiler") {
        Some(ConfigOption::Profiler)
    } else if text_eq(name, "cranelift_opt_level") {
        Some(ConfigOption::CraneliftOptLevel)
    } else if text_eq(name, "target") {
        Some(ConfigOption::Target)
    } else {
        None
    }
}

/// The error for a key that names no option: `Unknown option: :name`.
pub fn unknown_option(entry: &ConfigEntry) -> (e: RbError)
    ensures
        e@ == unknown_option_error(*entry),
{
    let mut m = String::from_str("Unknown option: ");
    m.append(entry.name_inspect.as_str());
    RbError::new(ErrorKind::ArgumentError, m)
}

/// The error for a value of the wrong type: `Invalid option <value>: <name>`.
pub fn invalid_type(entry: &ConfigEntry) -> (e: RbError)
    ensures
        e@ == invalid_type_error(*entry),
{
    let mut m = String::from_str("Invalid option ");
    m.append(entry.value.display.as_str());
    m.append(": ");
    m.append(entry.name.as_str());
    RbError::new(ErrorKind::TypeError, m)
}

/// The error for a value that is none of the expected symbols.
pub fn invalid_choice(what: &str, choices: &str, entry: &ConfigEntry) -> (e: RbError)
    ensures
        e@ == invalid_choice_error(what@, choices@, *entry),
{
    let mut m = String::from_str("invalid ");
    m.append(what);
    m.append(", expected one of ");
    m.append(choices);
    m.append(", got ");
    m.append(entry.value.inspect.as_str());
    RbError::new(ErrorKind::ArgumentError, m)
}

/// The error for a target triple that Wasmtime rejected for the given reason.
pub fn invalid_target(target: &str, reason: &str) -> (e: RbError)
    ensures
        e@ == invalid_target_error(target@, reason@),
{
    let mut m = String::from_str("Invalid target: ");
    m.append(target);
    m.append(": ");
    m.append(reason);
    RbError::new(ErrorKind::ArgumentError, m)
}

/// The optimization level a symbol value selects.
pub fn opt_level_from_symbol(name: &str) -> (r: Option<OptLevel>)
    ensures
        r == opt_level_named(name@),
{
    if text_eq(name, "none") {
        Some(OptLevel::Off)
    } else if text_eq(name, "speed") {
        Some(OptLevel::Speed)
    } else if text_eq(name, "speed_and_size") {
        Some(OptLevel::SpeedAndSize)
    } else {
        None
    }
}

/// The profiling strategy a symbol value selects.
pub fn profiler_from_symbol(name: &str) -> (r: Option<ProfilingStrategy>)
    ensures
        r == profiler_named(name@),
{
    if text_eq(name, "none") {
        Some(ProfilingStrategy::Off)
    } else if text_eq(name, "jitdump") {
        Some(ProfilingStrategy::JitDump)
    } else if text_eq(name, "vtune") {
        Some(ProfilingStrategy::VTune)
    } else {
        None
    }
}

/// The conversion of a Ruby value that an option asks for.
#[derive(Clone, Copy, Debug, PartialEq, Eq, Structural)]
pub enum ValueConversion {
    /// Ruby truthiness (boolean options).
    Truthiness,
    /// An Integer that fits a `usize`, with `to_s` where it is not one.
    Integer,
    /// A String, with `to_s` where it is not one.
    String,
    /// A Symbol, with `inspect` where it is none of the option's choices.
    Symbol,
    /// Nothing: the key names no option.
    Nothing,
}

/// The conversion that the option (if any) asks for.
pub open spec fn conversion_for(option: Option<ConfigOption>) -> ValueConversion {
    match option {
        None => ValueConversion::Nothing,
        Some(ConfigOption::MaxWasmStack) => ValueConversion::Integer,
        Some(ConfigOption::Target) => ValueConversion::String,
        Some(ConfigOption::Profiler) => ValueConversion::Symbol,
        Some(ConfigOption::CraneliftOptLevel) => ValueConversion::Symbol,
        Some(_) => ValueConversion::Truthiness,
    }
}

/// The conversion that the option a symbol name selects asks for, so that
/// only that conversion need be made of the value.
pub fn conversion_needed(name: &str) -> (r: ValueConversion)
    ensures
        r == conversion_for(option_named(name@)),
{
    match option_from_name(name) {
        None => ValueConversion::Nothing,
        Some(ConfigOption::MaxWasmStack) => ValueConversion::Integer,
        Some(ConfigOption::Target) => ValueConversion::String,
        Some(ConfigOption::Profiler) => ValueConversion::Symbol,
        Some(ConfigOption::CraneliftOptLevel) => ValueConversion::Symbol,
        Some(_) => ValueConversion::Truthiness,
    }
}

/// The view of an optional string.
pub open spec fn opt_text(s: Option<String>) -> Option<Seq<char>> {
    match s {
        Some(s) => Some(s@),
        None => None,
    }
}

/// Whether two Ruby values agree on all that the decoding of the option reads
/// of them.
pub open spec fn agree_for(option: Option<ConfigOption>, v1: RubyValue, v2: RubyValue) -> bool {
    match option {
        None => true,
        Some(ConfigOption::MaxWasmStack) => v1.integer == v2.integer && (v1.integer is None
            ==> v1.display@ == v2.display@),
        Some(ConfigOption::Target) => opt_text(v1.string) == opt_text(v2.string) && (
        v1.string is None ==> v1.display@ == v2.display@),
        Some(ConfigOption::Profiler) => opt_text(v1.symbol) == opt_text(v2.symbol) && v1.inspect@
            == v2.inspect@,
        Some(ConfigOption::CraneliftOptLevel) => opt_text(v1.symbol) == opt_text(v2.symbol)
            && v1.inspect@ == v2.inspect@,
        Some(_) => v1.truthy == v2.truthy,
    }
}

/// Decoding an entry reads only the conversion its option asks for: values
/// that agree on it decode alike, so the other conversions need not be made.
pub proof fn lemma_decode_reads_only_the_needed_conversion(e1: ConfigEntry, e2: ConfigEntry)
    requires
        e1.name@ == e2.name@,
        e1.name_inspect@ == e2.name_inspect@,
        agree_for(option_named(e1.name@), e1.value, e2.value),
    ensures
        decode_spec(e1) == decode_spec(e2),
{
}

/// Decodes one entry of the configuration hash into a setting.
///
/// Boolean options take the value's truthiness; `max_wasm_stack` needs an
/// Integer that fits a `usize`; `target` needs a String; `profiler` and
/// `cranelift_opt_level` need one of their symbols.
pub fn decode_entry(entry: &ConfigEntry) -> (r: Result<ConfigSetting, RbError>)
    ensures
        setting_result_is(r, decode_spec(*entry)),
{
    let v = &entry.value;
    let option = match option_from_name(entry.name.as_str()) {
        Some(option) => option,
        None => return Err(unknown_option(entry)),
    };
    match option {
        ConfigOption::DebugInfo => Ok(ConfigSetting::DebugInfo(v.truthy)),
        ConfigOption::WasmBacktraceDetails => Ok(
            ConfigSetting::WasmBacktraceDetails(
                if v.truthy {
                    WasmBacktraceDetails::Enable
                } else {
                    WasmBacktraceDetails::Disable
                },
            ),
        ),
        ConfigOption::NativeUnwindInfo => Ok(ConfigSetting::NativeUnwindInfo(v.truthy)),
        ConfigOption::ConsumeFuel => Ok(ConfigSetting::ConsumeFuel(v.truthy)),
        ConfigOption::EpochInterruption => Ok(ConfigSetting::EpochInterruption(v.truthy)),
        ConfigOption::MaxWasmStack => match v.integer {
            Some(n) => Ok(ConfigSetting::MaxWasmStack(n)),
            None => Err(invalid_type(entry)),
        },
        ConfigOption::WasmThreads => Ok(ConfigSetting::WasmThreads(v.truthy)),
        ConfigOption::WasmMultiMemory => Ok(ConfigSetting::WasmMultiMemory(v.truthy)),
        ConfigOption::WasmMemory64 => Ok(ConfigSetting::WasmMemory64(v.truthy)),
        ConfigOption::ParallelCompilation => Ok(ConfigSetting::ParallelCompilation(v.truthy)),
        ConfigOption::Profiler => {
            let chosen = match &v.symbol {
                Some(s) => profiler_from_symbol(s.as_str()),
                None => None,
            };
            match chosen {
                Some(p) => Ok(ConfigSetting::Profiler(p)),
                None => Err(invalid_choice(":profiler", ":none, :jitdump, :vtune", entry)),
            }
        },
        ConfigOption::CraneliftOptLevel => {
            let chosen = match &v.symbol {
                Some(s) => opt_level_from_symbol(s.as_str()),
                None => None,
            };
            match chosen {
                Some(l) => Ok(ConfigSetting::CraneliftOptLevel(l)),
                None => Err(
                    invalid_choice(":cranelift_opt_level", ":none, :speed, :speed_and_size", entry),
                ),
            }
        },
        ConfigOption::Target => match &v.string {
            Some(t) => Ok(ConfigSetting::Target(t.clone())),
            None => Err(invalid_type(entry)),
        },
    }
}

// ---------------------------------------------------------------------------
// Wasmtime's `Config`
// ---------------------------------------------------------------------------

#[verifier::external_type_specification]
#[verifier::external_body]
pub struct ExConfig(wasmtime::Config);

/// What Wasmtime's `Config::target` makes of a target triple: the triple as
/// `target_lexicon` parses it (written in `target_lexicon`'s form, so that
/// spellings that parse alike, such as `arm64` and `aarch64`, give the same
/// text), or the parser's message where it rejects it. The method parses the
/// string alone, so the outcome depends on the string alone.
pub uninterp spec fn target_parse(triple: Seq<char>) -> Result<Seq<char>, Seq<char>>;

/// The settings that a Wasmtime `Config` holds, by option: each option that
/// `Config::new` fixes or a setter has set, with its value. Two options are
/// absent until they are set: the backtrace details, which `Config::new` reads
/// from the `WASMTIME_BACKTRACE_DETAILS` environment variable, and the target,
/// which is the host's until one is given.
pub uninterp spec fn config_settings(c: wasmtime::Config) -> Map<ConfigOption, SettingModel>;

/// The settings that `wasmtime::Config::new` fixes (wasmtime 2.0.2, with the
/// `cranelift` and `parallel-compilation` features).
pub open spec fn default_settings() -> Map<ConfigOption, SettingModel> {
    map![
        ConfigOption::DebugInfo => SettingModel::DebugInfo(false),
        ConfigOption::NativeUnwindInfo => SettingModel::NativeUnwindInfo(true),
        ConfigOption::ConsumeFuel => SettingModel::ConsumeFuel(false),
        ConfigOption::EpochInterruption => SettingModel::EpochInterruption(false),
        ConfigOption::MaxWasmStack => SettingModel::MaxWasmStack(524288usize),
        ConfigOption::WasmThreads => SettingModel::WasmThreads(false),
        ConfigOption::WasmMultiMemory => SettingModel::WasmMultiMemory(false),
        ConfigOption::WasmMemory64 => SettingModel::WasmMemory64(false),
        ConfigOption::Profiler => SettingModel::Profiler(ProfilingStrategy::Off),
        ConfigOption::CraneliftOptLevel => SettingModel::CraneliftOptLevel(OptLevel::Speed),
        ConfigOption::ParallelCompilation => SettingModel::ParallelCompilation(true),
    ]
}

/// The option that a setting is for.
pub open spec fn setting_option(setting: SettingModel) -> ConfigOption {
    match setting {
        SettingModel::DebugInfo(_) => ConfigOption::DebugInfo,
        SettingModel::WasmBacktraceDetails(_) => ConfigOption::WasmBacktraceDetails,
        SettingModel::NativeUnwindInfo(_) => ConfigOption::NativeUnwindInfo,
        SettingModel::ConsumeFuel(_) => ConfigOption::ConsumeFuel,
        SettingModel::EpochInterruption(_) => ConfigOption::EpochInterruption,
        SettingModel::MaxWasmStack(_) => ConfigOption::MaxWasmStack,
        SettingModel::WasmThreads(_) => ConfigOption::WasmThreads,
        SettingModel::WasmMultiMemory(_) => ConfigOption::WasmMultiMemory,
        SettingModel::WasmMemory64(_) => ConfigOption::WasmMemory64,
        SettingModel::Profiler(_) => ConfigOption::Profiler,
        SettingModel::CraneliftOptLevel(_) => ConfigOption::CraneliftOptLevel,
        SettingModel::ParallelCompilation(_) => ConfigOption::ParallelCompilation,
        SettingModel::Target(_) => ConfigOption::Target,
    }
}

/// The settings after the given ones are applied in order: each replaces what
/// its option held.
pub open spec fn apply_all(base: Map<ConfigOption, SettingModel>, settings: Seq<SettingModel>) -> Map<ConfigOption, SettingModel>
    decreases settings.len(),
{
    if settings.len() == 0 {
        base
    } else {
        apply_all(base, settings.drop_last()).insert(setting_option(settings.last()), settings.last())
    }
}

/// The last of the settings that is for the option, if any.
pub open spec fn last_setting_for(settings: Seq<SettingModel>, option: ConfigOption) -> Option<SettingModel>
    decreases settings.len(),
{
    if settings.len() == 0 {
        None
    } else if setting_option(settings.last()) == option {
        Some(settings.last())
    } else {
        last_setting_for(settings.drop_last(), option)
    }
}

/// `wasmtime::Config::new`: a configuration that holds Wasmtime's defaults.
#[verifier::external_body]
fn config_new() -> (c: wasmtime::Config)
    ensures
        config_settings(c) == default_settings(),
{
    wasmtime::Config::new()
}

/// `wasmtime::Config::debug_info`: the option now holds the given value and the
/// other settings stay.
#[verifier::external_body]
fn config_debug_info(config: &mut wasmtime::Config, enable: bool)
    ensures
        config_settings(*final(config)) == config_settings(*old(config)).insert(
            ConfigOption::DebugInfo,
            SettingModel::DebugInfo(enable),
        ),
{
    config.debug_info(enable);
}

/// `wasmtime::Config::wasm_backtrace_details`, with the library's choice turned into
/// Wasmtime's: the option now holds the given value and the
/// other settings stay.
#[verifier::external_body]
fn config_wasm_backtrace_details(config: &mut wasmtime::Config, details: WasmBacktraceDetails)
    ensures
        config_settings(*final(config)) == config_settings(*old(config)).insert(
            ConfigOption::WasmBacktraceDetails,
            SettingModel::WasmBacktraceDetails(details),
        ),
{
    config.wasm_backtrace_details(
        match details {
            WasmBacktraceDetails::Enable => wasmtime::WasmBacktraceDetails::Enable,
            WasmBacktraceDetails::Disable => wasmtime::WasmBacktraceDetails::Disable,
        },
    );
}

/// `wasmtime::Config::native_unwind_info`: the option now holds the given value and the
/// other settings stay.
#[verifier::external_body]
fn config_native_unwind_info(config: &mut wasmtime::Config, enable: bool)
    ensures
        config_settings(*final(config)) == config_settings(*old(config)).insert(
            ConfigOption::NativeUnwindInfo,
            SettingModel::NativeUnwindInfo(enable),
        ),
{
    config.native_unwind_info(enable);
}

/// `wasmtime::Config::consume_fuel`: the option now holds the given value and the
/// other settings stay.
#[verifier::external_body]
fn config_consume_fuel(config: &mut wasmtime::Config, enable: bool)
    ensures
        config_settings(*final(config)) == config_settings(*old(config)).insert(
            ConfigOption::ConsumeFuel,
            SettingModel::ConsumeFuel(enable),
        ),
{
    config.consume_fuel(enable);
}

/// `wasmtime::Config::epoch_interruption`: the option now holds the given value and the
/// other settings stay.
#[verifier::external_body]
fn config_epoch_interruption(config: &mut wasmtime::Config, enable: bool)
    ensures
        config_settings(*final(config)) == config_settings(*old(config)).insert(
            ConfigOption::EpochInterruption,
            SettingModel::EpochInterruption(enable),
        ),
{
    config.epoch_interruption(enable);
}

/// `wasmtime::Config::max_wasm_stack`: the option now holds the given value and the
/// other settings stay.
#[verifier::external_body]
fn config_max_wasm_stack(config: &mut wasmtime::Config, size: usize)
    ensures
        config_settings(*final(config)) == config_settings(*old(config)).insert(
            ConfigOption::MaxWasmStack,
            SettingModel::MaxWasmStack(size),
        ),
{
    config.max_wasm_stack(size);
}

/// `wasmtime::Config::wasm_threads`: the option now holds the given value and the
/// other settings stay.
#[verifier::external_body]
fn config_wasm_threads(config: &mut wasmtime::Config, enable: bool)
    ensures
        config_settings(*final(config)) == config_settings(*old(config)).insert(
            ConfigOption::WasmThreads,
            SettingModel::WasmThreads(enable),
        ),
{
    config.wasm_threads(enable);
}

/// `wasmtime::Config::wasm_multi_memory`: the option now holds the given value and the
/// other settings stay.
#[verifier::external_body]
fn config_wasm_multi_memory(config: &mut wasmtime::Config, enable: bool)
    ensures
        config_settings(*final(config)) == config_settings(*old(config)).insert(
            ConfigOption::WasmMultiMemory,
            SettingModel::WasmMultiMemory(enable),
        ),
{
    config.wasm_multi_memory(enable);
}

/// `wasmtime::Config::wasm_memory64`: the option now holds the given value and the
/// other settings stay.
#[verifier::external_body]
fn config_wasm_memory64(config: &mut wasmtime::Config, enable: bool)
    ensures
        config_settings(*final(config)) == config_settings(*old(config)).insert(
            ConfigOption::WasmMemory64,
            SettingModel::WasmMemory64(enable),
        ),
{
    config.wasm_memory64(enable);
}

/// `wasmtime::Config::profiler`, with the library's choice turned into
/// Wasmtime's: the option now holds the given value and the
/// other settings stay.
#[verifier::external_body]
fn config_profiler(config: &mut wasmtime::Config, strategy: ProfilingStrategy)
    ensures
        config_settings(*final(config)) == config_settings(*old(config)).insert(
            ConfigOption::Profiler,
            SettingModel::Profiler(strategy),
        ),
{
    config.profiler(
        match strategy {
            ProfilingStrategy::Off => wasmtime::ProfilingStrategy::None,
            ProfilingStrategy::JitDump => wasmtime::ProfilingStrategy::JitDump,
            ProfilingStrategy::VTune => wasmtime::ProfilingStrategy::VTune,
        },
    );
}

/// `wasmtime::Config::cranelift_opt_level`, with the library's choice turned into
/// Wasmtime's: the option now holds the given value and the
/// other settings stay.
#[verifier::external_body]
fn config_cranelift_opt_level(config: &mut wasmtime::Config, level: OptLevel)
    ensures
        config_settings(*final(config)) == config_settings(*old(config)).insert(
            ConfigOption::CraneliftOptLevel,
            SettingModel::CraneliftOptLevel(level),
        ),
{
    config.cranelift_opt_level(
        match level {
            OptLevel::Off => wasmtime::OptLevel::None,
            OptLevel::Speed => wasmtime::OptLevel::Speed,
            OptLevel::SpeedAndSize => wasmtime::OptLevel::SpeedAndSize,
        },
    );
}

/// `wasmtime::Config::parallel_compilation`: the option now holds the given value and the
/// other settings stay.
#[verifier::external_body]
fn config_parallel_compilation(config: &mut wasmtime::Config, parallel: bool)
    ensures
        config_settings(*final(config)) == config_settings(*old(config)).insert(
            ConfigOption::ParallelCompilation,
            SettingModel::ParallelCompilation(parallel),
        ),
{
    config.parallel_compilation(parallel);
}

/// `wasmtime::Config::target`: succeeds exactly where the triple parses, and
/// then holds the parsed triple; otherwise fails with the parser's message and
/// leaves the settings as they were. Both outcomes are as [`target_parse`]
/// names them.
#[verifier::external_body]
fn config_target(config: &mut wasmtime::Config, target: &str) -> (r: Result<(), String>)
    ensures
        match r {
            Ok(()) => {
                &&& target_parse(target@) is Ok
                &&& config_settings(*final(config)) == config_settings(*old(config)).insert(
                    ConfigOption::Target,
                    SettingModel::Target(target_parse(target@)->Ok_0),
                )
            },
            Err(reason) => {
                &&& target_parse(target@) == Err::<Seq<char>, Seq<char>>(reason@)
                &&& config_settings(*final(config)) == config_settings(*old(config))
            },
        },
{
    match config.target(target) {
        Ok(_) => Ok(()),
        Err(e) => Err(format!("{}", e)),
    }
}

/// What applying a decoded setting to a configuration gives: the setting the
/// configuration then holds (a target as Wasmtime parses it). Only a target
/// triple can fail.
pub open spec fn apply_spec(setting: SettingModel) -> Result<SettingModel, ErrorModel> {
    match setting {
        SettingModel::Target(t) => match target_parse(t) {
            Err(reason) => Err(invalid_target_error(t, reason)),
            Ok(parsed) => Ok(SettingModel::Target(parsed)),
        },
        _ => Ok(setting),
    }
}

/// What one entry gives: its decoding, then Wasmtime's verdict on a target.
pub open spec fn entry_outcome(entry: ConfigEntry) -> Result<SettingModel, ErrorModel> {
    match decode_spec(entry) {
        Ok(setting) => apply_spec(setting),
        Err(e) => Err(e),
    }
}

/// What a sequence of entries gives: the settings in order, or the outcome of
/// the first entry that fails.
pub open spec fn entries_outcome(entries: Seq<ConfigEntry>) -> Result<Seq<SettingModel>, ErrorModel>
    decreases entries.len(),
{
    if entries.len() == 0 {
        Ok(Seq::empty())
    } else {
        match entries_outcome(entries.drop_last()) {
            Err(e) => Err(e),
            Ok(settings) => match entry_outcome(entries.last()) {
                Err(e) => Err(e),
                Ok(s) => Ok(settings.push(s)),
            },
        }
    }
}

/// Applies one decoded setting to a Wasmtime configuration.
pub fn apply_setting(config: &mut wasmtime::Config, setting: &ConfigSetting) -> (r: Result<(), RbError>)
    ensures
        match r {
            Ok(()) => {
                &&& apply_spec(setting@) matches Ok(applied)
                &&& config_settings(*final(config)) == config_settings(*old(config)).insert(
                    setting_option(applied),
                    applied,
                )
            },
            Err(e) => {
                &&& apply_spec(setting@) == Err::<SettingModel, ErrorModel>(e@)
                &&& config_settings(*final(config)) == config_settings(*old(config))
            },
        },
{
    match setting {
        ConfigSetting::DebugInfo(b) => config_debug_info(config, *b),
        ConfigSetting::WasmBacktraceDetails(d) => config_wasm_backtrace_details(config, *d),
        ConfigSetting::NativeUnwindInfo(b) => config_native_unwind_info(config, *b),
        ConfigSetting::ConsumeFuel(b) => config_consume_fuel(config, *b),
        ConfigSetting::EpochInterruption(b) => config_epoch_interruption(config, *b),
        ConfigSetting::MaxWasmStack(n) => config_max_wasm_stack(config, *n),
        ConfigSetting::WasmThreads(b) => config_wasm_threads(config, *b),
        ConfigSetting::WasmMultiMemory(b) => config_wasm_multi_memory(config, *b),
        ConfigSetting::WasmMemory64(b) => config_wasm_memory64(config, *b),
        ConfigSetting::Profiler(p) => config_profiler(config, *p),
        ConfigSetting::CraneliftOptLevel(l) => config_cranelift_opt_level(config, *l),
        ConfigSetting::ParallelCompilation(b) => config_parallel_compilation(config, *b),
        ConfigSetting::Target(t) => {
            match config_target(config, t.as_str()) {
                Ok(()) => {},
                Err(reason) => return Err(invalid_target(t.as_str(), reason.as_str())),
            }
        },
    }
    Ok(())
}

/// Builds a Wasmtime configuration from the entries of a configuration hash,
/// in the hash's order. Succeeds exactly when every entry decodes and Wasmtime
/// accepts every target; otherwise fails with the first failing entry's error.
/// The configuration holds Wasmtime's defaults with the entries' settings
/// applied in order.
pub fn hash_to_config(entries: &Vec<ConfigEntry>) -> (r: Result<wasmtime::Config, RbError>)
    ensures
        r is Ok <==> entries_outcome(entries@) is Ok,
        r matches Err(e) ==> entries_outcome(entries@) == Err::<Seq<SettingModel>, ErrorModel>(e@),
        r matches Ok(c) ==> entries_outcome(entries@) matches Ok(settings) && config_settings(c)
            == apply_all(default_settings(), settings),
{
    let mut config = config_new();
    let mut i: usize = 0;
    while i < entries.len()
        invariant
            i <= entries@.len(),
            entries_outcome(entries@.take(i as int)) matches Ok(settings) && config_settings(config)
                == apply_all(default_settings(), settings),
        decreases entries@.len() - i,
    {
        let ghost prefix = entries@.take(i as int + 1);
        let ghost before = entries_outcome(entries@.take(i as int))->Ok_0;
        assert(prefix.drop_last() =~= entries@.take(i as int));
        assert(prefix.last() == entries@[i as int]);
        let decoded = decode_entry(&entries[i]);
        let setting = match decoded {
            Ok(setting) => setting,
            Err(e) => {
                proof {
                    lemma_first_error_decides(prefix, entries@.skip(i as int + 1));
                    assert(prefix + entries@.skip(i as int + 1) =~= entries@);
                }
                return Err(e);
            },
        };
        match apply_setting(&mut config, &setting) {
            Ok(()) => {
                let ghost applied = apply_spec(setting@)->Ok_0;
                assert(entries_outcome(prefix) == Ok::<Seq<SettingModel>, ErrorModel>(
                    before.push(applied),
                ));
                assert(before.push(applied).drop_last() =~= before);
            },
            Err(e) => {
                proof {
                    lemma_first_error_decides(prefix, entries@.skip(i as int + 1));
                    assert(prefix + entries@.skip(i as int + 1) =~= entries@);
                }
                return Err(e);
            },
        }
        i = i + 1;
    }
    assert(entries@.take(entries@.len() as int) =~= entries@);
    Ok(config)
}

/// Once some entries fail, entries that follow them change nothing: the first
/// failing entry decides the outcome of the whole hash.
pub proof fn lemma_first_error_decides(first: Seq<ConfigEntry>, rest: Seq<ConfigEntry>)
    requires
        entries_outcome(first) is Err,
    ensures
        entries_outcome(first + rest) == entries_outcome(first),
    decreases rest.len(),
{
    if rest.len() == 0 {
        assert(first + rest =~= first);
    } else {
        lemma_first_error_decides(first, rest.drop_last());
        assert((first + rest).drop_last() =~= first + rest.drop_last());
    }
}

/// Whether an option takes a Ruby boolean (by truthiness).
pub open spec fn is_boolean_option(option: ConfigOption) -> bool {
    match option {
        ConfigOption::MaxWasmStack | ConfigOption::Profiler | ConfigOption::CraneliftOptLevel
        | ConfigOption::Target => false,
        _ => true,
    }
}

/// Every option is selected by its own name, and by no other option's name.
pub proof fn lemma_option_names_select_their_option(option: ConfigOption)
    ensures
        option_named(option_name(option)) == Some(option),
{
    reveal_strlit("debug_info");
    reveal_strlit("wasm_backtrace_details");
    reveal_strlit("native_unwind_info");
    reveal_strlit("consume_fuel");
    reveal_strlit("epoch_interruption");
    reveal_strlit("max_wasm_stack");
    reveal_strlit("wasm_threads");
    reveal_strlit("wasm_multi_memory");
    reveal_strlit("wasm_memory64");
    reveal_strlit("parallel_compilation");
    reveal_strlit("profiler");
    reveal_strlit("cranelift_opt_level");
    reveal_strlit("target");
    assert("debug_info"@.len() == 10);
    assert("wasm_backtrace_details"@.len() == 22);
    assert("native_unwind_info"@.len() == 18);
    assert("consume_fuel"@.len() == 12);
    assert("epoch_interruption"@.len() == 18);
    assert("max_wasm_stack"@.len() == 14);
    assert("wasm_threads"@.len() == 12);
    assert("wasm_multi_memory"@.len() == 17);
    assert("wasm_memory64"@.len() == 13);
    assert("parallel_compilation"@.len() == 20);
    assert("profiler"@.len() == 8);
    assert("cranelift_opt_level"@.len() == 19);
    assert("target"@.len() == 6);
    assert("epoch_interruption"@[0] != "native_unwind_info"@[0]);
    assert("wasm_threads"@[0] != "consume_fuel"@[0]);
    match option {
        ConfigOption::DebugInfo => {},
        ConfigOption::WasmBacktraceDetails => {},
        ConfigOption::NativeUnwindInfo => {},
        ConfigOption::ConsumeFuel => {},
        ConfigOption::EpochInterruption => {},
        ConfigOption::MaxWasmStack => {},
        ConfigOption::WasmThreads => {},
        ConfigOption::WasmMultiMemory => {},
        ConfigOption::WasmMemory64 => {},
        ConfigOption::Profiler => {},
        ConfigOption::CraneliftOptLevel => {},
        ConfigOption::ParallelCompilation => {},
        ConfigOption::Target => {},
    }
}

/// A boolean option accepts every Ruby value: it takes the value's
/// truthiness and never fails.
pub proof fn lemma_boolean_options_accept_every_value(entry: ConfigEntry)
    requires
        option_named(entry.name@) matches Some(option) && is_boolean_option(option),
    ensures
        entry_outcome(entry) is Ok,
{
}

/// A key that names no option fails with `ArgumentError`, whatever its value.
pub proof fn lemma_unknown_option_fails(entry: ConfigEntry)
    requires
        option_named(entry.name@) is None,
    ensures
        entry_outcome(entry) == Err::<SettingModel, ErrorModel>(unknown_option_error(entry)),
{
}

/// A hash is accepted exactly when each of its entries is accepted on its
/// own: entries do not depend on one another, and their order decides only
/// which error is raised.
pub proof fn lemma_accepted_iff_each_entry_accepted(entries: Seq<ConfigEntry>)
    ensures
        entries_outcome(entries) is Ok <==> forall|i: int|
            0 <= i < entries.len() ==> #[trigger] entry_outcome(entries[i]) is Ok,
    decreases entries.len(),
{
    if entries.len() > 0 {
        let prefix = entries.drop_last();
        lemma_accepted_iff_each_entry_accepted(prefix);
        if entries_outcome(entries) is Ok {
            assert forall|i: int| 0 <= i < entries.len() implies #[trigger] entry_outcome(
                entries[i],
            ) is Ok by {
                if i < entries.len() - 1 {
                    assert(prefix[i] == entries[i]);
                }
            }
        }
        if forall|i: int| 0 <= i < entries.len() ==> #[trigger] entry_outcome(entries[i]) is Ok {
            assert forall|i: int| 0 <= i < prefix.len() implies #[trigger] entry_outcome(
                prefix[i],
            ) is Ok by {
                assert(entry_outcome(entries[i]) is Ok);
            }
            assert(entry_outcome(entries[entries.len() - 1]) is Ok);
        }
    }
}

/// After settings are applied in order, each option holds the last setting
/// given for it; an option given no setting keeps what it held before.
pub proof fn lemma_option_holds_last_setting(
    base: Map<ConfigOption, SettingModel>,
    settings: Seq<SettingModel>,
    option: ConfigOption,
)
    ensures
        last_setting_for(settings, option) matches Some(s) ==> apply_all(base, settings).dom().contains(
            option,
        ) && apply_all(base, settings)[option] == s,
        last_setting_for(settings, option) is None ==> (apply_all(base, settings).dom().contains(
            option,
        ) <==> base.dom().contains(option)) && apply_all(base, settings)[option] == base[option],
    decreases settings.len(),
{
    if settings.len() > 0 {
        lemma_option_holds_last_setting(base, settings.drop_last(), option);
    }
}

/// An empty hash gives exactly Wasmtime's defaults.
pub proof fn lemma_empty_hash_gives_defaults()
    ensures
        entries_outcome(Seq::<ConfigEntry>::empty()) == Ok::<Seq<SettingModel>, ErrorModel>(
            Seq::empty(),
        ),
        apply_all(default_settings(), Seq::empty()) == default_settings(),
{
}

/// The on/off value of a setting of a boolean option, if it is one.
pub open spec fn setting_flag(setting: SettingModel) -> Option<bool> {
    match setting {
        SettingModel::DebugInfo(b) => Some(b),
        SettingModel::NativeUnwindInfo(b) => Some(b),
        SettingModel::ConsumeFuel(b) => Some(b),
        SettingModel::EpochInterruption(b) => Some(b),
        SettingModel::WasmThreads(b) => Some(b),
        SettingModel::WasmMultiMemory(b) => Some(b),
        SettingModel::WasmMemory64(b) => Some(b),
        SettingModel::ParallelCompilation(b) => Some(b),
        _ => None,
    }
}

/// Whether the option is switched on or off by a Ruby boolean.
pub open spec fn is_flag_option(option: ConfigOption) -> bool {
    ||| option == ConfigOption::DebugInfo
    ||| option == ConfigOption::NativeUnwindInfo
    ||| option == ConfigOption::ConsumeFuel
    ||| option == ConfigOption::EpochInterruption
    ||| option == ConfigOption::WasmThreads
    ||| option == ConfigOption::WasmMultiMemory
    ||| option == ConfigOption::WasmMemory64
    ||| option == ConfigOption::ParallelCompilation
}

/// A decoded entry is a setting of the option its key names.
pub proof fn lemma_decoded_setting_is_for_the_named_option(entry: ConfigEntry)
    ensures
        decode_spec(entry) matches Ok(s) ==> option_named(entry.name@) == Some(setting_option(s)),
{
}

/// A boolean option is switched on exactly when its value is truthy: the
/// setting is for that option and holds the value's truthiness, so `false`
/// and `nil` switch it off and anything else switches it on.
pub proof fn lemma_flag_options_hold_truthiness(entry: ConfigEntry)
    requires
        option_named(entry.name@) matches Some(o) && is_flag_option(o),
    ensures
        decode_spec(entry) matches Ok(s) && Some(setting_option(s)) == option_named(entry.name@)
            && setting_flag(s) == Some(entry.value.truthy),
{
}

/// Backtrace details are enabled exactly when the value is truthy.
pub proof fn lemma_backtrace_details_follow_truthiness(entry: ConfigEntry)
    requires
        option_named(entry.name@) == Some(ConfigOption::WasmBacktraceDetails),
    ensures
        decode_spec(entry) == Ok::<SettingModel, ErrorModel>(
            SettingModel::WasmBacktraceDetails(
                if entry.value.truthy {
                    WasmBacktraceDetails::Enable
                } else {
                    WasmBacktraceDetails::Disable
                },
            ),
        ),
{
}

/// `max_wasm_stack` takes exactly the Integer given, and fails with a
/// `TypeError` where the value is no Integer that fits a `usize`.
pub proof fn lemma_max_wasm_stack_takes_the_integer(entry: ConfigEntry)
    requires
        option_named(entry.name@) == Some(ConfigOption::MaxWasmStack),
    ensures
        entry.value.integer matches Some(n) ==> decode_spec(entry) == Ok::<SettingModel, ErrorModel>(
            SettingModel::MaxWasmStack(n),
        ),
        entry.value.integer is None ==> (decode_spec(entry) is Err && decode_spec(entry)->Err_0.0
            == ErrorKind::TypeError),
{
}

/// `target` takes exactly the String given, and fails with a `TypeError`
/// where the value is no String.
pub proof fn lemma_target_takes_the_string(entry: ConfigEntry)
    requires
        option_named(entry.name@) == Some(ConfigOption::Target),
    ensures
        entry.value.string matches Some(t) ==> decode_spec(entry) == Ok::<SettingModel, ErrorModel>(
            SettingModel::Target(t@),
        ),
        entry.value.string is None ==> (decode_spec(entry) is Err && decode_spec(entry)->Err_0.0
            == ErrorKind::TypeError),
{
}

/// Each profiler symbol selects its own strategy (`:none`, `:jitdump`,
/// `:vtune`), and any other value fails with an `ArgumentError`.
pub proof fn lemma_profiler_symbols(entry: ConfigEntry)
    requires
        option_named(entry.name@) == Some(ConfigOption::Profiler),
    ensures
        entry.value.symbol matches Some(s) && s@ == "none"@ ==> decode_spec(entry) == Ok::<
            SettingModel,
            ErrorModel,
        >(SettingModel::Profiler(ProfilingStrategy::Off)),
        entry.value.symbol matches Some(s) && s@ == "jitdump"@ ==> decode_spec(entry) == Ok::<
            SettingModel,
            ErrorModel,
        >(SettingModel::Profiler(ProfilingStrategy::JitDump)),
        entry.value.symbol matches Some(s) && s@ == "vtune"@ ==> decode_spec(entry) == Ok::<
            SettingModel,
            ErrorModel,
        >(SettingModel::Profiler(ProfilingStrategy::VTune)),
        !(entry.value.symbol matches Some(s) && (s@ == "none"@ || s@ == "jitdump"@ || s@
            == "vtune"@)) ==> (decode_spec(entry) is Err && decode_spec(entry)->Err_0.0
            == ErrorKind::ArgumentError),
{
    reveal_strlit("none");
    reveal_strlit("jitdump");
    reveal_strlit("vtune");
    assert("none"@.len() == 4);
    assert("jitdump"@.len() == 7);
    assert("vtune"@.len() == 5);
}

/// Each optimization symbol selects its own level (`:none`, `:speed`,
/// `:speed_and_size`), and any other value fails with an `ArgumentError`.
pub proof fn lemma_opt_level_symbols(entry: ConfigEntry)
    requires
        option_named(entry.name@) == Some(ConfigOption::CraneliftOptLevel),
    ensures
        entry.value.symbol matches Some(s) && s@ == "none"@ ==> decode_spec(entry) == Ok::<
            SettingModel,
            ErrorModel,
        >(SettingModel::CraneliftOptLevel(OptLevel::Off)),
        entry.value.symbol matches Some(s) && s@ == "speed"@ ==> decode_spec(entry) == Ok::<
            SettingModel,
            ErrorModel,
        >(SettingModel::CraneliftOptLevel(OptLevel::Speed)),
        entry.value.symbol matches Some(s) && s@ == "speed_and_size"@ ==> decode_spec(entry) == Ok::<
            SettingModel,
            ErrorModel,
        >(SettingModel::CraneliftOptLevel(OptLevel::SpeedAndSize)),
        !(entry.value.symbol matches Some(s) && (s@ == "none"@ || s@ == "speed"@ || s@
            == "speed_and_size"@)) ==> (decode_spec(entry) is Err && decode_spec(entry)->Err_0.0
            == ErrorKind::ArgumentError),
{
    reveal_strlit("none");
    reveal_strlit("speed");
    reveal_strlit("speed_and_size");
    assert("none"@.len() == 4);
    assert("speed"@.len() == 5);
    assert("speed_and_size"@.len() == 14);
}

/// Applying any setting but a target leaves the configuration holding exactly
/// that setting; a target is held as Wasmtime parses it, or is refused with
/// the parser's reason.
pub proof fn lemma_applied_setting_is_held(setting: SettingModel)
    ensures
        setting_option(setting) != ConfigOption::Target ==> apply_spec(setting) == Ok::<
            SettingModel,
            ErrorModel,
        >(setting),
        setting matches SettingModel::Target(t) ==> match target_parse(t) {
            Ok(parsed) => apply_spec(setting) == Ok::<SettingModel, ErrorModel>(
                SettingModel::Target(parsed),
            ),
            Err(reason) => apply_spec(setting) == Err::<SettingModel, ErrorModel>(
                invalid_target_error(t, reason),
            ),
        },
{
}

/// An accepted hash gives one setting per entry, in the entries' order, each
/// what its entry gives on its own.
pub proof fn lemma_accepted_settings_are_the_entries(entries: Seq<ConfigEntry>)
    ensures
        entries_outcome(entries) matches Ok(settings) ==> settings.len() == entries.len() && forall|
            i: int,
        |
            0 <= i < entries.len() ==> entry_outcome(#[trigger] entries[i]) == Ok::<
                SettingModel,
                ErrorModel,
            >(settings[i]),
    decreases entries.len(),
{
    if entries.len() > 0 {
        let prefix = entries.drop_last();
        lemma_accepted_settings_are_the_entries(prefix);
        if entries_outcome(entries) is Ok {
            let settings = entries_outcome(entries)->Ok_0;
            let before = entries_outcome(prefix)->Ok_0;
            assert forall|i: int| 0 <= i < entries.len() implies entry_outcome(#[trigger] entries[i])
                == Ok::<SettingModel, ErrorModel>(settings[i]) by {
                if i < entries.len() - 1 {
                    assert(prefix[i] == entries[i]);
                    assert(settings[i] == before[i]);
                }
            }
        }
    }
}

/// In the configuration built from an accepted hash, an option holds what
/// its last entry in the hash gives; an option with no entry keeps
/// Wasmtime's default.
pub proof fn lemma_config_holds_last_entry_for_each_option(
    entries: Seq<ConfigEntry>,
    i: int,
    option: ConfigOption,
)
    requires
        entries_outcome(entries) is Ok,
        0 <= i < entries.len(),
        entry_outcome(entries[i]) is Ok,
        setting_option(entry_outcome(entries[i])->Ok_0) == option,
        forall|j: int|
            i < j < entries.len() ==> !(entry_outcome(#[trigger] entries[j]) is Ok && setting_option(
                entry_outcome(entries[j])->Ok_0,
            ) == option),
    ensures
        apply_all(default_settings(), entries_outcome(entries)->Ok_0).dom().contains(option),
        apply_all(default_settings(), entries_outcome(entries)->Ok_0)[option] == entry_outcome(
            entries[i],
        )->Ok_0,
{
    let settings = entries_outcome(entries)->Ok_0;
    lemma_accepted_settings_are_the_entries(entries);
    assert forall|j: int| i < j < settings.len() implies setting_option(#[trigger] settings[j])
        != option by {
        assert(entry_outcome(entries[j]) == Ok::<SettingModel, ErrorModel>(settings[j]));
    }
    lemma_last_setting_at(settings, i, option);
    lemma_option_holds_last_setting(default_settings(), settings, option);
}

/// In the configuration built from an accepted hash, an option that no entry
/// sets keeps Wasmtime's default.
pub proof fn lemma_config_keeps_defaults_of_unset_options(entries: Seq<ConfigEntry>, option: ConfigOption)
    requires
        entries_outcome(entries) is Ok,
        forall|j: int|
            0 <= j < entries.len() ==> !(entry_outcome(#[trigger] entries[j]) is Ok && setting_option(
                entry_outcome(entries[j])->Ok_0,
            ) == option),
    ensures
        apply_all(default_settings(), entries_outcome(entries)->Ok_0).dom().contains(option)
            <==> default_settings().dom().contains(option),
        apply_all(default_settings(), entries_outcome(entries)->Ok_0)[option]
            == default_settings()[option],
{
    let settings = entries_outcome(entries)->Ok_0;
    lemma_accepted_settings_are_the_entries(entries);
    assert forall|j: int| 0 <= j < settings.len() implies setting_option(#[trigger] settings[j])
        != option by {
        assert(entry_outcome(entries[j]) == Ok::<SettingModel, ErrorModel>(settings[j]));
    }
    lemma_no_setting_for(settings, option);
    lemma_option_holds_last_setting(default_settings(), settings, option);
}

/// Where no setting is for an option, there is no last one.
proof fn lemma_no_setting_for(settings: Seq<SettingModel>, option: ConfigOption)
    requires
        forall|j: int| 0 <= j < settings.len() ==> setting_option(#[trigger] settings[j]) != option,
    ensures
        last_setting_for(settings, option) is None,
    decreases settings.len(),
{
    if settings.len() > 0 {
        let prefix = settings.drop_last();
        assert(setting_option(settings[settings.len() - 1]) != option);
        assert forall|j: int| 0 <= j < prefix.len() implies setting_option(#[trigger] prefix[j])
            != option by {
            assert(prefix[j] == settings[j]);
        }
        lemma_no_setting_for(prefix, option);
    }
}

/// The last setting for an option is the one at the last index that is for it.
proof fn lemma_last_setting_at(settings: Seq<SettingModel>, i: int, option: ConfigOption)
    requires
        0 <= i < settings.len(),
        setting_option(settings[i]) == option,
        forall|j: int| i < j < settings.len() ==> setting_option(#[trigger] settings[j]) != option,
    ensures
        last_setting_for(settings, option) == Some(settings[i]),
    decreases settings.len(),
{
    if i < settings.len() - 1 {
        let prefix = settings.drop_last();
        assert(setting_option(settings[settings.len() - 1]) != option);
        assert forall|j: int| i < j < prefix.len() implies setting_option(#[trigger] prefix[j])
            != option by {
            assert(prefix[j] == settings[j]);
        }
        lemma_last_setting_at(prefix, i, option);
    }
}

/// What of a value a conversion reads: two values that agree on it are alike
/// to whoever reads only that conversion.
pub open spec fn agree_on(conversion: ValueConversion, v1: RubyValue, v2: RubyValue) -> bool {
    match conversion {
        ValueConversion::Truthiness => v1.truthy == v2.truthy,
        ValueConversion::Integer => v1.integer == v2.integer && (v1.integer is None ==> v1.display@
            == v2.display@),
        ValueConversion::String => opt_text(v1.string) == opt_text(v2.string) && (v1.string is None
            ==> v1.display@ == v2.display@),
        ValueConversion::Symbol => opt_text(v1.symbol) == opt_text(v2.symbol) && v1.inspect@
            == v2.inspect@,
        ValueConversion::Nothing => true,
    }
}

/// The conversion asked for is all that decoding reads: entries whose values
/// agree on the conversion that their option asks for decode alike. And no
/// conversion is asked for exactly when the key names no option.
pub proof fn lemma_needed_conversion_suffices(e1: ConfigEntry, e2: ConfigEntry)
    requires
        e1.name@ == e2.name@,
        e1.name_inspect@ == e2.name_inspect@,
        agree_on(conversion_for(option_named(e1.name@)), e1.value, e2.value),
    ensures
        decode_spec(e1) == decode_spec(e2),
        conversion_for(option_named(e1.name@)) == ValueConversion::Nothing <==> option_named(
            e1.name@,
        ) is None,
{
}

} // verus!
