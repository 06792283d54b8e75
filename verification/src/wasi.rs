//! The WASI context builder: what a WASI context's standard streams, argument
//! list and environment are to be, and the building of that context with
//! `wasmtime-wasi`.
//!
//! A new builder has nothing: no stdin, stdout or stderr, no environment and
//! no arguments. Each setter replaces one of these and leaves the others.

use vstd::prelude::*;

use crate::error::{ErrorKind, RbError};
use wasi_cap_std_sync::WasiCtxBuilder as SyncCtxBuilder;
use crate::string_array::{
    cumulative_size, lemma_push_all_within_limits, limit_text, push_all, push_limit, StringArrayLimit,
};

verus! {

/// Where a WASI program's stdin comes from.
#[derive(Debug)]
pub enum ReadStream {
    /// The stdin of the host process.
    Inherit,
    /// The file at the path.
    Path(String),
    /// The given bytes.
    String(Vec<u8>),
}

/// Where a WASI program's stdout or stderr goes.
#[derive(Debug)]
pub enum WriteStream {
    /// The same stream of the host process.
    Inherit,
    /// The file at the path, truncated or created.
    Path(String),
}

/// The mathematical value of a [`ReadStream`].
pub enum ReadStreamModel {
    Inherit,
    Path(Seq<char>),
    String(Seq<u8>),
}

/// The mathematical value of a [`WriteStream`].
pub enum WriteStreamModel {
    Inherit,
    Path(Seq<char>),
}

impl View for ReadStream {
    type V = ReadStreamModel;

    open spec fn view(&self) -> ReadStreamModel {
        match self {
            ReadStream::Inherit => ReadStreamModel::Inherit,
            ReadStream::Path(p) => ReadStreamModel::Path(p@),
            ReadStream::String(s) => ReadStreamModel::String(s@),
        }
    }
}

impl View for WriteStream {
    type V = WriteStreamModel;

    open spec fn view(&self) -> WriteStreamModel {
        match self {
            WriteStream::Inherit => WriteStreamModel::Inherit,
            WriteStream::Path(p) => WriteStreamModel::Path(p@),
        }
    }
}

/// What a builder holds, as mathematical values.
#[verifier::ext_equal]
pub struct BuilderModel {
    pub stdin: Option<ReadStreamModel>,
    pub stdout: Option<WriteStreamModel>,
    pub stderr: Option<WriteStreamModel>,
    pub env: Option<Seq<(Seq<char>, Seq<char>)>>,
    pub args: Option<Seq<Seq<char>>>,
}

/// The builder that holds nothing.
pub open spec fn empty_builder() -> BuilderModel {
    BuilderModel { stdin: None, stdout: None, stderr: None, env: None, args: None }
}

/// The view of an optional read stream.
pub open spec fn read_stream_view(s: Option<ReadStream>) -> Option<ReadStreamModel> {
    match s {
        Some(s) => Some(s@),
        None => None,
    }
}

/// The view of an optional write stream.
pub open spec fn write_stream_view(s: Option<WriteStream>) -> Option<WriteStreamModel> {
    match s {
        Some(s) => Some(s@),
        None => None,
    }
}

/// The view of a list of strings.
pub open spec fn strings_view(v: Seq<String>) -> Seq<Seq<char>> {
    v.map_values(|s: String| s@)
}

/// The view of a list of pairs of strings.
pub open spec fn pairs_view(v: Seq<(String, String)>) -> Seq<(Seq<char>, Seq<char>)> {
    v.map_values(|p: (String, String)| (p.0@, p.1@))
}

/// WASI context builder: the standard streams, environment and arguments of
/// the WASI context to be built.
pub struct WasiCtxBuilder {
    stdin: Option<ReadStream>,
    stdout: Option<WriteStream>,
    stderr: Option<WriteStream>,
    env: Option<Vec<(String, String)>>,
    args: Option<Vec<String>>,
}

impl View for WasiCtxBuilder {
    type V = BuilderModel;

    closed spec fn view(&self) -> BuilderModel {
        BuilderModel {
            stdin: read_stream_view(self.stdin),
            stdout: write_stream_view(self.stdout),
            stderr: write_stream_view(self.stderr),
            env: match self.env {
                Some(env) => Some(pairs_view(env@)),
                None => None,
            },
            args: match self.args {
                Some(args) => Some(strings_view(args@)),
                None => None,
            },
        }
    }
}

impl WasiCtxBuilder {
    /// A builder with nothing: no stdin, stdout or stderr, no environment, no
    /// arguments.
    pub fn new() -> (b: WasiCtxBuilder)
        ensures
            b@ == empty_builder(),
    {
        WasiCtxBuilder { stdin: None, stdout: None, stderr: None, env: None, args: None }
    }

    /// Inherit stdin from the host process.
    pub fn inherit_stdin(&mut self)
        ensures
            final(self)@ == (BuilderModel { stdin: Some(ReadStreamModel::Inherit), ..old(self)@ }),
    {
        self.stdin = Some(ReadStream::Inherit);
    }

    /// Read stdin from the file at `path`.
    pub fn set_stdin_file(&mut self, path: String)
        ensures
            final(self)@ == (BuilderModel { stdin: Some(ReadStreamModel::Path(path@)), ..old(self)@ }),
    {
        self.stdin = Some(ReadStream::Path(path));
    }

    /// Read stdin from the given bytes.
    pub fn set_stdin_string(&mut self, content: Vec<u8>)
        ensures
            final(self)@ == (BuilderModel { stdin: Some(ReadStreamModel::String(content@)), ..old(self)@ }),
    {
        self.stdin = Some(ReadStream::String(content));
    }

    /// Inherit stdout from the host process.
    pub fn inherit_stdout(&mut self)
        ensures
            final(self)@ == (BuilderModel { stdout: Some(WriteStreamModel::Inherit), ..old(self)@ }),
    {
        self.stdout = Some(WriteStream::Inherit);
    }

    /// Write stdout to the file at `path`, truncating or creating it.
    pub fn set_stdout_file(&mut self, path: String)
        ensures
            final(self)@ == (BuilderModel { stdout: Some(WriteStreamModel::Path(path@)), ..old(self)@ }),
    {
        self.stdout = Some(WriteStream::Path(path));
    }

    /// Inherit stderr from the host process.
    pub fn inherit_stderr(&mut self)
        ensures
            final(self)@ == (BuilderModel { stderr: Some(WriteStreamModel::Inherit), ..old(self)@ }),
    {
        self.stderr = Some(WriteStream::Inherit);
    }

    /// Write stderr to the file at `path`, truncating or creating it.
    pub fn set_stderr_file(&mut self, path: String)
        ensures
            final(self)@ == (BuilderModel { stderr: Some(WriteStreamModel::Path(path@)), ..old(self)@ }),
    {
        self.stderr = Some(WriteStream::Path(path));
    }

    /// Set the environment to the given variables, in order.
    pub fn set_env(&mut self, env: Vec<(String, String)>)
        ensures
            final(self)@ == (BuilderModel { env: Some(pairs_view(env@)), ..old(self)@ }),
    {
        self.env = Some(env);
    }

    /// Set the arguments (argv) to the given strings, in order.
    pub fn set_argv(&mut self, argv: Vec<String>)
        ensures
            final(self)@ == (BuilderModel { args: Some(strings_view(argv@)), ..old(self)@ }),
    {
        self.args = Some(argv);
    }
}

impl WasiCtxBuilder {
    /// Where stdin is to come from, if set.
    pub fn stdin(&self) -> (r: &Option<ReadStream>)
        ensures
            read_stream_view(*r) == self@.stdin,
    {
        &self.stdin
    }

    /// Where stdout is to go, if set.
    pub fn stdout(&self) -> (r: &Option<WriteStream>)
        ensures
            write_stream_view(*r) == self@.stdout,
    {
        &self.stdout
    }

    /// Where stderr is to go, if set.
    pub fn stderr(&self) -> (r: &Option<WriteStream>)
        ensures
            write_stream_view(*r) == self@.stderr,
    {
        &self.stderr
    }

    /// The environment, if set.
    pub fn env(&self) -> (r: &Option<Vec<(String, String)>>)
        ensures
            self@.env == match *r {
                Some(env) => Some(pairs_view(env@)),
                None => None,
            },
    {
        &self.env
    }

    /// The arguments, if set.
    pub fn argv(&self) -> (r: &Option<Vec<String>>)
        ensures
            self@.args == match *r {
                Some(args) => Some(strings_view(args@)),
                None => None,
            },
    {
        &self.args
    }
}

/// The file, if any, that the stream on descriptor `fd` needs opened.
pub open spec fn open_for(fd: u32, path: Option<Seq<char>>) -> Seq<(u32, Seq<char>)> {
    match path {
        Some(p) => seq![(fd, p)],
        None => Seq::empty(),
    }
}

/// The path that stdin is to be read from, if it is a file.
pub open spec fn stdin_path(m: BuilderModel) -> Option<Seq<char>> {
    match m.stdin {
        Some(ReadStreamModel::Path(p)) => Some(p),
        _ => None,
    }
}

/// The path that an output stream is to be written to, if it is a file.
pub open spec fn output_path(s: Option<WriteStreamModel>) -> Option<Seq<char>> {
    match s {
        Some(WriteStreamModel::Path(p)) => Some(p),
        _ => None,
    }
}

/// The files that building a context needs opened, in the order they are
/// opened: stdin's (for reading), then stdout's, then stderr's (for writing).
pub open spec fn stdio_opens_spec(m: BuilderModel) -> Seq<(u32, Seq<char>)> {
    open_for(0, stdin_path(m)) + open_for(1, output_path(m.stdout)) + open_for(2, output_path(m.stderr))
}

impl WasiCtxBuilder {
    /// The files to open before the context is built, in order, each with the
    /// descriptor it is for: 0 is opened for reading, 1 and 2 are truncated or
    /// created for writing. Opening stops at the first file that fails, and
    /// the arguments and environment come after all of them.
    pub fn stdio_opens(&self) -> (r: Vec<(u32, String)>)
        ensures
            r@.map_values(|o: (u32, String)| (o.0, o.1@)) == stdio_opens_spec(self@),
    {
        let mut r: Vec<(u32, String)> = Vec::new();
        match &self.stdin {
            Some(ReadStream::Path(p)) => r.push((0, p.clone())),
            _ => {},
        }
        match &self.stdout {
            Some(WriteStream::Path(p)) => r.push((1, p.clone())),
            _ => {},
        }
        match &self.stderr {
            Some(WriteStream::Path(p)) => r.push((2, p.clone())),
            _ => {},
        }
        assert(r@.map_values(|o: (u32, String)| (o.0, o.1@)) =~= stdio_opens_spec(self@));
        r
    }
}

// ---------------------------------------------------------------------------
// wasmtime-wasi's builder and context
// ---------------------------------------------------------------------------

#[verifier::external_type_specification]
#[verifier::external_body]
pub struct ExWasiBuilder(SyncCtxBuilder);

#[verifier::external_type_specification]
#[verifier::external_body]
pub struct ExWasiCtx(wasi_common::WasiCtx);

#[verifier::external_type_specification]
#[verifier::external_body]
pub struct ExWasiFile(wasi_cap_std_sync::file::File);

/// The argument list held by a `wasi_cap_std_sync::WasiCtxBuilder`.
pub uninterp spec fn wasi_builder_args(b: SyncCtxBuilder) -> Seq<Seq<char>>;

/// The environment (`KEY=value` strings) held by a
/// `wasi_cap_std_sync::WasiCtxBuilder`.
pub uninterp spec fn wasi_builder_env(b: SyncCtxBuilder) -> Seq<Seq<char>>;

/// The argument list of a `wasi_common::WasiCtx` (its `args` array).
pub uninterp spec fn wasi_ctx_args(c: wasi_common::WasiCtx) -> Seq<Seq<char>>;

/// The environment of a `wasi_common::WasiCtx` (its `env` array).
pub uninterp spec fn wasi_ctx_env(c: wasi_common::WasiCtx) -> Seq<Seq<char>>;

/// What a file descriptor of a WASI context's table holds.
pub enum FdModel {
    /// A pipe that reads nothing.
    EmptyInput,
    /// A pipe that discards what is written.
    Sink,
    /// The host process's stream of the same number (stdin, stdout or stderr).
    Inherit,
    /// The given open file.
    File(wasi_cap_std_sync::file::File),
    /// A pipe that reads the given bytes.
    Bytes(Seq<u8>),
}

/// The file table of the context that a `wasi_cap_std_sync::WasiCtxBuilder`
/// holds: what each occupied file descriptor holds.
pub uninterp spec fn wasi_builder_table(b: SyncCtxBuilder) -> Map<u32, FdModel>;

/// The file table of a `wasi_common::WasiCtx` (its `table`).
pub uninterp spec fn wasi_ctx_table(c: wasi_common::WasiCtx) -> Map<u32, FdModel>;

/// The table of a new context: stdin reads nothing, stdout and stderr
/// discard, and no other descriptor (no preopened directory) is occupied.
pub open spec fn default_table() -> Map<u32, FdModel> {
    map![0u32 => FdModel::EmptyInput, 1u32 => FdModel::Sink, 2u32 => FdModel::Sink]
}

/// `wasi_cap_std_sync::WasiCtxBuilder::new`: a builder whose context has no
/// arguments, no environment, and the default table.
#[verifier::external_body]
fn wasi_builder_new() -> (b: SyncCtxBuilder)
    ensures
        wasi_builder_args(b) == Seq::<Seq<char>>::empty(),
        wasi_builder_env(b) == Seq::<Seq<char>>::empty(),
        wasi_builder_table(b) == default_table(),
{
    SyncCtxBuilder::new()
}

/// `WasiCtxBuilder::inherit_stdin`: installs the host's stdin and leaves the
/// arguments and environment as they were. Descriptor 0 now holds the host's stdin;
/// the rest of the table stays. The access rights given with it are not stated.
#[verifier::external_body]
fn wasi_builder_inherit_stdin(b: SyncCtxBuilder) -> (r: SyncCtxBuilder)
    ensures
        wasi_builder_args(r) == wasi_builder_args(b),
        wasi_builder_env(r) == wasi_builder_env(b),
        wasi_builder_table(r) == wasi_builder_table(b).insert(0u32, FdModel::Inherit),
{
    b.inherit_stdin()
}

/// `WasiCtxBuilder::inherit_stdout`: installs the host's stdout and leaves the
/// arguments and environment as they were. Descriptor 1 now holds the host's stdout;
/// the rest of the table stays. The access rights given with it are not stated.
#[verifier::external_body]
fn wasi_builder_inherit_stdout(b: SyncCtxBuilder) -> (r: SyncCtxBuilder)
    ensures
        wasi_builder_args(r) == wasi_builder_args(b),
        wasi_builder_env(r) == wasi_builder_env(b),
        wasi_builder_table(r) == wasi_builder_table(b).insert(1u32, FdModel::Inherit),
{
    b.inherit_stdout()
}

/// `WasiCtxBuilder::inherit_stderr`: installs the host's stderr and leaves the
/// arguments and environment as they were. Descriptor 2 now holds the host's stderr;
/// the rest of the table stays. The access rights given with it are not stated.
#[verifier::external_body]
fn wasi_builder_inherit_stderr(b: SyncCtxBuilder) -> (r: SyncCtxBuilder)
    ensures
        wasi_builder_args(r) == wasi_builder_args(b),
        wasi_builder_env(r) == wasi_builder_env(b),
        wasi_builder_table(r) == wasi_builder_table(b).insert(2u32, FdModel::Inherit),
{
    b.inherit_stderr()
}

/// `WasiCtxBuilder::stdin` with an open file: installs it as stdin and leaves
/// the arguments and environment as they were. Descriptor 0 now holds
/// the file; the rest of the table stays. The access rights are not stated.
#[verifier::external_body]
fn wasi_builder_stdin_file(
    b: SyncCtxBuilder,
    file: Box<wasi_cap_std_sync::file::File>,
) -> (r: SyncCtxBuilder)
    ensures
        wasi_builder_args(r) == wasi_builder_args(b),
        wasi_builder_env(r) == wasi_builder_env(b),
        wasi_builder_table(r) == wasi_builder_table(b).insert(0u32, FdModel::File(*file)),
{
    b.stdin(file)
}

/// `WasiCtxBuilder::stdin` with `ReadPipe::from(Vec<u8>)`: installs a pipe
/// that reads the given bytes as stdin and leaves the arguments and
/// environment as they were. (The pipe's type has a bound that Verus cannot
/// declare, so it is made here and handed straight to the builder.) Descriptor 0
/// now holds that pipe; the rest of the table stays. The access rights are not
/// stated.
#[verifier::external_body]
fn wasi_builder_stdin_bytes(b: SyncCtxBuilder, bytes: Vec<u8>) -> (r: SyncCtxBuilder)
    ensures
        wasi_builder_args(r) == wasi_builder_args(b),
        wasi_builder_env(r) == wasi_builder_env(b),
        wasi_builder_table(r) == wasi_builder_table(b).insert(0u32, FdModel::Bytes(bytes@)),
{
    b.stdin(Box::new(wasi_common::pipe::ReadPipe::from(bytes)))
}

/// `WasiCtxBuilder::stdout` with an open file: installs it as stdout and
/// leaves the arguments and environment as they were. Descriptor 1 now holds
/// the file; the rest of the table stays. The access rights are not stated.
#[verifier::external_body]
fn wasi_builder_stdout_file(
    b: SyncCtxBuilder,
    file: Box<wasi_cap_std_sync::file::File>,
) -> (r: SyncCtxBuilder)
    ensures
        wasi_builder_args(r) == wasi_builder_args(b),
        wasi_builder_env(r) == wasi_builder_env(b),
        wasi_builder_table(r) == wasi_builder_table(b).insert(1u32, FdModel::File(*file)),
{
    b.stdout(file)
}

/// `WasiCtxBuilder::stderr` with an open file: installs it as stderr and
/// leaves the arguments and environment as they were. Descriptor 2 now holds
/// the file; the rest of the table stays. The access rights are not stated.
#[verifier::external_body]
fn wasi_builder_stderr_file(
    b: SyncCtxBuilder,
    file: Box<wasi_cap_std_sync::file::File>,
) -> (r: SyncCtxBuilder)
    ensures
        wasi_builder_args(r) == wasi_builder_args(b),
        wasi_builder_env(r) == wasi_builder_env(b),
        wasi_builder_table(r) == wasi_builder_table(b).insert(2u32, FdModel::File(*file)),
{
    b.stderr(file)
}

/// `WasiCtxBuilder::arg`: pushes the argument onto the argument list (leaving
/// the environment and the table), or fails
/// with the message of the limit that the push breaks (the string array's
/// checks, in their order).
#[verifier::external_body]
fn wasi_builder_arg(b: SyncCtxBuilder, arg: &str) -> (r: Result<
    SyncCtxBuilder,
    String,
>)
    ensures
        match r {
            Ok(nb) => {
                &&& push_limit(wasi_builder_args(b), arg@) is None
                &&& wasi_builder_args(nb) == wasi_builder_args(b).push(arg@)
                &&& wasi_builder_env(nb) == wasi_builder_env(b)
                &&& wasi_builder_table(nb) == wasi_builder_table(b)
            },
            Err(message) => push_limit(wasi_builder_args(b), arg@) matches Some(l) && message@
                == limit_text(l),
        },
{
    b.arg(arg).map_err(|e| format!("{}", e))
}

/// The `KEY=value` string that an environment variable is stored as.
pub open spec fn env_string(pair: (Seq<char>, Seq<char>)) -> Seq<char> {
    pair.0 + seq!['='] + pair.1
}

/// The `KEY=value` strings of a list of environment variables.
pub open spec fn env_strings(pairs: Seq<(Seq<char>, Seq<char>)>) -> Seq<Seq<char>> {
    pairs.map_values(|p: (Seq<char>, Seq<char>)| env_string(p))
}

/// `WasiCtxBuilder::envs`: pushes each `KEY=value` onto the environment in
/// order (leaving the arguments and the table), or fails with the message of the limit that the first failing push
/// breaks.
#[verifier::external_body]
fn wasi_builder_envs(b: SyncCtxBuilder, env: &[(String, String)]) -> (r: Result<
    SyncCtxBuilder,
    String,
>)
    ensures
        match r {
            Ok(nb) => {
                &&& push_all(wasi_builder_env(b), env_strings(pairs_view(env@))) == Ok::<
                    Seq<Seq<char>>,
                    StringArrayLimit,
                >(wasi_builder_env(nb))
                &&& wasi_builder_args(nb) == wasi_builder_args(b)
                &&& wasi_builder_table(nb) == wasi_builder_table(b)
            },
            Err(message) => push_all(wasi_builder_env(b), env_strings(pairs_view(env@))) matches Err(
                l,
            ) && message@ == limit_text(l),
        },
{
    b.envs(env).map_err(|e| format!("{}", e))
}

/// `WasiCtxBuilder::build`: the context, with the builder's arguments,
/// environment and table.
#[verifier::external_body]
fn wasi_builder_build(b: SyncCtxBuilder) -> (c: wasi_common::WasiCtx)
    ensures
        wasi_ctx_args(c) == wasi_builder_args(b),
        wasi_ctx_env(c) == wasi_builder_env(b),
        wasi_ctx_table(c) == wasi_builder_table(b),
{
    b.build()
}

/// The files opened for the standard streams that a builder sends to a path:
/// stdin opened for reading, stdout and stderr for writing.
pub struct StdioFiles {
    pub stdin: Option<Box<wasi_cap_std_sync::file::File>>,
    pub stdout: Option<Box<wasi_cap_std_sync::file::File>>,
    pub stderr: Option<Box<wasi_cap_std_sync::file::File>>,
}

impl StdioFiles {
    /// No files: for a builder that sends no stream to a path.
    pub fn none() -> (f: StdioFiles)
        ensures
            f.stdin is None,
            f.stdout is None,
            f.stderr is None,
    {
        StdioFiles { stdin: None, stdout: None, stderr: None }
    }
}

/// Whether the builder sends stdin to a path.
pub open spec fn stdin_is_path(m: BuilderModel) -> bool {
    m.stdin matches Some(ReadStreamModel::Path(_))
}

/// Whether the builder sends stdout to a path.
pub open spec fn stdout_is_path(m: BuilderModel) -> bool {
    m.stdout matches Some(WriteStreamModel::Path(_))
}

/// Whether the builder sends stderr to a path.
pub open spec fn stderr_is_path(m: BuilderModel) -> bool {
    m.stderr matches Some(WriteStreamModel::Path(_))
}

/// What descriptor 0 of the built context holds.
pub open spec fn expected_stdin(m: BuilderModel, files: StdioFiles) -> FdModel {
    match m.stdin {
        None => FdModel::EmptyInput,
        Some(ReadStreamModel::Inherit) => FdModel::Inherit,
        Some(ReadStreamModel::Path(_)) => FdModel::File(*files.stdin.unwrap()),
        Some(ReadStreamModel::String(bytes)) => FdModel::Bytes(bytes),
    }
}

/// What descriptor 1 or 2 of the built context holds, for the stream's
/// setting and the file opened for it.
pub open spec fn expected_output(s: Option<WriteStreamModel>, file: Option<Box<wasi_cap_std_sync::file::File>>) -> FdModel {
    match s {
        None => FdModel::Sink,
        Some(WriteStreamModel::Inherit) => FdModel::Inherit,
        Some(WriteStreamModel::Path(_)) => FdModel::File(*file.unwrap()),
    }
}

/// The file table of the context built from a builder and the files opened
/// for it: the three standard streams and nothing else.
pub open spec fn expected_table(m: BuilderModel, files: StdioFiles) -> Map<u32, FdModel> {
    map![
        0u32 => expected_stdin(m, files),
        1u32 => expected_output(m.stdout, files.stdout),
        2u32 => expected_output(m.stderr, files.stderr),
    ]
}

/// The error that a limit of a string array raises.
pub open spec fn limit_error(l: StringArrayLimit) -> (ErrorKind, Seq<char>) {
    (ErrorKind::WasmtimeError, limit_text(l))
}

/// What building a context from a builder gives: its argument list and its
/// environment, or the error of the first argument, else of the first
/// environment variable, that does not fit.
pub open spec fn build_outcome(m: BuilderModel) -> Result<(Seq<Seq<char>>, Seq<Seq<char>>), (ErrorKind, Seq<char>)> {
    let args = match m.args {
        Some(a) => a,
        None => Seq::empty(),
    };
    let env = match m.env {
        Some(e) => env_strings(e),
        None => Seq::empty(),
    };
    match push_all(Seq::empty(), args) {
        Err(l) => Err(limit_error(l)),
        Ok(a) => match push_all(Seq::empty(), env) {
            Err(l) => Err(limit_error(l)),
            Ok(e) => Ok((a, e)),
        },
    }
}

impl WasiCtxBuilder {
    /// Builds the WASI context: the standard streams as set (each file taken
    /// from `files`, each stream not set left as in a new context), then the
    /// arguments one by one, then the environment. The context has no other
    /// descriptor, so no preopened directory.
    pub fn build_context(&self, files: StdioFiles) -> (r: Result<wasi_common::WasiCtx, RbError>)
        requires
            files.stdin is Some <==> stdin_is_path(self@),
            files.stdout is Some <==> stdout_is_path(self@),
            files.stderr is Some <==> stderr_is_path(self@),
        ensures
            match r {
                Ok(c) => {
                    &&& build_outcome(self@) == Ok::<
                        (Seq<Seq<char>>, Seq<Seq<char>>),
                        (ErrorKind, Seq<char>),
                    >((wasi_ctx_args(c), wasi_ctx_env(c)))
                    &&& wasi_ctx_table(c) == expected_table(self@, files)
                },
                Err(e) => build_outcome(self@) == Err::<
                    (Seq<Seq<char>>, Seq<Seq<char>>),
                    (ErrorKind, Seq<char>),
                >(e@),
            },
    {
        let ghost expected = expected_table(self@, files);
        let StdioFiles { stdin: stdin_file, stdout: stdout_file, stderr: stderr_file } = files;
        let mut builder = wasi_builder_new();
        match &self.stdin {
            Some(ReadStream::Inherit) => {
                builder = wasi_builder_inherit_stdin(builder);
            },
            Some(ReadStream::Path(_)) => {
                builder = wasi_builder_stdin_file(builder, stdin_file.unwrap());
            },
            Some(ReadStream::String(bytes)) => {
                builder = wasi_builder_stdin_bytes(builder, bytes.clone());
            },
            None => {},
        }
        match &self.stdout {
            Some(WriteStream::Inherit) => {
                builder = wasi_builder_inherit_stdout(builder);
            },
            Some(WriteStream::Path(_)) => {
                builder = wasi_builder_stdout_file(builder, stdout_file.unwrap());
            },
            None => {},
        }
        match &self.stderr {
            Some(WriteStream::Inherit) => {
                builder = wasi_builder_inherit_stderr(builder);
            },
            Some(WriteStream::Path(_)) => {
                builder = wasi_builder_stderr_file(builder, stderr_file.unwrap());
            },
            None => {},
        }
        assert(wasi_builder_table(builder) =~= expected);
        let ghost args_model = match self@.args {
            Some(a) => a,
            None => Seq::<Seq<char>>::empty(),
        };
        match &self.args {
            Some(args) => {
                let mut i: usize = 0;
                while i < args.len()
                    invariant
                        i <= args@.len(),
                        args_model == strings_view(args@),
                        self@.args == Some(args_model),
                        push_all(Seq::empty(), args_model.take(i as int)) == Ok::<
                            Seq<Seq<char>>,
                            StringArrayLimit,
                        >(wasi_builder_args(builder)),
                        wasi_builder_env(builder) == Seq::<Seq<char>>::empty(),
                        wasi_builder_table(builder) == expected,
                    decreases args@.len() - i,
                {
                    let ghost before = wasi_builder_args(builder);
                    assert(args_model.take(i as int + 1).drop_last() =~= args_model.take(i as int));
                    assert(args_model.take(i as int + 1).last() == args@[i as int]@);
                    match wasi_builder_arg(builder, args[i].as_str()) {
                        Ok(b) => {
                            builder = b;
                        },
                        Err(message) => {
                            proof {
                                let prefix = args_model.take(i as int + 1);
                                assert(push_all(Seq::empty(), prefix) is Err);
                                lemma_push_all_error_persists(
                                    Seq::empty(),
                                    args_model.take(i as int + 1),
                                    args_model.skip(i as int + 1),
                                );
                                assert(args_model.take(i as int + 1) + args_model.skip(i as int + 1)
                                    =~= args_model);
                                let l = push_limit(before, args@[i as int]@).unwrap();
                                assert(push_all(Seq::empty(), args_model) == Err::<
                                    Seq<Seq<char>>,
                                    StringArrayLimit,
                                >(l));
                            }
                            return Err(RbError::new(ErrorKind::WasmtimeError, message));
                        },
                    }
                    i = i + 1;
                }
                assert(args_model.take(args@.len() as int) =~= args_model);
            },
            None => {
                assert(args_model =~= Seq::<Seq<char>>::empty());
            },
        }
        match &self.env {
            Some(env) => {
                match wasi_builder_envs(builder, env.as_slice()) {
                    Ok(b) => {
                        builder = b;
                    },
                    Err(message) => {
                        return Err(RbError::new(ErrorKind::WasmtimeError, message));
                    },
                }
            },
            None => {},
        }
        Ok(wasi_builder_build(builder))
    }
}

/// Once a string does not fit, the strings after it change nothing: pushing
/// fails with the limit of the first string that does not fit.
pub proof fn lemma_push_all_error_persists(elems: Seq<Seq<char>>, first: Seq<Seq<char>>, rest: Seq<Seq<char>>)
    requires
        push_all(elems, first) is Err,
    ensures
        push_all(elems, first + rest) == push_all(elems, first),
    decreases rest.len(),
{
    if rest.len() == 0 {
        assert(first + rest =~= first);
    } else {
        lemma_push_all_error_persists(elems, first, rest.drop_last());
        assert((first + rest).drop_last() =~= first + rest.drop_last());
    }
}

/// A new builder builds a context with no arguments and no environment.
pub proof fn lemma_new_builder_builds_empty_context()
    ensures
        build_outcome(empty_builder()) == Ok::<
            (Seq<Seq<char>>, Seq<Seq<char>>),
            (ErrorKind, Seq<char>),
        >((Seq::empty(), Seq::empty())),
{
}

/// A new builder builds a context whose table is that of a new context: stdin
/// reads nothing, stdout and stderr discard, and nothing else is open.
pub proof fn lemma_new_builder_builds_default_table(files: StdioFiles)
    ensures
        expected_table(empty_builder(), files) == default_table(),
{
    assert(expected_table(empty_builder(), files) =~= default_table());
}

/// Setting stdin twice keeps only the second setting.
pub proof fn lemma_stdin_last_setting_wins(m: BuilderModel, first: ReadStreamModel, second: ReadStreamModel)
    ensures
        (BuilderModel { stdin: Some(second), ..(BuilderModel { stdin: Some(first), ..m }) })
            == (BuilderModel { stdin: Some(second), ..m }),
{
}

/// Setting stdout twice keeps only the second setting.
pub proof fn lemma_stdout_last_setting_wins(m: BuilderModel, first: WriteStreamModel, second: WriteStreamModel)
    ensures
        (BuilderModel { stdout: Some(second), ..(BuilderModel { stdout: Some(first), ..m }) })
            == (BuilderModel { stdout: Some(second), ..m }),
{
}

/// Setting stderr twice keeps only the second setting.
pub proof fn lemma_stderr_last_setting_wins(m: BuilderModel, first: WriteStreamModel, second: WriteStreamModel)
    ensures
        (BuilderModel { stderr: Some(second), ..(BuilderModel { stderr: Some(first), ..m }) })
            == (BuilderModel { stderr: Some(second), ..m }),
{
}

/// Setting the environment twice keeps only the second one.
pub proof fn lemma_env_last_setting_wins(
    m: BuilderModel,
    first: Seq<(Seq<char>, Seq<char>)>,
    second: Seq<(Seq<char>, Seq<char>)>,
)
    ensures
        (BuilderModel { env: Some(second), ..(BuilderModel { env: Some(first), ..m }) })
            == (BuilderModel { env: Some(second), ..m }),
{
}

/// Setting the arguments twice keeps only the second list.
pub proof fn lemma_argv_last_setting_wins(m: BuilderModel, first: Seq<Seq<char>>, second: Seq<Seq<char>>)
    ensures
        (BuilderModel { args: Some(second), ..(BuilderModel { args: Some(first), ..m }) })
            == (BuilderModel { args: Some(second), ..m }),
{
}

/// The standard streams play no part in whether a context builds, nor in its
/// arguments and environment: two builders with the same arguments and
/// environment build alike.
pub proof fn lemma_streams_leave_outcome_unchanged(m1: BuilderModel, m2: BuilderModel)
    requires
        m1.args == m2.args,
        m1.env == m2.env,
    ensures
        build_outcome(m1) == build_outcome(m2),
{
}

/// Within the WASI limits, the context gets the arguments exactly as set, in
/// order, and the environment as `KEY=value` strings, in order.
pub proof fn lemma_context_holds_args_and_env(m: BuilderModel, args: Seq<Seq<char>>, env: Seq<(Seq<char>, Seq<char>)>)
    requires
        m.args == Some(args),
        m.env == Some(env),
        args.len() < u32::MAX,
        cumulative_size(args) <= u32::MAX,
        env.len() < u32::MAX,
        cumulative_size(env_strings(env)) <= u32::MAX,
    ensures
        build_outcome(m) == Ok::<
            (Seq<Seq<char>>, Seq<Seq<char>>),
            (ErrorKind, Seq<char>),
        >((args, env_strings(env))),
{
    lemma_push_all_within_limits(args);
    lemma_push_all_within_limits(env_strings(env));
}

/// The files to open are exactly those of the streams set to a path, each
/// once, in descriptor order: so opening them gives the files that
/// `build_context` asks for.
pub proof fn lemma_opens_are_the_path_streams(m: BuilderModel)
    ensures
        forall|i: int, j: int|
            0 <= i < j < stdio_opens_spec(m).len() ==> #[trigger] stdio_opens_spec(m)[i].0
                < #[trigger] stdio_opens_spec(m)[j].0,
        (exists|i: int| 0 <= i < stdio_opens_spec(m).len() && #[trigger] stdio_opens_spec(m)[i].0 == 0)
            <==> stdin_is_path(m),
        (exists|i: int| 0 <= i < stdio_opens_spec(m).len() && #[trigger] stdio_opens_spec(m)[i].0 == 1)
            <==> stdout_is_path(m),
        (exists|i: int| 0 <= i < stdio_opens_spec(m).len() && #[trigger] stdio_opens_spec(m)[i].0 == 2)
            <==> stderr_is_path(m),
{
    let a = open_for(0, stdin_path(m));
    let b = open_for(1, output_path(m.stdout));
    let c = open_for(2, output_path(m.stderr));
    let all = stdio_opens_spec(m);
    assert forall|i: int| 0 <= i < all.len() implies (#[trigger] all[i]).0 == (if i < a.len() {
        0u32
    } else if i < a.len() + b.len() {
        1u32
    } else {
        2u32
    }) by {
        if i < a.len() {
            assert(all[i] == a[i]);
        } else if i < a.len() + b.len() {
            assert(all[i] == b[i - a.len()]);
        } else {
            assert(all[i] == c[i - a.len() - b.len()]);
        }
    }
    if stdin_is_path(m) {
        assert(all[0].0 == 0);
    }
    if stdout_is_path(m) {
        assert(all[a.len() as int].0 == 1);
    }
    if stderr_is_path(m) {
        assert(all[(a.len() + b.len()) as int].0 == 2);
    }
}

/// The built context's descriptors 0, 1 and 2 follow the streams as set, and
/// no other descriptor is open: an unset stdin reads nothing and an unset
/// stdout or stderr discards; an inherited stream is the host's; a stream set
/// to a path is the file opened for it; stdin set to bytes reads exactly those
/// bytes.
pub proof fn lemma_table_follows_the_streams(m: BuilderModel, files: StdioFiles)
    ensures
        expected_table(m, files).dom() == set![0u32, 1u32, 2u32],
        m.stdin is None ==> expected_table(m, files)[0] == FdModel::EmptyInput,
        m.stdin == Some(ReadStreamModel::Inherit) ==> expected_table(m, files)[0] == FdModel::Inherit,
        m.stdin matches Some(ReadStreamModel::Path(_)) ==> expected_table(m, files)[0]
            == FdModel::File(*files.stdin.unwrap()),
        m.stdin matches Some(ReadStreamModel::String(b)) ==> expected_table(m, files)[0]
            == FdModel::Bytes(b),
        m.stdout is None ==> expected_table(m, files)[1] == FdModel::Sink,
        m.stdout == Some(WriteStreamModel::Inherit) ==> expected_table(m, files)[1]
            == FdModel::Inherit,
        m.stdout matches Some(WriteStreamModel::Path(_)) ==> expected_table(m, files)[1]
            == FdModel::File(*files.stdout.unwrap()),
        m.stderr is None ==> expected_table(m, files)[2] == FdModel::Sink,
        m.stderr == Some(WriteStreamModel::Inherit) ==> expected_table(m, files)[2]
            == FdModel::Inherit,
        m.stderr matches Some(WriteStreamModel::Path(_)) ==> expected_table(m, files)[2]
            == FdModel::File(*files.stderr.unwrap()),
{
    assert(expected_table(m, files).dom() =~= set![0u32, 1u32, 2u32]);
}

} // verus!
