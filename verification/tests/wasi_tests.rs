use wasmtime_rb::wasi::{ReadStream, StdioFiles, WasiCtxBuilder, WriteStream};

#[test]
fn new_builder_has_nothing() {
    let b = WasiCtxBuilder::new();
    assert!(b.stdin().is_none());
    assert!(b.stdout().is_none());
    assert!(b.stderr().is_none());
    assert!(b.env().is_none());
    assert!(b.argv().is_none());
}

#[test]
fn new_builder_builds_a_context_without_args_or_env() {
    let b = WasiCtxBuilder::new();
    let ctx = b.build_context(StdioFiles::none()).ok().expect("builds");
    assert_eq!(ctx.args.number_elements(), 0);
    assert_eq!(ctx.env.number_elements(), 0);
}

#[test]
fn setters_replace_one_stream_each() {
    let mut b = WasiCtxBuilder::new();
    b.inherit_stdin();
    assert!(matches!(b.stdin(), Some(ReadStream::Inherit)));
    b.set_stdin_file("in.txt".to_string());
    assert!(matches!(b.stdin(), Some(ReadStream::Path(p)) if p == "in.txt"));
    b.set_stdin_string(b"hello".to_vec());
    assert!(matches!(b.stdin(), Some(ReadStream::String(s)) if s == b"hello"));
    assert!(b.stdout().is_none());
    assert!(b.stderr().is_none());

    b.set_stdout_file("out.txt".to_string());
    assert!(matches!(b.stdout(), Some(WriteStream::Path(p)) if p == "out.txt"));
    b.inherit_stdout();
    assert!(matches!(b.stdout(), Some(WriteStream::Inherit)));

    b.inherit_stderr();
    assert!(matches!(b.stderr(), Some(WriteStream::Inherit)));
    b.set_stderr_file("err.txt".to_string());
    assert!(matches!(b.stderr(), Some(WriteStream::Path(p)) if p == "err.txt"));

    assert!(matches!(b.stdin(), Some(ReadStream::String(_))));
    assert!(matches!(b.stdout(), Some(WriteStream::Inherit)));
}

#[test]
fn last_argv_and_env_win() {
    let mut b = WasiCtxBuilder::new();
    b.set_argv(vec!["a".to_string()]);
    b.set_argv(vec!["x".to_string(), "yz".to_string()]);
    assert_eq!(b.argv().as_ref().unwrap(), &vec!["x".to_string(), "yz".to_string()]);
    b.set_env(vec![("A".to_string(), "1".to_string())]);
    b.set_env(vec![]);
    assert_eq!(b.env().as_ref().unwrap().len(), 0);
}

#[test]
fn context_gets_args_and_env_in_order() {
    let mut b = WasiCtxBuilder::new();
    b.set_argv(vec!["prog".to_string(), "--flag".to_string(), "é".to_string()]);
    b.set_env(vec![
        ("HOME".to_string(), "/home/x".to_string()),
        ("EMPTY".to_string(), String::new()),
    ]);
    let ctx = b.build_context(StdioFiles::none()).ok().expect("builds");
    assert_eq!(ctx.args.number_elements(), 3);
    // "prog\0" + "--flag\0" + "é\0" (two bytes for é)
    assert_eq!(ctx.args.cumulative_size(), 5 + 7 + 3);
    assert_eq!(ctx.env.number_elements(), 2);
    // "HOME=/home/x\0" + "EMPTY=\0"
    assert_eq!(ctx.env.cumulative_size(), 13 + 7);
}

#[test]
fn inherited_and_in_memory_streams_build() {
    let mut b = WasiCtxBuilder::new();
    b.set_stdin_string(b"input".to_vec());
    b.inherit_stdout();
    b.inherit_stderr();
    b.set_argv(vec!["prog".to_string()]);
    b.set_env(vec![("K".to_string(), "V".to_string())]);
    let ctx = b.build_context(StdioFiles::none()).ok().expect("builds");
    assert_eq!(ctx.args.number_elements(), 1);
    assert_eq!(ctx.env.number_elements(), 1);
    b.inherit_stdin();
    let ctx = b.build_context(StdioFiles::none()).ok().expect("builds");
    assert_eq!(ctx.args.cumulative_size(), 5);
    assert_eq!(ctx.env.cumulative_size(), 4);
}

#[test]
fn builder_can_build_twice() {
    let mut b = WasiCtxBuilder::new();
    b.set_argv(vec!["a".to_string()]);
    let first = b.build_context(StdioFiles::none()).ok().expect("builds");
    let second = b.build_context(StdioFiles::none()).ok().expect("builds");
    assert_eq!(first.args.number_elements(), second.args.number_elements());
}

#[test]
fn context_table_holds_only_the_standard_streams() {
    let mut b = WasiCtxBuilder::new();
    let ctx = b.build_context(StdioFiles::none()).ok().expect("builds");
    for fd in 0..3 {
        assert!(ctx.table.contains_key(fd));
    }
    assert!(!ctx.table.contains_key(3));
    b.inherit_stdin();
    b.set_stdin_string(b"abc".to_vec());
    b.inherit_stderr();
    let ctx = b.build_context(StdioFiles::none()).ok().expect("builds");
    for fd in 0..3 {
        assert!(ctx.table.contains_key(fd));
    }
    assert!(!ctx.table.contains_key(3));
}

#[test]
fn files_to_open_come_in_descriptor_order() {
    let mut b = WasiCtxBuilder::new();
    assert!(b.stdio_opens().is_empty());
    b.set_stderr_file("err.txt".to_string());
    b.set_stdin_file("in.txt".to_string());
    b.inherit_stdout();
    assert_eq!(b.stdio_opens(), vec![(0, "in.txt".to_string()), (2, "err.txt".to_string())]);
    b.set_stdout_file("out.txt".to_string());
    b.set_stdin_string(b"x".to_vec());
    assert_eq!(b.stdio_opens(), vec![(1, "out.txt".to_string()), (2, "err.txt".to_string())]);
}
