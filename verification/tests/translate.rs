use hpmq_cli::config::BuildConfig;
use hpmq_cli::instruction::{
    parse_ins, Instruction, InsError, Kind, RawArg, RawCmdExpr, RawInstruction, SourceFile,
};
use hpmq_cli::translate::{parse, TranslateError};

fn file(path: &str) -> SourceFile {
    SourceFile { path: path.to_string(), present: true, is_dir: false }
}

fn copy_ins(src: SourceFile, dest: &str) -> RawInstruction {
    RawInstruction::CopyLike { sources: vec![src], destination: dest.to_string() }
}

fn shell_cmd(tok: &str) -> RawInstruction {
    RawInstruction::CmdLike(RawCmdExpr::ShellForm(vec![RawArg::Text(tok.to_string())]))
}

fn kind_ins(arg: &str) -> RawInstruction {
    RawInstruction::Misc {
        name: "KIND".to_string(),
        arguments: vec![RawArg::Text(arg.to_string())],
    }
}

fn expect_ok(doc: Vec<RawInstruction>) -> BuildConfig {
    match parse(&doc).0 {
        Ok(c) => c,
        Err(e) => panic!("expected success, got {:?}", e),
    }
}

#[test]
fn scenario_copy_then_kind_app() {
    let doc = vec![copy_ins(file("./app.wasm"), "/app/"), kind_ins("APP")];
    let config = expect_ok(doc);
    assert_eq!(config.kind, Kind::App);
    assert_eq!(config.copys.len(), 1);
    assert_eq!(config.copys[0].source, "./app.wasm");
    assert_eq!(config.copys[0].dest.directory, "/app/");
    assert_eq!(config.copys[0].dest.file_name.as_deref(), Some("app.wasm"));
    assert!(config.cmd.is_none());
}

#[test]
fn scenario_cmd_only_fails() {
    let doc = vec![shell_cmd("/bin/run.sh")];
    match parse(&doc).0 {
        Err(TranslateError::MissingCopy) => {},
        Ok(_) => panic!("a document without a copy must fail"),
    }
}

#[test]
fn scenario_missing_source_fails() {
    let missing = SourceFile { path: "/no/such".to_string(), present: false, is_dir: false };
    let doc = vec![copy_ins(missing, "/x")];
    let (res, warnings) = parse(&doc);
    assert!(matches!(res, Err(TranslateError::MissingCopy)));
    assert_eq!(warnings.len(), 1);
    assert!(matches!(&warnings[0], InsError::CopySourceMissing(p) if p == "/no/such"));
}

#[test]
fn scenario_copy_cmd_and_unsupported() {
    let doc = vec![
        copy_ins(file("a.txt"), "/d/"),
        shell_cmd("a.txt"),
        RawInstruction::Unsupported("VOLUME /data".to_string()),
    ];
    let (res, warnings) = parse(&doc);
    assert_eq!(warnings.len(), 1);
    assert!(matches!(&warnings[0], InsError::Unsupported(s) if s == "VOLUME /data"));
    let config = res.expect("translation must succeed");
    assert_eq!(config.copys.len(), 1);
    assert_eq!(config.copys[0].dest.file_name.as_deref(), Some("a.txt"));
    let cmd = config.cmd.expect("cmd must be set");
    assert_eq!(cmd.file_name.as_deref(), Some("a.txt"));
    assert_eq!(cmd.directory, "");
}

#[test]
fn empty_document_fails() {
    let (res, warnings) = parse(&vec![]);
    assert!(matches!(res, Err(TranslateError::MissingCopy)));
    assert!(warnings.is_empty());
}

#[test]
fn kind_and_cmd_alone_do_not_save_the_document() {
    let doc = vec![kind_ins("APP"), shell_cmd("/bin/run.sh"), kind_ins("wasi")];
    assert!(matches!(parse(&doc).0, Err(TranslateError::MissingCopy)));
}

#[test]
fn copy_order_is_preserved() {
    let doc = vec![
        copy_ins(file("one"), "/a/"),
        RawInstruction::Unsupported("EXPOSE 80".to_string()),
        copy_ins(file("two"), "/b/"),
        copy_ins(file("one"), "/a/"),
    ];
    let config = expect_ok(doc);
    let sources: Vec<&str> = config.copys.iter().map(|c| c.source.as_str()).collect();
    assert_eq!(sources, vec!["one", "two", "one"]);
}

#[test]
fn kind_defaults_to_wasi() {
    let config = expect_ok(vec![copy_ins(file("a"), "/d/")]);
    assert_eq!(config.kind, Kind::Wasi);
}

#[test]
fn last_kind_wins() {
    let doc = vec![copy_ins(file("a"), "/d/"), kind_ins("APP"), kind_ins("other")];
    assert_eq!(expect_ok(doc).kind, Kind::Wasi);
    let doc = vec![copy_ins(file("a"), "/d/"), kind_ins("wasi"), kind_ins("app")];
    assert_eq!(expect_ok(doc).kind, Kind::App);
}

#[test]
fn kind_directive_is_case_insensitive() {
    let doc = vec![
        copy_ins(file("a"), "/d/"),
        RawInstruction::Misc {
            name: "kind".to_string(),
            arguments: vec![RawArg::Text("App".to_string())],
        },
    ];
    assert_eq!(expect_ok(doc).kind, Kind::App);
}

#[test]
fn kind_without_argument_is_wasi() {
    let doc = vec![
        copy_ins(file("a"), "/d/"),
        RawInstruction::Misc { name: "KIND".to_string(), arguments: vec![] },
        RawInstruction::Misc { name: "KIND".to_string(), arguments: vec![RawArg::Comment] },
    ];
    assert_eq!(expect_ok(doc).kind, Kind::Wasi);
}

#[test]
fn cmd_without_file_name_is_skipped() {
    let doc = vec![copy_ins(file("a"), "/d/x"), shell_cmd("/bin/")];
    let config = expect_ok(doc);
    assert!(config.cmd.is_none());
}

#[test]
fn cmd_exec_form_is_accepted() {
    let doc = vec![
        copy_ins(file("a"), "/d/"),
        RawInstruction::CmdLike(RawCmdExpr::ExecForm(vec!["/bin/run.sh".to_string()])),
    ];
    let config = expect_ok(doc);
    let cmd = config.cmd.expect("cmd must be set");
    assert_eq!(cmd.directory, "/bin/");
    assert_eq!(cmd.file_name.as_deref(), Some("run.sh"));
}

#[test]
fn copy_with_explicit_file_name_keeps_it() {
    let doc = vec![copy_ins(file("a.txt"), "/d/b.bin")];
    let config = expect_ok(doc);
    assert_eq!(config.copys[0].dest.directory, "/d/");
    assert_eq!(config.copys[0].dest.file_name.as_deref(), Some("b.bin"));
}

#[test]
fn directory_source_is_rejected() {
    let dir = SourceFile { path: "./assets".to_string(), present: true, is_dir: true };
    let doc = vec![copy_ins(dir, "/d/")];
    let (res, warnings) = parse(&doc);
    assert!(matches!(res, Err(TranslateError::MissingCopy)));
    assert!(matches!(&warnings[0], InsError::CopySourceIsDir(p) if p == "./assets"));
}

#[test]
fn later_valid_copy_still_saves_the_document() {
    let dir = SourceFile { path: "./assets".to_string(), present: true, is_dir: true };
    let doc = vec![copy_ins(dir, "/d/"), copy_ins(file("a.txt"), "/d/")];
    let config = expect_ok(doc);
    assert_eq!(config.copys.len(), 1);
    assert_eq!(config.copys[0].source, "a.txt");
}

#[test]
fn classification_errors_name_their_cause() {
    let no_sources = RawInstruction::CopyLike {
        sources: vec![],
        destination: "/d/".to_string(),
    };
    assert!(matches!(parse_ins(&no_sources), Err(InsError::CopyMissingSource)));

    let missing = SourceFile { path: "/no/such".to_string(), present: false, is_dir: false };
    match parse_ins(&copy_ins(missing, "/d/")) {
        Err(InsError::CopySourceMissing(p)) => assert_eq!(p, "/no/such"),
        other => panic!("unexpected: {:?}", other),
    }

    let dir = SourceFile { path: "./assets".to_string(), present: true, is_dir: true };
    match parse_ins(&copy_ins(dir, "/d/")) {
        Err(InsError::CopySourceIsDir(p)) => assert_eq!(p, "./assets"),
        other => panic!("unexpected: {:?}", other),
    }

    let empty_shell = RawInstruction::CmdLike(RawCmdExpr::ShellForm(vec![]));
    assert!(matches!(parse_ins(&empty_shell), Err(InsError::CmdMissingArgument)));

    let comment_shell = RawInstruction::CmdLike(RawCmdExpr::ShellForm(vec![RawArg::Comment]));
    assert!(matches!(parse_ins(&comment_shell), Err(InsError::CmdMissingArgument)));

    let empty_exec = RawInstruction::CmdLike(RawCmdExpr::ExecForm(vec![]));
    assert!(matches!(parse_ins(&empty_exec), Err(InsError::CmdMissingArgument)));

    match parse_ins(&shell_cmd("/bin/")) {
        Err(InsError::CmdWithoutFileName(p)) => assert_eq!(p, "/bin/"),
        other => panic!("unexpected: {:?}", other),
    }

    let misc = RawInstruction::Misc { name: "EXPOSE".to_string(), arguments: vec![] };
    match parse_ins(&misc) {
        Err(InsError::Unsupported(n)) => assert_eq!(n, "EXPOSE"),
        other => panic!("unexpected: {:?}", other),
    }

    let raw = RawInstruction::Unsupported("FROM scratch".to_string());
    match parse_ins(&raw) {
        Err(InsError::Unsupported(n)) => assert_eq!(n, "FROM scratch"),
        other => panic!("unexpected: {:?}", other),
    }
}

#[test]
fn accepted_cmd_instruction_carries_its_destination() {
    match parse_ins(&shell_cmd("bin/run.sh")) {
        Ok(Instruction::Cmd(d)) => {
            assert_eq!(d.directory, "bin/");
            assert_eq!(d.file_name.as_deref(), Some("run.sh"));
        },
        other => panic!("unexpected: {:?}", other),
    }
}
