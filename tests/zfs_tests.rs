use zfs_rs::text::parse_records;
use zfs_rs::zfs::{
    self, interpret_output, CloneRequestBuilder, CreateRequestBuilder, ListRequestBuilder,
    ListType, ProcessOutput, SnapshotRequestBuilder, ZfsBuilderError, ZfsCommand, ZfsRunner,
};
use zfs_rs::Error;

/// Answers every command as the tool would on success, and records what it
/// was asked to run.
#[derive(Default)]
struct FakeZfs {
    calls: Vec<(ZfsCommand, Vec<String>)>,
    fail_with: Option<Vec<u8>>,
}

impl ZfsRunner for FakeZfs {
    fn run(&mut self, cmd: ZfsCommand, args: &Vec<String>) -> Result<ProcessOutput, String> {
        self.calls.push((cmd, args.clone()));
        if let Some(stderr) = &self.fail_with {
            return Ok(ProcessOutput { success: false, stdout: vec![], stderr: stderr.clone() });
        }
        let stdout = match cmd {
            ZfsCommand::Open => format!("{}\n", args.last().unwrap()),
            ZfsCommand::GetProperty => String::from("test_value\n"),
            _ => String::new(),
        };
        Ok(ProcessOutput { success: true, stdout: stdout.into_bytes(), stderr: vec![] })
    }
}

fn strings(v: &[&str]) -> Vec<String> {
    v.iter().map(|s| s.to_string()).collect()
}

#[test]
fn builder_works() {
    let mut runner = FakeZfs::default();
    let ds = zfs::create(
        &mut runner,
        &CreateRequestBuilder::default()
            .name("testvol")
            .add_property("blub", "test")
            .volsize("10G")
            .build()
            .unwrap(),
    )
    .unwrap();

    assert_eq!("testvol", ds.name());

    let ds = zfs::create(
        &mut runner,
        &CreateRequestBuilder::default().name("testds").build().unwrap(),
    )
    .unwrap();

    assert_eq!("testds", ds.name());

    let _list =
        zfs::list(&mut runner, &ListRequestBuilder::default().build().unwrap()).unwrap();
}

#[test]
fn ds_tests() {
    let mut runner = FakeZfs::default();
    let ds = zfs::open(&mut runner, "testds").unwrap();

    assert_eq!("testds", ds.name());

    assert!(ds.promote(&mut runner).is_ok());

    assert!(ds.destroy(&mut runner).is_ok());
}

#[test]
fn create_volume_arguments() {
    let req = CreateRequestBuilder::default()
        .name("testvol")
        .volsize("10G")
        .add_property("blub", "test")
        .build()
        .unwrap();
    assert_eq!(req.to_args(), strings(&["-o", "blub=test", "-V", "10G", "testvol"]));
    let mut runner = FakeZfs::default();
    let ds = zfs::create(&mut runner, &req).unwrap();
    assert_eq!("testvol", ds.name());
    assert_eq!(runner.calls.len(), 1);
    assert_eq!(runner.calls[0].0, ZfsCommand::Create);
    assert_eq!(runner.calls[0].1, strings(&["-o", "blub=test", "-V", "10G", "testvol"]));
}

#[test]
fn create_name_only_arguments() {
    let req = CreateRequestBuilder::default().name("testds").build().unwrap();
    assert_eq!(req.to_args(), strings(&["testds"]));
}

#[test]
fn create_without_volsize_ignores_volume_flags() {
    let req = CreateRequestBuilder::default()
        .name("testds")
        .recursive(true)
        .sparse(true)
        .blocksize(8192)
        .build()
        .unwrap();
    assert_eq!(req.to_args(), strings(&["-p", "testds"]));

    let req = CreateRequestBuilder::default()
        .name("pool/vol")
        .sparse(true)
        .blocksize(-16384)
        .volsize("1G")
        .build()
        .unwrap();
    assert_eq!(req.to_args(), strings(&["-s", "-b", "-16384", "-V", "1G", "pool/vol"]));
}

#[test]
fn create_rejects_snapshot_name() {
    let mut b = CreateRequestBuilder::default();
    b.name("pool@snap");
    match b.build() {
        Err(ZfsBuilderError::ValidationError(m)) => assert_eq!(m, "Invalid dataset name"),
        other => panic!("unexpected {:?}", other),
    }
    match CreateRequestBuilder::default().build() {
        Err(ZfsBuilderError::UninitializedField(f)) => assert_eq!(f, "name"),
        other => panic!("unexpected {:?}", other),
    }
}

#[test]
fn clone_build_rules() {
    let ok = CloneRequestBuilder::default()
        .snapshot("pool/a@s1")
        .target("pool/b")
        .create_parents(true)
        .add_property("quota", "1G")
        .build()
        .unwrap();
    assert_eq!(ok.to_args(), strings(&["-p", "-o", "quota=1G", "pool/a@s1", "pool/b"]));

    match CloneRequestBuilder::default().snapshot("pool/a").target("pool/b").build() {
        Err(ZfsBuilderError::ValidationError(m)) => assert_eq!(m, "Invalid snapshot name"),
        other => panic!("unexpected {:?}", other),
    }
    match CloneRequestBuilder::default().snapshot("pool/a@s").target("pool/b@t").build() {
        Err(ZfsBuilderError::ValidationError(m)) => assert_eq!(m, "Invalid target name"),
        other => panic!("unexpected {:?}", other),
    }
    match CloneRequestBuilder::default().target("pool/b").build() {
        Err(ZfsBuilderError::UninitializedField(f)) => assert_eq!(f, "snapshot"),
        other => panic!("unexpected {:?}", other),
    }
    match CloneRequestBuilder::default().snapshot("pool/a@s").build() {
        Err(ZfsBuilderError::UninitializedField(f)) => assert_eq!(f, "target"),
        other => panic!("unexpected {:?}", other),
    }

    let mut runner = FakeZfs::default();
    let ds = zfs::clone(&mut runner, &ok).unwrap();
    assert_eq!("pool/b", ds.name());
}

#[test]
fn snapshot_build_rules() {
    match SnapshotRequestBuilder::default().snapshot("pool/a").build() {
        Err(ZfsBuilderError::ValidationError(m)) => assert_eq!(m, "Invalid snapshot name"),
        other => panic!("unexpected {:?}", other),
    }
    match SnapshotRequestBuilder::default().build() {
        Err(ZfsBuilderError::UninitializedField(f)) => assert_eq!(f, "snapshot"),
        other => panic!("unexpected {:?}", other),
    }
    let req = SnapshotRequestBuilder::default()
        .snapshot("pool/a@now")
        .recursive(true)
        .add_property("k", "v")
        .build()
        .unwrap();
    assert_eq!(req.to_args(), strings(&["-r", "-o", "k=v", "pool/a@now"]));
    let mut runner = FakeZfs::default();
    let snap = zfs::snapshot(&mut runner, &req).unwrap();
    assert_eq!("pool/a@now", snap.name());
}

#[test]
fn add_property_last_write_wins() {
    let req = CreateRequestBuilder::default()
        .name("testds")
        .add_property("compression", "off")
        .add_property("atime", "off")
        .add_property("compression", "lz4")
        .build()
        .unwrap();
    assert_eq!(
        req.to_args(),
        strings(&["-o", "compression=lz4", "-o", "atime=off", "testds"])
    );
}

#[test]
fn list_type_tokens_round_trip() {
    let all = [
        ListType::FileSystem,
        ListType::Snapshot,
        ListType::Volume,
        ListType::Bookmark,
        ListType::All,
    ];
    let tokens = ["filesystem", "snapshot", "volume", "bookmark", "all"];
    for (t, tok) in all.iter().zip(tokens.iter()) {
        assert_eq!(t.token(), *tok);
        assert_eq!(ListType::from_token(&t.token()).unwrap(), *t);
        assert_eq!(tok.parse::<ListType>().unwrap(), *t);
    }
    match ListType::from_token("pool") {
        Err(Error::InvalidZfsListType(s)) => assert_eq!(s, "pool"),
        other => panic!("unexpected {:?}", other),
    }
    assert!(ListType::from_token("Filesystem").is_err());
}

#[test]
fn list_arguments() {
    let req = ListRequestBuilder::default()
        .recursive(true)
        .recursion_depth("2")
        .add_property("k", "v")
        .add_list_option(ListType::FileSystem)
        .add_list_option(ListType::Snapshot)
        .root("pool")
        .build()
        .unwrap();
    assert_eq!(
        req.to_args(),
        strings(&["-r", "-d", "2", "-Hp", "-o", "k=v", "-t", "filesystem,snapshot", "pool"])
    );
    let req = ListRequestBuilder::default().recursion_depth("2").build().unwrap();
    assert_eq!(req.to_args(), strings(&["-Hp"]));
}

#[test]
fn parse_list_output() {
    let rows = parse_records("pool/a\t10\t20\npool/b\t5\t5\n");
    assert_eq!(rows, vec![strings(&["pool/a", "10", "20"]), strings(&["pool/b", "5", "5"])]);
    let rows = parse_records("a  b\r\n\nc\n \n\n");
    assert_eq!(rows, vec![strings(&["a", "b"]), vec![], strings(&["c"])]);
    assert_eq!(parse_records(""), Vec::<Vec<String>>::new());
    assert_eq!(parse_records("x\u{3000}y"), vec![strings(&["x", "y"])]);
}

#[test]
fn list_parses_tool_output() {
    struct Listing;
    impl ZfsRunner for Listing {
        fn run(&mut self, _cmd: ZfsCommand, _args: &Vec<String>) -> Result<ProcessOutput, String> {
            Ok(ProcessOutput {
                success: true,
                stdout: b"pool/a 1 2\npool/b 3 4\n".to_vec(),
                stderr: vec![],
            })
        }
    }
    let rows = zfs::list(&mut Listing, &ListRequestBuilder::default().build().unwrap()).unwrap();
    assert_eq!(rows, vec![strings(&["pool/a", "1", "2"]), strings(&["pool/b", "3", "4"])]);
}

#[test]
fn tool_failure_carries_stderr() {
    let mut runner = FakeZfs { calls: vec![], fail_with: Some(b"no such dataset".to_vec()) };
    match zfs::open(&mut runner, "missing") {
        Err(Error::ZFSError(m)) => assert_eq!(m, "no such dataset"),
        other => panic!("unexpected {:?}", other),
    }
}

#[test]
fn output_interpretation() {
    let ok = interpret_output(Ok(ProcessOutput {
        success: true,
        stdout: b"out".to_vec(),
        stderr: b"err".to_vec(),
    }));
    assert_eq!(ok.unwrap(), "out");
    match interpret_output(Ok(ProcessOutput {
        success: true,
        stdout: vec![0xff, 0x41],
        stderr: vec![],
    })) {
        Err(Error::FromUtf8Error(b)) => assert_eq!(b, vec![0xff, 0x41]),
        other => panic!("unexpected {:?}", other),
    }
    match interpret_output(Ok(ProcessOutput {
        success: false,
        stdout: vec![],
        stderr: vec![0xc3],
    })) {
        Err(Error::FromUtf8Error(b)) => assert_eq!(b, vec![0xc3]),
        other => panic!("unexpected {:?}", other),
    }
    match interpret_output(Err(String::from("not found"))) {
        Err(Error::IOError(m)) => assert_eq!(m, "not found"),
        other => panic!("unexpected {:?}", other),
    }
}

#[test]
fn handle_operations() {
    let mut runner = FakeZfs::default();
    let ds = zfs::open(&mut runner, "testds").unwrap();
    assert_eq!(runner.calls[0].0.subcommand(), "list");
    assert_eq!(runner.calls[0].1, strings(&["-Ho", "name", "testds"]));

    assert_eq!(ds.get(&mut runner, "compression").unwrap(), "test_value");
    assert_eq!(runner.calls[1].1, strings(&["-H", "-o", "value", "compression", "testds"]));

    ds.set(&mut runner, "compression", "lz4").unwrap();
    assert_eq!(runner.calls[2].1, strings(&["compression=lz4", "testds"]));

    let snap = ds.snapshot(&mut runner, "now").unwrap();
    assert_eq!("testds@now", snap.name());
    assert_eq!(runner.calls[3].0, ZfsCommand::Snapshot);
    assert_eq!(runner.calls[3].1, strings(&["testds@now"]));

    assert_eq!(snap.get(&mut runner, "used").unwrap(), "test_value");
    snap.set(&mut runner, "user:x", "1").unwrap();
    snap.destroy(&mut runner).unwrap();
    assert_eq!(runner.calls[6].0.subcommand(), "destroy");
    assert_eq!(runner.calls[6].1, strings(&["testds@now"]));

    let promoted = ds.promote(&mut runner).unwrap();
    assert_eq!("testds", promoted.name());
    assert_eq!(runner.calls[7].0.subcommand(), "promote");
}

#[test]
fn builder_error_messages() {
    assert_eq!(
        ZfsBuilderError::UninitializedField("name").message(),
        "field name must be initialized"
    );
    assert_eq!(
        ZfsBuilderError::ValidationError(String::from("bad")).message(),
        "validation error: bad"
    );
    match ZfsBuilderError::from(String::from("x")) {
        ZfsBuilderError::ValidationError(m) => assert_eq!(m, "x"),
        other => panic!("unexpected {:?}", other),
    }
}

#[test]
fn validate_rules() {
    let mut b = CreateRequestBuilder::default();
    assert!(b.validate().is_ok());
    b.name("pool@x");
    assert_eq!(b.validate().unwrap_err(), "Invalid dataset name");

    let mut c = CloneRequestBuilder::default();
    c.snapshot("pool/a@s").target("pool/b");
    assert!(c.validate().is_ok());
    c.target("pool/b@t");
    assert_eq!(c.validate().unwrap_err(), "Invalid target name");
    c.target("pool/b").snapshot("pool/a");
    assert_eq!(c.validate().unwrap_err(), "Invalid snapshot name");

    let mut s = SnapshotRequestBuilder::default();
    s.snapshot("pool/a");
    assert_eq!(s.validate().unwrap_err(), "Invalid snapshot name");
    s.snapshot("pool/a@now");
    assert!(s.validate().is_ok());
}

#[test]
fn trims_scalar_output() {
    assert_eq!(zfs_rs::text::trim_output("  testds\n"), "testds");
    assert_eq!(zfs_rs::text::trim_output("\t\n"), "");
    assert_eq!(zfs_rs::text::trim_output("a b"), "a b");
}
