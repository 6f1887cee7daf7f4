use std::path::PathBuf;
use std::sync::atomic::{AtomicI32, Ordering};
use std::sync::Arc;
use std::time::Duration;

use erudite::cases::{ExpectedOutput, TestCase};
use erudite::context::{StageConfig, TestGroup};
use erudite::{FileConfig, FileContent, MemorySize, Rules, TestContext};

fn argv(items: &[&str]) -> Vec<String> {
    items.iter().map(|item| item.to_string()).collect()
}

fn path(path: &str) -> PathBuf {
    PathBuf::from(path)
}

/// What a case says, in a form that can be compared.
fn describe<T: Clone>(case: &TestCase<T>) -> (String, String, T) {
    let output = match case.output() {
        ExpectedOutput::String(s) => s.clone(),
        ExpectedOutput::Regex(re) => re.as_str().to_string(),
    };
    (case.input().to_string(), output, case.data().clone())
}

fn describe_groups<G: Clone, T: Clone>(groups: &[TestGroup<G, T>]) -> Vec<(G, Vec<(String, String, T)>)> {
    groups
        .iter()
        .map(|g| (g.group.clone(), g.cases.iter().map(describe).collect()))
        .collect()
}

#[test]
fn minimal_builder() {
    let ctx = TestContext::builder()
        .run_command(argv(&["echo", "foo"]))
        .test("group1", "hello", "world", ())
        .build();

    assert_eq!(
        ctx.settings().command.run().map(|x| &**x),
        Some(&["echo".to_string(), "foo".to_string()][..])
    );
    assert_eq!(ctx.settings().command.compile(), None);
    assert!(!ctx.settings().trim_output);

    let runner = Arc::new(ctx).test_runner::<()>(&"group1").unwrap();
    assert_eq!(runner.test_cases()[0].input(), "hello");
    assert!(matches!(runner.test_cases()[0].output(), ExpectedOutput::String(s) if s == "world"));
}

#[test]
fn builder_absolute_file_destination() {
    let ctx = TestContext::builder()
        .run_command(argv(&["echo", "foo"]))
        .test(0, "hello", "world", ())
        .file(path("./foo/bar.txt"), "/foo/bar.txt")
        .build();

    assert_eq!(ctx.settings().files[0].dest().as_path(), &path("foo/bar.txt"));
    assert_eq!(ctx.settings().files[0].src(), &FileContent::Path(path("./foo/bar.txt")));
}

#[test]
fn builder_absolute_files_destination() {
    let ctx = TestContext::builder()
        .run_command(argv(&["echo", "foo"]))
        .test(0, "hello", "world", ())
        .files(vec![
            (path("./foo/bar.txt"), "/bar.txt"),
            (path("./foo/bar.txt"), "/foo/bar.rs"),
        ])
        .build();

    assert_eq!(ctx.settings().files[0].dest().as_path(), &path("bar.txt"));
    assert_eq!(ctx.settings().files[1].dest().as_path(), &path("foo/bar.rs"));
}

#[test]
fn commands_are_lists_of_anything_like_a_string() {
    let ctx = TestContext::builder()
        .compile_command(vec!["rustc", "main.rs"])
        .run_command(vec!["./main".to_string()])
        .test(0, "hello".to_string(), "world", ())
        .build();
    assert_eq!(ctx.settings().command.compile(), Some(&argv(&["rustc", "main.rs"])));
    assert_eq!(ctx.settings().command.run(), Some(&argv(&["./main"])));
}

#[test]
fn rules_field() {
    let a = Rules::new();
    let ctx = TestContext::builder()
        .run_command(argv(&["echo", "foo"]))
        .test(0, "hello", "world", ())
        .rules(a.clone())
        .build();
    assert_eq!(ctx.settings().rules.run(), Some(&a));
    assert_eq!(ctx.settings().rules.compile(), Some(&a));

    let b = Rules::new().add_read_only("/foo");
    let ctx = TestContext::builder()
        .run_command(argv(&["echo", "foo"]))
        .test(0, "hello", "world", ())
        .run_rules(a.clone())
        .compile_rules(b.clone())
        .build();
    assert_eq!(ctx.settings().rules.run(), Some(&a));
    assert_eq!(ctx.settings().rules.compile(), Some(&b));
}

#[test]
fn max_memory_field() {
    let a = MemorySize::from_mib(69);
    let ctx = TestContext::builder()
        .run_command(argv(&["echo", "foo"]))
        .test(0, "hello", "world", ())
        .max_memory(a)
        .build();
    assert_eq!(ctx.settings().max_memory.run(), Some(&a));
    assert_eq!(ctx.settings().max_memory.compile(), Some(&a));

    let b = MemorySize::from_mib(420);
    let ctx = TestContext::builder()
        .run_command(argv(&["echo", "foo"]))
        .test(0, "hello", "world", ())
        .run_max_memory(a)
        .compile_max_memory(b)
        .build();
    assert_eq!(ctx.settings().max_memory.run(), Some(&a));
    assert_eq!(ctx.settings().max_memory.compile(), Some(&b));
}

#[test]
fn max_file_size_field() {
    let a = MemorySize::from_mib(69);
    let ctx = TestContext::builder()
        .run_command(argv(&["echo", "foo"]))
        .test(0, "hello", "world", ())
        .max_file_size(a)
        .build();
    assert_eq!(ctx.settings().max_file_size.run(), Some(&a));
    assert_eq!(ctx.settings().max_file_size.compile(), Some(&a));

    let b = MemorySize::from_mib(420);
    let ctx = TestContext::builder()
        .run_command(argv(&["echo", "foo"]))
        .test(0, "hello", "world", ())
        .run_max_file_size(a)
        .compile_max_file_size(b)
        .build();
    assert_eq!(ctx.settings().max_file_size.run(), Some(&a));
    assert_eq!(ctx.settings().max_file_size.compile(), Some(&b));
}

#[test]
fn max_threads_field() {
    let a = 69;
    let ctx = TestContext::builder()
        .run_command(argv(&["echo", "foo"]))
        .test(0, "hello", "world", ())
        .max_threads(a)
        .build();
    assert_eq!(ctx.settings().max_threads.run(), Some(&a));
    assert_eq!(ctx.settings().max_threads.compile(), Some(&a));

    let b = 420;
    let ctx = TestContext::builder()
        .run_command(argv(&["echo", "foo"]))
        .test(0, "hello", "world", ())
        .run_max_threads(a)
        .compile_max_threads(b)
        .build();
    assert_eq!(ctx.settings().max_threads.run(), Some(&a));
    assert_eq!(ctx.settings().max_threads.compile(), Some(&b));
}

#[test]
fn timeout_field() {
    let a = Duration::from_millis(69);
    let ctx = TestContext::builder()
        .run_command(argv(&["echo", "foo"]))
        .test(0, "hello", "world", ())
        .timeout(a)
        .build();
    assert_eq!(ctx.settings().timeout.run(), Some(&a));
    assert_eq!(ctx.settings().timeout.compile(), Some(&a));

    let b = Duration::from_millis(420);
    let ctx = TestContext::builder()
        .run_command(argv(&["echo", "foo"]))
        .test(0, "hello", "world", ())
        .run_timeout(a)
        .compile_timeout(b)
        .build();
    assert_eq!(ctx.settings().timeout.run(), Some(&a));
    assert_eq!(ctx.settings().timeout.compile(), Some(&b));
}

#[test]
fn builder_test_tests_equivalent() {
    let singular = TestContext::builder()
        .run_command(argv(&[""]))
        .test(0, "foo", "bar", 5)
        .test(0, "bar", "baz", 6)
        .build();
    let plural = TestContext::builder()
        .run_command(argv(&[""]))
        .tests(0, vec![("foo", "bar", 5), ("bar", "baz", 6)])
        .build();

    assert_eq!(
        describe_groups(&singular.settings().groups),
        describe_groups(&plural.settings().groups)
    );
    assert_eq!(singular.settings().groups.len(), 1);
    assert_eq!(singular.settings().groups[0].cases.len(), 2);
}

#[test]
fn builder_file_files_equivalent() {
    let singular = TestContext::builder()
        .run_command(argv(&[""]))
        .test(0, "", "", 0)
        .file("foo".as_bytes().to_vec(), "bar.rs")
        .file("bar".as_bytes().to_vec(), "baz.rs")
        .file(path("bar"), "baz.txt")
        .file(path("qux"), "qux.txt")
        .build();
    let plural = TestContext::builder()
        .run_command(argv(&[""]))
        .test(0, "", "", 0)
        .files(vec![
            ("foo".as_bytes().to_vec(), "bar.rs"),
            ("bar".as_bytes().to_vec(), "baz.rs"),
        ])
        .files(vec![
            (path("bar"), "baz.txt"),
            (path("qux"), "qux.txt"),
        ])
        .build();

    assert_eq!(
        describe_groups(&singular.settings().groups),
        describe_groups(&plural.settings().groups)
    );
    assert_eq!(singular.settings().files, plural.settings().files);
    assert_eq!(singular.settings().files.len(), 4);
}

#[test]
fn file_config_from_tuple2() {
    let cfg: FileConfig = (path("foo/bar"), "foo/bar").into();
    assert_eq!(cfg, FileConfig::new(path("foo/bar"), "foo/bar"));
}

#[test]
fn mod_file_content_path() {
    let content = FileContent::path(path("foo/bar"));
    assert_eq!(content, FileContent::Path(PathBuf::from("foo/bar")));
    let content: FileContent = path("foo/bar").into();
    assert_eq!(content, FileContent::Path(PathBuf::from("foo/bar")));
}

#[test]
fn file_content_string() {
    let content = FileContent::string("hello world");
    assert_eq!(
        content,
        FileContent::Bytes("hello world".as_bytes().to_vec())
    );
}

#[test]
fn file_content_bytes() {
    let bytes = vec![0xca, 0xfe, 0xba, 0xbe];
    let content = FileContent::bytes(bytes.clone());
    assert_eq!(content, FileContent::Bytes(bytes));
}

#[test]
fn stage_config_into() {
    let mut cfg = StageConfig::<&str>::default();

    assert_eq!(cfg.into(), StageConfig::<String>::Unset);

    cfg.with_run("run");
    assert_eq!(cfg.into(), StageConfig::<String>::Run("run".to_string()));

    cfg.with_compile("compile");
    assert_eq!(
        cfg.into(),
        StageConfig::<String>::Different {
            run: "run".to_string(),
            compile: "compile".to_string()
        }
    );

    let mut cfg = StageConfig::<&str>::default();

    cfg.with_compile("compile");
    assert_eq!(
        cfg.into(),
        StageConfig::<String>::Compile("compile".to_string())
    );

    cfg.with_both("both");
    assert_eq!(cfg.into(), StageConfig::<String>::Equal("both".to_string()));
}

#[test]
fn stage_config_run_only() {
    let mut cfg = StageConfig::default();

    cfg.with_run(42);
    assert_eq!(cfg.run(), Some(&42));
    assert_eq!(cfg.compile(), None);

    cfg.with_run(9001);
    assert_eq!(cfg.run(), Some(&9001));
    assert_eq!(cfg.compile(), None);

    cfg.with_both(1);
    assert_eq!(cfg.run(), Some(&1));
    assert_eq!(cfg.compile(), Some(&1));

    cfg.with_run(42);
    cfg.with_compile(2);
    assert_eq!(cfg.run(), Some(&42));
    assert_eq!(cfg.compile(), Some(&2));
}

#[test]
fn stage_config_compile_only() {
    let mut cfg = StageConfig::default();

    cfg.with_compile(42);
    assert_eq!(cfg.run(), None);
    assert_eq!(cfg.compile(), Some(&42));

    cfg.with_compile(9001);
    assert_eq!(cfg.run(), None);
    assert_eq!(cfg.compile(), Some(&9001));

    cfg.with_both(1);
    assert_eq!(cfg.run(), Some(&1));
    assert_eq!(cfg.compile(), Some(&1));

    cfg.with_compile(42);
    cfg.with_run(2);
    assert_eq!(cfg.run(), Some(&2));
    assert_eq!(cfg.compile(), Some(&42));
}

#[test]
fn stage_config_equal() {
    let mut cfg = StageConfig::default();

    cfg.with_both(AtomicI32::new(0));
    assert_eq!(cfg.run().map(|x| x.load(Ordering::SeqCst)), Some(0));
    assert_eq!(cfg.compile().map(|x| x.load(Ordering::SeqCst)), Some(0));

    // Change the atomic to ensure that they are both pointing at the same value
    cfg.run().unwrap().store(42, Ordering::SeqCst);
    assert_eq!(cfg.run().map(|x| x.load(Ordering::SeqCst)), Some(42));
    assert_eq!(cfg.compile().map(|x| x.load(Ordering::SeqCst)), Some(42));

    cfg.with_run(AtomicI32::new(1));
    assert_eq!(cfg.run().map(|x| x.load(Ordering::SeqCst)), Some(1));
    assert_eq!(cfg.compile().map(|x| x.load(Ordering::SeqCst)), Some(42));

    cfg.with_both(AtomicI32::new(69));
    assert_eq!(cfg.run().map(|x| x.load(Ordering::SeqCst)), Some(69));
    assert_eq!(cfg.compile().map(|x| x.load(Ordering::SeqCst)), Some(69));

    cfg.with_compile(AtomicI32::new(8));
    assert_eq!(cfg.run().map(|x| x.load(Ordering::SeqCst)), Some(69));
    assert_eq!(cfg.compile().map(|x| x.load(Ordering::SeqCst)), Some(8));
}

#[test]
fn stage_config_different() {
    let mut cfg = StageConfig::default();
    let rval = AtomicI32::new(4);
    let cval = AtomicI32::new(2);
    cfg.with_run(rval).with_compile(cval);

    assert_eq!(cfg.run().map(|x| x.load(Ordering::SeqCst)), Some(4));
    assert_eq!(cfg.compile().map(|x| x.load(Ordering::SeqCst)), Some(2));

    // Change the atomic to ensure that only one of them changes
    cfg.run().unwrap().store(42, Ordering::SeqCst);
    assert_eq!(cfg.run().map(|x| x.load(Ordering::SeqCst)), Some(42));
    assert_eq!(cfg.compile().map(|x| x.load(Ordering::SeqCst)), Some(2));

    cfg.with_both(AtomicI32::new(1337));
    assert_eq!(cfg.run().map(|x| x.load(Ordering::SeqCst)), Some(1337));
    assert_eq!(cfg.compile().map(|x| x.load(Ordering::SeqCst)), Some(1337));
}

#[test]
fn stages_may_be_set_in_either_order() {
    let mut one = StageConfig::Equal(7);
    one.with_run(1).with_compile(2);
    let mut other = StageConfig::Equal(7);
    other.with_compile(2).with_run(1);
    assert_eq!(one, other);
    assert_eq!(one, StageConfig::Different { compile: 2, run: 1 });
}

#[test]
fn stages_can_be_cloned() {
    let different = StageConfig::Different { compile: "c".to_string(), run: "r".to_string() };
    let configs = [
        StageConfig::Unset,
        StageConfig::Compile("c".to_string()),
        StageConfig::Run("r".to_string()),
        StageConfig::Equal("e".to_string()),
        different,
    ];
    for config in &configs {
        assert_eq!(&config.clone(), config);
    }
}

#[test]
fn test_groups_test_groups_equal() {
    let ctx1 = TestContext::builder()
        .run_command(argv(&["echo", "foo"]))
        .test(0, "foo", "bar", ())
        .test(0, "bar", "baz", ())
        .test(0, "baz", "qux", ())
        .test(0, "qux", "quux", ())
        .test(1, "1", "2", ())
        .test(1, "2", "3", ())
        .test(1, "3", "4", ())
        .test(1, "4", "5", ())
        .build();

    let ctx2 = TestContext::builder()
        .run_command(argv(&["echo", "foo"]))
        .test_groups(vec![
            (
                0,
                vec![
                    ("foo", "bar", ()),
                    ("bar", "baz", ()),
                    ("baz", "qux", ()),
                    ("qux", "quux", ()),
                ],
            ),
            (
                1,
                vec![
                    ("1", "2", ()),
                    ("2", "3", ()),
                    ("3", "4", ()),
                    ("4", "5", ()),
                ],
            ),
        ])
        .build();

    assert_eq!(
        describe_groups(&ctx1.settings().groups),
        describe_groups(&ctx2.settings().groups)
    );
    assert_eq!(ctx1.settings().groups.len(), 2);
}

#[test]
fn groups_named_twice_are_one_group() {
    let ctx = TestContext::builder()
        .run_command(argv(&["true"]))
        .test_groups(vec![
            ("a".to_string(), vec![("1", "1", 1)]),
            ("b".to_string(), vec![("2", "2", 2)]),
            ("a".to_string(), vec![("3", "3", 3)]),
        ])
        .build();
    let groups = describe_groups(&ctx.settings().groups);
    assert_eq!(groups.len(), 2);
    assert_eq!(groups[0].0, "a");
    assert_eq!(
        groups[0].1,
        vec![
            ("1".to_string(), "1".to_string(), 1),
            ("3".to_string(), "3".to_string(), 3)
        ]
    );
    assert_eq!(groups[1].1, vec![("2".to_string(), "2".to_string(), 2)]);
}

#[test]
fn an_empty_list_of_tests_still_makes_a_group() {
    let ctx = TestContext::<u8, ()>::builder()
        .run_command(argv(&["true"]))
        .tests(3, Vec::<TestCase>::new())
        .build();
    let ctx = Arc::new(ctx);
    assert!(Arc::clone(&ctx).test_runner::<()>(&3).unwrap().test_cases().is_empty());
    assert!(ctx.test_runner::<()>(&4).is_none());
}

#[test]
fn an_empty_list_of_groups_makes_no_group() {
    let builder = TestContext::<u8, ()>::builder()
        .run_command(argv(&["true"]))
        .test_groups(Vec::<(u8, Vec<TestCase>)>::new());
    assert!(!builder.has_groups());
    assert!(builder.test(1, "a", "b", ()).has_groups());
}

#[test]
fn case_without_data_gets_the_default() {
    let case: TestCase<u32> = ("in", "out").into();
    assert_eq!(describe(&case), ("in".to_string(), "out".to_string(), 0));
    assert_eq!(case.into_data(), 0);
    let case = TestCase::new("in", String::from("out"), 4u8).clone();
    assert_eq!(describe(&case), ("in".to_string(), "out".to_string(), 4));
}

#[test]
fn builders_can_be_printed() {
    let builder = TestContext::builder()
        .run_command(vec!["./main"])
        .test("group", "hello", "olleh", ());
    let text = format!("{:?}", builder);
    assert!(text.contains("./main"));
    assert!(text.contains("olleh"));
}

#[test]
fn the_default_runner_has_the_only_group() {
    let ctx = TestContext::builder()
        .run_command(argv(&["true"]))
        .test((), "a", "b", 1)
        .test((), "c", "d", 2)
        .build();
    assert_eq!(ctx.settings().groups.len(), 1);
    let runner = Arc::new(ctx).default_test_runner::<()>();
    assert_eq!(runner.test_cases().len(), 2);
    assert_eq!(runner.test_cases()[1].data(), &2);
}
