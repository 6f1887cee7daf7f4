# erudite

Erudite runs suites of tests: every test starts one program, feeds it some input, and judges what
the program prints.

`src/` is the library, written and verified with [Verus](https://github.com/verus-lang/verus).  It
holds the configuration of a suite, decides what has to be done next while a suite is being compiled
and run, and judges the outcome.  It never touches the operating system: it hands out requests, and
is told what came of them.

| Module    | What it is about                                                           |
|-----------|----------------------------------------------------------------------------|
| `context` | the configuration of a suite, and its builder                              |
| `runner`  | one run of a group of tests: its files, filter, directory and rules        |
| `filter`  | choosing which tests of a group are run                                    |
| `compile` | setting up the environment, compiling, and planning the tests              |
| `handle`  | the tests that are being run, their verdicts, and collecting their results |
| `process` | running one program: what it is fed, and how its end is read               |
| `cases`   | test cases, and what a program has to print                                |
| `file`    | files that are put into the environment of a test                          |
| `result`  | the results of compiling and of running                                    |
| `output`  | what a program printed, and its exit status                                |
| `text`    | trimming and comparing text                                                |
| `convert` | converting whole lists                                                     |
| `error`   | errors                                                                     |
| `outside` | what is taken on trust about other crates and the standard library         |

What holds of the library as a whole is stated in public proof functions beside the code that it
is about.

`app/` drives the library on the `tokio` runtime: it makes directories, writes files, and runs
commands.

```rust
let context = build(
    TestContext::builder()
        .compile_command(vec!["rustc", "-o", "runner", "runner.rs"])
        .run_command(vec!["./runner"])
        .test("group", "hello", "olleh", ())
        .test("group", "world", "dlrow", ())
        .trim_output(true)
        .file(FileContent::string(runner_code), "runner.rs"),
);

let runner = Arc::new(context)
    .test_runner::<tokio::io::Empty>(&"group")
    .expect("this group was added above")
    .file(BorrowedFileContent::string(solution_code), "solution.rs");

let mut tests = compile_and_run(runner).await?;
let results = tests.wait_all().await?;
assert_eq!(results[0].state(), TestResultState::Pass);
```
