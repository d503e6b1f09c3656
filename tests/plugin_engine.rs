use supercode_skills::host_abi::{append_listing, host_write, read_guest, readdir_path, DirectoryLister, OutputAccumulator};
use supercode_skills::plugin_engine::{default_skills_dir, join_path, CallError, LoadError, PluginEngine};
use supercode_skills::project_scanner::{report_of, ProjectScannerAgent, ScanReport};
use supercode_skills::registry::{skill_format, skill_name, SkillFile, SkillFormat, SkillSource};

/// Answers for one directory only, with a fixed list of names.
#[derive(Clone)]
struct FixedLister {
    path: String,
    names: Vec<String>,
}

impl DirectoryLister for FixedLister {
    fn list_dir(&self, path: &str) -> Option<Vec<String>> {
        if path == self.path {
            Some(self.names.clone())
        } else {
            None
        }
    }
}

fn no_dirs() -> FixedLister {
    FixedLister { path: String::from("/nowhere"), names: vec![] }
}

fn text_skill(name: &str, wat: &str) -> SkillFile {
    SkillFile { name: name.to_string(), source: SkillSource::Text(wat.to_string()) }
}

fn engine_with(files: Vec<SkillFile>, lister: FixedLister) -> PluginEngine<FixedLister> {
    let mut pe = PluginEngine::new(Some(String::from("/tmp/skills")), lister).unwrap();
    pe.load_skills(files).unwrap();
    pe
}

const HELLO: &str = r#"(module
    (import "host" "write" (func $write (param i32 i32)))
    (memory (export "memory") 1)
    (data (i32.const 0) "Hello Wasm!")
    (func (export "run")
        i32.const 0
        i32.const 11
        call $write
    )
)"#;

#[test]
fn test_call_skill_host_write() {
    let pe = engine_with(vec![text_skill("test", HELLO)], no_dirs());
    let out = pe.call_skill("test", None).unwrap();
    assert!(out.contains("Hello Wasm"));
}

#[test]
fn write_emits_exactly_the_addressed_bytes() {
    let pe = engine_with(vec![text_skill("test", HELLO)], no_dirs());
    assert_eq!(pe.call_skill("test", None).unwrap(), "Hello Wasm!");
}

#[test]
fn test_call_skill_readdir() {
    let path = "/data/readdir_test";
    let wat = format!(
        r#"(module
            (import "host" "readdir" (func $readdir (param i32 i32)))
            (memory (export "memory") 1)
            (data (i32.const 0) "{}")
            (func (export "run")
                i32.const 0
                i32.const {}
                call $readdir
            )
        )"#,
        path,
        path.len()
    );
    let lister = FixedLister {
        path: path.to_string(),
        names: vec![String::from("a.txt"), String::from("b.txt")],
    };
    let pe = engine_with(vec![text_skill("readdir_test", &wat)], lister);
    let out = pe.call_skill("readdir_test", None).unwrap();
    assert!(out.contains("a.txt"));
    assert!(out.contains("b.txt"));
    let names: Vec<String> = serde_json::from_str(&out).unwrap();
    assert_eq!(names.len(), 2);
    assert!(names.contains(&String::from("a.txt")));
    assert!(names.contains(&String::from("b.txt")));
}

#[test]
fn readdir_of_unreadable_path_emits_nothing() {
    let wat = r#"(module
        (import "host" "readdir" (func $readdir (param i32 i32)))
        (memory (export "memory") 1)
        (data (i32.const 0) "/missing")
        (func (export "run")
            i32.const 0
            i32.const 8
            call $readdir
        )
    )"#;
    let pe = engine_with(vec![text_skill("ls", wat)], no_dirs());
    assert_eq!(pe.call_skill("ls", None).unwrap(), "");
}

#[test]
fn sequential_calls_do_not_share_output() {
    let pe = engine_with(vec![text_skill("test", HELLO)], no_dirs());
    let first = pe.call_skill("test", None).unwrap();
    let second = pe.call_skill("test", None).unwrap();
    assert_eq!(first, "Hello Wasm!");
    assert_eq!(second, "Hello Wasm!");
}

#[test]
fn call_without_write_after_call_with_write_is_empty() {
    let silent = r#"(module
        (import "host" "write" (func $write (param i32 i32)))
        (memory (export "memory") 1)
        (func (export "run"))
    )"#;
    let pe = engine_with(vec![text_skill("test", HELLO), text_skill("silent", silent)], no_dirs());
    assert_eq!(pe.call_skill("test", None).unwrap(), "Hello Wasm!");
    assert_eq!(pe.call_skill("silent", None).unwrap(), "");
}

#[test]
fn missing_skill_is_reported() {
    let pe = engine_with(vec![text_skill("test", HELLO)], no_dirs());
    assert!(matches!(pe.call_skill("other", None), Err(CallError::SkillNotFound)));
    assert!(matches!(pe.call_skill("", Some("input")), Err(CallError::SkillNotFound)));
}

#[test]
fn module_without_entry_point_returns_empty_output() {
    let wat = r#"(module (memory (export "memory") 1) (func (export "helper")))"#;
    let pe = engine_with(vec![text_skill("passive", wat)], no_dirs());
    assert_eq!(pe.call_skill("passive", None).unwrap(), "");
}

#[test]
fn start_export_is_the_fallback_entry_point() {
    let wat = r#"(module
        (import "host" "write" (func $write (param i32 i32)))
        (memory (export "memory") 1)
        (data (i32.const 0) "from start")
        (func (export "_start")
            i32.const 0
            i32.const 10
            call $write
        )
    )"#;
    let pe = engine_with(vec![text_skill("start", wat)], no_dirs());
    assert_eq!(pe.call_skill("start", None).unwrap(), "from start");
}

#[test]
fn out_of_bounds_write_is_ignored_and_the_call_succeeds() {
    let wat = r#"(module
        (import "host" "write" (func $write (param i32 i32)))
        (memory (export "memory") 1)
        (data (i32.const 0) "ok")
        (func (export "run")
            i32.const 65530
            i32.const 100
            call $write
            i32.const -1
            i32.const 2
            call $write
            i32.const 0
            i32.const -5
            call $write
            i32.const 0
            i32.const 2
            call $write
        )
    )"#;
    let pe = engine_with(vec![text_skill("bounds", wat)], no_dirs());
    assert_eq!(pe.call_skill("bounds", None).unwrap(), "ok");
}

#[test]
fn guest_trap_is_an_execution_error() {
    let wat = r#"(module (func (export "run") unreachable))"#;
    let pe = engine_with(vec![text_skill("trap", wat)], no_dirs());
    assert!(matches!(pe.call_skill("trap", None), Err(CallError::ExecutionTrap(_))));
}

#[test]
fn unknown_import_is_an_instantiation_error() {
    let wat = r#"(module (import "host" "launch" (func (param i32))) (func (export "run")))"#;
    let pe = engine_with(vec![text_skill("bad_import", wat)], no_dirs());
    assert!(matches!(pe.call_skill("bad_import", None), Err(CallError::Instantiation(_))));
}

#[test]
fn binary_and_text_sources_both_load() {
    let wasm = wat::parse_str(HELLO).unwrap();
    let files = vec![
        SkillFile { name: String::from("bin"), source: SkillSource::Binary(wasm) },
        text_skill("txt", HELLO),
    ];
    let pe = engine_with(files, no_dirs());
    assert_eq!(pe.call_skill("bin", None).unwrap(), "Hello Wasm!");
    assert_eq!(pe.call_skill("txt", None).unwrap(), "Hello Wasm!");
}

#[test]
fn compile_failure_fails_the_load_and_keeps_the_registry() {
    let mut pe = engine_with(vec![text_skill("test", HELLO)], no_dirs());
    let files = vec![text_skill("fresh", HELLO), text_skill("broken", "(module (func")];
    let r = pe.load_skills(files);
    match r {
        Err(LoadError::Compile { skill, .. }) => assert_eq!(skill, "broken"),
        Err(other) => panic!("unexpected error: {:?}", other),
        Ok(()) => panic!("a broken module loaded"),
    }
    assert!(pe.has_skill("test"));
    assert!(!pe.has_skill("fresh"));
    let bad_binary = vec![SkillFile { name: String::from("junk"), source: SkillSource::Binary(vec![1, 2, 3]) }];
    assert!(matches!(pe.load_skills(bad_binary), Err(LoadError::Compile { .. })));
    assert!(pe.has_skill("test"));
}

#[test]
fn reload_replaces_the_registry() {
    let mut pe = engine_with(vec![text_skill("old", HELLO)], no_dirs());
    pe.load_skills(vec![text_skill("new", HELLO)]).unwrap();
    assert!(!pe.has_skill("old"));
    assert!(pe.has_skill("new"));
    pe.load_skills(vec![]).unwrap();
    assert!(!pe.has_skill("new"));
}

#[test]
fn loading_the_same_files_twice_gives_the_same_registry() {
    let files = vec![text_skill("a", HELLO), text_skill("b", HELLO)];
    let mut pe = engine_with(files.clone(), no_dirs());
    let first: Vec<bool> = ["a", "b", "c"].iter().map(|n| pe.has_skill(n)).collect();
    pe.load_skills(files).unwrap();
    let second: Vec<bool> = ["a", "b", "c"].iter().map(|n| pe.has_skill(n)).collect();
    assert_eq!(first, vec![true, true, false]);
    assert_eq!(first, second);
}

#[test]
fn later_file_of_the_same_name_wins() {
    let quiet = r#"(module (func (export "run")))"#;
    let pe = engine_with(vec![text_skill("dup", HELLO), text_skill("dup", quiet)], no_dirs());
    assert_eq!(pe.call_skill("dup", None).unwrap(), "");
}

#[test]
fn skill_files_are_classified_by_extension() {
    assert_eq!(skill_format("wasm"), Some(SkillFormat::Binary));
    assert_eq!(skill_format("wat"), Some(SkillFormat::Text));
    assert_eq!(skill_format("WAT"), None);
    assert_eq!(skill_format("txt"), None);
    assert_eq!(skill_format(""), None);
    assert_eq!(skill_name(Some("greet")), "greet");
    assert_eq!(skill_name(None), "skill");
}

#[test]
fn default_directory_is_under_home() {
    assert_eq!(default_skills_dir(Some("/home/ann")), "/home/ann/.supercode/skills");
    assert_eq!(default_skills_dir(Some("/home/ann/")), "/home/ann/.supercode/skills");
    assert_eq!(default_skills_dir(None), "./.supercode/skills");
    assert_eq!(join_path("", "x"), "x");
    let pe = PluginEngine::new(Some(String::from("/srv/skills")), no_dirs()).unwrap();
    assert_eq!(pe.skills_dir(), "/srv/skills");
}

#[test]
fn guest_reads_are_bounds_checked() {
    let mem = b"abcdef";
    assert_eq!(read_guest(mem, 1, 3), Some(b"bcd".to_vec()));
    assert_eq!(read_guest(mem, 0, 6), Some(mem.to_vec()));
    assert_eq!(read_guest(mem, 6, 0), Some(vec![]));
    assert_eq!(read_guest(mem, 4, 3), None);
    assert_eq!(read_guest(mem, 7, 0), None);
    assert_eq!(read_guest(mem, -1, 2), None);
    assert_eq!(read_guest(mem, 0, -1), None);
    assert_eq!(read_guest(mem, i32::MAX, i32::MAX), None);
}

#[test]
fn write_capability_appends_lossy_text() {
    let mut out = OutputAccumulator::new();
    host_write(&mut out, b"Hello Wasm!", 0, 5);
    host_write(&mut out, b"Hello Wasm!", 20, 5);
    host_write(&mut out, &[0xff, b'x'], 0, 2);
    assert_eq!(out.into_string(), "Hello\u{fffd}x");
}

#[test]
fn readdir_capability_appends_a_json_array() {
    let lister = FixedLister { path: String::from("/d"), names: vec![String::from("x\"y"), String::from("z")] };
    assert_eq!(readdir_path(b"/d/e", 0, 2), Some(String::from("/d")));
    assert_eq!(readdir_path(b"/d/e", 3, 9), None);
    let mut out = OutputAccumulator::new();
    append_listing(&mut out, lister.list_dir("/d"));
    append_listing(&mut out, lister.list_dir("/d/e"));
    assert_eq!(out.into_string(), "[\"x\\\"y\",\"z\"]");
}

#[test]
fn scanner_reports_each_round() {
    let listing = r#"(module
        (import "host" "write" (func $write (param i32 i32)))
        (memory (export "memory") 1)
        (data (i32.const 0) "[\"a\"]")
        (func (export "run")
            i32.const 0
            i32.const 5
            call $write
        )
    )"#;
    let agent = ProjectScannerAgent::new(engine_with(vec![text_skill("project_scanner", listing)], no_dirs()), 1000);
    assert_eq!(agent.name(), "project_scanner");
    assert_eq!(agent.scan_once(), ScanReport::Produced(5));
    assert_eq!(agent.scan_once(), ScanReport::Produced(5));
    let empty = ProjectScannerAgent::new(engine_with(vec![], no_dirs()), 1000);
    assert_eq!(empty.scan_once(), ScanReport::Missing);
    let trap = r#"(module (func (export "run") unreachable))"#;
    let failing = ProjectScannerAgent::new(engine_with(vec![text_skill("project_scanner", trap)], no_dirs()), 1000);
    assert_eq!(failing.scan_once(), ScanReport::Failed);
}

#[test]
fn reports_follow_the_call_result() {
    assert_eq!(report_of(&Ok(String::from("[\"\u{e9}\"]"))), ScanReport::Produced(6));
    assert_eq!(report_of(&Ok(String::new())), ScanReport::Produced(0));
    assert_eq!(report_of(&Err(CallError::SkillNotFound)), ScanReport::Missing);
    assert_eq!(report_of(&Err(CallError::ExecutionTrap(String::from("unreachable")))), ScanReport::Failed);
    assert_eq!(report_of(&Err(CallError::Instantiation(String::new()))), ScanReport::Failed);
}

#[test]
fn write_capability_keeps_valid_utf8() {
    let mut out = OutputAccumulator::new();
    let text = "h\u{e9}llo \u{1f600}";
    host_write(&mut out, text.as_bytes(), 0, text.len() as i32);
    assert_eq!(out.into_string(), text);
}
