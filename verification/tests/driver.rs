use textual::error::ConstructKind;
use textual::error::EmissionError;
use textual::error::EmitError;
use textual::fatal::FatalOp;
use textual::fatal::SrcLoc;
use textual::scripted::ScriptedEmitter;
use textual::scripted::ScriptedFunction;
use textual::unit::Class;
use textual::unit::Unit;
use textual::writer::textual_writer;

const HEADER: &str = ".source_language = \"hack\"\n\n";

fn lowered(text: &str, externals: &[&str]) -> ScriptedFunction {
    ScriptedFunction {
        text: text.to_string(),
        externals: externals.iter().map(|s| s.to_string()).collect(),
        failure: None,
    }
}

fn failing(message: &str) -> ScriptedFunction {
    ScriptedFunction {
        text: "never written\n".to_string(),
        externals: vec!["never_registered".to_string()],
        failure: Some(EmitError { message: message.to_string() }),
    }
}

fn unit_of(functions: Vec<ScriptedFunction>) -> Unit<ScriptedFunction> {
    Unit { functions, classes: Vec::new(), fatal: FatalOp::Absent }
}

fn at_line(line: i64) -> SrcLoc {
    SrcLoc { line_begin: line, col_begin: 4, line_end: line + 2, col_end: 9 }
}

fn emit(path: &str, unit: &Unit<ScriptedFunction>) -> (Result<(), EmissionError>, String) {
    let mut out = String::new();
    let r = textual_writer(&mut out, path, unit, &ScriptedEmitter);
    (r, out)
}

fn declarations_of(out: &str) -> Vec<String> {
    let marker = "// ----- EXTERNALS -----\n";
    let at = out.find(marker).unwrap();
    out[at + marker.len()..].lines().filter(|l| !l.is_empty()).map(|l| l.to_string()).collect()
}

#[test]
fn empty_unit_is_header_and_empty_declarations() {
    let (r, out) = emit("empty.php", &unit_of(Vec::new()));
    assert_eq!(r, Ok(()));
    assert_eq!(out, ".source_language = \"hack\"\n\n// ----- EXTERNALS -----\n\n");
}

#[test]
fn output_is_appended_to_what_the_sink_held() {
    let mut out = String::from("// earlier\n");
    let r = textual_writer(&mut out, "a.php", &unit_of(Vec::new()), &ScriptedEmitter);
    assert_eq!(r, Ok(()));
    assert_eq!(out, "// earlier\n.source_language = \"hack\"\n\n// ----- EXTERNALS -----\n\n");
}

#[test]
fn parse_marker_fails_with_path_line_and_message() {
    let mut unit = unit_of(vec![lowered("define f() {}\n", &["g"])]);
    unit.fatal = FatalOp::Parse(at_line(17), "unexpected token".to_string());
    let (r, out) = emit("dir/broken.php", &unit);
    let e = r.unwrap_err();
    assert_eq!(
        e,
        EmissionError::ParseFailure {
            path: "dir/broken.php".to_string(),
            line: 17,
            message: "unexpected token".to_string(),
        }
    );
    let message = e.message();
    assert_eq!(message, "Parse error in dir/broken.php[17]: unexpected token");
    assert!(message.contains("dir/broken.php"));
    assert!(message.contains("17"));
    assert!(message.contains("unexpected token"));
    assert_eq!(out, HEADER);
    assert!(!out.contains("define f"));
    assert!(!out.contains("EXTERNALS"));
    assert!(!out.contains("declare"));
}

#[test]
fn runtime_marker_fails_with_runtime_failure() {
    let mut unit = unit_of(vec![lowered("define f() {}\n", &[])]);
    unit.fatal = FatalOp::Runtime(at_line(3), "division by zero".to_string());
    let (r, out) = emit("r.php", &unit);
    let e = r.unwrap_err();
    assert_eq!(
        e,
        EmissionError::RuntimeFailure {
            path: "r.php".to_string(),
            line: 3,
            message: "division by zero".to_string(),
        }
    );
    assert_eq!(e.message(), "Runtime error in r.php[3]: division by zero");
    assert_eq!(out, HEADER);
}

#[test]
fn runtime_omit_frame_marker_fails_like_runtime() {
    let mut with_frame = unit_of(Vec::new());
    with_frame.fatal = FatalOp::Runtime(at_line(8), "boom".to_string());
    let mut without_frame = unit_of(Vec::new());
    without_frame.fatal = FatalOp::RuntimeOmitFrame(at_line(8), "boom".to_string());
    let (r1, out1) = emit("u.php", &with_frame);
    let (r2, out2) = emit("u.php", &without_frame);
    assert_eq!(
        r2,
        Err(EmissionError::RuntimeFailure {
            path: "u.php".to_string(),
            line: 8,
            message: "boom".to_string(),
        })
    );
    assert_eq!(r1, r2);
    assert_eq!(out1, out2);
}

#[test]
fn unit_with_classes_is_unsupported() {
    let mut unit = unit_of(vec![lowered("define f() {}\n", &["g"])]);
    unit.classes.push(Class { name: "C".to_string() });
    let (r, out) = emit("c.php", &unit);
    assert_eq!(r, Err(EmissionError::UnsupportedConstruct { kind: ConstructKind::Classes }));
    assert_eq!(out, HEADER);
}

#[test]
fn unit_with_several_classes_is_unsupported() {
    let mut unit = unit_of(Vec::new());
    unit.classes.push(Class { name: "A".to_string() });
    unit.classes.push(Class { name: "B".to_string() });
    let (r, _) = emit("c.php", &unit);
    assert_eq!(r, Err(EmissionError::UnsupportedConstruct { kind: ConstructKind::Classes }));
}

#[test]
fn fatal_marker_is_checked_before_classes() {
    let mut unit = unit_of(Vec::new());
    unit.classes.push(Class { name: "C".to_string() });
    unit.fatal = FatalOp::Parse(at_line(1), "bad".to_string());
    let (r, out) = emit("c.php", &unit);
    assert_eq!(
        r,
        Err(EmissionError::ParseFailure {
            path: "c.php".to_string(),
            line: 1,
            message: "bad".to_string(),
        })
    );
    assert_eq!(out, HEADER);
}

#[test]
fn symbol_of_two_functions_is_declared_once() {
    let unit = unit_of(vec![
        lowered("define f() { call S }\n", &["S"]),
        lowered("define g() { call S }\n", &["S"]),
        lowered("define h() { call S; call S }\n", &["S", "S"]),
    ]);
    let (r, out) = emit("s.php", &unit);
    assert_eq!(r, Ok(()));
    let lines = declarations_of(&out);
    assert_eq!(lines, vec!["declare S(HackParams): mixed".to_string()]);
    assert_eq!(out.matches("declare S(HackParams): mixed\n").count(), 1);
}

#[test]
fn bodies_keep_unit_order() {
    let unit = unit_of(vec![
        lowered("define f1() {}\n", &[]),
        lowered("define f2() {}\n", &[]),
        lowered("define f3() {}\n", &[]),
    ]);
    let (r, out) = emit("o.php", &unit);
    assert_eq!(r, Ok(()));
    assert_eq!(
        out,
        ".source_language = \"hack\"\n\ndefine f1() {}\ndefine f2() {}\ndefine f3() {}\n// ----- EXTERNALS -----\n\n"
    );
    let p1 = out.find("define f1").unwrap();
    let p2 = out.find("define f2").unwrap();
    let p3 = out.find("define f3").unwrap();
    assert!(p1 < p2 && p2 < p3);
}

#[test]
fn reversed_unit_gives_reversed_bodies() {
    let unit = unit_of(vec![lowered("C", &[]), lowered("B", &[]), lowered("A", &[])]);
    let (r, out) = emit("o.php", &unit);
    assert_eq!(r, Ok(()));
    assert_eq!(out, ".source_language = \"hack\"\n\nCBA// ----- EXTERNALS -----\n\n");
}

#[test]
fn same_unit_twice_gives_identical_output() {
    let unit = unit_of(vec![
        lowered("define f() { call b; call a }\n", &["b", "a", "b"]),
        lowered("define g() { call a; call c }\n", &["a", "c"]),
    ]);
    let (r1, out1) = emit("d.php", &unit);
    let (r2, out2) = emit("d.php", &unit);
    assert_eq!(r1, Ok(()));
    assert_eq!(r1, r2);
    assert_eq!(out1.as_bytes(), out2.as_bytes());
}

#[test]
fn registry_does_not_outlive_an_emission() {
    let first = unit_of(vec![lowered("f", &["only_in_first"])]);
    let second = unit_of(vec![lowered("g", &[])]);
    let (_, out1) = emit("1.php", &first);
    let (_, out2) = emit("2.php", &second);
    assert!(out1.contains("declare only_in_first(HackParams): mixed\n"));
    assert!(!out2.contains("declare"));
}

#[test]
fn foo_foo_bar_declares_foo_then_bar() {
    let unit = unit_of(vec![lowered("define f() {}\n", &["foo", "foo", "bar"])]);
    let (r, out) = emit("x.php", &unit);
    assert_eq!(r, Ok(()));
    assert_eq!(
        declarations_of(&out),
        vec![
            "declare foo(HackParams): mixed".to_string(),
            "declare bar(HackParams): mixed".to_string(),
        ]
    );
    assert_eq!(
        out,
        ".source_language = \"hack\"\n\ndefine f() {}\n// ----- EXTERNALS -----\ndeclare foo(HackParams): mixed\ndeclare bar(HackParams): mixed\n\n"
    );
}

#[test]
fn declarations_follow_first_reference_across_functions() {
    let unit = unit_of(vec![
        lowered("1", &["z", "m"]),
        lowered("2", &["a", "z"]),
        lowered("3", &["m", "b", "a"]),
    ]);
    let (r, out) = emit("x.php", &unit);
    assert_eq!(r, Ok(()));
    assert_eq!(
        declarations_of(&out),
        vec![
            "declare z(HackParams): mixed".to_string(),
            "declare m(HackParams): mixed".to_string(),
            "declare a(HackParams): mixed".to_string(),
            "declare b(HackParams): mixed".to_string(),
        ]
    );
}

#[test]
fn emitter_error_is_handed_on_and_ends_the_emission() {
    let unit = unit_of(vec![
        lowered("define f1() {}\n", &["seen"]),
        failing("cannot lower f2"),
        lowered("define f3() {}\n", &["unseen"]),
    ]);
    let (r, out) = emit("e.php", &unit);
    assert_eq!(r, Err(EmissionError::Emit(EmitError { message: "cannot lower f2".to_string() })));
    assert!(out.starts_with(".source_language = \"hack\"\n\ndefine f1() {}\n"));
    assert!(!out.contains("define f3"));
    assert!(!out.contains("EXTERNALS"));
    assert!(!out.contains("never written"));
}

#[test]
fn first_of_two_emitter_errors_wins() {
    let unit = unit_of(vec![failing("first"), failing("second")]);
    let (r, _) = emit("e.php", &unit);
    assert_eq!(r, Err(EmissionError::Emit(EmitError { message: "first".to_string() })));
}

#[test]
fn fatal_marker_wins_over_emitter_error() {
    let mut unit = unit_of(vec![failing("cannot lower")]);
    unit.fatal = FatalOp::Runtime(at_line(2), "fatal".to_string());
    let (r, _) = emit("e.php", &unit);
    assert_eq!(
        r,
        Err(EmissionError::RuntimeFailure {
            path: "e.php".to_string(),
            line: 2,
            message: "fatal".to_string(),
        })
    );
}

#[test]
fn negative_line_is_written_with_its_sign() {
    let mut unit = unit_of(Vec::new());
    unit.fatal = FatalOp::Parse(at_line(-1), "eof".to_string());
    let (r, _) = emit("n.php", &unit);
    assert_eq!(r.unwrap_err().message(), "Parse error in n.php[-1]: eof");
}

#[test]
fn symbol_names_are_not_interpreted() {
    let unit = unit_of(vec![lowered("f", &["", "a b", "a", "A", "déjà::vu"])]);
    let (r, out) = emit("x.php", &unit);
    assert_eq!(r, Ok(()));
    assert_eq!(
        declarations_of(&out),
        vec![
            "declare (HackParams): mixed".to_string(),
            "declare a b(HackParams): mixed".to_string(),
            "declare a(HackParams): mixed".to_string(),
            "declare A(HackParams): mixed".to_string(),
            "declare déjà::vu(HackParams): mixed".to_string(),
        ]
    );
}
