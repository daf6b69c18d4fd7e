use std::collections::VecDeque;

use ccomp::codegen::get_generator;
use ccomp::codegen::AssemblerOptions;
use ccomp::codegen::Target;
use ccomp::codegen::x86_64::X86_64Generator;
use ccomp::error::CompilerError;
use ccomp::error::NotSupported;
use ccomp::preprocessor::combine;
use ccomp::preprocessor::definitions::apply_definitions;
use ccomp::preprocessor::is_directive_line;
use ccomp::preprocessor::Definition;
use ccomp::preprocessor::Directive;
use ccomp::preprocessor::Preprocessor;
use ccomp::preprocessor::Progress;
use indexmap::IndexMap;

fn raw(text: &str) -> Directive {
    Directive::Raw(text.to_string())
}

fn define(identifier: &str, replacement: Option<&str>) -> Directive {
    Directive::Define(Definition {
        identifier: identifier.to_string(),
        replacement: replacement.map(|r| r.to_string()),
    })
}

fn local(path: &str) -> Directive {
    Directive::IncludeLocal(path.to_string())
}

/// The directives of a file, read line by line; a line that starts with `#`
/// is taken for a definition of the form `#define IDENTIFIER REPLACEMENT`.
fn read(lines: &[&str]) -> Vec<Directive> {
    let mut directives = Vec::new();
    for line in lines {
        let next = if is_directive_line(line) {
            let mut words = line["#define ".len()..].splitn(2, ' ');
            define(words.next().unwrap(), words.next())
        } else {
            raw(line)
        };
        combine(&mut directives, next);
    }
    directives
}

fn shape(directives: &[Directive]) -> Vec<String> {
    directives
        .iter()
        .map(|d| match d {
            Directive::Raw(text) => format!("raw:{}", text),
            Directive::Define(d) => format!("define:{}={:?}", d.identifier, d.replacement),
            Directive::IncludeLocal(p) => format!("local:{}", p),
            Directive::IncludeGlobal(p) => format!("global:{}", p),
        })
        .collect()
}

/// Runs a preprocessor to its end, with the files it asks for looked up in
/// `files`.
fn run(top: Vec<Directive>, files: &[(&str, Vec<&str>)]) -> Result<String, CompilerError> {
    let mut preprocessor = Preprocessor::new(VecDeque::from(top));
    loop {
        match preprocessor.advance() {
            Progress::Finished => return Ok(preprocessor.into_output()),
            Progress::Failed(e) => return Err(e),
            Progress::Include(path) => {
                let lines = &files.iter().find(|(name, _)| *name == path).expect("a known file").1;
                preprocessor.splice(VecDeque::from(read(lines)));
            }
        }
    }
}

#[test]
fn directive_lines_start_with_a_hash() {
    assert!(is_directive_line("#define X"));
    assert!(is_directive_line("#"));
    assert!(!is_directive_line(""));
    assert!(!is_directive_line(" #define X"));
    assert!(!is_directive_line("int x; # not a directive"));
}

#[test]
fn adjacent_lines_of_text_are_joined() {
    let directives = read(&["Hello World", "Two lines!!"]);
    assert_eq!(shape(&directives), vec!["raw:Hello World\nTwo lines!!"]);
    let directives = read(&["one"]);
    assert_eq!(shape(&directives), vec!["raw:one"]);
    let directives = read(&["a", "b", "c", ""]);
    assert_eq!(shape(&directives), vec!["raw:a\nb\nc\n"]);
    assert!(read(&[]).is_empty());
}

#[test]
fn a_directive_closes_the_run_of_text_before_it() {
    let directives = read(&["a", "b", "#define X 1", "#define Y", "c", "d", "#define Z 2"]);
    assert_eq!(
        shape(&directives),
        vec![
            "raw:a\nb\n",
            "define:X=Some(\"1\")",
            "define:Y=None",
            "raw:c\nd\n",
            "define:Z=Some(\"2\")",
        ]
    );
}

#[test]
fn combine_keeps_other_directives_apart() {
    let mut directives = vec![local("a.h")];
    combine(&mut directives, local("b.h"));
    combine(&mut directives, raw("text"));
    combine(&mut directives, Directive::IncludeGlobal("stdio.h".to_string()));
    assert_eq!(
        shape(&directives),
        vec!["local:a.h", "local:b.h", "raw:text\n", "global:stdio.h"]
    );
}

#[test]
fn definitions_are_applied_in_their_order() {
    let mut definitions: IndexMap<String, String> = IndexMap::new();
    assert_eq!(apply_definitions(&definitions, "nothing changes"), "nothing changes");
    definitions.insert("X".to_string(), "Y".to_string());
    definitions.insert("Y".to_string(), "Z".to_string());
    assert_eq!(apply_definitions(&definitions, "X Y"), "Z Z");
    let mut other_order: IndexMap<String, String> = IndexMap::new();
    other_order.insert("Y".to_string(), "Z".to_string());
    other_order.insert("X".to_string(), "Y".to_string());
    assert_eq!(apply_definitions(&other_order, "X Y"), "Y Z");
}

#[test]
fn replacement_finds_occurrences_from_the_left() {
    let mut definitions: IndexMap<String, String> = IndexMap::new();
    definitions.insert("aa".to_string(), "b".to_string());
    assert_eq!(apply_definitions(&definitions, "aaa"), "ba");
    assert_eq!(apply_definitions(&definitions, "aaaa"), "bb");
    assert_eq!(apply_definitions(&definitions, "a"), "a");
    assert_eq!(apply_definitions(&definitions, ""), "");
    let mut empty: IndexMap<String, String> = IndexMap::new();
    empty.insert("".to_string(), "-".to_string());
    assert_eq!(apply_definitions(&empty, "abc"), "-a-b-c-");
    assert_eq!(apply_definitions(&empty, ""), "-");
    let mut gone: IndexMap<String, String> = IndexMap::new();
    gone.insert("EMPTY".to_string(), "".to_string());
    assert_eq!(apply_definitions(&gone, "aEMPTYb EMPTY"), "ab ");
}

#[test]
fn text_without_directives_passes_through() {
    assert_eq!(run(read(&["Hello World", "Two lines!!"]), &[]), Ok("Hello World\nTwo lines!!".to_string()));
    assert_eq!(run(vec![], &[]), Ok(String::new()));
}

#[test]
fn macros_are_replaced_from_their_definition_on() {
    let top = read(&[
        "HELLO",
        "#define HELLO hi",
        "HELLO",
        "#define BYE bye",
        "BYE",
        "HELLO BYE",
        "#define GONE",
        "<GONE>",
    ]);
    assert_eq!(run(top, &[]), Ok("HELLO\nhi\nbye\nhi bye\n<>".to_string()));
}

#[test]
fn earlier_macros_are_replaced_in_a_later_definition() {
    let top = read(&[
        "#define SUM 1 + 2 + 3",
        "#define EXPR SUM >> 2",
        "EXPR",
        "I like to say EXPR",
    ]);
    assert_eq!(run(top, &[]), Ok("1 + 2 + 3 >> 2\nI like to say 1 + 2 + 3 >> 2".to_string()));
}

#[test]
fn redefinition_replaces_and_moves_last() {
    let top = read(&[
        "#define X Y",
        "#define Y Z",
        "X Y",
        "#define X Y",
        "X Y",
        "#define Y W",
        "X Y",
    ]);
    assert_eq!(run(top, &[]), Ok("Z Z\nZ Z\nZ W".to_string()));
}

#[test]
fn redefined_macro_is_applied_after_the_others() {
    let top = read(&["#define X a", "#define Y Y!", "X Y", "#define X Y", "X"]);
    assert_eq!(run(top, &[]), Ok("a Y!\nY!".to_string()));
    let top = read(&["#define X a", "#define Y Y!", "#define Z X", "#define X Y", "X Z"]);
    assert_eq!(run(top, &[]), Ok("Y! a".to_string()));
}

#[test]
fn redefined_macro_is_not_replaced_in_its_own_new_replacement() {
    let top = read(&["#define A 1", "#define A A+1", "A"]);
    assert_eq!(run(top, &[]), Ok("A+1".to_string()));
}

#[test]
fn included_file_is_spliced_in_with_a_line_break() {
    let mut top = read(&["before"]);
    combine(&mut top, local("header.h"));
    combine(&mut top, raw("Hello from the file!"));
    combine(&mut top, local("header.h"));
    combine(&mut top, raw("Yay!"));
    let files = [("header.h", vec!["Hello from the header!"])];
    assert_eq!(
        run(top, &files),
        Ok("before\nHello from the header!\nHello from the file!\nHello from the header!\nYay!"
            .to_string())
    );
}

#[test]
fn definitions_of_an_included_file_stay() {
    let mut top = vec![local("defs.h")];
    combine(&mut top, raw("GREETING"));
    let files = [("defs.h", vec!["#define GREETING howdy"])];
    assert_eq!(run(top, &files), Ok("\nhowdy".to_string()));
}

#[test]
fn included_directives_are_dealt_with_last_first() {
    let top = vec![local("two.h"), raw("end")];
    let files = [("two.h", vec!["first", "#define X 1", "second X"])];
    assert_eq!(run(top, &files), Ok("second Xfirst\n\nend".to_string()));
}

#[test]
fn nested_files_are_asked_for_in_turn() {
    let mut preprocessor = Preprocessor::new(VecDeque::from(vec![raw("a "), local("x.h"), raw("d")]));
    match preprocessor.advance() {
        Progress::Include(path) => assert_eq!(path, "x.h"),
        other => panic!("expected a request for a file, got {:?}", other),
    }
    assert_eq!(preprocessor.output(), "a ");
    preprocessor.splice(VecDeque::from(vec![local("y.h"), raw("b ")]));
    match preprocessor.advance() {
        Progress::Include(path) => assert_eq!(path, "y.h"),
        other => panic!("expected a request for a file, got {:?}", other),
    }
    assert_eq!(preprocessor.output(), "a b ");
    preprocessor.splice(VecDeque::from(vec![raw("c")]));
    assert!(matches!(preprocessor.advance(), Progress::Finished));
    assert_eq!(preprocessor.output(), "a b c\n\nd");
    assert!(matches!(preprocessor.advance(), Progress::Finished));
    assert_eq!(preprocessor.into_output(), "a b c\n\nd");
}

#[test]
fn global_includes_are_not_supported() {
    let top = vec![raw("a"), Directive::IncludeGlobal("stdio.h".to_string()), raw("b")];
    assert_eq!(run(top, &[]), Err(CompilerError::NotSupported(NotSupported::GlobalInclude)));
}

#[test]
fn generator_exists_for_x86_64_only() {
    assert!(get_generator(&Target::X86_64).is_ok());
    assert_eq!(
        get_generator(&Target::Other).err(),
        Some(CompilerError::NotSupported(NotSupported::ForeignTarget))
    );
}

#[test]
fn assembler_and_linker_arguments() {
    let generator = X86_64Generator::new();
    assert_eq!(
        generator.assembler_arguments("/tmp/w/main.s", "/tmp/w/main.o"),
        vec!["-f", "macho64", "-o", "/tmp/w/main.o", "/tmp/w/main.s"]
    );
    let objects = vec!["a.o".to_string(), "b.o".to_string()];
    let default = AssemblerOptions { link: true, output: None };
    assert_eq!(
        generator.linker_arguments(&default, &objects),
        vec!["-target", "x86_64-apple-darwin", "-o", "a.out", "a.o", "b.o"]
    );
    let named = AssemblerOptions { link: true, output: Some("prog") };
    assert_eq!(
        generator.linker_arguments(&named, &vec![]),
        vec!["-target", "x86_64-apple-darwin", "-o", "prog"]
    );
}

#[test]
fn object_files_go_to_the_named_output_only_when_alone() {
    let generator = X86_64Generator::new();
    let named = AssemblerOptions { link: false, output: Some("out.o") };
    let unnamed = AssemblerOptions { link: false, output: None };
    assert_eq!(generator.object_destination(&named, 1, "/cwd/main.o".to_string()), "out.o");
    assert_eq!(generator.object_destination(&named, 2, "/cwd/main.o".to_string()), "/cwd/main.o");
    assert_eq!(generator.object_destination(&named, 0, "/cwd/main.o".to_string()), "/cwd/main.o");
    assert_eq!(generator.object_destination(&unnamed, 1, "/cwd/main.o".to_string()), "/cwd/main.o");
}

/// The directives of a file that may include others: a line of the form
/// `#include "PATH"` asks for the file beside the including one.
fn read_with_includes(lines: &[&str]) -> Vec<Directive> {
    let mut directives = Vec::new();
    for line in lines {
        let next = if let Some(path) = line.strip_prefix("#include \"") {
            local(path.trim_end_matches('"'))
        } else if is_directive_line(line) {
            let mut words = line["#define ".len()..].splitn(2, ' ');
            define(words.next().unwrap(), words.next())
        } else {
            raw(line)
        };
        combine(&mut directives, next);
    }
    directives
}

fn preprocess(top: &[&str], files: &[(&str, Vec<&str>)]) -> Result<String, CompilerError> {
    let mut preprocessor = Preprocessor::new(VecDeque::from(read_with_includes(top)));
    loop {
        match preprocessor.advance() {
            Progress::Finished => return Ok(preprocessor.into_output()),
            Progress::Failed(e) => return Err(e),
            Progress::Include(path) => {
                let lines = &files.iter().find(|(name, _)| *name == path).expect("a known file").1;
                preprocessor.splice(VecDeque::from(read_with_includes(lines)));
            }
        }
    }
}

#[test]
fn no_directives() -> Result<(), CompilerError> {
    let output = preprocess(&["Hello World", "Two lines!!"], &[])?;
    assert_eq!(output, "Hello World\nTwo lines!!");
    Ok(())
}

#[test]
fn defines() -> Result<(), CompilerError> {
    let output = preprocess(
        &[
            "#define HELLO hi",
            "HELLO",
            "#define BYE bye",
            "BYE",
            "HELLO BYE",
            "#define HELLO get redefined",
            "HELLO",
            "#define SUM 1 + 2 + 3",
            "#define EXPR SUM >> 2",
            "EXPR",
            "I like to say EXPR",
        ],
        &[],
    )?;

    let expected = "hi
bye
hi bye
get redefined
1 + 2 + 3 >> 2
I like to say 1 + 2 + 3 >> 2";

    assert_eq!(output, expected);
    Ok(())
}

#[test]
fn include_local() -> Result<(), CompilerError> {
    let output = preprocess(
        &[
            "#include \"header.txt\"",
            "Hello from the file!",
            "#include \"header.txt\"",
            "Yay!",
        ],
        &[("header.txt", vec!["Hello from the header!"])],
    )?;
    let expected = "Hello from the header!
Hello from the file!
Hello from the header!
Yay!";

    assert_eq!(output, expected);
    Ok(())
}

#[test]
fn include_define() -> Result<(), CompilerError> {
    let output = preprocess(
        &["#include \"header.txt\"", "GREETING"],
        &[("header.txt", vec!["HEADER", "#define GREETING howdy"])],
    )?;
    let expected = "HEADER\n\nhowdy";

    assert_eq!(output, expected);
    Ok(())
}
