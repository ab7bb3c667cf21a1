use sniprun::data::{DataHolder, InterpreterData};
use sniprun::error::SniprunError;
use sniprun::imports::module_used_exec;
use sniprun::level::SupportLevel;
use sniprun::python3_original::{build_repl_program, Python3_original};

fn chars(s: &str) -> Vec<char> {
    s.chars().collect()
}

fn bloc_data(bloc: &str) -> DataHolder {
    let mut data = DataHolder::new(String::from("/tmp/sniprun"));
    data.current_bloc = String::from(bloc);
    data
}

#[test]
fn simple_print_program() {
    let mut interpreter = Python3_original::new(bloc_data("print(\"lol\",1);"));
    assert!(interpreter.prepare_at_level(SupportLevel::Bloc, None, "").is_ok());
    assert_eq!(interpreter.code, "print(\"lol\",1);");
}

#[test]
fn print_quote_program_keeps_quote() {
    let mut interpreter = Python3_original::new(bloc_data("print(\"->\\\"\",1);"));
    assert!(interpreter.prepare(None, "").is_ok());
    assert_eq!(interpreter.code, "print(\"->\\\"\",1);");
}

#[test]
fn successful_run_output_is_verbatim() {
    let r = Python3_original::execute(true, String::from("lol 1\n"), String::from("noise"));
    assert_eq!(r, Ok(String::from("lol 1\n")));
    let r = Python3_original::execute(true, String::from("->\" 1\n"), String::new());
    assert_eq!(r, Ok(String::from("->\" 1\n")));
}

#[test]
fn failed_run_reports_last_non_blank_line() {
    let stderr = "Traceback (most recent call last):\n  File \"main.py\", line 1\nNameError: name 'x' is not defined\n\n  \n";
    let r = Python3_original::execute(false, String::from("partial"), String::from(stderr));
    assert_eq!(
        r,
        Err(SniprunError::RuntimeError(String::from(
            "NameError: name 'x' is not defined"
        )))
    );
}

#[test]
fn failed_run_with_blank_stderr_reports_all_of_it() {
    let r = Python3_original::execute(false, String::new(), String::from(" \n\t\n"));
    assert_eq!(r, Err(SniprunError::RuntimeError(String::from(" \n\t\n"))));
    let r = Python3_original::execute(false, String::new(), String::new());
    assert_eq!(r, Err(SniprunError::RuntimeError(String::new())));
}

#[test]
fn failed_run_strips_carriage_return() {
    let r = Python3_original::execute(false, String::new(), String::from("a\r\nboom\r\n"));
    assert_eq!(r, Err(SniprunError::RuntimeError(String::from("boom"))));
}

#[test]
fn get_import_injects_used_import() {
    let mut interpreter = Python3_original::new(bloc_data("print(cos(0))"));
    assert!(interpreter
        .prepare_at_level(SupportLevel::Import, Some("from math import cos"), "")
        .is_ok());
    assert_eq!(
        interpreter.code,
        "try:\n\tfrom math import cos\nexcept:\n\tpass\nprint(cos(0))"
    );
}

#[test]
fn unused_import_is_omitted() {
    let mut interpreter = Python3_original::new(bloc_data("print(sin(0))"));
    assert!(interpreter
        .prepare_at_level(SupportLevel::Import, Some("from math import cos"), "")
        .is_ok());
    assert_eq!(interpreter.code, "print(sin(0))");
}

#[test]
fn imports_ignored_below_import_level() {
    let mut interpreter = Python3_original::new(bloc_data("print(cos(0))"));
    assert!(interpreter
        .prepare_at_level(SupportLevel::Bloc, Some("from math import cos"), "")
        .is_ok());
    assert_eq!(interpreter.code, "print(cos(0))");
}

#[test]
fn commented_imports_are_skipped() {
    let mut interpreter = Python3_original::new(bloc_data("x = cos(0)"));
    interpreter.fetch_imports("  # from math import cos\n\u{c}# import cos\nimport cos\n");
    assert_eq!(interpreter.imports, "\nimport cos");
}

#[test]
fn module_usage_rules() {
    assert!(module_used_exec(&chars("from os import *"), &chars("")));
    assert!(module_used_exec(&chars("import numpy as np"), &chars("np.zeros(3)")));
    assert!(!module_used_exec(&chars("import numpy as np"), &chars("numpy.zeros(3)")));
    assert!(module_used_exec(&chars("from a import b, c"), &chars("c()")));
    assert!(!module_used_exec(&chars("from a import b, c"), &chars("d()")));
    assert!(!module_used_exec(&chars("import x"), &chars("import()")));
}

#[test]
fn code_falls_back_to_line_then_nothing() {
    let mut data = bloc_data(" \n\t");
    data.current_line = String::from("print(2)");
    let mut interpreter = Python3_original::new_with_level(data, SupportLevel::Line);
    assert!(interpreter.fetch_code(None).is_ok());
    assert_eq!(interpreter.code, "print(2)");

    let mut data = bloc_data("print(1)");
    data.current_line = String::from("   ");
    let mut interpreter = Python3_original::new_with_level(data, SupportLevel::Line);
    assert!(interpreter.fetch_code(None).is_ok());
    assert_eq!(interpreter.code, "");
}

#[test]
fn boilerplate_unindents_code() {
    let mut interpreter = Python3_original::new(bloc_data("    a = 1\n    print(a)"));
    assert!(interpreter.prepare(None, "").is_ok());
    assert_eq!(interpreter.code, "a = 1\nprint(a)");
}

#[test]
fn repl_first_then_second_run() {
    let mut data = bloc_data("x = 1");
    data.repl_enabled = vec![String::from("Python3_original")];
    let mut first = Python3_original::new(data);
    assert!(first.prepare(None, "FUNCS").is_ok());
    assert_eq!(
        first.code,
        "\nFUNCS\nx = 1\nsniprun142859_save('/tmp/sniprun/python3_original/memo')"
    );
    assert_eq!(first.data.interpreter_data.owner, "Python3_original");
    assert_eq!(first.data.interpreter_data.content, "Not the first run anymore");

    let mut data = bloc_data("print(x)");
    data.repl_enabled = vec![String::from("Python3_original")];
    data.interpreter_data = first.data.interpreter_data.clone();
    let mut second = Python3_original::new(data);
    assert!(second.prepare(None, "FUNCS").is_ok());
    assert_eq!(
        second.code,
        "\nFUNCS\nsniprun142859_load('/tmp/sniprun/python3_original/memo')\nprint(x)\nsniprun142859_save('/tmp/sniprun/python3_original/memo')"
    );
}

#[test]
fn repl_store_of_other_owner_is_ignored() {
    let mut data = bloc_data("x = 1");
    data.repl_enabled = vec![String::from("Python3_original")];
    data.interpreter_data = InterpreterData {
        owner: String::from("Other"),
        content: String::from("something"),
        pid: None,
    };
    let inter = Python3_original::new(data);
    assert_eq!(inter.read_previous_code(), "");
}

#[test]
fn metadata() {
    assert_eq!(Python3_original::get_name(), "Python3_original");
    assert_eq!(Python3_original::get_max_support_level(), SupportLevel::Import);
    assert!(Python3_original::default_for_filetype());
    assert!(Python3_original::has_repl_capability());
    assert!(!Python3_original::behave_repl_like_default());
    assert_eq!(Python3_original::get_supported_languages().len(), 4);
}

#[test]
fn repl_program_builder() {
    assert_eq!(
        build_repl_program("I", "F", "/c", "B", true),
        "I\nF\nB\nsniprun142859_save('/c/memo')"
    );
    assert_eq!(
        build_repl_program("I", "F", "/c", "B", false),
        "I\nF\nsniprun142859_load('/c/memo')\nB\nsniprun142859_save('/c/memo')"
    );
}

#[test]
fn each_import_is_guarded_on_its_own() {
    let mut interpreter2 = Python3_original::new(bloc_data("print(cos(0), sin(0))"));
    assert!(interpreter2
        .prepare(Some("from math import cos\nfrom missing import sin\n"), "")
        .is_ok());
    assert_eq!(
        interpreter2.code,
        "try:\n\tfrom math import cos\nexcept:\n\tpass\ntry:\n\tfrom missing import sin\nexcept:\n\tpass\nprint(cos(0), sin(0))"
    );
}

#[test]
fn imports_matched_against_line_when_block_is_blank() {
    let mut data = bloc_data("  ");
    data.current_line = String::from("print(cos(0))");
    let mut interpreter = Python3_original::new(data);
    assert!(interpreter
        .prepare(Some("from math import cos"), "")
        .is_ok());
    assert_eq!(
        interpreter.code,
        "try:\n\tfrom math import cos\nexcept:\n\tpass\nprint(cos(0))"
    );
}

#[test]
fn repl_program_guards_imports() {
    let mut data = bloc_data("print(cos(0))");
    data.repl_enabled = vec![String::from("Python3_original")];
    let mut inter = Python3_original::new(data);
    assert!(inter.prepare(Some("from math import cos"), "F").is_ok());
    assert_eq!(
        inter.code,
        "try:\n\tfrom math import cos\nexcept:\n\tpass\n\nF\nprint(cos(0))\nsniprun142859_save('/tmp/sniprun/python3_original/memo')"
    );
}

#[test]
fn blank_block_with_unicode_space_falls_back_to_line() {
    let mut data = bloc_data("\u{a0}\u{3000}\n");
    data.current_line = String::from("print(3)");
    let mut interpreter = Python3_original::new_with_level(data, SupportLevel::Bloc);
    assert!(interpreter.fetch_code(None).is_ok());
    assert_eq!(interpreter.code, "print(3)");
}

#[test]
fn fetch_imports_takes_block_as_code() {
    let mut interpreter = Python3_original::new(bloc_data("print(cos(0))"));
    interpreter.fetch_imports("from math import cos");
    assert_eq!(interpreter.code, "print(cos(0))");
    assert_eq!(interpreter.imports, "\nfrom math import cos");
}

#[test]
fn fetch_imports_skips_comment_of_used_module() {
    let mut interpreter = Python3_original::new(bloc_data("print(os.getcwd(), sys.argv)"));
    interpreter.fetch_imports("# import os\nimport sys");
    assert_eq!(interpreter.imports, "\nimport sys");
}

#[test]
fn fetch_imports_below_import_level_does_nothing() {
    let mut interpreter =
        Python3_original::new_with_level(bloc_data("print(cos(0))"), SupportLevel::Bloc);
    interpreter.fetch_imports("from math import cos");
    assert_eq!(interpreter.code, "");
    assert_eq!(interpreter.imports, "");
}
