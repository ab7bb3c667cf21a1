use sniprun::data::DataHolder;
use sniprun::error::SniprunError;
use sniprun::launcher::{select_from, InterpreterInfo, Launcher};
use sniprun::level::SupportLevel;

fn info(name: &str, langs: &[&str], max: SupportLevel, default: bool) -> InterpreterInfo {
    InterpreterInfo {
        name: name.to_string(),
        supported_languages: langs.iter().map(|l| l.to_string()).collect(),
        max_support_level: max,
        default_for_filetype: default,
        has_repl_capability: false,
        behave_repl_like_default: false,
        has_treesitter_capability: false,
    }
}

fn data_for(filetype: &str) -> DataHolder {
    let mut data = DataHolder::new(String::from("/tmp/sniprun"));
    data.filetype = String::from(filetype);
    data
}

#[test]
fn run() {
    let mut data = DataHolder::new(String::from("/tmp/sniprun"));
    data.filetype = String::from("pyt");
    data.current_line = String::from("println!(\"Hello\");");
    data.current_bloc = String::from("println!(\"Hello\");");
    data.range = [1, 1];

    let launcher = Launcher::new(data);
    let _res = launcher.select();
}

#[test]
fn select_unknown_filetype_gives_generic() {
    let launcher = Launcher::new(data_for("pyt"));
    assert_eq!(
        launcher.select(),
        Some((String::from("Generic"), SupportLevel::Unsupported))
    );
}

#[test]
fn select_empty_filetype_gives_none() {
    let launcher = Launcher::new(data_for(""));
    assert_eq!(launcher.select(), None);
}

#[test]
fn select_python_at_import_level() {
    for ft in ["python", "python3", "py", "Python 3"] {
        let launcher = Launcher::new(data_for(ft));
        assert_eq!(
            launcher.select(),
            Some((String::from("Python3_original"), SupportLevel::Import))
        );
    }
}

#[test]
fn select_explicitly_selected_python() {
    let mut data = data_for("python");
    data.selected_interpreters = vec![String::from("Python3_original")];
    let launcher = Launcher::new(data);
    assert_eq!(
        launcher.select(),
        Some((String::from("Python3_original"), SupportLevel::Selected))
    );
}

#[test]
fn declared_default_beats_more_capable() {
    let reg = vec![
        info("Rich", &["lang"], SupportLevel::Import, false),
        info("Plain", &["lang"], SupportLevel::Line, true),
        info("Richer", &["lang"], SupportLevel::File, false),
    ];
    let r = select_from(&reg, &String::from("lang"), &vec![]);
    assert_eq!(r, Some((String::from("Plain"), SupportLevel::Line)));
}

#[test]
fn most_capable_without_default() {
    let reg = vec![
        info("A", &["lang"], SupportLevel::Line, false),
        info("B", &["lang"], SupportLevel::File, false),
        info("C", &["other"], SupportLevel::Import, false),
        info("D", &["lang"], SupportLevel::Bloc, false),
    ];
    let r = select_from(&reg, &String::from("lang"), &vec![]);
    assert_eq!(r, Some((String::from("B"), SupportLevel::File)));
}

#[test]
fn explicit_selection_is_absolute() {
    let reg = vec![
        info("Rich", &["lang"], SupportLevel::Import, false),
        info("Chosen", &["lang"], SupportLevel::Line, false),
        info("Default", &["lang"], SupportLevel::File, true),
    ];
    let r = select_from(&reg, &String::from("lang"), &vec![String::from("Chosen")]);
    assert_eq!(r, Some((String::from("Chosen"), SupportLevel::Selected)));
}

#[test]
fn selection_of_unsupporting_interpreter_is_ignored() {
    let reg = vec![
        info("Other", &["x"], SupportLevel::Import, false),
        info("Mine", &["lang"], SupportLevel::Bloc, false),
    ];
    let r = select_from(&reg, &String::from("lang"), &vec![String::from("Other")]);
    assert_eq!(r, Some((String::from("Mine"), SupportLevel::Bloc)));
}

#[test]
fn empty_filetype_selects_nothing_in_any_registry() {
    let reg = vec![info("Any", &[""], SupportLevel::Import, true)];
    assert_eq!(select_from(&reg, &String::new(), &vec![String::from("Any")]), None);
}

#[test]
fn select_and_run_without_filetype_fails() {
    let launcher = Launcher::new(data_for(""));
    match launcher.select_and_run(None, "") {
        Err(SniprunError::CustomError(m)) => assert_eq!(m, "No filetype set for current file"),
        _ => panic!("expected a custom error"),
    }
}

#[test]
fn select_and_run_unknown_filetype_fails() {
    let launcher = Launcher::new(data_for("cobol"));
    match launcher.select_and_run(None, "") {
        Err(SniprunError::CustomError(m)) => {
            assert_eq!(m, "could not find/run the selected interpreter")
        }
        _ => panic!("expected a custom error"),
    }
}

#[test]
fn select_and_run_python_prepares_code() {
    let mut data = data_for("python");
    data.current_bloc = String::from("print(\"lol\",1)");
    let launcher = Launcher::new(data);
    let inter = launcher.select_and_run(None, "").ok().unwrap();
    assert_eq!(inter.support_level, SupportLevel::Import);
    assert_eq!(inter.code, "print(\"lol\",1)");
    assert_eq!(inter.main_file_path, "/tmp/sniprun/python3_original/main.py");
}

#[test]
fn levels_are_totally_ordered() {
    let all = [
        SupportLevel::Unsupported,
        SupportLevel::Line,
        SupportLevel::Bloc,
        SupportLevel::File,
        SupportLevel::Import,
        SupportLevel::Selected,
    ];
    for (i, a) in all.iter().enumerate() {
        for (j, b) in all.iter().enumerate() {
            assert_eq!(a.lt(b), i < j);
            assert_eq!(a.at_least(b), i >= j);
        }
    }
    assert_eq!(SupportLevel::Import.rank(), 4);
    assert_eq!(SupportLevel::Bloc.name(), "Bloc");
}
