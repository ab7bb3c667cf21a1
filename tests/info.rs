use sniprun::data::DataHolder;
use sniprun::info::{interpreter_row, join_lines, render_info};
use sniprun::launcher::{registry, InterpreterInfo, Launcher};
use sniprun::level::SupportLevel;

const SEP: &str = "|--------------------------|--------------|---------------|-------------|------------|--------------|------------|";
const H1: &str = "| Interpreter              | Language     | Support Level | Default for |    REPL    | REPL enabled | Treesitter |";
const H2: &str = "|                          |              |               |  filetype   | capability |  by default  | capability |";

fn row_info(name: &str) -> InterpreterInfo {
    InterpreterInfo {
        name: name.to_string(),
        supported_languages: vec![String::from("l")],
        max_support_level: SupportLevel::Line,
        default_for_filetype: false,
        has_repl_capability: false,
        behave_repl_like_default: false,
        has_treesitter_capability: true,
    }
}

#[test]
fn python_row_layout() {
    let reg = registry();
    let row = interpreter_row(&reg[0]);
    assert_eq!(
        row,
        "| Python3_original         | Python 3     | Import        |     yes     |    yes     |      no      |     no     |"
    );
    assert_eq!(row.chars().count(), SEP.chars().count());
}

#[test]
fn info_text_layout() {
    let mut data = DataHolder::new(String::from("/tmp/sniprun"));
    data.filetype = String::from("rust");
    data.current_line = String::from("println!(\"Hello\");");
    data.current_bloc = String::from("println!(\"Hello\");");
    data.range = [1, 1];
    let launcher = Launcher::new(data);
    let text = launcher.info(None, None);
    let row = interpreter_row(&registry()[0]);
    let expected = [
        "SNIPRUN\n",
        "Could not determine up-to-date status\n",
        "\nCurrently selected interpreter: Generic, at support level: Unsupported\n",
        SEP,
        H1,
        H2,
        SEP,
        row.as_str(),
        SEP,
    ]
    .join("\n");
    assert_eq!(text, expected);
}

#[test]
fn info_text_with_banner_and_version() {
    let data = DataHolder::new(String::from("/tmp/sniprun"));
    let text = Launcher::new(data).info(Some("ART"), Some("v1\n"));
    assert!(text.starts_with("ART\n\n\nv1\n\nNo interpreter selected\n\n"));
}

#[test]
fn rows_are_sorted_and_grouped() {
    let reg = vec![
        row_info("d"),
        row_info("b"),
        row_info("a"),
        row_info("c"),
    ];
    let text = render_info(None, None, None, &reg);
    let rows: Vec<String> = ["a", "b", "c", "d"].iter().map(|n| interpreter_row(&row_info(n))).collect();
    let expected = [
        "SNIPRUN\n",
        "Could not determine up-to-date status\n",
        "No interpreter selected\n",
        SEP,
        H1,
        H2,
        SEP,
        rows[0].as_str(),
        rows[1].as_str(),
        rows[2].as_str(),
        SEP,
        rows[3].as_str(),
        SEP,
    ]
    .join("\n");
    assert_eq!(text, expected);
}

#[test]
fn join_puts_line_feeds_between() {
    assert_eq!(join_lines(&vec![]), "");
    assert_eq!(join_lines(&vec![String::from("a")]), "a");
    assert_eq!(join_lines(&vec![String::from("a"), String::from("b")]), "a\nb");
}
