use relay::error::Error;
use relay::nesting::{shallow, MAX_NESTING};
use relay::setting::Setting;
use relay::value::{find, Value};

fn nested_arrays(depth: usize) -> String {
    format!("[x]\na = {}{}\n", "[".repeat(depth), "]".repeat(depth))
}

fn nested_tables(depth: usize) -> String {
    format!("[x]\na = {}1{}\n", "{b=".repeat(depth), "}".repeat(depth))
}

#[test]
fn limit_is_thirty_two() {
    assert_eq!(MAX_NESTING, 32);
}

#[test]
fn arrays_up_to_the_limit_are_read() {
    assert!(shallow(&nested_arrays(31)));
    let setting = Setting::read(&nested_arrays(31)).unwrap();
    let mut value = find(setting.extension("x").unwrap(), "a").unwrap();
    let mut depth = 0;
    while let Value::Array(items) = value {
        depth += 1;
        match items.first() {
            Some(inner) => value = inner,
            None => break,
        }
    }
    assert_eq!(depth, 31);
    // the header `[x]` is closed again before the arrays open
    assert!(shallow(&nested_arrays(32)));
    assert!(Setting::read(&nested_arrays(32)).is_ok());
}

#[test]
fn arrays_beyond_the_limit_are_refused() {
    assert!(!shallow(&nested_arrays(33)));
    assert!(matches!(Setting::read(&nested_arrays(33)), Err(Error::Nesting)));
    assert!(matches!(Setting::read(&nested_arrays(200_000)), Err(Error::Nesting)));
    assert!(Setting::read(&nested_arrays(33)).unwrap_err().is_parse());
    assert_eq!(Error::Nesting.message(), "parse error: the text nests too deeply");
}

#[test]
fn inline_tables_beyond_the_limit_are_refused() {
    assert!(Setting::read(&nested_tables(10)).is_ok());
    assert!(matches!(Setting::read(&nested_tables(33)), Err(Error::Nesting)));
    assert!(matches!(Setting::read(&nested_tables(200_000)), Err(Error::Nesting)));
}

#[test]
fn dots_of_a_key_count_twice() {
    let key = |dots: usize| format!("[x]\na{} = 1\n", ".b".repeat(dots));
    assert!(shallow(&key(16)));
    assert!(Setting::read(&key(16)).is_ok());
    assert!(!shallow(&key(17)));
    assert!(matches!(Setting::read(&key(17)), Err(Error::Nesting)));
    let header = |dots: usize| format!("[x{}]\na = 1\n", ".y".repeat(dots));
    assert!(Setting::read(&header(15)).is_ok());
    assert!(matches!(Setting::read(&header(16)), Err(Error::Nesting)));
    assert!(matches!(Setting::read(&header(200_000)), Err(Error::Nesting)));
}

#[test]
fn strings_and_comments_do_not_count() {
    let brackets = "[".repeat(100);
    let dots = ".".repeat(100);
    let lines = [
        format!("# {} {}", brackets, dots),
        "[x]".to_string(),
        format!("basic = \"{}{} \\\" {}\"", brackets, dots, brackets),
        format!("literal = '{}{}'", brackets, dots),
        format!("block = \"\"\"\n{}\n\"{}\"\n\"\"\"", brackets, dots),
        format!("raw = '''\n{} ' '' {}\n'''", brackets, dots),
        format!("\"{}\" = 1 # {}", dots, brackets),
    ];
    let text = lines.join("\n");
    assert!(shallow(&text));
    let setting = Setting::read(&text).unwrap();
    let x = setting.extension("x").unwrap();
    assert_eq!(x.len(), 5);
    assert!(matches!(find(x, "literal"), Some(Value::String(s)) if s.len() == 200));
    assert!(matches!(find(x, &dots), Some(Value::Integer(1))));
}

#[test]
fn many_sections_and_numbers_are_no_nesting() {
    let mut text = String::new();
    for i in 0..200 {
        text.push_str(&format!("[s{}]\nv = [1.5, 2.5, 3.5, 4.5]\nw = {{ a = 0.1, b = 0.2 }}\n", i));
    }
    assert!(shallow(&text));
    let setting = Setting::read(&text).unwrap();
    assert_eq!(setting.extensions.len(), 200);
}

#[test]
fn shallow_on_small_texts() {
    assert!(shallow(""));
    assert!(shallow("a = 1"));
    assert!(shallow("\\"));
    assert!(shallow("a = \"\\"));
    assert!(shallow("\"\"\""));
    assert!(shallow("caf\u{e9} = '\u{1F600}'"));
    assert!(!shallow(&"[".repeat(33)));
    assert!(shallow(&"[".repeat(32)));
    assert!(!shallow(&format!("a{}", ".".repeat(17))));
    assert!(shallow(&format!("{} \"\"\"\"\"\"\" {}", "[".repeat(16), "[".repeat(16))));
    assert!(!shallow(&format!("{} \"\"\"\"\"\"\" {}", "[".repeat(16), "[".repeat(17))));
}

#[test]
fn string_broken_by_a_line_end_is_bad_syntax() {
    let text = format!("a = \"b\nc\" {}", "[".repeat(33));
    assert!(shallow(&text));
    assert!(matches!(Setting::read(&text), Err(Error::Syntax(_))));
    let text = format!("a = \"b\n{}", "[".repeat(33));
    assert!(!shallow(&text));
    assert!(matches!(Setting::read(&text), Err(Error::Nesting)));
}
