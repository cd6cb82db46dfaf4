use hir_ty::assists::{generate_is_empty_from_len, insert_text, Assist, AssistKind, FnAtCursor, TextRange};

/// Reads a fixture as the syntax tree and the method lookup would: the
/// marker `$0` is the cursor.
fn read_fixture(fixture: &str) -> (String, Option<FnAtCursor>) {
    let cursor = fixture.find("$0").expect("fixture has a cursor");
    let text = format!("{}{}", &fixture[..cursor], &fixture[cursor + 2..]);
    let line_start = text[..cursor].rfind('\n').map_or(0, |i| i + 1);
    let fn_kw = match text[line_start..].find("fn ") {
        Some(i) => line_start + i,
        None => return (text, None),
    };
    let name_start = fn_kw + 3;
    let name_end = name_start + text[name_start..].find('(').expect("parameter list");
    let name = text[name_start..name_end].trim().to_string();
    let params_end = name_end + text[name_end..].find(')').expect("parameter list");
    let params = text[name_end + 1..params_end]
        .split(',')
        .map(|p| p.trim())
        .filter(|p| !p.is_empty() && *p != "&self" && *p != "self" && *p != "&mut self")
        .count();
    let in_impl = text[..cursor].contains("impl ");
    let has_is_empty = text.contains("fn is_empty(");
    let len_range = text.find("pub fn len(").map(|start| {
        let open = start + text[start..].find('{').expect("body");
        let mut depth = 0usize;
        let mut end = open;
        for (i, c) in text[open..].char_indices() {
            if c == '{' {
                depth += 1;
            } else if c == '}' {
                depth -= 1;
                if depth == 0 {
                    end = open + i + 1;
                    break;
                }
            }
        }
        TextRange { start: start as u32, end: end as u32 }
    });
    let facts = FnAtCursor { name: Some(name), params: Some(params), in_impl, has_is_empty, len_range };
    (text, Some(facts))
}

fn check_assist(before: &str, after: &str) {
    let (text, facts) = read_fixture(before);
    let assist = generate_is_empty_from_len(facts.as_ref()).expect("the assist applies");
    assert_eq!(assist.id, "generate_is_empty_from_len");
    assert_eq!(assist.kind, AssistKind::Generate);
    assert_eq!(assist.label, "Generate a is_empty impl from a len function");
    let source = text.into_bytes();
    assert!(assist.insert_at as usize <= source.len());
    let edited = insert_text(&source, assist.insert_at as usize, &assist.insert.clone().into_bytes());
    assert_eq!(String::from_utf8(edited).unwrap(), after);
}

fn check_assist_not_applicable(before: &str) {
    let (_, facts) = read_fixture(before);
    assert_eq!(generate_is_empty_from_len(facts.as_ref()), None::<Assist>);
}

#[test]
fn len_function_not_present() {
    check_assist_not_applicable(
        r#"
struct MyStruct { data: Vec<String> }

impl MyStruct {
    p$0ub fn test(&self) -> usize {
            self.data.len()
        }
    }
"#,
    );
}

#[test]
fn len_function_with_parameters() {
    check_assist_not_applicable(
        r#"
struct MyStruct { data: Vec<String> }

impl MyStruct {
    p$0ub fn len(&self, _i: bool) -> usize {
        self.data.len()
    }
}
"#,
    );
}

#[test]
fn is_empty_already_implemented() {
    check_assist_not_applicable(
        r#"
struct MyStruct { data: Vec<String> }

impl MyStruct {
    p$0ub fn len(&self) -> usize {
        self.data.len()
    }

    pub fn is_empty(&self) -> bool {
        self.len() == 0
    }
}
"#,
    );
}

#[test]
fn generate_is_empty() {
    check_assist(
        r#"
struct MyStruct { data: Vec<String> }

impl MyStruct {
    p$0ub fn len(&self) -> usize {
        self.data.len()
    }
}
"#,
        r#"
struct MyStruct { data: Vec<String> }

impl MyStruct {
    pub fn len(&self) -> usize {
        self.data.len()
    }

    pub fn is_empty(&self) -> bool {
        self.len() == 0
    }
}
"#,
    );
}

#[test]
fn multiple_functions_in_impl() {
    check_assist(
        r#"
struct MyStruct { data: Vec<String> }

impl MyStruct {
    pub fn new() -> Self {
        Self { data: 0 }
    }

    p$0ub fn len(&self) -> usize {
        self.data.len()
    }

    pub fn work(&self) -> Option<usize> {

    }
}
"#,
        r#"
struct MyStruct { data: Vec<String> }

impl MyStruct {
    pub fn new() -> Self {
        Self { data: 0 }
    }

    pub fn len(&self) -> usize {
        self.data.len()
    }

    pub fn is_empty(&self) -> bool {
        self.len() == 0
    }

    pub fn work(&self) -> Option<usize> {

    }
}
"#,
    );
}

#[test]
fn multiple_impls() {
    check_assist_not_applicable(
        r#"
struct MyStruct { data: Vec<String> }

impl MyStruct {
    p$0ub fn len(&self) -> usize {
        self.data.len()
    }
}

impl MyStruct {
    pub fn is_empty(&self) -> bool {
        self.len() == 0
    }
}
"#,
    );
}

#[test]
fn no_function_under_the_cursor() {
    assert_eq!(generate_is_empty_from_len(None), None::<Assist>);
}

#[test]
fn function_without_name_or_parameter_list() {
    let range = Some(TextRange { start: 0, end: 10 });
    let unnamed = FnAtCursor { name: None, params: Some(0), in_impl: true, has_is_empty: false, len_range: range };
    assert_eq!(generate_is_empty_from_len(Some(&unnamed)), None::<Assist>);
    let no_list = FnAtCursor {
        name: Some("len".to_string()),
        params: None,
        in_impl: true,
        has_is_empty: false,
        len_range: range,
    };
    assert_eq!(generate_is_empty_from_len(Some(&no_list)), None::<Assist>);
}

#[test]
fn function_outside_impl_or_not_found() {
    let range = Some(TextRange { start: 0, end: 10 });
    let free = FnAtCursor {
        name: Some("len".to_string()),
        params: Some(0),
        in_impl: false,
        has_is_empty: false,
        len_range: range,
    };
    assert_eq!(generate_is_empty_from_len(Some(&free)), None::<Assist>);
    let not_found = FnAtCursor {
        name: Some("len".to_string()),
        params: Some(0),
        in_impl: true,
        has_is_empty: false,
        len_range: None,
    };
    assert_eq!(generate_is_empty_from_len(Some(&not_found)), None::<Assist>);
}

#[test]
fn insert_is_placed_at_the_end_of_len() {
    let f = FnAtCursor {
        name: Some("len".to_string()),
        params: Some(0),
        in_impl: true,
        has_is_empty: false,
        len_range: Some(TextRange { start: 3, end: 17 }),
    };
    let assist = generate_is_empty_from_len(Some(&f)).unwrap();
    assert_eq!(assist.target, TextRange { start: 3, end: 17 });
    assert_eq!(assist.insert_at, 17);
    assert_eq!(assist.insert, "\n\n    pub fn is_empty(&self) -> bool {\n        self.len() == 0\n    }");
}

#[test]
fn insert_text_at_the_ends() {
    let text = b"abc".to_vec();
    assert_eq!(insert_text(&text, 0, &b"xy".to_vec()), b"xyabc".to_vec());
    assert_eq!(insert_text(&text, 3, &b"xy".to_vec()), b"abcxy".to_vec());
    assert_eq!(insert_text(&text, 1, &Vec::new()), b"abc".to_vec());
}
