use chronobind::lua::{LuaEntry, LuaTableParser, LuaValue};

fn parse(s: &str) -> Option<Vec<LuaEntry>> {
    LuaTableParser::new(s).parse_globals()
}

fn string_of(v: &LuaValue) -> &str {
    v.as_string().unwrap()
}

fn number_of(v: &LuaValue) -> &str {
    match v {
        LuaValue::Number(n) => n.as_str(),
        _ => panic!("not a number"),
    }
}

#[test]
fn parses_globals_with_strings_numbers_and_tables() {
    let text = "MyAddonDB = {\n  [\"name\"] = \"value\",\n  [\"count\"] = 42,\n  [\"inner\"] = {\n    [\"x\"] = 1.5,\n  },\n}\nOther = \"hi\"\n";
    let globals = parse(text).unwrap();
    assert_eq!(globals.len(), 2);
    assert_eq!(globals[0].key, "MyAddonDB");
    assert_eq!(globals[1].key, "Other");
    assert_eq!(string_of(&globals[1].value), "hi");
    let table = globals[0].value.as_table().unwrap();
    assert_eq!(table.len(), 3);
    assert_eq!(table[0].key, "name");
    assert_eq!(string_of(&table[0].value), "value");
    assert_eq!(table[1].key, "count");
    assert_eq!(number_of(&table[1].value), "42");
    let inner = table[2].value.as_table().unwrap();
    assert_eq!(inner.len(), 1);
    assert_eq!(inner[0].key, "x");
    assert_eq!(number_of(&inner[0].value), "1.5");
    assert_eq!(number_of(&inner[0].value).parse::<f64>().unwrap(), 1.5);
}

#[test]
fn later_keys_replace_earlier_ones() {
    let globals = parse("T = { [\"a\"] = \"1\", [\"b\"] = \"2\", [\"a\"] = \"3\" } T = \"again\"").unwrap();
    assert_eq!(globals.len(), 1);
    assert_eq!(globals[0].key, "T");
    assert_eq!(string_of(&globals[0].value), "again");
    let table = parse("T = { [\"a\"] = \"1\", [\"b\"] = \"2\", [\"a\"] = \"3\" }").unwrap();
    let t = table[0].value.as_table().unwrap();
    assert_eq!(t.len(), 2);
    assert_eq!(t[0].key, "a");
    assert_eq!(string_of(&t[0].value), "3");
    assert_eq!(t[1].key, "b");
}

#[test]
fn brackets_equals_and_commas_are_optional() {
    let globals = parse("X { \"k\" \"v\" \"n\" = 7 }").unwrap();
    let t = globals[0].value.as_table().unwrap();
    assert_eq!(t.len(), 2);
    assert_eq!(string_of(&t[0].value), "v");
    assert_eq!(number_of(&t[1].value), "7");
}

#[test]
fn empty_input_and_empty_table() {
    assert_eq!(parse("").unwrap().len(), 0);
    assert_eq!(parse("   \n\t ").unwrap().len(), 0);
    let globals = parse("Empty = {}").unwrap();
    assert_eq!(globals[0].value.as_table().unwrap().len(), 0);
}

fn first_number(s: &str) -> String {
    let globals = parse(s).unwrap();
    number_of(&globals[0].value).to_string()
}

#[test]
fn numbers_follow_the_float_grammar() {
    assert_eq!(first_number("N = 12."), "12.");
    assert_eq!(first_number("N = 0007"), "0007");
    assert!(parse("N = 1.2.3").is_none());
    assert!(parse("N = 5-3").is_none());
    assert!(parse("N = 5+").is_none());
    assert!(parse("N = -5").is_none());
    assert!(parse("N = .5").is_none());
}

#[test]
fn malformed_input_is_refused() {
    assert!(parse("= 1").is_none());
    assert!(parse("X = ").is_none());
    assert!(parse("X = \"unterminated").is_none());
    assert!(parse("X = { [\"a\"] = 1").is_none());
    assert!(parse("X = true").is_none());
    assert!(parse("X = { [a] = 1 }").is_none());
}

#[test]
fn values_are_not_strings_or_tables_of_other_kinds() {
    let globals = parse("X = 3").unwrap();
    assert!(globals[0].value.as_string().is_none());
    assert!(globals[0].value.as_table().is_none());
}
