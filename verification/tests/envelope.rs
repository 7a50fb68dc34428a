use ecdict::envelope::{error_json, frame_error, frame_list, frame_word, word_json, words_json};
use ecdict::{EcdictError, StoreError, Word};

fn entry(word: &str, definition: &str, translation: &str, phonetic: &str) -> Word {
    Word {
        word: word.to_string(),
        definition: definition.to_string(),
        translation: translation.to_string(),
        phonetic: phonetic.to_string(),
    }
}

fn parsed(json: &str) -> serde_json::Value {
    serde_json::from_str(json).unwrap()
}

#[test]
fn frame_word_writes_the_four_fields_in_order() {
    assert_eq!(
        frame_word("1", "2", "3", "4"),
        "{\"word\":1,\"definition\":2,\"translation\":3,\"phonetic\":4}"
    );
    assert_eq!(
        frame_word("", "", "", ""),
        "{\"word\":,\"definition\":,\"translation\":,\"phonetic\":}"
    );
}

#[test]
fn frame_error_writes_the_one_field() {
    assert_eq!(frame_error("\"gone\""), "{\"err\":\"gone\"}");
}

#[test]
fn frame_list_separates_by_commas() {
    assert_eq!(frame_list(&vec![]), "[]");
    assert_eq!(frame_list(&vec!["{}".to_string()]), "[{}]");
    assert_eq!(frame_list(&vec!["1".to_string(), "2".to_string(), "3".to_string()]), "[1,2,3]");
    assert_eq!(frame_list(&vec!["".to_string(), "".to_string()]), "[,]");
}

#[test]
fn word_json_of_hello() {
    let hello = entry("hello", "a greeting", "你好", "/həˈloʊ/");
    assert_eq!(
        word_json(&hello),
        "{\"word\":\"hello\",\"definition\":\"a greeting\",\"translation\":\"你好\",\"phonetic\":\"/həˈloʊ/\"}"
    );
}

#[test]
fn word_json_of_empty_texts() {
    assert_eq!(
        word_json(&entry("", "", "", "")),
        "{\"word\":\"\",\"definition\":\"\",\"translation\":\"\",\"phonetic\":\"\"}"
    );
}

#[test]
fn word_json_escapes_what_json_forbids() {
    let odd = entry("say \"hi\"", "back\\slash", "line\nbreak\ttab", "\u{1}\u{1f}");
    assert_eq!(
        word_json(&odd),
        "{\"word\":\"say \\\"hi\\\"\",\"definition\":\"back\\\\slash\",\"translation\":\"line\\nbreak\\ttab\",\"phonetic\":\"\\u0001\\u001f\"}"
    );
}

#[test]
fn word_json_reads_back_as_the_entry() {
    let odd = entry("a\"b", "{\"word\":\"x\"}", "]\r\n[", "\u{8}\u{c}/\u{7f}é");
    let value = parsed(&word_json(&odd));
    let object = value.as_object().unwrap();
    assert_eq!(object.len(), 4);
    assert_eq!(value["word"].as_str(), Some("a\"b"));
    assert_eq!(value["definition"].as_str(), Some("{\"word\":\"x\"}"));
    assert_eq!(value["translation"].as_str(), Some("]\r\n["));
    assert_eq!(value["phonetic"].as_str(), Some("\u{8}\u{c}/\u{7f}é"));
}

#[test]
fn words_json_of_no_entry() {
    assert_eq!(words_json(&vec![]), "[]");
}

#[test]
fn words_json_of_one_entry() {
    assert_eq!(
        words_json(&vec![entry("a", "b", "c", "d")]),
        "[{\"word\":\"a\",\"definition\":\"b\",\"translation\":\"c\",\"phonetic\":\"d\"}]"
    );
}

#[test]
fn words_json_keeps_the_order_of_the_list() {
    let list = vec![entry("b", "2", "", ""), entry("a", "1", "", ""), entry("c", "3", "", "")];
    assert_eq!(
        words_json(&list),
        "[{\"word\":\"b\",\"definition\":\"2\",\"translation\":\"\",\"phonetic\":\"\"},\
         {\"word\":\"a\",\"definition\":\"1\",\"translation\":\"\",\"phonetic\":\"\"},\
         {\"word\":\"c\",\"definition\":\"3\",\"translation\":\"\",\"phonetic\":\"\"}]"
    );
    let value = parsed(&words_json(&list));
    let heads: Vec<&str> =
        value.as_array().unwrap().iter().map(|item| item["word"].as_str().unwrap()).collect();
    assert_eq!(heads, vec!["b", "a", "c"]);
}

#[test]
fn words_json_is_the_list_of_the_word_jsons() {
    let list = vec![entry("x", "\"", "\\", "\n"), entry("y", ",", "[", "]")];
    let items: Vec<String> = list.iter().map(word_json).collect();
    assert_eq!(words_json(&list), frame_list(&items));
}

#[test]
fn error_json_of_a_missing_row() {
    let error = EcdictError::DBError(StoreError::RowNotFound);
    assert_eq!(error_json(&error), "{\"err\":\"DBError(RowNotFound)\"}");
}

#[test]
fn error_json_escapes_the_description() {
    let error = EcdictError::DBError(StoreError::Failure(
        "Database(SqliteError { code: 14, message: \"unable to open database file\" })"
            .to_string(),
    ));
    assert_eq!(
        error_json(&error),
        "{\"err\":\"DBError(Database(SqliteError { code: 14, message: \\\"unable to open database file\\\" }))\"}"
    );
    let value = parsed(&error_json(&error));
    assert_eq!(value.as_object().unwrap().len(), 1);
    assert_eq!(value["err"].as_str().unwrap(), error.describe());
}
