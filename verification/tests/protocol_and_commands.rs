// Tests of message framing, the file-path comment, filename substitution
// and word extraction.

use bkmr_lsp::{
    encode_message, extract_word_query, final_path_segment, substitute_filename, u64_to_string,
    CommandService,
};

#[test]
fn test_encode_message() {
    let msg = r#"{"test": "message"}"#;
    let encoded = encode_message(None, msg);
    let expected_length = msg.len();

    assert!(encoded.contains(&format!("Content-Length: {}", expected_length)));
    assert!(encoded.ends_with(msg));
}

#[test]
fn encode_message_with_content_type_inserts_header() {
    let encoded = encode_message(Some("application/vscode-jsonrpc"), "{}");

    assert_eq!(
        encoded,
        "Content-Length: 2\r\nContent-Type: application/vscode-jsonrpc\r\n\r\n{}"
    );
}

#[test]
fn given_rust_file_when_inserting_filepath_comment_then_uses_double_slash() {
    let comment = CommandService::filepath_comment_text("file:///path/to/test.rs", "test.rs");

    assert!(comment.starts_with("// "));
    assert!(comment.contains("test.rs"));
    assert!(comment.ends_with("\n"));
}

#[test]
fn given_html_file_when_inserting_filepath_comment_then_uses_html_comment() {
    let comment = CommandService::filepath_comment_text("file:///path/to/test.html", "test.html");

    assert!(comment.starts_with("<!-- "));
    assert!(comment.ends_with(" -->\n"));
    assert!(comment.contains("test.html"));
}

#[test]
fn given_python_file_when_inserting_filepath_comment_then_uses_hash() {
    let comment = CommandService::filepath_comment_text("file:///path/to/test.py", "test.py");

    assert!(comment.starts_with("# "));
    assert!(comment.contains("test.py"));
}

#[test]
fn css_file_gets_block_comment_wrapper() {
    let comment = CommandService::filepath_comment_text("file:///style/site.css", "site.css");

    assert_eq!(comment, "/* site.css */\n");
}

#[test]
fn given_file_in_project_when_getting_relative_path_then_returns_relative_path() {
    // Without project markers the path falls back to the file name.
    let path = final_path_segment("file:///some/deep/path/test.rs");

    assert_eq!(path, "test.rs");
}

#[test]
fn substitute_filename_replaces_every_token() {
    let body = "// {{ filename }} and again {{ filename }}";

    let result = substitute_filename(body, "/a/b/notes.md");

    assert_eq!(result, "// notes.md and again notes.md");
}

#[test]
fn substitute_filename_leaves_other_tokens_alone() {
    let body = "{{ function_name }} in {{ filename }}";

    let result = substitute_filename(body, "/src/main.rs");

    assert_eq!(result, "{{ function_name }} in main.rs");
}

#[test]
fn substitute_filename_twice_equals_once() {
    let body = "file: {{ filename }}, token: {{ filename }}";

    let once = substitute_filename(body, "/work/lib.rs");
    let twice = substitute_filename(&once, "/work/lib.rs");

    assert_eq!(twice, once);
}

#[test]
fn substitute_filename_without_slash_uses_whole_path() {
    let result = substitute_filename("{{ filename }}", "plain.txt");

    assert_eq!(result, "plain.txt");
}

#[test]
fn u64_to_string_renders_exact_decimals() {
    assert_eq!(u64_to_string(0), "0");
    assert_eq!(u64_to_string(7), "7");
    assert_eq!(u64_to_string(50), "50");
    assert_eq!(u64_to_string(1234567890), "1234567890");
}

#[test]
fn extract_word_query_finds_word_before_cursor() {
    let result = extract_word_query("let hel", 7);

    assert_eq!(result, Some(("hel".to_string(), 4)));
}

#[test]
fn extract_word_query_takes_hyphens_and_underscores() {
    let result = extract_word_query("x my-snip_2", 11);

    assert_eq!(result, Some(("my-snip_2".to_string(), 2)));
}

#[test]
fn extract_word_query_rejects_cursor_past_line_end() {
    assert_eq!(extract_word_query("short", 99), None);
}

#[test]
fn extract_word_query_rejects_empty_or_markless_runs() {
    // Cursor right after whitespace: no word.
    assert_eq!(extract_word_query("foo ", 4), None);
    // Only punctuation marks without an alphanumeric: no word.
    assert_eq!(extract_word_query("a --", 4), None);
}
