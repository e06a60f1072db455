// Tests of pattern translation across several target languages, of the
// grammar registry, and of the search-query builder.

use bkmr_lsp::{LanguageRegistry, LanguageTranslator, Snippet, SnippetFilter};

fn translate(content: &str, language_id: &str, path: &str) -> String {
    LanguageTranslator::translate_rust_patterns(content, language_id, path)
        .expect("translation result")
}

#[test]
fn test_universal_snippet_tag_detection() {
    // Test that snippets with "universal" tag are identified correctly
    let universal_snippet = Snippet::new(
        1,
        "Test Universal Snippet".to_string(),
        "// This is a test".to_string(),
        "Test description".to_string(),
        vec!["universal".to_string(), "test".to_string()],
    );

    let regular_snippet = Snippet::new(
        2,
        "Test Regular Snippet".to_string(),
        "// This is a test".to_string(),
        "Test description".to_string(),
        vec!["rust".to_string(), "test".to_string()],
    );

    // Test tag detection
    assert!(universal_snippet.tags.contains(&"universal".to_string()));
    assert!(!regular_snippet.tags.contains(&"universal".to_string()));
    assert!(universal_snippet.is_universal());
    assert!(!regular_snippet.is_universal());
}

#[test]
fn test_rust_comment_translation() {
    // Test line comments
    let rust_content = r#"// This is a line comment
    // Indented comment
let x = 5; // End of line comment"#;

    let python_result = translate(rust_content, "python", "/test/example.py");
    assert!(python_result.contains("# This is a line comment"));
    assert!(python_result.contains("    # Indented comment"));
    assert!(python_result.contains("let x = 5; # End of line comment"));

    // Test with HTML (no line comments)
    let html_result = translate(rust_content, "html", "/test/example.py");
    assert!(html_result.contains("<!-- This is a line comment -->"));
    assert!(html_result.contains("  <!-- Indented comment -->")); // HTML uses 2 spaces
    assert!(html_result.contains("let x = 5; <!-- End of line comment -->"));
}

#[test]
fn test_rust_block_comment_translation() {
    let rust_content = r#"/* This is a block comment */
/*
Multi-line
block comment
*/"#;

    let python_result = translate(rust_content, "python", "/test/example.py");
    assert!(python_result.contains("\"\"\" This is a block comment \"\"\""));
    assert!(python_result.contains("\"\"\"\nMulti-line\nblock comment\n\"\"\""));

    let html_result = translate(rust_content, "html", "/test/example.py");
    assert!(html_result.contains("<!-- This is a block comment -->"));
    assert!(html_result.contains("<!--\nMulti-line\nblock comment\n-->"));
}

#[test]
fn test_rust_indentation_translation() {
    let rust_content = r#"fn example() {
    let x = 5;
        let y = 10;
            let z = 15;
}"#;

    // Go uses tabs
    let go_result = translate(rust_content, "go", "/test/example.go");
    assert!(go_result.contains("fn example() {"));
    assert!(go_result.contains("\tlet x = 5;"));
    assert!(go_result.contains("\t\tlet y = 10;"));
    assert!(go_result.contains("\t\t\tlet z = 15;"));

    // JavaScript uses 2 spaces
    let js_result = translate(rust_content, "javascript", "/test/example.go");
    assert!(js_result.contains("  let x = 5;"));
    assert!(js_result.contains("    let y = 10;"));
    assert!(js_result.contains("      let z = 15;"));
}

#[test]
fn test_filename_replacement() {
    let content = "// File: {{ filename }}";
    let result = translate(content, "rust", "/path/to/example.rs");
    assert!(result.contains("// File: example.rs"));
}

#[test]
fn test_mixed_pattern_translation() {
    let rust_content = r#"// Function: {{ function_name }}
// File: {{ filename }}
fn {{ function_name }}() {
    // TODO: implement
    /* Block comment here */
        let value = "hello";
}"#;

    let python_result = translate(rust_content, "python", "/test/example.py");

    // Check comment translation
    assert!(python_result.contains("# Function: {{ function_name }}"));
    assert!(python_result.contains("# File: example.py"));
    assert!(python_result.contains("    # TODO: implement"));
    assert!(python_result.contains("\"\"\" Block comment here \"\"\""));

    // Check that the store's own templates are preserved
    assert!(python_result.contains("{{ function_name }}"));

    // Check indentation (Python uses 4 spaces like the universal dialect)
    assert!(python_result.contains("        let value = \"hello\";"));
}

#[test]
fn test_language_info_retrieval() {
    let rust_info = LanguageRegistry::get_language_info("rust");
    assert_eq!(rust_info.line_comment, Some("//".to_string()));
    assert_eq!(
        rust_info.block_comment,
        Some(("/*".to_string(), "*/".to_string()))
    );
    assert_eq!(rust_info.indent_char, "    ");

    let python_info = LanguageRegistry::get_language_info("python");
    assert_eq!(python_info.line_comment, Some("#".to_string()));
    assert_eq!(
        python_info.block_comment,
        Some(("\"\"\"".to_string(), "\"\"\"".to_string()))
    );
    assert_eq!(python_info.indent_char, "    ");

    let go_info = LanguageRegistry::get_language_info("go");
    assert_eq!(go_info.line_comment, Some("//".to_string()));
    assert_eq!(go_info.indent_char, "\t");

    let html_info = LanguageRegistry::get_language_info("html");
    assert_eq!(html_info.line_comment, None);
    assert_eq!(
        html_info.block_comment,
        Some(("<!--".to_string(), "-->".to_string()))
    );
    assert_eq!(html_info.indent_char, "  ");
}

#[test]
fn test_edge_cases() {
    // Empty content
    let result = translate("", "python", "/test/example.py");
    assert_eq!(result, "");

    // No universal patterns
    let no_patterns = "Just plain text here";
    let result = translate(no_patterns, "python", "/test/example.py");
    assert_eq!(result, no_patterns);

    // Comment-like text after code
    let string_comments = r#"let url = "https://example.com"; // Real comment"#;
    let result = translate(string_comments, "python", "/test/example.py");
    assert!(result.contains("\"https://example.com\""));
    assert!(result.contains("# Real comment"));

    // Multiple line patterns
    let multi_line = "//Comment1\n//Comment2\n    //Comment3";
    let result = translate(multi_line, "python", "/test/example.py");
    assert!(result.contains("# Comment1"));
    assert!(result.contains("# Comment2"));
    assert!(result.contains("    # Comment3"));
}

#[test]
fn test_fts_query_builder() {
    // Test with specific language
    let query = SnippetFilter::new(Some("markdown".to_string()), None, 50).build_fts_query();
    assert_eq!(
        query,
        Some(
            r#"(tags:markdown AND tags:"_snip_") OR (tags:universal AND tags:"_snip_")"#
                .to_string()
        )
    );

    // Test with rust language
    let query = SnippetFilter::new(Some("rust".to_string()), None, 50).build_fts_query();
    assert_eq!(
        query,
        Some(r#"(tags:rust AND tags:"_snip_") OR (tags:universal AND tags:"_snip_")"#.to_string())
    );

    // Test with empty language
    let query = SnippetFilter::new(Some("".to_string()), None, 50).build_fts_query();
    assert_eq!(query, Some(r#"tags:"_snip_""#.to_string()));

    // Test with whitespace-only language
    let query = SnippetFilter::new(Some("   ".to_string()), None, 50).build_fts_query();
    assert_eq!(query, Some(r#"tags:"_snip_""#.to_string()));

    // Test with no language
    let query = SnippetFilter::new(None, None, 50).build_fts_query();
    assert_eq!(query, Some(r#"tags:"_snip_""#.to_string()));

    // Test with complex language names
    let query = SnippetFilter::new(Some("typescript".to_string()), None, 50).build_fts_query();
    assert_eq!(
        query,
        Some(
            r#"(tags:typescript AND tags:"_snip_") OR (tags:universal AND tags:"_snip_")"#
                .to_string()
        )
    );
}

#[test]
fn lookup_is_case_insensitive() {
    let upper = LanguageRegistry::get_language_info("PYTHON");
    let lower = LanguageRegistry::get_language_info("python");
    assert_eq!(upper.line_comment, lower.line_comment);
    assert_eq!(upper.block_comment, lower.block_comment);
    assert_eq!(upper.indent_char, lower.indent_char);

    let mixed = LanguageRegistry::get_language_info("RuSt");
    assert_eq!(mixed.line_comment, Some("//".to_string()));
}

#[test]
fn unknown_language_gets_fallback_grammar() {
    for id in ["brainfuck", "", "klingon", "jsonx"] {
        let info = LanguageRegistry::get_language_info(id);
        assert_eq!(info.line_comment, Some("#".to_string()));
        assert_eq!(info.block_comment, None);
        assert_eq!(info.indent_char, "    ");
    }
}

#[test]
fn json_grammar_has_no_comment_style() {
    // The one table entry without any comment style; comment lines pass
    // through a json translation unchanged.
    let info = LanguageRegistry::get_language_info("json");
    assert_eq!(info.line_comment, None);
    assert_eq!(info.block_comment, None);
    assert_eq!(info.indent_char, "  ");

    let result = LanguageTranslator::translate_rust_patterns("// kept", "json", "/a.json")
        .expect("translation result");
    assert_eq!(result, "// kept");
}

#[test]
fn bare_comment_token_gains_trailing_space() {
    // The rewrite always inserts one space after the target token, even
    // when the comment text is empty.
    let result = translate("//", "python", "/t.py");
    assert_eq!(result, "# ");

    let result = translate("  //x", "python", "/t.py");
    assert_eq!(result, "  # x");
}

#[test]
fn known_languages_have_a_comment_style() {
    let known = [
        "rust", "javascript", "js", "typescript", "ts", "python", "go", "java", "c", "cpp",
        "c++", "html", "css", "scss", "ruby", "php", "swift", "kotlin", "shell", "bash", "sh",
        "yaml", "yml", "markdown", "md", "xml", "vim", "viml",
    ];
    for id in known {
        let info = LanguageRegistry::get_language_info(id);
        assert!(
            info.line_comment.is_some() || info.block_comment.is_some(),
            "no comment style for {id}"
        );
    }
}
