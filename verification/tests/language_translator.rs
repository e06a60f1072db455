// Tests of the translation pipeline and the variable escaper.

use bkmr_lsp::{LanguageTranslator, Snippet};

#[test]
fn given_universal_snippet_when_translating_then_processes_content() {
    // Arrange
    let snippet = Snippet::new(
        1,
        "Test Universal Snippet".to_string(),
        "// This is a test".to_string(),
        "Test description".to_string(),
        vec!["universal".to_string(), "_snip_".to_string()],
    );

    // Act
    let result = LanguageTranslator::translate_snippet(&snippet, "python", "/test.py");

    // Assert
    assert!(result.is_ok());
    let translated = result.expect("valid translation result");
    assert!(translated.contains("# This is a test"));
}

#[test]
fn given_regular_snippet_when_translating_then_returns_as_is() {
    // Arrange
    let snippet = Snippet::new(
        1,
        "Test Regular Snippet".to_string(),
        "// This is a test".to_string(),
        "Test description".to_string(),
        vec!["rust".to_string(), "_snip_".to_string()],
    );

    // Act
    let result = LanguageTranslator::translate_snippet(&snippet, "python", "/test.py");

    // Assert
    assert!(result.is_ok());
    let translated = result.expect("valid translation result");
    assert_eq!(translated, "// This is a test"); // No translation for non-universal
}

#[test]
fn given_rust_line_comments_when_translating_to_python_then_converts_correctly() {
    // Arrange
    let rust_content = r#"// This is a line comment
    // Indented comment
let x = 5; // End of line comment"#;

    // Act
    let result = LanguageTranslator::translate_rust_patterns(rust_content, "python", "/test.py");

    // Assert
    assert!(result.is_ok());
    let python_result = result.expect("Python translation result");
    assert!(python_result.contains("# This is a line comment"));
    assert!(python_result.contains("    # Indented comment"));
    assert!(python_result.contains("let x = 5; # End of line comment"));
}

#[test]
fn given_rust_block_comments_when_translating_to_python_then_converts_correctly() {
    // Arrange
    let rust_content = r#"/* This is a block comment */
/*
Multi-line
block comment
*/"#;

    // Act
    let result = LanguageTranslator::translate_rust_patterns(rust_content, "python", "/test.py");

    // Assert
    assert!(result.is_ok());
    let python_result = result.expect("Python translation result");
    assert!(python_result.contains("\"\"\" This is a block comment \"\"\""));
    assert!(python_result.contains("\"\"\"\nMulti-line\nblock comment\n\"\"\""));
}

#[test]
fn given_rust_indentation_when_translating_to_go_then_converts_to_tabs() {
    // Arrange
    let rust_content = r#"fn example() {
    let x = 5;
        let y = 10;
            let z = 15;
}"#;

    // Act
    let result = LanguageTranslator::translate_rust_patterns(rust_content, "go", "/test.go");

    // Assert
    assert!(result.is_ok());
    let go_result = result.expect("Go translation result");
    assert!(go_result.contains("fn example() {"));
    assert!(go_result.contains("\tlet x = 5;"));
    assert!(go_result.contains("\t\tlet y = 10;"));
    assert!(go_result.contains("\t\t\tlet z = 15;"));
}

#[test]
fn given_filename_template_when_translating_then_replaces_correctly() {
    // Arrange
    let content = "// File: {{ filename }}";

    // Act
    let result = LanguageTranslator::translate_rust_patterns(content, "rust", "/path/to/example.rs");

    // Assert
    assert!(result.is_ok());
    let translated = result.expect("valid translation result");
    assert!(translated.contains("// File: example.rs"));
}

#[test]
fn given_environment_variables_when_escaping_enabled_then_escapes_env_vars() {
    // Arrange
    let content = "echo $HOME and ${USER} variables";

    // Act
    let result = LanguageTranslator::escape_environment_variables(content, true);

    // Assert
    assert_eq!(result, "echo \\$HOME and \\${USER} variables");
}

#[test]
fn given_environment_variables_when_escaping_disabled_then_keeps_as_is() {
    // Arrange
    let content = "echo $HOME and ${USER} variables";

    // Act
    let result = LanguageTranslator::escape_environment_variables(content, false);

    // Assert
    assert_eq!(result, "echo $HOME and ${USER} variables");
}

#[test]
fn given_lsp_snippet_syntax_when_escaping_then_preserves_lsp_syntax() {
    // Arrange
    let content = "function test($1, ${2:default}) { echo $HOME; $3 }";

    // Act
    let result = LanguageTranslator::escape_environment_variables(content, true);

    // Assert
    assert_eq!(result, "function test($1, ${2:default}) { echo \\$HOME; $3 }");
}

#[test]
fn given_lsp_choice_syntax_when_escaping_then_preserves_choice_syntax() {
    // Arrange
    let content = "var type = ${1|string,number,boolean|}; echo $HOME";

    // Act
    let result = LanguageTranslator::escape_environment_variables(content, true);

    // Assert
    assert_eq!(result, "var type = ${1|string,number,boolean|}; echo \\$HOME");
}

#[test]
fn given_mixed_dollar_signs_when_escaping_then_handles_correctly() {
    // Arrange
    let content = "Price: $100, Path: $HOME, Tabstop: $1, Placeholder: ${2:default}";

    // Act
    let result = LanguageTranslator::escape_environment_variables(content, true);

    // Assert
    assert_eq!(result, "Price: $100, Path: \\$HOME, Tabstop: $1, Placeholder: ${2:default}");
}

#[test]
fn given_complex_snippet_when_escaping_then_handles_all_patterns() {
    // Arrange
    let content = r#"#!/bin/bash
# File: ${1:script.sh}
export PATH=$HOME/bin:$PATH
echo "User: $USER"
cd ${PROJECT_ROOT}
printf "${2|info,warn,error|}: %s\n" "$3""#;

    // Act
    let result = LanguageTranslator::escape_environment_variables(content, true);

    // Assert
    let expected = r#"#!/bin/bash
# File: ${1:script.sh}
export PATH=\$HOME/bin:\$PATH
echo "User: \$USER"
cd \${PROJECT_ROOT}
printf "${2|info,warn,error|}: %s\n" "$3""#;
    assert_eq!(result, expected);
}

#[test]
fn given_edge_cases_when_escaping_then_handles_correctly() {
    // Arrange - test empty string and strings with no variables
    let empty = "";
    let no_vars = "just plain text with no variables";
    let just_dollar = "$";

    // Act
    let result_empty = LanguageTranslator::escape_environment_variables(empty, true);
    let result_no_vars = LanguageTranslator::escape_environment_variables(no_vars, true);
    let result_dollar = LanguageTranslator::escape_environment_variables(just_dollar, true);

    // Assert
    assert_eq!(result_empty, "");
    assert_eq!(result_no_vars, "just plain text with no variables");
    assert_eq!(result_dollar, "$"); // Just a dollar sign should not be escaped
}

#[test]
fn placeholder_overlap_preserves_inner_variable() {
    // A simple variable inside a placeholder's default text overlaps the
    // placeholder span and must survive untouched.
    let content = "${1:default is $HOME}";

    let result = LanguageTranslator::escape_environment_variables(content, true);

    assert_eq!(result, "${1:default is $HOME}");
}

#[test]
fn translating_twice_to_python_equals_translating_once() {
    let body = "// Function: {{ function_name }}\nfn {{ function_name }}() {\n    // TODO\n}";

    let once = LanguageTranslator::translate_rust_patterns(body, "python", "/test.py")
        .expect("first translation");
    let twice = LanguageTranslator::translate_rust_patterns(&once, "python", "/test.py")
        .expect("second translation");

    assert_eq!(twice, once);
}

#[test]
fn function_body_translates_to_python_conventions() {
    let body = "// Function: {{ function_name }}\nfn {{ function_name }}() {\n    // TODO\n}";

    let result = LanguageTranslator::translate_rust_patterns(body, "python", "/test.py")
        .expect("valid translation result");

    assert_eq!(
        result,
        "# Function: {{ function_name }}\nfn {{ function_name }}() {\n    # TODO\n}"
    );
}

#[test]
fn block_comment_translates_to_html_delimiters() {
    let body = "/* multi\nline */";

    let result = LanguageTranslator::translate_rust_patterns(body, "html", "/test.html")
        .expect("valid translation result");

    assert_eq!(result, "<!-- multi\nline -->");
}

#[test]
fn escaping_disabled_is_identity_on_arbitrary_content() {
    let contents = [
        "",
        "$",
        "$HOME ${USER} $1 ${2:x} ${3|a,b|}",
        "no variables at all",
        "\\$ALREADY escaped? $ {",
    ];

    for content in contents {
        let result = LanguageTranslator::escape_environment_variables(content, false);
        assert_eq!(result, content);
    }
}
