use stellar_core::diagnostics::{
    EnumItemDefinedMultipleTimes, EOFInsteadOfCloseBrace, Expected, ExpectedInterface,
    ExpectedType, FloatOverflowDiagnostic, IntegerOverflowDiagnostic, ItemDefinedMultipleTimes,
    LexError, LexErrorDiagnostic, ModuleItemKind, ParseDiagnostic, PathNotFound, Token,
    UnexpectedTokenDiagnostic, UnnecessaryVisibilityQualifierContext,
    UnnecessaryVisibilityQualifierDiagnostic,
};
use stellar_core::symbol::SymbolKind;
use stellar_core::Location;

fn loc(start: usize, end: usize) -> Location {
    Location { filepath: 3, start, end }
}

#[test]
fn expected_display_single() {
    let e = Expected(vec!["identifier".to_string()]);
    assert_eq!(e.to_display_string(), "identifier");
}

#[test]
fn expected_display_pair() {
    let e = Expected(vec!["`{`".to_string(), "`;`".to_string()]);
    assert_eq!(e.to_display_string(), "`{` or `;`");
}

#[test]
fn expected_display_many() {
    let e = Expected(vec!["a".to_string(), "b".to_string(), "c".to_string()]);
    assert_eq!(e.to_display_string(), "a, b or c");
}

#[test]
fn lex_error_record() {
    let d = LexErrorDiagnostic(LexError { location: loc(0, 2), raw: "bad digit".to_string() })
        .build();
    assert_eq!(d.code, "E000");
    assert_eq!(d.message, "bad digit");
    assert_eq!(d.labels.len(), 1);
    assert!(d.labels[0].primary);
    assert_eq!(d.labels[0].location, loc(0, 2));
    assert!(d.notes.is_empty());
}

#[test]
fn unexpected_token_record_with_offset() {
    let d = UnexpectedTokenDiagnostic::new(
        Some(4),
        Token { location: loc(5, 6), raw: "`}`".to_string() },
        Expected(vec!["`;`".to_string(), "`,`".to_string()]),
        "struct declaration".to_string(),
    )
    .build();
    assert_eq!(d.code, "E001");
    assert_eq!(d.message, "expected `;` or `,`, found `}`");
    assert_eq!(d.labels.len(), 2);
    assert!(!d.labels[0].primary);
    assert_eq!(d.labels[0].location, Location { filepath: 3, start: 4, end: 5 });
    assert_eq!(d.labels[0].message, "expected `;` or `,`");
    assert!(d.labels[1].primary);
    assert_eq!(d.labels[1].message, "found `}`");
}

#[test]
fn unexpected_token_record_without_offset() {
    let d = UnexpectedTokenDiagnostic::new(
        None,
        Token { location: loc(5, 6), raw: "`}`".to_string() },
        Expected(vec!["identifier".to_string()]),
        "import".to_string(),
    )
    .build();
    assert_eq!(d.labels.len(), 1);
    assert!(d.labels[0].primary);
    assert_eq!(d.labels[0].message, "expected identifier for import");
}

#[test]
fn integer_overflow_record() {
    let d = IntegerOverflowDiagnostic { location: loc(1, 4) }.build();
    assert_eq!(d.code, "E002");
    assert_eq!(d.message, "unexpected integer overflow");
    assert_eq!(d.labels.len(), 1);
    assert_eq!(d.labels[0].message, "error appeared when parsing this integer");
    assert_eq!(d.notes.len(), 2);
    assert_eq!(
        d.notes[0],
        "note: integer cannot exceed the maximum value of `u64` (u64.max() == 18_446_744_073_709_551_615)"
    );
}

#[test]
fn float_overflow_record() {
    let d = FloatOverflowDiagnostic { location: loc(1, 4) }.build();
    assert_eq!(d.code, "E003");
    assert_eq!(d.message, "unexpected float overflow");
    assert_eq!(d.notes.len(), 2);
}

#[test]
fn unnecessary_visibility_qualifier_records() {
    let d = UnnecessaryVisibilityQualifierDiagnostic {
        location: loc(0, 3),
        context: UnnecessaryVisibilityQualifierContext::InterfaceMethod {
            name_location: loc(4, 9),
        },
    }
    .build();
    assert_eq!(d.code, "E004");
    assert_eq!(d.message, "unnecessary visibility qualifier");
    assert_eq!(d.labels.len(), 2);
    assert_eq!(d.labels[1].location, loc(4, 9));
    assert_eq!(d.notes.len(), 2);

    let d = UnnecessaryVisibilityQualifierDiagnostic {
        location: loc(0, 3),
        context: UnnecessaryVisibilityQualifierContext::Import,
    }
    .build();
    assert_eq!(d.labels.len(), 1);
    assert_eq!(d.notes, vec!["note: using `pub` will not make the import public.".to_string()]);
}

#[test]
fn eof_instead_of_close_brace_record() {
    let d = EOFInsteadOfCloseBrace {
        item_kind: ModuleItemKind::Interface,
        item_location: loc(0, 9),
        location: loc(40, 40),
    }
    .build();
    assert_eq!(d.code, "E001");
    assert_eq!(d.message, "unexpected end of file");
    assert_eq!(d.labels[0].message, "happened when parsing this interface");
    assert_eq!(d.labels[1].message, "consider adding `}`");
}

#[test]
fn duplicate_definition_records() {
    let d = ItemDefinedMultipleTimes::new(7, loc(0, 1), loc(10, 11)).build();
    assert_eq!(d.code, "E005");
    assert_eq!(d.labels[0].location, loc(10, 11));
    assert_eq!(d.labels[1].location, loc(0, 1));

    let d = EnumItemDefinedMultipleTimes::new(7, 8, loc(0, 1), loc(10, 11)).build();
    assert_eq!(d.code, "E006");
    assert_eq!(d.labels[0].message, "the item name is redefined here");
}

#[test]
fn resolution_records() {
    let d = PathNotFound { name: 7, location: loc(2, 3) }.build();
    assert_eq!(d.code, "E007");
    assert_eq!(d.labels[0].message, "this name could not be resolved");

    let d = ExpectedType { location: loc(2, 3), found_kind: SymbolKind::Module }.build();
    assert_eq!(d.code, "E008");
    assert_eq!(d.labels[0].message, "found a module");

    let d = ExpectedInterface { location: loc(2, 3), found_kind: SymbolKind::Struct }.build();
    assert_eq!(d.code, "E009");
    assert_eq!(d.message, "expected an interface");
    assert_eq!(d.labels[0].message, "found a struct");
}

#[test]
fn parse_diagnostic_records() {
    let d = ParseDiagnostic::LexError(LexError { location: loc(0, 1), raw: "x".to_string() })
        .build();
    assert_eq!(d.code, "E000");

    let d = ParseDiagnostic::UnexpectedTokenError {
        got: Token { location: loc(5, 6), raw: "`;`".to_string() },
        expected: Expected(vec!["identifier".to_string()]),
        node: "statement".to_string(),
    }
    .build();
    assert_eq!(d.code, "E001");
    assert_eq!(d.message, "unexpected `;`");
    assert_eq!(d.labels[0].message, "expected identifier for statement");

    let d = ParseDiagnostic::IntegerOverflowError { at: loc(1, 2) }.build();
    assert_eq!(d.code, "");
    assert_eq!(d.message, "unexpected integer overflow");

    let d = ParseDiagnostic::FloatOverflowError { at: loc(1, 2) }.build();
    assert_eq!(d.message, "unexpected float overflow");

    let d = ParseDiagnostic::NoSemicolonAfterExpressionError {
        expression_location: loc(0, 4),
        at: loc(4, 5),
    }
    .build();
    assert_eq!(d.message, "it seems that you forgot to put `;` after the expression");
    assert_eq!(d.labels[0].message, "add `;` here");

    let d = ParseDiagnostic::NoSemicolonAfterStatementError {
        statement_location: loc(0, 4),
        at: loc(4, 5),
    }
    .build();
    assert_eq!(d.message, "it seems that you forgot to put `;` after the statement");

    let d = ParseDiagnostic::EOFInsteadOfCloseBraceForStatementsBlockError {
        statements_block_start_location: loc(0, 1),
        at: loc(9, 9),
    }
    .build();
    assert_eq!(d.message, "unexpected end of file");

    let d = ParseDiagnostic::EmptyStatementError { at: loc(3, 4) }.build();
    assert_eq!(d.message, "found empty statement");
    assert_eq!(d.notes.len(), 1);
}

#[test]
fn diagnostics_sink_appends_in_order() {
    let mut sink = stellar_core::diagnostics::Diagnostics::new();
    assert!(sink.is_ok());
    sink.add_single_file_diagnostic(1, PathNotFound { name: 7, location: loc(0, 1) }.build());
    sink.add_single_file_diagnostic(2, PathNotFound { name: 8, location: loc(2, 3) }.build());
    assert!(!sink.is_ok());
    assert_eq!(sink.len(), 2);
    assert_eq!(sink.get(0).0, 1);
    assert_eq!(sink.get(1).0, 2);
}
