use engine::error::{missing_handler_msg, missing_handler_msg_single, EngineError};
use engine::val::Val;

const HEADER: &str = "\x1b[31mEngine Error\x1b[0m: ";

fn faulty(text: &str) -> String {
    format!("\x1b[33m{}\x1b[0m", text)
}

fn expected(text: &str) -> String {
    format!("\x1b[32m{}\x1b[0m", text)
}

fn binary(token: &str, x: &str, y: &str) -> String {
    format!(
        "{}Could not find {} handler for the provided types {} and {}",
        HEADER,
        token,
        faulty(x),
        faulty(y)
    )
}

fn unary(token: &str, x: &str) -> String {
    format!(
        "{}Could not find {} handler for the provided type {}",
        HEADER,
        token,
        faulty(x)
    )
}

fn number(n: i64) -> Val {
    Val::Int(n)
}

fn string(s: &str) -> Val {
    Val::Str(s.to_string())
}

#[test]
fn add_miss_names_operator_and_both_types() {
    let e = EngineError::InvalidAddOperation { x: number(1), y: string("a") };
    let out = e.render();
    assert!(out.contains("ADD"));
    assert!(out.contains("Int"));
    assert!(out.contains("Str"));
    assert_eq!(out, binary("ADD", "Int", "Str"));
}

#[test]
fn every_binary_miss_renders_its_own_token() {
    let cases: Vec<(EngineError, &str)> = vec![
        (EngineError::InvalidAddOperation { x: number(1), y: string("a") }, "ADD"),
        (EngineError::InvalidSubOperation { x: number(1), y: string("a") }, "SUB"),
        (EngineError::InvalidMulOperation { x: number(1), y: string("a") }, "MUL"),
        (EngineError::InvalidDivOperation { x: number(1), y: string("a") }, "DIV"),
        (EngineError::InvalidGreaterThanOperation { x: number(1), y: string("a") }, "GREATER_THAN"),
        (
            EngineError::InvalidGreaterThanOrEqOperation { x: number(1), y: string("a") },
            "GREATER_THAN_OR_EQ",
        ),
        (EngineError::InvalidLessThanOperation { x: number(1), y: string("a") }, "LESS_THAN"),
        (
            EngineError::InvalidLessThanOrEqOperation { x: number(1), y: string("a") },
            "LESS_THAN_OR_EQ",
        ),
        (EngineError::InvalidAndOperation { x: number(1), y: string("a") }, "AND"),
        (EngineError::InvalidOrOperation { x: number(1), y: string("a") }, "OR"),
    ];
    assert_eq!(cases.len(), 10);
    for (e, token) in cases {
        assert_eq!(e.render(), binary(token, "Int", "Str"));
    }
}

#[test]
fn binary_miss_keeps_evaluation_order() {
    let e = EngineError::InvalidSubOperation { x: string("a"), y: Val::Bool(true) };
    assert_eq!(e.render(), binary("SUB", "Str", "Bool"));
    let swapped = EngineError::InvalidSubOperation { x: Val::Bool(true), y: string("a") };
    assert_eq!(swapped.render(), binary("SUB", "Bool", "Str"));
}

#[test]
fn neg_miss_names_operator_and_one_type() {
    let e = EngineError::InvalidNegOperation { x: string("a") };
    let out = e.render();
    assert!(out.contains("NEG"));
    assert_eq!(out.matches("Str").count(), 1);
    assert!(!out.contains("Int"));
    assert!(!out.contains("Bool"));
    assert_eq!(out, unary("NEG", "Str"));
}

#[test]
fn not_miss_names_operator_and_one_type() {
    let e = EngineError::InvalidNotOperation { x: number(7) };
    let out = e.render();
    assert!(out.contains("NOT"));
    assert_eq!(out.matches("Int").count(), 1);
    assert!(!out.contains("Str"));
    assert!(!out.contains("Bool"));
    assert_eq!(out, unary("NOT", "Int"));
}

#[test]
fn variable_undefined_names_identifier() {
    let e = EngineError::VariableUndefined { variable_name: "x".to_string() };
    let out = e.render();
    assert!(out.contains("x"));
    assert!(out.contains("undefined"));
    assert_eq!(
        out,
        format!("{}The variable {} is undefined in the scope", HEADER, faulty("x"))
    );
}

#[test]
fn variable_already_exists_names_identifier() {
    let e = EngineError::VariableAlreadyExists { variable_name: "x".to_string() };
    let out = e.render();
    assert!(out.contains("x"));
    assert!(out.contains("already exists"));
    assert_eq!(
        out,
        format!("{}The variable {} already exists in the scope", HEADER, faulty("x"))
    );
}

#[test]
fn function_undefined_names_identifier() {
    let e = EngineError::FunctionUndefined { function_name: "f".to_string() };
    let out = e.render();
    assert!(out.contains("function"));
    assert!(out.contains("undefined"));
    assert_eq!(
        out,
        format!("{}The function {} is undefined in the scope", HEADER, faulty("f"))
    );
}

#[test]
fn function_already_exists_names_identifier() {
    let e = EngineError::FunctionAlreadyExists { function_name: "f".to_string() };
    let out = e.render();
    assert!(out.contains("function"));
    assert!(out.contains("already exists"));
    assert_eq!(
        out,
        format!("{}The function {} already exists in the scope", HEADER, faulty("f"))
    );
}

#[test]
fn identifier_is_shown_as_it_is() {
    let name = "caf\u{e9} \"q\"\t\x1b[0m<&>";
    let e = EngineError::VariableUndefined { variable_name: name.to_string() };
    assert_eq!(
        e.render(),
        format!("{}The variable {} is undefined in the scope", HEADER, faulty(name))
    );
    let empty = EngineError::FunctionUndefined { function_name: String::new() };
    assert_eq!(
        empty.render(),
        format!("{}The function {} is undefined in the scope", HEADER, faulty(""))
    );
}

#[test]
fn parameter_count_shows_expected_then_received() {
    let e = EngineError::MismatchedParameterCount { actual: 1, expected: 3 };
    let out = e.render();
    let wanted = out.find("expected \x1b[32m3\x1b[0m").unwrap();
    let received = out.find("received \x1b[33m1\x1b[0m").unwrap();
    assert!(wanted < received);
    assert_eq!(
        out,
        format!(
            "{}The function expected {} parameters, but received {}",
            HEADER,
            expected("3"),
            faulty("1")
        )
    );
}

#[test]
fn parameter_count_writes_counts_in_decimal() {
    let e = EngineError::MismatchedParameterCount { actual: 0, expected: 120 };
    assert_eq!(
        e.render(),
        format!(
            "{}The function expected {} parameters, but received {}",
            HEADER,
            expected("120"),
            faulty("0")
        )
    );
    let e = EngineError::MismatchedParameterCount { actual: usize::MAX, expected: 10 };
    assert_eq!(
        e.render(),
        format!(
            "{}The function expected {} parameters, but received {}",
            HEADER,
            expected("10"),
            faulty(&usize::MAX.to_string())
        )
    );
}

#[test]
fn type_mismatch_shows_type_names_not_values() {
    let e = EngineError::MismatchedTypes { actual: string("x"), expected: number(0) };
    let out = e.render();
    assert!(out.contains("Str"));
    assert!(out.contains("Int"));
    assert!(!out.contains("x\x1b"));
    assert!(!out.contains("0\x1b"));
    assert_eq!(
        out,
        format!(
            "{}Expected type {}, but got {} instead",
            HEADER,
            expected("Int"),
            faulty("Str")
        )
    );
}

#[test]
fn type_mismatch_reads_the_same_for_other_values_of_the_types() {
    let e = EngineError::MismatchedTypes { actual: string("x"), expected: number(0) };
    let other = EngineError::MismatchedTypes { actual: string("another"), expected: number(-5) };
    assert_eq!(e.render(), other.render());
}

#[test]
fn rendering_twice_gives_the_same_bytes() {
    let cases = vec![
        EngineError::InvalidAddOperation { x: number(1), y: string("a") },
        EngineError::InvalidNotOperation { x: Val::Bool(false) },
        EngineError::VariableUndefined { variable_name: "x".to_string() },
        EngineError::MismatchedParameterCount { actual: 1, expected: 3 },
        EngineError::MismatchedTypes { actual: string("x"), expected: number(0) },
        EngineError::NotYetImplemented,
        EngineError::Unknown,
    ];
    for e in cases {
        let first = e.render();
        let second = e.render();
        assert_eq!(first.as_bytes(), second.as_bytes());
    }
}

#[test]
fn every_rendering_opens_with_header_colon_space() {
    let cases = vec![
        EngineError::InvalidAddOperation { x: number(1), y: string("a") },
        EngineError::InvalidSubOperation { x: number(1), y: number(2) },
        EngineError::InvalidMulOperation { x: number(1), y: number(2) },
        EngineError::InvalidDivOperation { x: number(1), y: number(2) },
        EngineError::InvalidNegOperation { x: string("a") },
        EngineError::InvalidGreaterThanOperation { x: number(1), y: number(2) },
        EngineError::InvalidGreaterThanOrEqOperation { x: number(1), y: number(2) },
        EngineError::InvalidLessThanOperation { x: number(1), y: number(2) },
        EngineError::InvalidLessThanOrEqOperation { x: number(1), y: number(2) },
        EngineError::InvalidNotOperation { x: number(1) },
        EngineError::InvalidAndOperation { x: number(1), y: number(2) },
        EngineError::InvalidOrOperation { x: number(1), y: number(2) },
        EngineError::VariableAlreadyExists { variable_name: "v".to_string() },
        EngineError::VariableUndefined { variable_name: "v".to_string() },
        EngineError::FunctionAlreadyExists { function_name: "f".to_string() },
        EngineError::FunctionUndefined { function_name: "f".to_string() },
        EngineError::MismatchedParameterCount { actual: 1, expected: 3 },
        EngineError::MismatchedTypes { actual: string("x"), expected: number(0) },
        EngineError::NotYetImplemented,
        EngineError::Unknown,
    ];
    assert_eq!(cases.len(), 20);
    for e in cases {
        let out = e.render();
        assert!(out.starts_with(HEADER));
        assert_eq!(out, format!("{}{}", HEADER, e.message()));
    }
}

#[test]
fn not_yet_implemented_is_a_fixed_literal() {
    assert_eq!(
        EngineError::NotYetImplemented.render(),
        "\x1b[31mEngine Error\x1b[0m: This feature is not yet implemented"
    );
    assert_eq!(
        EngineError::NotYetImplemented.message(),
        "This feature is not yet implemented"
    );
}

#[test]
fn unknown_is_a_fixed_literal() {
    assert_eq!(
        EngineError::Unknown.render(),
        "\x1b[31mEngine Error\x1b[0m: An unknown error occurred"
    );
    assert_eq!(EngineError::Unknown.message(), "An unknown error occurred");
}

#[test]
fn missing_handler_msg_takes_any_token() {
    assert_eq!(
        missing_handler_msg("XOR", &Val::Bool(true), &number(3)),
        format!(
            "Could not find XOR handler for the provided types {} and {}",
            faulty("Bool"),
            faulty("Int")
        )
    );
    assert_eq!(
        missing_handler_msg("", &string(""), &string("")),
        format!(
            "Could not find  handler for the provided types {} and {}",
            faulty("Str"),
            faulty("Str")
        )
    );
}

#[test]
fn missing_handler_msg_single_takes_any_token() {
    assert_eq!(
        missing_handler_msg_single("ABS", &Val::Bool(true)),
        "Could not find ABS handler for the provided type \x1b[33mBool\x1b[0m"
    );
}

#[test]
fn debug_shows_the_payload() {
    let e = EngineError::MismatchedTypes { actual: string("x"), expected: number(0) };
    assert_eq!(
        format!("{:?}", e),
        "MismatchedTypes { actual: Str(\"x\"), expected: Int(0) }"
    );
}
