//! What holds of every diagnostic.

use vstd::prelude::*;
use vstd::utf8::encode_utf8;
use crate::error::{
    header_text, identifier_text, missing_handler_single_text, missing_handler_text,
    parameter_count_text, separator_text, type_mismatch_text, EngineError,
};
use crate::highlight::{
    highlighted, lemma_highlighted_holds_text, reset_code, start_code, Role, Tint,
};
use crate::text::{
    contains_text, decimal, lemma_contains_after_lead, lemma_contains_before_tail,
    lemma_occurs_after_lead, lemma_occurs_before_tail, lemma_occurs_in_itself, occurs_at,
};
use crate::val::Val;

verus! {

/// The message of a two-operand handler miss holds the operator's token and
/// the type names of both operands.
pub proof fn lemma_missing_handler_text_parts(handler: Seq<char>, x: Val, y: Val)
    ensures
        contains_text(missing_handler_text(handler, x, y), handler),
        contains_text(missing_handler_text(handler, x, y), x.type_text()),
        contains_text(missing_handler_text(handler, x, y), y.type_text()),
{
    let lead = "Could not find "@;
    let mid = " handler for the provided types "@;
    let and = " and "@;
    let first = highlighted(Role::Faulty, x.type_text());
    let second = highlighted(Role::Faulty, y.type_text());

    lemma_occurs_in_itself(handler);
    lemma_contains_after_lead(lead, handler, handler);
    lemma_contains_before_tail(lead + handler, mid, handler);
    lemma_contains_before_tail(lead + handler + mid, first, handler);
    lemma_contains_before_tail(lead + handler + mid + first, and, handler);
    lemma_contains_before_tail(lead + handler + mid + first + and, second, handler);

    lemma_highlighted_holds_text(Role::Faulty, x.type_text());
    lemma_contains_after_lead(lead + handler + mid, first, x.type_text());
    lemma_contains_before_tail(lead + handler + mid + first, and, x.type_text());
    lemma_contains_before_tail(lead + handler + mid + first + and, second, x.type_text());

    lemma_highlighted_holds_text(Role::Faulty, y.type_text());
    lemma_contains_after_lead(lead + handler + mid + first + and, second, y.type_text());
}

/// The message of a one-operand handler miss holds the operator's token and
/// the type name of the operand.
pub proof fn lemma_missing_handler_single_text_parts(handler: Seq<char>, x: Val)
    ensures
        contains_text(missing_handler_single_text(handler, x), handler),
        contains_text(missing_handler_single_text(handler, x), x.type_text()),
{
    let lead = "Could not find "@;
    let mid = " handler for the provided type "@;
    let operand = highlighted(Role::Faulty, x.type_text());

    lemma_occurs_in_itself(handler);
    lemma_contains_after_lead(lead, handler, handler);
    lemma_contains_before_tail(lead + handler, mid, handler);
    lemma_contains_before_tail(lead + handler + mid, operand, handler);

    lemma_highlighted_holds_text(Role::Faulty, x.type_text());
    lemma_contains_after_lead(lead + handler + mid, operand, x.type_text());
}

/// What the message holds, the whole diagnostic holds.
pub proof fn lemma_rendered_holds_message_parts(e: EngineError, needle: Seq<char>)
    requires
        contains_text(e.message_text(), needle),
    ensures
        contains_text(e.rendered(), needle),
{
    lemma_contains_after_lead(header_text() + separator_text(), e.message_text(), needle);
}

/// Every diagnostic opens with the header, followed by a colon and a space.
pub proof fn law_rendering_opens_with_header(e: EngineError)
    ensures
        (header_text() + separator_text()).is_prefix_of(e.rendered()),
        separator_text() == seq![':', ' '],
{
    let opening = header_text() + separator_text();
    assert(e.rendered().subrange(0, opening.len() as int) =~= opening);
    reveal_strlit(": ");
    assert(separator_text() =~= seq![':', ' ']);
}

/// For every two-operand operator without a handler, the diagnostic is the
/// handler-miss sentence for that operator's token and the two operands, and
/// it contains the token and the type names of both operands.
pub proof fn law_binary_miss_names_operator_and_types(e: EngineError)
    requires
        e.is_binary_miss(),
    ensures
        e.operands().len() == 2,
        e.message_text() == missing_handler_text(e.opcode(), e.operands()[0], e.operands()[1]),
        contains_text(e.rendered(), e.opcode()),
        contains_text(e.rendered(), e.operands()[0].type_text()),
        contains_text(e.rendered(), e.operands()[1].type_text()),
{
    let x = e.operands()[0];
    let y = e.operands()[1];
    lemma_missing_handler_text_parts(e.opcode(), x, y);
    lemma_rendered_holds_message_parts(e, e.opcode());
    lemma_rendered_holds_message_parts(e, x.type_text());
    lemma_rendered_holds_message_parts(e, y.type_text());
}

/// For every one-operand operator without a handler, the diagnostic is the
/// handler-miss sentence for that operator's token with one type name in it,
/// that of the one operand, and it contains the token and that type name.
pub proof fn law_unary_miss_names_operator_and_type(e: EngineError)
    requires
        e.is_unary_miss(),
    ensures
        e.operands().len() == 1,
        e.message_text() == missing_handler_single_text(e.opcode(), e.operands()[0]),
        contains_text(e.rendered(), e.opcode()),
        contains_text(e.rendered(), e.operands()[0].type_text()),
{
    let x = e.operands()[0];
    lemma_missing_handler_single_text_parts(e.opcode(), x);
    lemma_rendered_holds_message_parts(e, e.opcode());
    lemma_rendered_holds_message_parts(e, x.type_text());
}

/// A sentence around an identifier holds the identifier, and whatever its
/// lead or its tail holds.
pub proof fn lemma_identifier_text_parts(
    lead: Seq<char>,
    name: Seq<char>,
    tail: Seq<char>,
    in_lead: Seq<char>,
    in_tail: Seq<char>,
)
    requires
        contains_text(lead, in_lead),
        contains_text(tail, in_tail),
    ensures
        contains_text(identifier_text(lead, name, tail), name),
        contains_text(identifier_text(lead, name, tail), in_lead),
        contains_text(identifier_text(lead, name, tail), in_tail),
{
    let marked = highlighted(Role::Faulty, name);
    lemma_highlighted_holds_text(Role::Faulty, name);
    lemma_contains_after_lead(lead, marked, name);
    lemma_contains_before_tail(lead + marked, tail, name);

    lemma_contains_before_tail(lead, marked, in_lead);
    lemma_contains_before_tail(lead + marked, tail, in_lead);

    lemma_contains_after_lead(lead + marked, tail, in_tail);
}

/// The diagnostic of a scope failure contains the identifier exactly as the
/// failure carries it, says whether a variable or a function is meant, and
/// says whether the identifier is undefined or already exists.
pub proof fn law_scope_failure_names_identifier(e: EngineError)
    requires
        e.is_scope_failure(),
    ensures
        contains_text(e.rendered(), e.identifier()),
        e is VariableAlreadyExists || e is VariableUndefined ==> contains_text(
            e.rendered(),
            "variable"@,
        ),
        e is FunctionAlreadyExists || e is FunctionUndefined ==> contains_text(
            e.rendered(),
            "function"@,
        ),
        e is VariableAlreadyExists || e is FunctionAlreadyExists ==> contains_text(
            e.rendered(),
            "already exists"@,
        ),
        e is VariableUndefined || e is FunctionUndefined ==> contains_text(
            e.rendered(),
            "undefined"@,
        ),
{
    reveal_strlit("The variable ");
    reveal_strlit("The function ");
    reveal_strlit(" already exists in the scope");
    reveal_strlit(" is undefined in the scope");
    reveal_strlit("variable");
    reveal_strlit("function");
    reveal_strlit("already exists");
    reveal_strlit("undefined");

    let lead = if e is VariableAlreadyExists || e is VariableUndefined {
        "The variable "@
    } else {
        "The function "@
    };
    let kind = if e is VariableAlreadyExists || e is VariableUndefined {
        "variable"@
    } else {
        "function"@
    };
    let tail = if e is VariableAlreadyExists || e is FunctionAlreadyExists {
        " already exists in the scope"@
    } else {
        " is undefined in the scope"@
    };
    let state = if e is VariableAlreadyExists || e is FunctionAlreadyExists {
        "already exists"@
    } else {
        "undefined"@
    };
    let state_at: int = if e is VariableAlreadyExists || e is FunctionAlreadyExists {
        1
    } else {
        4
    };

    assert(lead.subrange(4, 4 + kind.len() as int) =~= kind);
    assert(occurs_at(lead, kind, 4));
    assert(tail.subrange(state_at, state_at + state.len()) =~= state);
    assert(occurs_at(tail, state, state_at));
    assert(e.message_text() == identifier_text(lead, e.identifier(), tail));

    lemma_identifier_text_parts(lead, e.identifier(), tail, kind, state);
    lemma_rendered_holds_message_parts(e, e.identifier());
    lemma_rendered_holds_message_parts(e, kind);
    lemma_rendered_holds_message_parts(e, state);
}

/// The diagnostic of a wrong argument count states the count that the
/// function declares, in decimal and in the colour of the required side,
/// straight after the word "expected", and further right the count that the
/// call passed, in the colour of the failing side, straight after the word
/// "received".
pub proof fn law_parameter_count_expected_then_received(actual: usize, expected: usize)
    ensures
        ({
            let e = EngineError::MismatchedParameterCount { actual, expected };
            let wanted = "expected "@ + highlighted(Role::Expected, decimal(expected as nat));
            let received = "received "@ + highlighted(Role::Faulty, decimal(actual as nat));
            &&& e.message_text() == parameter_count_text(actual as nat, expected as nat)
            &&& exists|i: int, j: int|
                #![trigger occurs_at(e.rendered(), wanted, i), occurs_at(e.rendered(), received, j)]
                occurs_at(e.rendered(), wanted, i) && occurs_at(e.rendered(), received, j) && i
                    + wanted.len() <= j
            &&& contains_text(e.rendered(), decimal(expected as nat))
            &&& contains_text(e.rendered(), decimal(actual as nat))
        }),
{
    reveal_strlit("The function expected ");
    reveal_strlit(" parameters, but received ");
    reveal_strlit("expected ");
    reveal_strlit("received ");

    let e = EngineError::MismatchedParameterCount { actual, expected };
    let opening = header_text() + separator_text();
    let lead = "The function expected "@;
    let mid = " parameters, but received "@;
    let wanted_count = highlighted(Role::Expected, decimal(expected as nat));
    let received_count = highlighted(Role::Faulty, decimal(actual as nat));
    let wanted = "expected "@ + wanted_count;
    let received = "received "@ + received_count;
    let whole = e.rendered();
    assert(whole == opening + (lead + wanted_count + mid + received_count));

    let i: int = (opening.len() + 13) as int;
    let j: int = (opening.len() + lead.len() + wanted_count.len() + 17) as int;
    assert(whole.subrange(i, i + wanted.len()) =~= wanted);
    assert(whole.subrange(j, j + received.len()) =~= received);
    assert(occurs_at(whole, wanted, i) && occurs_at(whole, received, j) && i + wanted.len() <= j);

    lemma_highlighted_holds_text(Role::Expected, decimal(expected as nat));
    lemma_contains_after_lead(lead, wanted_count, decimal(expected as nat));
    lemma_contains_before_tail(lead + wanted_count, mid, decimal(expected as nat));
    lemma_contains_before_tail(lead + wanted_count + mid, received_count, decimal(expected as nat));
    lemma_rendered_holds_message_parts(e, decimal(expected as nat));

    lemma_highlighted_holds_text(Role::Faulty, decimal(actual as nat));
    lemma_contains_after_lead(lead + wanted_count + mid, received_count, decimal(actual as nat));
    lemma_rendered_holds_message_parts(e, decimal(actual as nat));
}

/// The diagnostic of a type mismatch contains the type names of the required
/// and of the received value, and nothing else of the two values: two
/// mismatches whose values agree in type read the same.
pub proof fn law_type_mismatch_names_types_only(
    actual: Val,
    expected: Val,
    other_actual: Val,
    other_expected: Val,
)
    requires
        actual.type_text() == other_actual.type_text(),
        expected.type_text() == other_expected.type_text(),
    ensures
        ({
            let e = EngineError::MismatchedTypes { actual, expected };
            let other = EngineError::MismatchedTypes {
                actual: other_actual,
                expected: other_expected,
            };
            &&& e.message_text() == type_mismatch_text(actual, expected)
            &&& contains_text(e.rendered(), expected.type_text())
            &&& contains_text(e.rendered(), actual.type_text())
            &&& e.rendered() == other.rendered()
        }),
{
    let e = EngineError::MismatchedTypes { actual, expected };
    let lead = "Expected type "@;
    let mid = ", but got "@;
    let tail = " instead"@;
    let wanted = highlighted(Role::Expected, expected.type_text());
    let received = highlighted(Role::Faulty, actual.type_text());

    lemma_highlighted_holds_text(Role::Expected, expected.type_text());
    lemma_contains_after_lead(lead, wanted, expected.type_text());
    lemma_contains_before_tail(lead + wanted, mid, expected.type_text());
    lemma_contains_before_tail(lead + wanted + mid, received, expected.type_text());
    lemma_contains_before_tail(lead + wanted + mid + received, tail, expected.type_text());
    lemma_rendered_holds_message_parts(e, expected.type_text());

    lemma_highlighted_holds_text(Role::Faulty, actual.type_text());
    lemma_contains_after_lead(lead + wanted + mid, received, actual.type_text());
    lemma_contains_before_tail(lead + wanted + mid + received, tail, actual.type_text());
    lemma_rendered_holds_message_parts(e, actual.type_text());
}

/// `c` is a capital letter that opens a type name.
pub open spec fn opens_type_name(c: char) -> bool {
    c == 'I' || c == 'B' || c == 'S'
}

/// No character of `s` opens a type name.
pub open spec fn lacks_type_initials(s: Seq<char>) -> bool {
    forall|i: int| 0 <= i < s.len() ==> !opens_type_name(#[trigger] s[i])
}

/// Nothing around the operand of a one-operand handler miss opens a type
/// name.
proof fn lemma_fixed_text_lacks_type_initials()
    ensures
        lacks_type_initials(header_text()),
        lacks_type_initials(separator_text()),
        lacks_type_initials("Could not find "@),
        lacks_type_initials("NEG"@),
        lacks_type_initials("NOT"@),
        lacks_type_initials(" handler for the provided type "@),
        lacks_type_initials(start_code(Tint::Yellow)),
        lacks_type_initials(reset_code()),
{
    reveal_strlit("\x1B[33m");
    reveal_strlit("Engine Error");
    reveal_strlit("\x1B[31m");
    reveal_strlit("\x1B[0m");
    reveal_strlit(": ");
    reveal_strlit("Could not find ");
    reveal_strlit("NEG");
    reveal_strlit("NOT");
    reveal_strlit(" handler for the provided type ");
}

/// Only the first character of a type name opens a type name, and it tells
/// the type names apart.
proof fn lemma_type_names_open_with_their_initial(v: Val, w: Val)
    ensures
        v.type_text().len() > 0,
        opens_type_name(v.type_text()[0]),
        forall|i: int|
            0 < i < v.type_text().len() ==> !opens_type_name(#[trigger] v.type_text()[i]),
        v.type_text()[0] == w.type_text()[0] ==> v.type_text() == w.type_text(),
{
    reveal_strlit("Int");
    reveal_strlit("Bool");
    reveal_strlit("Str");
}

/// Of all type names only `name` stands in `text`, and only at offset `at`.
pub open spec fn holds_one_type_name(text: Seq<char>, name: Seq<char>, at: int) -> bool {
    forall|p: int, v: Val|
        #[trigger] occurs_at(text, v.type_text(), p) <==> p == at && v.type_text() == name
}

/// The diagnostic of a one-operand handler miss holds exactly one type name:
/// that of the operand, in one place.
pub proof fn law_unary_miss_holds_one_type_name(e: EngineError)
    requires
        e.is_unary_miss(),
    ensures
        exists|at: int| holds_one_type_name(e.rendered(), e.operands()[0].type_text(), at),
{
    let x = e.operands()[0];
    let name = x.type_text();
    let lead = header_text() + separator_text() + "Could not find "@ + e.opcode()
        + " handler for the provided type "@ + start_code(Tint::Yellow);
    let whole = e.rendered();
    let at = lead.len() as int;

    lemma_fixed_text_lacks_type_initials();
    lemma_type_names_open_with_their_initial(x, x);
    assert(whole =~= lead + name + reset_code());
    assert(lacks_type_initials(lead));
    assert forall|q: int| 0 <= q < whole.len() && opens_type_name(#[trigger] whole[q]) implies q
        == at by {
        if q < at {
            assert(whole[q] == lead[q]);
        } else if q < at + name.len() {
            assert(whole[q] == name[q - at]);
        } else {
            assert(whole[q] == reset_code()[q - at - name.len()]);
        }
    }
    lemma_occurs_in_itself(name);
    lemma_occurs_after_lead(lead, name, name, 0);
    lemma_occurs_before_tail(lead + name, reset_code(), name, at);

    assert forall|p: int, v: Val|
        #[trigger] occurs_at(whole, v.type_text(), p) <==> p == at && v.type_text() == name by {
        if occurs_at(whole, v.type_text(), p) {
            let other = v.type_text();
            lemma_type_names_open_with_their_initial(v, x);
            assert(whole.subrange(p, p + other.len())[0] == other[0]);
            assert(whole[p] == other[0]);
            assert(whole[at] == name[0]);
        }
    }
    assert(holds_one_type_name(whole, name, at));
}

/// Rendering is repeatable: whatever two calls of `render` return for one
/// failure, the two strings hold the same text, and so the same bytes.
pub proof fn law_render_repeatable(e: EngineError, first: String, second: String)
    requires
        first@ == e.rendered(),
        second@ == e.rendered(),
    ensures
        first@ == second@,
        encode_utf8(first@) == encode_utf8(second@),
{
}

} // verus!
