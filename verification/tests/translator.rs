use lolcode_to_lua::ToLua;
use lolcode_to_lua::TranslationError;
use lolcode_to_lua::translate;
use lolcode_to_lua::ast::ASTBlock;
use lolcode_to_lua::ast::ASTExpression;
use lolcode_to_lua::ast::ASTNode;
use lolcode_to_lua::ast::ASTType;
use lolcode_to_lua::ast::BukkitSetSlot;
use lolcode_to_lua::ast::HowIzI;
use lolcode_to_lua::ast::IHasA;
use lolcode_to_lua::ast::IHasAInitialValue;
use lolcode_to_lua::ast::IIz;
use lolcode_to_lua::ast::Identifier;
use lolcode_to_lua::ast::ImInYr;
use lolcode_to_lua::ast::LoopCondition;
use lolcode_to_lua::ast::LoopIterationOperation;
use lolcode_to_lua::ast::LoopOperation;
use lolcode_to_lua::ast::Token;
use lolcode_to_lua::ast::TokenValue;
use lolcode_to_lua::ast::VariableAccess;
use lolcode_to_lua::ast::VariableAssignment;
use lolcode_to_lua::ast::Visible;

fn ident(name: &str) -> Identifier {
    Identifier { name: Token::Identifier(name.to_string()), is_srs: false }
}

fn srs_ident(name: &str) -> Identifier {
    Identifier { name: Token::Identifier(name.to_string()), is_srs: true }
}

fn var(name: &str) -> ASTExpression {
    ASTExpression::VariableAccess(VariableAccess { name: ident(name), accesses: vec![] })
}

fn int_lit(i: i64) -> ASTExpression {
    ASTExpression::LiteralValue(Token::Value(TokenValue::Int(i)))
}

fn decl(name: &str, initial_value: Option<IHasAInitialValue>) -> ASTNode {
    ASTNode::IHasA(IHasA { identifier: ident(name), initial_value })
}

fn translate_one(node: ASTNode) -> Result<String, TranslationError> {
    translate(ASTBlock(vec![node]))
}

#[test]
fn default_troof() {
    let r = translate_one(decl("B", Some(IHasAInitialValue::Type(ASTType::Troof))));
    assert_eq!(r.unwrap(), "local B = false");
}

#[test]
fn default_numbr() {
    let r = translate_one(decl("X", Some(IHasAInitialValue::Type(ASTType::Numbr))));
    assert_eq!(r.unwrap(), "local X = 0");
}

#[test]
fn default_noob() {
    let r = translate_one(decl("N", Some(IHasAInitialValue::Type(ASTType::Noob))));
    assert_eq!(r.unwrap(), "local N = NIL");
}

#[test]
fn default_numbar() {
    let r = translate_one(decl("F", Some(IHasAInitialValue::Type(ASTType::Numbar))));
    assert_eq!(r.unwrap(), "local F = 0.0");
}

#[test]
fn default_bukkit() {
    let r = translate_one(decl("M", Some(IHasAInitialValue::Type(ASTType::Bukkit))));
    assert_eq!(r.unwrap(), "local M = {}");
}

#[test]
fn default_yarn() {
    let r = translate_one(decl("S", Some(IHasAInitialValue::Type(ASTType::Yarn))));
    assert_eq!(r.unwrap(), "local S = \"\"");
}

#[test]
fn declaration_without_initializer() {
    let r = translate_one(decl("X", None));
    assert_eq!(r.unwrap(), "local X");
}

#[test]
fn declaration_with_text_initializer() {
    let init = IHasAInitialValue::Expression(ASTExpression::LiteralValue(Token::Value(
        TokenValue::Str("\"hi\"".to_string()),
    )));
    let r = translate_one(decl("S", Some(init)));
    assert_eq!(r.unwrap(), "local S = \"hi\"");
}

#[test]
fn until_loop_guard_is_negated() {
    let cond = ASTExpression::BothSaem(Box::new(var("X")), Box::new(int_lit(10)));
    let node = ASTNode::ImInYr(ImInYr {
        on_iteration: None,
        condition: Some(LoopCondition::TIL(cond)),
        code_block: ASTBlock(vec![]),
    });
    assert_eq!(translate_one(node).unwrap(), "while (not (X == 10)) do\n\n\nend");
}

#[test]
fn while_loop_guard_is_unchanged() {
    let cond = ASTExpression::BothSaem(Box::new(var("X")), Box::new(int_lit(10)));
    let node = ASTNode::ImInYr(ImInYr {
        on_iteration: None,
        condition: Some(LoopCondition::WILE(cond)),
        code_block: ASTBlock(vec![]),
    });
    assert_eq!(translate_one(node).unwrap(), "while (X == 10) do\n\n\nend");
}

#[test]
fn loop_without_condition_has_empty_guard() {
    let node = ASTNode::ImInYr(ImInYr {
        on_iteration: None,
        condition: None,
        code_block: ASTBlock(vec![]),
    });
    assert_eq!(translate_one(node).unwrap(), "while  do\n\n\nend");
}

#[test]
fn loop_with_body_and_increment_step() {
    let body = ASTBlock(vec![ASTNode::Visible(Visible(vec![var("I")], None))]);
    let cond = ASTExpression::SmallrOf(Box::new(var("I")), Box::new(int_lit(3)));
    let node = ASTNode::ImInYr(ImInYr {
        on_iteration: Some(LoopIterationOperation {
            operation: LoopOperation::UPPIN,
            operand: ident("I"),
        }),
        condition: Some(LoopCondition::WILE(cond)),
        code_block: body,
    });
    assert_eq!(
        translate_one(node).unwrap(),
        "while (I < 3) do\nio.write(I\n)\nI += 1\nend"
    );
}

#[test]
fn loop_with_decrement_step() {
    let node = ASTNode::ImInYr(ImInYr {
        on_iteration: Some(LoopIterationOperation {
            operation: LoopOperation::NERFIN,
            operand: ident("I"),
        }),
        condition: None,
        code_block: ASTBlock(vec![]),
    });
    assert_eq!(translate_one(node).unwrap(), "while  do\n\nI -= 1\nend");
}

#[test]
fn nary_and_single_operand_has_no_operator() {
    let e = ASTExpression::AllOf(vec![var("X")]);
    assert_eq!(e.into_lua(), "(X)");
}

#[test]
fn nary_and_two_operands() {
    let e = ASTExpression::AllOf(vec![var("X"), var("Y")]);
    assert_eq!(e.into_lua(), "(X and Y)");
}

#[test]
fn nary_or_three_operands() {
    let e = ASTExpression::AnyOf(vec![var("X"), var("Y"), var("Z")]);
    assert_eq!(e.into_lua(), "(X or Y or Z)");
}

#[test]
fn nary_concat_three_operands() {
    let e = ASTExpression::Smoosh(vec![var("A"), var("B"), var("C")]);
    assert_eq!(e.into_lua(), "(A .. B .. C)");
}

#[test]
fn call_with_no_arguments() {
    let node = ASTNode::IIz(IIz { name: ident("F"), arguments: vec![] });
    assert_eq!(translate_one(node).unwrap(), "F()");
}

#[test]
fn call_with_one_argument() {
    let node = ASTNode::IIz(IIz { name: ident("F"), arguments: vec![var("A")] });
    assert_eq!(translate_one(node).unwrap(), "F(A)");
}

#[test]
fn call_with_two_arguments() {
    let node = ASTNode::IIz(IIz { name: ident("F"), arguments: vec![var("A"), var("B")] });
    assert_eq!(translate_one(node).unwrap(), "F(A, B)");
}

#[test]
fn call_with_five_arguments() {
    let node = ASTNode::IIz(IIz {
        name: ident("F"),
        arguments: vec![var("A"), var("B"), var("C"), var("D"), var("E")],
    });
    assert_eq!(translate_one(node).unwrap(), "F(A, B, C, D, E)");
}

#[test]
fn function_with_no_parameters() {
    let node = ASTNode::HowIzI(HowIzI {
        name: ident("F"),
        arguments: vec![],
        body: ASTBlock(vec![ASTNode::Gtfo]),
    });
    assert_eq!(translate_one(node).unwrap(), "function F()\nreturn nil\nend");
}

#[test]
fn function_with_five_parameters() {
    let node = ASTNode::HowIzI(HowIzI {
        name: ident("F"),
        arguments: vec![
            Token::Identifier("A".to_string()),
            Token::Identifier("B".to_string()),
            Token::Identifier("C".to_string()),
            Token::Identifier("D".to_string()),
            Token::Identifier("E".to_string()),
        ],
        body: ASTBlock(vec![ASTNode::Gtfo]),
    });
    assert_eq!(translate_one(node).unwrap(), "function F(A, B, C, D, E)\nreturn nil\nend");
}

#[test]
fn function_declaration_with_body() {
    let body = ASTBlock(vec![ASTNode::FoundYr(ASTExpression::SumOf(
        Box::new(var("A")),
        Box::new(var("B")),
    ))]);
    let node = ASTNode::HowIzI(HowIzI {
        name: ident("ADD"),
        arguments: vec![Token::Identifier("A".to_string()), Token::Identifier("B".to_string())],
        body,
    });
    assert_eq!(translate_one(node).unwrap(), "function ADD(A, B)\nreturn (A + B)\nend");
}

#[test]
fn output_two_operands_with_newline() {
    let node = ASTNode::Visible(Visible(vec![var("X"), var("Y")], None));
    assert_eq!(translate_one(node).unwrap(), "io.write(X, Y\n)");
}

#[test]
fn output_suppressed_newline() {
    let node = ASTNode::Visible(Visible(vec![var("X")], Some(Token::ExclamationMark)));
    assert_eq!(translate_one(node).unwrap(), "io.write(X)");
}

#[test]
fn output_no_operands() {
    let node = ASTNode::Visible(Visible(vec![], None));
    assert_eq!(translate_one(node).unwrap(), "io.write(\n)");
}

#[test]
fn output_five_operands() {
    let node = ASTNode::Visible(Visible(
        vec![var("A"), var("B"), var("C"), var("D"), var("E")],
        Some(Token::ExclamationMark),
    ));
    assert_eq!(translate_one(node).unwrap(), "io.write(A, B, C, D, E)");
}

#[test]
fn function_with_one_parameter() {
    let node = ASTNode::HowIzI(HowIzI {
        name: ident("F"),
        arguments: vec![Token::Identifier("A".to_string())],
        body: ASTBlock(vec![ASTNode::Gtfo]),
    });
    assert_eq!(translate_one(node).unwrap(), "function F(A)\nreturn nil\nend");
}

#[test]
fn reference_with_slot_chain_fails() {
    let node = ASTNode::VariableAssignment(VariableAssignment {
        identifier: VariableAccess {
            name: ident("X"),
            accesses: vec![Token::Identifier("S".to_string())],
        },
        value: int_lit(1),
    });
    assert_eq!(translate_one(node), Err(TranslationError::UnsupportedConstruct));
}

#[test]
fn chained_read_in_expression_fails() {
    let e = ASTExpression::VariableAccess(VariableAccess {
        name: ident("X"),
        accesses: vec![Token::Identifier("S".to_string())],
    });
    let node = ASTNode::Expression(e);
    assert_eq!(translate_one(node), Err(TranslationError::UnsupportedConstruct));
}

#[test]
fn reference_without_slot_chain_renders_bare_name() {
    let node = ASTNode::Expression(var("X"));
    assert_eq!(translate_one(node).unwrap(), "it = X");
}

#[test]
fn reassignment() {
    let value = ASTExpression::SumOf(Box::new(var("X")), Box::new(int_lit(1)));
    let node = ASTNode::VariableAssignment(VariableAssignment {
        identifier: VariableAccess { name: ident("X"), accesses: vec![] },
        value,
    });
    assert_eq!(translate_one(node).unwrap(), "X = (X + 1)");
}

#[test]
fn container_slot_assignment() {
    let node = ASTNode::BukkitSetSlot(BukkitSetSlot {
        bukkit: ident("B"),
        slot_name: Token::Identifier("SLOT".to_string()),
        value: int_lit(1),
    });
    assert_eq!(translate_one(node).unwrap(), "B[SLOT] = 1");
}

#[test]
fn bare_expression_assigns_to_it() {
    let node = ASTNode::Expression(var("X"));
    assert_eq!(translate_one(node).unwrap(), "it = X");
}

#[test]
fn early_return_with_value() {
    let node = ASTNode::FoundYr(var("X"));
    assert_eq!(translate_one(node).unwrap(), "return X");
}

#[test]
fn early_return_without_value() {
    assert_eq!(translate_one(ASTNode::Gtfo).unwrap(), "return nil");
}

#[test]
fn markers_render_as_empty_lines() {
    let program = ASTBlock(vec![ASTNode::HAI, decl("X", None), ASTNode::KTHXBYE]);
    assert_eq!(translate(program).unwrap(), "\nlocal X\n");
}

#[test]
fn empty_program_renders_as_empty_text() {
    assert_eq!(translate(ASTBlock(vec![])).unwrap(), "");
}

#[test]
fn program_statements_joined_by_line_breaks() {
    let program = ASTBlock(vec![decl("X", None), decl("Y", None)]);
    assert_eq!(translate(program).unwrap(), "local X\nlocal Y");
}

#[test]
fn binary_operators() {
    let pairs: Vec<(ASTExpression, &str)> = vec![
        (ASTExpression::SumOf(Box::new(var("A")), Box::new(var("B"))), "(A + B)"),
        (ASTExpression::DiffOf(Box::new(var("A")), Box::new(var("B"))), "(A - B)"),
        (ASTExpression::ProduktOf(Box::new(var("A")), Box::new(var("B"))), "(A * B)"),
        (ASTExpression::QuoshuntOf(Box::new(var("A")), Box::new(var("B"))), "(A / B)"),
        (ASTExpression::BiggrOf(Box::new(var("A")), Box::new(var("B"))), "(A > B)"),
        (ASTExpression::SmallrOf(Box::new(var("A")), Box::new(var("B"))), "(A < B)"),
        (ASTExpression::BothOf(Box::new(var("A")), Box::new(var("B"))), "(A and B)"),
        (ASTExpression::EitherOf(Box::new(var("A")), Box::new(var("B"))), "(A or B)"),
        (ASTExpression::BothSaem(Box::new(var("A")), Box::new(var("B"))), "(A == B)"),
        (ASTExpression::Diffrint(Box::new(var("A")), Box::new(var("B"))), "(A ~= B)"),
        (ASTExpression::WonOf(Box::new(var("A")), Box::new(var("B"))), "(A ~= B)"),
    ];
    for (e, expected) in pairs {
        assert_eq!(e.into_lua(), expected);
    }
}

#[test]
fn modulo_renders_as_fmod_call() {
    let e = ASTExpression::ModOf(Box::new(var("A")), Box::new(var("B")));
    assert_eq!(e.into_lua(), "math.fmod(A, B)");
}

#[test]
fn negation() {
    let e = ASTExpression::Not(Box::new(var("X")));
    assert_eq!(e.into_lua(), "(not X)");
}

#[test]
fn cast_renders_as_value_alone() {
    let e = ASTExpression::Maek(Box::new(var("X")), ASTType::Yarn);
    assert_eq!(e.into_lua(), "X");
}

#[test]
fn nested_expression() {
    let e = ASTExpression::ProduktOf(
        Box::new(ASTExpression::SumOf(Box::new(var("A")), Box::new(int_lit(2)))),
        Box::new(var("B")),
    );
    assert_eq!(e.into_lua(), "((A + 2) * B)");
}

#[test]
fn integer_literals() {
    assert_eq!(int_lit(0).into_lua(), "0");
    assert_eq!(int_lit(42).into_lua(), "42");
    assert_eq!(int_lit(-7).into_lua(), "-7");
    assert_eq!(int_lit(i64::MAX).into_lua(), "9223372036854775807");
    assert_eq!(int_lit(i64::MIN).into_lua(), "-9223372036854775808");
}

#[test]
fn value_literals() {
    assert_eq!(TokenValue::Noob.into_lua(), "NIL");
    assert_eq!(TokenValue::Boolean(true).into_lua(), "true");
    assert_eq!(TokenValue::Boolean(false).into_lua(), "false");
    assert_eq!(TokenValue::Float("3.25".to_string()).into_lua(), "3.25");
    assert_eq!(TokenValue::Str("\"s\"".to_string()).into_lua(), "\"s\"");
}

#[test]
fn token_atoms() {
    assert_eq!(Token::Comma.into_lua(), ",");
    assert_eq!(Token::Ellipsis.into_lua(), "...");
    assert_eq!(Token::QuestionMark.into_lua(), "?");
    assert_eq!(Token::ExclamationMark.into_lua(), "!");
    assert_eq!(Token::Keyword("GTFO".to_string()).into_lua(), "GTFO");
    assert_eq!(Token::Symbol("#".to_string()).into_lua(), "#");
    assert_eq!(Token::CommentSingleLine("note".to_string()).into_lua(), "");
    assert_eq!(Token::CommentMultiLine("note".to_string()).into_lua(), "");
}

#[test]
fn direct_identifier_renders_as_bare_name() {
    assert_eq!(ident("COUNT").into_lua(), "COUNT");
}

#[test]
fn indirect_identifier_in_declaration_fails() {
    let node = ASTNode::IHasA(IHasA { identifier: srs_ident("X"), initial_value: None });
    assert_eq!(translate_one(node), Err(TranslationError::UnsupportedConstruct));
}

#[test]
fn indirect_identifier_in_reassignment_fails() {
    let node = ASTNode::VariableAssignment(VariableAssignment {
        identifier: VariableAccess { name: srs_ident("X"), accesses: vec![] },
        value: int_lit(1),
    });
    assert_eq!(translate_one(node), Err(TranslationError::UnsupportedConstruct));
}

#[test]
fn indirect_identifier_in_call_name_fails() {
    let node = ASTNode::IIz(IIz { name: srs_ident("F"), arguments: vec![] });
    assert_eq!(translate_one(node), Err(TranslationError::UnsupportedConstruct));
}

#[test]
fn indirect_identifier_in_expression_fails() {
    let e = ASTExpression::VariableAccess(VariableAccess {
        name: srs_ident("X"),
        accesses: vec![],
    });
    let node = ASTNode::Expression(e);
    assert_eq!(translate_one(node), Err(TranslationError::UnsupportedConstruct));
}

#[test]
fn slot_access_token_in_parameter_list_fails() {
    let node = ASTNode::HowIzI(HowIzI {
        name: ident("F"),
        arguments: vec![Token::BukkitSlotAccess],
        body: ASTBlock(vec![]),
    });
    assert_eq!(translate_one(node), Err(TranslationError::UnsupportedConstruct));
}

#[test]
fn conditional_branch_fails() {
    assert_eq!(translate_one(ASTNode::ORly), Err(TranslationError::UnsupportedConstruct));
}

#[test]
fn multiway_branch_fails() {
    assert_eq!(translate_one(ASTNode::Wtf), Err(TranslationError::UnsupportedConstruct));
}

#[test]
fn user_input_fails() {
    assert_eq!(translate_one(ASTNode::Gimmeh), Err(TranslationError::UnsupportedConstruct));
}

#[test]
fn malformed_node_fails() {
    assert_eq!(translate_one(ASTNode::ASTError), Err(TranslationError::UnsupportedConstruct));
}

#[test]
fn unsupported_statement_fails_whole_program() {
    let program = ASTBlock(vec![decl("X", None), ASTNode::Gimmeh, decl("Y", None)]);
    assert_eq!(translate(program), Err(TranslationError::UnsupportedConstruct));
}
