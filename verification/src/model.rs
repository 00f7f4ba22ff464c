//! The mathematical model of the translation: one specification function per
//! syntax construct gives the exact Lua text, and one predicate per construct
//! says whether the construct can be rendered at all.

use vstd::prelude::*;
use crate::ast::ASTBlock;
use crate::ast::ASTExpression;
use crate::ast::ASTNode;
use crate::ast::ASTType;
use crate::ast::IHasAInitialValue;
use crate::ast::Identifier;
use crate::ast::LoopCondition;
use crate::ast::LoopIterationOperation;
use crate::ast::LoopOperation;
use crate::ast::Token;
use crate::ast::TokenValue;
use crate::ast::VariableAccess;
use crate::num::bool_text;
use crate::num::int_text;

verus! {

/// The Lua text of a literal value.
pub open spec fn value_lua(v: TokenValue) -> Seq<char> {
    match v {
        TokenValue::Noob => "NIL"@,
        TokenValue::Str(s) => s@,
        TokenValue::Int(i) => int_text(i as int),
        TokenValue::Float(t) => t@,
        TokenValue::Boolean(b) => bool_text(b),
    }
}

/// Whether a token has a textual form: every token but the container-slot
/// access marker does.
pub open spec fn token_ok(t: Token) -> bool {
    !(t is BukkitSlotAccess)
}

/// The Lua text of a token atom.
pub open spec fn token_lua(t: Token) -> Seq<char> {
    match t {
        Token::Comma => ","@,
        Token::Ellipsis => "..."@,
        Token::QuestionMark => "?"@,
        Token::ExclamationMark => "!"@,
        Token::CommentMultiLine(_) => Seq::empty(),
        Token::CommentSingleLine(_) => Seq::empty(),
        Token::Keyword(k) => k@,
        Token::Identifier(name) => name@,
        Token::Value(v) => value_lua(v),
        Token::Symbol(s) => s@,
        Token::BukkitSlotAccess => Seq::empty(),
    }
}

/// Whether an identifier can stand as a static Lua name: it must be direct
/// (not `SRS`) and its token must have a textual form.
pub open spec fn ident_ok(id: Identifier) -> bool {
    &&& !id.is_srs
    &&& token_ok(id.name)
}

/// The Lua text of a direct identifier: its bare name.
pub open spec fn ident_lua(id: Identifier) -> Seq<char> {
    token_lua(id.name)
}

/// Whether a variable reference can be rendered: its bare name must be
/// renderable and its slot-access chain empty. Slot-chain resolution is
/// not implemented, so a chained reference fails translation rather than
/// silently dropping the chain.
pub open spec fn access_ok(a: VariableAccess) -> bool {
    &&& ident_ok(a.name)
    &&& a.accesses@.len() == 0
}

/// The Lua text of a variable reference: its bare name.
pub open spec fn access_lua(a: VariableAccess) -> Seq<char> {
    ident_lua(a.name)
}

/// `(<left> <op> <right>)`: the fully parenthesized text of a binary
/// operator application, from the operands' already-rendered texts.
pub open spec fn paren2(left: Seq<char>, op: Seq<char>, right: Seq<char>) -> Seq<char> {
    "("@ + left + op + right + ")"@
}

/// The Lua text of an expression, fully parenthesized so that evaluation
/// order never depends on Lua operator precedence.
pub open spec fn expr_lua(e: ASTExpression) -> Seq<char>
    decreases e,
{
    match e {
        ASTExpression::Not(x) => "(not "@ + expr_lua(*x) + ")"@,
        ASTExpression::Maek(x, _) => expr_lua(*x),
        ASTExpression::WonOf(a, b) => paren2(expr_lua(*a), " ~= "@, expr_lua(*b)),
        ASTExpression::AllOf(es) => "("@ + exprs_lua(es@, " and "@) + ")"@,
        ASTExpression::AnyOf(es) => "("@ + exprs_lua(es@, " or "@) + ")"@,
        ASTExpression::Smoosh(es) => "("@ + exprs_lua(es@, " .. "@) + ")"@,
        ASTExpression::ModOf(a, b) => "math.fmod("@ + expr_lua(*a) + ", "@ + expr_lua(*b)
            + ")"@,
        ASTExpression::BothOf(a, b) => paren2(expr_lua(*a), " and "@, expr_lua(*b)),
        ASTExpression::SumOf(a, b) => paren2(expr_lua(*a), " + "@, expr_lua(*b)),
        ASTExpression::DiffOf(a, b) => paren2(expr_lua(*a), " - "@, expr_lua(*b)),
        ASTExpression::ProduktOf(a, b) => paren2(expr_lua(*a), " * "@, expr_lua(*b)),
        ASTExpression::QuoshuntOf(a, b) => paren2(expr_lua(*a), " / "@, expr_lua(*b)),
        ASTExpression::BiggrOf(a, b) => paren2(expr_lua(*a), " > "@, expr_lua(*b)),
        ASTExpression::SmallrOf(a, b) => paren2(expr_lua(*a), " < "@, expr_lua(*b)),
        ASTExpression::EitherOf(a, b) => paren2(expr_lua(*a), " or "@, expr_lua(*b)),
        ASTExpression::BothSaem(a, b) => paren2(expr_lua(*a), " == "@, expr_lua(*b)),
        ASTExpression::Diffrint(a, b) => paren2(expr_lua(*a), " ~= "@, expr_lua(*b)),
        ASTExpression::VariableAccess(a) => access_lua(a),
        ASTExpression::LiteralValue(t) => token_lua(t),
    }
}

/// The operands of an N-ary operator, rendered and joined with the
/// operator's text between adjacent operands: a single operand stands
/// alone, with no operator inserted.
pub open spec fn exprs_lua(es: Seq<ASTExpression>, sep: Seq<char>) -> Seq<char>
    decreases es,
{
    if es.len() == 0 {
        Seq::empty()
    } else if es.len() == 1 {
        expr_lua(es[0])
    } else {
        expr_lua(es[0]) + sep + exprs_lua(es.drop_first(), sep)
    }
}

/// Whether an expression can be rendered: every identifier in it is direct
/// and every literal token has a textual form.
pub open spec fn expr_ok(e: ASTExpression) -> bool
    decreases e,
{
    match e {
        ASTExpression::Not(x) => expr_ok(*x),
        ASTExpression::Maek(x, _) => expr_ok(*x),
        ASTExpression::WonOf(a, b) => expr_ok(*a) && expr_ok(*b),
        ASTExpression::AllOf(es) => exprs_ok(es@),
        ASTExpression::AnyOf(es) => exprs_ok(es@),
        ASTExpression::Smoosh(es) => exprs_ok(es@),
        ASTExpression::ModOf(a, b) => expr_ok(*a) && expr_ok(*b),
        ASTExpression::BothOf(a, b) => expr_ok(*a) && expr_ok(*b),
        ASTExpression::SumOf(a, b) => expr_ok(*a) && expr_ok(*b),
        ASTExpression::DiffOf(a, b) => expr_ok(*a) && expr_ok(*b),
        ASTExpression::ProduktOf(a, b) => expr_ok(*a) && expr_ok(*b),
        ASTExpression::QuoshuntOf(a, b) => expr_ok(*a) && expr_ok(*b),
        ASTExpression::BiggrOf(a, b) => expr_ok(*a) && expr_ok(*b),
        ASTExpression::SmallrOf(a, b) => expr_ok(*a) && expr_ok(*b),
        ASTExpression::EitherOf(a, b) => expr_ok(*a) && expr_ok(*b),
        ASTExpression::BothSaem(a, b) => expr_ok(*a) && expr_ok(*b),
        ASTExpression::Diffrint(a, b) => expr_ok(*a) && expr_ok(*b),
        ASTExpression::VariableAccess(a) => access_ok(a),
        ASTExpression::LiteralValue(t) => token_ok(t),
    }
}

/// Whether every expression of a sequence can be rendered.
pub open spec fn exprs_ok(es: Seq<ASTExpression>) -> bool
    decreases es,
{
    if es.len() == 0 {
        true
    } else {
        expr_ok(es[0]) && exprs_ok(es.drop_first())
    }
}

/// The default value synthesized for a declaration that names a type but no
/// initializer expression.
pub open spec fn type_default_lua(t: ASTType) -> Seq<char> {
    match t {
        ASTType::Troof => "false"@,
        ASTType::Numbr => "0"@,
        ASTType::Noob => "NIL"@,
        ASTType::Numbar => "0.0"@,
        ASTType::Bukkit => "{}"@,
        ASTType::Yarn => "\"\""@,
    }
}

/// The initializer text of a declaration: a type's default value, or the
/// initializer expression's text.
pub open spec fn init_lua(v: IHasAInitialValue) -> Seq<char> {
    match v {
        IHasAInitialValue::Type(t) => type_default_lua(t),
        IHasAInitialValue::Expression(e) => expr_lua(e),
    }
}

/// Whether a declaration initializer can be rendered.
pub open spec fn init_ok(v: IHasAInitialValue) -> bool {
    match v {
        IHasAInitialValue::Type(_) => true,
        IHasAInitialValue::Expression(e) => expr_ok(e),
    }
}

/// The loop guard: a `TIL` (until) stop condition is negated, a `WILE`
/// (while) condition is used unchanged.
pub open spec fn cond_lua(c: LoopCondition) -> Seq<char> {
    match c {
        LoopCondition::TIL(e) => "(not "@ + expr_lua(e) + ")"@,
        LoopCondition::WILE(e) => expr_lua(e),
    }
}

/// Whether a loop condition can be rendered.
pub open spec fn cond_ok(c: LoopCondition) -> bool {
    match c {
        LoopCondition::TIL(e) => expr_ok(e),
        LoopCondition::WILE(e) => expr_ok(e),
    }
}

/// The guard slot of a loop: empty when the loop has no stop condition.
pub open spec fn opt_cond_lua(c: Option<LoopCondition>) -> Seq<char> {
    match c {
        Some(c) => cond_lua(c),
        None => Seq::empty(),
    }
}

/// Whether a loop's optional condition can be rendered.
pub open spec fn opt_cond_ok(c: Option<LoopCondition>) -> bool {
    match c {
        Some(c) => cond_ok(c),
        None => true,
    }
}

/// The per-iteration step of a loop: increment or decrement of the counter.
pub open spec fn step_lua(s: LoopIterationOperation) -> Seq<char> {
    match s.operation {
        LoopOperation::UPPIN => ident_lua(s.operand) + " += 1"@,
        LoopOperation::NERFIN => ident_lua(s.operand) + " -= 1"@,
    }
}

/// Whether a loop step can be rendered.
pub open spec fn step_ok(s: LoopIterationOperation) -> bool {
    ident_ok(s.operand)
}

/// The step slot of a loop: empty when the loop has no per-iteration step.
pub open spec fn opt_step_lua(s: Option<LoopIterationOperation>) -> Seq<char> {
    match s {
        Some(s) => step_lua(s),
        None => Seq::empty(),
    }
}

/// Whether a loop's optional step can be rendered.
pub open spec fn opt_step_ok(s: Option<LoopIterationOperation>) -> bool {
    match s {
        Some(s) => step_ok(s),
        None => true,
    }
}

/// Parameter tokens joined with a separator between adjacent tokens.
pub open spec fn tokens_lua(ts: Seq<Token>, sep: Seq<char>) -> Seq<char>
    decreases ts,
{
    if ts.len() == 0 {
        Seq::empty()
    } else if ts.len() == 1 {
        token_lua(ts[0])
    } else {
        token_lua(ts[0]) + sep + tokens_lua(ts.drop_first(), sep)
    }
}

/// Whether every token of a sequence has a textual form.
pub open spec fn tokens_ok(ts: Seq<Token>) -> bool
    decreases ts,
{
    if ts.len() == 0 {
        true
    } else {
        token_ok(ts[0]) && tokens_ok(ts.drop_first())
    }
}

/// The Lua text of one statement.
pub open spec fn node_lua(n: ASTNode) -> Seq<char>
    decreases n,
{
    match n {
        ASTNode::HAI => Seq::empty(),
        ASTNode::IHasA(d) => match d.initial_value {
            None => "local "@ + ident_lua(d.identifier),
            Some(v) => "local "@ + ident_lua(d.identifier) + " = "@ + init_lua(v),
        },
        ASTNode::ImInYr(l) => "while "@ + opt_cond_lua(l.condition) + " do\n"@ + block_lua(
            l.code_block,
        ) + "\n"@ + opt_step_lua(l.on_iteration) + "\nend"@,
        ASTNode::BukkitSetSlot(s) => ident_lua(s.bukkit) + "["@ + token_lua(s.slot_name)
            + "] = "@ + expr_lua(s.value),
        ASTNode::VariableAssignment(a) => access_lua(a.identifier) + " = "@ + expr_lua(a.value),
        ASTNode::Visible(v) => "io.write("@ + exprs_lua(v.0@, ", "@) + (if v.1 is Some {
            Seq::<char>::empty()
        } else {
            "\n"@
        }) + ")"@,
        ASTNode::FoundYr(e) => "return "@ + expr_lua(e),
        ASTNode::Wtf => Seq::empty(),
        ASTNode::ORly => Seq::empty(),
        ASTNode::IIz(c) => ident_lua(c.name) + "("@ + exprs_lua(c.arguments@, ", "@) + ")"@,
        ASTNode::HowIzI(f) => "function "@ + ident_lua(f.name) + "("@ + tokens_lua(
            f.arguments@,
            ", "@,
        ) + ")\n"@ + block_lua(f.body) + "\nend"@,
        ASTNode::Gtfo => "return nil"@,
        ASTNode::Gimmeh => Seq::empty(),
        ASTNode::Expression(e) => "it = "@ + expr_lua(e),
        ASTNode::ASTError => Seq::empty(),
        ASTNode::KTHXBYE => Seq::empty(),
    }
}

/// Whether one statement can be rendered: its kind is supported and every
/// part of it can be rendered.
pub open spec fn node_ok(n: ASTNode) -> bool
    decreases n,
{
    match n {
        ASTNode::HAI => true,
        ASTNode::IHasA(d) => ident_ok(d.identifier) && match d.initial_value {
            None => true,
            Some(v) => init_ok(v),
        },
        ASTNode::ImInYr(l) => opt_cond_ok(l.condition) && block_ok(l.code_block) && opt_step_ok(
            l.on_iteration,
        ),
        ASTNode::BukkitSetSlot(s) => ident_ok(s.bukkit) && token_ok(s.slot_name) && expr_ok(
            s.value,
        ),
        ASTNode::VariableAssignment(a) => access_ok(a.identifier) && expr_ok(a.value),
        ASTNode::Visible(v) => exprs_ok(v.0@),
        ASTNode::FoundYr(e) => expr_ok(e),
        ASTNode::Wtf => false,
        ASTNode::ORly => false,
        ASTNode::IIz(c) => ident_ok(c.name) && exprs_ok(c.arguments@),
        ASTNode::HowIzI(f) => ident_ok(f.name) && tokens_ok(f.arguments@) && block_ok(f.body),
        ASTNode::Gtfo => true,
        ASTNode::Gimmeh => false,
        ASTNode::Expression(e) => expr_ok(e),
        ASTNode::ASTError => false,
        ASTNode::KTHXBYE => true,
    }
}

/// Statements joined with a line break between adjacent statements.
pub open spec fn nodes_lua(ns: Seq<ASTNode>) -> Seq<char>
    decreases ns,
{
    if ns.len() == 0 {
        Seq::empty()
    } else if ns.len() == 1 {
        node_lua(ns[0])
    } else {
        node_lua(ns[0]) + "\n"@ + nodes_lua(ns.drop_first())
    }
}

/// Whether every statement of a sequence can be rendered.
pub open spec fn nodes_ok(ns: Seq<ASTNode>) -> bool
    decreases ns,
{
    if ns.len() == 0 {
        true
    } else {
        node_ok(ns[0]) && nodes_ok(ns.drop_first())
    }
}

/// A sequence of operands renders if and only if each operand does.
pub proof fn lemma_exprs_ok_iff(es: Seq<ASTExpression>)
    ensures
        exprs_ok(es) <==> (forall|i: int| 0 <= i < es.len() ==> expr_ok(#[trigger] es[i])),
    decreases es.len(),
{
    if es.len() > 0 {
        let rest = es.drop_first();
        lemma_exprs_ok_iff(rest);
        assert(forall|i: int| 0 <= i < rest.len() ==> #[trigger] rest[i] == es[i + 1]);
        if forall|i: int| 0 <= i < es.len() ==> expr_ok(#[trigger] es[i]) {
            assert forall|i: int| 0 <= i < rest.len() implies expr_ok(#[trigger] rest[i]) by {
                assert(rest[i] == es[i + 1]);
            }
            assert(exprs_ok(rest));
        }
        if exprs_ok(es) {
            assert forall|i: int| 0 <= i < es.len() implies expr_ok(#[trigger] es[i]) by {
                if i > 0 {
                    assert(es[i] == rest[i - 1]);
                }
            }
        }
    }
}

/// A sequence of parameter tokens renders if and only if each token does.
pub proof fn lemma_tokens_ok_iff(ts: Seq<Token>)
    ensures
        tokens_ok(ts) <==> (forall|i: int| 0 <= i < ts.len() ==> token_ok(#[trigger] ts[i])),
    decreases ts.len(),
{
    if ts.len() > 0 {
        let rest = ts.drop_first();
        lemma_tokens_ok_iff(rest);
        assert(forall|i: int| 0 <= i < rest.len() ==> #[trigger] rest[i] == ts[i + 1]);
        if forall|i: int| 0 <= i < ts.len() ==> token_ok(#[trigger] ts[i]) {
            assert forall|i: int| 0 <= i < rest.len() implies token_ok(#[trigger] rest[i]) by {
                assert(rest[i] == ts[i + 1]);
            }
            assert(tokens_ok(rest));
        }
        if tokens_ok(ts) {
            assert forall|i: int| 0 <= i < ts.len() implies token_ok(#[trigger] ts[i]) by {
                if i > 0 {
                    assert(ts[i] == rest[i - 1]);
                }
            }
        }
    }
}

/// A sequence of statements renders if and only if each statement does.
pub proof fn lemma_nodes_ok_iff(ns: Seq<ASTNode>)
    ensures
        nodes_ok(ns) <==> (forall|i: int| 0 <= i < ns.len() ==> node_ok(#[trigger] ns[i])),
    decreases ns.len(),
{
    if ns.len() > 0 {
        let rest = ns.drop_first();
        lemma_nodes_ok_iff(rest);
        assert(forall|i: int| 0 <= i < rest.len() ==> #[trigger] rest[i] == ns[i + 1]);
        if forall|i: int| 0 <= i < ns.len() ==> node_ok(#[trigger] ns[i]) {
            assert forall|i: int| 0 <= i < rest.len() implies node_ok(#[trigger] rest[i]) by {
                assert(rest[i] == ns[i + 1]);
            }
            assert(nodes_ok(rest));
        }
        if nodes_ok(ns) {
            assert forall|i: int| 0 <= i < ns.len() implies node_ok(#[trigger] ns[i]) by {
                if i > 0 {
                    assert(ns[i] == rest[i - 1]);
                }
            }
        }
    }
}

/// The Lua text of a whole program body.
pub open spec fn block_lua(b: ASTBlock) -> Seq<char>
    decreases b,
{
    nodes_lua(b.0@)
}

/// Whether a whole program body can be rendered.
pub open spec fn block_ok(b: ASTBlock) -> bool
    decreases b,
{
    nodes_ok(b.0@)
}

} // verus!
