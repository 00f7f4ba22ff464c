//! The general properties of the translation, stated and proved once and
//! for all inputs: default-value synthesis, loop-guard negation, the shape
//! of N-ary and comma-joined renderings, and the exact conditions under
//! which translation fails.

use vstd::prelude::*;
use crate::ast::ASTBlock;
use crate::ast::ASTExpression;
use crate::ast::ASTNode;
use crate::ast::ASTType;
use crate::ast::IHasA;
use crate::ast::IHasAInitialValue;
use crate::ast::Identifier;
use crate::ast::LoopCondition;
use crate::ast::Token;
use crate::model::block_ok;
use crate::model::cond_lua;
use crate::model::expr_lua;
use crate::model::expr_ok;
use crate::model::exprs_lua;
use crate::model::ident_lua;
use crate::model::ident_ok;
use crate::model::lemma_nodes_ok_iff;
use crate::model::node_lua;
use crate::model::node_ok;
use crate::model::token_lua;
use crate::model::token_ok;
use crate::model::tokens_lua;
use crate::model::type_default_lua;

verus! {

/// A declaration whose initializer is a bare declared type renders as
/// `local <name> = <default>`, where the default literal of each primitive
/// type is exactly the one listed here.
pub proof fn lemma_declaration_default(id: Identifier, t: ASTType)
    ensures
        node_lua(
            ASTNode::IHasA(
                (IHasA { identifier: id, initial_value: Some(IHasAInitialValue::Type(t)) }),
            ),
        ) == "local "@ + ident_lua(id) + " = "@ + type_default_lua(t),
        type_default_lua(ASTType::Troof) == "false"@,
        type_default_lua(ASTType::Numbr) == "0"@,
        type_default_lua(ASTType::Noob) == "NIL"@,
        type_default_lua(ASTType::Numbar) == "0.0"@,
        type_default_lua(ASTType::Bukkit) == "{}"@,
        type_default_lua(ASTType::Yarn) == "\"\""@,
{
}

/// The guard of an `until`-style loop is the negation of the rendered stop
/// condition — exactly what rendering the negation expression of that
/// condition yields — while the guard of a `while`-style loop is the
/// rendered condition unchanged.
pub proof fn lemma_loop_guard(c: ASTExpression)
    ensures
        cond_lua(LoopCondition::TIL(c)) == "(not "@ + expr_lua(c) + ")"@,
        cond_lua(LoopCondition::TIL(c)) == expr_lua(ASTExpression::Not(Box::new(c))),
        cond_lua(LoopCondition::WILE(c)) == expr_lua(c),
{
}

/// The summed length of the rendered operands of a sequence.
pub open spec fn exprs_lua_total_len(es: Seq<ASTExpression>) -> int
    decreases es,
{
    if es.len() == 0 {
        0
    } else {
        expr_lua(es[0]).len() + exprs_lua_total_len(es.drop_first())
    }
}

/// A single operand stands alone: no separator appears for N = 1, and an
/// empty list renders as empty text.
pub proof fn lemma_join_exprs_small(es: Seq<ASTExpression>, sep: Seq<char>)
    ensures
        es.len() == 0 ==> exprs_lua(es, sep) == Seq::<char>::empty(),
        es.len() == 1 ==> exprs_lua(es, sep) == expr_lua(es[0]),
{
}

/// Joined operands carry exactly N − 1 separators for N operands: the
/// joined length is the summed operand length plus (N − 1) separator
/// lengths, so no leading or trailing separator can appear.
pub proof fn lemma_join_exprs_len(es: Seq<ASTExpression>, sep: Seq<char>)
    requires
        es.len() >= 1,
    ensures
        exprs_lua(es, sep).len() == exprs_lua_total_len(es) + (es.len() - 1) * sep.len(),
    decreases es,
{
    if es.len() > 1 {
        lemma_join_exprs_len(es.drop_first(), sep);
        assert((es.len() - 1) * sep.len() == (es.drop_first().len() - 1) * sep.len()
            + sep.len()) by (nonlinear_arith)
            requires
                es.len() >= 2,
                es.drop_first().len() == es.len() - 1,
        ;
    } else {
        assert(exprs_lua_total_len(es.drop_first()) == 0);
    }
}

/// Separators fall exactly between adjacent operands, in left-to-right
/// order: the join splits after the first operand and before the last one.
pub proof fn lemma_join_exprs_between(es: Seq<ASTExpression>, sep: Seq<char>)
    requires
        es.len() >= 2,
    ensures
        exprs_lua(es, sep) == expr_lua(es[0]) + sep + exprs_lua(es.drop_first(), sep),
        exprs_lua(es, sep) == exprs_lua(es.drop_last(), sep) + sep + expr_lua(es.last()),
    decreases es,
{
    if es.len() == 2 {
        assert(es.drop_last() =~= seq![es[0]]);
        assert(es.drop_first() =~= seq![es[1]]);
    } else {
        let rest = es.drop_first();
        lemma_join_exprs_between(rest, sep);
        assert(es.drop_last().drop_first() =~= rest.drop_last());
        assert(es.drop_last()[0] == es[0]);
        assert(rest.last() == es.last());
        assert(exprs_lua(es.drop_last(), sep) == expr_lua(es[0]) + sep + exprs_lua(
            rest.drop_last(),
            sep,
        ));
        assert(exprs_lua(es, sep) == expr_lua(es[0]) + sep + exprs_lua(rest, sep));
        assert((expr_lua(es[0]) + sep + (exprs_lua(rest.drop_last(), sep) + sep + expr_lua(
            rest.last(),
        ))) =~= ((expr_lua(es[0]) + sep + exprs_lua(rest.drop_last(), sep)) + sep + expr_lua(
            es.last(),
        )));
    }
}

/// The summed length of the rendered tokens of a parameter list.
pub open spec fn tokens_lua_total_len(ts: Seq<Token>) -> int
    decreases ts,
{
    if ts.len() == 0 {
        0
    } else {
        token_lua(ts[0]).len() + tokens_lua_total_len(ts.drop_first())
    }
}

/// A comma-joined parameter list carries exactly count − 1 separators, and
/// a single parameter (or none) carries none.
pub proof fn lemma_join_tokens_len(ts: Seq<Token>, sep: Seq<char>)
    ensures
        ts.len() == 0 ==> tokens_lua(ts, sep) == Seq::<char>::empty(),
        ts.len() == 1 ==> tokens_lua(ts, sep) == token_lua(ts[0]),
        ts.len() >= 1 ==> tokens_lua(ts, sep).len() == tokens_lua_total_len(ts) + (ts.len() - 1)
            * sep.len(),
    decreases ts,
{
    if ts.len() > 1 {
        lemma_join_tokens_len(ts.drop_first(), sep);
        assert((ts.len() - 1) * sep.len() == (ts.drop_first().len() - 1) * sep.len()
            + sep.len()) by (nonlinear_arith)
            requires
                ts.len() >= 2,
                ts.drop_first().len() == ts.len() - 1,
        ;
    } else if ts.len() == 1 {
        assert(tokens_lua_total_len(ts.drop_first()) == 0);
    }
}

/// Separators of a comma-joined parameter list fall exactly between
/// adjacent tokens, in left-to-right order.
pub proof fn lemma_join_tokens_between(ts: Seq<Token>, sep: Seq<char>)
    requires
        ts.len() >= 2,
    ensures
        tokens_lua(ts, sep) == token_lua(ts[0]) + sep + tokens_lua(ts.drop_first(), sep),
        tokens_lua(ts, sep) == tokens_lua(ts.drop_last(), sep) + sep + token_lua(ts.last()),
    decreases ts,
{
    if ts.len() == 2 {
        assert(ts.drop_last() =~= seq![ts[0]]);
        assert(ts.drop_first() =~= seq![ts[1]]);
    } else {
        let rest = ts.drop_first();
        lemma_join_tokens_between(rest, sep);
        assert(ts.drop_last().drop_first() =~= rest.drop_last());
        assert(ts.drop_last()[0] == ts[0]);
        assert(rest.last() == ts.last());
        assert(tokens_lua(ts.drop_last(), sep) == token_lua(ts[0]) + sep + tokens_lua(
            rest.drop_last(),
            sep,
        ));
        assert(tokens_lua(ts, sep) == token_lua(ts[0]) + sep + tokens_lua(rest, sep));
        assert((token_lua(ts[0]) + sep + (tokens_lua(rest.drop_last(), sep) + sep + token_lua(
            rest.last(),
        ))) =~= ((token_lua(ts[0]) + sep + tokens_lua(rest.drop_last(), sep)) + sep + token_lua(
            ts.last(),
        )));
    }
}

/// An indirect (`SRS`) identifier never renders; a direct identifier with a
/// renderable token always renders, as its bare name.
pub proof fn lemma_identifier(id: Identifier)
    ensures
        id.is_srs ==> !ident_ok(id),
        !id.is_srs && token_ok(id.name) ==> ident_ok(id) && ident_lua(id) == token_lua(id.name),
{
}

/// An indirect identifier in a variable-read position makes the expression
/// around it unrenderable.
pub proof fn lemma_indirect_read_fails(e: ASTExpression)
    ensures
        e matches ASTExpression::VariableAccess(a) && a.name.is_srs ==> !expr_ok(e),
{
}

/// A variable reference whose slot-access chain is non-empty never renders:
/// slot-chain resolution is not implemented, so such a reference fails
/// rather than silently dropping the chain.
pub proof fn lemma_slot_chain_fails(e: ASTExpression, n: ASTNode)
    ensures
        e matches ASTExpression::VariableAccess(a) && a.accesses@.len() > 0 ==> !expr_ok(e),
        n matches ASTNode::VariableAssignment(v) && v.identifier.accesses@.len() > 0 ==> !node_ok(
            n,
        ),
{
}

/// An indirect identifier in any name position makes the statement around
/// it unrenderable.
pub proof fn lemma_indirect_name_fails(n: ASTNode)
    ensures
        n matches ASTNode::IHasA(d) && d.identifier.is_srs ==> !node_ok(n),
        n matches ASTNode::BukkitSetSlot(b) && b.bukkit.is_srs ==> !node_ok(n),
        n matches ASTNode::VariableAssignment(a) && a.identifier.name.is_srs ==> !node_ok(n),
        n matches ASTNode::IIz(c) && c.name.is_srs ==> !node_ok(n),
        n matches ASTNode::HowIzI(f) && f.name.is_srs ==> !node_ok(n),
{
}

/// The four unsupported statement kinds never render.
pub proof fn lemma_unsupported_kinds_fail(n: ASTNode)
    ensures
        n is Wtf ==> !node_ok(n),
        n is ORly ==> !node_ok(n),
        n is Gimmeh ==> !node_ok(n),
        n is ASTError ==> !node_ok(n),
{
}

/// One unrenderable statement anywhere in a program makes the whole
/// program fail translation: `translate` then returns an error and emits
/// no text.
pub proof fn lemma_bad_statement_fails_program(b: ASTBlock, i: int)
    requires
        0 <= i < b.0@.len(),
        !node_ok(b.0@[i]),
    ensures
        !block_ok(b),
{
    lemma_nodes_ok_iff(b.0@);
}

/// An unsupported statement kind anywhere in a program makes the whole
/// program fail translation, so `translate` returns its error and no text
/// is emitted for any part of the program.
pub proof fn lemma_unsupported_kind_fails_program(b: ASTBlock, i: int)
    requires
        0 <= i < b.0@.len(),
        b.0@[i] is Wtf || b.0@[i] is ORly || b.0@[i] is Gimmeh || b.0@[i] is ASTError,
    ensures
        !block_ok(b),
{
    lemma_nodes_ok_iff(b.0@);
}

/// An indirect identifier in a statement's name position anywhere in a
/// program makes the whole program fail translation.
pub proof fn lemma_indirect_name_fails_program(b: ASTBlock, i: int)
    requires
        0 <= i < b.0@.len(),
        (b.0@[i] matches ASTNode::IHasA(d) && d.identifier.is_srs) || (b.0@[i]
            matches ASTNode::BukkitSetSlot(s) && s.bukkit.is_srs) || (b.0@[i]
            matches ASTNode::VariableAssignment(a) && a.identifier.name.is_srs) || (b.0@[i]
            matches ASTNode::IIz(c) && c.name.is_srs) || (b.0@[i] matches ASTNode::HowIzI(f)
            && f.name.is_srs),
    ensures
        !block_ok(b),
{
    lemma_nodes_ok_iff(b.0@);
}

} // verus!
