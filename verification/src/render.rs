//! The executable renderers. Each consumes its node and returns the Lua
//! text; the contract ties the result to the model in [`crate::model`].

use vstd::prelude::*;
use crate::ast::ASTBlock;
use crate::ast::ASTExpression;
use crate::ast::ASTNode;
use crate::ast::ASTType;
use crate::ast::BukkitSetSlot;
use crate::ast::HowIzI;
use crate::ast::IHasA;
use crate::ast::IHasAInitialValue;
use crate::ast::IIz;
use crate::ast::Identifier;
use crate::ast::ImInYr;
use crate::ast::LoopCondition;
use crate::ast::LoopIterationOperation;
use crate::ast::LoopOperation;
use crate::ast::Token;
use crate::ast::TokenValue;
use crate::ast::VariableAccess;
use crate::ast::VariableAssignment;
use crate::ast::Visible;
use crate::model::block_lua;
use crate::model::block_ok;
use crate::model::cond_lua;
use crate::model::cond_ok;
use crate::model::init_lua;
use crate::model::init_ok;
use crate::model::node_lua;
use crate::model::node_ok;
use crate::model::nodes_lua;
use crate::model::nodes_ok;
use crate::model::step_lua;
use crate::model::step_ok;
use crate::model::tokens_lua;
use crate::model::tokens_ok;
use crate::model::type_default_lua;
use crate::model::access_lua;
use crate::model::access_ok;
use crate::model::expr_lua;
use crate::model::expr_ok;
use crate::model::exprs_lua;
use crate::model::exprs_ok;
use crate::model::ident_lua;
use crate::model::ident_ok;
use crate::model::paren2;
use crate::model::token_lua;
use crate::model::token_ok;
use crate::model::value_lua;
use crate::num::int_string;

verus! {

/// Rendering to Lua text. Rendering consumes the value: a tree is translated
/// at most once.
pub trait ToLua: Sized {
    /// The exact Lua text this value renders to.
    spec fn lua(self) -> Seq<char>;

    /// Whether this value can be rendered at all.
    spec fn lua_ok(self) -> bool;

    /// Renders this value, producing exactly the text the model specifies.
    fn into_lua(self) -> (r: String)
        requires
            self.lua_ok(),
        ensures
            r@ == self.lua(),
    ;
}

impl ToLua for TokenValue {
    open spec fn lua(self) -> Seq<char> {
        value_lua(self)
    }

    open spec fn lua_ok(self) -> bool {
        true
    }

    fn into_lua(self) -> (r: String) {
        match self {
            TokenValue::Noob => String::from_str("NIL"),
            TokenValue::Str(s) => s,
            TokenValue::Int(i) => int_string(i),
            TokenValue::Float(t) => t,
            TokenValue::Boolean(b) => {
                if b {
                    String::from_str("true")
                } else {
                    String::from_str("false")
                }
            },
        }
    }
}

impl ToLua for Token {
    open spec fn lua(self) -> Seq<char> {
        token_lua(self)
    }

    open spec fn lua_ok(self) -> bool {
        token_ok(self)
    }

    fn into_lua(self) -> (r: String) {
        match self {
            Token::Comma => String::from_str(","),
            Token::Ellipsis => String::from_str("..."),
            Token::QuestionMark => String::from_str("?"),
            Token::ExclamationMark => String::from_str("!"),
            Token::CommentMultiLine(_) => String::new(),
            Token::CommentSingleLine(_) => String::new(),
            Token::Keyword(k) => k,
            Token::Identifier(name) => name,
            Token::Value(v) => v.into_lua(),
            Token::Symbol(s) => s,
            Token::BukkitSlotAccess => unreached(),
        }
    }
}

impl ToLua for Identifier {
    open spec fn lua(self) -> Seq<char> {
        ident_lua(self)
    }

    open spec fn lua_ok(self) -> bool {
        ident_ok(self)
    }

    fn into_lua(self) -> (r: String) {
        let Identifier { name, is_srs: _ } = self;
        name.into_lua()
    }
}

impl ToLua for VariableAccess {
    open spec fn lua(self) -> Seq<char> {
        access_lua(self)
    }

    open spec fn lua_ok(self) -> bool {
        access_ok(self)
    }

    fn into_lua(self) -> (r: String) {
        let VariableAccess { name, accesses: _ } = self;
        name.into_lua()
    }
}

/// `(<left><op><right>)` from the operands' already-rendered texts.
fn paren_join(left: String, op: &str, right: String) -> (r: String)
    ensures
        r@ == paren2(left@, op@, right@),
{
    let mut s = String::from_str("(");
    s.append(left.as_str());
    s.append(op);
    s.append(right.as_str());
    s.append(")");
    s
}

/// Renders one expression; the workhorse behind `ASTExpression::into_lua`.
fn render_expr(e: ASTExpression) -> (r: String)
    requires
        expr_ok(e),
    ensures
        r@ == expr_lua(e),
    decreases e,
{
    match e {
        ASTExpression::Not(x) => {
            let mut s = String::from_str("(not ");
            let inner = render_expr(*x);
            s.append(inner.as_str());
            s.append(")");
            s
        },
        ASTExpression::Maek(x, _) => render_expr(*x),
        ASTExpression::WonOf(a, b) => paren_join(render_expr(*a), " ~= ", render_expr(*b)),
        ASTExpression::AllOf(es) => {
            let mut s = String::from_str("(");
            let inner = render_exprs(es, " and ");
            s.append(inner.as_str());
            s.append(")");
            s
        },
        ASTExpression::AnyOf(es) => {
            let mut s = String::from_str("(");
            let inner = render_exprs(es, " or ");
            s.append(inner.as_str());
            s.append(")");
            s
        },
        ASTExpression::Smoosh(es) => {
            let mut s = String::from_str("(");
            let inner = render_exprs(es, " .. ");
            s.append(inner.as_str());
            s.append(")");
            s
        },
        ASTExpression::ModOf(a, b) => {
            let mut s = String::from_str("math.fmod(");
            let ra = render_expr(*a);
            s.append(ra.as_str());
            s.append(", ");
            let rb = render_expr(*b);
            s.append(rb.as_str());
            s.append(")");
            s
        },
        ASTExpression::BothOf(a, b) => paren_join(render_expr(*a), " and ", render_expr(*b)),
        ASTExpression::SumOf(a, b) => paren_join(render_expr(*a), " + ", render_expr(*b)),
        ASTExpression::DiffOf(a, b) => paren_join(render_expr(*a), " - ", render_expr(*b)),
        ASTExpression::ProduktOf(a, b) => paren_join(render_expr(*a), " * ", render_expr(*b)),
        ASTExpression::QuoshuntOf(a, b) => paren_join(render_expr(*a), " / ", render_expr(*b)),
        ASTExpression::BiggrOf(a, b) => paren_join(render_expr(*a), " > ", render_expr(*b)),
        ASTExpression::SmallrOf(a, b) => paren_join(render_expr(*a), " < ", render_expr(*b)),
        ASTExpression::EitherOf(a, b) => paren_join(render_expr(*a), " or ", render_expr(*b)),
        ASTExpression::BothSaem(a, b) => paren_join(render_expr(*a), " == ", render_expr(*b)),
        ASTExpression::Diffrint(a, b) => paren_join(render_expr(*a), " ~= ", render_expr(*b)),
        ASTExpression::VariableAccess(a) => a.into_lua(),
        ASTExpression::LiteralValue(t) => t.into_lua(),
    }
}

/// Renders a sequence of operand expressions with `sep` between adjacent
/// operands.
fn render_exprs(mut es: Vec<ASTExpression>, sep: &str) -> (r: String)
    requires
        exprs_ok(es@),
    ensures
        r@ == exprs_lua(es@, sep@),
    decreases es@,
{
    let ghost entry = es@;
    if es.len() == 0 {
        String::new()
    } else {
        let first = es.remove(0);
        proof {
            assert(entry.remove(0) =~= entry.drop_first());
            assert(decreases_to!(entry => first));
        }
        if es.len() == 0 {
            render_expr(first)
        } else {
            let mut s = render_expr(first);
            s.append(sep);
            let rest = render_exprs(es, sep);
            s.append(rest.as_str());
            proof {
                assert(s@ =~= exprs_lua(entry, sep@));
            }
            s
        }
    }
}

impl ToLua for ASTExpression {
    open spec fn lua(self) -> Seq<char> {
        expr_lua(self)
    }

    open spec fn lua_ok(self) -> bool {
        expr_ok(self)
    }

    fn into_lua(self) -> (r: String) {
        render_expr(self)
    }
}

/// The default value synthesized for a declared type.
fn render_default(t: ASTType) -> (r: String)
    ensures
        r@ == type_default_lua(t),
{
    match t {
        ASTType::Troof => String::from_str("false"),
        ASTType::Numbr => String::from_str("0"),
        ASTType::Noob => String::from_str("NIL"),
        ASTType::Numbar => String::from_str("0.0"),
        ASTType::Bukkit => String::from_str("{}"),
        ASTType::Yarn => String::from_str("\"\""),
    }
}

impl ToLua for IHasAInitialValue {
    open spec fn lua(self) -> Seq<char> {
        init_lua(self)
    }

    open spec fn lua_ok(self) -> bool {
        init_ok(self)
    }

    fn into_lua(self) -> (r: String) {
        match self {
            IHasAInitialValue::Type(t) => render_default(t),
            IHasAInitialValue::Expression(e) => render_expr(e),
        }
    }
}

/// Renders a loop guard: negation for `TIL`, the plain condition for `WILE`.
fn render_cond(c: LoopCondition) -> (r: String)
    requires
        cond_ok(c),
    ensures
        r@ == cond_lua(c),
{
    match c {
        LoopCondition::TIL(e) => {
            let mut s = String::from_str("(not ");
            let inner = render_expr(e);
            s.append(inner.as_str());
            s.append(")");
            s
        },
        LoopCondition::WILE(e) => render_expr(e),
    }
}

/// Renders a loop's per-iteration counter step.
fn render_step(step: LoopIterationOperation) -> (r: String)
    requires
        step_ok(step),
    ensures
        r@ == step_lua(step),
{
    let LoopIterationOperation { operation, operand } = step;
    let mut s = operand.into_lua();
    match operation {
        LoopOperation::UPPIN => s.append(" += 1"),
        LoopOperation::NERFIN => s.append(" -= 1"),
    }
    s
}

/// Renders a sequence of parameter tokens with `sep` between adjacent
/// tokens.
fn render_tokens(mut ts: Vec<Token>, sep: &str) -> (r: String)
    requires
        tokens_ok(ts@),
    ensures
        r@ == tokens_lua(ts@, sep@),
    decreases ts@,
{
    let ghost entry = ts@;
    if ts.len() == 0 {
        String::new()
    } else {
        let first = ts.remove(0);
        proof {
            assert(entry.remove(0) =~= entry.drop_first());
        }
        if ts.len() == 0 {
            first.into_lua()
        } else {
            let mut s = first.into_lua();
            s.append(sep);
            let rest = render_tokens(ts, sep);
            s.append(rest.as_str());
            proof {
                assert(s@ =~= tokens_lua(entry, sep@));
            }
            s
        }
    }
}

/// Renders one statement; the workhorse behind `ASTNode::into_lua`.
fn render_node(n: ASTNode) -> (r: String)
    requires
        node_ok(n),
    ensures
        r@ == node_lua(n),
    decreases n,
{
    let ghost orig = n;
    match n {
        ASTNode::HAI => String::new(),
        ASTNode::IHasA(d) => {
            let IHasA { identifier, initial_value } = d;
            let mut s = String::from_str("local ");
            let name = identifier.into_lua();
            s.append(name.as_str());
            match initial_value {
                None => s,
                Some(v) => {
                    s.append(" = ");
                    let rv = v.into_lua();
                    s.append(rv.as_str());
                    s
                },
            }
        },
        ASTNode::ImInYr(l) => {
            let ImInYr { on_iteration, condition, code_block } = l;
            let mut s = String::from_str("while ");
            match condition {
                Some(c) => {
                    let rc = render_cond(c);
                    s.append(rc.as_str());
                },
                None => {},
            }
            s.append(" do\n");
            let body = render_block(code_block);
            s.append(body.as_str());
            s.append("\n");
            match on_iteration {
                Some(step) => {
                    let rs = render_step(step);
                    s.append(rs.as_str());
                },
                None => {},
            }
            s.append("\nend");
            proof {
                assert(s@ =~= node_lua(orig));
            }
            s
        },
        ASTNode::BukkitSetSlot(b) => {
            let BukkitSetSlot { bukkit, slot_name, value } = b;
            let mut s = bukkit.into_lua();
            s.append("[");
            let key = slot_name.into_lua();
            s.append(key.as_str());
            s.append("] = ");
            let rv = render_expr(value);
            s.append(rv.as_str());
            s
        },
        ASTNode::VariableAssignment(a) => {
            let VariableAssignment { identifier, value } = a;
            let mut s = identifier.into_lua();
            s.append(" = ");
            let rv = render_expr(value);
            s.append(rv.as_str());
            s
        },
        ASTNode::Visible(v) => {
            let Visible(operands, no_newline) = v;
            let mut s = String::from_str("io.write(");
            let args = render_exprs(operands, ", ");
            s.append(args.as_str());
            match no_newline {
                Some(_) => {},
                None => s.append("\n"),
            }
            s.append(")");
            proof {
                assert(s@ =~= node_lua(orig));
            }
            s
        },
        ASTNode::FoundYr(e) => {
            let mut s = String::from_str("return ");
            let rv = render_expr(e);
            s.append(rv.as_str());
            s
        },
        ASTNode::Wtf => unreached(),
        ASTNode::ORly => unreached(),
        ASTNode::IIz(c) => {
            let IIz { name, arguments } = c;
            let mut s = name.into_lua();
            s.append("(");
            let args = render_exprs(arguments, ", ");
            s.append(args.as_str());
            s.append(")");
            s
        },
        ASTNode::HowIzI(f) => {
            let HowIzI { name, arguments, body } = f;
            let mut s = String::from_str("function ");
            let rn = name.into_lua();
            s.append(rn.as_str());
            s.append("(");
            let params = render_tokens(arguments, ", ");
            s.append(params.as_str());
            s.append(")\n");
            let rb = render_block(body);
            s.append(rb.as_str());
            s.append("\nend");
            proof {
                assert(s@ =~= node_lua(orig));
            }
            s
        },
        ASTNode::Gtfo => String::from_str("return nil"),
        ASTNode::Gimmeh => unreached(),
        ASTNode::Expression(e) => {
            let mut s = String::from_str("it = ");
            let rv = render_expr(e);
            s.append(rv.as_str());
            s
        },
        ASTNode::ASTError => unreached(),
        ASTNode::KTHXBYE => String::new(),
    }
}

/// Renders a sequence of statements with a line break between adjacent
/// statements.
fn render_nodes(mut ns: Vec<ASTNode>) -> (r: String)
    requires
        nodes_ok(ns@),
    ensures
        r@ == nodes_lua(ns@),
    decreases ns@,
{
    let ghost entry = ns@;
    if ns.len() == 0 {
        String::new()
    } else {
        let first = ns.remove(0);
        proof {
            assert(entry.remove(0) =~= entry.drop_first());
            assert(decreases_to!(entry => first));
        }
        if ns.len() == 0 {
            render_node(first)
        } else {
            let mut s = render_node(first);
            s.append("\n");
            let rest = render_nodes(ns);
            s.append(rest.as_str());
            proof {
                assert(s@ =~= nodes_lua(entry));
            }
            s
        }
    }
}

/// Renders a whole program body; the workhorse behind `ASTBlock::into_lua`.
fn render_block(b: ASTBlock) -> (r: String)
    requires
        block_ok(b),
    ensures
        r@ == block_lua(b),
    decreases b,
{
    let ASTBlock(nodes) = b;
    render_nodes(nodes)
}

impl ToLua for ASTNode {
    open spec fn lua(self) -> Seq<char> {
        node_lua(self)
    }

    open spec fn lua_ok(self) -> bool {
        node_ok(self)
    }

    fn into_lua(self) -> (r: String) {
        render_node(self)
    }
}

impl ToLua for ASTBlock {
    open spec fn lua(self) -> Seq<char> {
        block_lua(self)
    }

    open spec fn lua_ok(self) -> bool {
        block_ok(self)
    }

    fn into_lua(self) -> (r: String) {
        render_block(self)
    }
}

/// Whether a token has a textual form, decided without consuming it.
pub fn token_renderable(t: &Token) -> (r: bool)
    ensures
        r == token_ok(*t),
{
    match t {
        Token::BukkitSlotAccess => false,
        _ => true,
    }
}

/// Whether an identifier is a direct, renderable name.
pub fn ident_renderable(id: &Identifier) -> (r: bool)
    ensures
        r == ident_ok(*id),
{
    !id.is_srs && token_renderable(&id.name)
}

/// Whether a variable reference is renderable: a direct bare name with no
/// slot-access chain.
pub fn access_renderable(a: &VariableAccess) -> (r: bool)
    ensures
        r == access_ok(*a),
{
    ident_renderable(&a.name) && a.accesses.len() == 0
}

/// Whether an expression can be rendered, decided without consuming it.
pub fn expr_renderable(e: &ASTExpression) -> (r: bool)
    ensures
        r == expr_ok(*e),
    decreases *e,
{
    match e {
        ASTExpression::Not(x) => expr_renderable(&**x),
        ASTExpression::Maek(x, _) => expr_renderable(&**x),
        ASTExpression::WonOf(a, b) => expr_renderable(&**a) && expr_renderable(&**b),
        ASTExpression::AllOf(es) => exprs_renderable(es),
        ASTExpression::AnyOf(es) => exprs_renderable(es),
        ASTExpression::Smoosh(es) => exprs_renderable(es),
        ASTExpression::ModOf(a, b) => expr_renderable(&**a) && expr_renderable(&**b),
        ASTExpression::BothOf(a, b) => expr_renderable(&**a) && expr_renderable(&**b),
        ASTExpression::SumOf(a, b) => expr_renderable(&**a) && expr_renderable(&**b),
        ASTExpression::DiffOf(a, b) => expr_renderable(&**a) && expr_renderable(&**b),
        ASTExpression::ProduktOf(a, b) => expr_renderable(&**a) && expr_renderable(&**b),
        ASTExpression::QuoshuntOf(a, b) => expr_renderable(&**a) && expr_renderable(&**b),
        ASTExpression::BiggrOf(a, b) => expr_renderable(&**a) && expr_renderable(&**b),
        ASTExpression::SmallrOf(a, b) => expr_renderable(&**a) && expr_renderable(&**b),
        ASTExpression::EitherOf(a, b) => expr_renderable(&**a) && expr_renderable(&**b),
        ASTExpression::BothSaem(a, b) => expr_renderable(&**a) && expr_renderable(&**b),
        ASTExpression::Diffrint(a, b) => expr_renderable(&**a) && expr_renderable(&**b),
        ASTExpression::VariableAccess(a) => access_renderable(a),
        ASTExpression::LiteralValue(t) => token_renderable(t),
    }
}

/// Whether every expression of a vector can be rendered.
fn exprs_renderable(es: &Vec<ASTExpression>) -> (r: bool)
    ensures
        r == exprs_ok(es@),
    decreases es@,
{
    let n = es.len();
    let mut i: usize = 0;
    while i < n
        invariant
            n == es@.len(),
            i <= n,
            forall|j: int| 0 <= j < i ==> expr_ok(#[trigger] es@[j]),
        decreases n - i,
    {
        if !expr_renderable(&es[i]) {
            proof {
                crate::model::lemma_exprs_ok_iff(es@);
            }
            return false;
        }
        i += 1;
    }
    proof {
        crate::model::lemma_exprs_ok_iff(es@);
    }
    true
}

/// Whether every parameter token of a vector has a textual form.
fn tokens_renderable(ts: &Vec<Token>) -> (r: bool)
    ensures
        r == tokens_ok(ts@),
{
    let n = ts.len();
    let mut i: usize = 0;
    while i < n
        invariant
            n == ts@.len(),
            i <= n,
            forall|j: int| 0 <= j < i ==> token_ok(#[trigger] ts@[j]),
        decreases n - i,
    {
        if !token_renderable(&ts[i]) {
            proof {
                crate::model::lemma_tokens_ok_iff(ts@);
            }
            return false;
        }
        i += 1;
    }
    proof {
        crate::model::lemma_tokens_ok_iff(ts@);
    }
    true
}

/// Whether a statement can be rendered, decided without consuming it.
pub fn node_renderable(n: &ASTNode) -> (r: bool)
    ensures
        r == node_ok(*n),
    decreases *n,
{
    match n {
        ASTNode::HAI => true,
        ASTNode::IHasA(d) => ident_renderable(&d.identifier) && (match &d.initial_value {
            None => true,
            Some(IHasAInitialValue::Type(_)) => true,
            Some(IHasAInitialValue::Expression(e)) => expr_renderable(e),
        }),
        ASTNode::ImInYr(l) => (match &l.condition {
            None => true,
            Some(LoopCondition::TIL(e)) => expr_renderable(e),
            Some(LoopCondition::WILE(e)) => expr_renderable(e),
        }) && block_renderable(&l.code_block) && (match &l.on_iteration {
            None => true,
            Some(step) => ident_renderable(&step.operand),
        }),
        ASTNode::BukkitSetSlot(b) => ident_renderable(&b.bukkit) && token_renderable(&b.slot_name)
            && expr_renderable(&b.value),
        ASTNode::VariableAssignment(a) => access_renderable(&a.identifier) && expr_renderable(
            &a.value,
        ),
        ASTNode::Visible(v) => exprs_renderable(&v.0),
        ASTNode::FoundYr(e) => expr_renderable(e),
        ASTNode::Wtf => false,
        ASTNode::ORly => false,
        ASTNode::IIz(c) => ident_renderable(&c.name) && exprs_renderable(&c.arguments),
        ASTNode::HowIzI(f) => ident_renderable(&f.name) && tokens_renderable(&f.arguments)
            && block_renderable(&f.body),
        ASTNode::Gtfo => true,
        ASTNode::Gimmeh => false,
        ASTNode::Expression(e) => expr_renderable(e),
        ASTNode::ASTError => false,
        ASTNode::KTHXBYE => true,
    }
}

/// Whether a whole program body can be rendered, decided without consuming
/// it.
pub fn block_renderable(b: &ASTBlock) -> (r: bool)
    ensures
        r == block_ok(*b),
    decreases *b,
{
    let n = b.0.len();
    let mut i: usize = 0;
    while i < n
        invariant
            n == b.0@.len(),
            i <= n,
            forall|j: int| 0 <= j < i ==> node_ok(#[trigger] b.0@[j]),
        decreases n - i,
    {
        if !node_renderable(&b.0[i]) {
            proof {
                crate::model::lemma_nodes_ok_iff(b.0@);
            }
            return false;
        }
        i += 1;
    }
    proof {
        crate::model::lemma_nodes_ok_iff(b.0@);
    }
    true
}

/// Why a program was refused: it holds a construct whose Lua rendering is
/// deliberately not implemented, an indirect (`SRS`) identifier, or a
/// container-slot token with no textual form. No text is emitted for such a
/// program.
#[derive(Debug, Clone, Copy, PartialEq, Eq, Structural)]
pub enum TranslationError {
    UnsupportedConstruct,
}

/// Translates a whole program: returns the Lua text exactly when every
/// construct in the tree can be rendered, and an error otherwise, emitting
/// nothing.
pub fn translate(program: ASTBlock) -> (r: Result<String, TranslationError>)
    ensures
        r is Ok <==> block_ok(program),
        r is Ok ==> r->Ok_0@ == block_lua(program),
{
    if block_renderable(&program) {
        Ok(render_block(program))
    } else {
        Err(TranslationError::UnsupportedConstruct)
    }
}

} // verus!
