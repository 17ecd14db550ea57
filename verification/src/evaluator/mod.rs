//! The evaluator: a walk over a syntax tree that computes its value against
//! the variables of a session.
//!
//! [`evaluate_spec`] says what a tree is worth and what it does to the
//! variables; [`evaluate`] computes exactly that. What cannot be evaluated is
//! no error of the input's form but a [`RuntimeFault`], which ends the
//! evaluation.

pub mod binary_expression_evaluator;
pub mod unary_expression_evaluator;

use crate::evaluator::binary_expression_evaluator::apply_binary;
use crate::evaluator::unary_expression_evaluator::apply_unary;
use crate::syntax::{
    depth, ExpressionSyntax, ExpressionView, Keywords, LiteralToken, LiteralView, StatementSyntax,
    StatementView, SyntaxKind, SyntaxView, TokenView, Tokens,
};
use vstd::prelude::*;

verus! {

/// What an evaluation yields: a value, or a node that is still to be
/// evaluated.
#[derive(Debug, PartialEq)]
pub enum EvaluationResult {
    String(String),
    Char(char),
    Int(i64),
    /// A floating-point number, as the bit pattern of its binary64 value.
    Float(u64),
    Boolean(bool),
    Syntax(SyntaxKind),
    Null,
}

/// The view of an [`EvaluationResult`].
pub enum ResultView {
    String(Seq<char>),
    Char(char),
    Int(i64),
    Float(u64),
    Boolean(bool),
    Syntax(SyntaxView),
    Null,
}

/// The value of a variable.
#[derive(Debug, PartialEq)]
pub enum Types {
    String(String),
    Char(char),
    Int(i64),
    /// A floating-point number, as the bit pattern of its binary64 value.
    Float(u64),
    Boolean(bool),
    Null,
}

/// The view of a [`Types`] value.
pub enum ValueView {
    String(Seq<char>),
    Char(char),
    Int(i64),
    Float(u64),
    Boolean(bool),
    Null,
}

/// Why an evaluation ended without a value.
#[derive(Debug, PartialEq)]
pub enum RuntimeFault {
    /// A binary operator met operands that it is not defined on.
    InvalidOperands { operator: SyntaxKind, left: EvaluationResult, right: EvaluationResult },
    /// A unary operator met an operand that it is not defined on.
    InvalidOperand { operator: SyntaxKind, operand: EvaluationResult },
    /// The right operand of `/`, or of `%` between integers, is zero.
    DivisionByZero,
    /// The result of an operation on integers does not fit 64 bits.
    IntegerOverflow,
    /// No variable has the name.
    UndefinedVariable { name: String },
    /// What was to be stored in a variable is no value.
    InvalidValue { value: EvaluationResult },
    /// What stands where a variable's name belongs is no identifier.
    InvalidIdentifier { identifier: SyntaxKind },
    /// What a literal expression holds is neither a literal nor an
    /// identifier.
    InvalidLiteral { expression: SyntaxKind },
    /// The node is of a shape that has no value.
    UnsupportedSyntax { syntax: SyntaxKind },
}

/// The view of a [`RuntimeFault`].
pub enum FaultView {
    InvalidOperands { operator: SyntaxView, left: ResultView, right: ResultView },
    InvalidOperand { operator: SyntaxView, operand: ResultView },
    DivisionByZero,
    IntegerOverflow,
    UndefinedVariable { name: Seq<char> },
    InvalidValue { value: ResultView },
    InvalidIdentifier { identifier: SyntaxView },
    InvalidLiteral { expression: SyntaxView },
    UnsupportedSyntax { syntax: SyntaxView },
}

impl View for EvaluationResult {
    type V = ResultView;

    open spec fn view(&self) -> ResultView {
        match self {
            EvaluationResult::String(value) => ResultView::String(value@),
            EvaluationResult::Char(value) => ResultView::Char(*value),
            EvaluationResult::Int(value) => ResultView::Int(*value),
            EvaluationResult::Float(bits) => ResultView::Float(*bits),
            EvaluationResult::Boolean(value) => ResultView::Boolean(*value),
            EvaluationResult::Syntax(node) => ResultView::Syntax(node@),
            EvaluationResult::Null => ResultView::Null,
        }
    }
}

impl View for Types {
    type V = ValueView;

    open spec fn view(&self) -> ValueView {
        match self {
            Types::String(value) => ValueView::String(value@),
            Types::Char(value) => ValueView::Char(*value),
            Types::Int(value) => ValueView::Int(*value),
            Types::Float(bits) => ValueView::Float(*bits),
            Types::Boolean(value) => ValueView::Boolean(*value),
            Types::Null => ValueView::Null,
        }
    }
}

impl View for RuntimeFault {
    type V = FaultView;

    open spec fn view(&self) -> FaultView {
        match self {
            RuntimeFault::InvalidOperands { operator, left, right } => FaultView::InvalidOperands {
                operator: operator@,
                left: left@,
                right: right@,
            },
            RuntimeFault::InvalidOperand { operator, operand } => FaultView::InvalidOperand {
                operator: operator@,
                operand: operand@,
            },
            RuntimeFault::DivisionByZero => FaultView::DivisionByZero,
            RuntimeFault::IntegerOverflow => FaultView::IntegerOverflow,
            RuntimeFault::UndefinedVariable {
                name,
            } => FaultView::UndefinedVariable { name: name@ },
            RuntimeFault::InvalidValue { value } => FaultView::InvalidValue { value: value@ },
            RuntimeFault::InvalidIdentifier { identifier } => FaultView::InvalidIdentifier {
                identifier: identifier@,
            },
            RuntimeFault::InvalidLiteral { expression } => FaultView::InvalidLiteral {
                expression: expression@,
            },
            RuntimeFault::UnsupportedSyntax { syntax } => FaultView::UnsupportedSyntax {
                syntax: syntax@,
            },
        }
    }
}

impl Clone for EvaluationResult {
    fn clone(&self) -> (copy: Self)
        ensures
            copy@ == self@,
    {
        match self {
            Self::String(arg0) => Self::String(arg0.clone()),
            Self::Char(arg0) => Self::Char(*arg0),
            Self::Int(arg0) => Self::Int(*arg0),
            Self::Float(arg0) => Self::Float(*arg0),
            Self::Boolean(arg0) => Self::Boolean(*arg0),
            Self::Syntax(arg0) => Self::Syntax(arg0.clone()),
            Self::Null => Self::Null,
        }
    }
}

impl Clone for Types {
    fn clone(&self) -> (copy: Self)
        ensures
            copy@ == self@,
    {
        match self {
            Self::String(arg0) => Self::String(arg0.clone()),
            Self::Char(arg0) => Self::Char(*arg0),
            Self::Int(arg0) => Self::Int(*arg0),
            Self::Float(arg0) => Self::Float(*arg0),
            Self::Boolean(arg0) => Self::Boolean(*arg0),
            Self::Null => Self::Null,
        }
    }
}

/// The variables of a session as a sequence of names and values, oldest
/// first.
pub type Environment = Seq<(Seq<char>, ValueView)>;

/// The view of the variables.
pub open spec fn environment_view(variables: Seq<(String, Types)>) -> Environment {
    Seq::new(variables.len(), |i: int| (variables[i].0@, variables[i].1@))
}

/// The view of what an evaluation returns.
pub open spec fn returned(result: Result<EvaluationResult, RuntimeFault>) -> Result<
    ResultView,
    FaultView,
> {
    match result {
        Ok(value) => Ok(value@),
        Err(fault) => Err(fault@),
    }
}

/// The value of the first variable with the given name.
pub open spec fn lookup(variables: Environment, name: Seq<char>) -> Option<ValueView>
    decreases variables.len(),
{
    if variables.len() == 0 {
        None
    } else if variables[0].0 == name {
        Some(variables[0].1)
    } else {
        lookup(variables.drop_first(), name)
    }
}

/// The variables without those of the given name, in their order.
pub open spec fn without(variables: Environment, name: Seq<char>) -> Environment
    decreases variables.len(),
{
    if variables.len() == 0 {
        variables
    } else if variables.last().0 == name {
        without(variables.drop_last(), name)
    } else {
        without(variables.drop_last(), name).push(variables.last())
    }
}

/// How many variables have the given name.
pub open spec fn count(variables: Environment, name: Seq<char>) -> nat
    decreases variables.len(),
{
    if variables.len() == 0 {
        0
    } else if variables.last().0 == name {
        count(variables.drop_last(), name) + 1
    } else {
        count(variables.drop_last(), name)
    }
}

/// The variables after a declaration: one more at the end, whatever was
/// there.
pub open spec fn declared(
    variables: Environment,
    name: Seq<char>,
    value: ValueView,
) -> Environment {
    variables.push((name, value))
}

/// The variables after an assignment: those of the name are gone, and one
/// with the new value stands at the end.
pub open spec fn assigned(
    variables: Environment,
    name: Seq<char>,
    value: ValueView,
) -> Environment {
    without(variables, name).push((name, value))
}

/// The value that a result can be stored as. A node has none.
pub open spec fn stored(result: ResultView) -> Option<ValueView> {
    match result {
        ResultView::String(value) => Some(ValueView::String(value)),
        ResultView::Char(value) => Some(ValueView::Char(value)),
        ResultView::Int(value) => Some(ValueView::Int(value)),
        ResultView::Float(bits) => Some(ValueView::Float(bits)),
        ResultView::Boolean(value) => Some(ValueView::Boolean(value)),
        ResultView::Null => Some(ValueView::Null),
        ResultView::Syntax(_) => None,
    }
}

/// The result that a stored value gives back.
pub open spec fn loaded(value: ValueView) -> ResultView {
    match value {
        ValueView::String(value) => ResultView::String(value),
        ValueView::Char(value) => ResultView::Char(value),
        ValueView::Int(value) => ResultView::Int(value),
        ValueView::Float(bits) => ResultView::Float(bits),
        ValueView::Boolean(value) => ResultView::Boolean(value),
        ValueView::Null => ResultView::Null,
    }
}

/// The result that a literal stands for.
pub open spec fn literal_result(literal: LiteralView) -> ResultView {
    match literal {
        LiteralView::Int { value } => ResultView::Int(value),
        LiteralView::Float { bits } => ResultView::Float(bits),
        LiteralView::String { value } => ResultView::String(value),
        LiteralView::Char { value } => ResultView::Char(value),
        LiteralView::Bool { value } => ResultView::Boolean(value),
        LiteralView::Null => ResultView::Null,
    }
}

/// What an evaluation comes to: its result, and the variables behind it.
pub struct Outcome {
    pub result: Result<ResultView, FaultView>,
    pub variables: Environment,
}

/// What a literal expression is worth: a literal its value, an identifier
/// the value of the first variable of that name, and the keywords `true`,
/// `false` and `null` what they say.
pub open spec fn literal_spec(expression: SyntaxView, variables: Environment) -> Result<
    ResultView,
    FaultView,
> {
    match expression {
        SyntaxView::Token(TokenView::LiteralToken { value }) => Ok(literal_result(value)),
        SyntaxView::Token(TokenView::IdentifierToken { value }) => match lookup(variables, value) {
            Some(found) => Ok(loaded(found)),
            None => Err(FaultView::UndefinedVariable { name: value }),
        },
        SyntaxView::Keyword(Keywords::TrueKeyword) => Ok(ResultView::Boolean(true)),
        SyntaxView::Keyword(Keywords::FalseKeyword) => Ok(ResultView::Boolean(false)),
        SyntaxView::Keyword(Keywords::NullKeyword) => Ok(ResultView::Null),
        _ => Err(FaultView::InvalidLiteral { expression }),
    }
}

/// What storing a result under an identifier comes to. With `replace` the
/// variables of that name go first, as an assignment asks; without it they
/// stay, as a declaration asks. Either way the result is null.
pub open spec fn store_spec(
    identifier: SyntaxView,
    value: ResultView,
    variables: Environment,
    replace: bool,
) -> Outcome {
    match identifier {
        SyntaxView::Token(TokenView::IdentifierToken { value: name }) => match stored(value) {
            Some(kept) => Outcome {
                result: Ok(ResultView::Null),
                variables: if replace {
                    assigned(variables, name, kept)
                } else {
                    declared(variables, name, kept)
                },
            },
            None => Outcome { result: Err(FaultView::InvalidValue { value }), variables },
        },
        _ => Outcome { result: Err(FaultView::InvalidIdentifier { identifier }), variables },
    }
}

/// What a tree is worth, and what evaluating it leaves of the variables.
///
/// - A binary expression evaluates its left operand, then its right one, and
///   applies the operator to the two results.
/// - A unary expression evaluates its operand and applies the operator.
/// - A parenthesized expression is worth what is inside.
/// - A literal expression is worth its literal, or its variable.
/// - A declaration evaluates its expression and adds a variable.
/// - An assignment evaluates its expression and replaces the variables of the
///   name by one.
/// - Every other shape is a fault.
///
/// The first fault ends the evaluation; the variables are then as they were
/// when it came.
pub open spec fn evaluate_spec(syntax: SyntaxView, variables: Environment) -> Outcome
    decreases syntax,
{
    match syntax {
        SyntaxView::Expression(
            ExpressionView::BinaryExpressionSyntax { left, operator, right },
        ) => {
            let first = evaluate_spec(*left, variables);
            match first.result {
                Err(_) => first,
                Ok(left_value) => {
                    let second = evaluate_spec(*right, first.variables);
                    match second.result {
                        Err(_) => second,
                        Ok(right_value) => Outcome {
                            result: apply_binary(*operator, left_value, right_value),
                            variables: second.variables,
                        },
                    }
                },
            }
        },
        SyntaxView::Expression(ExpressionView::UnaryExpressionSyntax { operator, operand }) => {
            let inner = evaluate_spec(*operand, variables);
            match inner.result {
                Err(_) => inner,
                Ok(value) => Outcome {
                    result: apply_unary(*operator, value),
                    variables: inner.variables,
                },
            }
        },
        SyntaxView::Expression(
            ExpressionView::ParenthesizedExpressionSyntax { expression, .. },
        ) => evaluate_spec(*expression, variables),
        SyntaxView::Expression(ExpressionView::LiteralExpressionSyntax { expression }) => Outcome {
            result: literal_spec(*expression, variables),
            variables,
        },
        SyntaxView::Statement(
            StatementView::VariableDeclarationStatementSyntax { identifier, expression, .. },
        ) => {
            let inner = evaluate_spec(*expression, variables);
            match inner.result {
                Err(_) => inner,
                Ok(value) => store_spec(*identifier, value, inner.variables, false),
            }
        },
        SyntaxView::Statement(
            StatementView::VariableAssignmentStatementSyntax { identifier, expression, .. },
        ) => {
            let inner = evaluate_spec(*expression, variables);
            match inner.result {
                Err(_) => inner,
                Ok(value) => store_spec(*identifier, value, inner.variables, true),
            }
        },
        _ => Outcome { result: Err(FaultView::UnsupportedSyntax { syntax }), variables },
    }
}

/// The value of the first variable with the given name.
fn find(variables: &Vec<(String, Types)>, name: &String) -> (found: Option<Types>)
    ensures
        match found {
            Some(value) => lookup(environment_view(variables@), name@) == Some(value@),
            None => lookup(environment_view(variables@), name@) is None,
        },
{
    let ghost all = environment_view(variables@);
    let mut index: usize = 0;
    proof {
        assert(all.skip(0) =~= all);
    }
    while index < variables.len()
        invariant
            index <= variables.len(),
            all == environment_view(variables@),
            lookup(all, name@) == lookup(all.skip(index as int), name@),
        decreases variables.len() - index,
    {
        let entry = &variables[index];
        proof {
            assert(all.skip(index as int)[0] == all[index as int]);
            assert(all.skip(index as int).drop_first() =~= all.skip(index + 1));
        }
        if entry.0 == *name {
            return Some(entry.1.clone());
        }
        index += 1;
    }
    None
}

/// The variables without those of the given name, in their order.
fn remove_named(variables: &Vec<(String, Types)>, name: &String) -> (kept: Vec<(String, Types)>)
    ensures
        environment_view(kept@) == without(environment_view(variables@), name@),
{
    let ghost all = environment_view(variables@);
    let mut kept: Vec<(String, Types)> = Vec::new();
    let mut index: usize = 0;
    proof {
        assert(environment_view(kept@) =~= without(all.take(0), name@));
    }
    while index < variables.len()
        invariant
            index <= variables.len(),
            all == environment_view(variables@),
            environment_view(kept@) == without(all.take(index as int), name@),
        decreases variables.len() - index,
    {
        let entry = &variables[index];
        let ghost before = environment_view(kept@);
        proof {
            assert(all.take(index + 1).drop_last() =~= all.take(index as int));
            assert(all.take(index + 1).last() == all[index as int]);
        }
        if !(entry.0 == *name) {
            kept.push((entry.0.clone(), entry.1.clone()));
            proof {
                assert(environment_view(kept@) =~= before.push(all[index as int]));
            }
        }
        index += 1;
    }
    proof {
        assert(all.take(variables.len() as int) =~= all);
    }
    kept
}

/// The value that a result is stored as; a node is handed back.
fn to_value(result: EvaluationResult) -> (value: Result<Types, EvaluationResult>)
    ensures
        match value {
            Ok(kept) => stored(result@) == Some(kept@),
            Err(refused) => stored(result@) is None && refused@ == result@,
        },
{
    match result {
        EvaluationResult::String(s) => Ok(Types::String(s)),
        EvaluationResult::Int(s) => Ok(Types::Int(s)),
        EvaluationResult::Float(s) => Ok(Types::Float(s)),
        EvaluationResult::Char(s) => Ok(Types::Char(s)),
        EvaluationResult::Boolean(s) => Ok(Types::Boolean(s)),
        EvaluationResult::Null => Ok(Types::Null),
        EvaluationResult::Syntax(node) => Err(EvaluationResult::Syntax(node)),
    }
}

/// The result that a stored value gives back.
fn to_result(value: Types) -> (result: EvaluationResult)
    ensures
        result@ == loaded(value@),
{
    match value {
        Types::String(s) => EvaluationResult::String(s),
        Types::Int(s) => EvaluationResult::Int(s),
        Types::Float(s) => EvaluationResult::Float(s),
        Types::Char(s) => EvaluationResult::Char(s),
        Types::Boolean(s) => EvaluationResult::Boolean(s),
        Types::Null => EvaluationResult::Null,
    }
}

/// The result that a literal stands for.
fn literal_value(literal: LiteralToken) -> (result: EvaluationResult)
    ensures
        result@ == literal_result(literal@),
{
    match literal {
        LiteralToken::Int { value } => EvaluationResult::Int(value),
        LiteralToken::Float { bits } => EvaluationResult::Float(bits),
        LiteralToken::String { value } => EvaluationResult::String(value),
        LiteralToken::Char { value } => EvaluationResult::Char(value),
        LiteralToken::Bool { value } => EvaluationResult::Boolean(value),
        LiteralToken::Null => EvaluationResult::Null,
    }
}

/// What a literal expression is worth.
fn evaluate_literal(expression: SyntaxKind, variables: &Vec<(String, Types)>) -> (result: Result<
    EvaluationResult,
    RuntimeFault,
>)
    ensures
        returned(result) == literal_spec(expression@, environment_view(variables@)),
{
    match expression {
        SyntaxKind::Token(Tokens::LiteralToken { value }) => Ok(literal_value(value)),
        SyntaxKind::Token(Tokens::IdentifierToken { value }) => match find(variables, &value) {
            Some(found) => Ok(to_result(found)),
            None => Err(RuntimeFault::UndefinedVariable { name: value }),
        },
        SyntaxKind::Keyword(Keywords::TrueKeyword) => Ok(EvaluationResult::Boolean(true)),
        SyntaxKind::Keyword(Keywords::FalseKeyword) => Ok(EvaluationResult::Boolean(false)),
        SyntaxKind::Keyword(Keywords::NullKeyword) => Ok(EvaluationResult::Null),
        other => Err(RuntimeFault::InvalidLiteral { expression: other }),
    }
}

/// Stores a result under an identifier: as one more variable, or with
/// `replace` in place of the variables of that name. What is no identifier
/// and what is no value are faults, and nothing is stored then.
pub fn store(
    identifier: SyntaxKind,
    value: EvaluationResult,
    variables: &mut Vec<(String, Types)>,
    replace: bool,
) -> (result: Result<EvaluationResult, RuntimeFault>)
    ensures
        ({
            let outcome = store_spec(
                identifier@,
                value@,
                environment_view(old(variables)@),
                replace,
            );
            &&& returned(result) == outcome.result
            &&& environment_view(final(variables)@) == outcome.variables
        }),
{
    match identifier {
        SyntaxKind::Token(Tokens::IdentifierToken { value: name }) => {
            let kept = match to_value(value) {
                Ok(kept) => kept,
                Err(refused) => {
                    return Err(RuntimeFault::InvalidValue { value: refused });
                },
            };
            if replace {
                let mut filtered_variables = remove_named(variables, &name);
                let ghost before = environment_view(filtered_variables@);
                filtered_variables.push((name, kept));
                proof {
                    assert(environment_view(filtered_variables@) =~= before.push(
                        (name@, kept@),
                    ));
                }
                *variables = filtered_variables;
            } else {
                let ghost before = environment_view(variables@);
                variables.push((name, kept));
                proof {
                    assert(environment_view(variables@) =~= before.push((name@, kept@)));
                }
            }
            Ok(EvaluationResult::Null)
        },
        other => Err(RuntimeFault::InvalidIdentifier { identifier: other }),
    }
}

/// Evaluates a tree against the variables.
///
/// The result is the tree's value, or the first fault; the variables are
/// changed by the declarations and assignments that were evaluated before
/// either came. A value is never a node that is still to be evaluated.
pub fn evaluate(syntax: SyntaxKind, variables: &mut Vec<(String, Types)>) -> (result: Result<
    EvaluationResult,
    RuntimeFault,
>)
    ensures
        ({
            let outcome = evaluate_spec(syntax@, environment_view(old(variables)@));
            &&& returned(result) == outcome.result
            &&& environment_view(final(variables)@) == outcome.variables
        }),
        result matches Ok(value) ==> !(value@ is Syntax),
    decreases depth(syntax@), 0nat,
{
    proof {
        lemma_never_deferred(syntax@, environment_view(variables@));
    }
    match syntax {
        SyntaxKind::Expression(
            ExpressionSyntax::BinaryExpressionSyntax { left, operator, right },
        ) => {
            binary_expression_evaluator::evaluate(*left, *right, *operator, variables)
        },
        SyntaxKind::Statement(
            StatementSyntax::VariableAssignmentStatementSyntax {
                identifier,
                equals_token: _,
                expression,
            },
        ) => {
            let value = evaluate(*expression, variables)?;
            store(*identifier, value, variables, true)
        },
        SyntaxKind::Statement(
            StatementSyntax::VariableDeclarationStatementSyntax {
                keyword: _,
                identifier,
                equals_token: _,
                expression,
                semicolon: _,
            },
        ) => {
            let value = evaluate(*expression, variables)?;
            store(*identifier, value, variables, false)
        },
        SyntaxKind::Expression(ExpressionSyntax::LiteralExpressionSyntax { expression }) => {
            evaluate_literal(*expression, variables)
        },
        SyntaxKind::Expression(
            ExpressionSyntax::ParenthesizedExpressionSyntax {
                open_parenthesis_token: _,
                close_parenthesis_token: _,
                expression,
            },
        ) => evaluate(*expression, variables),
        SyntaxKind::Expression(ExpressionSyntax::UnaryExpressionSyntax { operator, operand }) => {
            unary_expression_evaluator::evaluate(*operator, *operand, variables)
        },
        other => Err(RuntimeFault::UnsupportedSyntax { syntax: other }),
    }
}

/// What forcing a result comes to: a value stays as it is, and a node that
/// is still to be evaluated is evaluated.
pub open spec fn force_spec(result: ResultView, variables: Environment) -> Outcome {
    match result {
        ResultView::Syntax(node) => evaluate_spec(node, variables),
        value => Outcome { result: Ok(value), variables },
    }
}

/// Forces a result to a value. Where the result is a node that is still to
/// be evaluated, it is evaluated; one evaluation is enough, as none gives
/// such a node.
pub fn force(result: EvaluationResult, variables: &mut Vec<(String, Types)>) -> (forced: Result<
    EvaluationResult,
    RuntimeFault,
>)
    ensures
        ({
            let outcome = force_spec(result@, environment_view(old(variables)@));
            &&& returned(forced) == outcome.result
            &&& environment_view(final(variables)@) == outcome.variables
        }),
        forced matches Ok(value) ==> !(value@ is Syntax),
{
    match result {
        EvaluationResult::Syntax(node) => evaluate(node, variables),
        value => Ok(value),
    }
}

/// No operator gives a node that is still to be evaluated.
pub proof fn lemma_operators_never_defer(operator: SyntaxView, left: ResultView, right: ResultView)
    ensures
        apply_binary(operator, left, right) matches Ok(value) ==> !(value is Syntax),
        apply_unary(operator, left) matches Ok(value) ==> !(value is Syntax),
{
}

/// No evaluation gives a node that is still to be evaluated: a value is a
/// string, a character, a number, a boolean or null.
pub proof fn lemma_never_deferred(syntax: SyntaxView, variables: Environment)
    ensures
        evaluate_spec(syntax, variables).result matches Ok(value) ==> !(value is Syntax),
    decreases syntax,
{
    match syntax {
        SyntaxView::Expression(
            ExpressionView::BinaryExpressionSyntax { left, operator, right },
        ) => {
            let first = evaluate_spec(*left, variables);
            lemma_never_deferred(*left, variables);
            lemma_never_deferred(*right, first.variables);
            if let Ok(left_value) = first.result {
                let second = evaluate_spec(*right, first.variables);
                if let Ok(right_value) = second.result {
                    lemma_operators_never_defer(*operator, left_value, right_value);
                }
            }
        },
        SyntaxView::Expression(ExpressionView::UnaryExpressionSyntax { operator, operand }) => {
            lemma_never_deferred(*operand, variables);
            let inner = evaluate_spec(*operand, variables);
            if let Ok(value) = inner.result {
                lemma_operators_never_defer(*operator, value, value);
            }
        },
        SyntaxView::Expression(
            ExpressionView::ParenthesizedExpressionSyntax { expression, .. },
        ) => {
            lemma_never_deferred(*expression, variables);
        },
        SyntaxView::Statement(
            StatementView::VariableDeclarationStatementSyntax { expression, .. },
        ) => {
            lemma_never_deferred(*expression, variables);
        },
        SyntaxView::Statement(
            StatementView::VariableAssignmentStatementSyntax { expression, .. },
        ) => {
            lemma_never_deferred(*expression, variables);
        },
        _ => {},
    }
}

/// Forcing what an evaluation gave changes nothing: the result is a value
/// already, and the variables stay.
pub proof fn lemma_forcing_changes_nothing(syntax: SyntaxView, variables: Environment)
    ensures
        ({
            let outcome = evaluate_spec(syntax, variables);
            outcome.result matches Ok(value) ==> force_spec(value, outcome.variables) == outcome
        }),
{
    lemma_never_deferred(syntax, variables);
}

/// Looking a name up behind one more variable: what was found before is
/// still found, and the new variable is found where nothing was.
pub proof fn lemma_lookup_push(
    variables: Environment,
    entry: (Seq<char>, ValueView),
    name: Seq<char>,
)
    ensures
        lookup(variables.push(entry), name) == match lookup(variables, name) {
            Some(found) => Some(found),
            None => if entry.0 == name {
                Some(entry.1)
            } else {
                None
            },
        },
    decreases variables.len(),
{
    let longer = variables.push(entry);
    if variables.len() == 0 {
        assert(longer.drop_first() =~= variables);
    } else {
        assert(longer[0] == variables[0]);
        assert(longer.drop_first() =~= variables.drop_first().push(entry));
        lemma_lookup_push(variables.drop_first(), entry, name);
    }
}

/// Without the variables of a name, no variable has that name, and the name
/// is not found.
pub proof fn lemma_without_leaves_none(variables: Environment, name: Seq<char>)
    ensures
        count(without(variables, name), name) == 0,
        lookup(without(variables, name), name) is None,
    decreases variables.len(),
{
    if variables.len() > 0 {
        let front = variables.drop_last();
        lemma_without_leaves_none(front, name);
        if variables.last().0 != name {
            let kept = without(front, name);
            assert(kept.push(variables.last()).drop_last() =~= kept);
            lemma_lookup_push(kept, variables.last(), name);
        }
    }
}

/// After an assignment exactly one variable has the name, and the name is
/// found with the new value.
pub proof fn lemma_assigned_is_single(variables: Environment, name: Seq<char>, value: ValueView)
    ensures
        count(assigned(variables, name, value), name) == 1,
        lookup(assigned(variables, name, value), name) == Some(value),
{
    let kept = without(variables, name);
    lemma_without_leaves_none(variables, name);
    assert(kept.push((name, value)).drop_last() =~= kept);
    lemma_lookup_push(kept, (name, value), name);
}

/// Declaring a variable and then assigning to it leaves exactly one variable
/// of that name, whatever was there before, and it holds the second value.
pub proof fn lemma_declared_then_assigned(
    variables: Environment,
    name: Seq<char>,
    first: ResultView,
    second: ResultView,
)
    requires
        stored(first) is Some,
        stored(second) is Some,
    ensures
        ({
            let identifier = SyntaxView::Token(TokenView::IdentifierToken { value: name });
            let declaration = store_spec(identifier, first, variables, false);
            let assignment = store_spec(identifier, second, declaration.variables, true);
            &&& declaration.result == Ok::<ResultView, FaultView>(ResultView::Null)
            &&& assignment.result == Ok::<ResultView, FaultView>(ResultView::Null)
            &&& count(assignment.variables, name) == 1
            &&& lookup(assignment.variables, name) == stored(second)
        }),
{
    lemma_assigned_is_single(
        declared(variables, name, stored(first)->Some_0),
        name,
        stored(second)->Some_0,
    );
}

/// The declaration of a name with the given expression.
pub open spec fn declaration_node(name: Seq<char>, expression: SyntaxView) -> SyntaxView {
    SyntaxView::Statement(
        StatementView::VariableDeclarationStatementSyntax {
            keyword: Box::new(SyntaxView::Keyword(Keywords::LetKeyword)),
            identifier: Box::new(SyntaxView::Token(TokenView::IdentifierToken { value: name })),
            equals_token: Box::new(SyntaxView::Token(TokenView::EqualsToken)),
            expression: Box::new(expression),
            semicolon: Box::new(SyntaxView::Token(TokenView::SemiColonToken)),
        },
    )
}

/// The expression that stands for the variable of a name.
pub open spec fn variable_node(name: Seq<char>) -> SyntaxView {
    SyntaxView::Expression(
        ExpressionView::LiteralExpressionSyntax {
            expression: Box::new(SyntaxView::Token(TokenView::IdentifierToken { value: name })),
        },
    )
}

/// Declaring a name and then evaluating it gives what the declared
/// expression was worth, where no variable had the name when it was
/// declared, and the look-up leaves the variables as the declaration left
/// them.
pub proof fn lemma_declaration_is_found(
    name: Seq<char>,
    expression: SyntaxView,
    variables: Environment,
)
    requires
        evaluate_spec(expression, variables).result is Ok,
        lookup(evaluate_spec(expression, variables).variables, name) is None,
    ensures
        ({
            let worth = evaluate_spec(expression, variables);
            let declaration = evaluate_spec(declaration_node(name, expression), variables);
            let found = evaluate_spec(variable_node(name), declaration.variables);
            &&& declaration.result == Ok::<ResultView, FaultView>(ResultView::Null)
            &&& found.result == worth.result
            &&& found.variables == declaration.variables
        }),
{
    let worth = evaluate_spec(expression, variables);
    lemma_never_deferred(expression, variables);
    let value = worth.result->Ok_0;
    lemma_declared_is_found(worth.variables, name, stored(value)->Some_0);
}

/// A declaration followed by a look-up gives the declared value back, where
/// no older variable has the name.
pub proof fn lemma_declared_is_found(variables: Environment, name: Seq<char>, value: ValueView)
    requires
        lookup(variables, name) is None,
    ensures
        lookup(declared(variables, name, value), name) == Some(value),
{
    lemma_lookup_push(variables, (name, value), name);
}

} // verus!
