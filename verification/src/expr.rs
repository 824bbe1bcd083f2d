//! Value expressions: what may stand behind the `=` of an entry, and how
//! such an expression is evaluated against the entries declared before it.

use crate::lookup::{position, scan_ends, scan_finds, scan_passes};
use crate::text::{decimal, decimal_text};
use crate::underlying::IntType;
use vstd::prelude::*;
use vstd::string::*;

verus! {

/// An expression for the value of an entry.
#[derive(Debug)]
pub enum ValueExpr {
    /// An integer literal.
    Literal(i128),
    /// The stored value of the entry with this label.
    Stored(String),
    /// The sum of two expressions.
    Sum(Box<ValueExpr>, Box<ValueExpr>),
    /// Source text that is written out as it stands and never evaluated.
    Verbatim(String),
}

/// The mathematical content of a [`ValueExpr`].
pub enum ExprView {
    Literal(int),
    Stored(Seq<char>),
    Sum(Box<ExprView>, Box<ExprView>),
    Verbatim(Seq<char>),
}

impl View for ValueExpr {
    type V = ExprView;

    open spec fn view(&self) -> ExprView
        decreases self,
    {
        match self {
            ValueExpr::Literal(v) => ExprView::Literal(*v as int),
            ValueExpr::Stored(label) => ExprView::Stored(label@),
            ValueExpr::Sum(a, b) => ExprView::Sum(Box::new((**a).view()), Box::new((**b).view())),
            ValueExpr::Verbatim(source) => ExprView::Verbatim(source@),
        }
    }
}

/// A label bound to its resolved value.
#[derive(Debug)]
pub struct Binding {
    pub label: String,
    pub value: i128,
}

/// The mathematical content of a [`Binding`].
pub struct BindingView {
    pub label: Seq<char>,
    pub value: int,
}

impl View for Binding {
    type V = BindingView;

    open spec fn view(&self) -> BindingView {
        BindingView { label: self.label@, value: self.value as int }
    }
}

/// The views of a list of bindings.
pub open spec fn bindings(env: Seq<Binding>) -> Seq<BindingView> {
    Seq::new(env.len(), |i: int| env[i]@)
}

/// The labels of a list of bindings, in order.
pub open spec fn labels(env: Seq<BindingView>) -> Seq<Seq<char>> {
    Seq::new(env.len(), |i: int| env[i].label)
}

/// The values of a list of bindings, in order.
pub open spec fn values(env: Seq<BindingView>) -> Seq<int> {
    Seq::new(env.len(), |i: int| env[i].value)
}

/// Why an expression has no value.
#[derive(Clone, Copy, PartialEq, Eq, Structural, Debug)]
pub enum EvalError {
    /// It names a label that no earlier entry declares.
    UndefinedName,
    /// A literal or a sum lies outside the underlying type.
    OutOfRange,
    /// It holds source text that the library does not evaluate.
    NotEvaluated,
}

/// The value of `e` in the underlying type `ty`, where `env` holds the
/// entries declared so far. Every literal and every sum must be a value of
/// `ty`; of two failing operands the left one is reported.
pub open spec fn eval_spec(e: ExprView, ty: IntType, env: Seq<BindingView>) -> Result<
    int,
    EvalError,
>
    decreases e,
{
    match e {
        ExprView::Literal(v) => if ty.holds(v) {
            Ok(v)
        } else {
            Err(EvalError::OutOfRange)
        },
        ExprView::Stored(label) => match position(labels(env), label) {
            Some(i) => Ok(env[i].value),
            None => Err(EvalError::UndefinedName),
        },
        ExprView::Sum(a, b) => match eval_spec(*a, ty, env) {
            Err(e) => Err(e),
            Ok(x) => match eval_spec(*b, ty, env) {
                Err(e) => Err(e),
                Ok(y) => if ty.holds(x + y) {
                    Ok(x + y)
                } else {
                    Err(EvalError::OutOfRange)
                },
            },
        },
        ExprView::Verbatim(_) => Err(EvalError::NotEvaluated),
    }
}

/// The source text of an expression. The right operand of a sum stands in
/// parentheses where it is a sum itself, so that the text groups as the
/// expression does.
pub open spec fn expr_text(e: ExprView) -> Seq<char>
    decreases e,
{
    match e {
        ExprView::Literal(v) => decimal_text(v),
        ExprView::Stored(label) => "Self::"@ + label + ".0"@,
        ExprView::Sum(a, b) => if *b is Sum {
            expr_text(*a) + " + ("@ + expr_text(*b) + ")"@
        } else {
            expr_text(*a) + " + "@ + expr_text(*b)
        },
        ExprView::Verbatim(source) => source,
    }
}

/// Finds the first binding with the given label.
pub fn find_label(env: &Vec<Binding>, label: &String) -> (r: Option<usize>)
    ensures
        match r {
            Some(i) => i < env.len() && position(labels(bindings(env@)), label@) == Some(i as int),
            None => position(labels(bindings(env@)), label@) is None,
        },
{
    let ghost all = labels(bindings(env@));
    let mut i: usize = 0;
    while i < env.len()
        invariant
            i <= env.len(),
            all == labels(bindings(env@)),
            position(all.take(i as int), label@) is None,
        decreases env.len() - i,
    {
        if env[i].label == *label {
            proof {
                scan_finds(all, label@, i as int);
            }
            return Some(i);
        }
        proof {
            scan_passes(all, label@, i as int);
        }
        i += 1;
    }
    proof {
        scan_ends(all, label@);
    }
    None
}

impl ValueExpr {
    /// Evaluates the expression in `ty` against the entries declared so far.
    pub fn eval(&self, ty: IntType, env: &Vec<Binding>) -> (r: Result<i128, EvalError>)
        ensures
            match r {
                Ok(v) => eval_spec(self@, ty, bindings(env@)) == Ok::<int, EvalError>(v as int),
                Err(e) => eval_spec(self@, ty, bindings(env@)) == Err::<int, EvalError>(e),
            },
        decreases self,
    {
        proof {
            ty.range_fits();
        }
        match self {
            ValueExpr::Literal(v) => {
                if ty.contains(*v) {
                    Ok(*v)
                } else {
                    Err(EvalError::OutOfRange)
                }
            },
            ValueExpr::Stored(label) => {
                match find_label(env, label) {
                    Some(i) => Ok(env[i].value),
                    None => Err(EvalError::UndefinedName),
                }
            },
            ValueExpr::Sum(a, b) => {
                let x = match a.eval(ty, env) {
                    Ok(x) => x,
                    Err(e) => {
                        return Err(e);
                    },
                };
                let y = match b.eval(ty, env) {
                    Ok(y) => y,
                    Err(e) => {
                        return Err(e);
                    },
                };
                match x.checked_add(y) {
                    Some(sum) => {
                        if ty.contains(sum) {
                            Ok(sum)
                        } else {
                            Err(EvalError::OutOfRange)
                        }
                    },
                    None => Err(EvalError::OutOfRange),
                }
            },
            ValueExpr::Verbatim(_) => Err(EvalError::NotEvaluated),
        }
    }

    /// Writes the expression as source text.
    pub fn render(&self) -> (r: String)
        ensures
            r@ == expr_text(self@),
        decreases self,
    {
        match self {
            ValueExpr::Literal(v) => decimal(*v),
            ValueExpr::Stored(label) => {
                let mut s = String::from_str("Self::");
                s.append(label.as_str());
                s.append(".0");
                s
            },
            ValueExpr::Sum(a, b) => {
                let mut s = a.render();
                let right = b.render();
                match **b {
                    ValueExpr::Sum(_, _) => {
                        s.append(" + (");
                        s.append(right.as_str());
                        s.append(")");
                    },
                    _ => {
                        s.append(" + ");
                        s.append(right.as_str());
                    },
                }
                s
            },
            ValueExpr::Verbatim(source) => source.clone(),
        }
    }
}

} // verus!
