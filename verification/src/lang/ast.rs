//! Abstract syntax of FieldCalc expressions.
use vstd::prelude::*;
use vstd::string::*;
use super::types::{Nat, Type, TypeModel};

verus! {

/// Variable name.
pub type Var = String;

/// Type variable name.
pub type TyVar = String;

/// Expressions.
///
/// A scalar literal keeps the text it was written with (`42.0`, `-1.5e3`,
/// `inf`, ...); its numeric value is the nearest double to that decimal text.
#[derive(Debug, PartialEq)]
pub enum Expr {
    /// Variable: x
    Var(Var),
    /// Lambda abstraction: fn (x : t). e
    Lambda { param: Var, param_ty: Type, body: Box<Expr> },
    /// Application: e1 e2
    App { func: Box<Expr>, arg: Box<Expr> },
    /// Type abstraction
    TyLambda { ty_var: TyVar, body: Box<Expr> },
    /// Type application
    TyApp { expr: Box<Expr>, ty: Type },
    /// Dimension abstraction
    DimLambda { dim_var: Var, body: Box<Expr> },
    /// Dimension application
    DimApp { expr: Box<Expr>, dim: Nat },
    /// Scalar literal, by its decimal text
    Scalar(String),
    /// Boolean literal
    Bool(bool),
    /// Vector literal
    Vec(Vec<Expr>),
    /// Color literal
    Color { r: Box<Expr>, g: Box<Expr>, b: Box<Expr>, a: Box<Expr> },
    /// Empty list
    Nil,
    /// List cons
    Cons { head: Box<Expr>, tail: Box<Expr> },
    /// Field literal: field (p : Vec n) -> e
    Field { param: Var, dim: Nat, body: Box<Expr> },
    /// Let binding
    Let { var: Var, ty: Type, value: Box<Expr>, body: Box<Expr> },
    /// Fold over a list
    Fold { func: Box<Expr>, init: Box<Expr>, list: Box<Expr> },
    /// Built-in operation, by name
    Builtin(String),
    /// Conditional
    If { cond: Box<Expr>, then_branch: Box<Expr>, else_branch: Box<Expr> },
}

/// The mathematical value of an [`Expr`].
pub enum ExprModel {
    Var(Seq<char>),
    Lambda { param: Seq<char>, param_ty: TypeModel, body: Box<ExprModel> },
    App { func: Box<ExprModel>, arg: Box<ExprModel> },
    TyLambda { ty_var: Seq<char>, body: Box<ExprModel> },
    TyApp { expr: Box<ExprModel>, ty: TypeModel },
    DimLambda { dim_var: Seq<char>, body: Box<ExprModel> },
    DimApp { expr: Box<ExprModel>, dim: Nat },
    Scalar(Seq<char>),
    Bool(bool),
    Vec(Seq<ExprModel>),
    Color { r: Box<ExprModel>, g: Box<ExprModel>, b: Box<ExprModel>, a: Box<ExprModel> },
    Nil,
    Cons { head: Box<ExprModel>, tail: Box<ExprModel> },
    Field { param: Seq<char>, dim: Nat, body: Box<ExprModel> },
    Let { var: Seq<char>, ty: TypeModel, value: Box<ExprModel>, body: Box<ExprModel> },
    Fold { func: Box<ExprModel>, init: Box<ExprModel>, list: Box<ExprModel> },
    Builtin(Seq<char>),
    If { cond: Box<ExprModel>, then_branch: Box<ExprModel>, else_branch: Box<ExprModel> },
}

impl Expr {
    pub open spec fn model(&self) -> ExprModel
        decreases self,
    {
        match self {
            Expr::Var(x) => ExprModel::Var(x@),
            Expr::Lambda { param, param_ty, body } => ExprModel::Lambda {
                param: param@,
                param_ty: param_ty@,
                body: Box::new(body.model()),
            },
            Expr::App { func, arg } => ExprModel::App {
                func: Box::new(func.model()),
                arg: Box::new(arg.model()),
            },
            Expr::TyLambda { ty_var, body } => ExprModel::TyLambda {
                ty_var: ty_var@,
                body: Box::new(body.model()),
            },
            Expr::TyApp { expr, ty } => ExprModel::TyApp { expr: Box::new(expr.model()), ty: ty@ },
            Expr::DimLambda { dim_var, body } => ExprModel::DimLambda {
                dim_var: dim_var@,
                body: Box::new(body.model()),
            },
            Expr::DimApp { expr, dim } => ExprModel::DimApp { expr: Box::new(expr.model()), dim: *dim },
            Expr::Scalar(t) => ExprModel::Scalar(t@),
            Expr::Bool(b) => ExprModel::Bool(*b),
            Expr::Vec(items) => ExprModel::Vec(
                Seq::new(
                    items.len() as nat,
                    |i: int|
                        if 0 <= i < items.len() {
                            items[i].model()
                        } else {
                            ExprModel::Nil
                        },
                ),
            ),
            Expr::Color { r, g, b, a } => ExprModel::Color {
                r: Box::new(r.model()),
                g: Box::new(g.model()),
                b: Box::new(b.model()),
                a: Box::new(a.model()),
            },
            Expr::Nil => ExprModel::Nil,
            Expr::Cons { head, tail } => ExprModel::Cons {
                head: Box::new(head.model()),
                tail: Box::new(tail.model()),
            },
            Expr::Field { param, dim, body } => ExprModel::Field {
                param: param@,
                dim: *dim,
                body: Box::new(body.model()),
            },
            Expr::Let { var, ty, value, body } => ExprModel::Let {
                var: var@,
                ty: ty@,
                value: Box::new(value.model()),
                body: Box::new(body.model()),
            },
            Expr::Fold { func, init, list } => ExprModel::Fold {
                func: Box::new(func.model()),
                init: Box::new(init.model()),
                list: Box::new(list.model()),
            },
            Expr::Builtin(n) => ExprModel::Builtin(n@),
            Expr::If { cond, then_branch, else_branch } => ExprModel::If {
                cond: Box::new(cond.model()),
                then_branch: Box::new(then_branch.model()),
                else_branch: Box::new(else_branch.model()),
            },
        }
    }
}

impl View for Expr {
    type V = ExprModel;

    open spec fn view(&self) -> ExprModel {
        self.model()
    }
}

/// The models of a sequence of expressions.
pub open spec fn models(v: Seq<Expr>) -> Seq<ExprModel> {
    Seq::new(v.len(), |i: int| v[i]@)
}

/// `(f a1 ... an)` as `((f a1) ...) an`: applications associate to the left.
pub open spec fn apply_all(f: ExprModel, args: Seq<ExprModel>) -> ExprModel
    decreases args.len(),
{
    if args.len() == 0 {
        f
    } else {
        apply_all(ExprModel::App { func: Box::new(f), arg: Box::new(args[0]) }, args.drop_first())
    }
}

pub proof fn lemma_vec_model(v: Vec<Expr>)
    ensures
        Expr::Vec(v)@ == ExprModel::Vec(models(v@)),
{
    let e = Expr::Vec(v);
    if let ExprModel::Vec(items) = e.model() {
        assert(items.len() == v@.len());
        assert forall|i: int| 0 <= i < items.len() implies items[i] == models(v@)[i] by {
            assert(items[i] == v@[i].model());
        }
        assert(items =~= models(v@));
    }
}

/// Left-nested application of `f` to `args`.
pub fn apply_to_all(f: Expr, args: Vec<Expr>) -> (r: Expr)
    ensures
        r@ == apply_all(f@, models(args@)),
{
    let mut acc = f;
    let mut rest = args;
    while rest.len() > 0
        invariant
            apply_all(f@, models(args@)) == apply_all(acc@, models(rest@)),
        decreases rest@.len(),
    {
        let ghost old_rest = rest@;
        let a = rest.remove(0);
        proof {
            assert(models(old_rest).drop_first() =~= models(rest@));
            assert(models(old_rest)[0] == a@);
        }
        acc = Expr::App { func: Box::new(acc), arg: Box::new(a) };
    }
    assert(models(rest@) =~= Seq::<ExprModel>::empty());
    acc
}

impl Expr {
    /// A variable reference.
    pub fn var(name: &str) -> (e: Expr)
        ensures
            e@ == ExprModel::Var(name@),
    {
        Expr::Var(String::from_str(name))
    }

    /// A scalar literal written as `text`.
    pub fn scalar(text: &str) -> (e: Expr)
        ensures
            e@ == ExprModel::Scalar(text@),
    {
        Expr::Scalar(String::from_str(text))
    }

    /// A boolean literal.
    pub fn bool(value: bool) -> (e: Expr)
        ensures
            e@ == ExprModel::Bool(value),
    {
        Expr::Bool(value)
    }

    /// `fn (param : param_ty) body`.
    pub fn lambda(param: &str, param_ty: Type, body: Expr) -> (e: Expr)
        ensures
            e@ == (ExprModel::Lambda { param: param@, param_ty: param_ty@, body: Box::new(body@) }),
    {
        Expr::Lambda { param: String::from_str(param), param_ty, body: Box::new(body) }
    }

    /// `func arg`.
    pub fn app(func: Expr, arg: Expr) -> (e: Expr)
        ensures
            e@ == (ExprModel::App { func: Box::new(func@), arg: Box::new(arg@) }),
    {
        Expr::App { func: Box::new(func), arg: Box::new(arg) }
    }

    /// `let var : ty = value in body`.
    pub fn let_bind(var: &str, ty: Type, value: Expr, body: Expr) -> (e: Expr)
        ensures
            e@ == (ExprModel::Let {
                var: var@,
                ty: ty@,
                value: Box::new(value@),
                body: Box::new(body@),
            }),
    {
        Expr::Let {
            var: String::from_str(var),
            ty,
            value: Box::new(value),
            body: Box::new(body),
        }
    }

    /// `field (param : Vec dim) -> body`.
    pub fn field(param: &str, dim: Nat, body: Expr) -> (e: Expr)
        ensures
            e@ == (ExprModel::Field { param: param@, dim, body: Box::new(body@) }),
    {
        Expr::Field { param: String::from_str(param), dim, body: Box::new(body) }
    }

    /// `if cond then then_branch else else_branch`.
    pub fn if_then_else(cond: Expr, then_branch: Expr, else_branch: Expr) -> (e: Expr)
        ensures
            e@ == (ExprModel::If {
                cond: Box::new(cond@),
                then_branch: Box::new(then_branch@),
                else_branch: Box::new(else_branch@),
            }),
    {
        Expr::If {
            cond: Box::new(cond),
            then_branch: Box::new(then_branch),
            else_branch: Box::new(else_branch),
        }
    }

    /// The empty list.
    pub fn nil() -> (e: Expr)
        ensures
            e@ == ExprModel::Nil,
    {
        Expr::Nil
    }

    /// `head :: tail`.
    pub fn cons(head: Expr, tail: Expr) -> (e: Expr)
        ensures
            e@ == (ExprModel::Cons { head: Box::new(head@), tail: Box::new(tail@) }),
    {
        Expr::Cons { head: Box::new(head), tail: Box::new(tail) }
    }

    /// A built-in operation by name.
    pub fn builtin(name: &str) -> (e: Expr)
        ensures
            e@ == ExprModel::Builtin(name@),
    {
        Expr::Builtin(String::from_str(name))
    }
}

impl Expr {
    /// A copy of this expression.
    pub fn copy(&self) -> (e: Expr)
        ensures
            e@ == self@,
        decreases self,
    {
        match self {
            Expr::Var(x) => Expr::Var(x.clone()),
            Expr::Lambda { param, param_ty, body } => Expr::Lambda {
                param: param.clone(),
                param_ty: param_ty.copy(),
                body: Box::new(body.copy()),
            },
            Expr::App { func, arg } => Expr::App {
                func: Box::new(func.copy()),
                arg: Box::new(arg.copy()),
            },
            Expr::TyLambda { ty_var, body } => Expr::TyLambda {
                ty_var: ty_var.clone(),
                body: Box::new(body.copy()),
            },
            Expr::TyApp { expr, ty } => Expr::TyApp { expr: Box::new(expr.copy()), ty: ty.copy() },
            Expr::DimLambda { dim_var, body } => Expr::DimLambda {
                dim_var: dim_var.clone(),
                body: Box::new(body.copy()),
            },
            Expr::DimApp { expr, dim } => Expr::DimApp { expr: Box::new(expr.copy()), dim: *dim },
            Expr::Scalar(t) => Expr::Scalar(t.clone()),
            Expr::Bool(b) => Expr::Bool(*b),
            Expr::Vec(items) => {
                let mut out: Vec<Expr> = Vec::new();
                let mut i: usize = 0;
                while i < items.len()
                    invariant
                        *self == Expr::Vec(*items),
                        i <= items@.len(),
                        out@.len() == i,
                        forall|j: int| 0 <= j < i ==> #[trigger] out@[j]@ == items@[j]@,
                    decreases items@.len() - i,
                {
                    proof {
                        assert(decreases_to!(*self => self->Vec_0));
                        assert(decreases_to!(*items => items[i as int]));
                        assert(decreases_to!(*self => items[i as int]));
                    }
                    out.push(items[i].copy());
                    i = i + 1;
                }
                proof {
                    lemma_vec_model(out);
                    lemma_vec_model(*items);
                    assert(models(out@) =~= models(items@));
                }
                Expr::Vec(out)
            },
            Expr::Color { r, g, b, a } => Expr::Color {
                r: Box::new(r.copy()),
                g: Box::new(g.copy()),
                b: Box::new(b.copy()),
                a: Box::new(a.copy()),
            },
            Expr::Nil => Expr::Nil,
            Expr::Cons { head, tail } => Expr::Cons {
                head: Box::new(head.copy()),
                tail: Box::new(tail.copy()),
            },
            Expr::Field { param, dim, body } => Expr::Field {
                param: param.clone(),
                dim: *dim,
                body: Box::new(body.copy()),
            },
            Expr::Let { var, ty, value, body } => Expr::Let {
                var: var.clone(),
                ty: ty.copy(),
                value: Box::new(value.copy()),
                body: Box::new(body.copy()),
            },
            Expr::Fold { func, init, list } => Expr::Fold {
                func: Box::new(func.copy()),
                init: Box::new(init.copy()),
                list: Box::new(list.copy()),
            },
            Expr::Builtin(n) => Expr::Builtin(n.clone()),
            Expr::If { cond, then_branch, else_branch } => Expr::If {
                cond: Box::new(cond.copy()),
                then_branch: Box::new(then_branch.copy()),
                else_branch: Box::new(else_branch.copy()),
            },
        }
    }
}

impl Clone for Expr {
    fn clone(&self) -> (e: Expr)
        ensures
            e@ == self@,
    {
        self.copy()
    }
}

} // verus!
