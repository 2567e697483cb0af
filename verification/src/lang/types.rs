//! The type language of FieldCalc.
use vstd::prelude::*;
use vstd::string::*;
use crate::text::{decimal_text, push_decimal};

verus! {

/// Natural numbers used as dimensions.
pub type Nat = usize;

/// Kinds: the kind of types, of dimensions, and of type constructors.
#[derive(Debug, PartialEq, Eq)]
pub enum Kind {
    /// Kind of types (*)
    Star,
    /// Kind of natural numbers
    Nat,
    /// Higher-kinded type constructor (k1 -> k2)
    Arrow(Box<Kind>, Box<Kind>),
}

/// Types.
#[derive(Debug, PartialEq)]
pub enum Type {
    /// Type variable
    Var(String),
    /// Dimension variable
    DimVar(String),
    /// Scalars
    Scalar,
    /// Vectors of a fixed dimension
    Vec(Nat),
    /// Colors
    Color,
    /// Field type: Vec n -> t
    Field(Nat, Box<Type>),
    /// Function type: t1 -> t2
    Arrow(Box<Type>, Box<Type>),
    /// Universal quantification over a type
    Forall(String, Box<Type>),
    /// Universal quantification over a dimension
    ForallDim(String, Box<Type>),
    /// List type
    List(Box<Type>),
    /// Booleans
    Bool,
}

/// The mathematical value of a [`Type`]: names are character sequences.
pub enum TypeModel {
    Var(Seq<char>),
    DimVar(Seq<char>),
    Scalar,
    Vec(Nat),
    Color,
    Field(Nat, Box<TypeModel>),
    Arrow(Box<TypeModel>, Box<TypeModel>),
    Forall(Seq<char>, Box<TypeModel>),
    ForallDim(Seq<char>, Box<TypeModel>),
    List(Box<TypeModel>),
    Bool,
}

impl Type {
    pub open spec fn model(&self) -> TypeModel
        decreases self,
    {
        match self {
            Type::Var(n) => TypeModel::Var(n@),
            Type::DimVar(n) => TypeModel::DimVar(n@),
            Type::Scalar => TypeModel::Scalar,
            Type::Vec(n) => TypeModel::Vec(*n),
            Type::Color => TypeModel::Color,
            Type::Field(n, t) => TypeModel::Field(*n, Box::new(t.model())),
            Type::Arrow(a, b) => TypeModel::Arrow(Box::new(a.model()), Box::new(b.model())),
            Type::Forall(v, t) => TypeModel::Forall(v@, Box::new(t.model())),
            Type::ForallDim(v, t) => TypeModel::ForallDim(v@, Box::new(t.model())),
            Type::List(t) => TypeModel::List(Box::new(t.model())),
            Type::Bool => TypeModel::Bool,
        }
    }

    /// Signed distance field over `dim` dimensions: `Field dim Scalar`.
    pub fn sdf(dim: Nat) -> (t: Type)
        ensures
            t@ == TypeModel::Field(dim, Box::new(TypeModel::Scalar)),
    {
        proof {
            reveal_with_fuel(Type::model, 2);
        }
        Type::Field(dim, Box::new(Type::Scalar))
    }

    /// Image over `dim` dimensions: `Field dim Color`.
    pub fn image(dim: Nat) -> (t: Type)
        ensures
            t@ == TypeModel::Field(dim, Box::new(TypeModel::Color)),
    {
        proof {
            reveal_with_fuel(Type::model, 2);
        }
        Type::Field(dim, Box::new(Type::Color))
    }

    /// Vector field over `dim` dimensions: `Field dim (Vec dim)`.
    pub fn vfield(dim: Nat) -> (t: Type)
        ensures
            t@ == TypeModel::Field(dim, Box::new(TypeModel::Vec(dim))),
    {
        proof {
            reveal_with_fuel(Type::model, 2);
        }
        Type::Field(dim, Box::new(Type::Vec(dim)))
    }
}

impl Kind {
    /// A copy of this kind.
    pub fn copy(&self) -> (k: Kind)
        ensures
            k == *self,
        decreases self,
    {
        match self {
            Kind::Star => Kind::Star,
            Kind::Nat => Kind::Nat,
            Kind::Arrow(a, b) => Kind::Arrow(Box::new(a.copy()), Box::new(b.copy())),
        }
    }
}

impl Clone for Kind {
    fn clone(&self) -> (k: Kind)
        ensures
            k == *self,
    {
        self.copy()
    }
}

impl Type {
    /// A copy of this type.
    pub fn copy(&self) -> (t: Type)
        ensures
            t@ == self@,
        decreases self,
    {
        match self {
            Type::Var(n) => Type::Var(n.clone()),
            Type::DimVar(n) => Type::DimVar(n.clone()),
            Type::Scalar => Type::Scalar,
            Type::Vec(n) => Type::Vec(*n),
            Type::Color => Type::Color,
            Type::Field(n, t) => Type::Field(*n, Box::new(t.copy())),
            Type::Arrow(a, b) => Type::Arrow(Box::new(a.copy()), Box::new(b.copy())),
            Type::Forall(v, t) => Type::Forall(v.clone(), Box::new(t.copy())),
            Type::ForallDim(v, t) => Type::ForallDim(v.clone(), Box::new(t.copy())),
            Type::List(t) => Type::List(Box::new(t.copy())),
            Type::Bool => Type::Bool,
        }
    }
}

impl Clone for Type {
    fn clone(&self) -> (t: Type)
        ensures
            t@ == self@,
    {
        self.copy()
    }
}

impl View for Type {
    type V = TypeModel;

    open spec fn view(&self) -> TypeModel {
        self.model()
    }
}

/// How a type reads.
pub open spec fn type_text(t: TypeModel) -> Seq<char>
    decreases t,
{
    match t {
        TypeModel::Var(name) => name,
        TypeModel::DimVar(name) => name,
        TypeModel::Scalar => "Scalar"@,
        TypeModel::Vec(n) => "Vec "@ + decimal_text(n as nat),
        TypeModel::Color => "Color"@,
        TypeModel::Field(n, t) => "Field "@ + decimal_text(n as nat) + " ("@ + type_text(*t) + ")"@,
        TypeModel::Arrow(a, b) => "("@ + type_text(*a) + " \u{2192} "@ + type_text(*b) + ")"@,
        TypeModel::Forall(v, t) => "\u{2200}"@ + v + ". "@ + type_text(*t),
        TypeModel::ForallDim(v, t) => "\u{2200}("@ + v + " : Nat). "@ + type_text(*t),
        TypeModel::List(t) => "List ("@ + type_text(*t) + ")"@,
        TypeModel::Bool => "Bool"@,
    }
}

impl Type {
    /// The type as displayed.
    pub fn to_string(&self) -> (r: String)
        ensures
            r@ == type_text(self@),
        decreases self,
    {
        let mut r = String::new();
        self.write_to(&mut r);
        assert(r@ =~= type_text(self@));
        r
    }

    /// Append the type as displayed to `out`.
    fn write_to(&self, out: &mut String)
        ensures
            final(out)@ == old(out)@ + type_text(self@),
        decreases self,
    {
        let ghost start = out@;
        match self {
            Type::Var(name) => out.append(name.as_str()),
            Type::DimVar(name) => out.append(name.as_str()),
            Type::Scalar => out.append("Scalar"),
            Type::Vec(n) => {
                out.append("Vec ");
                push_decimal(out, *n);
            },
            Type::Color => out.append("Color"),
            Type::Field(n, t) => {
                out.append("Field ");
                push_decimal(out, *n);
                out.append(" (");
                t.write_to(out);
                out.append(")");
            },
            Type::Arrow(a, b) => {
                out.append("(");
                a.write_to(out);
                out.append(" \u{2192} ");
                b.write_to(out);
                out.append(")");
            },
            Type::Forall(v, t) => {
                out.append("\u{2200}");
                out.append(v.as_str());
                out.append(". ");
                t.write_to(out);
            },
            Type::ForallDim(v, t) => {
                out.append("\u{2200}(");
                out.append(v.as_str());
                out.append(" : Nat). ");
                t.write_to(out);
            },
            Type::List(t) => {
                out.append("List (");
                t.write_to(out);
                out.append(")");
            },
            Type::Bool => out.append("Bool"),
        }
        assert(out@ =~= start + type_text(self@));
    }
}

} // verus!
