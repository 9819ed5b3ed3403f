use vstd::prelude::*;

verus! {

/// A prefix operator: `-`, `+`, `!`, `~`, `typeof`, `void`, `delete`.
#[derive(Clone, Copy, Debug, PartialEq, Eq, Hash, Structural)]
pub enum UnaryOp {
    Minus,
    Plus,
    Bang,
    Tilde,
    TypeOf,
    Void,
    Delete,
}

/// An assignment operator, `=` or a compound one such as `+=`.
#[derive(Clone, Copy, Debug, PartialEq, Eq, Hash, Structural)]
pub enum AssignOp {
    Assign,
    AddAssign,
    SubAssign,
    MulAssign,
    DivAssign,
    ModAssign,
    LShiftAssign,
    RShiftAssign,
    ZeroFillRShiftAssign,
    BitOrAssign,
    BitXorAssign,
    BitAndAssign,
    ExpAssign,
    AndAssign,
    OrAssign,
    NullishAssign,
}

/// `++` or `--`.
#[derive(Clone, Copy, Debug, PartialEq, Eq, Hash, Structural)]
pub enum UpdateOp {
    PlusPlus,
    MinusMinus,
}

/// A binary operator.
#[derive(Clone, Copy, Debug, PartialEq, Eq, Hash, Structural)]
pub enum BinaryOp {
    EqEq,
    NotEq,
    EqEqEq,
    NotEqEq,
    Lt,
    LtEq,
    Gt,
    GtEq,
    LShift,
    RShift,
    ZeroFillRShift,
    Add,
    Sub,
    Mul,
    Div,
    Mod,
    BitOr,
    BitXor,
    BitAnd,
    LogicalOr,
    LogicalAnd,
    In,
    InstanceOf,
    Exp,
    NullishCoalescing,
}

/// A TypeScript keyword type such as `number` or `never`.
#[derive(Clone, Copy, Debug, PartialEq, Eq, Hash, Structural)]
pub enum TsKeywordTypeKind {
    TsAnyKeyword,
    TsUnknownKeyword,
    TsNumberKeyword,
    TsObjectKeyword,
    TsBooleanKeyword,
    TsBigIntKeyword,
    TsStringKeyword,
    TsSymbolKeyword,
    TsVoidKeyword,
    TsUndefinedKeyword,
    TsNullKeyword,
    TsNeverKeyword,
    TsIntrinsicKeyword,
}

/// The modifier of a mapped type member: bare, `+` or `-`.
#[derive(Clone, Copy, Debug, PartialEq, Eq, Hash, Structural)]
pub enum TruePlusMinus {
    True,
    Plus,
    Minus,
}

/// A TypeScript type operator: `keyof`, `unique`, `readonly`.
#[derive(Clone, Copy, Debug, PartialEq, Eq, Hash, Structural)]
pub enum TsTypeOperatorOp {
    KeyOf,
    Unique,
    ReadOnly,
}

/// A TypeScript accessibility modifier.
#[derive(Clone, Copy, Debug, PartialEq, Eq, Hash, Structural)]
pub enum Accessibility {
    Public,
    Protected,
    Private,
}

/// Whether a class method is a plain method, a getter or a setter.
#[derive(Clone, Copy, Debug, PartialEq, Eq, Hash, Structural)]
pub enum MethodKind {
    Method,
    Getter,
    Setter,
}

/// `var`, `let` or `const`.
#[derive(Clone, Copy, Debug, PartialEq, Eq, Hash, Structural)]
pub enum VarDeclKind {
    Var,
    Let,
    Const,
}

/// The phase of an import: plain, `source` or `defer`.
#[derive(Clone, Copy, Debug, PartialEq, Eq, Hash, Structural)]
pub enum ImportPhase {
    Evaluation,
    Source,
    Defer,
}

/// `new.target` or `import.meta`.
#[derive(Clone, Copy, Debug, PartialEq, Eq, Hash, Structural)]
pub enum MetaPropKind {
    NewTarget,
    ImportMeta,
}

} // verus!
