use vstd::prelude::*;

verus! {

/// How tightly an operator binds; used to place parentheses in descriptions.
#[derive(Debug, Clone, Copy, PartialEq, Eq)]
pub enum Precedence {
    Num,
    Pow,
    Mul,
    Add,
    BitAnd,
    BitOr,
    Bound,
}

impl Precedence {
    pub open spec fn spec_rank(self) -> u8 {
        match self {
            Precedence::Num => 0,
            Precedence::Pow => 1,
            Precedence::Mul => 2,
            Precedence::Add => 3,
            Precedence::BitAnd => 4,
            Precedence::BitOr => 5,
            Precedence::Bound => 6,
        }
    }

    pub fn rank(&self) -> (r: u8)
        ensures
            r == self.spec_rank(),
    {
        match self {
            Precedence::Num => 0,
            Precedence::Pow => 1,
            Precedence::Mul => 2,
            Precedence::Add => 3,
            Precedence::BitAnd => 4,
            Precedence::BitOr => 5,
            Precedence::Bound => 6,
        }
    }
}

/// A named constant of a formula.
#[derive(Debug, Clone, Copy)]
pub struct Invar {
    pub value: i32,
    pub name: &'static str,
}

/// A critter parameter read by its index, under a display name.
#[derive(Debug, Clone, Copy)]
pub struct ParamBase {
    pub index: u16,
    pub name: &'static str,
}

/// The protective value of worn armor that a formula reads.
#[derive(Debug, Clone, Copy, PartialEq, Eq)]
pub enum ArmorStat {
    DtNormal,
    DtLaser,
    DtFire,
    DtPlasma,
    DtElectr,
    DtEmp,
    DtExplode,
    DrNormal,
    DrLaser,
    DrFire,
    DrPlasma,
    DrElectr,
    DrEmp,
    DrExplode,
}

/// A named sub-formula; its value is reported on a line of its own.
#[derive(Debug)]
pub struct Cut<F> {
    pub name: &'static str,
    pub fragment: Box<F>,
}

/// `first` when `condition` holds, `second` otherwise.
#[derive(Debug)]
pub struct IfElse<F> {
    pub condition: Box<BoolFormula>,
    pub first: Box<F>,
    pub second: Box<F>,
}

/// `value` bounded below by `min` and above by `max`.
#[derive(Debug)]
pub struct Clamp {
    pub value: Box<IntFormula>,
    pub min: Box<IntFormula>,
    pub max: Box<IntFormula>,
}

#[derive(Debug, Clone, Copy, PartialEq, Eq)]
pub enum CompareOp {
    Equal,
    NotEqual,
    GreaterThan,
    GreaterOrEqual,
    LessThan,
    LessOrEqual,
}

/// A comparison of two integer formulas.
#[derive(Debug)]
pub struct Compare {
    pub op: CompareOp,
    pub first: Box<IntFormula>,
    pub second: Box<IntFormula>,
}

/// A formula whose value is an `i32`.
#[derive(Debug)]
pub enum IntFormula {
    /// A literal number.
    Int(i32),
    Invar(Invar),
    Param(ParamBase),
    /// Armor class of the worn armor, zero without one.
    WornArmorClass(&'static str),
    /// A protective value of the worn armor, reduced by its wear.
    WornArmorStat(ArmorStat, &'static str),
    Add(Box<IntFormula>, Box<IntFormula>),
    Sub(Box<IntFormula>, Box<IntFormula>),
    Mul(Box<IntFormula>, Box<IntFormula>),
    Div(Box<IntFormula>, Box<IntFormula>),
    Pow(Box<IntFormula>, Box<IntFormula>),
    Max(Box<IntFormula>, Box<IntFormula>),
    IfElse(IfElse<IntFormula>),
    Clamp(Clamp),
    Cut(Cut<IntFormula>),
}

/// A formula whose value is a `bool`.
#[derive(Debug)]
pub enum BoolFormula {
    Bool(bool),
    /// Whether it is night at the critter's time.
    IsNight(&'static str),
    And(Box<BoolFormula>, Box<BoolFormula>),
    Or(Box<BoolFormula>, Box<BoolFormula>),
    Compare(Compare),
    IfElse(IfElse<BoolFormula>),
    Cut(Cut<BoolFormula>),
}

impl IntFormula {
    pub open spec fn spec_precedence(self) -> Precedence {
        match self {
            IntFormula::Pow(_, _) => Precedence::Pow,
            IntFormula::Mul(_, _) | IntFormula::Div(_, _) => Precedence::Mul,
            IntFormula::Add(_, _) | IntFormula::Sub(_, _) => Precedence::Add,
            IntFormula::IfElse(_) | IntFormula::Clamp(_) => Precedence::Bound,
            _ => Precedence::Num,
        }
    }

    pub fn precedence(&self) -> (r: Precedence)
        ensures
            r == self.spec_precedence(),
    {
        match self {
            IntFormula::Pow(_, _) => Precedence::Pow,
            IntFormula::Mul(_, _) | IntFormula::Div(_, _) => Precedence::Mul,
            IntFormula::Add(_, _) | IntFormula::Sub(_, _) => Precedence::Add,
            IntFormula::IfElse(_) | IntFormula::Clamp(_) => Precedence::Bound,
            _ => Precedence::Num,
        }
    }
}

impl BoolFormula {
    pub open spec fn spec_precedence(self) -> Precedence {
        match self {
            BoolFormula::And(_, _) => Precedence::BitAnd,
            BoolFormula::Or(_, _) => Precedence::BitOr,
            BoolFormula::Compare(_) | BoolFormula::IfElse(_) => Precedence::Bound,
            _ => Precedence::Num,
        }
    }

    pub fn precedence(&self) -> (r: Precedence)
        ensures
            r == self.spec_precedence(),
    {
        match self {
            BoolFormula::And(_, _) => Precedence::BitAnd,
            BoolFormula::Or(_, _) => Precedence::BitOr,
            BoolFormula::Compare(_) | BoolFormula::IfElse(_) => Precedence::Bound,
            _ => Precedence::Num,
        }
    }
}

} // verus!
