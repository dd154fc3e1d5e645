//! The rules that command declarations follow: which arguments a declared
//! function takes, which attributes pass through unchanged, and how derived
//! item names are spelled.

use vstd::prelude::*;

use crate::attributes::upper_of;
use crate::text::same_text;

verus! {

/// An optional value of a declaration.
#[derive(Debug)]
pub struct AsOption<T>(pub Option<T>);

impl<T> AsOption<T> {
    /// Applies `f` to the value, if there is one.
    pub fn map<U, F: FnOnce(T) -> U>(self, f: F) -> (r: AsOption<U>)
        requires
            self.0 matches Some(x) ==> f.requires((x,)),
        ensures
            match self.0 {
                Some(x) => r.0 matches Some(y) && f.ensures((x,), y),
                None => r.0 is None,
            },
    {
        match self.0 {
            Some(x) => AsOption(Some(f(x))),
            None => AsOption(None),
        }
    }
}

impl<T> Default for AsOption<T> {
    fn default() -> (r: AsOption<T>)
        ensures
            r.0 is None,
    {
        AsOption(None)
    }
}

/// What a declared function is for.
#[derive(Clone, Copy, Debug, PartialEq, Eq, Structural)]
pub enum DeclarFor {
    Command,
    Help,
    Check,
}

/// An argument that a declared function of some kind receives.
#[derive(Clone, Copy, Debug, PartialEq, Eq, Structural)]
pub enum ArgKind {
    Context,
    Interaction,
    Options,
    Groups,
    Owners,
}

/// What happens to one expected argument of a declared function.
#[derive(Clone, Copy, Debug, PartialEq, Eq, Structural)]
pub enum ArgPlan {
    /// The function declares argument `index`: its type must be `kind`'s.
    Validate { index: usize, kind: ArgKind },
    /// The function leaves it out: an unused argument of `kind` is added.
    Supply { kind: ArgKind },
}

impl DeclarFor {
    /// The most arguments a function of this kind may declare.
    pub open spec fn spec_max_args(self) -> usize {
        match self {
            DeclarFor::Command => 3,
            DeclarFor::Help => 6,
            DeclarFor::Check => 4,
        }
    }

    /// The arguments a function of this kind receives, in order.
    pub open spec fn spec_expected(self) -> Seq<ArgKind> {
        match self {
            DeclarFor::Command => seq![ArgKind::Context, ArgKind::Interaction],
            DeclarFor::Help => seq![
                ArgKind::Context,
                ArgKind::Interaction,
                ArgKind::Groups,
                ArgKind::Owners,
            ],
            DeclarFor::Check => seq![ArgKind::Context, ArgKind::Interaction, ArgKind::Options],
        }
    }

    /// The most arguments a function of this kind may declare.
    pub fn max_args(self) -> (r: usize)
        ensures
            r == self.spec_max_args(),
    {
        match self {
            DeclarFor::Command => 3,
            DeclarFor::Help => 6,
            DeclarFor::Check => 4,
        }
    }

    /// The arguments a function of this kind receives, in order.
    pub fn expected(self) -> (r: Vec<ArgKind>)
        ensures
            r@ == self.spec_expected(),
    {
        let r = match self {
            DeclarFor::Command => vec![ArgKind::Context, ArgKind::Interaction],
            DeclarFor::Help => vec![
                ArgKind::Context,
                ArgKind::Interaction,
                ArgKind::Groups,
                ArgKind::Owners,
            ],
            DeclarFor::Check => vec![ArgKind::Context, ArgKind::Interaction, ArgKind::Options],
        };
        proof {
            assert(r@ =~= self.spec_expected());
        }
        r
    }

    /// The plan for expected argument `i` of a function that declares `n`.
    pub open spec fn spec_plan_at(self, n: usize, i: int) -> ArgPlan {
        if i < n {
            ArgPlan::Validate { index: i as usize, kind: self.spec_expected()[i] }
        } else {
            ArgPlan::Supply { kind: self.spec_expected()[i] }
        }
    }

    /// Plans the arguments of a function of this kind that declares `n`
    /// arguments: each expected argument that it declares is validated,
    /// each that it leaves out is supplied. A function with more arguments
    /// than its kind allows is refused with that limit.
    pub fn create_declaration_validations(self, n: usize) -> (r: Result<Vec<ArgPlan>, usize>)
        ensures
            n > self.spec_max_args() ==> r == Err::<Vec<ArgPlan>, usize>(self.spec_max_args()),
            n <= self.spec_max_args() ==> (r matches Ok(plan) && plan@ == Seq::new(
                self.spec_expected().len(),
                |i: int| self.spec_plan_at(n, i),
            )),
    {
        let max = self.max_args();
        if n > max {
            return Err(max);
        }
        let kinds = self.expected();
        let mut plan: Vec<ArgPlan> = Vec::new();
        let mut i: usize = 0;
        while i < kinds.len()
            invariant
                i <= kinds@.len(),
                kinds@ == self.spec_expected(),
                plan@ == Seq::new(i as nat, |k: int| self.spec_plan_at(n, k)),
            decreases kinds@.len() - i,
        {
            let step = if i < n {
                ArgPlan::Validate { index: i, kind: kinds[i] }
            } else {
                ArgPlan::Supply { kind: kinds[i] }
            };
            plan.push(step);
            proof {
                assert(plan@ =~= Seq::new((i + 1) as nat, |k: int| self.spec_plan_at(n, k)));
            }
            i = i + 1;
        }
        Ok(plan)
    }
}

impl ArgKind {
    /// The name of the argument supplied for this kind.
    pub fn supplied_name(self) -> (r: &'static str)
        ensures
            r@ == self.spec_supplied_name(),
    {
        match self {
            ArgKind::Context => "_ctx",
            ArgKind::Interaction => "_interaction",
            ArgKind::Options => "_options",
            ArgKind::Groups => "_groups",
            ArgKind::Owners => "_owners",
        }
    }

    pub open spec fn spec_supplied_name(self) -> Seq<char> {
        match self {
            ArgKind::Context => "_ctx"@,
            ArgKind::Interaction => "_interaction"@,
            ArgKind::Options => "_options"@,
            ArgKind::Groups => "_groups"@,
            ArgKind::Owners => "_owners"@,
        }
    }
}

/// The attributes that pass through to the generated code unchanged.
pub open spec fn cooked_name(name: Seq<char>) -> bool {
    name == "cfg"@ || name == "cfg_attr"@ || name == "derive"@ || name == "inline"@
        || name == "allow"@ || name == "warn"@ || name == "deny"@ || name == "forbid"@
}

/// Whether an attribute whose path is the single identifier `name` passes
/// through to the generated code unchanged.
pub fn is_cooked(name: &str) -> (r: bool)
    ensures
        r == cooked_name(name@),
{
    same_text(name, "cfg") || same_text(name, "cfg_attr") || same_text(name, "derive")
        || same_text(name, "inline") || same_text(name, "allow") || same_text(name, "warn")
        || same_text(name, "deny") || same_text(name, "forbid")
}

/// Moves the attributes marked in `cooked` out of `attrs`, keeping the
/// order of both parts, and returns those moved.
pub fn remove_cooked<T>(attrs: &mut Vec<T>, cooked: &Vec<bool>) -> (r: Vec<T>)
    requires
        old(attrs)@.len() == cooked@.len(),
    ensures
        final(attrs)@ == kept(old(attrs)@, cooked@, false),
        r@ == kept(old(attrs)@, cooked@, true),
{
    let ghost original = attrs@;
    let total = attrs.len();
    let mut rest: Vec<T> = Vec::new();
    let mut moved: Vec<T> = Vec::new();
    let mut i: usize = 0;
    while attrs.len() > 0
        invariant
            i + attrs@.len() == original.len(),
            original.len() == cooked@.len() == total,
            attrs@ == original.subrange(i as int, original.len() as int),
            rest@ == kept(original.subrange(0, i as int), cooked@.subrange(0, i as int), false),
            moved@ == kept(original.subrange(0, i as int), cooked@.subrange(0, i as int), true),
        decreases attrs@.len(),
    {
        let a = attrs.remove(0);
        proof {
            let s = original.subrange(0, i + 1);
            let c = cooked@.subrange(0, i + 1);
            assert(s.drop_last() =~= original.subrange(0, i as int));
            assert(c.drop_last() =~= cooked@.subrange(0, i as int));
            assert(s.last() == a);
        }
        if cooked[i] {
            moved.push(a);
        } else {
            rest.push(a);
        }
        i = i + 1;
        proof {
            assert(attrs@ =~= original.subrange(i as int, original.len() as int));
        }
    }
    proof {
        assert(original.subrange(0, i as int) =~= original);
        assert(cooked@.subrange(0, i as int) =~= cooked@);
    }
    *attrs = rest;
    moved
}

/// The items of `items` whose mark in `marks` equals `mark`, in order.
pub open spec fn kept<T>(items: Seq<T>, marks: Seq<bool>, mark: bool) -> Seq<T>
    decreases items.len(),
{
    if items.len() == 0 || marks.len() == 0 {
        Seq::empty()
    } else if marks.last() == mark {
        kept(items.drop_last(), marks.drop_last(), mark).push(items.last())
    } else {
        kept(items.drop_last(), marks.drop_last(), mark)
    }
}

/// The name of a generated item: the upper-case identifier, `_`, and a suffix.
pub fn with_suffix(ident: &str, suffix: &str) -> (r: String)
    ensures
        r@ == upper_of(ident@) + "_"@ + suffix@,
{
    let mut r = crate::attributes::to_uppercase(ident);
    r.append("_");
    r.append(suffix);
    r
}

} // verus!
