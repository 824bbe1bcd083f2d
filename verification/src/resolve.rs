//! Resolving the value of every entry of an enumeration, and looking up the
//! label of a stored value.
//!
//! The entries are taken in declaration order. An explicit value is
//! evaluated against the entries before it; the first entry defaults to
//! zero; every other entry without a value is its predecessor plus one.

use crate::expr::{
    bindings, eval_spec, find_label, labels, values, Binding, BindingView, EvalError, ExprView,
};
use crate::lookup::{
    distinct, first_is_position, is_first, position, position_is_first, scan_ends, scan_finds,
    scan_passes,
};
use crate::model::{entries_view, EntrySpec, EntryView, EnumSpec, EnumView};
use crate::text::{decimal, decimal_text};
use crate::underlying::IntType;
use crate::value::CValue;
use vstd::prelude::*;
use vstd::string::*;

verus! {

/// Why an entry has no value.
#[derive(Clone, Copy, PartialEq, Eq, Structural, Debug)]
pub enum Fault {
    /// An earlier entry has the same label.
    DuplicateLabel,
    /// Its explicit value cannot be evaluated.
    Expression(EvalError),
    /// It has no explicit value and its predecessor holds the largest value
    /// of the underlying type.
    IncrementOverflow,
}

/// Why an enumeration cannot be resolved.
#[derive(Clone, Copy, PartialEq, Eq, Structural, Debug)]
pub enum ResolveError {
    /// The underlying type is none of the integer types that the library
    /// computes with.
    UnknownUnderlying,
    /// The entry at `index` is the first that has no value.
    Entry { index: usize, fault: Fault },
}

/// The mathematical content of a [`ResolveError`].
pub enum Failure {
    UnknownUnderlying,
    Entry { index: int, fault: Fault },
}

impl View for ResolveError {
    type V = Failure;

    open spec fn view(&self) -> Failure {
        match self {
            ResolveError::UnknownUnderlying => Failure::UnknownUnderlying,
            ResolveError::Entry { index, fault } => Failure::Entry {
                index: *index as int,
                fault: *fault,
            },
        }
    }
}

/// An enumeration whose entries all have their values.
#[derive(Debug)]
pub struct ResolvedEnum {
    /// The name of the type.
    pub name: String,
    /// The integer type of the stored value.
    pub underlying: IntType,
    /// The entries with their values, in declaration order.
    pub entries: Vec<Binding>,
}

/// The mathematical content of a [`ResolvedEnum`].
pub struct ResolvedView {
    pub name: Seq<char>,
    pub underlying: IntType,
    pub entries: Seq<BindingView>,
}

impl View for ResolvedEnum {
    type V = ResolvedView;

    open spec fn view(&self) -> ResolvedView {
        ResolvedView {
            name: self.name@,
            underlying: self.underlying,
            entries: bindings(self.entries@),
        }
    }
}

/// The value of an entry, given the entries resolved before it.
pub open spec fn entry_value(ty: IntType, entry: EntryView, env: Seq<BindingView>) -> Result<
    int,
    Fault,
> {
    if position(labels(env), entry.label) is Some {
        Err(Fault::DuplicateLabel)
    } else {
        match entry.explicit_value {
            Some(e) => match eval_spec(e, ty, env) {
                Ok(v) => Ok(v),
                Err(error) => Err(Fault::Expression(error)),
            },
            None => if env.len() == 0 {
                Ok(0)
            } else if ty.holds(env.last().value + 1) {
                Ok(env.last().value + 1)
            } else {
                Err(Fault::IncrementOverflow)
            },
        }
    }
}

/// The entries with their values, or the index of the first entry that has
/// none, with the reason.
pub open spec fn resolve_entries(ty: IntType, entries: Seq<EntryView>) -> Result<
    Seq<BindingView>,
    (int, Fault),
>
    decreases entries.len(),
{
    if entries.len() == 0 {
        Ok(Seq::empty())
    } else {
        match resolve_entries(ty, entries.drop_last()) {
            Err(failure) => Err(failure),
            Ok(env) => match entry_value(ty, entries.last(), env) {
                Ok(v) => Ok(env.push(BindingView { label: entries.last().label, value: v })),
                Err(fault) => Err((entries.len() - 1, fault)),
            },
        }
    }
}

/// What resolving an enumeration gives.
pub open spec fn resolve_spec(e: EnumView) -> Result<ResolvedView, Failure> {
    match IntType::named(e.underlying_type) {
        None => Err(Failure::UnknownUnderlying),
        Some(ty) => match resolve_entries(ty, e.entries) {
            Ok(env) => Ok(ResolvedView { name: e.name, underlying: ty, entries: env }),
            Err((index, fault)) => Err(Failure::Entry { index, fault }),
        },
    }
}

/// The label under which a stored value is shown: that of the first entry
/// that holds the value.
pub open spec fn label_of(entries: Seq<BindingView>, v: int) -> Option<Seq<char>> {
    match position(values(entries), v) {
        Some(i) => Some(entries[i].label),
        None => None,
    }
}

/// The value that a label stands for: that of the first entry with the
/// label.
pub open spec fn value_of(entries: Seq<BindingView>, label: Seq<char>) -> Option<int> {
    match position(labels(entries), label) {
        Some(i) => Some(entries[i].value),
        None => None,
    }
}

/// How a value is shown for diagnosis: the name of the type and the label
/// where an entry holds the value, the name of the type and the stored value
/// where none does.
pub open spec fn debug_text(e: ResolvedView, v: int) -> Seq<char> {
    match label_of(e.entries, v) {
        Some(label) => e.name + "::"@ + label,
        None => e.name + "("@ + decimal_text(v) + ")"@,
    }
}

/// Resolving a prefix of the entries gives the same prefix of the result,
/// and every entry is resolved against the entries before it.
pub proof fn resolve_entries_prefix(ty: IntType, entries: Seq<EntryView>, k: int)
    requires
        resolve_entries(ty, entries) is Ok,
        0 <= k <= entries.len(),
    ensures
        resolve_entries(ty, entries)->Ok_0.len() == entries.len(),
        resolve_entries(ty, entries.take(k)) == Ok::<Seq<BindingView>, (int, Fault)>(
            resolve_entries(ty, entries)->Ok_0.take(k),
        ),
        k < entries.len() ==> entry_value(
            ty,
            entries[k],
            resolve_entries(ty, entries)->Ok_0.take(k),
        ) == Ok::<int, Fault>(resolve_entries(ty, entries)->Ok_0[k].value),
        k < entries.len() ==> resolve_entries(ty, entries)->Ok_0[k].label == entries[k].label,
    decreases entries.len(),
{
    let env = resolve_entries(ty, entries)->Ok_0;
    if entries.len() == 0 {
        assert(entries.take(k) =~= entries);
        assert(env.take(k) =~= env);
    } else {
        let front = entries.drop_last();
        let front_env = resolve_entries(ty, front)->Ok_0;
        resolve_entries_prefix(ty, front, front.len() as int);
        assert(env.drop_last() =~= front_env);
        if k == entries.len() {
            assert(entries.take(k) =~= entries);
            assert(env.take(k) =~= env);
        } else {
            resolve_entries_prefix(ty, front, k);
            assert(front.take(k) =~= entries.take(k));
            assert(front_env.take(k) =~= env.take(k));
            if k == front.len() {
                assert(front_env.take(k) =~= front_env);
            }
        }
    }
}

/// The first entry of a resolved enumeration is zero where it has no
/// explicit value.
pub proof fn first_defaults_to_zero(e: EnumView)
    requires
        resolve_spec(e) is Ok,
        e.entries.len() > 0,
        e.entries[0].explicit_value is None,
    ensures
        resolve_spec(e)->Ok_0.entries[0].value == 0,
{
    let ty = IntType::named(e.underlying_type)->Some_0;
    resolve_entries_prefix(ty, e.entries, 0);
}

/// An entry without an explicit value, other than the first, is its
/// predecessor plus one.
pub proof fn auto_increment(e: EnumView, i: int)
    requires
        resolve_spec(e) is Ok,
        0 < i < e.entries.len(),
        e.entries[i].explicit_value is None,
    ensures
        resolve_spec(e)->Ok_0.entries[i].value == resolve_spec(e)->Ok_0.entries[i - 1].value + 1,
{
    let ty = IntType::named(e.underlying_type)->Some_0;
    resolve_entries_prefix(ty, e.entries, i);
}

/// An entry with an explicit value holds what the expression evaluates to
/// against the entries before it, whatever its predecessor holds.
pub proof fn explicit_value_stands(e: EnumView, i: int)
    requires
        resolve_spec(e) is Ok,
        0 <= i < e.entries.len(),
        e.entries[i].explicit_value is Some,
    ensures
        eval_spec(
            e.entries[i].explicit_value->Some_0,
            resolve_spec(e)->Ok_0.underlying,
            resolve_spec(e)->Ok_0.entries.take(i),
        ) == Ok::<int, EvalError>(resolve_spec(e)->Ok_0.entries[i].value),
{
    let ty = IntType::named(e.underlying_type)->Some_0;
    resolve_entries_prefix(ty, e.entries, i);
}

/// Whether every value of `env` is a value of `ty`.
pub open spec fn all_hold(ty: IntType, env: Seq<BindingView>) -> bool {
    forall|i: int| 0 <= i < env.len() ==> ty.holds((#[trigger] env[i]).value)
}

/// A value that an expression evaluates to lies in the underlying type,
/// where the values of the entries before it do.
pub proof fn eval_in_range(e: ExprView, ty: IntType, env: Seq<BindingView>)
    requires
        eval_spec(e, ty, env) is Ok,
        all_hold(ty, env),
    ensures
        ty.holds(eval_spec(e, ty, env)->Ok_0),
    decreases e,
{
    match e {
        ExprView::Stored(label) => {
            position_is_first(labels(env), label);
        },
        _ => {},
    }
}

/// Every resolved value is a value of the underlying type.
pub proof fn resolved_values_hold(ty: IntType, entries: Seq<EntryView>)
    requires
        resolve_entries(ty, entries) is Ok,
    ensures
        all_hold(ty, resolve_entries(ty, entries)->Ok_0),
    decreases entries.len(),
{
    if entries.len() > 0 {
        let front_env = resolve_entries(ty, entries.drop_last())->Ok_0;
        resolved_values_hold(ty, entries.drop_last());
        ty.range_fits();
        if entries.last().explicit_value is Some {
            eval_in_range(entries.last().explicit_value->Some_0, ty, front_env);
        }
    }
}

/// A resolved enumeration keeps the labels in their order, no label occurs
/// twice in it, and every value is a value of the underlying type.
pub proof fn resolved_is_well_formed(e: EnumView)
    requires
        resolve_spec(e) is Ok,
    ensures
        resolve_spec(e)->Ok_0.entries.len() == e.entries.len(),
        forall|i: int|
            0 <= i < e.entries.len() ==> (#[trigger] resolve_spec(e)->Ok_0.entries[i]).label
                == e.entries[i].label,
        distinct(labels(resolve_spec(e)->Ok_0.entries)),
        all_hold(resolve_spec(e)->Ok_0.underlying, resolve_spec(e)->Ok_0.entries),
{
    let ty = IntType::named(e.underlying_type)->Some_0;
    let env = resolve_spec(e)->Ok_0.entries;
    resolve_entries_prefix(ty, e.entries, 0);
    resolved_values_hold(ty, e.entries);
    assert forall|i: int| 0 <= i < e.entries.len() implies (#[trigger] env[i]).label
        == e.entries[i].label by {
        resolve_entries_prefix(ty, e.entries, i);
    }
    assert forall|i: int, j: int| 0 <= i < j < env.len() implies labels(env)[i] != labels(
        env,
    )[j] by {
        resolve_entries_prefix(ty, e.entries, j);
        let before = env.take(j);
        position_is_first(labels(before), e.entries[j].label);
        assert(labels(before)[i] == env[i].label);
    }
}

/// Finds the first binding that holds the given value.
pub fn find_value(env: &Vec<Binding>, value: i128) -> (r: Option<usize>)
    ensures
        match r {
            Some(i) => i < env.len() && position(values(bindings(env@)), value as int) == Some(
                i as int,
            ),
            None => position(values(bindings(env@)), value as int) is None,
        },
{
    let ghost all = values(bindings(env@));
    let mut i: usize = 0;
    while i < env.len()
        invariant
            i <= env.len(),
            all == values(bindings(env@)),
            position(all.take(i as int), value as int) is None,
        decreases env.len() - i,
    {
        if env[i].value == value {
            proof {
                scan_finds(all, value as int, i as int);
            }
            return Some(i);
        }
        proof {
            scan_passes(all, value as int, i as int);
        }
        i += 1;
    }
    proof {
        scan_ends(all, value as int);
    }
    None
}

/// Resolves one entry against the entries before it.
pub fn resolve_entry(ty: IntType, entry: &EntrySpec, env: &Vec<Binding>) -> (r: Result<
    i128,
    Fault,
>)
    ensures
        match r {
            Ok(v) => entry_value(ty, entry@, bindings(env@)) == Ok::<int, Fault>(v as int),
            Err(fault) => entry_value(ty, entry@, bindings(env@)) == Err::<int, Fault>(fault),
        },
{
    if find_label(env, &entry.label).is_some() {
        return Err(Fault::DuplicateLabel);
    }
    match &entry.explicit_value {
        Some(e) => match e.eval(ty, env) {
            Ok(v) => Ok(v),
            Err(error) => Err(Fault::Expression(error)),
        },
        None => {
            if env.len() == 0 {
                Ok(0)
            } else {
                let previous = env[env.len() - 1].value;
                proof {
                    ty.range_fits();
                }
                if previous < ty.max_value() && ty.contains(previous + 1) {
                    Ok(previous + 1)
                } else {
                    Err(Fault::IncrementOverflow)
                }
            }
        },
    }
}

/// What resolving gave, as mathematical content.
pub open spec fn outcome_view(outcome: Result<ResolvedEnum, ResolveError>) -> Result<
    ResolvedView,
    Failure,
> {
    match outcome {
        Ok(resolved) => Ok(resolved@),
        Err(error) => Err(error@),
    }
}

/// Resolves the value of every entry, in declaration order.
///
/// Fails where the underlying type is not one of the integer types, and at
/// the first entry that repeats a label, whose expression has no value in
/// the underlying type, or that would step past the largest value.
pub fn resolve(spec: &EnumSpec) -> (r: Result<ResolvedEnum, ResolveError>)
    ensures
        outcome_view(r) == resolve_spec(spec@),
{
    let ty = match IntType::from_name(spec.underlying_type.as_str()) {
        Some(ty) => ty,
        None => {
            return Err(ResolveError::UnknownUnderlying);
        },
    };
    let ghost all = entries_view(spec.entries@);
    let mut env: Vec<Binding> = Vec::new();
    let mut i: usize = 0;
    proof {
        assert(bindings(env@) =~= Seq::empty());
    }
    while i < spec.entries.len()
        invariant
            i <= spec.entries.len(),
            all == entries_view(spec.entries@),
            IntType::named(spec.underlying_type@) == Some(ty),
            env.len() == i,
            resolve_entries(ty, all.take(i as int)) == Ok::<Seq<BindingView>, (int, Fault)>(
                bindings(env@),
            ),
        decreases spec.entries.len() - i,
    {
        let entry = &spec.entries[i];
        proof {
            assert(all.take(i + 1).drop_last() =~= all.take(i as int));
            assert(all.take(i + 1).last() == entry@);
        }
        match resolve_entry(ty, entry, &env) {
            Ok(value) => {
                let ghost before = bindings(env@);
                env.push(Binding { label: entry.label.clone(), value });
                proof {
                    assert(bindings(env@) =~= before.push(
                        BindingView { label: entry@.label, value: value as int },
                    ));
                }
            },
            Err(fault) => {
                proof {
                    assert(resolve_entries(ty, all.take(i + 1)) == Err::<
                        Seq<BindingView>,
                        (int, Fault),
                    >((i as int, fault)));
                    resolve_entries_fails_on(ty, all, i as int);
                }
                return Err(ResolveError::Entry { index: i, fault });
            },
        }
        i += 1;
    }
    proof {
        assert(all.take(i as int) =~= all);
    }
    Ok(ResolvedEnum { name: spec.name.clone(), underlying: ty, entries: env })
}

/// Resolves several enumerations. Each is resolved by itself: what one
/// gives depends on no other, and a failure of one stops no other.
pub fn resolve_all(specs: &Vec<EnumSpec>) -> (r: Vec<Result<ResolvedEnum, ResolveError>>)
    ensures
        r.len() == specs.len(),
        forall|i: int|
            0 <= i < specs.len() ==> outcome_view(#[trigger] r[i]) == resolve_spec(specs[i]@),
{
    let mut out: Vec<Result<ResolvedEnum, ResolveError>> = Vec::new();
    let mut i: usize = 0;
    while i < specs.len()
        invariant
            i <= specs.len(),
            out.len() == i,
            forall|j: int|
                0 <= j < i ==> outcome_view(#[trigger] out[j]) == resolve_spec(specs[j]@),
        decreases specs.len() - i,
    {
        out.push(resolve(&specs[i]));
        i += 1;
    }
    out
}

/// Where a prefix of the entries fails, the whole list fails in the same
/// way.
pub proof fn resolve_entries_fails_on(ty: IntType, entries: Seq<EntryView>, k: int)
    requires
        0 <= k < entries.len(),
        resolve_entries(ty, entries.take(k + 1)) is Err,
    ensures
        resolve_entries(ty, entries) == resolve_entries(ty, entries.take(k + 1)),
    decreases entries.len(),
{
    if k + 1 == entries.len() {
        assert(entries.take(k + 1) =~= entries);
    } else {
        assert(entries.drop_last().take(k + 1) =~= entries.take(k + 1));
        resolve_entries_fails_on(ty, entries.drop_last(), k);
    }
}

impl ResolvedEnum {
    /// The constant that a label names, if an entry has the label.
    pub fn constant(&self, label: &str) -> (r: Option<CValue>)
        ensures
            match r {
                Some(c) => value_of(self@.entries, label@) == Some(c.0 as int),
                None => value_of(self@.entries, label@) is None,
            },
    {
        let needle = String::from_str(label);
        match find_label(&self.entries, &needle) {
            Some(i) => Some(CValue(self.entries[i].value)),
            None => None,
        }
    }

    /// The label of a value: that of the first entry, in declaration order,
    /// that holds it; `None` where no entry does.
    pub fn variant_label(&self, value: CValue) -> (r: Option<&str>)
        ensures
            match r {
                Some(label) => label_of(self@.entries, value.0 as int) == Some(label@),
                None => label_of(self@.entries, value.0 as int) is None,
            },
    {
        match find_value(&self.entries, value.0) {
            Some(i) => Some(self.entries[i].label.as_str()),
            None => None,
        }
    }

    /// Shows a value for diagnosis: `Name::Label` where an entry holds it,
    /// `Name(value)` where none does.
    pub fn debug(&self, value: CValue) -> (r: String)
        ensures
            r@ == debug_text(self@, value.0 as int),
    {
        let mut out = self.name.clone();
        match self.variant_label(value) {
            Some(label) => {
                out.append("::");
                out.append(label);
            },
            None => {
                let number = decimal(value.0);
                out.append("(");
                out.append(number.as_str());
                out.append(")");
            },
        }
        out
    }
}

/// Of several entries that hold one value, the first gives the label.
pub proof fn first_entry_gives_label(entries: Seq<BindingView>, i: int)
    requires
        0 <= i < entries.len(),
        forall|j: int| 0 <= j < i ==> entries[j].value != entries[i].value,
    ensures
        label_of(entries, entries[i].value) == Some(entries[i].label),
{
    assert(is_first(values(entries), entries[i].value, i));
    first_is_position(values(entries), entries[i].value, i);
}

/// The label of a value belongs to an entry that holds the value, and no
/// entry before that one holds it.
pub proof fn label_is_first_match(entries: Seq<BindingView>, v: int)
    ensures
        match label_of(entries, v) {
            Some(label) => exists|i: int|
                0 <= i < entries.len() && (#[trigger] entries[i]).value == v && entries[i].label
                    == label && forall|j: int| 0 <= j < i ==> entries[j].value != v,
            None => forall|i: int| 0 <= i < entries.len() ==> (#[trigger] entries[i]).value != v,
        },
{
    position_is_first(values(entries), v);
    match position(values(entries), v) {
        Some(i) => {
            assert(entries[i].value == values(entries)[i]);
            assert forall|j: int| 0 <= j < i implies entries[j].value != v by {
                assert(values(entries)[j] == entries[j].value);
            }
        },
        None => {
            assert forall|i: int| 0 <= i < entries.len() implies (#[trigger] entries[i]).value
                != v by {
                assert(values(entries)[i] == entries[i].value);
            }
        },
    }
}

/// A value that no entry holds has no label, and is shown as the name of
/// the type with the stored value.
pub proof fn undeclared_value_has_no_label(e: ResolvedView, v: int)
    requires
        forall|i: int| 0 <= i < e.entries.len() ==> (#[trigger] e.entries[i]).value != v,
    ensures
        label_of(e.entries, v) is None,
        debug_text(e, v) == e.name + "("@ + decimal_text(v) + ")"@,
{
    position_is_first(values(e.entries), v);
    if position(values(e.entries), v) is Some {
        let i = position(values(e.entries), v)->Some_0;
        assert(values(e.entries)[i] == e.entries[i].value);
    }
}

} // verus!
