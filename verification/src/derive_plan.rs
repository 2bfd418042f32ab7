//! The decisions behind the derived implementations: how the one-method traits
//! compose over the fields of a product type. Rendering a plan as code is left
//! to the procedural macro.

use vstd::prelude::*;

verus! {

/// How a product type lays out its fields.
#[derive(Debug, Clone, Copy, PartialEq, Eq, Structural)]
pub enum FieldsShape {
    /// A struct with that many named fields.
    Named(usize),
    /// A tuple struct with that many fields.
    Unnamed(usize),
    /// A struct without fields.
    Unit,
}

/// How a generated call reaches a field of `self`.
#[derive(Debug, Clone, Copy, PartialEq, Eq, Structural)]
pub enum Member {
    /// By the identifier of the field at that position.
    Name(usize),
    /// By the position itself, as tuple structs are read.
    Position(usize),
}

/// What a generated call hands to the method of a field.
#[derive(Debug, Clone, Copy, PartialEq, Eq, Structural)]
pub enum Argument {
    /// The method takes no input.
    Nothing,
    /// The whole input.
    Input,
    /// The element of the input tuple at that position.
    InputElement(usize),
}

/// One generated call: the trait's method on a field of `self`.
#[derive(Debug, Clone, Copy, PartialEq, Eq, Structural)]
pub struct FieldCall {
    /// The field that the call goes to.
    pub member: Member,
    /// What the call hands over.
    pub argument: Argument,
}

/// Items joined into one expression or type.
#[derive(Debug, PartialEq, Eq)]
pub enum Aggregate<T> {
    /// The items as they stand, without parentheses.
    Plain(Vec<T>),
    /// A tuple of the items.
    Tuple(Vec<T>),
}

impl<T> Aggregate<T> {
    /// The joined items, in their order.
    pub open spec fn items(self) -> Seq<T> {
        match self {
            Aggregate::Plain(items) => items@,
            Aggregate::Tuple(items) => items@,
        }
    }
}

impl FieldsShape {
    /// The number of fields.
    pub open spec fn count(self) -> nat {
        match self {
            FieldsShape::Named(count) => count as nat,
            FieldsShape::Unnamed(count) => count as nat,
            FieldsShape::Unit => 0,
        }
    }

    /// How the field at `idx` is reached.
    pub open spec fn member(self, idx: usize) -> Member {
        match self {
            FieldsShape::Unnamed(_) => Member::Position(idx),
            _ => Member::Name(idx),
        }
    }
}

/// What the call on the field at `idx` hands over, out of `count` fields: every
/// field of several gets its own element of the input, a single field gets
/// the input whole.
pub open spec fn argument_for(count: nat, idx: usize, has_input: bool) -> Argument {
    if !has_input {
        Argument::Nothing
    } else if count > 1 {
        Argument::InputElement(idx)
    } else {
        Argument::Input
    }
}

/// The calls that a derived method makes on `count` fields, in field order.
pub open spec fn field_calls(
    count: nat,
    has_input: bool,
    member: spec_fn(usize) -> Member,
) -> Seq<FieldCall> {
    Seq::new(
        count,
        |idx: int|
            FieldCall {
                member: member(idx as usize),
                argument: argument_for(count, idx as usize, has_input),
            },
    )
}

/// Joins the items: more than one make a tuple, a single one stands alone.
pub fn aggregate_fields<T>(fields: Vec<T>, len: usize) -> (joined: Aggregate<T>)
    ensures
        joined.items() == fields@,
        joined is Tuple <==> len > 1,
{
    if len > 1 {
        Aggregate::Tuple(fields)
    } else {
        Aggregate::Plain(fields)
    }
}

/// Plans the body of a derived method over `count` fields: one call of the
/// trait's method per field, where `cb` says how each field is reached.
pub fn construct_fields_fns<F>(count: usize, has_input: bool, cb: F) -> (joined: Aggregate<
    FieldCall,
>) where F: Fn(usize) -> Member
    requires
        forall|idx: usize| idx < count ==> call_requires(cb, (idx,)),
    ensures
        joined is Tuple <==> count > 1,
        joined.items().len() == count,
        forall|idx: int|
            0 <= idx < count ==> {
                &&& call_ensures(cb, (idx as usize,), (#[trigger] joined.items()[idx]).member)
                &&& joined.items()[idx].argument == argument_for(
                    count as nat,
                    idx as usize,
                    has_input,
                )
            },
{
    let mut calls: Vec<FieldCall> = Vec::new();
    let mut idx: usize = 0;
    while idx < count
        invariant
            idx <= count,
            calls@.len() == idx,
            forall|at: usize| at < count ==> call_requires(cb, (at,)),
            forall|at: int|
                0 <= at < idx ==> {
                    &&& call_ensures(cb, (at as usize,), (#[trigger] calls@[at]).member)
                    &&& calls@[at].argument == argument_for(count as nat, at as usize, has_input)
                },
        decreases count - idx,
    {
        let member = cb(idx);
        let argument = if has_input {
            if count > 1 {
                Argument::InputElement(idx)
            } else {
                Argument::Input
            }
        } else {
            Argument::Nothing
        };
        calls.push(FieldCall { member, argument });
        idx = idx + 1;
    }
    aggregate_fields(calls, count)
}

/// Plans the body of a derived method for a product type: named fields are
/// reached by their identifiers, the fields of a tuple struct by position.
/// A struct without fields has no derived implementation.
pub fn fields_fns(shape: FieldsShape, has_input: bool) -> (joined: Aggregate<FieldCall>)
    requires
        shape !is Unit,
    ensures
        joined is Tuple <==> shape.count() > 1,
        joined.items() == field_calls(shape.count(), has_input, |idx: usize| shape.member(idx)),
{
    match shape {
        FieldsShape::Named(count) => {
            let by_name = |idx: usize| -> (member: Member)
                ensures
                    member == Member::Name(idx),
                { Member::Name(idx) };
            let joined = construct_fields_fns(count, has_input, by_name);
            assert(joined.items() =~= field_calls(
                shape.count(),
                has_input,
                |idx: usize| shape.member(idx),
            ));
            joined
        },
        FieldsShape::Unnamed(count) => {
            let by_position = |idx: usize| -> (member: Member)
                ensures
                    member == Member::Position(idx),
                { Member::Position(idx) };
            let joined = construct_fields_fns(count, has_input, by_position);
            assert(joined.items() =~= field_calls(
                shape.count(),
                has_input,
                |idx: usize| shape.member(idx),
            ));
            joined
        },
        FieldsShape::Unit => vstd::pervasive::unreached(),
    }
}

/// Plans an associated type of a derived implementation: the associated types
/// of the fields, each named by its field's position, in field order.
/// A struct without fields has no derived implementation.
pub fn fields_types(shape: FieldsShape) -> (joined: Aggregate<usize>)
    requires
        shape !is Unit,
    ensures
        joined is Tuple <==> shape.count() > 1,
        joined.items() == Seq::new(shape.count(), |idx: int| idx as usize),
{
    let count = match shape {
        FieldsShape::Named(count) => count,
        FieldsShape::Unnamed(count) => count,
        FieldsShape::Unit => vstd::pervasive::unreached(),
    };
    let mut positions: Vec<usize> = Vec::new();
    let mut idx: usize = 0;
    while idx < count
        invariant
            idx <= count,
            positions@ == Seq::new(idx as nat, |at: int| at as usize),
        decreases count - idx,
    {
        positions.push(idx);
        assert(positions@ =~= Seq::new((idx + 1) as nat, |at: int| at as usize));
        idx = idx + 1;
    }
    aggregate_fields(positions, count)
}

} // verus!
