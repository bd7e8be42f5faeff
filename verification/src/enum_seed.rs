//! Decoding of an enum value in a subgraph response: which value the response gets, and
//! whether the error is reported and null propagated.

use vstd::prelude::*;

verus! {

/// A value written into the response for an enum field.
#[derive(Debug, Clone, Copy, PartialEq, Eq, Structural)]
pub enum EnumResponseValue {
    Null,
    /// Stands in for a value the subgraph sent wrongly; equivalent to null for users.
    Unexpected,
    /// The enum value, by the id of its name in the schema.
    StringId { id: usize },
}

/// What the subgraph response holds where an enum value was expected.
#[derive(Debug, Clone, PartialEq, Eq)]
pub enum EnumInput {
    Text(String),
    Bool,
    Integer,
    Float,
    Bytes,
    Sequence,
    Mapping,
    Enum,
    Missing,
    Unit,
    /// A marker that an error there was already handled.
    NewtypeStruct,
}

/// The outcome of reading the input.
#[derive(Debug, Clone, PartialEq, Eq)]
pub enum VisitResult {
    /// A name, to look up among the enum's values.
    Name(String),
    /// A value that needs no lookup.
    Value(EnumResponseValue),
    /// Input of the wrong type, to be handled by `unexpected_type`.
    WrongType,
}

/// What the schema says of a name looked up among the enum's values.
#[derive(Debug, Clone, Copy, PartialEq, Eq, Structural)]
pub enum EnumValueLookup {
    Found { name_id: usize, is_inaccessible: bool },
    NotFound,
}

/// Where the decided value goes.
#[derive(Debug, Clone, Copy, PartialEq, Eq, Structural)]
pub enum EnumValueOutcome {
    /// The value itself is the field's value.
    Value(EnumResponseValue),
    /// The value is stored among the inaccessible values and the field refers to it.
    Inaccessible(EnumResponseValue),
}

/// The decision for one enum value.
#[derive(Debug, Clone, Copy, PartialEq, Eq, Structural)]
pub struct EnumValueDecision {
    /// Null is propagated from the field's path.
    pub propagate_null: bool,
    /// An invalid-subgraph-response error is recorded at the field's path and location.
    pub report_error: bool,
    pub outcome: EnumValueOutcome,
}

/// How an enum value is decoded for a field.
#[derive(Debug, Clone, Copy, PartialEq, Eq, Structural)]
pub struct EnumValueSeed {
    /// Errors are reported for this field.
    pub report_errors: bool,
    /// The field is non-null.
    pub is_required: bool,
}

impl EnumValueSeed {
    /// The decision for input of the wrong type: the field becomes `Unexpected`, the error
    /// is reported when errors are reported for the field, and null is propagated too when
    /// the field is also required.
    pub open spec fn spec_unexpected(self) -> EnumValueDecision {
        EnumValueDecision {
            propagate_null: self.report_errors && self.is_required,
            report_error: self.report_errors,
            outcome: EnumValueOutcome::Value(EnumResponseValue::Unexpected),
        }
    }

    pub open spec fn spec_visit(self, input: EnumInput) -> VisitResult {
        match input {
            EnumInput::Text(s) => VisitResult::Name(s),
            EnumInput::Missing | EnumInput::Unit => if self.is_required {
                VisitResult::WrongType
            } else {
                VisitResult::Value(EnumResponseValue::Null)
            },
            EnumInput::NewtypeStruct => VisitResult::Value(EnumResponseValue::Unexpected),
            _ => VisitResult::WrongType,
        }
    }

    pub open spec fn spec_resolve(self, lookup: EnumValueLookup) -> EnumValueDecision {
        match lookup {
            EnumValueLookup::Found { name_id, is_inaccessible } => {
                let value = EnumResponseValue::StringId { id: name_id };
                if self.report_errors && is_inaccessible {
                    if self.is_required {
                        EnumValueDecision {
                            propagate_null: true,
                            report_error: false,
                            outcome: EnumValueOutcome::Value(value),
                        }
                    } else {
                        EnumValueDecision {
                            propagate_null: false,
                            report_error: false,
                            outcome: EnumValueOutcome::Inaccessible(value),
                        }
                    }
                } else {
                    EnumValueDecision {
                        propagate_null: false,
                        report_error: false,
                        outcome: EnumValueOutcome::Value(value),
                    }
                }
            },
            EnumValueLookup::NotFound => self.spec_unexpected(),
        }
    }

    /// Reads what the response holds: text is a name to look up; a missing value is null
    /// for an optional field and of the wrong type for a required one; a handled-error
    /// marker is `Unexpected`; anything else is of the wrong type.
    pub fn visit(&self, input: EnumInput) -> (r: VisitResult)
        ensures
            r == self.spec_visit(input),
    {
        match input {
            EnumInput::Text(s) => VisitResult::Name(s),
            EnumInput::Missing | EnumInput::Unit => {
                if self.is_required {
                    VisitResult::WrongType
                } else {
                    VisitResult::Value(EnumResponseValue::Null)
                }
            },
            EnumInput::NewtypeStruct => VisitResult::Value(EnumResponseValue::Unexpected),
            _ => VisitResult::WrongType,
        }
    }

    /// The decision for input of the wrong type.
    pub fn unexpected_type(&self) -> (r: EnumValueDecision)
        ensures
            r == self.spec_unexpected(),
    {
        EnumValueDecision {
            propagate_null: self.report_errors && self.is_required,
            report_error: self.report_errors,
            outcome: EnumValueOutcome::Value(EnumResponseValue::Unexpected),
        }
    }

    /// The decision for a name, given what the schema says of it. A known value is the
    /// field's value, except that an inaccessible one, when errors are reported, propagates
    /// null from a required field and is stored apart for an optional one. An unknown name
    /// is handled as input of the wrong type.
    pub fn resolve(&self, lookup: EnumValueLookup) -> (r: EnumValueDecision)
        ensures
            r == self.spec_resolve(lookup),
    {
        match lookup {
            EnumValueLookup::Found { name_id, is_inaccessible } => {
                let value = EnumResponseValue::StringId { id: name_id };
                if self.report_errors && is_inaccessible {
                    if self.is_required {
                        EnumValueDecision {
                            propagate_null: true,
                            report_error: false,
                            outcome: EnumValueOutcome::Value(value),
                        }
                    } else {
                        EnumValueDecision {
                            propagate_null: false,
                            report_error: false,
                            outcome: EnumValueOutcome::Inaccessible(value),
                        }
                    }
                } else {
                    EnumValueDecision {
                        propagate_null: false,
                        report_error: false,
                        outcome: EnumValueOutcome::Value(value),
                    }
                }
            },
            EnumValueLookup::NotFound => self.unexpected_type(),
        }
    }

    /// Decodes a visited input: a name is looked up with `lookup` and resolved; input of
    /// the wrong type is handled by `unexpected_type`; a value that needs no lookup is
    /// handed back as the error side, to be written as it is.
    pub fn decode<F: FnOnce(String) -> EnumValueLookup>(&self, visited: VisitResult, lookup: F) -> (r:
        Result<EnumValueDecision, EnumResponseValue>)
        requires
            visited matches VisitResult::Name(n) ==> call_requires(lookup, (n,)),
        ensures
            match visited {
                VisitResult::Name(n) => exists|l: EnumValueLookup|
                    call_ensures(lookup, (n,), l) && r == Ok::<EnumValueDecision, EnumResponseValue>(
                        self.spec_resolve(l),
                    ),
                VisitResult::WrongType => r == Ok::<EnumValueDecision, EnumResponseValue>(
                    self.spec_unexpected(),
                ),
                VisitResult::Value(v) => r == Err::<EnumValueDecision, EnumResponseValue>(v),
            },
    {
        match visited {
            VisitResult::Name(n) => {
                let found = lookup(n);
                Ok(self.resolve(found))
            },
            VisitResult::WrongType => Ok(self.unexpected_type()),
            VisitResult::Value(v) => Err(v),
        }
    }
}

/// What resolving a looked-up name gives, for every seed:
/// - a known value that is not inaccessible is written as itself, with no error and no
///   null propagated;
/// - a value is stored apart as inaccessible only when it is inaccessible, errors are
///   reported for the field and the field is optional;
/// - an inaccessible value of a required field whose errors are reported propagates null
///   and is still the field's value;
/// - an unknown name is written as `Unexpected`, and only an unknown name reports an error,
///   exactly when errors are reported for the field.
pub proof fn lemma_resolve_laws(seed: EnumValueSeed, lookup: EnumValueLookup, name_id: usize)
    ensures
        seed.spec_resolve(EnumValueLookup::Found { name_id, is_inaccessible: false }) == (
        EnumValueDecision {
            propagate_null: false,
            report_error: false,
            outcome: EnumValueOutcome::Value(EnumResponseValue::StringId { id: name_id }),
        }),
        seed.report_errors && seed.is_required ==> seed.spec_resolve(
            EnumValueLookup::Found { name_id, is_inaccessible: true },
        ) == (EnumValueDecision {
            propagate_null: true,
            report_error: false,
            outcome: EnumValueOutcome::Value(EnumResponseValue::StringId { id: name_id }),
        }),
        seed.spec_resolve(lookup).outcome matches EnumValueOutcome::Inaccessible(v) ==> {
            &&& lookup matches EnumValueLookup::Found { name_id: found, is_inaccessible }
            &&& is_inaccessible
            &&& v == EnumResponseValue::StringId { id: found }
            &&& seed.report_errors
            &&& !seed.is_required
        },
        lookup is NotFound ==> seed.spec_resolve(lookup).outcome == EnumValueOutcome::Value(
            EnumResponseValue::Unexpected,
        ),
        seed.spec_resolve(lookup).report_error <==> (lookup is NotFound && seed.report_errors),
        seed.spec_resolve(lookup).propagate_null ==> seed.report_errors && seed.is_required,
{
}

/// An error is never reported, nor null propagated, for a field whose errors are not
/// reported; and null is propagated only from a required field.
pub proof fn lemma_quiet_fields_stay_quiet(seed: EnumValueSeed, lookup: EnumValueLookup)
    ensures
        !seed.report_errors ==> !seed.spec_resolve(lookup).report_error && !seed.spec_resolve(
            lookup,
        ).propagate_null,
        seed.spec_resolve(lookup).propagate_null ==> seed.is_required,
        !seed.report_errors ==> !seed.spec_unexpected().report_error && !seed.spec_unexpected().propagate_null,
        seed.spec_unexpected().propagate_null ==> seed.is_required,
{
}

} // verus!
