use grafbase_core::enum_seed::{
    EnumInput, EnumResponseValue, EnumValueDecision, EnumValueLookup, EnumValueOutcome, EnumValueSeed, VisitResult,
};

fn seed(report_errors: bool, is_required: bool) -> EnumValueSeed {
    EnumValueSeed { report_errors, is_required }
}

#[test]
fn visit_reads_names_and_missing_values() {
    let s = seed(true, false);
    assert_eq!(s.visit(EnumInput::Text("RED".to_string())), VisitResult::Name("RED".to_string()));
    assert_eq!(s.visit(EnumInput::Missing), VisitResult::Value(EnumResponseValue::Null));
    assert_eq!(s.visit(EnumInput::Unit), VisitResult::Value(EnumResponseValue::Null));
    assert_eq!(seed(true, true).visit(EnumInput::Missing), VisitResult::WrongType);
    assert_eq!(s.visit(EnumInput::Integer), VisitResult::WrongType);
    assert_eq!(s.visit(EnumInput::Sequence), VisitResult::WrongType);
    assert_eq!(s.visit(EnumInput::NewtypeStruct), VisitResult::Value(EnumResponseValue::Unexpected));
}

#[test]
fn known_values() {
    let found = EnumValueLookup::Found { name_id: 4, is_inaccessible: false };
    let d = seed(true, true).resolve(found);
    assert_eq!(
        d,
        EnumValueDecision {
            propagate_null: false,
            report_error: false,
            outcome: EnumValueOutcome::Value(EnumResponseValue::StringId { id: 4 })
        }
    );
}

#[test]
fn inaccessible_values() {
    let found = EnumValueLookup::Found { name_id: 9, is_inaccessible: true };
    let v = EnumResponseValue::StringId { id: 9 };
    let d = seed(true, true).resolve(found);
    assert!(d.propagate_null && !d.report_error);
    assert_eq!(d.outcome, EnumValueOutcome::Value(v));
    let d = seed(true, false).resolve(found);
    assert!(!d.propagate_null && !d.report_error);
    assert_eq!(d.outcome, EnumValueOutcome::Inaccessible(v));
    let d = seed(false, true).resolve(found);
    assert!(!d.propagate_null && !d.report_error);
    assert_eq!(d.outcome, EnumValueOutcome::Value(v));
}

#[test]
fn unknown_values_and_wrong_types() {
    let unexpected = EnumValueOutcome::Value(EnumResponseValue::Unexpected);
    for (report, required) in [(true, true), (true, false), (false, true), (false, false)] {
        let s = seed(report, required);
        let d = s.resolve(EnumValueLookup::NotFound);
        assert_eq!(d.outcome, unexpected);
        assert_eq!(d.report_error, report);
        assert_eq!(d.propagate_null, report && required);
        assert_eq!(s.unexpected_type(), d);
    }
}

#[test]
fn decode_dispatches_on_what_was_read() {
    let s = seed(true, true);
    let d = s.decode(VisitResult::Name("RED".to_string()), |name| {
        assert_eq!(name, "RED");
        EnumValueLookup::Found { name_id: 1, is_inaccessible: false }
    });
    assert_eq!(d, Ok(s.resolve(EnumValueLookup::Found { name_id: 1, is_inaccessible: false })));
    let d = s.decode(VisitResult::Name("PINK".to_string()), |_| EnumValueLookup::NotFound);
    assert_eq!(d, Ok(s.unexpected_type()));
    let d = s.decode(VisitResult::WrongType, |_| unreachable!());
    assert_eq!(d, Ok(s.unexpected_type()));
    let d = s.decode(VisitResult::Value(EnumResponseValue::Null), |_| unreachable!());
    assert_eq!(d, Err(EnumResponseValue::Null));
}
