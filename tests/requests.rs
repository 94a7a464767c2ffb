use data_frame_service::request::{
    contains_key, minimum_rows_target, GetBy, Identifier, OperateOn, RequestError, Target,
};

fn s(x: &str) -> Option<Identifier> {
    Some(Identifier::Str(String::from(x)))
}

fn op(identifier: Option<Identifier>, alt_identifier: Option<Identifier>) -> OperateOn {
    OperateOn { identifier, alt_identifier }
}

#[test]
fn operate_on_parse_gives_both_ids() {
    assert_eq!(
        op(s("mom"), s("AAPL")).parse(),
        Ok((Some(String::from("mom")), Some(String::from("AAPL"))))
    );
    assert_eq!(op(None, s("AAPL")).parse(), Ok((None, Some(String::from("AAPL")))));
    assert_eq!(op(None, None).parse(), Ok((None, None)));
}

#[test]
fn integer_identifiers_are_refused() {
    assert_eq!(
        op(Some(Identifier::Int(3)), s("AAPL")).parse(),
        Err(RequestError::IntegerIdentifier)
    );
    let get = GetBy { identifier: s("mom"), alt_identifier: Some(Identifier::Int(7)) };
    assert_eq!(get.parse(), Err(RequestError::IntegerIdentifier));
    assert_eq!(get.presence_target(), Err(RequestError::IntegerIdentifier));
}

#[test]
fn eviction_targets() {
    assert_eq!(
        op(s("mom"), s("AAPL")).eviction_target(),
        Ok(Target::Pair {
            trading_system_id: String::from("mom"),
            instrument_id: String::from("AAPL")
        })
    );
    assert_eq!(
        op(s("mom"), None).eviction_target(),
        Ok(Target::TradingSystem { trading_system_id: String::from("mom") })
    );
    assert_eq!(
        op(None, s("AAPL")).eviction_target(),
        Ok(Target::Instrument { instrument_id: String::from("AAPL") })
    );
    assert_eq!(op(None, None).eviction_target(), Err(RequestError::InvalidIdentifierPattern));
}

#[test]
fn pair_target_needs_both_ids() {
    assert!(op(s("mom"), s("AAPL")).pair_target().is_ok());
    assert_eq!(op(s("mom"), None).pair_target(), Err(RequestError::InvalidIdentifierPattern));
    assert_eq!(op(None, s("AAPL")).pair_target(), Err(RequestError::InvalidIdentifierPattern));
}

#[test]
fn presence_targets() {
    let pair = GetBy { identifier: s("mom"), alt_identifier: s("AAPL") };
    assert!(matches!(pair.presence_target(), Ok(Target::Pair { .. })));
    let system = GetBy { identifier: s("mom"), alt_identifier: None };
    assert_eq!(
        system.presence_target(),
        Ok(Target::TradingSystem { trading_system_id: String::from("mom") })
    );
    let instrument = GetBy { identifier: None, alt_identifier: s("AAPL") };
    assert_eq!(instrument.presence_target(), Err(RequestError::InvalidIdentifierPattern));
}

#[test]
fn minimum_rows_targets() {
    assert_eq!(minimum_rows_target(&None), Ok(None));
    assert_eq!(minimum_rows_target(&Some(op(s("mom"), None))), Ok(Some(String::from("mom"))));
    assert_eq!(
        minimum_rows_target(&Some(op(Some(Identifier::Int(1)), None))),
        Err(RequestError::IntegerIdentifier)
    );
    assert_eq!(
        minimum_rows_target(&Some(op(None, s("AAPL")))),
        Err(RequestError::InvalidIdentifierPattern)
    );
}

#[test]
fn key_membership() {
    let keys = vec![String::from("mom"), String::from("ml")];
    assert!(contains_key(&keys, "ml"));
    assert!(!contains_key(&keys, "m"));
    assert!(!contains_key(&Vec::new(), "mom"));
}
