//! Identifier handling of the data-frame service's requests, and the
//! collection operation that each request asks for.

use vstd::prelude::*;
use crate::delimited::{text_eq, texts};

verus! {

/// One identifier field of a request: a string, or an integer, which the
/// service does not accept.
#[derive(Clone, Debug, PartialEq, Eq)]
pub enum Identifier {
    Str(String),
    Int(i64),
}

/// Why a request's identifiers were refused.
#[derive(Clone, Copy, Debug, PartialEq, Eq)]
pub enum RequestError {
    /// An identifier was given as an integer.
    IntegerIdentifier,
    /// The identifiers present match no form the request accepts.
    InvalidIdentifierPattern,
}

/// The identifiers of a mutating request: `identifier` names a trading
/// system, `alt_identifier` an instrument.
#[derive(Clone, Debug, PartialEq, Eq)]
pub struct OperateOn {
    pub identifier: Option<Identifier>,
    pub alt_identifier: Option<Identifier>,
}

/// The identifiers of a presence query: `identifier` names a trading
/// system, `alt_identifier` an instrument.
#[derive(Clone, Debug, PartialEq, Eq)]
pub struct GetBy {
    pub identifier: Option<Identifier>,
    pub alt_identifier: Option<Identifier>,
}

/// An identifier field given as an integer.
pub open spec fn is_int_id(o: Option<Identifier>) -> bool {
    o matches Some(Identifier::Int(_))
}

/// The text of an identifier field given as a string; `None` if absent.
pub open spec fn id_text(o: Option<Identifier>) -> Option<Seq<char>> {
    match o {
        Some(Identifier::Str(s)) => Some(s@),
        _ => None,
    }
}

/// The text of an optional string.
pub open spec fn opt_text(o: Option<String>) -> Option<Seq<char>> {
    match o {
        Some(s) => Some(s@),
        None => None,
    }
}

/// Both identifier fields as optional texts; refused if either is an integer.
pub open spec fn parse_ids(id: Option<Identifier>, alt: Option<Identifier>) -> Result<
    (Option<Seq<char>>, Option<Seq<char>>),
    RequestError,
> {
    if is_int_id(id) || is_int_id(alt) {
        Err(RequestError::IntegerIdentifier)
    } else {
        Ok((id_text(id), id_text(alt)))
    }
}

/// The view of a parse result: its strings as texts.
pub open spec fn ids_view(r: Result<(Option<String>, Option<String>), RequestError>) -> Result<
    (Option<Seq<char>>, Option<Seq<char>>),
    RequestError,
> {
    match r {
        Ok((a, b)) => Ok((opt_text(a), opt_text(b))),
        Err(e) => Err(e),
    }
}

fn id_string(o: &Option<Identifier>) -> (r: Result<Option<String>, RequestError>)
    ensures
        is_int_id(*o) <==> r is Err,
        r is Err ==> r == Err::<Option<String>, RequestError>(RequestError::IntegerIdentifier),
        r matches Ok(x) ==> opt_text(x) == id_text(*o),
{
    match o {
        Some(Identifier::Str(s)) => Ok(Some(s.clone())),
        Some(Identifier::Int(_)) => Err(RequestError::IntegerIdentifier),
        None => Ok(None),
    }
}

fn parse_pair(id: &Option<Identifier>, alt: &Option<Identifier>) -> (r: Result<
    (Option<String>, Option<String>),
    RequestError,
>)
    ensures
        ids_view(r) == parse_ids(*id, *alt),
{
    let a = match id_string(id) {
        Ok(a) => a,
        Err(e) => return Err(e),
    };
    let b = match id_string(alt) {
        Ok(b) => b,
        Err(e) => return Err(e),
    };
    Ok((a, b))
}

/// What the identifiers of a mutating request address.
#[derive(Clone, Debug, PartialEq, Eq)]
pub enum Target {
    /// One (instrument, trading system) pair.
    Pair { trading_system_id: String, instrument_id: String },
    /// Every frame of one trading system.
    TradingSystem { trading_system_id: String },
    /// Every frame of one instrument.
    Instrument { instrument_id: String },
}

/// What a [`Target`] addresses, with its identifiers as texts.
pub enum SpecTarget {
    Pair { trading_system_id: Seq<char>, instrument_id: Seq<char> },
    TradingSystem { trading_system_id: Seq<char> },
    Instrument { instrument_id: Seq<char> },
}

impl View for Target {
    type V = SpecTarget;

    open spec fn view(&self) -> SpecTarget {
        match self {
            Target::Pair { trading_system_id, instrument_id } => SpecTarget::Pair {
                trading_system_id: trading_system_id@,
                instrument_id: instrument_id@,
            },
            Target::TradingSystem { trading_system_id } => SpecTarget::TradingSystem {
                trading_system_id: trading_system_id@,
            },
            Target::Instrument { instrument_id } => SpecTarget::Instrument {
                instrument_id: instrument_id@,
            },
        }
    }
}

/// The target that a pair of optional identifiers names: both name a pair,
/// a trading system alone all its frames, an instrument alone all its frames.
pub open spec fn target_of(ids: (Option<Seq<char>>, Option<Seq<char>>)) -> Option<SpecTarget> {
    match ids {
        (Some(t), Some(i)) => Some(SpecTarget::Pair { trading_system_id: t, instrument_id: i }),
        (Some(t), None) => Some(SpecTarget::TradingSystem { trading_system_id: t }),
        (None, Some(i)) => Some(SpecTarget::Instrument { instrument_id: i }),
        (None, None) => None,
    }
}

/// The target that a request's identifier fields name, or why they were refused.
pub open spec fn request_target(id: Option<Identifier>, alt: Option<Identifier>) -> Result<
    SpecTarget,
    RequestError,
> {
    match parse_ids(id, alt) {
        Err(e) => Err(e),
        Ok(ids) => match target_of(ids) {
            Some(t) => Ok(t),
            None => Err(RequestError::InvalidIdentifierPattern),
        },
    }
}

/// The view of a target result.
pub open spec fn target_view(r: Result<Target, RequestError>) -> Result<SpecTarget, RequestError> {
    match r {
        Ok(t) => Ok(t@),
        Err(e) => Err(e),
    }
}

/// The pair that a request's identifier fields name, or why they were refused.
pub open spec fn request_pair(id: Option<Identifier>, alt: Option<Identifier>) -> Result<
    SpecTarget,
    RequestError,
> {
    match request_target(id, alt) {
        Ok(SpecTarget::Pair { trading_system_id, instrument_id }) => Ok(
            SpecTarget::Pair { trading_system_id, instrument_id },
        ),
        Ok(_) => Err(RequestError::InvalidIdentifierPattern),
        Err(e) => Err(e),
    }
}

fn target_from(ids: (Option<String>, Option<String>)) -> (r: Option<Target>)
    ensures
        match target_of((opt_text(ids.0), opt_text(ids.1))) {
            Some(t) => r matches Some(x) && x@ == t,
            None => r is None,
        },
{
    match ids {
        (Some(t), Some(i)) => Some(Target::Pair { trading_system_id: t, instrument_id: i }),
        (Some(t), None) => Some(Target::TradingSystem { trading_system_id: t }),
        (None, Some(i)) => Some(Target::Instrument { instrument_id: i }),
        (None, None) => None,
    }
}

fn target_of_ids(id: &Option<Identifier>, alt: &Option<Identifier>) -> (r: Result<Target, RequestError>)
    ensures
        target_view(r) == request_target(*id, *alt),
{
    match parse_pair(id, alt) {
        Err(e) => Err(e),
        Ok(ids) => match target_from(ids) {
            Some(t) => Ok(t),
            None => Err(RequestError::InvalidIdentifierPattern),
        },
    }
}

fn pair_of_ids(id: &Option<Identifier>, alt: &Option<Identifier>) -> (r: Result<Target, RequestError>)
    ensures
        target_view(r) == request_pair(*id, *alt),
        r matches Ok(t) ==> t is Pair,
{
    match target_of_ids(id, alt) {
        Ok(Target::Pair { trading_system_id, instrument_id }) => Ok(
            Target::Pair { trading_system_id, instrument_id },
        ),
        Ok(_) => Err(RequestError::InvalidIdentifierPattern),
        Err(e) => Err(e),
    }
}

impl OperateOn {
    /// Both identifier fields as optional strings; an integer identifier in
    /// either field is refused.
    pub fn parse(&self) -> (r: Result<(Option<String>, Option<String>), RequestError>)
        ensures
            ids_view(r) == parse_ids(self.identifier, self.alt_identifier),
    {
        parse_pair(&self.identifier, &self.alt_identifier)
    }

    /// What an eviction request addresses: a pair, every frame of a trading
    /// system, or every frame of an instrument.
    pub fn eviction_target(&self) -> (r: Result<Target, RequestError>)
        ensures
            target_view(r) == request_target(self.identifier, self.alt_identifier),
    {
        target_of_ids(&self.identifier, &self.alt_identifier)
    }

    /// The pair that a mapping or an entry removal addresses; both
    /// identifiers must be given.
    pub fn pair_target(&self) -> (r: Result<Target, RequestError>)
        ensures
            target_view(r) == request_pair(self.identifier, self.alt_identifier),
            r matches Ok(t) ==> t is Pair,
    {
        pair_of_ids(&self.identifier, &self.alt_identifier)
    }
}

impl GetBy {
    /// Both identifier fields as optional strings; an integer identifier in
    /// either field is refused.
    pub fn parse(&self) -> (r: Result<(Option<String>, Option<String>), RequestError>)
        ensures
            ids_view(r) == parse_ids(self.identifier, self.alt_identifier),
    {
        parse_pair(&self.identifier, &self.alt_identifier)
    }

    /// What a presence query asks about: a pair, or whether a trading system
    /// is registered; an instrument alone is no query.
    pub fn presence_target(&self) -> (r: Result<Target, RequestError>)
        ensures
            target_view(r) == (match request_target(self.identifier, self.alt_identifier) {
                Ok(SpecTarget::Instrument { .. }) => Err(RequestError::InvalidIdentifierPattern),
                other => other,
            }),
            !(r matches Ok(Target::Instrument { .. })),
    {
        match target_of_ids(&self.identifier, &self.alt_identifier) {
            Ok(Target::Instrument { .. }) => Err(RequestError::InvalidIdentifierPattern),
            other => other,
        }
    }
}

/// The trading system whose minimum row count a request sets: `None` when
/// the request names nothing (no change); refused when the trading system
/// is named by an integer, or not named.
pub fn minimum_rows_target(operate_on: &Option<OperateOn>) -> (r: Result<Option<String>, RequestError>)
    ensures
        match operate_on {
            None => r == Ok::<Option<String>, RequestError>(None),
            Some(o) => match o.identifier {
                Some(Identifier::Str(t)) => r matches Ok(Some(x)) && x@ == t@,
                Some(Identifier::Int(_)) => r == Err::<Option<String>, RequestError>(
                    RequestError::IntegerIdentifier,
                ),
                None => r == Err::<Option<String>, RequestError>(RequestError::InvalidIdentifierPattern),
            },
        },
{
    match operate_on {
        None => Ok(None),
        Some(o) => match &o.identifier {
            Some(Identifier::Str(t)) => Ok(Some(t.clone())),
            Some(Identifier::Int(_)) => Err(RequestError::IntegerIdentifier),
            None => Err(RequestError::InvalidIdentifierPattern),
        },
    }
}

/// Whether `keys` holds the identifier `id`.
pub fn contains_key(keys: &Vec<String>, id: &str) -> (r: bool)
    ensures
        r == texts(keys@).contains(id@),
{
    let mut k: usize = 0;
    while k < keys.len()
        invariant
            k <= keys@.len(),
            forall|j: int| 0 <= j < k ==> keys@[j]@ != id@,
        decreases keys@.len() - k,
    {
        if text_eq(keys[k].as_str(), id) {
            assert(texts(keys@)[k as int] == id@);
            return true;
        }
        k = k + 1;
    }
    assert(!texts(keys@).contains(id@)) by {
        if texts(keys@).contains(id@) {
            let j = choose|j: int| 0 <= j < texts(keys@).len() && texts(keys@)[j] == id@;
            assert(keys@[j]@ == id@);
        }
    }
    false
}

} // verus!
