//! The discovery ("info") and retrieval ("ticket") command grammars.

use vstd::prelude::*;
pub use crate::delimited::DELIMITER;
use crate::delimited::{
    is_field, join_delimited, join_fields, lemma_join_split, lemma_split_join, lemma_split_nonempty,
    split_delimited, split_fields, text_eq, texts,
};

verus! {

/// The reserved token that names an instrument identifier.
pub const INSTRUMENT: &'static str = "instrument";

/// The reserved token that names a trading-system identifier.
pub const TRADING_SYSTEM: &'static str = "trading_system";


/// A parsed discovery command.
#[derive(Clone, Debug, PartialEq, Eq)]
pub enum InfoCommand {
    /// `trading_system`: list the registered trading systems.
    TradingSystems,
    /// `trading_system:<id>`: list the instruments mapped to a trading system.
    TradingSystem(String),
    /// `instrument:<id>`: list the trading systems mapped to an instrument.
    Instrument(String),
    /// Anything else.
    Unknown,
}

/// What an [`InfoCommand`] holds, with its identifiers as texts.
pub enum SpecInfoCommand {
    TradingSystems,
    TradingSystem(Seq<char>),
    Instrument(Seq<char>),
    Unknown,
}

impl View for InfoCommand {
    type V = SpecInfoCommand;

    open spec fn view(&self) -> SpecInfoCommand {
        match self {
            InfoCommand::TradingSystems => SpecInfoCommand::TradingSystems,
            InfoCommand::TradingSystem(t) => SpecInfoCommand::TradingSystem(t@),
            InfoCommand::Instrument(i) => SpecInfoCommand::Instrument(i@),
            InfoCommand::Unknown => SpecInfoCommand::Unknown,
        }
    }
}

/// A parsed retrieval command.
#[derive(Clone, Debug, PartialEq, Eq)]
pub enum TicketCommand {
    /// `trading_system:<t>:instrument:<i>`
    TradingSystemInstrument { trading_system_id: String, instrument_id: String },
    /// `trading_system:<t>:instrument:<i1>:...:<in>`, two or more instruments.
    TradingSystemInstruments { trading_system_id: String, instrument_ids: Vec<String> },
    /// `instrument:<i>:trading_system:<t>`
    InstrumentTradingSystem { instrument_id: String, trading_system_id: String },
    /// `instrument:<i>:trading_system:<t1>:...:<tn>`, two or more trading systems.
    InstrumentTradingSystems { instrument_id: String, trading_system_ids: Vec<String> },
    /// Anything else.
    Unknown,
}

/// What a [`TicketCommand`] holds, with its identifiers as texts.
pub enum SpecTicketCommand {
    TradingSystemInstrument { trading_system_id: Seq<char>, instrument_id: Seq<char> },
    TradingSystemInstruments { trading_system_id: Seq<char>, instrument_ids: Seq<Seq<char>> },
    InstrumentTradingSystem { instrument_id: Seq<char>, trading_system_id: Seq<char> },
    InstrumentTradingSystems { instrument_id: Seq<char>, trading_system_ids: Seq<Seq<char>> },
    Unknown,
}

impl View for TicketCommand {
    type V = SpecTicketCommand;

    open spec fn view(&self) -> SpecTicketCommand {
        match self {
            TicketCommand::TradingSystemInstrument { trading_system_id, instrument_id } =>
                SpecTicketCommand::TradingSystemInstrument {
                trading_system_id: trading_system_id@,
                instrument_id: instrument_id@,
            },
            TicketCommand::TradingSystemInstruments { trading_system_id, instrument_ids } =>
                SpecTicketCommand::TradingSystemInstruments {
                trading_system_id: trading_system_id@,
                instrument_ids: texts(instrument_ids@),
            },
            TicketCommand::InstrumentTradingSystem { instrument_id, trading_system_id } =>
                SpecTicketCommand::InstrumentTradingSystem {
                instrument_id: instrument_id@,
                trading_system_id: trading_system_id@,
            },
            TicketCommand::InstrumentTradingSystems { instrument_id, trading_system_ids } =>
                SpecTicketCommand::InstrumentTradingSystems {
                instrument_id: instrument_id@,
                trading_system_ids: texts(trading_system_ids@),
            },
            TicketCommand::Unknown => SpecTicketCommand::Unknown,
        }
    }
}

/// The info command that the tokens `f` spell.
pub open spec fn info_command_of(f: Seq<Seq<char>>) -> SpecInfoCommand {
    if f.len() == 1 && f[0] == TRADING_SYSTEM@ {
        SpecInfoCommand::TradingSystems
    } else if f.len() == 2 && f[0] == TRADING_SYSTEM@ {
        SpecInfoCommand::TradingSystem(f[1])
    } else if f.len() == 2 && f[0] == INSTRUMENT@ {
        SpecInfoCommand::Instrument(f[1])
    } else {
        SpecInfoCommand::Unknown
    }
}

/// The info command that the text `s` spells.
pub open spec fn parse_info(s: Seq<char>) -> SpecInfoCommand {
    info_command_of(split_fields(s))
}

/// The ticket command that the tokens `f` spell.
pub open spec fn ticket_command_of(f: Seq<Seq<char>>) -> SpecTicketCommand {
    if f.len() == 4 && f[0] == TRADING_SYSTEM@ && f[2] == INSTRUMENT@ {
        SpecTicketCommand::TradingSystemInstrument { trading_system_id: f[1], instrument_id: f[3] }
    } else if f.len() >= 5 && f[0] == TRADING_SYSTEM@ && f[2] == INSTRUMENT@ {
        SpecTicketCommand::TradingSystemInstruments {
            trading_system_id: f[1],
            instrument_ids: f.subrange(3, f.len() as int),
        }
    } else if f.len() == 4 && f[0] == INSTRUMENT@ && f[2] == TRADING_SYSTEM@ {
        SpecTicketCommand::InstrumentTradingSystem { instrument_id: f[1], trading_system_id: f[3] }
    } else if f.len() >= 5 && f[0] == INSTRUMENT@ && f[2] == TRADING_SYSTEM@ {
        SpecTicketCommand::InstrumentTradingSystems {
            instrument_id: f[1],
            trading_system_ids: f.subrange(3, f.len() as int),
        }
    } else {
        SpecTicketCommand::Unknown
    }
}

/// The ticket command that the text `s` spells.
pub open spec fn parse_ticket(s: Seq<char>) -> SpecTicketCommand {
    ticket_command_of(split_fields(s))
}

/// The tokens of an info command in its canonical form (none for `Unknown`).
pub open spec fn info_tokens(c: SpecInfoCommand) -> Seq<Seq<char>> {
    match c {
        SpecInfoCommand::TradingSystems => seq![TRADING_SYSTEM@],
        SpecInfoCommand::TradingSystem(t) => seq![TRADING_SYSTEM@, t],
        SpecInfoCommand::Instrument(i) => seq![INSTRUMENT@, i],
        SpecInfoCommand::Unknown => Seq::empty(),
    }
}

/// The canonical text of an info command; empty for `Unknown`.
pub open spec fn info_text(c: SpecInfoCommand) -> Seq<char> {
    join_fields(info_tokens(c))
}

/// The tokens of a ticket command in its canonical form (none for `Unknown`).
pub open spec fn ticket_tokens(c: SpecTicketCommand) -> Seq<Seq<char>> {
    match c {
        SpecTicketCommand::TradingSystemInstrument { trading_system_id, instrument_id } => seq![
            TRADING_SYSTEM@,
            trading_system_id,
            INSTRUMENT@,
            instrument_id,
        ],
        SpecTicketCommand::TradingSystemInstruments { trading_system_id, instrument_ids } => seq![
            TRADING_SYSTEM@,
            trading_system_id,
            INSTRUMENT@,
        ] + instrument_ids,
        SpecTicketCommand::InstrumentTradingSystem { instrument_id, trading_system_id } => seq![
            INSTRUMENT@,
            instrument_id,
            TRADING_SYSTEM@,
            trading_system_id,
        ],
        SpecTicketCommand::InstrumentTradingSystems { instrument_id, trading_system_ids } => seq![
            INSTRUMENT@,
            instrument_id,
            TRADING_SYSTEM@,
        ] + trading_system_ids,
        SpecTicketCommand::Unknown => Seq::empty(),
    }
}

/// The canonical text of a ticket command; empty for `Unknown`.
pub open spec fn ticket_text(c: SpecTicketCommand) -> Seq<char> {
    join_fields(ticket_tokens(c))
}

impl InfoCommand {
    /// Parses a discovery command; every text parses, to `Unknown` if it
    /// matches no form of the grammar.
    pub fn parse(input: &str) -> (r: InfoCommand)
        ensures
            r@ == parse_info(input@),
    {
        let fields = split_delimited(input);
        proof {
            lemma_split_nonempty(input@);
        }
        let n = fields.len();
        if n == 1 && text_eq(fields[0].as_str(), TRADING_SYSTEM) {
            InfoCommand::TradingSystems
        } else if n == 2 && text_eq(fields[0].as_str(), TRADING_SYSTEM) {
            InfoCommand::TradingSystem(fields[1].clone())
        } else if n == 2 && text_eq(fields[0].as_str(), INSTRUMENT) {
            InfoCommand::Instrument(fields[1].clone())
        } else {
            InfoCommand::Unknown
        }
    }

    /// The command written in its canonical form; empty for `Unknown`.
    pub fn to_command_string(&self) -> (r: String)
        ensures
            r@ == info_text(self@),
    {
        let mut tokens: Vec<String> = Vec::new();
        match self {
            InfoCommand::TradingSystems => {
                tokens.push(TRADING_SYSTEM.to_owned());
            },
            InfoCommand::TradingSystem(t) => {
                tokens.push(TRADING_SYSTEM.to_owned());
                tokens.push(t.clone());
            },
            InfoCommand::Instrument(i) => {
                tokens.push(INSTRUMENT.to_owned());
                tokens.push(i.clone());
            },
            InfoCommand::Unknown => {},
        }
        assert(texts(tokens@) =~= info_tokens(self@));
        join_delimited(&tokens)
    }
}

/// The collection read that answers a discovery command.
#[derive(Clone, Debug, PartialEq, Eq)]
pub enum KeyLookup {
    /// The identifiers of all registered trading systems.
    TradingSystems,
    /// The instruments mapped to this trading system.
    InstrumentsOf(String),
    /// The trading systems mapped to this instrument.
    TradingSystemsOf(String),
    /// No read: the command lists nothing.
    Nothing,
}

/// The tickets that a discovery command lists, given the keys its lookup returned.
pub open spec fn info_tickets(c: SpecInfoCommand, keys: Seq<Seq<char>>) -> Seq<Seq<char>> {
    match c {
        SpecInfoCommand::TradingSystems => keys.map_values(
            |k: Seq<char>| info_text(SpecInfoCommand::TradingSystem(k)),
        ),
        SpecInfoCommand::TradingSystem(t) => keys.map_values(
            |k: Seq<char>|
                ticket_text(
                    SpecTicketCommand::TradingSystemInstrument { trading_system_id: t, instrument_id: k },
                ),
        ),
        SpecInfoCommand::Instrument(_) => keys,
        SpecInfoCommand::Unknown => Seq::empty(),
    }
}

impl InfoCommand {
    /// Which read of the collection this command needs.
    pub fn lookup(&self) -> (r: KeyLookup)
        ensures
            match self@ {
                SpecInfoCommand::TradingSystems => r == KeyLookup::TradingSystems,
                SpecInfoCommand::TradingSystem(t) => r matches KeyLookup::InstrumentsOf(x) && x@ == t,
                SpecInfoCommand::Instrument(i) => r matches KeyLookup::TradingSystemsOf(x) && x@ == i,
                SpecInfoCommand::Unknown => r == KeyLookup::Nothing,
            },
    {
        match self {
            InfoCommand::TradingSystems => KeyLookup::TradingSystems,
            InfoCommand::TradingSystem(t) => KeyLookup::InstrumentsOf(t.clone()),
            InfoCommand::Instrument(i) => KeyLookup::TradingSystemsOf(i.clone()),
            InfoCommand::Unknown => KeyLookup::Nothing,
        }
    }

    /// The tickets this command lists, from the keys its lookup returned: a
    /// `trading_system:<t>` ticket per trading system, a
    /// `trading_system:<t>:instrument:<i>` ticket per instrument of `t`, the
    /// trading-system identifiers of an instrument as they are, and nothing
    /// for an unknown command.
    pub fn tickets(&self, keys: Vec<String>) -> (r: Vec<String>)
        ensures
            texts(r@) == info_tickets(self@, texts(keys@)),
    {
        match self {
            InfoCommand::Instrument(_) => keys,
            InfoCommand::Unknown => Vec::new(),
            _ => {
                let mut out: Vec<String> = Vec::new();
                let mut k: usize = 0;
                while k < keys.len()
                    invariant
                        k <= keys@.len(),
                        !(self@ is Instrument),
                        !(self@ is Unknown),
                        texts(out@) == info_tickets(self@, texts(keys@).subrange(0, k as int)),
                    decreases keys@.len() - k,
                {
                    let ticket = match self {
                        InfoCommand::TradingSystem(t) => TicketCommand::TradingSystemInstrument {
                            trading_system_id: t.clone(),
                            instrument_id: keys[k].clone(),
                        }.to_command_string(),
                        _ => InfoCommand::TradingSystem(keys[k].clone()).to_command_string(),
                    };
                    let ghost before = texts(out@);
                    out.push(ticket);
                    assert(texts(out@) =~= before.push(ticket@));
                    assert(texts(keys@).subrange(0, k + 1) =~= texts(keys@).subrange(0, k as int).push(
                        keys@[k as int]@,
                    ));
                    assert(info_tickets(self@, texts(keys@).subrange(0, k + 1)) =~= info_tickets(
                        self@,
                        texts(keys@).subrange(0, k as int),
                    ).push(ticket@));
                    k = k + 1;
                }
                assert(texts(keys@).subrange(0, keys@.len() as int) =~= texts(keys@));
                out
            },
        }
    }
}

/// Copies `v[from..]` into a new vector.
fn tail_from(v: &Vec<String>, from: usize) -> (r: Vec<String>)
    requires
        from <= v@.len(),
    ensures
        texts(r@) == texts(v@).subrange(from as int, v@.len() as int),
{
    let mut out: Vec<String> = Vec::new();
    let mut k: usize = from;
    while k < v.len()
        invariant
            from <= k <= v@.len(),
            texts(out@) == texts(v@).subrange(from as int, k as int),
        decreases v@.len() - k,
    {
        let ghost before = texts(out@);
        out.push(v[k].clone());
        assert(texts(out@) =~= before.push(v@[k as int]@));
        assert(texts(v@).subrange(from as int, k + 1) =~= texts(v@).subrange(from as int, k as int).push(
            v@[k as int]@,
        ));
        k = k + 1;
    }
    out
}

impl TicketCommand {
    /// Parses a retrieval command; every text parses, to `Unknown` if it
    /// matches no form of the grammar.
    pub fn parse(input: &str) -> (r: TicketCommand)
        ensures
            r@ == parse_ticket(input@),
    {
        let fields = split_delimited(input);
        let n = fields.len();
        if n < 4 {
            return TicketCommand::Unknown;
        }
        let ts_first = text_eq(fields[0].as_str(), TRADING_SYSTEM) && text_eq(
            fields[2].as_str(),
            INSTRUMENT,
        );
        let instrument_first = text_eq(fields[0].as_str(), INSTRUMENT) && text_eq(
            fields[2].as_str(),
            TRADING_SYSTEM,
        );
        if ts_first && n == 4 {
            TicketCommand::TradingSystemInstrument {
                trading_system_id: fields[1].clone(),
                instrument_id: fields[3].clone(),
            }
        } else if ts_first {
            TicketCommand::TradingSystemInstruments {
                trading_system_id: fields[1].clone(),
                instrument_ids: tail_from(&fields, 3),
            }
        } else if instrument_first && n == 4 {
            TicketCommand::InstrumentTradingSystem {
                instrument_id: fields[1].clone(),
                trading_system_id: fields[3].clone(),
            }
        } else if instrument_first {
            TicketCommand::InstrumentTradingSystems {
                instrument_id: fields[1].clone(),
                trading_system_ids: tail_from(&fields, 3),
            }
        } else {
            TicketCommand::Unknown
        }
    }

    /// The (instrument, trading system) pair whose frame this ticket
    /// retrieves; only the `trading_system:<t>:instrument:<i>` form
    /// retrieves data, every other form is unsupported.
    pub fn projection_keys(&self) -> (r: Option<(String, String)>)
        ensures
            match self@ {
                SpecTicketCommand::TradingSystemInstrument { trading_system_id, instrument_id } =>
                    r matches Some((i, t)) && i@ == instrument_id && t@ == trading_system_id,
                _ => r is None,
            },
    {
        match self {
            TicketCommand::TradingSystemInstrument { trading_system_id, instrument_id } => Some(
                (instrument_id.clone(), trading_system_id.clone()),
            ),
            _ => None,
        }
    }

    /// The command written in its canonical form; empty for `Unknown`.
    pub fn to_command_string(&self) -> (r: String)
        ensures
            r@ == ticket_text(self@),
    {
        let mut tokens: Vec<String> = Vec::new();
        match self {
            TicketCommand::TradingSystemInstrument { trading_system_id, instrument_id } => {
                tokens.push(TRADING_SYSTEM.to_owned());
                tokens.push(trading_system_id.clone());
                tokens.push(INSTRUMENT.to_owned());
                tokens.push(instrument_id.clone());
            },
            TicketCommand::TradingSystemInstruments { trading_system_id, instrument_ids } => {
                tokens.push(TRADING_SYSTEM.to_owned());
                tokens.push(trading_system_id.clone());
                tokens.push(INSTRUMENT.to_owned());
                append_all(&mut tokens, instrument_ids);
            },
            TicketCommand::InstrumentTradingSystem { instrument_id, trading_system_id } => {
                tokens.push(INSTRUMENT.to_owned());
                tokens.push(instrument_id.clone());
                tokens.push(TRADING_SYSTEM.to_owned());
                tokens.push(trading_system_id.clone());
            },
            TicketCommand::InstrumentTradingSystems { instrument_id, trading_system_ids } => {
                tokens.push(INSTRUMENT.to_owned());
                tokens.push(instrument_id.clone());
                tokens.push(TRADING_SYSTEM.to_owned());
                append_all(&mut tokens, trading_system_ids);
            },
            TicketCommand::Unknown => {},
        }
        assert(texts(tokens@) =~= ticket_tokens(self@));
        join_delimited(&tokens)
    }
}

/// Appends copies of the strings of `more` to `v`.
fn append_all(v: &mut Vec<String>, more: &Vec<String>)
    ensures
        texts(final(v)@) == texts(old(v)@) + texts(more@),
{
    let mut k: usize = 0;
    while k < more.len()
        invariant
            k <= more@.len(),
            texts(v@) == texts(old(v)@) + texts(more@).subrange(0, k as int),
        decreases more@.len() - k,
    {
        let ghost before = texts(v@);
        v.push(more[k].clone());
        assert(texts(v@) =~= before.push(more@[k as int]@));
        assert(texts(more@).subrange(0, k + 1) =~= texts(more@).subrange(0, k as int).push(
            more@[k as int]@,
        ));
        k = k + 1;
    }
    assert(texts(more@).subrange(0, more@.len() as int) =~= texts(more@));
}

/// Writing a parsed discovery command in its canonical form gives back
/// the text it was parsed from, for every text that parses to a command
/// other than `Unknown`.
pub proof fn lemma_info_parse_then_text(s: Seq<char>)
    requires
        !(parse_info(s) is Unknown),
    ensures
        info_text(parse_info(s)) == s,
{
    let f = split_fields(s);
    lemma_join_split(s);
    assert(info_tokens(parse_info(s)) =~= f);
}

/// Writing a parsed retrieval command in its canonical form gives back
/// the text it was parsed from, for every text that parses to a command
/// other than `Unknown`.
pub proof fn lemma_ticket_parse_then_text(s: Seq<char>)
    requires
        !(parse_ticket(s) is Unknown),
    ensures
        ticket_text(parse_ticket(s)) == s,
{
    let f = split_fields(s);
    lemma_join_split(s);
    assert(ticket_tokens(parse_ticket(s)) =~= f);
}

/// An info command whose canonical text parses back to it: not `Unknown`,
/// and no identifier holds the delimiter.
pub open spec fn info_well_formed(c: SpecInfoCommand) -> bool {
    match c {
        SpecInfoCommand::TradingSystems => true,
        SpecInfoCommand::TradingSystem(t) => is_field(t),
        SpecInfoCommand::Instrument(i) => is_field(i),
        SpecInfoCommand::Unknown => false,
    }
}

/// Every identifier of `ids` is free of the delimiter, and there are at least two.
pub open spec fn fields_list(ids: Seq<Seq<char>>) -> bool {
    &&& ids.len() >= 2
    &&& forall|k: int| 0 <= k < ids.len() ==> is_field(#[trigger] ids[k])
}

/// A ticket command whose canonical text parses back to it: not `Unknown`,
/// no identifier holds the delimiter, and a list holds two identifiers or more.
pub open spec fn ticket_well_formed(c: SpecTicketCommand) -> bool {
    match c {
        SpecTicketCommand::TradingSystemInstrument { trading_system_id, instrument_id } => is_field(
            trading_system_id,
        ) && is_field(instrument_id),
        SpecTicketCommand::TradingSystemInstruments { trading_system_id, instrument_ids } =>
            is_field(trading_system_id) && fields_list(instrument_ids),
        SpecTicketCommand::InstrumentTradingSystem { instrument_id, trading_system_id } => is_field(
            instrument_id,
        ) && is_field(trading_system_id),
        SpecTicketCommand::InstrumentTradingSystems { instrument_id, trading_system_ids } =>
            is_field(instrument_id) && fields_list(trading_system_ids),
        SpecTicketCommand::Unknown => false,
    }
}

proof fn lemma_reserved_tokens()
    ensures
        is_field(TRADING_SYSTEM@),
        is_field(INSTRUMENT@),
        TRADING_SYSTEM@ != INSTRUMENT@,
{
    reveal_strlit("trading_system");
    reveal_strlit("instrument");
    assert(TRADING_SYSTEM@[0] != INSTRUMENT@[0]);
}

/// Parsing the canonical text of a well-formed discovery command gives the command back.
pub proof fn lemma_info_text_then_parse(c: SpecInfoCommand)
    requires
        info_well_formed(c),
    ensures
        parse_info(info_text(c)) == c,
{
    lemma_reserved_tokens();
    let f = info_tokens(c);
    assert forall|k: int| 0 <= k < f.len() implies is_field(#[trigger] f[k]) by {}
    lemma_split_join(f);
}

/// Parsing the canonical text of a well-formed retrieval command gives the command back.
pub proof fn lemma_ticket_text_then_parse(c: SpecTicketCommand)
    requires
        ticket_well_formed(c),
    ensures
        parse_ticket(ticket_text(c)) == c,
{
    lemma_reserved_tokens();
    let f = ticket_tokens(c);
    assert forall|k: int| 0 <= k < f.len() implies is_field(#[trigger] f[k]) by {
        if k >= 3 {
            match c {
                SpecTicketCommand::TradingSystemInstruments { trading_system_id, instrument_ids } => {
                    assert(f[k] == instrument_ids[k - 3]);
                },
                SpecTicketCommand::InstrumentTradingSystems { instrument_id, trading_system_ids } => {
                    assert(f[k] == trading_system_ids[k - 3]);
                },
                _ => {},
            }
        }
    }
    lemma_split_join(f);
    match c {
        SpecTicketCommand::TradingSystemInstruments { trading_system_id, instrument_ids } => {
            assert(f.subrange(3, f.len() as int) =~= instrument_ids);
        },
        SpecTicketCommand::InstrumentTradingSystems { instrument_id, trading_system_ids } => {
            assert(f.subrange(3, f.len() as int) =~= trading_system_ids);
        },
        _ => {},
    }
}

/// Every ticket that discovery lists for a trading system parses, as a
/// retrieval command, to the pair of that trading system and the instrument
/// it was listed for, as long as neither identifier holds the delimiter.
pub proof fn lemma_listed_tickets_parse(t: Seq<char>, keys: Seq<Seq<char>>, k: int)
    requires
        is_field(t),
        0 <= k < keys.len(),
        is_field(keys[k]),
    ensures
        parse_ticket(info_tickets(SpecInfoCommand::TradingSystem(t), keys)[k])
            == (SpecTicketCommand::TradingSystemInstrument { trading_system_id: t, instrument_id: keys[k] }),
{
    lemma_ticket_text_then_parse(
        SpecTicketCommand::TradingSystemInstrument { trading_system_id: t, instrument_id: keys[k] },
    );
}

} // verus!
