use data_frame_service::command::{InfoCommand, KeyLookup, TicketCommand};
use data_frame_service::delimited::{join_delimited, split_delimited, text_eq};

fn strings(v: &[&str]) -> Vec<String> {
    v.iter().map(|s| s.to_string()).collect()
}

#[test]
fn split_matches_str_split() {
    for s in ["", ":", "a", "a:b", ":a", "a:", "a::b", "trading_system:x:instrument:y"] {
        let expected: Vec<String> = s.split(':').map(String::from).collect();
        assert_eq!(split_delimited(s), expected);
    }
}

#[test]
fn join_puts_delimiters_between_fields() {
    assert_eq!(join_delimited(&strings(&[])), "");
    assert_eq!(join_delimited(&strings(&["a"])), "a");
    assert_eq!(join_delimited(&strings(&["a", "", "b"])), "a::b");
}

#[test]
fn split_then_join_gives_text_back() {
    for s in ["", "::", "x:y:z", "trading_system:mom"] {
        assert_eq!(join_delimited(&split_delimited(s)), s);
    }
}

#[test]
fn text_equality_compares_characters() {
    assert!(text_eq("instrument", "instrument"));
    assert!(!text_eq("instrument", "instrumenx"));
    assert!(!text_eq("instrument", "instrument_id"));
    assert!(text_eq("", ""));
}

#[test]
fn info_parse_edge_cases() {
    assert_eq!(InfoCommand::parse("trading_system:"), InfoCommand::TradingSystem(String::new()));
    assert_eq!(InfoCommand::parse("instrument"), InfoCommand::Unknown);
    assert_eq!(InfoCommand::parse("trading_system:a:b"), InfoCommand::Unknown);
}

#[test]
fn ticket_with_one_trailing_token_is_unknown() {
    assert_eq!(TicketCommand::parse("trading_system:x:instrument"), TicketCommand::Unknown);
    assert_eq!(TicketCommand::parse("instrument:x:trading_system"), TicketCommand::Unknown);
}

#[test]
fn info_parse_then_text_round_trips() {
    for s in ["trading_system", "trading_system:mom", "instrument:AAPL", "trading_system:"] {
        let c = InfoCommand::parse(s);
        assert_ne!(c, InfoCommand::Unknown);
        assert_eq!(c.to_command_string(), s);
    }
    assert_eq!(InfoCommand::Unknown.to_command_string(), "");
}

#[test]
fn ticket_parse_then_text_round_trips() {
    for s in [
        "trading_system:mom:instrument:AAPL",
        "trading_system:mom:instrument:AAPL:MSFT",
        "instrument:AAPL:trading_system:mom",
        "instrument:AAPL:trading_system:mom:ml:meta",
    ] {
        let c = TicketCommand::parse(s);
        assert_ne!(c, TicketCommand::Unknown);
        assert_eq!(c.to_command_string(), s);
    }
    assert_eq!(TicketCommand::Unknown.to_command_string(), "");
}

#[test]
fn ticket_text_then_parse_round_trips() {
    let c = TicketCommand::InstrumentTradingSystems {
        instrument_id: String::from("AAPL"),
        trading_system_ids: strings(&["mom", "ml"]),
    };
    assert_eq!(TicketCommand::parse(&c.to_command_string()), c);
    let d = InfoCommand::Instrument(String::from("MSFT"));
    assert_eq!(InfoCommand::parse(&d.to_command_string()), d);
}

#[test]
fn lookup_follows_the_command() {
    assert_eq!(InfoCommand::TradingSystems.lookup(), KeyLookup::TradingSystems);
    assert_eq!(
        InfoCommand::TradingSystem(String::from("mom")).lookup(),
        KeyLookup::InstrumentsOf(String::from("mom"))
    );
    assert_eq!(
        InfoCommand::Instrument(String::from("AAPL")).lookup(),
        KeyLookup::TradingSystemsOf(String::from("AAPL"))
    );
    assert_eq!(InfoCommand::Unknown.lookup(), KeyLookup::Nothing);
}

#[test]
fn discovery_lists_trading_system_tickets() {
    let tickets = InfoCommand::parse("trading_system").tickets(strings(&["mom"]));
    assert_eq!(tickets, strings(&["trading_system:mom"]));
}

#[test]
fn discovery_lists_pair_tickets() {
    let mut tickets =
        InfoCommand::parse("trading_system:mom").tickets(strings(&["MSFT", "AAPL"]));
    tickets.sort();
    assert_eq!(
        tickets,
        strings(&["trading_system:mom:instrument:AAPL", "trading_system:mom:instrument:MSFT"])
    );
    for t in &tickets {
        assert!(TicketCommand::parse(t).projection_keys().is_some());
    }
}

#[test]
fn discovery_of_instrument_and_unknown() {
    assert_eq!(
        InfoCommand::parse("instrument:AAPL").tickets(strings(&["mom", "ml"])),
        strings(&["mom", "ml"])
    );
    assert_eq!(InfoCommand::parse("bla").tickets(strings(&["mom"])), Vec::<String>::new());
}

#[test]
fn only_one_pair_ticket_retrieves_data() {
    assert_eq!(
        TicketCommand::parse("trading_system:mom:instrument:AAPL").projection_keys(),
        Some((String::from("AAPL"), String::from("mom")))
    );
    assert_eq!(TicketCommand::parse("instrument:AAPL:trading_system:mom").projection_keys(), None);
    assert_eq!(
        TicketCommand::parse("trading_system:mom:instrument:AAPL:MSFT").projection_keys(),
        None
    );
    assert_eq!(TicketCommand::parse("bla").projection_keys(), None);
}
