use data_frame_service::command::{InfoCommand, TicketCommand, INSTRUMENT, TRADING_SYSTEM};

#[test]
fn test_parse_ticket_command() {
    assert_eq!(
        TicketCommand::parse(&format!(
            "{}:{}:{}:{}",
            TRADING_SYSTEM, "xyz", INSTRUMENT, "abc"
        ),),
        TicketCommand::TradingSystemInstrument {
            trading_system_id: String::from("xyz"),
            instrument_id: String::from("abc")
        }
    );

    assert_eq!(
        TicketCommand::parse(&format!(
            "{}:{}:{}:{}",
            TRADING_SYSTEM, "xyz", INSTRUMENT, "abc:def:ghi:jkl:mno"
        ),),
        TicketCommand::TradingSystemInstruments {
            trading_system_id: String::from("xyz"),
            instrument_ids: vec![
                "abc".to_string(),
                "def".to_string(),
                "ghi".to_string(),
                "jkl".to_string(),
                "mno".to_string()
            ]
        }
    );

    assert_eq!(
        TicketCommand::parse(&format!(
            "{}:{}:{}:{}",
            INSTRUMENT, "abc", TRADING_SYSTEM, "xyz"
        ),),
        TicketCommand::InstrumentTradingSystem {
            instrument_id: String::from("abc"),
            trading_system_id: String::from("xyz")
        }
    );

    assert_eq!(
        TicketCommand::parse(&format!(
            "{}:{}:{}:{}",
            INSTRUMENT, "abc", TRADING_SYSTEM, "xyz:def:ghi:jkl:mno"
        ),),
        TicketCommand::InstrumentTradingSystems {
            instrument_id: String::from("abc"),
            trading_system_ids: vec![
                "xyz".to_string(),
                "def".to_string(),
                "ghi".to_string(),
                "jkl".to_string(),
                "mno".to_string()
            ]
        }
    );

    assert_eq!(TicketCommand::parse(""), TicketCommand::Unknown);
    assert_eq!(TicketCommand::parse("blabla"), TicketCommand::Unknown);
    assert_eq!(TicketCommand::parse(":blabla"), TicketCommand::Unknown);
    assert_eq!(TicketCommand::parse("blabla:"), TicketCommand::Unknown);
    assert_eq!(
        TicketCommand::parse(&format!("{}:{}", "blabla", "bla")),
        TicketCommand::Unknown
    );
    assert_eq!(
        TicketCommand::parse(&format!("{}:{}:{}:{}", TRADING_SYSTEM, "bla", "bla", "bla"),),
        TicketCommand::Unknown
    );
    assert_eq!(
        TicketCommand::parse(&format!("{}:{}:{}:{}", "bla", "bla", TRADING_SYSTEM, "bla"),),
        TicketCommand::Unknown
    );
    assert_eq!(
        TicketCommand::parse(&format!("{}:{}:{}:{}", INSTRUMENT, "bla", "bla", "bla"),),
        TicketCommand::Unknown
    );
    assert_eq!(
        TicketCommand::parse(&format!("{}:{}:{}:{}", "bla", "bla", INSTRUMENT, "bla"),),
        TicketCommand::Unknown
    );
    assert_eq!(
        TicketCommand::parse(&format!(
            "{}:{}:{}:{}:{}:{}",
            TRADING_SYSTEM, "bla", "bla", "bla", "bla", "bla"
        ),),
        TicketCommand::Unknown
    );
    assert_eq!(
        TicketCommand::parse(&format!(
            "{}:{}:{}:{}:{}:{}",
            "bla", "bla", TRADING_SYSTEM, "bla", "bla", "bla"
        ),),
        TicketCommand::Unknown
    );
    assert_eq!(
        TicketCommand::parse(&format!(
            "{}:{}:{}:{}:{}:{}",
            "bla", "bla", "bla", "bla", TRADING_SYSTEM, INSTRUMENT
        ),),
        TicketCommand::Unknown
    );
    assert_eq!(
        TicketCommand::parse(&format!(
            "{}:{}:{}:{}:{}:{}",
            INSTRUMENT, "bla", "bla", "bla", "bla", "bla"
        ),),
        TicketCommand::Unknown
    );
    assert_eq!(
        TicketCommand::parse(&format!(
            "{}:{}:{}:{}:{}:{}",
            "bla", "bla", INSTRUMENT, "bla", "bla", "bla"
        ),),
        TicketCommand::Unknown
    );
    assert_eq!(
        TicketCommand::parse(&format!(
            "{}:{}:{}:{}:{}:{}",
            "bla", "bla", "bla", "bla", INSTRUMENT, TRADING_SYSTEM
        ),),
        TicketCommand::Unknown
    );
}

#[test]
fn test_parse_flight_info_command() {
    assert_eq!(
        InfoCommand::parse(TRADING_SYSTEM),
        InfoCommand::TradingSystems
    );

    assert_eq!(
        InfoCommand::parse(&format!("{}:{}", TRADING_SYSTEM, "xyz")),
        InfoCommand::TradingSystem(String::from("xyz"))
    );

    assert_eq!(
        InfoCommand::parse(&format!("{}:{}", INSTRUMENT, "abc")),
        InfoCommand::Instrument(String::from("abc"))
    );

    assert_eq!(
        InfoCommand::parse(&format!(
            "{}:{}:{}:{}",
            TRADING_SYSTEM, "xyz", INSTRUMENT, "abc"
        ),),
        InfoCommand::Unknown
    );

    assert_eq!(
        InfoCommand::parse(&format!(
            "{}:{}:{}:{}",
            TRADING_SYSTEM, "xyz", INSTRUMENT, "abc:def:ghi:jkl:mno"
        ),),
        InfoCommand::Unknown
    );

    assert_eq!(
        InfoCommand::parse(&format!(
            "{}:{}:{}:{}",
            INSTRUMENT, "abc", TRADING_SYSTEM, "xyz"
        ),),
        InfoCommand::Unknown
    );

    assert_eq!(
        InfoCommand::parse(&format!(
            "{}:{}:{}:{}",
            INSTRUMENT, "abc", TRADING_SYSTEM, "xyz:def:ghi:jkl:mno"
        ),),
        InfoCommand::Unknown
    );

    assert_eq!(InfoCommand::parse(""), InfoCommand::Unknown);
    assert_eq!(InfoCommand::parse("blabla"), InfoCommand::Unknown);
    assert_eq!(InfoCommand::parse(":blabla"), InfoCommand::Unknown);
    assert_eq!(InfoCommand::parse("blabla:"), InfoCommand::Unknown);
    assert_eq!(
        InfoCommand::parse(&format!("{}:{}", "blabla", "bla")),
        InfoCommand::Unknown
    );
    assert_eq!(
        InfoCommand::parse(&format!("{}:{}:{}:{}", TRADING_SYSTEM, "bla", "bla", "bla"),),
        InfoCommand::Unknown
    );
    assert_eq!(
        InfoCommand::parse(&format!("{}:{}:{}:{}", "bla", "bla", TRADING_SYSTEM, "bla"),),
        InfoCommand::Unknown
    );
    assert_eq!(
        InfoCommand::parse(&format!("{}:{}:{}:{}", INSTRUMENT, "bla", "bla", "bla"),),
        InfoCommand::Unknown
    );
    assert_eq!(
        InfoCommand::parse(&format!("{}:{}:{}:{}", "bla", "bla", INSTRUMENT, "bla"),),
        InfoCommand::Unknown
    );
    assert_eq!(
        InfoCommand::parse(&format!(
            "{}:{}:{}:{}:{}:{}",
            TRADING_SYSTEM, "bla", "bla", "bla", "bla", "bla"
        ),),
        InfoCommand::Unknown
    );
    assert_eq!(
        InfoCommand::parse(&format!(
            "{}:{}:{}:{}:{}:{}",
            "bla", "bla", TRADING_SYSTEM, "bla", "bla", "bla"
        ),),
        InfoCommand::Unknown
    );
    assert_eq!(
        InfoCommand::parse(&format!(
            "{}:{}:{}:{}:{}:{}",
            "bla", "bla", "bla", "bla", TRADING_SYSTEM, INSTRUMENT
        ),),
        InfoCommand::Unknown
    );
    assert_eq!(
        InfoCommand::parse(&format!(
            "{}:{}:{}:{}:{}:{}",
            INSTRUMENT, "bla", "bla", "bla", "bla", "bla"
        ),),
        InfoCommand::Unknown
    );
    assert_eq!(
        InfoCommand::parse(&format!(
            "{}:{}:{}:{}:{}:{}",
            "bla", "bla", INSTRUMENT, "bla", "bla", "bla"
        ),),
        InfoCommand::Unknown
    );
    assert_eq!(
        InfoCommand::parse(&format!(
            "{}:{}:{}:{}:{}:{}",
            "bla", "bla", "bla", "bla", INSTRUMENT, TRADING_SYSTEM
        ),),
        InfoCommand::Unknown
    );
}
