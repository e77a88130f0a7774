use vtt_server::assets::Image;
use vtt_server::command::Command;
use vtt_server::config::Config;
use vtt_server::decimal::{format_i64, format_u16, parse_i64};
use vtt_server::fields::Fields;
use vtt_server::model::DatabaseType;
use vtt_server::opcode::Commands;

#[test]
fn decimal_formatting() {
    assert_eq!(format_i64(0), "0");
    assert_eq!(format_i64(7), "7");
    assert_eq!(format_i64(-42), "-42");
    assert_eq!(format_i64(1234567890), "1234567890");
    assert_eq!(format_i64(i64::MAX), i64::MAX.to_string());
    assert_eq!(format_i64(i64::MIN), i64::MIN.to_string());
    assert_eq!(format_u16(65535), "65535");
}

#[test]
fn decimal_parsing() {
    assert_eq!(parse_i64("0"), Some(0));
    assert_eq!(parse_i64("+15"), Some(15));
    assert_eq!(parse_i64("-15"), Some(-15));
    assert_eq!(parse_i64("007"), Some(7));
    assert_eq!(parse_i64("9223372036854775807"), Some(i64::MAX));
    assert_eq!(parse_i64("-9223372036854775808"), Some(i64::MIN));
    assert_eq!(parse_i64("9223372036854775808"), None);
    assert_eq!(parse_i64("-9223372036854775809"), None);
    assert_eq!(parse_i64(""), None);
    assert_eq!(parse_i64("-"), None);
    assert_eq!(parse_i64("+"), None);
    assert_eq!(parse_i64(" 1"), None);
    assert_eq!(parse_i64("1e3"), None);
    for s in ["12", "-3", "+4", "x", "", "99999999999999999999", "-0"] {
        assert_eq!(parse_i64(s), s.parse::<i64>().ok());
    }
}

#[test]
fn fields_insert_replaces() {
    let mut f = Fields::new();
    f.insert("a".to_string(), "1".to_string());
    f.insert("b".to_string(), "2".to_string());
    f.insert("a".to_string(), "3".to_string());
    assert_eq!(f.get(&"a".to_string()).unwrap(), "3");
    assert_eq!(f.get(&"b".to_string()).unwrap(), "2");
    assert!(f.get(&"c".to_string()).is_none());
    assert_eq!(f.entries().len(), 2);
    let g = f.clone();
    assert_eq!(g.get(&"a".to_string()).unwrap(), "3");
}

#[test]
fn opcode_codes() {
    assert_eq!(Commands::NoOp.code(), 0);
    assert_eq!(Commands::AuthenticateRequest.code(), 100);
    assert_eq!(Commands::AuthenticateSuccess.code(), 103);
    assert_eq!(Commands::BroadcastRequest.code(), 200);
    assert_eq!(Commands::BroadcastGetRequest.code(), 202);
    assert_eq!(Commands::Scene2DResponse.code(), 301);
    assert_eq!(Commands::from_code(201), Some(Commands::BroadcastResponse));
    assert_eq!(Commands::from_code(104), None);
    assert_eq!(Commands::default(), Commands::NoOp);
    assert_eq!(DatabaseType::default(), DatabaseType::Memory);
}

#[test]
fn full_address_joins_ip_and_port() {
    let config = Config::getTestConfig();
    assert_eq!(config.network.fullAddress(), "127.0.0.1:8080");
    assert_eq!(config.database.path, "testData.sqlite");
    assert!(config.assets.path.is_none());
}

#[test]
fn image_bytes_and_base64() {
    let image = Image::from_bytes(vec![0xff, 0x00, 0x10]);
    assert_eq!(image.bytes(), vec![0xff, 0x00, 0x10]);
    assert_eq!(image.base64(), "/wAQ");
    assert_eq!(Image::from_bytes(vec![]).base64(), "");
}

#[test]
fn wire_opcode_is_checked() {
    let ok = Command::fromWire(4, 202, 10, Fields::new(), Fields::new());
    match ok {
        Ok(c) => {
            assert_eq!(c.Type, Commands::BroadcastGetRequest);
            assert_eq!(c.Id, 4);
            assert_eq!(c.Timestamp, 10);
        },
        Err(_) => panic!("202 is an opcode"),
    }
    match Command::fromWire(4, 150, 10, Fields::new(), Fields::new()) {
        Ok(_) => panic!("150 is no opcode"),
        Err(e) => assert_eq!(e.code, 150),
    }
}

#[test]
fn default_command_is_stamped_now() {
    let c = Command::default();
    assert_eq!(c.Id, 0);
    assert_eq!(c.Type, Commands::NoOp);
    assert!(c.Timestamp > 1_600_000_000);
    assert!(c.Data.get(&"text".to_string()).is_none());
}
