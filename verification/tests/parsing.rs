use wemo::error::WemoError;
use wemo::parsing::{parse_state, state_from_capture, state_from_text};
use wemo::pattern::{take_first, take_last};
use wemo::state::WemoState;
use wemo::xml::{build_tag_pattern, find_tag_value};

const XML: &'static str = " \
    <?xml version=\"1.0\" encoding=\"utf-8\"?> \
      <s:Envelope xmlns:s=\"http://schemas.xmlsoap.org/soap/envelope/\" \
          s:encodingStyle=\"http://schemas.xmlsoap.org/soap/encoding/\"> \
        <s:Body> \
          <u:GetBinaryState xmlns:u=\"urn:Belkin:service:basicevent:1\"> \
            <BinaryState>1</BinaryState> \
          </u:GetBinaryState> \
        </s:Body> \
      </s:Envelope> \
    ";

#[test]
fn test_find_tag_value() {
    assert_eq!("1", find_tag_value("BinaryState", XML).unwrap());

    assert_eq!("Pikachu",
      find_tag_value("pokemon", "<pokemon>Pikachu</pokemon>").unwrap());
}

#[test]
fn test_find_tag_value_failure() {
    assert_eq!(None, find_tag_value("TernaryState", XML));

    assert_eq!(None,
      find_tag_value("futuramaCharacter", "<pokemon>Pikachu</pokemon>"));
}

#[test]
fn find_tag_value_takes_the_first_pair_and_ignores_case() {
    assert_eq!(
        find_tag_value("a", "<a>1</a>\n<a>2</a>"),
        Some("1".to_string())
    );
    assert_eq!(find_tag_value("binarystate", "<BinaryState>8|1</BinaryState>"), Some("8|1".to_string()));
    assert_eq!(find_tag_value("a", "<a>1\n</a>"), None);
    assert_eq!(find_tag_value("a", "<a></a>"), Some(String::new()));
}

#[test]
fn find_tag_value_with_a_name_that_is_no_pattern() {
    assert_eq!(find_tag_value("(", "<(>1</(>"), None);
}

#[test]
fn tag_pattern_text() {
    assert_eq!(build_tag_pattern("BinaryState"), "(?im:<BinaryState>(.*)</BinaryState>)");
    assert_eq!(build_tag_pattern(""), "(?im:<>(.*)</>)");
}

#[test]
fn first_and_last_captures() {
    let none: Option<Vec<Option<String>>> = None;
    assert_eq!(take_first(&none), None);
    assert_eq!(take_last(&none), None);
    let empty: Option<Vec<Option<String>>> = Some(vec![]);
    assert_eq!(take_first(&empty), None);
    assert_eq!(take_last(&empty), None);
    let some = Some(vec![Some("a".to_string()), None, Some("c".to_string())]);
    assert_eq!(take_first(&some), Some("a".to_string()));
    assert_eq!(take_last(&some), Some("c".to_string()));
    let gap = Some(vec![None, Some("b".to_string()), None]);
    assert_eq!(take_first(&gap), None);
    assert_eq!(take_last(&gap), Some(String::new()));
}

#[test]
fn switch_notifications() {
    let xml = r#"
      <e:propertyset xmlns:e="\#urn:schemas-upnp-org:event-1-0">
        <e:property>
          <BinaryState>0</BinaryState>
        </e:property>
      </e:propertyset>"#;

    assert_eq!(WemoState::Off, parse_state(xml).unwrap());

    let xml = r#"
      <e:propertyset xmlns:e="\#urn:schemas-upnp-org:event-1-0">
        <e:property>
          <BinaryState>1</BinaryState>
        </e:property>
      </e:propertyset>"#;

    assert_eq!(WemoState::On, parse_state(xml).unwrap());
}

#[test]
fn insight_notifications() {
    let xml = r#"
      <e:propertyset xmlns:e="urn:schemas-upnp-org:event-1-0">
        <e:property>
          <BinaryState>0|1234567890|1234|4321|111111|1234567|11|55555|6543210|000000000</BinaryState>
        </e:property>
      </e:propertyset>"#;

    assert_eq!(WemoState::Off, parse_state(xml).unwrap());

    let xml = r#"
      <e:propertyset xmlns:e="urn:schemas-upnp-org:event-1-0">
        <e:property>
          <BinaryState>1|1234567890|1234|4321|111111|1234567|11|55555|6543210|000000000</BinaryState>
        </e:property>
      </e:propertyset>"#;

    assert_eq!(WemoState::On, parse_state(xml).unwrap());

    let xml = r#"
      <e:propertyset xmlns:e="urn:schemas-upnp-org:event-1-0">
        <e:property>
          <BinaryState>8|1234567890|1234|4321|111111|1234567|11|55555|6543210|000000000</BinaryState>
        </e:property>
      </e:propertyset>"#;

    assert_eq!(WemoState::OnWithoutLoad, parse_state(xml).unwrap());
}

#[test]
fn only_the_leading_field_of_an_event_counts() {
    assert!(matches!(
        parse_state("<BinaryState>2|999|1</BinaryState>"),
        Ok(WemoState::Unknown(2))
    ));
}

#[test]
fn events_without_a_state_fail_to_parse() {
    assert!(matches!(parse_state(""), Err(WemoError::ParsingError)));
    assert!(matches!(parse_state("<BinaryState></BinaryState>"), Err(WemoError::ParsingError)));
    assert!(matches!(parse_state("<BinaryState>12</BinaryState>"), Err(WemoError::ParsingError)));
    assert!(matches!(parse_state("<BinaryState>-1</BinaryState>"), Err(WemoError::ParsingError)));
    assert!(matches!(parse_state("<BinaryState>1|</BinaryState>"), Err(WemoError::ParsingError)));
    assert!(matches!(parse_state("<BinaryState>\u{663}</BinaryState>"), Err(WemoError::ParsingError)));
    assert!(matches!(parse_state("<TernaryState>1</TernaryState>"), Err(WemoError::ParsingError)));
}

#[test]
fn state_from_text_reads_the_leading_field() {
    assert!(matches!(state_from_text("0"), Ok(WemoState::Off)));
    assert!(matches!(state_from_text("1"), Ok(WemoState::On)));
    assert!(matches!(state_from_text("8"), Ok(WemoState::OnWithoutLoad)));
    assert!(matches!(state_from_text("8|1457|0|33"), Ok(WemoState::OnWithoutLoad)));
    assert!(matches!(state_from_text("2|999|1"), Ok(WemoState::Unknown(2))));
    assert!(matches!(state_from_text("65535"), Ok(WemoState::Unknown(65535))));
    assert!(matches!(state_from_text("001"), Ok(WemoState::On)));
}

#[test]
fn state_from_text_rejects_what_is_no_code() {
    for bad in ["", "65536", "-1", "+1", "1 ", " 1", "on", "|1", "1.0", "99999999999999999999"] {
        assert!(matches!(state_from_text(bad), Err(WemoError::ParsingError)), "{:?}", bad);
    }
}

#[test]
fn state_from_capture_needs_a_capture() {
    assert!(matches!(state_from_capture(&None), Err(WemoError::ParsingError)));
    assert!(matches!(state_from_capture(&Some("1".to_string())), Ok(WemoState::On)));
    assert!(matches!(state_from_capture(&Some("x".to_string())), Err(WemoError::ParsingError)));
}
