use beetle::mock_device::image_span;
use beetle::mock_reader::{BulkStringLocation, MessageState};

#[test]
fn test_array_message_single() {
  let mut parser = MessageState::default();
  for token in "*1\r\n$2\r\nhi\r\n".chars() {
    parser = parser.take(token);
  }
  assert_eq!(
    parser,
    MessageState::BulkString(BulkStringLocation::Sizing(0), Some((vec!["hi".to_string()], 1)))
  );
}

#[test]
fn test_array_message_many() {
  let mut parser = MessageState::default();
  let mut buffer = "*11\r\n".to_string();
  let mut expected = Vec::new();

  for _ in 0..11 {
    buffer.push_str("$2\r\nhi\r\n");
    expected.push("hi".to_string());
  }

  for token in buffer.chars() {
    parser = parser.take(token);
  }

  assert_eq!(
    parser,
    MessageState::BulkString(BulkStringLocation::Sizing(0), Some((expected, 11)))
  );
}

#[test]
fn mock_reader_rejects_unknown_start() {
  let parser = MessageState::default().take('x');
  assert_eq!(parser, MessageState::Error("Invalid starting token 'x'".to_string()));
}

#[test]
fn mock_reader_rejects_text_after_count_line() {
  let mut parser = MessageState::default();
  for token in "*1\rz".chars() {
    parser = parser.take(token);
  }
  assert_eq!(parser, MessageState::Error("Invalid token 'z'".to_string()));
}

#[test]
fn mock_reader_stops_inside_an_image() {
  let mut parser = MessageState::default();
  for token in "*2\r\n$4\r\nob:1\r\n$3\r\n".chars() {
    parser = parser.take(token);
  }
  assert_eq!(
    parser,
    MessageState::BulkString(
      BulkStringLocation::Reading(3, String::new(), false),
      Some((vec!["ob:1".to_string()], 2))
    )
  );
  assert_eq!(image_span(&parser, 19, 24), Some((19, 22)));
  assert_eq!(image_span(&parser, 19, 21), None);
  assert_eq!(image_span(&parser, 0, 24), None);
}

#[test]
fn mock_reader_refuses_characters_that_overflow() {
  let mut parser = MessageState::default();
  for token in "*1844674407370955161".chars() {
    assert!(parser.accepts(token));
    parser = parser.take(token);
  }
  assert!(parser.accepts('5'));
  assert!(!parser.accepts('6'));
  assert!(parser.accepts('\r'));
  let mut parser = MessageState::default();
  for token in "*1\r\n$2\r\nhi\r".chars() {
    assert!(parser.accepts(token));
    parser = parser.take(token);
  }
  assert!(parser.accepts('\n'));
}
