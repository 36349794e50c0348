use beetle::mock_device::popped_image;
use beetle::redis_reader::{
  MessageState, RedisResponse, SizeCollector, SizeResult, StringCollector, StringCollectorResult,
};

fn read(input: &str) -> RedisResponse {
  RedisResponse::from_iter(input.as_bytes())
}

#[test]
fn test_array_empty() {
  let input = "*-1\r\n";
  let result = read(input);
  assert_eq!(result, RedisResponse::Array(vec![]));
}

#[test]
fn test_int() {
  let input = ":123\r\n";
  let result = read(input);
  assert_eq!(result, RedisResponse::Int(123));
}

#[test]
fn test_bulk_str() {
  let input = "$2\r\nhi\r\n";
  let result = read(input);
  assert_eq!(
    result,
    RedisResponse::String("hi".as_bytes().iter().copied().collect::<Vec<u8>>())
  )
}

#[test]
fn redis_reader_test_array_message_many() {
  let mut many = "*10\r\n".to_string();
  for _ in 0..10 {
    many.push_str("$2\r\nhi\r\n");
  }
  let result = read(&many);
  assert_eq!(
    result,
    RedisResponse::Array(vec![
      b"hi".to_vec(),
      b"hi".to_vec(),
      b"hi".to_vec(),
      b"hi".to_vec(),
      b"hi".to_vec(),
      b"hi".to_vec(),
      b"hi".to_vec(),
      b"hi".to_vec(),
      b"hi".to_vec(),
      b"hi".to_vec(),
    ])
  )
}

#[test]
fn redis_reader_test_array_message_single() {
  let response = read("*1\r\n$2\r\nhi\r\n");
  assert_eq!(response, RedisResponse::Array(vec![b"hi".to_vec()]));
}

#[test]
fn negative_integer_reads_back() {
  assert_eq!(read(":-42\r\n"), RedisResponse::Int(-42));
}

#[test]
fn zero_count_array_is_empty() {
  assert_eq!(read("*0\r\n"), RedisResponse::Array(vec![]));
}

#[test]
fn bytes_after_a_response_are_ignored() {
  assert_eq!(read(":7\r\n:8\r\n"), RedisResponse::Int(7));
  assert_eq!(read("$1\r\nx\r\ngarbage"), RedisResponse::String(b"x".to_vec()));
}

#[test]
fn unknown_first_byte_is_rejected() {
  assert_eq!(read("+OK\r\n"), RedisResponse::Failed("invalid start".to_string()));
}

#[test]
fn input_that_ends_early_is_empty() {
  assert_eq!(read("$5\r\nhel"), RedisResponse::Empty);
  assert_eq!(read(""), RedisResponse::Empty);
}

#[test]
fn binary_payload_reads_back() {
  let mut input = b"*2\r\n$4\r\nob:1\r\n$3\r\n".to_vec();
  input.extend_from_slice(&[0u8, 13, 255]);
  input.extend_from_slice(b"\r\n");
  let response = RedisResponse::from_iter(&input);
  assert_eq!(response, RedisResponse::Array(vec![b"ob:1".to_vec(), vec![0u8, 13, 255]]));
  assert_eq!(popped_image(&response), Some(&vec![0u8, 13, 255]));
}

#[test]
fn popped_image_needs_two_items() {
  assert_eq!(popped_image(&RedisResponse::Array(vec![b"a".to_vec()])), None);
  assert_eq!(popped_image(&RedisResponse::Int(1)), None);
}

#[test]
fn size_collector_reads_a_signed_line() {
  let mut collector = SizeCollector::default();
  for token in b"-12\r".iter() {
    collector = match collector.take(*token) {
      SizeResult::Incomplete(Ok(next)) => next,
      _ => panic!("size line ended early"),
    };
  }
  assert!(matches!(collector.take(b'\n'), SizeResult::Complete(-12)));
}

#[test]
fn reader_can_be_fed_byte_by_byte() {
  let mut state = MessageState::default();
  for token in b":5\r\n".iter() {
    state = state.take(*token);
  }
  assert!(matches!(state, MessageState::Complete(RedisResponse::Int(5))));
}

#[test]
fn readers_refuse_bytes_that_overflow() {
  let mut parser = MessageState::default();
  for token in ":2147483647".bytes() {
    assert!(parser.accepts(token));
    parser = parser.take(token);
  }
  assert!(parser.accepts(b'\r'));
  let mut parser = MessageState::default();
  for token in ":214748364".bytes() {
    parser = parser.take(token);
  }
  assert!(!parser.accepts(b'8'));
  assert!(parser.accepts(b'7'));
  let mut array = MessageState::default();
  for token in "*1\r\n$2\r\nhi\r".bytes() {
    assert!(array.accepts(token));
    array = array.take(token);
  }
  assert!(array.accepts(b'\n'));
}

#[test]
fn string_collector_keeps_the_payload_alone() {
  let mut collector = StringCollector::Sizing(SizeCollector::default());
  for token in b"3\r\nabcX".iter() {
    assert!(collector.accepts(*token));
    collector = match collector.take(*token) {
      StringCollectorResult::Incomplete(Ok(next)) => next,
      _ => panic!("bulk string ended early"),
    };
  }
  match collector.take(b'Y') {
    StringCollectorResult::Finished(payload) => assert_eq!(payload, b"abc".to_vec()),
    _ => panic!("bulk string did not finish"),
  }
}
