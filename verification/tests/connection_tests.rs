use tcp_server::connection::{ReadAction, ReadEvent, RequestReader, ResponseSender};
use tcp_server::connection::{WriteAction, WriteEvent, FIRST_TRIES, LATER_TRIES, READ_SIZE};
use tcp_server::http::{HttpHeader, HttpMethod, HttpPath, HttpRequest};
use tcp_server::json::{JsonMember, JsonValue};

const REQUEST: &[u8] =
    b"POST /users?x=1 HTTP/1.1\r\nHost: h\r\nContent-Length: 38\r\n\r\n{\"username\":\"bob\",\"password_hash\":\"h\"}";

fn describe(r: &HttpRequest) -> String {
    format!("{:?} {:?} {:?} [{}] {:?}", r.method, r.path, r.parameters, r.headers.to_string(), r.body)
}

/// Feeds the chunks as plain reads and says how the reading ended.
fn feed(chunks: &[&[u8]]) -> Result<(String, Option<String>), String> {
    let mut reader = RequestReader::new();
    for chunk in chunks {
        match reader.step(ReadEvent::Data(chunk.to_vec())) {
            ReadAction::Read(r) | ReadAction::Wait(r) | ReadAction::ReadExact(r, _) => reader = r,
            ReadAction::Done(request, error) => return Ok((describe(&request), error)),
            ReadAction::Fail(reason) => return Err(reason),
        }
    }
    Err("stream ended".to_string())
}

#[test]
fn constants() {
    assert_eq!(FIRST_TRIES, 4);
    assert_eq!(LATER_TRIES, 3);
    assert_eq!(READ_SIZE, 1024);
}

#[test]
fn request_in_one_chunk() {
    let mut reader = RequestReader::new();
    assert_eq!(reader.received_len(), 0);
    reader = match reader.step(ReadEvent::Data(Vec::new())) {
        ReadAction::Wait(r) => r,
        _ => panic!("expected to wait"),
    };
    match reader.step(ReadEvent::Data(REQUEST.to_vec())) {
        ReadAction::Done(request, error) => {
            assert_eq!(error, None);
            assert_eq!(request.method, HttpMethod::Post);
            assert_eq!(request.path, HttpPath::User(String::new()));
            assert_eq!(request.parameters, Some(vec![("x".to_string(), "1".to_string())]));
            assert_eq!(request.headers.get("host"), Some(&" h".to_string()));
            assert_eq!(request.headers.get("content-length"), Some(&" 38".to_string()));
            assert_eq!(
                request.body,
                Some(JsonValue::Object(vec![
                    JsonMember {
                        name: "password_hash".to_string(),
                        value: JsonValue::String("h".to_string())
                    },
                    JsonMember {
                        name: "username".to_string(),
                        value: JsonValue::String("bob".to_string())
                    },
                ]))
            );
        },
        _ => panic!("expected the request"),
    }
}

#[test]
fn any_split_into_chunks_gives_the_same_request() {
    let whole = feed(&[REQUEST]).unwrap();
    assert_eq!(whole.1, None);
    for cut in 1..REQUEST.len() {
        let (a, b) = REQUEST.split_at(cut);
        assert_eq!(feed(&[a, b]).unwrap(), whole, "cut at {cut}");
    }
    for first in [1usize, 3, 24, 25, 26, 27, 28, 50, 58, 59, 60] {
        for second in [1usize, 2, 9, 30] {
            if first + second < REQUEST.len() {
                let (a, rest) = REQUEST.split_at(first);
                let (b, c) = rest.split_at(second);
                assert_eq!(feed(&[a, b, c]).unwrap(), whole, "cuts at {first}, +{second}");
            }
        }
    }
    let bytes: Vec<&[u8]> = REQUEST.chunks(1).collect();
    assert_eq!(feed(&bytes).unwrap(), whole);
    let sevens: Vec<&[u8]> = REQUEST.chunks(7).collect();
    assert_eq!(feed(&sevens).unwrap(), whole);
}

#[test]
fn bytes_after_the_request_change_nothing() {
    let whole = feed(&[REQUEST]).unwrap();
    let mut longer = REQUEST.to_vec();
    longer.extend_from_slice(b"GET / HTTP/1.1\r\n\r\n");
    assert_eq!(feed(&[&longer]).unwrap(), whole);
    let (a, b) = longer.split_at(70);
    assert_eq!(feed(&[a, b]).unwrap(), whole);
}

#[test]
fn short_body_asks_for_one_exact_read_of_what_is_lacking() {
    let head_end = REQUEST.windows(4).position(|w| w == b"\r\n\r\n").unwrap() + 4;
    let (first, rest) = REQUEST.split_at(10);
    let (second, last) = rest.split_at(head_end + 5 - 10);
    assert_eq!(last.len(), 38 - 5);
    let reader = RequestReader::new();
    let reader = match reader.step(ReadEvent::Data(first.to_vec())) {
        ReadAction::Read(r) => r,
        _ => panic!("expected a plain read"),
    };
    let reader = match reader.step(ReadEvent::Data(second.to_vec())) {
        ReadAction::ReadExact(r, n) => {
            assert_eq!(n, 33);
            assert_eq!(r.received_len(), head_end + 5);
            r
        },
        _ => panic!("expected an exact read"),
    };
    match reader.step(ReadEvent::Data(last.to_vec())) {
        ReadAction::Done(request, error) => {
            assert_eq!(error, None);
            assert_eq!((describe(&request), None), feed(&[REQUEST]).unwrap());
        },
        _ => panic!("expected the request"),
    }
}

#[test]
fn exact_read_is_asked_right_after_the_head() {
    let head_end = REQUEST.windows(4).position(|w| w == b"\r\n\r\n").unwrap() + 4;
    match RequestReader::new().step(ReadEvent::Data(REQUEST[..head_end].to_vec())) {
        ReadAction::ReadExact(_, n) => assert_eq!(n, 38),
        _ => panic!("expected an exact read"),
    }
    match RequestReader::new().step(ReadEvent::Data(REQUEST[..REQUEST.len() - 1].to_vec())) {
        ReadAction::ReadExact(_, n) => assert_eq!(n, 1),
        _ => panic!("expected an exact read"),
    }
}

#[test]
fn request_without_body_is_done_at_the_delimiter() {
    for head in [
        &b"GET /sensors/1 HTTP/1.1\r\nHost: h\r\n\r\n"[..],
        &b"GET /sensors/1 HTTP/1.1\r\nContent-Length: 0\r\n\r\n"[..],
        &b"GET /sensors/1 HTTP/1.1\r\nContent-Length: many\r\n\r\n"[..],
        &b"GET /sensors/1 HTTP/1.1\r\nContent-Length: -4\r\n\r\n"[..],
        &b"GET /sensors/1 HTTP/1.1\r\nContent-Length: 99999999999999999999999999\r\n\r\n"[..],
        &b"GET /sensors/1 HTTP/1.1\r\nContent-Length:\r\n\r\n"[..],
    ] {
        match RequestReader::new().step(ReadEvent::Data(head.to_vec())) {
            ReadAction::Done(request, error) => {
                assert_eq!(error, None);
                assert_eq!(request.method, HttpMethod::Get);
                assert_eq!(request.path, HttpPath::Sensor("/1".to_string()));
                assert_eq!(request.body, None);
            },
            _ => panic!("expected the request"),
        }
    }
}

#[test]
fn declared_length_is_read_from_the_header() {
    let header = |value: &str| {
        let mut h = HttpHeader::new();
        h.insert("content-length".to_string(), value.to_string());
        h
    };
    assert_eq!(RequestReader::content_length(&HttpHeader::new()), 0);
    assert_eq!(RequestReader::content_length(&header("17")), 17);
    assert_eq!(RequestReader::content_length(&header(" 17\t")), 17);
    assert_eq!(RequestReader::content_length(&header("+17")), 17);
    assert_eq!(RequestReader::content_length(&header("0017")), 17);
    assert_eq!(RequestReader::content_length(&header("18446744073709551615")), usize::MAX);
    assert_eq!(RequestReader::content_length(&header("18446744073709551616")), 0);
    assert_eq!(RequestReader::content_length(&header("-17")), 0);
    assert_eq!(RequestReader::content_length(&header("1 7")), 0);
    assert_eq!(RequestReader::content_length(&header("17a")), 0);
    assert_eq!(RequestReader::content_length(&header("+")), 0);
    assert_eq!(RequestReader::content_length(&header("")), 0);
    assert_eq!(RequestReader::content_length(&header("\u{661}\u{667}")), 0);
    let mut other = HttpHeader::new();
    other.insert("Content-Length".to_string(), "17".to_string());
    assert_eq!(RequestReader::content_length(&other), 0);
}

#[test]
fn malformed_json_body_is_reported_with_the_request() {
    let bytes = b"POST /users HTTP/1.1\r\nContent-Length: 9\r\n\r\n{not json";
    match RequestReader::new().step(ReadEvent::Data(bytes.to_vec())) {
        ReadAction::Done(request, error) => {
            assert_eq!(
                error,
                Some(
                    "Failed to parse request body to json value: key must be a string at line 1 column 2"
                        .to_string()
                )
            );
            assert_eq!(request.method, HttpMethod::Post);
            assert_eq!(request.path, HttpPath::User(String::new()));
            assert_eq!(request.headers.get("content-length"), Some(&" 9".to_string()));
            assert_eq!(request.body, None);
        },
        _ => panic!("expected the request"),
    }
}

#[test]
fn silent_connection_is_given_up_after_four_empty_reads() {
    let mut reader = RequestReader::new();
    for _ in 0..3 {
        reader = match reader.step(ReadEvent::Data(Vec::new())) {
            ReadAction::Wait(r) => r,
            _ => panic!("expected to wait"),
        };
    }
    match reader.step(ReadEvent::Data(Vec::new())) {
        ReadAction::Fail(reason) => assert_eq!(reason, "Connection closed after 0 attempts."),
        _ => panic!("expected to give up"),
    }
}

#[test]
fn connection_that_falls_silent_is_given_up_after_three_empty_reads() {
    let mut reader = match RequestReader::new().step(ReadEvent::Data(b"GET /".to_vec())) {
        ReadAction::Read(r) => r,
        _ => panic!("expected a plain read"),
    };
    for _ in 0..2 {
        reader = match reader.step(ReadEvent::Data(Vec::new())) {
            ReadAction::Wait(r) => r,
            _ => panic!("expected to wait"),
        };
    }
    // a read that delivers something gives the connection its three tries back
    reader = match reader.step(ReadEvent::Data(b"users".to_vec())) {
        ReadAction::Read(r) => r,
        _ => panic!("expected a plain read"),
    };
    assert_eq!(reader.received_len(), 10);
    for _ in 0..2 {
        reader = match reader.step(ReadEvent::Data(Vec::new())) {
            ReadAction::Wait(r) => r,
            _ => panic!("expected to wait"),
        };
    }
    match reader.step(ReadEvent::Data(Vec::new())) {
        ReadAction::Fail(reason) => assert_eq!(reason, "Connection closed after 0 attempts."),
        _ => panic!("expected to give up"),
    }
}

#[test]
fn failed_read_before_the_head_ends_the_connection() {
    match RequestReader::new().step(ReadEvent::Failed("reset by peer".to_string())) {
        ReadAction::Fail(reason) => {
            assert_eq!(reason, "Failed to read from the stream: reset by peer")
        },
        _ => panic!("expected to give up"),
    }
    let reader = match RequestReader::new().step(ReadEvent::Data(b"GET / HTTP/1.1\r\n".to_vec())) {
        ReadAction::Read(r) => r,
        _ => panic!("expected a plain read"),
    };
    match reader.step(ReadEvent::Failed(String::new())) {
        ReadAction::Fail(reason) => assert_eq!(reason, "Failed to read from the stream: "),
        _ => panic!("expected to give up"),
    }
}

#[test]
fn failed_read_of_the_body_ends_the_connection() {
    for bytes in [
        &b"POST /users HTTP/1.1\r\nContent-Length: 12\r\n\r\n{\"a\":1}"[..],
        &b"POST /users HTTP/1.1\r\nContent-Length: 12\r\n\r\n{\"a\":"[..],
        &b"POST /users HTTP/1.1\r\nContent-Length: 12\r\n\r\n"[..],
    ] {
        let reader = match RequestReader::new().step(ReadEvent::Data(bytes.to_vec())) {
            ReadAction::ReadExact(r, n) => {
                assert_eq!(n, 12 - (bytes.len() - 44));
                r
            },
            _ => panic!("expected an exact read"),
        };
        match reader.step(ReadEvent::Failed("failed to fill whole buffer".to_string())) {
            ReadAction::Fail(reason) => assert_eq!(
                reason,
                "Failed to read from the stream: failed to fill whole buffer"
            ),
            _ => panic!("expected to give up"),
        }
    }
}

#[test]
fn sender_writes_until_nothing_is_left() {
    let sender = match ResponseSender::begin(10) {
        WriteAction::Write(s, from) => {
            assert_eq!(from, 0);
            assert_eq!(s.sent(), 0);
            s
        },
        _ => panic!("expected a write"),
    };
    let sender = match sender.step(WriteEvent::Written(4)) {
        WriteAction::Flush(s) => {
            assert_eq!(s.sent(), 4);
            s
        },
        _ => panic!("expected a flush"),
    };
    let sender = match sender.step(WriteEvent::Flushed) {
        WriteAction::Write(s, from) => {
            assert_eq!(from, 4);
            s
        },
        _ => panic!("expected a write"),
    };
    let sender = match sender.step(WriteEvent::Written(6)) {
        WriteAction::Flush(s) => {
            assert_eq!(s.sent(), 10);
            s
        },
        _ => panic!("expected a flush"),
    };
    assert!(matches!(sender.step(WriteEvent::Flushed), WriteAction::Done));
}

#[test]
fn sender_of_nothing_only_flushes() {
    let sender = match ResponseSender::begin(0) {
        WriteAction::Flush(s) => s,
        _ => panic!("expected a flush"),
    };
    assert!(matches!(sender.step(WriteEvent::Flushed), WriteAction::Done));
}

#[test]
fn sender_never_counts_more_than_there_is() {
    let sender = match ResponseSender::begin(3) {
        WriteAction::Write(s, _) => s,
        _ => panic!("expected a write"),
    };
    let sender = match sender.step(WriteEvent::Written(usize::MAX)) {
        WriteAction::Flush(s) => {
            assert_eq!(s.sent(), 3);
            s
        },
        _ => panic!("expected a flush"),
    };
    assert!(matches!(sender.step(WriteEvent::Flushed), WriteAction::Done));
}

#[test]
fn sender_gives_up_on_failure() {
    let begin = || match ResponseSender::begin(1234) {
        WriteAction::Write(s, _) => s,
        _ => panic!("expected a write"),
    };
    match begin().step(WriteEvent::Written(0)) {
        WriteAction::Fail(reason) => assert_eq!(
            reason,
            "Failed to send data (attempted 1234 bytes): failed to write whole buffer"
        ),
        _ => panic!("expected to give up"),
    }
    match begin().step(WriteEvent::WriteFailed("broken pipe".to_string())) {
        WriteAction::Fail(reason) => {
            assert_eq!(reason, "Failed to send data (attempted 1234 bytes): broken pipe")
        },
        _ => panic!("expected to give up"),
    }
    match begin().step(WriteEvent::FlushFailed("no".to_string())) {
        WriteAction::Fail(reason) => assert_eq!(reason, "Failed to flush after sending data: no"),
        _ => panic!("expected to give up"),
    }
}

#[test]
fn body_without_text_is_no_error() {
    let bytes = b"POST /users HTTP/1.1\r\nContent-Length: 4\r\n\r\n\0\0\0\0";
    match RequestReader::new().step(ReadEvent::Data(bytes.to_vec())) {
        ReadAction::Done(request, error) => {
            assert_eq!(error, None);
            assert_eq!(request.body, None);
        },
        _ => panic!("expected the request"),
    }
}
