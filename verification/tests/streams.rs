use flowfabric::cursor::{
    exec_keys, read_frames, read_stream, tail_stream, validate_stream_read_count,
    validate_tail_cursor, StreamCursor,
};
use flowfabric::error::{ScriptError, ServerError};
use flowfabric::ids::{AttemptIndex, ExecutionId};
use flowfabric::result::FcallResult;
use flowfabric::retry::ErrorKind;
use flowfabric::sdk_error::SdkError;
use flowfabric::shown;
use flowfabric::stream::{parse_entries, parse_fields_kv, FieldShape};
use flowfabric::stream_tail::{closed_meta, parse_xread_reply, tail_result};
use flowfabric::value::Value;

const EID: &str = "{fp:7}:00000000-0000-4000-8000-000000000001";

#[test]
fn rejects_start_cursor() {
    let err = validate_tail_cursor(&StreamCursor::Start).expect_err("Start must be rejected");
    match err {
        SdkError::Config { field, context, .. } => {
            assert_eq!(field.as_deref(), Some("after"));
            assert_eq!(context, "tail_stream");
        }
        other => panic!("expected SdkError::Config, got {other:?}"),
    }
}

#[test]
fn rejects_end_cursor() {
    let err = validate_tail_cursor(&StreamCursor::End).expect_err("End must be rejected");
    assert!(matches!(err, SdkError::Config { .. }));
}

#[test]
fn accepts_at_cursor() {
    validate_tail_cursor(&StreamCursor::At("0-0".into())).expect("At cursor must be accepted");
    validate_tail_cursor(&StreamCursor::from_beginning())
        .expect("from_beginning() must be accepted");
    validate_tail_cursor(&StreamCursor::At("123-0".into()))
        .expect("concrete id must be accepted");
}

#[test]
fn reads_are_bounded() {
    assert!(validate_stream_read_count(0).is_err());
    assert!(validate_stream_read_count(1).is_ok());
    assert!(validate_stream_read_count(10_000).is_ok());
    let err = validate_stream_read_count(10_001).unwrap_err();
    assert_eq!(
        err.text(),
        "config: read_stream_frames.count_limit: count_limit exceeds STREAM_READ_HARD_CAP (10000)"
    );
}

#[test]
fn reads_name_both_ends() {
    let ctx = exec_keys(&ExecutionId::parse(EID).unwrap());
    let call =
        read_stream(&ctx, AttemptIndex(2), &StreamCursor::Start, &StreamCursor::End, 5).unwrap();
    assert_eq!(call.function, "ff_read_attempt_stream");
    assert_eq!(
        call.keys,
        vec![format!("ff:stream:{{fp:7}}:{EID}:2"), format!("ff:stream:{{fp:7}}:{EID}:2:meta")]
    );
    assert_eq!(call.argv, vec!["-", "+", "5"]);
}

#[test]
fn tails_are_checked_in_order() {
    let ctx = exec_keys(&ExecutionId::parse(EID).unwrap());
    let at = StreamCursor::from_beginning();
    let field = |r: Result<flowfabric::cursor::TailRequest, SdkError>| match r.err().unwrap() {
        SdkError::Config { field, .. } => field.unwrap(),
        other => panic!("{other:?}"),
    };
    assert_eq!(field(tail_stream(&ctx, AttemptIndex(0), &StreamCursor::End, 30_001, 0)), "block_ms");
    assert_eq!(
        field(tail_stream(&ctx, AttemptIndex(0), &StreamCursor::End, 30_000, 0)),
        "count_limit"
    );
    assert_eq!(field(tail_stream(&ctx, AttemptIndex(0), &StreamCursor::End, 30_000, 1)), "after");
    let t = tail_stream(&ctx, AttemptIndex(0), &at, 250, 3).ok().unwrap();
    assert_eq!(
        t.words,
        vec!["COUNT", "3", "BLOCK", "250", "STREAMS", &t.stream_key, "0-0"]
    );
    let t = tail_stream(&ctx, AttemptIndex(0), &at, 0, 3).ok().unwrap();
    assert_eq!(t.words, vec!["COUNT", "3", "STREAMS", &t.stream_key, "0-0"]);
}

fn s(v: &str) -> Result<Value, ServerError> {
    Ok(Value::BulkString(v.as_bytes().to_vec()))
}

fn entry(id: &str, k: &str, v: &str) -> Result<Value, ServerError> {
    let pair = Ok(Value::Array(vec![s(k), s(v)]));
    Ok(Value::Array(vec![s(id), Ok(Value::Array(vec![pair]))]))
}

#[test]
fn tails_read_their_own_stream() {
    let raw = Value::Dict(vec![(
        Value::BulkString(b"key".to_vec()),
        Value::Array(vec![entry("5-0", "frame_type", "log")]),
    )]);
    let frames = parse_xread_reply(&raw, "key").unwrap();
    assert_eq!(frames.len(), 1);
    assert_eq!(frames[0].id, "5-0");
    assert_eq!(frames[0].fields.get("frame_type").map(|v| v.as_str()), Some("log"));
    assert!(parse_xread_reply(&Value::Nil, "key").unwrap().is_empty());
}

#[test]
fn layouts_and_protocols_agree() {
    let text = |v: &str| Value::BulkString(v.as_bytes().to_vec());
    let flat = Value::Array(vec![s("a"), s("1"), s("b"), s("2")]);
    let pairs = Value::Array(vec![
        Ok(Value::Array(vec![s("a"), s("1")])),
        Ok(Value::Array(vec![s("b"), s("2")])),
    ]);
    let dict = Value::Dict(vec![(text("a"), text("1")), (text("b"), text("2"))]);
    let want = parse_fields_kv(&dict, FieldShape::Dict).unwrap();
    assert_eq!(want.get("b").map(|v| v.as_str()), Some("2"));
    for (v, shape) in [(&flat, FieldShape::Flat), (&pairs, FieldShape::Pairs)] {
        assert_eq!(parse_fields_kv(v, shape).unwrap().entries(), want.entries());
    }
    assert!(parse_fields_kv(&dict, FieldShape::Flat).is_err());
    assert!(parse_fields_kv(&Value::Array(vec![s("a")]), FieldShape::Flat).is_err());

    let entries = || Value::Array(vec![entry("5-0", "t", "x")]);
    let dict = Value::Dict(vec![(text("other"), Value::Nil), (text("key"), entries())]);
    let list = Value::Array(vec![
        Ok(Value::Array(vec![s("other"), Ok(Value::Nil)])),
        Ok(Value::Array(vec![s("key"), Ok(entries())])),
    ]);
    for raw in [&dict, &list] {
        let frames = parse_xread_reply(raw, "key").unwrap();
        assert_eq!(frames.len(), 1);
        assert_eq!(frames[0].id, "5-0");
        assert!(parse_xread_reply(raw, "none").unwrap().is_empty());
    }
}

#[test]
fn closed_streams_say_when_and_why() {
    let meta = vec![Some("77".to_owned()), Some("done".to_owned())];
    assert_eq!(closed_meta(&meta), (Some(77), Some("done".to_owned())));
    assert_eq!(closed_meta(&vec![Some("".to_owned()), None]), (None, None));
    let f = tail_result(&Value::Nil, "key", &meta).unwrap();
    assert!(f.frames.is_empty());
    assert_eq!(f.closed_at, Some(77));
    assert!(f.is_closed());
}

#[test]
fn unreadable_reads_are_errors() {
    assert!(read_frames(&Value::Nil).is_err());
}

// ── How values are shown ──

fn bulk(bytes: &[u8]) -> ferriskey::Value {
    ferriskey::Value::BulkString(bytes.to_vec().into())
}

#[test]
fn values_are_shown_as_the_client_shows_them() {
    let theirs = ferriskey::Value::Array(vec![
        Ok(ferriskey::Value::Nil),
        Ok(ferriskey::Value::Int(-7)),
        Ok(bulk("say \"hi\"\n".as_bytes())),
        Ok(bulk(&[0xff, 0x00, b'a'])),
        Ok(ferriskey::Value::SimpleString("it's".to_owned())),
        Ok(ferriskey::Value::Okay),
        Ok(ferriskey::Value::Boolean(true)),
        Ok(ferriskey::Value::Boolean(false)),
        Ok(ferriskey::Value::Double(1.5)),
        Err(ferriskey::Error::from((ferriskey::ErrorKind::ReadOnly, "server error"))),
        Ok(ferriskey::Value::Set(vec![ferriskey::Value::Int(1), ferriskey::Value::Int(2)])),
        Ok(ferriskey::Value::Map(vec![
            (bulk(b"k"), ferriskey::Value::Int(1)),
            (ferriskey::Value::Okay, ferriskey::Value::Array(vec![])),
        ])),
        Ok(ferriskey::Value::Attribute {
            data: Box::new(ferriskey::Value::Int(3)),
            attributes: vec![(ferriskey::Value::Nil, ferriskey::Value::Nil)],
        }),
        Ok(ferriskey::Value::VerbatimString {
            format: ferriskey::value::VerbatimFormat::Markdown,
            text: "# t".to_owned(),
        }),
        Ok(ferriskey::Value::Push {
            kind: ferriskey::value::PushKind::Message,
            data: vec![ferriskey::Value::Int(4), ferriskey::Value::Nil],
        }),
    ]);
    let ours = Value::Array(vec![
        Ok(Value::Nil),
        Ok(Value::Int(-7)),
        Ok(Value::BulkString("say \"hi\"\n".as_bytes().to_vec())),
        Ok(Value::BulkString(vec![0xff, 0x00, b'a'])),
        Ok(Value::SimpleString("it's".to_owned())),
        Ok(Value::Okay),
        Ok(Value::Boolean(true)),
        Ok(Value::Boolean(false)),
        Ok(Value::Double("1.5".to_owned())),
        Err(ServerError { kind: ErrorKind::ReadOnly, text: "server error - ReadOnly".to_owned() }),
        Ok(Value::Members(vec![Value::Int(1), Value::Int(2)])),
        Ok(Value::Dict(vec![
            (Value::BulkString(b"k".to_vec()), Value::Int(1)),
            (Value::Okay, Value::Array(vec![])),
        ])),
        Ok(Value::Attribute(Box::new(Value::Int(3)))),
        Ok(Value::VerbatimString { format: "Markdown".to_owned(), text: "# t".to_owned() }),
        Ok(Value::Push { kind: "Message".to_owned(), data: vec![Value::Int(4), Value::Nil] }),
    ]);
    assert_eq!(shown::show(&ours), format!("{theirs:?}"));
    assert_eq!(shown::show(&Value::Nil), "nil");
    assert_eq!(shown::show(&Value::BulkString(b"ab".to_vec())), "bulk-string('\"ab\"')");
}

#[test]
fn a_value_out_of_place_is_shown() {
    let message = |e: ScriptError| match e {
        ScriptError::Parse { message, .. } => message,
        other => panic!("{other:?}"),
    };
    let e = parse_entries(&Value::Int(5), FieldShape::Pairs).unwrap_err();
    assert_eq!(message(e), "XRANGE/XREAD entries: expected Array, got int(5)");
    let e = parse_fields_kv(&Value::Okay, FieldShape::Flat).unwrap_err();
    assert_eq!(message(e), "stream fields (Flat): expected Array, got ok");
    let e = parse_xread_reply(&Value::Boolean(true), "s").unwrap_err();
    assert_eq!(message(e), "XREAD: expected Map/Nil/Array, got boolean(true)");
    let e = FcallResult::parse(&Value::Array(vec![Ok(Value::Nil)])).err().unwrap();
    assert_eq!(message(e), "expected Int at index 0, got Some(Ok(nil))");
    let e = FcallResult::parse(&Value::Okay).err().unwrap();
    assert_eq!(message(e), "expected Array, got \"Okay\"");
}
