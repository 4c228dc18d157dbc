use bytes::Bytes;
use http::header::{HeaderValue, CONTENT_TYPE, LOCATION};
use http::{HeaderMap, StatusCode};
use test_client::{Error, Method, RequestBuilder, TestResponse};

fn delivered(
    status: StatusCode,
    headers: HeaderMap,
    chunks: Vec<Bytes>,
    broken: bool,
) -> TestResponse {
    let mut res = TestResponse::new(status, headers);
    assert!(res.is_open());
    for chunk in chunks {
        res.receive(chunk);
    }
    if broken {
        res.fail();
    } else {
        res.finish();
    }
    assert!(!res.is_open());
    res
}

fn chunks(parts: &[&'static [u8]]) -> Vec<Bytes> {
    parts.iter().map(|p| Bytes::from_static(p)).collect()
}

fn response(parts: &[&'static [u8]]) -> TestResponse {
    delivered(StatusCode::OK, HeaderMap::new(), chunks(parts), false)
}

fn broken(parts: &[&'static [u8]]) -> TestResponse {
    delivered(StatusCode::OK, HeaderMap::new(), chunks(parts), true)
}

#[test]
fn status_and_headers_are_those_received() {
    let mut headers = HeaderMap::new();
    headers.insert(CONTENT_TYPE, HeaderValue::from_static("text/plain"));
    headers.append("set-cookie", HeaderValue::from_static("a=1"));
    headers.append("set-cookie", HeaderValue::from_static("b=2"));
    let res = delivered(StatusCode::CREATED, headers.clone(), Vec::new(), false);
    assert_eq!(res.status(), StatusCode::CREATED);
    assert_eq!(res.status().as_u16(), 201);
    assert_eq!(res.headers(), &headers);
    assert_eq!(res.headers().get_all("set-cookie").iter().count(), 2);
    assert_eq!(res.status(), StatusCode::CREATED);
    assert_eq!(res.headers(), &headers);
}

#[test]
fn redirect_status_is_reported_as_it_is() {
    for status in [
        StatusCode::MOVED_PERMANENTLY,
        StatusCode::FOUND,
        StatusCode::SEE_OTHER,
        StatusCode::TEMPORARY_REDIRECT,
        StatusCode::PERMANENT_REDIRECT,
    ] {
        let mut headers = HeaderMap::new();
        headers.insert(LOCATION, HeaderValue::from_static("/elsewhere"));
        let res = delivered(status, headers, chunks(&[b"moved"]), false);
        assert_eq!(res.status(), status);
        assert!(res.status().is_redirection());
        assert_eq!(res.headers().get(LOCATION).unwrap(), "/elsewhere");
        assert_eq!(res.text().unwrap(), "moved");
    }
}

#[test]
fn bytes_joins_the_chunks() {
    assert_eq!(response(&[b"hel", b"", b"lo ", b"world"]).bytes().unwrap(), &b"hello world"[..]);
    assert_eq!(response(&[b"one"]).bytes().unwrap(), &b"one"[..]);
    assert_eq!(response(&[]).bytes().unwrap(), &b""[..]);
    assert_eq!(response(&[b"\xff\x00", b"\x80"]).bytes().unwrap(), &b"\xff\x00\x80"[..]);
}

#[test]
fn bytes_of_a_broken_body_fails() {
    assert_eq!(broken(&[b"partial"]).bytes().unwrap_err(), Error::Transport);
    assert_eq!(broken(&[]).bytes().unwrap_err(), Error::Transport);
}

#[test]
fn text_decodes_the_whole_body() {
    assert_eq!(response(&[b"caf", b"\xc3", b"\xa9!"]).text().unwrap(), "caf\u{e9}!");
    assert_eq!(response(&[]).text().unwrap(), "");
}

#[test]
fn text_that_is_not_utf8_fails_to_decode() {
    assert_eq!(response(&[b"caf\xe9"]).text().unwrap_err(), Error::Decode);
    assert_eq!(response(&[b"\xc3"]).text().unwrap_err(), Error::Decode);
    assert_eq!(response(&[b"\xed\xa0\x80"]).text().unwrap_err(), Error::Decode);
}

#[test]
fn text_holds_to_the_rules_of_utf8() {
    assert_eq!(response(&[b"\xf0\x9f\x98\x80"]).text().unwrap(), "\u{1f600}");
    assert_eq!(response(&[b"\xf4\x8f\xbf\xbf"]).text().unwrap(), "\u{10ffff}");
    assert_eq!(response(&[b"\xef\xbf\xbd\x00"]).text().unwrap(), "\u{fffd}\u{0}");
    for bad in [
        &b"\xc0\x80"[..],
        &b"\xe0\x80\x80"[..],
        &b"\xf4\x90\x80\x80"[..],
        &b"\xf8\x88\x80\x80\x80"[..],
        &b"\x80"[..],
        &b"ok\xff"[..],
        &b"\xe2\x82"[..],
    ] {
        let res = delivered(
            StatusCode::OK,
            HeaderMap::new(),
            vec![Bytes::copy_from_slice(bad)],
            false,
        );
        assert_eq!(res.text().unwrap_err(), Error::Decode);
    }
}

#[test]
fn text_of_a_broken_body_is_a_transport_failure() {
    assert_eq!(broken(&[b"fine"]).text().unwrap_err(), Error::Transport);
    assert_eq!(broken(&[b"\xff"]).text().unwrap_err(), Error::Transport);
}

#[test]
fn chunk_hands_out_the_chunks_in_order_then_none() {
    let mut res = response(&[b"a", b"", b"bc"]);
    assert_eq!(res.chunk().unwrap().unwrap(), &b"a"[..]);
    assert_eq!(res.chunk().unwrap().unwrap(), &b""[..]);
    assert_eq!(res.chunk().unwrap().unwrap(), &b"bc"[..]);
    assert_eq!(res.chunk().unwrap(), None);
    assert_eq!(res.chunk().unwrap(), None);
    assert_eq!(res.bytes().unwrap(), &b""[..]);
}

#[test]
fn chunk_of_a_broken_body_fails_once_the_chunks_are_out() {
    let mut res = broken(&[b"a"]);
    assert_eq!(res.chunk().unwrap().unwrap(), &b"a"[..]);
    assert_eq!(res.chunk().unwrap_err(), Error::Transport);
    assert_eq!(res.chunk().unwrap_err(), Error::Transport);
    assert_eq!(res.chunk_text().unwrap_err(), Error::Transport);
}

#[test]
fn bytes_after_a_chunk_is_the_rest() {
    let mut res = response(&[b"head", b"-", b"tail"]);
    assert_eq!(res.chunk().unwrap().unwrap(), &b"head"[..]);
    assert_eq!(res.bytes().unwrap(), &b"-tail"[..]);
}

#[test]
fn status_and_headers_outlast_the_chunks() {
    let mut headers = HeaderMap::new();
    headers.insert(CONTENT_TYPE, HeaderValue::from_static("text/plain"));
    let mut res = delivered(StatusCode::ACCEPTED, headers.clone(), chunks(&[b"x"]), false);
    while res.chunk().unwrap().is_some() {}
    assert_eq!(res.status(), StatusCode::ACCEPTED);
    assert_eq!(res.headers(), &headers);
}

#[test]
fn chunk_text_decodes_each_chunk() {
    let mut res = response(&[b"caf\xc3\xa9", b"", b"ok"]);
    assert_eq!(res.chunk_text().unwrap().unwrap(), "caf\u{e9}");
    assert_eq!(res.chunk_text().unwrap().unwrap(), "");
    assert_eq!(res.chunk_text().unwrap().unwrap(), "ok");
    assert_eq!(res.chunk_text().unwrap(), None);
    assert_eq!(res.chunk_text().unwrap(), None);
}

#[test]
fn chunk_text_reads_a_chunk_that_is_not_utf8_as_none_and_goes_on() {
    let mut res = response(&[b"\xc3", b"\xa9", b"after"]);
    assert_eq!(res.chunk_text().unwrap(), None);
    assert_eq!(res.chunk_text().unwrap(), None);
    assert_eq!(res.chunk_text().unwrap().unwrap(), "after");
    assert_eq!(res.chunk_text().unwrap(), None);
}

#[test]
fn json_hands_the_whole_body_to_the_decoder() {
    let res = response(&[b"12", b"3"]);
    let n: u32 = res.json(|body| String::from_utf8(body).ok()?.parse().ok()).unwrap();
    assert_eq!(n, 123);
    let res = response(&[b"12", b"x"]);
    let n: Result<u32, Error> = res.json(|body| String::from_utf8(body).ok()?.parse().ok());
    assert_eq!(n.unwrap_err(), Error::Decode);
}

#[test]
fn json_of_a_broken_body_fails_before_it_is_decoded() {
    let mut called = false;
    let n: Result<u32, Error> = broken(&[b"123"]).json(|_| {
        called = true;
        Some(1)
    });
    assert_eq!(n.unwrap_err(), Error::Transport);
    assert!(!called);
}

#[test]
fn chunks_joined_are_the_whole_body() {
    let parts: [&'static [u8]; 5] = [b"{\"a\":", b"[1,", b"", b"2]", b"}"];
    let whole = response(&parts).bytes().unwrap();
    let mut res = response(&parts);
    let mut joined = Vec::new();
    while let Some(chunk) = res.chunk().unwrap() {
        joined.extend_from_slice(&chunk);
    }
    assert_eq!(joined, whole);
    assert_eq!(joined, b"{\"a\":[1,2]}");
}

#[test]
fn created_response_decodes_to_its_json_shape() {
    let res = delivered(
        StatusCode::CREATED,
        HeaderMap::new(),
        chunks(&[b"{\"id\":7}"]),
        false,
    );
    assert_eq!(res.status().as_u16(), 201);
    let shape: serde_json::Value = serde_json::from_slice(&res.bytes().unwrap()).unwrap();
    assert_eq!(shape.get("id").and_then(|id| id.as_u64()), Some(7));
}

#[test]
fn json_body_echoed_back_decodes_to_the_value_sent() {
    let mut object = serde_json::Map::new();
    object.insert(String::from("name"), serde_json::Value::from("caf\u{e9}"));
    object.insert(String::from("tags"), serde_json::Value::from(vec![1, 2, 3]));
    object.insert(String::from("none"), serde_json::Value::Null);
    let value = serde_json::Value::Object(object);
    let request = RequestBuilder::new(Method::Post, String::from("http://0.0.0.0:1/echo"))
        .json(serde_json::to_vec(&value).ok())
        .send()
        .unwrap();
    let sent = match request.body {
        test_client::Body::Bytes(bytes) => bytes,
        _ => panic!("a JSON body is bytes"),
    };
    let (first, second) = sent.split_at(sent.len() / 2);
    let echoed = delivered(
        StatusCode::OK,
        HeaderMap::new(),
        vec![Bytes::copy_from_slice(first), Bytes::copy_from_slice(second)],
        false,
    );
    let back: serde_json::Value = serde_json::from_slice(&echoed.bytes().unwrap()).unwrap();
    assert_eq!(back, value);
}

#[test]
fn fresh_response_awaits_its_body() {
    let mut res = TestResponse::new(StatusCode::OK, HeaderMap::new());
    assert!(res.is_open());
    assert!(res.is_starved());
    assert_eq!(res.chunk().unwrap_err(), Error::Incomplete);
    assert_eq!(res.chunk_text().unwrap_err(), Error::Incomplete);
    assert!(res.is_open());
    assert_eq!(res.bytes().unwrap_err(), Error::Incomplete);
}

#[test]
fn whole_body_reads_fail_while_more_may_arrive() {
    let open = |parts: &[&'static [u8]]| {
        let mut res = TestResponse::new(StatusCode::OK, HeaderMap::new());
        for chunk in chunks(parts) {
            res.receive(chunk);
        }
        res
    };
    assert_eq!(open(&[b"so far"]).bytes().unwrap_err(), Error::Incomplete);
    assert_eq!(open(&[b"so far"]).text().unwrap_err(), Error::Incomplete);
    let n: Result<u32, Error> = open(&[b"1"]).json(|_| Some(1));
    assert_eq!(n.unwrap_err(), Error::Incomplete);
}

#[test]
fn chunks_are_read_while_the_body_is_still_arriving() {
    let mut res = TestResponse::new(StatusCode::OK, HeaderMap::new());
    res.receive(Bytes::from_static(b"one"));
    assert!(res.is_open());
    assert!(!res.is_starved());
    assert_eq!(res.chunk().unwrap().unwrap(), &b"one"[..]);
    assert!(res.is_starved());
    assert_eq!(res.chunk().unwrap_err(), Error::Incomplete);
    res.receive(Bytes::from_static(b"two"));
    res.receive(Bytes::from_static(b"three"));
    assert_eq!(res.chunk_text().unwrap().unwrap(), "two");
    res.finish();
    assert!(!res.is_open());
    assert!(!res.is_starved());
    assert_eq!(res.chunk().unwrap().unwrap(), &b"three"[..]);
    assert_eq!(res.chunk().unwrap(), None);
    assert!(!res.is_starved());
}

#[test]
fn reading_between_arrivals_collects_what_reading_at_the_end_does() {
    let parts: [&'static [u8]; 4] = [b"al", b"", b"pha", b"bet"];
    let mut lazy = TestResponse::new(StatusCode::OK, HeaderMap::new());
    let mut joined = Vec::new();
    for chunk in chunks(&parts) {
        lazy.receive(chunk);
        while !lazy.is_starved() {
            joined.extend_from_slice(&lazy.chunk().unwrap().unwrap());
        }
    }
    lazy.finish();
    assert_eq!(lazy.chunk().unwrap(), None);
    assert_eq!(joined, response(&parts).bytes().unwrap());
    assert_eq!(joined, b"alphabet");
}

#[test]
fn nothing_arrives_after_the_end_of_a_body() {
    let mut res = response(&[b"kept"]);
    res.receive(Bytes::from_static(b"dropped"));
    res.fail();
    assert_eq!(res.chunk().unwrap().unwrap(), &b"kept"[..]);
    assert_eq!(res.chunk().unwrap(), None);
    let mut res = broken(&[b"kept"]);
    res.receive(Bytes::from_static(b"dropped"));
    res.finish();
    assert_eq!(res.chunk().unwrap().unwrap(), &b"kept"[..]);
    assert_eq!(res.chunk().unwrap_err(), Error::Transport);
}
