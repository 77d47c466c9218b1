use lambda_events::body::{BodyReader, BodyStatus, ChunkEvent};
use lambda_events::transport::{Client, TransportError};

fn client() -> Client {
    Client::new("https".to_string(), "example.com".to_string())
}

#[test]
fn target_keeps_path_and_query_exactly() {
    let c = client();
    let t = c.target_for(Some("/foo?bar=1")).ok().unwrap();
    assert_eq!(t.scheme, "https");
    assert_eq!(t.authority, "example.com");
    assert_eq!(t.path_and_query, "/foo?bar=1");
}

#[test]
fn uri_is_rewritten_onto_client_endpoint() {
    let c = client();
    let u = c.rewrite_uri(Some("/foo?bar=1")).unwrap();
    assert_eq!(u.scheme_str(), Some("https"));
    assert_eq!(u.authority().map(|a| a.as_str()), Some("example.com"));
    assert_eq!(u.path_and_query().map(|p| p.as_str()), Some("/foo?bar=1"));
    assert_eq!(u.to_string(), "https://example.com/foo?bar=1");
}

#[test]
fn missing_path_and_query_is_an_error() {
    let c = client();
    assert_eq!(c.target_for(None).err(), Some(TransportError::MissingPathAndQuery));
    assert_eq!(c.rewrite_uri(None).err(), Some(TransportError::MissingPathAndQuery));
}

#[test]
fn invalid_authority_is_an_error() {
    let c = Client::new("https".to_string(), "exa mple.com".to_string());
    assert_eq!(c.rewrite_uri(Some("/x")).err(), Some(TransportError::InvalidUri));
}

#[test]
fn client_keeps_its_endpoint() {
    let c = client();
    assert_eq!(c.scheme(), "https");
    assert_eq!(c.authority(), "example.com");
}

#[test]
fn chunks_reassemble_in_arrival_order() {
    let mut r = BodyReader::new();
    for c in ["ab", "cd", "ef"] {
        assert_eq!(r.feed(ChunkEvent::Data(c.as_bytes().to_vec())), BodyStatus::Reading);
    }
    assert_eq!(r.feed(ChunkEvent::End), BodyStatus::Complete);
    assert_eq!(r.into_body().unwrap(), b"abcdef".to_vec());
}

#[test]
fn empty_body_is_empty() {
    let mut r = BodyReader::new();
    assert_eq!(r.feed(ChunkEvent::End), BodyStatus::Complete);
    assert_eq!(r.into_body().unwrap(), Vec::<u8>::new());
}

#[test]
fn failed_chunk_read_aborts() {
    let mut r = BodyReader::new();
    r.feed(ChunkEvent::Data(b"ab".to_vec()));
    assert_eq!(r.feed(ChunkEvent::Failed), BodyStatus::Aborted);
    assert_eq!(r.status(), BodyStatus::Aborted);
    assert_eq!(r.into_body().err(), Some(TransportError::BodyRead));
}

#[test]
fn unfinished_body_is_not_handed_out() {
    let mut r = BodyReader::new();
    r.feed(ChunkEvent::Data(b"ab".to_vec()));
    assert_eq!(r.status(), BodyStatus::Reading);
    assert_eq!(r.into_body().err(), Some(TransportError::BodyRead));
}
