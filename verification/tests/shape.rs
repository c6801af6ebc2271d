use xmip_core_message::shape::claims_media_type;
use xmip_core_message::{
    choose_shape, media_type_of, Part, Shape, ShapeError, Shaped, Stream, StreamId,
};

struct Lines;

impl Shape for Lines {
    fn technology(&self) -> &'static str {
        "lines"
    }

    fn media_types(&self) -> &'static [&'static str] {
        &["text/lines"]
    }

    fn recognises(&self, bytes: &[u8]) -> bool {
        bytes.contains(&b'\n')
    }

    fn shape(&self, stream: &Stream) -> Result<Shaped, ShapeError> {
        if stream.is_empty() {
            return Err(ShapeError::new("lines", "no lines at all").at(0));
        }
        let parts = stream
            .bytes()
            .split(|byte| *byte == b'\n')
            .enumerate()
            .map(|(n, line)| Part::new(Some(n.to_string()), line.to_vec(), None))
            .collect();
        Ok(Shaped {
            parts,
            message_type: Some("lines".into()),
        })
    }
}

struct Whole;

impl Shape for Whole {
    fn technology(&self) -> &'static str {
        "binary"
    }

    fn media_types(&self) -> &'static [&'static str] {
        &["application/octet-stream"]
    }

    fn recognises(&self, _: &[u8]) -> bool {
        true
    }

    fn shape(&self, stream: &Stream) -> Result<Shaped, ShapeError> {
        Ok(Shaped {
            parts: vec![Part::whole(stream)],
            message_type: None,
        })
    }
}

fn stream(bytes: &[u8], media: Option<&str>) -> Stream {
    Stream::new(StreamId::new(7), bytes.to_vec(), media.map(str::to_string))
}

#[test]
fn a_media_type_chooses_first_and_recognition_second_in_order() {
    let shapes: [&dyn Shape; 2] = [&Lines, &Whole];
    let by_media = choose_shape(&shapes[..], &stream(b"x", Some("Text/Lines; charset=utf-8")));
    assert_eq!(by_media.map(Shape::technology), Some("lines"));

    let by_look = choose_shape(&shapes[..], &stream(b"a\nb", None));
    assert_eq!(by_look.map(Shape::technology), Some("lines"));

    let fallback = choose_shape(&shapes[..], &stream(b"ab", Some("image/png")));
    assert_eq!(fallback.map(Shape::technology), Some("binary"));

    let nothing = choose_shape(&[&Lines], &stream(b"ab", None));
    assert!(nothing.is_none());
}

#[test]
fn shaping_yields_parts_and_a_type_and_says_where_it_failed() {
    let shaped = Lines.shape(&stream(b"a\nb", None)).expect("well-formed");
    assert_eq!(shaped.parts.len(), 2);
    assert_eq!(shaped.parts[1].name.as_deref(), Some("1"));
    assert_eq!(shaped.parts[1].bytes, b"b");
    assert_eq!(shaped.message_type.as_deref(), Some("lines"));

    let failed = Lines.shape(&stream(b"", None)).expect_err("empty");
    assert_eq!(failed.offset, Some(0));
    assert_eq!(failed.to_string(), "lines: no lines at all at byte 0");
}

#[test]
fn the_whole_part_keeps_the_media_type_and_parameters_are_dropped_for_choosing() {
    let source = stream(b"\x00\x01", Some("application/octet-stream; x=1"));
    let whole = Part::whole(&source);
    assert_eq!(
        whole.media_type.as_deref(),
        Some("application/octet-stream; x=1")
    );
    assert_eq!(
        media_type_of(&source).as_deref(),
        Some("application/octet-stream")
    );
    assert_eq!(media_type_of(&stream(b"", Some(" ; "))), None);
}

#[test]
fn the_whole_part_is_all_the_bytes_and_has_no_name() {
    let whole = Part::whole(&stream(b"\x00\x01\x02", None));
    assert_eq!(whole.name, None);
    assert_eq!(whole.bytes, vec![0u8, 1, 2]);
    assert_eq!(whole.media_type, None);
}

#[test]
fn a_media_type_is_trimmed_lowered_and_cut_at_its_parameters() {
    let of = |m: &str| media_type_of(&stream(b"", Some(m)));
    assert_eq!(of("  TEXT/XML  ").as_deref(), Some("text/xml"));
    assert_eq!(of("\tApplication/JSON;charset=UTF-8").as_deref(), Some("application/json"));
    assert_eq!(of("\u{3000}text/csv\u{a0}").as_deref(), Some("text/csv"));
    assert_eq!(of("text/ÄBC").as_deref(), Some("text/Äbc"));
    assert_eq!(of("a;b;c").as_deref(), Some("a"));
    assert_eq!(of(";text/xml"), None);
    assert_eq!(of(""), None);
    assert_eq!(of("   "), None);
    assert_eq!(media_type_of(&stream(b"", None)), None);
}

#[test]
fn a_claim_is_an_exact_match() {
    assert!(claims_media_type(&["text/xml", "application/xml"], "application/xml"));
    assert!(!claims_media_type(&["text/xml"], "text/xm"));
    assert!(!claims_media_type(&[], "text/xml"));
}

#[test]
fn a_claim_wins_over_an_earlier_recogniser_and_order_breaks_ties() {
    let shapes: [&dyn Shape; 2] = [&Whole, &Lines];
    let claimed = choose_shape(&shapes[..], &stream(b"ab", Some("TEXT/LINES")));
    assert_eq!(claimed.map(Shape::technology), Some("lines"));
    let first = choose_shape(&shapes[..], &stream(b"a\nb", None));
    assert_eq!(first.map(Shape::technology), Some("binary"));
    let unclaimed = choose_shape(&shapes[..], &stream(b"a\nb", Some("image/png")));
    assert_eq!(unclaimed.map(Shape::technology), Some("binary"));
    let none: [&dyn Shape; 0] = [];
    assert!(choose_shape(&none[..], &stream(b"a", Some("text/lines"))).is_none());
}

#[test]
fn an_error_reads_with_and_without_an_offset() {
    let plain = ShapeError::new("json", "unexpected end");
    assert_eq!(plain.offset, None);
    assert_eq!(plain.to_string(), "json: unexpected end");
    let placed = plain.clone().at(1234);
    assert_eq!(placed.technology, "json");
    assert_eq!(placed.reason, "unexpected end");
    assert_eq!(placed.to_string(), "json: unexpected end at byte 1234");
    assert_eq!(
        ShapeError::new("x", "y").at(usize::MAX).to_string(),
        format!("x: y at byte {}", usize::MAX)
    );
}
