use rmox::protocol::io::{encode_frame, from_le_bytes, le_bytes, FrameReader, Progress};
use rmox::protocol::server_to_client::SurfaceDescription;
use rmox::protocol::Id;
use rmox::types::{pos2, rect, vec2, Rotation};

#[test]
fn server_to_client_test_transform_point() {
    let desc = SurfaceDescription {
        base_rect: rect(200, 200, 500, 800),
        rotation: Rotation::Rotate270,
        scale: 2,
        visible: true,
    };
    assert_eq!(desc.transform_point(pos2(0, 0)), pos2(200, 1000));
    assert_eq!(desc.transform_point(pos2(10, 0)), pos2(200, 980));
    assert_eq!(desc.transform_point(pos2(10, 20)), pos2(240, 980));
}

#[test]
fn server_to_client_test_transform_rect() {
    let origin = rect(100, 200, 300, 400);
    let desc = SurfaceDescription {
        base_rect: rect(200, 200, 1500, 1800),
        rotation: Rotation::Rotate90,
        scale: 2,
        visible: true,
    };
    assert_eq!(desc.transform_rect(origin), rect(500, 400, 800, 600));
}

#[test]
fn reported_size() {
    let desc = SurfaceDescription {
        base_rect: rect(200, 200, 500, 800),
        rotation: Rotation::Rotate270,
        scale: 2,
        visible: true,
    };
    assert_eq!(desc.size(), vec2(400, 250));
    let upright = SurfaceDescription { rotation: Rotation::Rotate0, scale: 3, ..desc };
    assert_eq!(upright.size(), vec2(166, 266));
}

#[test]
fn drawing_is_clipped_to_the_surface() {
    let desc = SurfaceDescription {
        base_rect: rect(10, 10, 20, 20),
        rotation: Rotation::Rotate0,
        scale: 1,
        visible: true,
    };
    assert_eq!(desc.draw_point(pos2(0, 0)), Some(pos2(10, 10)));
    assert_eq!(desc.draw_point(pos2(19, 19)), Some(pos2(29, 29)));
    assert_eq!(desc.draw_point(pos2(20, 0)), None);
    assert_eq!(desc.fill_area(rect(15, 15, 10, 10)), Some(rect(25, 25, 5, 5)));
    assert_eq!(desc.clear_area(), Some(rect(10, 10, 20, 20)));
    let hidden = SurfaceDescription { visible: false, ..desc };
    assert_eq!(hidden.draw_point(pos2(0, 0)), None);
    assert_eq!(hidden.fill_area(rect(0, 0, 5, 5)), None);
    assert_eq!(hidden.clear_area(), None);
}

#[test]
fn ids_step_and_wrap() {
    let start = Id::start();
    assert_eq!(start.get(), 1);
    assert_eq!(start.step().get(), 2);
    assert_eq!(Id::new(u32::MAX).unwrap().step(), Id::start());
    assert_eq!(Id::new(0), None);
    assert_eq!(Id::new(7).unwrap().get(), 7);
}

#[test]
fn length_prefix_is_little_endian() {
    assert_eq!(le_bytes(4), [4, 0, 0, 0]);
    assert_eq!(le_bytes(0x0102_0304), [4, 3, 2, 1]);
    assert_eq!(from_le_bytes(&[4, 3, 2, 1]), 0x0102_0304);
    assert_eq!(from_le_bytes(&le_bytes(u32::MAX)), u32::MAX);
    assert_eq!(encode_frame(&[0x81, 0x63, 0x66, 0x6f]), vec![4, 0, 0, 0, 0x81, 0x63, 0x66, 0x6f]);
    assert_eq!(encode_frame(&[]), vec![0, 0, 0, 0]);
}

#[test]
fn framed_decode() {
    let bytes = [0x04, 0x00, 0x00, 0x00, 0x81, 0x63, 0x66, 0x6f];
    let mut reader = FrameReader::new();
    assert_eq!(reader.wanted(), 4);
    assert_eq!(reader.feed(&bytes[..4]), Progress::NeedMore);
    assert_eq!(reader.wanted(), 4);
    assert_eq!(reader.feed(&bytes[4..]), Progress::Frame(vec![0x81, 0x63, 0x66, 0x6f]));
    // A read of nothing at the frame boundary ends the stream cleanly.
    assert_eq!(reader.wanted(), 4);
    assert_eq!(reader.feed(&[]), Progress::End);
}

#[test]
fn partial_reads_keep_their_bytes() {
    let frame = encode_frame(&[1, 2, 3, 4, 5]);
    let mut reader = FrameReader::new();
    let mut frames = Vec::new();
    let mut at = 0;
    // One byte at a time.
    while at < frame.len() {
        let n = reader.wanted().min(1);
        match reader.feed(&frame[at..at + n]) {
            Progress::NeedMore => {}
            Progress::Frame(payload) => frames.push(payload),
            other => panic!("unexpected {other:?}"),
        }
        at += n;
    }
    assert_eq!(frames, vec![vec![1, 2, 3, 4, 5]]);
    assert!(reader.connection_reset());
}

#[test]
fn end_of_stream_in_the_middle() {
    let mut reader = FrameReader::new();
    assert_eq!(reader.feed(&[4, 0]), Progress::NeedMore);
    assert_eq!(reader.feed(&[]), Progress::UnexpectedEof);
    let mut reader = FrameReader::new();
    assert_eq!(reader.feed(&[4, 0, 0, 0]), Progress::NeedMore);
    assert!(!reader.connection_reset());
    assert_eq!(reader.feed(&[9]), Progress::NeedMore);
    assert_eq!(reader.feed(&[]), Progress::UnexpectedEof);
    let mut reader = FrameReader::new();
    assert_eq!(reader.feed(&[0, 0, 0, 0]), Progress::Frame(vec![]));
    assert_eq!(reader.feed(&[]), Progress::End);
}
