use sml_bridge::frame::FrameDecoder;
use sml_bridge::message::{parse_frame, DecodedMessage, ListEntry, Value};
use sml_bridge::pipeline::Pipeline;
use sml_bridge::metering::{process_sml_messages, SensorData};

fn crc_x25(data: &[u8]) -> u16 {
    let mut crc: u16 = 0xffff;
    for &b in data {
        crc ^= b as u16;
        for _ in 0..8 {
            if crc & 1 != 0 {
                crc = (crc >> 1) ^ 0x8408;
            } else {
                crc >>= 1;
            }
        }
    }
    !crc
}

/// One SML GetList response message holding a single list entry.
fn get_list_message(code: [u8; 6], value: &[u8]) -> Vec<u8> {
    let mut m = vec![0x76, 0x05, 0x01, 0x02, 0x03, 0x04, 0x62, 0x00, 0x62, 0x00];
    m.extend_from_slice(&[0x72, 0x65, 0x00, 0x00, 0x07, 0x01]);
    m.extend_from_slice(&[0x77, 0x01, 0x03, 0xaa, 0xbb, 0x01, 0x01]);
    m.extend_from_slice(&[0x71, 0x77, 0x07]);
    m.extend_from_slice(&code);
    m.extend_from_slice(&[0x01, 0x01, 0x01, 0x01]);
    m.extend_from_slice(value);
    m.extend_from_slice(&[0x01, 0x01, 0x01]);
    let crc = crc_x25(&m);
    m.push(0x63);
    m.extend_from_slice(&crc.to_le_bytes());
    m.push(0x00);
    m
}

fn power_message(p: i32) -> Vec<u8> {
    let mut v = vec![0x55];
    v.extend_from_slice(&p.to_be_bytes());
    get_list_message([1, 0, 16, 7, 0, 255], &v)
}

fn counter_message(c: u64) -> Vec<u8> {
    let mut v = vec![0x69];
    v.extend_from_slice(&c.to_be_bytes());
    get_list_message([1, 0, 1, 8, 0, 255], &v)
}

fn framed(payload: &[u8]) -> Vec<u8> {
    sml_rs::transport::encode::<Vec<u8>>(payload).unwrap()
}

fn parse(frame: &[u8]) -> DecodedMessage {
    parse_frame(frame).expect("frame parses")
}

fn bytewise(bytes: &[u8]) -> Vec<Vec<u8>> {
    let mut d = FrameDecoder::new();
    let mut out = Vec::new();
    for &b in bytes {
        if let Ok(Some(f)) = d.push(b) {
            out.push(f);
        }
    }
    out
}

#[test]
fn decodes_one_frame() {
    let payload = power_message(-5500);
    let mut d = FrameDecoder::new();
    let frames = d.push_bytes(&framed(&payload));
    assert_eq!(frames, vec![payload]);
}

#[test]
fn escaped_payload_is_restored() {
    let payload = vec![0x1b, 0x1b, 0x1b, 0x1b, 0x01, 0x01, 0x01, 0x01, 0x42, 0x00, 0x00, 0x00];
    let frames = bytewise(&framed(&payload));
    assert_eq!(frames, vec![payload]);
}

#[test]
fn bytewise_equals_batch_and_chunks() {
    let mut stream = vec![0x00, 0x13];
    stream.extend(framed(&power_message(-5500)));
    stream.extend(framed(&counter_message(123456)));
    stream.extend([0x1b, 0x1b]);
    let one = bytewise(&stream);
    assert_eq!(one.len(), 2);
    let mut batch = FrameDecoder::new();
    assert_eq!(batch.push_bytes(&stream), one);
    for split in [1usize, 3, 7, 16, 40] {
        let mut d = FrameDecoder::new();
        let mut got = Vec::new();
        for chunk in stream.chunks(split) {
            got.extend(d.push_bytes(chunk));
        }
        assert_eq!(got, one);
    }
}

#[test]
fn corrupt_frame_then_valid_yields_only_valid() {
    let good = counter_message(42);
    let mut bad = framed(&power_message(-1));
    let n = bad.len();
    bad[n - 1] ^= 0xff;
    let mut stream = bad;
    stream.extend(framed(&good));
    let mut d = FrameDecoder::new();
    assert_eq!(d.push_bytes(&stream), vec![good]);
}

#[test]
fn truncated_frame_then_valid_yields_only_valid() {
    let good = power_message(-600);
    let full = framed(&power_message(-1));
    let mut stream = full[..full.len() / 2].to_vec();
    stream.extend(framed(&good));
    let frames = bytewise(&stream);
    assert_eq!(frames, vec![good]);
}

#[test]
fn end_to_end_two_frames() {
    let mut stream = framed(&power_message(-5500));
    let first_len = stream.len();
    stream.extend(framed(&counter_message(123456)));
    let mut d = FrameDecoder::new();
    let mut s = SensorData::new();
    let mut now = 0u64;
    for (i, &b) in stream.iter().enumerate() {
        if i == first_len {
            now += 1000;
        }
        if let Ok(Some(f)) = d.push(b) {
            let msg = parse(&f);
            assert!(process_sml_messages(&mut s, &msg, now).is_some());
        }
    }
    assert!(s.einspeisung_sts);
    assert_eq!(s.zaehlerstand, 123456);
    assert_eq!(s.wirkleistung, -5500);
    assert!(s.einspeisung > 0);
    assert_eq!(s.einspeisung, 5500 * 1000);
}

#[test]
fn parse_frame_reads_entries() {
    let msg = parse_frame(&counter_message(123456)).unwrap();
    assert_eq!(
        msg.entries,
        vec![ListEntry { obj_name: vec![1, 0, 1, 8, 0, 255], value: Value::U64(123456) }]
    );
    let msg = parse_frame(&power_message(-5500)).unwrap();
    assert_eq!(msg.entries[0].value, Value::I32(-5500));
}

#[test]
fn parse_frame_rejects_garbage() {
    assert_eq!(parse_frame(&[0x12, 0x34, 0x56]), None);
    let mut bad = counter_message(1);
    bad[3] ^= 0x55;
    assert_eq!(parse_frame(&bad), None);
}

#[test]
fn long_noise_then_valid_frame() {
    let mut stream = vec![0x42u8; 70_000];
    let good = power_message(-600);
    stream.extend(framed(&good));
    let mut d = FrameDecoder::new();
    assert_eq!(d.push_bytes(&stream), vec![good.clone()]);
    let mut stream = vec![0x00u8; 200_000];
    stream.extend(framed(&good));
    assert_eq!(bytewise(&stream), vec![good]);
}

#[test]
fn pipeline_chunking_gives_same_outputs() {
    let mut stream = vec![0x07];
    stream.extend(framed(&power_message(-5500)));
    stream.extend(framed(&counter_message(123456)));
    stream.extend(framed(&power_message(-200)));
    let mut whole = Pipeline::new();
    let all = whole.ingest(&stream, 1000);
    assert_eq!(all.len(), 3);
    for split in [1usize, 5, 64, 256] {
        let mut p = Pipeline::new();
        let mut outs = Vec::new();
        for chunk in stream.chunks(split) {
            outs.extend(p.ingest(chunk, 1000));
        }
        assert_eq!(outs.len(), all.len());
        for (a, b) in outs.iter().zip(all.iter()) {
            assert_eq!(a.message, b.message);
            assert_eq!(a.effects, b.effects);
            assert_eq!(a.state, b.state);
        }
        assert_eq!(p.sensor(), whole.sensor());
    }
}

#[test]
fn pipeline_end_to_end() {
    let mut p = Pipeline::new();
    let first = p.ingest(&framed(&power_message(-5500)), 0);
    assert_eq!(first.len(), 1);
    assert_eq!(first[0].effects.unwrap().feed_in_change, Some(true));
    let second = p.ingest(&framed(&counter_message(123456)), 1000);
    assert_eq!(second.len(), 1);
    let s = p.sensor();
    assert!(s.einspeisung_sts);
    assert_eq!(s.zaehlerstand, 123456);
    assert_eq!(s.einspeisung, 5500 * 1000);
    assert_eq!(second[0].state, *s);
}

#[test]
fn pipeline_skips_unparsable_frames() {
    let mut p = Pipeline::new();
    let outs = p.ingest(&framed(&[0x12, 0x34, 0x56, 0x78]), 0);
    assert!(outs.is_empty());
    assert_eq!(*p.sensor(), SensorData::new());
}
