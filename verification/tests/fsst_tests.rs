use arrow_json::fsst::{read_fsst_header, FsstError, ESCAPE_CODE};
use arrow_json::fsst_decoder::{DecodeResult, FSSTDecoder};
use arrow_json::fsst_encoder::FSSTEncoder;
use arrow_json::shredding::ShreddedElement;
use bytes::Bytes;

/// A header whose code 0 maps to the symbol "ab" (length 2) and code 1 to
/// "wxyz" (length 4), followed by the given data bytes.
fn buffer_with_tables(data: &[u8]) -> Vec<u8> {
    let mut buf = vec![0u8; 2048];
    buf[0] = b'a';
    buf[1] = b'b';
    buf[8] = b'w';
    buf[9] = b'x';
    buf[10] = b'y';
    buf[11] = b'z';
    let mut lengths = vec![0u8; 256];
    lengths[0] = 2;
    lengths[1] = 4;
    buf.extend_from_slice(&lengths);
    buf.extend_from_slice(data);
    buf
}

#[test]
fn header_too_short_is_an_error() {
    let r = read_fsst_header(Bytes::from(vec![0u8; 2303]));
    assert!(matches!(r, Err(FsstError::General(_))));
}

#[test]
fn header_splits_tables_and_data() {
    let buf = buffer_with_tables(&[7, 8, 9]);
    let (header, data) = read_fsst_header(Bytes::from(buf)).unwrap();
    assert_eq!(data.len(), 3);
    assert_eq!(data[0], 7);
    match header.lookup(0) {
        DecodeResult::Symbol(sym, len) => {
            assert_eq!(&sym[..2], b"ab");
            assert_eq!(len, 2);
        }
        DecodeResult::Escape => panic!("code 0 is not the escape code"),
    }
    match header.lookup(ESCAPE_CODE) {
        DecodeResult::Escape => {}
        DecodeResult::Symbol(..) => panic!("code 255 is the escape code"),
    }
}

#[test]
fn decode_symbols_and_escapes() {
    // First string: one code (symbol "ab"). Second: escape + literal 'Z',
    // then code 1 (symbol "wxyz").
    let buf = buffer_with_tables(&[0, ESCAPE_CODE, b'Z', 1]);
    let mut decoder = FSSTDecoder::new();
    decoder.set_data(Bytes::from(buf), vec![1, 3]).unwrap();
    assert_eq!(decoder.values_left(), 2);
    let mut out = vec![Bytes::new(), Bytes::new()];
    let n = decoder.get(&mut out).unwrap();
    assert_eq!(n, 2);
    assert_eq!(&out[0][..], b"ab");
    assert_eq!(&out[1][..], b"Zwxyz");
    assert_eq!(decoder.values_left(), 0);
}

#[test]
fn escape_pair_may_straddle_the_length_boundary() {
    // The compressed length covers only the escape code itself; the
    // literal byte after it is still consumed.
    let buf = buffer_with_tables(&[ESCAPE_CODE, b'Q', 0]);
    let mut decoder = FSSTDecoder::new();
    decoder.set_data(Bytes::from(buf), vec![1, 1]).unwrap();
    let mut out = vec![Bytes::new(), Bytes::new()];
    let n = decoder.get(&mut out).unwrap();
    assert_eq!(n, 2);
    assert_eq!(&out[0][..], b"Q");
    assert_eq!(&out[1][..], b"ab");
}

#[test]
fn decode_running_out_of_data_is_an_error() {
    let buf = buffer_with_tables(&[0]);
    let mut decoder = FSSTDecoder::new();
    decoder.set_data(Bytes::from(buf), vec![5]).unwrap();
    let mut out = vec![Bytes::new()];
    assert!(decoder.get(&mut out).is_err());
}

#[test]
fn uninitialized_decoder_reports_error() {
    let mut decoder = FSSTDecoder::new();
    assert!(decoder.decode_string(1).is_err());
}

#[test]
fn negative_compressed_length_is_rejected() {
    let buf = buffer_with_tables(&[0]);
    let mut decoder = FSSTDecoder::new();
    assert!(decoder.set_data(Bytes::from(buf), vec![-1]).is_err());
}

#[test]
fn skip_decodes_and_discards() {
    let buf = buffer_with_tables(&[0, 1]);
    let mut decoder = FSSTDecoder::new();
    decoder.set_data(Bytes::from(buf), vec![1, 1]).unwrap();
    assert_eq!(decoder.skip(1).unwrap(), 1);
    assert_eq!(decoder.values_left(), 1);
    let mut out = vec![Bytes::new()];
    decoder.get(&mut out).unwrap();
    assert_eq!(&out[0][..], b"wxyz");
}

#[test]
fn get_with_small_buffer_takes_fewer_values() {
    let buf = buffer_with_tables(&[0, 1]);
    let mut decoder = FSSTDecoder::new();
    decoder.set_data(Bytes::from(buf), vec![1, 1]).unwrap();
    let mut out = vec![Bytes::new()];
    assert_eq!(decoder.get(&mut out).unwrap(), 1);
    assert_eq!(&out[0][..], b"ab");
    assert_eq!(decoder.values_left(), 1);
}

#[test]
fn encoder_collects_raw_bytes() {
    let mut encoder = FSSTEncoder::new();
    assert_eq!(encoder.estimated_data_encoded_size(), 0);
    encoder.put(&vec![b"ab".to_vec(), b"c".to_vec()]).unwrap();
    assert_eq!(encoder.estimated_data_encoded_size(), 3);
    encoder.put(&vec![b"de".to_vec()]).unwrap();
    assert_eq!(encoder.estimated_data_encoded_size(), 5);
}

#[test]
fn shredded_element_classification() {
    let missing = ShreddedElement { value: None, typed_value: None };
    assert!(missing.missing_value());
    assert!(!missing.partially_shredded());
    let partial = ShreddedElement {
        value: Some(vec![1, 2]),
        typed_value: Some(String::from("t")),
    };
    assert!(!partial.missing_value());
    assert!(partial.partially_shredded());
    let typed_only = ShreddedElement { value: None, typed_value: Some(String::from("t")) };
    assert!(!typed_only.missing_value());
    assert!(!typed_only.partially_shredded());
}
