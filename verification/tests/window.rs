use packet_sniffer::byte_slice::Bytes;
use packet_sniffer::byte_slice::DecodeError;
use packet_sniffer::byte_slice::Shift;

#[test]
fn from_slice_spans_the_buffer() {
    let data = [1u8, 2, 3, 4, 5, 6, 7];
    let bytes = Bytes::from_slice(&data);
    assert_eq!(bytes.len(), 7);
    assert_eq!(&bytes[..], &data[..]);
    assert!(!bytes.is_unprinted());
}

#[test]
fn shift_first_moves_the_start() {
    let data = [1u8, 2, 3, 4, 5, 6, 7];
    let mut bytes = Bytes::from_slice(&data);
    assert_eq!(bytes[0], 1);
    assert_eq!(bytes.shift_first(2), Ok(()));
    assert_eq!(bytes[0], 3);
    assert_eq!(bytes.len(), 5);
    assert_eq!(&bytes[..], &[3, 4, 5, 6, 7]);
}

#[test]
fn shift_first_by_the_whole_length_empties_the_window() {
    let data = [1u8, 2, 3];
    let mut bytes = Bytes::from_slice(&data);
    assert_eq!(bytes.shift_first(3), Ok(()));
    assert_eq!(bytes.len(), 0);
    assert_eq!(bytes.shift_first(0), Ok(()));
    assert_eq!(bytes.shift_first(1), Err(DecodeError::InsufficientData));
}

#[test]
fn shift_first_beyond_the_window_changes_nothing() {
    let data = [1u8, 2, 3, 4, 5];
    let mut bytes = Bytes::from_slice(&data);
    assert_eq!(bytes.shift_first(2), Ok(()));
    assert_eq!(bytes.shift_first(4), Err(DecodeError::InsufficientData));
    assert_eq!(bytes.len(), 3);
    assert_eq!(&bytes[..], &[3, 4, 5]);
    assert_eq!(bytes.shift_first(usize::MAX), Err(DecodeError::InsufficientData));
    assert_eq!(&bytes[..], &[3, 4, 5]);
}

#[test]
fn shift_last_moves_the_end() {
    let data = [1u8, 2, 3, 4, 5, 6, 7];
    let mut bytes = Bytes::from_slice(&data);
    assert_eq!(bytes.shift_last(3), Ok(()));
    assert_eq!(bytes.len(), 4);
    assert_eq!(&bytes[..], &[1, 2, 3, 4]);
    assert_eq!(&bytes[2..], &[3, 4]);
}

#[test]
fn shift_last_beyond_the_window_changes_nothing() {
    let data = [1u8, 2, 3, 4, 5];
    let mut bytes = Bytes::from_slice(&data);
    assert_eq!(bytes.shift_first(1), Ok(()));
    assert_eq!(bytes.shift_last(5), Err(DecodeError::InsufficientData));
    assert_eq!(&bytes[..], &[2, 3, 4, 5]);
    assert_eq!(bytes.shift_last(usize::MAX), Err(DecodeError::InsufficientData));
    assert_eq!(&bytes[..], &[2, 3, 4, 5]);
    assert_eq!(bytes.shift_last(4), Ok(()));
    assert_eq!(bytes.len(), 0);
}

#[test]
fn two_shifts_are_one_shift_of_the_sum() {
    let data = [10u8, 11, 12, 13, 14, 15, 16, 17, 18, 19];
    for a in 0..=10usize {
        for b in 0..=10usize {
            let mut twice = Bytes::from_slice(&data);
            let mut once = Bytes::from_slice(&data);
            let stepwise = twice.shift_first(a).and_then(|_| twice.shift_first(b));
            let at_once = once.shift_first(a + b);
            assert_eq!(stepwise.is_ok(), at_once.is_ok());
            assert_eq!(at_once.is_ok(), a + b <= 10);
            if at_once.is_ok() {
                assert_eq!(&twice[..], &once[..]);
                assert_eq!(&once[..], &data[a + b..]);
            }
        }
    }
}

#[test]
fn shifts_at_both_ends_keep_the_bounds() {
    let data = [0u8, 1, 2, 3, 4, 5, 6, 7];
    let mut bytes = Bytes::from_slice(&data);
    let steps: [(bool, usize); 8] = [
        (true, 3),
        (false, 2),
        (true, 4),
        (false, 4),
        (true, 2),
        (false, 1),
        (true, 1),
        (false, 0),
    ];
    let mut start = 0usize;
    let mut end = 8usize;
    for (front, count) in steps {
        let result = if front { bytes.shift_first(count) } else { bytes.shift_last(count) };
        if count <= end - start {
            assert_eq!(result, Ok(()));
            if front {
                start += count;
            } else {
                end -= count;
            }
        } else {
            assert_eq!(result, Err(DecodeError::InsufficientData));
        }
        assert!(start <= end && end <= data.len());
        assert_eq!(bytes.len(), end - start);
        assert_eq!(&bytes[..], &data[start..end]);
    }
    assert_eq!((start, end), (5, 5));
}

#[test]
fn reset_restores_the_whole_buffer() {
    let data = [1u8, 2, 3, 4, 5];
    let mut bytes = Bytes::from_slice(&data);
    bytes.shift_first(2).unwrap();
    bytes.shift_last(2).unwrap();
    assert_eq!(&bytes[..], &[3]);
    bytes.reset();
    assert_eq!(bytes.len(), 5);
    assert_eq!(&bytes[..], &data[..]);
}

#[test]
fn no_print_marks_the_window_only() {
    let data = [1u8, 2, 3];
    let mut bytes = Bytes::from_slice(&data);
    bytes.shift_first(1).unwrap();
    bytes.no_print();
    assert!(bytes.is_unprinted());
    assert_eq!(&bytes[..], &[2, 3]);
    bytes.reset();
    assert!(bytes.is_unprinted());
}

#[test]
fn every_index_form_is_relative_to_the_start() {
    let data = [10u8, 11, 12, 13, 14, 15, 16, 17];
    let mut bytes = Bytes::from_slice(&data);
    bytes.shift_first(2).unwrap();
    bytes.shift_last(1).unwrap();
    assert_eq!(bytes[0], 12);
    assert_eq!(bytes[4], 16);
    assert_eq!(&bytes[1..3], &[13, 14]);
    assert_eq!(&bytes[2..2], &[] as &[u8]);
    assert_eq!(&bytes[3..], &[15, 16]);
    assert_eq!(&bytes[5..], &[] as &[u8]);
    assert_eq!(&bytes[..2], &[12, 13]);
    assert_eq!(&bytes[..], &[12, 13, 14, 15, 16]);
    assert_eq!(&bytes[1..=3], &[13, 14, 15]);
    assert_eq!(&bytes[4..=4], &[16]);
}

#[test]
fn narrowed_is_a_window_of_its_own() {
    let data = [10u8, 11, 12, 13, 14, 15, 16, 17];
    let mut bytes = Bytes::from_slice(&data);
    bytes.shift_first(2).unwrap();
    let mut part = bytes.narrowed(1, 4);
    assert_eq!(part.len(), 3);
    assert_eq!(&part[..], &[13, 14, 15]);
    assert_eq!(part.buffer_len(), 8);
    part.shift_first(1).unwrap();
    assert_eq!(&part[..], &[14, 15]);
    assert_eq!(&bytes[..], &[12, 13, 14, 15, 16, 17]);
    bytes.shift_first(6).unwrap();
    assert_eq!(&part[..], &[14, 15]);
    assert_eq!(bytes.narrowed(0, 0).len(), 0);
}

#[test]
fn narrowed_outlives_the_window() {
    let data = [1u8, 2, 3, 4];
    let tail = {
        let mut bytes = Bytes::from_slice(&data);
        bytes.shift_first(1).unwrap();
        bytes.narrowed(1, 3)
    };
    assert_eq!(&tail[..], &[3, 4]);
}

#[test]
fn default_window_is_empty() {
    let mut bytes = Bytes::default();
    assert_eq!(bytes.len(), 0);
    assert_eq!(bytes.buffer_len(), 0);
    assert!(!bytes.is_unprinted());
    assert_eq!(bytes.shift_first(1), Err(DecodeError::InsufficientData));
    let shared: &Bytes = Default::default();
    assert_eq!(shared.len(), 0);
}

#[test]
fn empty_buffer() {
    let data: [u8; 0] = [];
    let mut bytes = Bytes::from_slice(&data);
    assert_eq!(bytes.len(), 0);
    assert_eq!(bytes.shift_first(0), Ok(()));
    assert_eq!(bytes.shift_last(0), Ok(()));
    assert_eq!(bytes.shift_first(1), Err(DecodeError::InsufficientData));
    assert_eq!(bytes.shift_last(1), Err(DecodeError::InsufficientData));
    assert_eq!(&bytes[..], &[] as &[u8]);
}

#[test]
fn requests_in_a_row_never_break_the_bounds() {
    let data = [0u8, 1, 2, 3, 4, 5, 6, 7, 8, 9];
    let steps = [
        Shift::First(4),
        Shift::Last(7),
        Shift::Last(3),
        Shift::First(usize::MAX),
        Shift::First(3),
        Shift::Last(1),
        Shift::First(0),
        Shift::Last(0),
    ];
    let outcomes = [true, false, true, false, true, false, true, true];
    let mut bytes = Bytes::from_slice(&data);
    let mut previous = bytes.len();
    for (step, succeeds) in steps.iter().zip(outcomes) {
        let result = bytes.shift(*step);
        assert_eq!(result.is_ok(), succeeds);
        if !succeeds {
            assert_eq!(result, Err(DecodeError::InsufficientData));
            assert_eq!(bytes.len(), previous);
        }
        assert!(bytes.len() <= previous);
        assert!(bytes.len() <= bytes.buffer_len());
        previous = bytes.len();
    }
    assert_eq!(bytes.len(), 0);
    assert_eq!(bytes.buffer_len(), 10);
}
