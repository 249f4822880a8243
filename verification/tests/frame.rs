use rtun::little_endian::{word_from_le_bytes, word_to_le_bytes};
use rtun::{FrameError, SerializedDataContainer};

const WORD: usize = std::mem::size_of::<usize>();

/// A frame written by hand: `size` in the first word, then `data`.
fn frame(size: usize, data: &[u8]) -> Vec<u8> {
    let mut bytes = size.to_le_bytes().to_vec();
    bytes.extend_from_slice(data);
    bytes
}

#[test]
fn words_are_little_endian() {
    for n in [0, 1, 255, 256, 0x0102_0304, usize::MAX - 1, usize::MAX] {
        assert_eq!(word_to_le_bytes(n), n.to_le_bytes().to_vec());
        assert_eq!(word_from_le_bytes(&n.to_le_bytes()), n);
    }
}

#[test]
fn frame_starts_with_its_size() {
    let container = SerializedDataContainer::new(&[7, 8, 9]);
    assert_eq!(container.to_one_vec(), frame(3, &[7, 8, 9]));
    assert_eq!(SerializedDataContainer::new(&[]).to_one_vec(), frame(0, &[]));
}

#[test]
fn size_takes_more_than_one_byte() {
    let data = vec![5u8; 300];
    let bytes = SerializedDataContainer::new(&data).to_one_vec();
    assert_eq!(bytes[0], 44);
    assert_eq!(bytes[1], 1);
    assert_eq!(bytes.len(), WORD + 300);
}

#[test]
fn one_vec_round_trip() {
    for data in [vec![], vec![0], vec![1, 2, 3], vec![9; 1000]] {
        let packed = SerializedDataContainer::new(&data).to_one_vec();
        let container = SerializedDataContainer::from_one_vec(packed.clone()).unwrap();
        assert_eq!(container.to_serializable_data(), data.as_slice());
        assert_eq!(container.to_one_vec(), packed);
    }
}

#[test]
fn one_vec_without_a_size_is_none() {
    assert!(SerializedDataContainer::from_one_vec(vec![]).is_none());
    assert!(SerializedDataContainer::from_one_vec(vec![1; WORD - 1]).is_none());
}

#[test]
fn one_vec_may_be_followed_by_other_bytes() {
    let container = SerializedDataContainer::from_one_vec(frame(2, &[1, 2, 3, 4])).unwrap();
    assert_eq!(container.to_serializable_data(), &[1, 2]);
    assert_eq!(container.to_one_vec(), frame(2, &[1, 2]));
}

#[test]
fn reader_takes_one_frame_and_leaves_the_rest() {
    let mut stream = frame(2, &[1, 2]);
    stream.extend_from_slice(&frame(0, &[]));
    stream.extend_from_slice(&frame(1, &[3]));
    let mut reader: &[u8] = &stream;
    let mut payloads: Vec<Vec<u8>> = vec![];
    for _ in 0..3 {
        let container = SerializedDataContainer::from_reader(&mut reader).unwrap();
        payloads.push(container.to_serializable_data().to_vec());
    }
    assert_eq!(payloads, vec![vec![1, 2], vec![], vec![3]]);
    assert!(reader.is_empty());
}

#[test]
fn reader_without_a_size_fails() {
    let mut empty: &[u8] = &[];
    let error = SerializedDataContainer::from_reader(&mut empty).unwrap_err();
    assert_eq!(error, FrameError::UnexpectedEof);
    let bytes = frame(3, &[1, 2, 3]);
    let mut short: &[u8] = &bytes[..WORD - 1];
    assert!(SerializedDataContainer::from_reader(&mut short).is_err());
}

#[test]
fn reader_keeps_what_came_of_a_truncated_payload() {
    let bytes = frame(5, &[1, 2]);
    let mut reader: &[u8] = &bytes;
    let container = SerializedDataContainer::from_reader(&mut reader).unwrap();
    assert_eq!(container.to_serializable_data(), &[1, 2]);
    assert_eq!(container.to_one_vec(), bytes);
    assert!(reader.is_empty());
}

#[test]
fn reader_takes_a_huge_size_as_announced() {
    let bytes = frame(usize::MAX, &[1]);
    let mut reader: &[u8] = &bytes;
    let container = SerializedDataContainer::from_reader(&mut reader).unwrap();
    assert_eq!(container.to_serializable_data(), &[1]);
    assert_eq!(SerializedDataContainer::bytes_wanted(&bytes), usize::MAX - 1);
}

#[test]
fn wanted_bytes_add_up_to_one_frame() {
    let bytes = frame(3, &[1, 2, 3]);
    assert_eq!(SerializedDataContainer::bytes_wanted(&[]), WORD);
    assert_eq!(SerializedDataContainer::bytes_wanted(&bytes[..1]), WORD - 1);
    assert_eq!(SerializedDataContainer::bytes_wanted(&bytes[..WORD]), 3);
    assert_eq!(SerializedDataContainer::bytes_wanted(&bytes[..WORD + 1]), 2);
    assert_eq!(SerializedDataContainer::bytes_wanted(&bytes), 0);
}

#[test]
fn different_containers_have_different_bytes() {
    let mut truncated: &[u8] = &frame(2, &[1]);
    let a = SerializedDataContainer::from_reader(&mut truncated).unwrap();
    let b = SerializedDataContainer::new(&[1]);
    assert_eq!(a.to_serializable_data(), b.to_serializable_data());
    assert_ne!(a.to_one_vec(), b.to_one_vec());
}

#[test]
fn encoded_values_pass_through_frames() {
    let value = (1u64, "application".to_string(), vec![1u8, 2, 3]);
    let encoded = rmp_serde::to_vec(&value).ok();
    let sent = SerializedDataContainer::from_serializable_data(encoded).unwrap().to_one_vec();
    let mut reader: &[u8] = &sent;
    let received = SerializedDataContainer::from_reader(&mut reader).unwrap();
    let decoded: (u64, String, Vec<u8>) =
        rmp_serde::from_slice(received.to_serializable_data()).unwrap();
    assert_eq!(decoded, value);
}

#[test]
fn failed_encoding_gives_no_container() {
    assert!(SerializedDataContainer::from_serializable_data(None).is_none());
    let container = SerializedDataContainer::from_serializable_data(Some(vec![4, 5])).unwrap();
    assert_eq!(container.to_one_vec(), frame(2, &[4, 5]));
}

#[test]
fn frames_that_were_read_are_sent_again_as_they_came() {
    for bytes in [frame(2, &[1, 2, 3, 4]), frame(0, &[9]), frame(5, &[1, 2]), frame(3, &[4, 5, 6])] {
        let mut reader: &[u8] = &bytes;
        let container = SerializedDataContainer::from_reader(&mut reader).unwrap();
        let mut again = container.to_one_vec();
        again.extend_from_slice(reader);
        assert_eq!(again, bytes);
    }
}

#[test]
fn no_frame_begins_with_another() {
    let frames: Vec<Vec<u8>> = [vec![], vec![0], vec![0, 0], vec![1], vec![1, 0], vec![0; 300]]
        .iter()
        .map(|data| SerializedDataContainer::new(data).to_one_vec())
        .collect();
    for (i, a) in frames.iter().enumerate() {
        for (j, b) in frames.iter().enumerate() {
            assert_eq!(b.starts_with(a), i == j);
        }
    }
}
