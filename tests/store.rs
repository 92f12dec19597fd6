use tadeusz::{deinterleave, SampleStore, StoreError, MAX_LEN, UNITY, XFADE_LEN};

fn ramp() -> [u16; XFADE_LEN] {
    let mut r = [0u16; XFADE_LEN];
    for (i, g) in r.iter_mut().enumerate() {
        *g = (i as u16) * 200;
    }
    r
}

#[test]
fn store_keeps_both_channels() {
    let left: Vec<i16> = (0..1000).map(|i| i as i16).collect();
    let right: Vec<i16> = (0..1000).map(|i| -(i as i16)).collect();
    let s = SampleStore::new(&left, &right, &ramp()).unwrap();
    assert_eq!(s.len(), 1000);
    assert_eq!(s.left, left);
    assert_eq!(s.right, right);
    assert_eq!(s.xfade_in.len(), 1000);
    assert_eq!(s.xfade_out.len(), 1000);
    assert_eq!(s.xfade_in[10], 2000);
    assert_eq!(s.xfade_in[XFADE_LEN], UNITY);
    assert_eq!(s.xfade_out[XFADE_LEN], 0);
}

#[test]
fn store_uses_shorter_channel() {
    let left = vec![1i16; 300];
    let right = vec![2i16; 200];
    let s = SampleStore::new(&left, &right, &ramp()).unwrap();
    assert_eq!(s.len(), 200);
    assert_eq!(s.left.len(), 200);
}

#[test]
fn store_truncates_to_cap() {
    let samples = vec![3i16; MAX_LEN + 1000];
    let s = SampleStore::from_mono(&samples, &ramp()).unwrap();
    assert_eq!(s.len(), MAX_LEN);
    assert_eq!(s.xfade_in.len(), MAX_LEN);
}

#[test]
fn store_too_short() {
    let samples = vec![0i16; XFADE_LEN];
    assert_eq!(
        SampleStore::from_mono(&samples, &ramp()).err(),
        Some(StoreError::TooShort)
    );
    let samples = vec![0i16; XFADE_LEN + 1];
    assert!(SampleStore::from_mono(&samples, &ramp()).is_ok());
    assert_eq!(
        SampleStore::from_mono(&Vec::new(), &ramp()).err(),
        Some(StoreError::TooShort)
    );
}

#[test]
fn mono_is_duplicated() {
    let samples: Vec<i16> = (0..500).map(|i| (i * 3) as i16).collect();
    let s = SampleStore::from_mono(&samples, &ramp()).unwrap();
    assert_eq!(s.left, samples);
    assert_eq!(s.right, samples);
}

#[test]
fn interleaved_stereo_is_split() {
    let data: Vec<i16> = (0..1001).map(|i| i as i16).collect();
    let s = SampleStore::from_interleaved(&data, 2, &ramp()).unwrap();
    assert_eq!(s.len(), 500);
    assert_eq!(s.left[0], 0);
    assert_eq!(s.right[0], 1);
    assert_eq!(s.left[499], 998);
    assert_eq!(s.right[499], 999);
}

#[test]
fn interleaved_mono_and_no_channels() {
    let data: Vec<i16> = (0..400).map(|i| i as i16).collect();
    let s = SampleStore::from_interleaved(&data, 1, &ramp()).unwrap();
    assert_eq!(s.left, data);
    assert_eq!(s.right, data);
    assert_eq!(
        SampleStore::from_interleaved(&data, 0, &ramp()).err(),
        Some(StoreError::NoChannels)
    );
}

#[test]
fn deinterleave_picks_channel() {
    let data: Vec<i16> = vec![1, 2, 3, 4, 5, 6, 7];
    assert_eq!(deinterleave(&data, 3, 0), vec![1, 4]);
    assert_eq!(deinterleave(&data, 3, 2), vec![3, 6]);
}
