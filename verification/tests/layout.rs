use audio_loop::backend::Layout;

#[test]
fn interleave() {
    let mut buf = [1, 2, 3, 4, 5, 6];
    let mut scratch = [0; 6];

    Layout::interleave(&mut buf, 2, &mut scratch);
    assert_eq!(buf, [1, 4, 2, 5, 3, 6]);
}

#[test]
fn deinterleave() {
    let mut buf = [1, 4, 2, 5, 3, 6];
    let mut scratch = [0; 6];

    Layout::deinterleave(&mut buf, 2, &mut scratch);
    assert_eq!(buf, [1, 2, 3, 4, 5, 6]);
}

#[test]
fn interleave_three_channels() {
    let mut buf = ['a', 'b', 'c', 'd', 'e', 'f', 'g', 'h', 'i', 'j', 'k', 'l'];
    let mut scratch = ['-'; 12];
    Layout::interleave(&mut buf, 3, &mut scratch);
    assert_eq!(buf, ['a', 'e', 'i', 'b', 'f', 'j', 'c', 'g', 'k', 'd', 'h', 'l']);
    assert_eq!(scratch, buf);
}

#[test]
fn deinterleave_three_channels() {
    let mut buf = [10, 20, 30, 11, 21, 31];
    let mut scratch = [0; 6];
    Layout::deinterleave(&mut buf, 3, &mut scratch);
    assert_eq!(buf, [10, 11, 20, 21, 30, 31]);
}

#[test]
fn scratch_may_be_larger() {
    let mut buf = [1, 2, 3, 4];
    let mut scratch = [9; 6];
    Layout::interleave(&mut buf, 2, &mut scratch);
    assert_eq!(buf, [1, 3, 2, 4]);
    assert_eq!(scratch, [1, 3, 2, 4, 9, 9]);
}

#[test]
fn single_channel_is_left_alone() {
    let mut buf = [3, 1, 2];
    let mut scratch = [0; 0];
    Layout::interleave(&mut buf, 1, &mut scratch);
    assert_eq!(buf, [3, 1, 2]);
    Layout::deinterleave(&mut buf, 1, &mut scratch);
    assert_eq!(buf, [3, 1, 2]);
}

#[test]
fn empty_buffer_is_left_alone() {
    let mut buf: [u8; 0] = [];
    let mut scratch = [7u8; 2];
    Layout::interleave(&mut buf, 5, &mut scratch);
    Layout::deinterleave(&mut buf, 5, &mut scratch);
    assert_eq!(scratch, [7, 7]);
}

#[test]
fn conversions_undo_each_other() {
    let original: Vec<u32> = (0..24).collect();
    for channels in [1, 2, 3, 4, 6, 8, 12, 24] {
        let mut buf = original.clone();
        let mut scratch = vec![0; 24];
        Layout::interleave(&mut buf, channels, &mut scratch);
        Layout::deinterleave(&mut buf, channels, &mut scratch);
        assert_eq!(buf, original);
        Layout::deinterleave(&mut buf, channels, &mut scratch);
        Layout::interleave(&mut buf, channels, &mut scratch);
        assert_eq!(buf, original);
    }
}

#[test]
fn samples_stand_where_the_layouts_put_them() {
    let channels = 3;
    let frames = 4;
    let planar: Vec<(usize, usize)> =
        (0..channels).flat_map(|c| (0..frames).map(move |f| (c, f))).collect();
    let mut buf = planar.clone();
    let mut scratch = planar.clone();
    Layout::interleave(&mut buf, channels, &mut scratch);
    for f in 0..frames {
        for c in 0..channels {
            assert_eq!(buf[f * channels + c], (c, f));
        }
    }
}

#[test]
fn float_samples_are_converted() {
    let mut buf = [0.5f32, 0.25, -0.5, -0.25];
    let mut scratch = [0.0f32; 4];
    Layout::interleave(&mut buf, 2, &mut scratch);
    assert_eq!(buf, [0.5, -0.5, 0.25, -0.25]);
}
