use caliber::plot::{downsample, samples_to_show, window_start, GRAPH_WINDOW_SECONDS};

#[test]
fn played_samples_stop_at_the_duration() {
    assert_eq!(samples_to_show(1500, 5000, 192000), 288000);
    assert_eq!(samples_to_show(6000, 5000, 192000), 960000);
    assert_eq!(samples_to_show(0, 5000, 192000), 0);
    assert_eq!(samples_to_show(1, 1000, 44100), 44);
}

#[test]
fn downsample_takes_every_nth_from_the_first() {
    let samples: Vec<u32> = (0..10).collect();
    assert_eq!(downsample(&samples, 3, 10), vec![0, 3, 6]);
    assert_eq!(downsample(&samples, 3, 100), vec![0, 3, 6, 9]);
    assert_eq!(downsample(&samples, 1, 4), vec![0, 1, 2, 3]);
    assert_eq!(downsample(&samples, 20, 100), vec![0]);
    assert_eq!(downsample(&samples, 3, 2), Vec::<u32>::new());
    assert_eq!(downsample(&Vec::<u32>::new(), 2, 10), Vec::<u32>::new());
}

#[test]
fn window_keeps_the_most_recent_samples() {
    assert_eq!(window_start(10, 4), 6);
    assert_eq!(window_start(3, 4), 0);
    assert_eq!(window_start(4, 4), 0);
    assert_eq!(window_start(44100 * 7, 44100 * GRAPH_WINDOW_SECONDS as usize), 88200);
}
