use video_thumbs::strategy::{strategy_args, STRATEGY_COUNT};

const TAIL: [&str; 7] = ["-vframes", "1", "-vf", "scale=320:-1", "-q:v", "2", "-y"];

fn expected(head: &[&str]) -> Vec<String> {
    let mut v: Vec<String> = head.iter().map(|s| s.to_string()).collect();
    v.extend(TAIL.iter().map(|s| s.to_string()));
    v.push("/tmp/out.jpg".to_string());
    v
}

#[test]
fn there_are_four_strategies() {
    assert_eq!(STRATEGY_COUNT, 4);
}

#[test]
fn first_strategy_seeks_after_input() {
    assert_eq!(
        strategy_args(0, "/v/a.mp4", "/tmp/out.jpg"),
        expected(&["-i", "/v/a.mp4", "-ss", "00:00:00.100"])
    );
}

#[test]
fn second_strategy_raises_probe_limits() {
    assert_eq!(
        strategy_args(1, "/v/a.mp4", "/tmp/out.jpg"),
        expected(&[
            "-analyzeduration", "100M", "-probesize", "100M", "-i", "/v/a.mp4", "-ss",
            "00:00:00.100",
        ])
    );
}

#[test]
fn third_strategy_seeks_before_input() {
    assert_eq!(
        strategy_args(2, "/v/a.mp4", "/tmp/out.jpg"),
        expected(&[
            "-ss", "0.1", "-analyzeduration", "100M", "-probesize", "100M", "-i", "/v/a.mp4",
        ])
    );
}

#[test]
fn fourth_strategy_does_not_seek() {
    assert_eq!(
        strategy_args(3, "/v/a.mp4", "/tmp/out.jpg"),
        expected(&["-analyzeduration", "100M", "-probesize", "100M", "-i", "/v/a.mp4"])
    );
}
