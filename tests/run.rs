use wcr::{count, Config, FileInfo, ReadFailure, RunError, Tally};

fn all_flags() -> Config {
    Config::new(vec!["x".to_string()], true, true, true, true)
}

#[test]
fn empty_then_short_source_totals() {
    let config = Config::new(vec!["a".to_string(), "b".to_string()], false, false, false, false);
    let mut tally = Tally::new();
    assert_eq!(tally.process_source(&config, Some(&b""[..])), Ok(Some(vec![0, 0, 0])));
    assert_eq!(tally.process_source(&config, Some(&b"a b\nc\n"[..])), Ok(Some(vec![2, 3, 6])));
    assert_eq!(tally.summary(&config), Some(vec![2, 3, 6]));
    assert!(tally.all_opened());
}

#[test]
fn unavailable_source_is_skipped() {
    let config = all_flags();
    let mut tally = Tally::new();
    assert_eq!(tally.process_source(&config, Some(&b"one\n"[..])), Ok(Some(vec![1, 1, 4, 4])));
    assert_eq!(tally.process_source(&config, None), Ok(None));
    assert_eq!(tally.process_source(&config, Some(&b"two three"[..])), Ok(Some(vec![0, 2, 9, 9])));
    assert_eq!(
        tally.total(),
        FileInfo { num_lines: 1, num_words: 3, num_bytes: 13, num_chars: 13 }
    );
    assert_eq!(tally.summary(&config), Some(vec![1, 3, 13, 13]));
    assert!(!tally.all_opened());
}

#[test]
fn total_is_sum_of_counts() {
    let a: &[u8] = "x y\nz\n".as_bytes();
    let b: &[u8] = "ü\n\n".as_bytes();
    let config = all_flags();
    let mut tally = Tally::new();
    tally.process_source(&config, Some(a)).unwrap();
    tally.process_source(&config, Some(b)).unwrap();
    let sum = count(a).unwrap().add(&count(b).unwrap());
    assert_eq!(tally.total(), sum);
    assert_eq!(sum, FileInfo { num_lines: 4, num_words: 4, num_bytes: 10, num_chars: 9 });
}

#[test]
fn total_does_not_depend_on_order() {
    let sources: [&[u8]; 3] = [b"a\n", b"b c d", b"\n\n e"];
    let config = all_flags();
    let mut forward = Tally::new();
    for s in sources.iter() {
        forward.process_source(&config, Some(*s)).unwrap();
    }
    let mut backward = Tally::new();
    for s in sources.iter().rev() {
        backward.process_source(&config, Some(*s)).unwrap();
    }
    assert_eq!(forward.total(), backward.total());
    assert_eq!(
        forward.total(),
        FileInfo { num_lines: 3, num_words: 5, num_bytes: 11, num_chars: 11 }
    );
}

#[test]
fn single_source_has_no_total_line() {
    let config = all_flags();
    let mut tally = Tally::new();
    tally.process_source(&config, Some(&b"abc\n"[..])).unwrap();
    assert_eq!(tally.summary(&config), None);
    assert!(!tally.show_total());
}

#[test]
fn invalid_content_stops_the_run() {
    let config = all_flags();
    let mut tally = Tally::new();
    tally.process_source(&config, Some(&b"ok\n"[..])).unwrap();
    assert_eq!(
        tally.process_source(&config, Some(&[0xc3u8][..])),
        Err(RunError::Read(ReadFailure::InvalidEncoding))
    );
    assert_eq!(
        tally.total(),
        FileInfo { num_lines: 1, num_words: 1, num_bytes: 3, num_chars: 3 }
    );
}

#[test]
fn words_alone_shows_one_field() {
    let config = Config::new(vec![], false, true, false, false);
    let info = FileInfo { num_lines: 4, num_words: 7, num_bytes: 30, num_chars: 28 };
    assert_eq!(config.selected(&info), vec![7]);
}

#[test]
fn fields_follow_fixed_order() {
    let info = FileInfo { num_lines: 4, num_words: 7, num_bytes: 30, num_chars: 28 };
    assert_eq!(all_flags().selected(&info), vec![4, 7, 30, 28]);
    let config = Config::new(vec![], true, false, false, true);
    assert_eq!(config.selected(&info), vec![4, 28]);
}

#[test]
fn no_flags_means_lines_words_bytes() {
    let config = Config::new(vec![], false, false, false, false);
    let info = FileInfo { num_lines: 1, num_words: 2, num_bytes: 3, num_chars: 4 };
    assert_eq!(config.selected(&info), vec![1, 2, 3]);
}

#[test]
fn no_sources_means_standard_input() {
    let config = Config::new(vec![], true, false, false, false);
    assert_eq!(config.files(), &vec!["-".to_string()]);
    let named = Config::new(vec!["f".to_string(), "g".to_string()], true, false, false, false);
    assert_eq!(named.files(), &vec!["f".to_string(), "g".to_string()]);
}

#[test]
fn sum_that_overflows_is_refused() {
    let big = FileInfo { num_lines: usize::MAX, num_words: 0, num_bytes: 0, num_chars: 0 };
    let one = FileInfo { num_lines: 1, num_words: 0, num_bytes: 0, num_chars: 0 };
    assert!(!big.can_add(&one));
    assert!(big.can_add(&FileInfo::zero()));
    let mut tally = Tally::new();
    assert!(tally.can_record(&big));
    tally.record_counted(&big);
    assert!(!tally.can_record(&one));
}
