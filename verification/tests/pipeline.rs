use vidthumb::decode::{advance, classify_unit, search, select_stream, SearchState, UnitOutcome};
use vidthumb::dims::scale_dims;
use vidthumb::error::ThumbError;
use vidthumb::seek::seek_target;

#[test]
fn dims_wide_source() {
    let d = scale_dims(1920, 1080, 320).unwrap();
    assert_eq!(d.out_w, 320);
    assert_eq!(d.out_h, 180);
}

#[test]
fn dims_narrow_source() {
    let d = scale_dims(640, 480, 100).unwrap();
    assert_eq!(d.out_w, 100);
    assert_eq!(d.out_h, 75);
}

#[test]
fn dims_rounds_half_up() {
    // 1 * 3 / 2 = 1.5 rounds to 2
    let d = scale_dims(2, 1, 3).unwrap();
    assert_eq!(d.out_w, 3);
    assert_eq!(d.out_h, 2);
}

#[test]
fn dims_zero_native_width_is_conversion_error() {
    assert_eq!(scale_dims(0, 480, 100), Err(ThumbError::Conversion));
}

#[test]
fn dims_overflowing_height_is_conversion_error() {
    // 4294967295 * 4294967295 / 1 is far beyond u32
    assert_eq!(scale_dims(1, u32::MAX, u32::MAX), Err(ThumbError::Conversion));
}

#[test]
fn seek_half_way() {
    // 10 s of 1_000_000 units each; 50% lands exactly on 5 s
    assert_eq!(seek_target(10_000_000, 50), 5_000_000);
}

#[test]
fn seek_start_and_end() {
    assert_eq!(seek_target(10_000_000, 0), 0);
    // 100% must stay inside the stream, not beyond it
    assert_eq!(seek_target(10_000_000, 100), 10_000_000);
}

#[test]
fn seek_snaps_down_to_whole_second() {
    // 50% of 1.5 s is 0.75 s, which snaps down to 0 s
    assert_eq!(seek_target(1_500_000, 50), 0);
    // 50% of 5 s is 2.5 s, which snaps down to 2 s
    assert_eq!(seek_target(5_000_000, 50), 2_000_000);
}

#[test]
fn seek_every_percentage_stays_in_range() {
    let duration: i64 = 9_876_543;
    for percent in 0..=100u32 {
        let t = seek_target(duration, percent);
        assert!(0 <= t && t <= duration);
    }
}

#[test]
fn seek_is_idempotent() {
    assert_eq!(seek_target(123_456_789, 37), seek_target(123_456_789, 37));
}

#[test]
fn search_finds_first_scaled_unit() {
    let units = vec![
        UnitOutcome::Foreign,
        UnitOutcome::Pending,
        UnitOutcome::Scaled,
        UnitOutcome::Scaled,
    ];
    assert_eq!(search(&units), Some(2));
}

#[test]
fn search_skips_failing_units() {
    let units = vec![
        UnitOutcome::Rejected,
        UnitOutcome::ScaleFailed,
        UnitOutcome::Scaled,
    ];
    assert_eq!(search(&units), Some(2));
}

#[test]
fn search_exhaustion_is_no_frame() {
    let units = vec![
        UnitOutcome::Foreign,
        UnitOutcome::Pending,
        UnitOutcome::Rejected,
        UnitOutcome::ScaleFailed,
    ];
    assert_eq!(search(&units), None);
}

#[test]
fn search_empty_container_is_no_frame() {
    assert_eq!(search(&Vec::new()), None);
}

#[test]
fn advance_stops_only_on_scaled() {
    assert_eq!(
        advance(SearchState::Searching, UnitOutcome::Scaled),
        SearchState::Done
    );
    assert_eq!(
        advance(SearchState::Searching, UnitOutcome::Pending),
        SearchState::Searching
    );
    assert_eq!(
        advance(SearchState::Done, UnitOutcome::Pending),
        SearchState::Done
    );
}

#[test]
fn classify_first_failing_stage_names_the_outcome() {
    assert_eq!(classify_unit(false, true, true, true), UnitOutcome::Foreign);
    assert_eq!(classify_unit(true, false, false, false), UnitOutcome::Rejected);
    assert_eq!(classify_unit(true, true, false, false), UnitOutcome::Pending);
    assert_eq!(classify_unit(true, true, true, false), UnitOutcome::ScaleFailed);
    assert_eq!(classify_unit(true, true, true, true), UnitOutcome::Scaled);
}

#[test]
fn select_stream_picks_best_video() {
    assert_eq!(select_stream(Some(3)), Ok(3));
}

#[test]
fn select_stream_without_video_is_not_found() {
    assert_eq!(select_stream(None), Err(ThumbError::NotFound));
}
