use tztail::error::ConfigError;
use tztail::rewriter::Rewriter;

#[test]
fn auto_detect_converts_utc_to_new_york() {
    let rewriter = Rewriter::auto_detect("America/New_York").unwrap();
    assert_eq!(
        rewriter.rewrite("INFO 2020-06-01T12:00:00Z request handled"),
        "INFO 2020-06-01T08:00:00-04:00 request handled"
    );
}

#[test]
fn auto_detect_uses_the_winter_offset_in_winter() {
    let rewriter = Rewriter::auto_detect("America/New_York").unwrap();
    assert_eq!(
        rewriter.rewrite("INFO 2020-01-01T12:00:00Z request handled"),
        "INFO 2020-01-01T07:00:00-05:00 request handled"
    );
}

#[test]
fn line_without_timestamp_is_unchanged() {
    let rewriter = Rewriter::auto_detect("America/New_York").unwrap();
    assert_eq!(rewriter.rewrite("DEBUG starting up"), "DEBUG starting up");
    assert_eq!(rewriter.rewrite(""), "");
    assert_eq!(rewriter.locate("DEBUG starting up"), None);
}

#[test]
fn fixed_format_to_utc_keeps_the_line() {
    let rewriter = Rewriter::fixed_format("UTC", "%Y/%m/%d %H:%M:%S").unwrap();
    assert_eq!(
        rewriter.rewrite("2021/03/05 10:00:00 ERROR disk full"),
        "2021/03/05 10:00:00 ERROR disk full"
    );
}

#[test]
fn fixed_format_converts_to_kolkata() {
    let rewriter = Rewriter::fixed_format("Asia/Kolkata", "%Y/%m/%d %H:%M:%S").unwrap();
    assert_eq!(
        rewriter.rewrite("2021/03/05 10:00:00 ERROR disk full"),
        "2021/03/05 15:30:00 ERROR disk full"
    );
}

#[test]
fn fixed_format_ignores_other_shapes() {
    let rewriter = Rewriter::fixed_format("Asia/Kolkata", "%Y/%m/%d %H:%M:%S").unwrap();
    assert_eq!(
        rewriter.rewrite("INFO 2020-06-01T12:00:00Z request handled"),
        "INFO 2020-06-01T12:00:00Z request handled"
    );
}

#[test]
fn unknown_timezone_is_a_configuration_error() {
    assert_eq!(Rewriter::auto_detect("Not/AZone").err(), Some(ConfigError::UnknownTimezone));
    assert_eq!(
        Rewriter::fixed_format("Not/AZone", "%Y-%m-%d").err(),
        Some(ConfigError::UnknownTimezone)
    );
    assert_eq!(
        Rewriter::configure("Not/AZone", None).err(),
        Some(ConfigError::UnknownTimezone)
    );
    assert_eq!(Rewriter::auto_detect("").err(), Some(ConfigError::UnknownTimezone));
}

#[test]
fn timezone_is_checked_before_the_format() {
    assert_eq!(
        Rewriter::fixed_format("Not/AZone", "%Q").err(),
        Some(ConfigError::UnknownTimezone)
    );
}

#[test]
fn malformed_format_is_a_configuration_error() {
    assert_eq!(
        Rewriter::fixed_format("UTC", "%Y-%m-%d %Q").err(),
        Some(ConfigError::MalformedFormat)
    );
    assert_eq!(Rewriter::fixed_format("UTC", "%Y-%").err(), Some(ConfigError::MalformedFormat));
    assert_eq!(Rewriter::fixed_format("UTC", "%.4f").err(), Some(ConfigError::MalformedFormat));
    assert_eq!(
        Rewriter::configure("UTC", Some("%H:%M %")).err(),
        Some(ConfigError::MalformedFormat)
    );
}

#[test]
fn read_only_format_is_a_configuration_error() {
    assert_eq!(
        Rewriter::fixed_format("UTC", "%Y-%m-%dT%H:%M:%S%#z").err(),
        Some(ConfigError::MalformedFormat)
    );
}

#[test]
fn error_messages() {
    assert_eq!(ConfigError::UnknownTimezone.message(), "unknown time zone");
    assert_eq!(ConfigError::MalformedFormat.message(), "malformed timestamp format");
}

#[test]
fn utc_to_utc_keeps_the_literal_text() {
    let rewriter = Rewriter::auto_detect("UTC").unwrap();
    assert_eq!(rewriter.rewrite("2020-01-01T00:00:00Z"), "2020-01-01T00:00:00Z");
}

#[test]
fn utc_and_back_gives_the_same_text() {
    let there = Rewriter::auto_detect("Asia/Tokyo").unwrap();
    let back = Rewriter::auto_detect("UTC").unwrap();
    let moved = there.rewrite("2020-01-01T00:00:00Z");
    assert_eq!(moved, "2020-01-01T09:00:00+09:00");
    assert_eq!(back.rewrite(&moved), "2020-01-01T00:00:00Z");
}

#[test]
fn second_pass_changes_nothing() {
    let rewriter = Rewriter::auto_detect("America/New_York").unwrap();
    let once = rewriter.rewrite("INFO 2020-06-01T12:00:00Z request handled");
    let twice = rewriter.rewrite(&once);
    assert_eq!(once, "INFO 2020-06-01T08:00:00-04:00 request handled");
    assert_eq!(twice, once);
}

#[test]
fn second_pass_with_fixed_format_and_offset_changes_nothing() {
    let rewriter = Rewriter::fixed_format("Asia/Kolkata", "%Y-%m-%d %H:%M:%S %z").unwrap();
    let once = rewriter.rewrite("at 2021-03-05 10:00:00 +0000 done");
    assert_eq!(once, "at 2021-03-05 15:30:00 +0530 done");
    assert_eq!(rewriter.rewrite(&once), once);
}

#[test]
fn second_pass_without_offset_moves_again() {
    let rewriter = Rewriter::fixed_format("Asia/Kolkata", "%Y/%m/%d %H:%M:%S").unwrap();
    let once = rewriter.rewrite("2021/03/05 10:00:00");
    assert_eq!(once, "2021/03/05 15:30:00");
    assert_eq!(rewriter.rewrite(&once), "2021/03/05 21:00:00");
}

#[test]
fn surrounding_text_is_kept() {
    let rewriter = Rewriter::auto_detect("America/New_York").unwrap();
    assert_eq!(
        rewriter.rewrite("  [\t2020-06-01T12:00:00Z\t]  -- done.  "),
        "  [\t2020-06-01T08:00:00-04:00\t]  -- done.  "
    );
    assert_eq!(
        rewriter.rewrite("été ☃ 2020-06-01T12:00:00Z ☃ déjà"),
        "été ☃ 2020-06-01T08:00:00-04:00 ☃ déjà"
    );
    assert_eq!(rewriter.rewrite("2020-06-01T12:00:00Z"), "2020-06-01T08:00:00-04:00");
}

#[test]
fn only_the_first_timestamp_is_rewritten() {
    let rewriter = Rewriter::auto_detect("America/New_York").unwrap();
    assert_eq!(
        rewriter.rewrite("start 2020-06-01T12:00:00Z end 2020-06-02T12:00:00Z"),
        "start 2020-06-01T08:00:00-04:00 end 2020-06-02T12:00:00Z"
    );
    let fixed = Rewriter::fixed_format("Asia/Kolkata", "%H:%M").unwrap();
    assert_eq!(fixed.rewrite("from 10:00 to 11:00"), "from 10:00 to 11:00");
    let dated = Rewriter::fixed_format("Asia/Kolkata", "%Y-%m-%d %H:%M").unwrap();
    assert_eq!(
        dated.rewrite("from 2021-03-05 10:00 to 2021-03-05 11:00"),
        "from 2021-03-05 15:30 to 2021-03-05 11:00"
    );
}

#[test]
fn priority_beats_position() {
    let rewriter = Rewriter::auto_detect("America/New_York").unwrap();
    assert_eq!(
        rewriter.rewrite("2020-06-01 12:00:00 then 2020-06-02T12:00:00Z"),
        "2020-06-01 12:00:00 then 2020-06-02T08:00:00-04:00"
    );
}

#[test]
fn text_that_is_no_date_is_left_alone() {
    let rewriter = Rewriter::auto_detect("America/New_York").unwrap();
    assert_eq!(
        rewriter.rewrite("WARN 2020-13-45T25:61:61Z bad clock"),
        "WARN 2020-13-45T25:61:61Z bad clock"
    );
    assert_eq!(
        rewriter.rewrite("WARN 2021-02-30T10:00:00Z bad date"),
        "WARN 2021-02-30T10:00:00Z bad date"
    );
    let fixed = Rewriter::fixed_format("UTC", "%Y/%m/%d %H:%M:%S").unwrap();
    assert_eq!(fixed.rewrite("2021/02/30 10:00:00 x"), "2021/02/30 10:00:00 x");
}

#[test]
fn configure_selects_the_policy() {
    let auto = Rewriter::configure("Asia/Tokyo", None).unwrap();
    assert_eq!(auto.pattern_count(), 6);
    assert_eq!(auto.rewrite("2020-06-01 12:00:00"), "2020-06-01T21:00:00+09:00");
    let fixed = Rewriter::configure("Asia/Tokyo", Some("%Y-%m-%d %H:%M:%S")).unwrap();
    assert_eq!(fixed.pattern_count(), 1);
    assert_eq!(fixed.rewrite("2020-06-01 12:00:00"), "2020-06-01 21:00:00");
    assert_eq!(auto.zone(), "Asia/Tokyo");
    assert_eq!(fixed.zone(), "Asia/Tokyo");
}
