use mailnotify::datetime::{Timestamp, format_datetime};

#[test]
fn epoch_at_utc_offset_shows_numeric_offset() {
    let ts = Timestamp { secs: 0, offset_secs: 0 };
    let shown = format_datetime(&ts, None);
    assert_eq!(shown, "Thursday, January  1, 1970 at 12:00:00 AM +00:00");
}

#[test]
fn recognized_zone_override_shows_abbreviation() {
    let ts = Timestamp { secs: 0, offset_secs: 0 };
    let shown = format_datetime(&ts, Some("UTC"));
    assert_eq!(shown, "Thursday, January  1, 1970 at 12:00:00 AM UTC");
}

#[test]
fn override_and_offset_share_all_date_fields() {
    // The same instant, once through the recognized zone override and once
    // at its own offset: identical up to the zone suffix.
    let ts = Timestamp { secs: 1_600_000_000, offset_secs: 0 };
    let with_zone = format_datetime(&ts, Some("UTC"));
    let without = format_datetime(&ts, None);
    let zone_prefix = with_zone.strip_suffix("UTC").unwrap();
    let offset_prefix = without.strip_suffix("+00:00").unwrap();
    assert_eq!(zone_prefix, offset_prefix);
}

#[test]
fn unrecognized_override_falls_back_to_offset() {
    let ts = Timestamp { secs: 0, offset_secs: 3600 };
    let shown = format_datetime(&ts, Some("Not/AZone"));
    assert_eq!(shown, "Thursday, January  1, 1970 at 01:00:00 AM +01:00");
}

#[test]
fn instants_before_the_epoch_render_too() {
    let ts = Timestamp { secs: -1, offset_secs: 0 };
    let shown = format_datetime(&ts, None);
    assert_eq!(shown, "Wednesday, December 31, 1969 at 11:59:59 PM +00:00");
}

#[test]
fn named_zone_changes_the_rendered_wall_time() {
    let ts = Timestamp { secs: 0, offset_secs: 0 };
    let shown = format_datetime(&ts, Some("America/New_York"));
    assert_eq!(shown, "Wednesday, December 31, 1969 at 07:00:00 PM EST");
}
