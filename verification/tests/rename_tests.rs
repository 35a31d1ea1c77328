use rs_img::controllers::converter::fallback_file_name;
use rs_img::controllers::converter::rename_file_name;
use rs_img::controllers::converter::renamed_with_timestamp;
use rs_img::controllers::converter::ImageConverter;
use rs_img::controllers::converter::ImageRenamer;
use rs_img::controllers::converter::RenameError;
use rs_img::timestamp::DateTimeParts;

#[test]
fn renames_from_capture_timestamp() {
    let r = rename_file_name(Some("2023:01:15 10:30:00"), "va_", "trip", "DSC01.JPG");
    assert_eq!(r, Ok(String::from("va_23_01_15_10_30_00_trip.JPG")));
}

#[test]
fn trims_nul_padding_before_parsing() {
    let r = rename_file_name(Some("2023:01:15 10:30:00\0"), "va_", "trip", "DSC01.JPG");
    assert_eq!(r, Ok(String::from("va_23_01_15_10_30_00_trip.JPG")));
}

#[test]
fn gap_hour_resolves_to_later_wall_clock() {
    // 2024-03-10 02:30 never happened in America/Chicago; the conversion
    // lands on the later side of the gap, one hour ahead.
    let r = rename_file_name(Some("2024:03:10 02:30:00"), "p_", "n", "a.jpg");
    assert_eq!(r, Ok(String::from("p_24_03_10_03_30_00_n.jpg")));
}

#[test]
fn missing_timestamp_keeps_stem() {
    let r = rename_file_name(None, "p_", "n", "IMG.jpg");
    assert_eq!(r, Ok(String::from("IMG.jpg")));
}

#[test]
fn missing_timestamp_without_extension_gains_bare_dot() {
    let r = rename_file_name(None, "p_", "n", "noext");
    assert_eq!(r, Ok(String::from("noext.")));
}

#[test]
fn empty_file_name_falls_back_to_image() {
    let r = rename_file_name(None, "p_", "n", "");
    assert_eq!(r, Ok(String::from("image.")));
}

#[test]
fn timestamp_without_space_falls_back() {
    let r = rename_file_name(Some("20240619140305"), "p_", "n", "IMG.jpg");
    assert_eq!(r, Ok(String::from("IMG.jpg")));
}

#[test]
fn malformed_timestamp_with_space_is_an_error() {
    let r = rename_file_name(Some("hello world"), "p_", "n", "IMG.jpg");
    assert_eq!(r, Err(RenameError::InvalidTimestamp));
}

#[test]
fn out_of_range_timestamp_is_an_error() {
    let r = rename_file_name(Some("2024:13:01 10:00:00"), "p_", "n", "IMG.jpg");
    assert_eq!(r, Err(RenameError::InvalidTimestamp));
}

#[test]
fn error_messages() {
    assert_eq!(RenameError::InvalidTimestamp.message(), "DateTime");
    assert_eq!(RenameError::TimezoneLookup.message(), "Timestamp");
}

#[test]
fn renamed_stem_joins_all_parts() {
    let local = DateTimeParts { year: 2023, month: 1, day: 15, hour: 10, minute: 30, second: 0 };
    let r = renamed_with_timestamp("va_", "trip", local);
    assert_eq!(r, "va_23_01_15_10_30_00_trip");
}

#[test]
fn fallback_name_keeps_old_extension() {
    assert_eq!(fallback_file_name("DSC01.JPG"), "DSC01.JPG");
    assert_eq!(fallback_file_name("x.tar.gz"), "x.tar.gz");
}

#[test]
fn converter_settings_hold_what_was_given() {
    let c = ImageConverter::new(String::from("in"), String::from("out"), 80);
    assert_eq!(c.input_folder, "in");
    assert_eq!(c.output_folder, "out");
    assert_eq!(c.quality, 80);
}

#[test]
fn renamer_settings_hold_what_was_given() {
    let r = ImageRenamer::new(
        String::from("in"),
        String::from("out"),
        String::from("p_"),
        String::from("n"),
    );
    assert_eq!(r.input_folder, "in");
    assert_eq!(r.output_folder, "out");
    assert_eq!(r.prefix, "p_");
    assert_eq!(r.name, "n");
}
