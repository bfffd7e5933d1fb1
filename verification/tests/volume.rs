use media_bridge::volume::{PaCtl, VolumeForm, VolumeParseError};

#[test]
fn sink_name_output_is_trimmed_of_its_line_break() {
    assert_eq!(PaCtl::parse_default_sink("alsa_output.pci-0000_00_1f.3.analog-stereo\n"),
        "alsa_output.pci-0000_00_1f.3.analog-stereo");
    assert_eq!(PaCtl::parse_default_sink("sink \t\r\n"), "sink");
    assert_eq!(PaCtl::parse_default_sink("sink"), "sink");
    assert_eq!(PaCtl::parse_default_sink("\n"), "");
}

#[test]
fn volume_line_yields_its_percentage() {
    // the command's volume line: the percentage is the sixth space-separated
    // field, the double space leaving an empty fifth one
    let line = "Volume: front-left: 39321 /  60% / -13.31 dB,   front-right: 39321 /  60% / -13.31 dB";
    assert_eq!(PaCtl::parse_sink_volume(line), Ok(60));
}

#[test]
fn volume_line_with_a_full_percentage() {
    let line = "Volume: front-left: 65536 /  100% / 0.00 dB";
    assert_eq!(PaCtl::parse_sink_volume(line), Ok(100));
}

#[test]
fn too_short_a_volume_line_is_a_missing_field() {
    assert_eq!(
        PaCtl::parse_sink_volume("Volume: front-left: 39321"),
        Err(VolumeParseError::MissingField)
    );
    assert_eq!(PaCtl::parse_sink_volume(""), Err(VolumeParseError::MissingField));
}

#[test]
fn a_field_without_digits_is_an_invalid_number() {
    let line = "Volume: front-left: 39321 /  sixty% / -13.31 dB";
    assert_eq!(PaCtl::parse_sink_volume(line), Err(VolumeParseError::InvalidNumber));
    // an empty sixth field cannot lose a unit mark
    let line = "a b c d e  f";
    assert_eq!(PaCtl::parse_sink_volume(line), Err(VolumeParseError::InvalidNumber));
}

#[test]
fn the_percentage_argument_carries_its_unit_mark() {
    assert_eq!(PaCtl::volume_percent_arg(0), "0%");
    assert_eq!(PaCtl::volume_percent_arg(55), "55%");
    assert_eq!(PaCtl::volume_percent_arg(100), "100%");
}

#[test]
fn the_volume_form_carries_a_percentage() {
    let form = VolumeForm { percent: 40 };
    assert_eq!(form.percent, 40);
}
