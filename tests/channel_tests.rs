use bvreader::channels::{parse_chan_info, parse_chan_info_full, ChannelInfo, ChannelInfoFull};
use bvreader::format::{parse_filter_setting, DataUnit, FilterSetting};

#[test]
fn test_parse_chan_info() {
        let input = "; Commas in channel names are coded as.
        Ch1=Fp1,,0.0488281,µV";
        let output = parse_chan_info(input);
        let expected = vec![ChannelInfo{
            header_id: "Ch1".to_string(),
            label: "Fp1".to_string(),
            reference: "".to_string(),
            resolution: "0.0488281".to_string(),
            unit: DataUnit::uV,
        }];
        assert_eq!(output, expected);
}

#[test]
fn test_parse_chan_info_empty() {
        let input = "[Common Infos]
        Codepage=
        DataFile=01_data.eeg";
        let output = parse_chan_info(input);
        let expected = vec![];
        assert_eq!(output, expected);
}

#[test]
fn test_parse_filter_setting_dc() {
        // DC              140              Off
        let input = "DC";
        let output = parse_filter_setting(input);
        let expected = FilterSetting::DC;
        assert_eq!(output, expected);
}    

#[test]
fn test_parse_filter_setting_on() {
        // DC              140              Off
        let input = "140";
        let output = parse_filter_setting(input);
        let expected = FilterSetting::ON(140);
        assert_eq!(output, expected);
} 

#[test]
fn chan_info_skips_lines_without_four_fields() {
    let input = "Ch1=Fp1,,0.5,mV
Ch2=Fz,0.5,uV
Ch3=Cz,Ref,,n/a";
    let output = parse_chan_info(input);
    assert_eq!(output.len(), 2);
    assert_eq!(output[0].header_id, "Ch1");
    assert_eq!(output[0].unit, DataUnit::mV);
    assert_eq!(output[1].header_id, "Ch3");
    assert_eq!(output[1].reference, "Ref");
    assert_eq!(output[1].resolution, "");
    assert_eq!(output[1].unit, DataUnit::NA);
}

#[test]
fn filter_setting_other_values() {
    assert_eq!(parse_filter_setting("OFF"), FilterSetting::OFF);
    assert_eq!(parse_filter_setting("Off"), FilterSetting::OFF);
    assert_eq!(parse_filter_setting("0"), FilterSetting::ON(0));
    assert_eq!(parse_filter_setting("10Hz"), FilterSetting::Unknown);
    assert_eq!(parse_filter_setting(""), FilterSetting::Unknown);
    assert_eq!(parse_filter_setting("99999999999999999999999"), FilterSetting::Unknown);
}

#[test]
fn test_parse_chan_info_full() {
        let input = "
        Channels
        --------
        #     Name      Phys. Chn.    Resolution / Unit   Low Cutoff [s]   High Cutoff [Hz]   Notch [Hz]    Gradient         Offset
        1     Fp1         1          0.0488281 µV             DC              140              Off
        2     Fz          2          0.0488281 µV             DC              140              Off
        3     F3          3          0.0488281 µV             DC              140              Off";
        let output = parse_chan_info_full(input);
        let expected = ChannelInfoFull{
            id: 1,
            label: "Fp1".to_string(),
            phys_chan: 1,
            resolution: "0.0488281".to_string(),
            unit: "µV".to_string(),
            low_cutoff: FilterSetting::DC,
            high_cutoff: FilterSetting::ON(140),
            notch: FilterSetting::OFF,
            gradient: Option::None,
            offset: Option::None,
        };
        assert_eq!(output[0], expected);
}
