use std::collections::HashMap;
use synapsed::station::act::audio::audio_devices_handler::{AudioDevicesError, AudioDevicesHandler};

const STATUS: &str = "PipeWire 'pipewire-0' [1.0.5, user@host, cookie:1]
 \u{2514}\u{2500} Clients:
        31. WirePlumber                         [1.0.5, user@host, pid:1]

Audio
 \u{251c}\u{2500} Devices:
 \u{2502}      42. Built-in Audio                      [alsa]
 \u{2502}  
 \u{251c}\u{2500} Sinks:
 \u{2502}  *   48. Built-in Audio Analog Stereo        [vol: 0.40]
 \u{2502}      50. HDMI Output                         [vol: 1.00]
 \u{2502}  
 \u{251c}\u{2500} Sink endpoints:
 \u{2502}  
 \u{251c}\u{2500} Sources:
 \u{2502}  *   49. Built-in Audio Analog Mono          [vol: 1.00]
 \u{2502}  
 \u{251c}\u{2500} Filters:
 \u{2502}  
 \u{2514}\u{2500} Streams:

Video
 \u{251c}\u{2500} Devices:
 \u{2502}      60. Camera                              [v4l2]
 \u{251c}\u{2500} Sinks:
 \u{2502}      61. Video Sink                          [vol: 1.00]
 \u{251c}\u{2500} Filters:

Settings
 \u{2514}\u{2500} Default Configured Node Names:
         0. Audio/Sink    alsa_output.pci
";

fn map(pairs: &[(i32, &str)]) -> HashMap<i32, String> {
    pairs.iter().map(|(id, name)| (*id, name.to_string())).collect()
}

#[test]
fn reads_sinks_sources_and_defaults() {
    let mut h = AudioDevicesHandler::new(STATUS).unwrap();
    assert_eq!(
        h.get_sinks(STATUS).unwrap(),
        &map(&[(48, "Built-in Audio Analog Stereo"), (50, "HDMI Output")])
    );
    assert_eq!(h.get_sources(STATUS).unwrap(), &map(&[(49, "Built-in Audio Analog Mono")]));
    assert_eq!(h.get_default_sink_id(STATUS), Ok(Some(48)));
    assert_eq!(h.get_default_source_id(STATUS), Ok(Some(49)));
}

#[test]
fn empty_report_lists_nothing() {
    let mut h = AudioDevicesHandler::new("").unwrap();
    assert!(h.get_sinks("").unwrap().is_empty());
    assert!(h.get_sources("").unwrap().is_empty());
    assert_eq!(h.get_default_sink_id(""), Ok(None));
    assert_eq!(h.get_default_source_id(""), Ok(None));
}

#[test]
fn a_new_report_replaces_the_old_one() {
    let mut h = AudioDevicesHandler::new(STATUS).unwrap();
    let other = "Audio\n \u{251c}\u{2500} Sinks:\n \u{2502}      7. USB Speaker [vol: 0.50]\n";
    assert_eq!(h.get_sinks(other).unwrap(), &map(&[(7, "USB Speaker")]));
    assert_eq!(h.get_default_sink_id(other), Ok(None));
    assert!(h.get_sources(other).unwrap().is_empty());
}

#[test]
fn device_without_volume_keeps_its_whole_name() {
    let status = "Audio\r\n \u{251c}\u{2500} Sources:\r\n \u{2502}  *  12. Mic\r\n";
    let mut h = AudioDevicesHandler::new(status).unwrap();
    assert_eq!(h.get_sources(status).unwrap(), &map(&[(12, "Mic")]));
    assert_eq!(h.get_default_source_id(status), Ok(Some(12)));
}

#[test]
fn id_that_does_not_fit_is_an_error() {
    let status = "Audio\n \u{251c}\u{2500} Sinks:\n \u{2502}      99999999999. Big [vol: 1.00]\n";
    assert!(matches!(AudioDevicesHandler::new(status), Err(AudioDevicesError::InvalidId)));
    let mut h = AudioDevicesHandler::new("").unwrap();
    assert_eq!(h.fetch_audio_devices(status), Err(AudioDevicesError::InvalidId));
    assert_eq!(h.get_default_sink_id(status), Err(AudioDevicesError::InvalidId));
}

#[test]
fn lines_that_are_not_devices_are_skipped() {
    let status = "Audio\n \u{251c}\u{2500} Sinks:\n \u{2502}      abc. Not a device\n \u{2502}      .5 nothing\n \u{2502}      3. Kept\n";
    let mut h = AudioDevicesHandler::new(status).unwrap();
    assert_eq!(h.get_sinks(status).unwrap(), &map(&[(3, "Kept")]));
}
