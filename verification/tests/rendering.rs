use fizzerb::rendering::{output_path, RenderSettings};

#[test]
fn placeholder_becomes_the_microphone_number() {
    assert_eq!(output_path("impulse_response_#.wav", 0), "impulse_response_0.wav");
    assert_eq!(output_path("impulse_response_#.wav", 7), "impulse_response_7.wav");
    assert_eq!(output_path("impulse_response_#.wav", 10), "impulse_response_10.wav");
    assert_eq!(output_path("impulse_response_#.wav", 1024), "impulse_response_1024.wav");
}

#[test]
fn every_placeholder_is_replaced() {
    assert_eq!(output_path("#/mic#-#.wav", 42), "42/mic42-42.wav");
    assert_eq!(output_path("##", 9), "99");
    assert_eq!(output_path("#", 305), "305");
}

#[test]
fn template_without_placeholder_is_kept() {
    assert_eq!(output_path("out.wav", 3), "out.wav");
    assert_eq!(output_path("", 3), "");
}

#[test]
fn other_characters_pass_through() {
    assert_eq!(output_path("r\u{e4}ume/\u{1f50a} #.wav", 5), "r\u{e4}ume/\u{1f50a} 5.wav");
}

#[test]
fn largest_number_is_written_in_full() {
    assert_eq!(output_path("#", usize::MAX), usize::MAX.to_string());
    assert_eq!(output_path("#", 1_000_000), "1000000");
    assert_eq!(output_path("#", 999_999), "999999");
}

#[test]
fn settings_name_the_file_of_each_microphone() {
    let settings = RenderSettings {
        max_bounces: 512,
        samples: 256,
        speed_of_sound: 343.0f32,
        compressor_gain: 1.0f32,
        compressor_threshold: 0.8f32,
        compressor_release: 2.0f32,
        sample_rate: 48000,
        output_path: String::from("impulse_response_#.wav"),
    };
    assert_eq!(settings.output_path_for(0), "impulse_response_0.wav");
    assert_eq!(settings.output_path_for(3), "impulse_response_3.wav");
}
