use volapplet::elements::{mute_button_icon, substring_name, MonadicOption, Percentise, VolumeLevel};
use volapplet::exception::Exception;
use volapplet::options::{is_small_flags, split_small_flags, Options};

#[test]
fn strings() {
    assert_eq!(substring_name("Hello".to_string()), "Hello".to_string());
    assert_eq!(
        substring_name("Hellooooooooooooooooooooooooooooooo".to_string()),
        "Helloooooooooooooooooooooooooo…".to_string()
    );

    assert_eq!(
        substring_name(
            "【東方Darksynth/Synthwave】 Violet Delta - Race to the Crescent Moon".to_string()
        ),
        "【東方Darksynth/Synthwave】 Violet…".to_string()
    );

    assert_eq!(mute_button_icon(true), "audio-volume-muted");
    assert_eq!(mute_button_icon(false), "audio-volume-high");

    assert_eq!((0.0f32.round() as i64).format_volume(), "0%");
    assert_eq!((0.1f32.round() as i64).format_volume(), "0%");
    assert_eq!((500.123123f32.round() as i64).format_volume(), "500%");
    assert_eq!(((-2222.3f32).round() as i64).format_volume(), "-2222%");
    assert_eq!((0.9f32.round() as i64).format_volume(), "1%");
}

#[test]
fn options() {
    let args = vec!["-i".to_string(), "-sc".to_string(), "--dont-group".to_string()];
    let options = Options::from_args(args).unwrap();

    assert!(options.show_inputs);
    assert!(options.show_streams);
    assert!(options.show_icons);
    assert!(options.dont_group);

    let args = vec!["-ds".to_string()];
    let options = Options::from_args(args).unwrap();

    assert!(!options.show_inputs);
    assert!(options.show_streams);
    assert!(!options.show_icons);
    assert!(options.dont_group);

    let args = vec!["a".to_string()];
    assert!(Options::from_args(args).is_err());
}

#[test]
fn unknown_option_names_itself() {
    let e = Options::from_args(vec!["--loud".to_string()]).err().unwrap();
    assert_eq!(e.stringify(), "Unknown option: --loud");
    let e = Options::from_args(vec!["-ix".to_string()]).err().unwrap();
    assert_eq!(e.stringify(), "Unknown option: -x");
}

#[test]
fn help_stops_parsing() {
    let o = Options::from_args(vec!["-h".to_string(), "bogus".to_string()]).unwrap();
    assert!(o.show_help);
    let o = Options::from_args(vec!["--show-streams".to_string(), "--help".to_string()]).unwrap();
    assert!(o.show_help);
    assert!(o.show_streams);
    let o = Options::from_args(vec![]).unwrap();
    assert_eq!(o, Options::default());
}

#[test]
fn small_flag_bundles() {
    assert!(is_small_flags(&"-sc".to_string()));
    assert!(!is_small_flags(&"-".to_string()));
    assert!(!is_small_flags(&"--dont-group".to_string()));
    assert!(!is_small_flags(&"sc".to_string()));
    assert!(!is_small_flags(&"-s1".to_string()));
    let split = split_small_flags(vec!["-sci".to_string(), "x".to_string(), "-d".to_string()]);
    assert_eq!(split, vec!["-s", "-c", "-i", "x", "-d"]);
}

#[test]
fn names_at_the_limit() {
    let exact = "abcdefghijabcdefghijabcdefghij".to_string();
    assert_eq!(substring_name(exact.clone()), format!("{}…", exact));
    let short = "abcdefghijabcdefghijabcdefghi".to_string();
    assert_eq!(substring_name(short.clone()), short);
    assert_eq!(substring_name(String::new()), "");
}

#[test]
fn percent_formatting() {
    assert_eq!(0i64.format_volume(), "0%");
    assert_eq!(100i64.format_volume(), "100%");
    assert_eq!((-7i64).format_volume(), "-7%");
    assert_eq!(i64::MIN.format_volume(), "-9223372036854775808%");
}

#[test]
fn tray_levels() {
    assert_eq!(VolumeLevel::from_volume(100, true), VolumeLevel::Muted);
    assert_eq!(VolumeLevel::from_volume(67, false), VolumeLevel::High);
    assert_eq!(VolumeLevel::from_volume(66, false), VolumeLevel::Medium);
    assert_eq!(VolumeLevel::from_volume(34, false), VolumeLevel::Medium);
    assert_eq!(VolumeLevel::from_volume(33, false), VolumeLevel::Low);
    assert_eq!(VolumeLevel::High.to_icon(), "audio-volume-high-symbolic");
    assert_eq!(VolumeLevel::Muted.to_icon(), "audio-volume-muted-symbolic");
}

#[test]
fn exception_message() {
    let e = Exception::misc_from("boom");
    assert_eq!(e.stringify(), "boom");
}

#[test]
fn option_bind_chains() {
    let half = |x: i32| if x % 2 == 0 { Some(x / 2) } else { None };
    assert_eq!(Some(8).bind(half), Some(4));
    assert_eq!(Some(8).bind(half).bind(half).bind(half), Some(1));
    assert_eq!(Some(3).bind(half), None);
    assert_eq!(None.bind(half), None);
}
