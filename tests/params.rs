use magrustte::filters::bilateral::Bilateral;
use magrustte::filters::blur::{Blur, Mode};
use magrustte::filters::huerotate::Huerotate;
use magrustte::filters::lighting::Lighting;
use magrustte::filters::sharpen::{Sharpen, SharpenMode};
use magrustte::filters::threshold::Threshold;
use magrustte::filters::vignette::Vignette;
use magrustte::filters::Manipulate;
use magrustte::filters::Filter;
use magrustte::params::{parse_bool, parse_i32, text_is, Command, CommandParse, FilterKind, ParseError};
use magrustte::text::{decimal, nat_decimal};

fn words(ws: &[&str]) -> Vec<String> {
    ws.iter().map(|w| w.to_string()).collect()
}

#[test]
fn integers_parse_like_std() {
    for s in ["0", "42", "-7", "+3", "007", "2147483647", "-2147483648", "", "-", "+", "abc", "1a", " 1", "2147483648", "-2147483649", "99999999999999999999", "--1"] {
        assert_eq!(parse_i32(s), s.parse::<i32>().ok(), "{}", s);
    }
}

#[test]
fn booleans_and_words() {
    assert_eq!(parse_bool("true"), Some(true));
    assert_eq!(parse_bool("false"), Some(false));
    assert_eq!(parse_bool("True"), None);
    assert!(text_is("box", "box"));
    assert!(!text_is("boxes", "box"));
}

#[test]
fn mode_names() {
    assert_eq!(Mode::from_name("gaussian"), Some(Mode::Gaussian));
    assert_eq!(Mode::from_name("median"), Some(Mode::Median));
    assert_eq!(Mode::from_name("bilateral"), None);
    assert_eq!("box".parse::<Mode>(), Ok(Mode::Box));
    assert_eq!("x".parse::<Mode>(), Err("x is not a valid blur mode".to_string()));
    assert_eq!(SharpenMode::from_name("bilateral"), Some(SharpenMode::Bilateral));
    assert_eq!("y".parse::<SharpenMode>(), Err("y is not a valid sharpening mode".to_string()));
}

#[test]
fn threshold_command() {
    match Threshold::parse(words(&["300"])) {
        Ok(Filter::Threshold(t)) => assert_eq!(t.threshold(), 255),
        _ => panic!("expected a threshold"),
    }
    assert!(matches!(Threshold::parse(words(&[])), Err(ParseError::Missing { position: 0 })));
    assert!(matches!(Threshold::parse(words(&["x"])), Err(ParseError::NotAnInteger { position: 0 })));
}

#[test]
fn lighting_command() {
    match Lighting::parse(words(&["-12", "40"])) {
        Ok(Filter::Lighting(l)) => assert_eq!((l.brightness(), l.contrast()), (-12, 40)),
        _ => panic!("expected a lighting"),
    }
    assert!(matches!(Lighting::parse(words(&["1"])), Err(ParseError::Missing { position: 1 })));
    assert!(matches!(Lighting::parse(words(&["1", "b"])), Err(ParseError::NotAnInteger { position: 1 })));
}

#[test]
fn blur_and_sharpen_commands() {
    assert_eq!(Blur::parse(words(&["3", "median"])), Ok((3, Mode::Median)));
    assert_eq!(Blur::parse(words(&["3", "mean"])), Err(ParseError::NotAMode { position: 1 }));
    assert_eq!(Blur::parse(words(&["3"])), Err(ParseError::Missing { position: 1 }));
    assert_eq!(Sharpen::parse(words(&["box", "2", "true"])), Ok((SharpenMode::Box, 2, true)));
    assert_eq!(Sharpen::parse(words(&["box", "2", "yes"])), Err(ParseError::NotABool { position: 2 }));
    assert_eq!(Sharpen::parse(words(&["soft"])), Err(ParseError::NotAMode { position: 0 }));
    assert_eq!(Vignette::parse(words(&["40", "60"])), Ok((40, 60)));
    assert_eq!(Huerotate::parse(words(&["-90"])), Ok(-90));
}

#[test]
fn decimal_text() {
    assert_eq!(decimal(0), "0");
    assert_eq!(decimal(-255), "-255");
    assert_eq!(decimal(1024), "1024");
    assert_eq!(nat_decimal(18446744073709551615), "18446744073709551615");
}

#[test]
fn filter_descriptions() {
    assert_eq!(Huerotate::new(90, 1_000_000, 0).details_str(), "Huerotate -> degrees: 90");
    assert_eq!(Vignette::new(50, 120, vec![], vec![]).details_str(), "Vignette -> radius: 50%, opacity: 100%");
    assert_eq!(Sharpen::new(SharpenMode::Median, 1, false, vec![], vec![]).details_str(), "Sharpen -> mode: Median");
    assert_eq!(Blur::new(60, Mode::Gaussian, vec![1; 101]).details_str(), "Blur -> radius: 50, mode: Gaussian");
    assert_eq!(
        Bilateral::new(2, 1500, 20, vec![1; 5], vec![1; 256]).details_str(),
        "Bilateral filter -> radius: 2, spatial sigma: 1.5, color sigma: 0.1"
    );
    assert_eq!(
        Bilateral::new(1, 90000, 2125, vec![1; 3], vec![1; 256]).details_str(),
        "Bilateral filter -> radius: 1, spatial sigma: 50, color sigma: 2.125"
    );
}

#[test]
fn command_and_filter_names() {
    assert_eq!(Command::from_name("remove"), Some(Command::Remove));
    assert_eq!(Command::from_name("help"), Some(Command::Help));
    assert_eq!(Command::from_name("quit"), None);
    assert_eq!(FilterKind::from_name("bilateral"), Some(FilterKind::Bilateral));
    assert_eq!(FilterKind::from_name("sepia"), Some(FilterKind::Sepia));
    assert_eq!(FilterKind::from_name("Sepia"), None);
}
