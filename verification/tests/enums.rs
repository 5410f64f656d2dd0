use cfrs::{CFRColor, CFRDirection, CFRError};

#[test]
fn color_names_render_canonically() {
    assert_eq!(CFRColor::White.name(), "White");
    assert_eq!(CFRColor::Black.name(), "Black");
    assert_eq!(CFRColor::Blue.name(), "Blue");
    assert_eq!(CFRColor::Green.name(), "Green");
    assert_eq!(CFRColor::Cyan.name(), "Cyan");
    assert_eq!(CFRColor::Red.name(), "Red");
    assert_eq!(CFRColor::Magenta.name(), "Magenta");
    assert_eq!(CFRColor::Yellow.name(), "Yellow");
}

#[test]
fn direction_names_render_canonically() {
    assert_eq!(CFRDirection::Up.name(), "Up");
    assert_eq!(CFRDirection::UpRight.name(), "UpRight");
    assert_eq!(CFRDirection::Right.name(), "Right");
    assert_eq!(CFRDirection::DownRight.name(), "DownRight");
    assert_eq!(CFRDirection::Down.name(), "Down");
    assert_eq!(CFRDirection::DownLeft.name(), "DownLeft");
    assert_eq!(CFRDirection::Left.name(), "Left");
    assert_eq!(CFRDirection::UpLeft.name(), "UpLeft");
}

#[test]
fn colors_parse_case_insensitively() {
    assert_eq!(CFRColor::from_str("white"), Ok(CFRColor::White));
    assert_eq!(CFRColor::from_str("WHITE"), Ok(CFRColor::White));
    assert_eq!(CFRColor::from_str("black"), Ok(CFRColor::Black));
    assert_eq!(CFRColor::from_str("bLuE"), Ok(CFRColor::Blue));
    assert_eq!(CFRColor::from_str("green"), Ok(CFRColor::Green));
    assert_eq!(CFRColor::from_str("Cyan"), Ok(CFRColor::Cyan));
    assert_eq!(CFRColor::from_str("red"), Ok(CFRColor::Red));
    assert_eq!(CFRColor::from_str("MAGENTA"), Ok(CFRColor::Magenta));
    assert_eq!(CFRColor::from_str("yellow"), Ok(CFRColor::Yellow));
}

#[test]
fn invalid_color_name_is_rejected() {
    assert_eq!(CFRColor::from_str("invalid"), Err(CFRError::InvalidColorName));
    assert_eq!(CFRColor::from_str(""), Err(CFRError::InvalidColorName));
    assert_eq!(CFRColor::from_str("whit"), Err(CFRError::InvalidColorName));
    assert_eq!(CFRColor::from_str("whitee"), Err(CFRError::InvalidColorName));
}

#[test]
fn directions_parse_case_insensitively() {
    assert_eq!(CFRDirection::from_str("up"), Ok(CFRDirection::Up));
    assert_eq!(CFRDirection::from_str("upright"), Ok(CFRDirection::UpRight));
    assert_eq!(CFRDirection::from_str("RIGHT"), Ok(CFRDirection::Right));
    assert_eq!(CFRDirection::from_str("downright"), Ok(CFRDirection::DownRight));
    assert_eq!(CFRDirection::from_str("Down"), Ok(CFRDirection::Down));
    assert_eq!(CFRDirection::from_str("downLEFT"), Ok(CFRDirection::DownLeft));
    assert_eq!(CFRDirection::from_str("left"), Ok(CFRDirection::Left));
    assert_eq!(CFRDirection::from_str("UpLeft"), Ok(CFRDirection::UpLeft));
}

#[test]
fn invalid_direction_name_is_rejected() {
    assert_eq!(CFRDirection::from_str("invalid"), Err(CFRError::InvalidDirectionName));
    assert_eq!(CFRDirection::from_str("sideways"), Err(CFRError::InvalidDirectionName));
    assert_eq!(CFRDirection::from_str(""), Err(CFRError::InvalidDirectionName));
}
