use xcb_util_cursor::Cursor;

#[test]
fn standard_names_render_canonically() {
    assert_eq!(Cursor::XCursor.name(), "X_cursor");
    assert_eq!(Cursor::Arrow.name(), "arrow");
    assert_eq!(Cursor::BaseArrowDown.name(), "based_arrow_down");
    assert_eq!(Cursor::BasedArrowUp.name(), "based_arrow_up");
    assert_eq!(Cursor::Boat.name(), "boat");
    assert_eq!(Cursor::Bogosity.name(), "bogosity");
    assert_eq!(Cursor::BottomLeftCorner.name(), "bottom_left_corner");
    assert_eq!(Cursor::BottomRightCorner.name(), "bottom_right_corner");
    assert_eq!(Cursor::BottomSide.name(), "bottom_side");
    assert_eq!(Cursor::BottomTee.name(), "bottom_tee");
    assert_eq!(Cursor::BoxSpiral.name(), "box_spiral");
    assert_eq!(Cursor::CenterPtr.name(), "center_ptr");
    assert_eq!(Cursor::Circle.name(), "circle");
    assert_eq!(Cursor::Clock.name(), "clock");
    assert_eq!(Cursor::CoffeeMug.name(), "coffee_mug");
    assert_eq!(Cursor::Cross.name(), "cross");
    assert_eq!(Cursor::CrossReverse.name(), "cross_reverse");
    assert_eq!(Cursor::Crosshair.name(), "crosshair");
    assert_eq!(Cursor::DiamongCross.name(), "diamond_cross");
    assert_eq!(Cursor::Dot.name(), "dot");
    assert_eq!(Cursor::Dotbox.name(), "dotbox");
    assert_eq!(Cursor::DoubleArrow.name(), "double_arrow");
    assert_eq!(Cursor::DraftLarge.name(), "draft_large");
    assert_eq!(Cursor::DrawftSmall.name(), "draft_small");
    assert_eq!(Cursor::DrapedBox.name(), "draped_box");
    assert_eq!(Cursor::Exchange.name(), "exchange");
    assert_eq!(Cursor::Fleur.name(), "fleur");
    assert_eq!(Cursor::Gobbler.name(), "gobbler");
    assert_eq!(Cursor::Gumby.name(), "gumby");
    assert_eq!(Cursor::Hand1.name(), "hand1");
    assert_eq!(Cursor::Hand2.name(), "hand2");
    assert_eq!(Cursor::Heart.name(), "heart");
    assert_eq!(Cursor::Icon.name(), "icon");
    assert_eq!(Cursor::IronCross.name(), "iron_cross");
    assert_eq!(Cursor::LeftPtr.name(), "left_ptr");
    assert_eq!(Cursor::LeftSide.name(), "left_side");
    assert_eq!(Cursor::LeftTee.name(), "left_tee");
    assert_eq!(Cursor::Leftbutton.name(), "leftbutton");
    assert_eq!(Cursor::LlAngle.name(), "ll_angle");
    assert_eq!(Cursor::LrAngle.name(), "lr_angle");
    assert_eq!(Cursor::Man.name(), "man");
    assert_eq!(Cursor::Middlebutton.name(), "middlebutton");
    assert_eq!(Cursor::Mouse.name(), "mouse");
    assert_eq!(Cursor::Pencil.name(), "pencil");
    assert_eq!(Cursor::Pirate.name(), "pirate");
    assert_eq!(Cursor::Plus.name(), "plus");
    assert_eq!(Cursor::QuestionArrow.name(), "question_arrow");
    assert_eq!(Cursor::RightPtr.name(), "right_ptr");
    assert_eq!(Cursor::RightSide.name(), "right_side");
    assert_eq!(Cursor::RightTee.name(), "right_tee");
    assert_eq!(Cursor::Rightbutton.name(), "rightbutton");
    assert_eq!(Cursor::RtlLogo.name(), "rtl_logo");
    assert_eq!(Cursor::Sailboat.name(), "sailboat");
    assert_eq!(Cursor::SbDownArrow.name(), "sb_down_arrow");
    assert_eq!(Cursor::SbHDoubleArrow.name(), "sb_h_double_arrow");
    assert_eq!(Cursor::SbLeftArrow.name(), "sb_left_arrow");
    assert_eq!(Cursor::SbRightArrow.name(), "sb_right_arrow");
    assert_eq!(Cursor::SbUpArrow.name(), "sb_up_arrow");
    assert_eq!(Cursor::SbVDoubleArrow.name(), "sb_v_double_arrow");
    assert_eq!(Cursor::Shuttle.name(), "shuttle");
    assert_eq!(Cursor::Sizing.name(), "sizing");
    assert_eq!(Cursor::Spider.name(), "spider");
    assert_eq!(Cursor::Spraycan.name(), "spraycan");
    assert_eq!(Cursor::Star.name(), "star");
    assert_eq!(Cursor::Target.name(), "target");
    assert_eq!(Cursor::Tcross.name(), "tcross");
    assert_eq!(Cursor::TopLeftArrow.name(), "top_left_arrow");
    assert_eq!(Cursor::TopLeftCorner.name(), "top_left_corner");
    assert_eq!(Cursor::TopRightCorner.name(), "top_right_corner");
    assert_eq!(Cursor::TopSide.name(), "top_side");
    assert_eq!(Cursor::TopTee.name(), "top_tee");
    assert_eq!(Cursor::Trek.name(), "trek");
    assert_eq!(Cursor::UlAngle.name(), "ul_angle");
    assert_eq!(Cursor::Umbrella.name(), "umbrella");
    assert_eq!(Cursor::UrAngle.name(), "ur_angle");
    assert_eq!(Cursor::Watch.name(), "watch");
    assert_eq!(Cursor::Xterm.name(), "xterm");
}

#[test]
fn custom_name_renders_as_given() {
    let cursor = Cursor::Custom("my-theme-cursor".to_string());
    assert_eq!(cursor.name(), "my-theme-cursor");
}

#[test]
fn custom_name_may_be_empty() {
    let cursor = Cursor::Custom(String::new());
    assert_eq!(cursor.name(), "");
}
