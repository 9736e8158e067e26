//! The catalogue of cursor names.
//!
//! A cursor is requested from the native resolver by name. The X11 cursor
//! font defines a fixed set of standard glyphs, each with a canonical
//! lowercase-with-underscores name (except the historical `X_cursor`);
//! a theme may additionally define cursors under arbitrary names, which
//! callers supply as free-form strings.

use vstd::prelude::*;
use vstd::utf8::{encode_utf8, is_ascii_chars, is_ascii_chars_encode_utf8};

verus! {

/// A cursor name: one of the standard cursor-font glyphs, or an arbitrary
/// caller-supplied name for a theme cursor.
///
/// Every standard variant renders to its documented canonical string via
/// [`Cursor::name`]; the rendering is pinned down exactly by
/// [`Cursor::spec_name`].
#[derive(Clone, Debug, PartialEq, Eq)]
pub enum Cursor {
    /// X_cursor
    XCursor,
    /// arrow
    Arrow,
    /// based_arrow_down
    BaseArrowDown,
    /// based_arrow_up
    BasedArrowUp,
    /// boat
    Boat,
    /// bogosity
    Bogosity,
    /// bottom_left_corner
    BottomLeftCorner,
    /// bottom_right_corner
    BottomRightCorner,
    /// bottom_side
    BottomSide,
    /// bottom_tee
    BottomTee,
    /// box_spiral
    BoxSpiral,
    /// center_ptr
    CenterPtr,
    /// circle
    Circle,
    /// clock
    Clock,
    /// coffee_mug
    CoffeeMug,
    /// cross
    Cross,
    /// cross_reverse
    CrossReverse,
    /// crosshair
    Crosshair,
    /// diamond_cross
    DiamongCross,
    /// dot
    Dot,
    /// dotbox
    Dotbox,
    /// double_arrow
    DoubleArrow,
    /// draft_large
    DraftLarge,
    /// draft_small
    DrawftSmall,
    /// draped_box
    DrapedBox,
    /// exchange
    Exchange,
    /// fleur
    Fleur,
    /// gobbler
    Gobbler,
    /// gumby
    Gumby,
    /// hand1
    Hand1,
    /// hand2
    Hand2,
    /// heart
    Heart,
    /// icon
    Icon,
    /// iron_cross
    IronCross,
    /// left_ptr
    LeftPtr,
    /// left_side
    LeftSide,
    /// left_tee
    LeftTee,
    /// leftbutton
    Leftbutton,
    /// ll_angle
    LlAngle,
    /// lr_angle
    LrAngle,
    /// man
    Man,
    /// middlebutton
    Middlebutton,
    /// mouse
    Mouse,
    /// pencil
    Pencil,
    /// pirate
    Pirate,
    /// plus
    Plus,
    /// question_arrow
    QuestionArrow,
    /// right_ptr
    RightPtr,
    /// right_side
    RightSide,
    /// right_tee
    RightTee,
    /// rightbutton
    Rightbutton,
    /// rtl_logo
    RtlLogo,
    /// sailboat
    Sailboat,
    /// sb_down_arrow
    SbDownArrow,
    /// sb_h_double_arrow
    SbHDoubleArrow,
    /// sb_left_arrow
    SbLeftArrow,
    /// sb_right_arrow
    SbRightArrow,
    /// sb_up_arrow
    SbUpArrow,
    /// sb_v_double_arrow
    SbVDoubleArrow,
    /// shuttle
    Shuttle,
    /// sizing
    Sizing,
    /// spider
    Spider,
    /// spraycan
    Spraycan,
    /// star
    Star,
    /// target
    Target,
    /// tcross
    Tcross,
    /// top_left_arrow
    TopLeftArrow,
    /// top_left_corner
    TopLeftCorner,
    /// top_right_corner
    TopRightCorner,
    /// top_side
    TopSide,
    /// top_tee
    TopTee,
    /// trek
    Trek,
    /// ul_angle
    UlAngle,
    /// umbrella
    Umbrella,
    /// ur_angle
    UrAngle,
    /// watch
    Watch,
    /// xterm
    Xterm,
    /// Custom cursor name
    Custom(String),
}

impl Cursor {
    /// The canonical rendering of this cursor name, as the sequence of
    /// characters handed to the native resolver.
    pub open spec fn spec_name(self) -> Seq<char> {
        match self {
            Cursor::XCursor => "X_cursor"@,
            Cursor::Arrow => "arrow"@,
            Cursor::BaseArrowDown => "based_arrow_down"@,
            Cursor::BasedArrowUp => "based_arrow_up"@,
            Cursor::Boat => "boat"@,
            Cursor::Bogosity => "bogosity"@,
            Cursor::BottomLeftCorner => "bottom_left_corner"@,
            Cursor::BottomRightCorner => "bottom_right_corner"@,
            Cursor::BottomSide => "bottom_side"@,
            Cursor::BottomTee => "bottom_tee"@,
            Cursor::BoxSpiral => "box_spiral"@,
            Cursor::CenterPtr => "center_ptr"@,
            Cursor::Circle => "circle"@,
            Cursor::Clock => "clock"@,
            Cursor::CoffeeMug => "coffee_mug"@,
            Cursor::Cross => "cross"@,
            Cursor::CrossReverse => "cross_reverse"@,
            Cursor::Crosshair => "crosshair"@,
            Cursor::DiamongCross => "diamond_cross"@,
            Cursor::Dot => "dot"@,
            Cursor::Dotbox => "dotbox"@,
            Cursor::DoubleArrow => "double_arrow"@,
            Cursor::DraftLarge => "draft_large"@,
            Cursor::DrawftSmall => "draft_small"@,
            Cursor::DrapedBox => "draped_box"@,
            Cursor::Exchange => "exchange"@,
            Cursor::Fleur => "fleur"@,
            Cursor::Gobbler => "gobbler"@,
            Cursor::Gumby => "gumby"@,
            Cursor::Hand1 => "hand1"@,
            Cursor::Hand2 => "hand2"@,
            Cursor::Heart => "heart"@,
            Cursor::Icon => "icon"@,
            Cursor::IronCross => "iron_cross"@,
            Cursor::LeftPtr => "left_ptr"@,
            Cursor::LeftSide => "left_side"@,
            Cursor::LeftTee => "left_tee"@,
            Cursor::Leftbutton => "leftbutton"@,
            Cursor::LlAngle => "ll_angle"@,
            Cursor::LrAngle => "lr_angle"@,
            Cursor::Man => "man"@,
            Cursor::Middlebutton => "middlebutton"@,
            Cursor::Mouse => "mouse"@,
            Cursor::Pencil => "pencil"@,
            Cursor::Pirate => "pirate"@,
            Cursor::Plus => "plus"@,
            Cursor::QuestionArrow => "question_arrow"@,
            Cursor::RightPtr => "right_ptr"@,
            Cursor::RightSide => "right_side"@,
            Cursor::RightTee => "right_tee"@,
            Cursor::Rightbutton => "rightbutton"@,
            Cursor::RtlLogo => "rtl_logo"@,
            Cursor::Sailboat => "sailboat"@,
            Cursor::SbDownArrow => "sb_down_arrow"@,
            Cursor::SbHDoubleArrow => "sb_h_double_arrow"@,
            Cursor::SbLeftArrow => "sb_left_arrow"@,
            Cursor::SbRightArrow => "sb_right_arrow"@,
            Cursor::SbUpArrow => "sb_up_arrow"@,
            Cursor::SbVDoubleArrow => "sb_v_double_arrow"@,
            Cursor::Shuttle => "shuttle"@,
            Cursor::Sizing => "sizing"@,
            Cursor::Spider => "spider"@,
            Cursor::Spraycan => "spraycan"@,
            Cursor::Star => "star"@,
            Cursor::Target => "target"@,
            Cursor::Tcross => "tcross"@,
            Cursor::TopLeftArrow => "top_left_arrow"@,
            Cursor::TopLeftCorner => "top_left_corner"@,
            Cursor::TopRightCorner => "top_right_corner"@,
            Cursor::TopSide => "top_side"@,
            Cursor::TopTee => "top_tee"@,
            Cursor::Trek => "trek"@,
            Cursor::UlAngle => "ul_angle"@,
            Cursor::Umbrella => "umbrella"@,
            Cursor::UrAngle => "ur_angle"@,
            Cursor::Watch => "watch"@,
            Cursor::Xterm => "xterm"@,
            Cursor::Custom(s) => s@,
        }
    }

    /// The UTF-8 bytes of the rendered name: what the canonical string
    /// looks like to the byte-oriented native call.
    pub open spec fn spec_name_bytes(self) -> Seq<u8> {
        encode_utf8(self.spec_name())
    }

    /// Renders this cursor name to the string the native resolver is asked
    /// for: the documented canonical name of a standard glyph, or the
    /// caller's own string for a custom cursor.
    pub fn name(&self) -> (r: String)
        ensures
            r@ == self.spec_name(),
    {
        match self {
            Cursor::XCursor => "X_cursor".to_owned(),
            Cursor::Arrow => "arrow".to_owned(),
            Cursor::BaseArrowDown => "based_arrow_down".to_owned(),
            Cursor::BasedArrowUp => "based_arrow_up".to_owned(),
            Cursor::Boat => "boat".to_owned(),
            Cursor::Bogosity => "bogosity".to_owned(),
            Cursor::BottomLeftCorner => "bottom_left_corner".to_owned(),
            Cursor::BottomRightCorner => "bottom_right_corner".to_owned(),
            Cursor::BottomSide => "bottom_side".to_owned(),
            Cursor::BottomTee => "bottom_tee".to_owned(),
            Cursor::BoxSpiral => "box_spiral".to_owned(),
            Cursor::CenterPtr => "center_ptr".to_owned(),
            Cursor::Circle => "circle".to_owned(),
            Cursor::Clock => "clock".to_owned(),
            Cursor::CoffeeMug => "coffee_mug".to_owned(),
            Cursor::Cross => "cross".to_owned(),
            Cursor::CrossReverse => "cross_reverse".to_owned(),
            Cursor::Crosshair => "crosshair".to_owned(),
            Cursor::DiamongCross => "diamond_cross".to_owned(),
            Cursor::Dot => "dot".to_owned(),
            Cursor::Dotbox => "dotbox".to_owned(),
            Cursor::DoubleArrow => "double_arrow".to_owned(),
            Cursor::DraftLarge => "draft_large".to_owned(),
            Cursor::DrawftSmall => "draft_small".to_owned(),
            Cursor::DrapedBox => "draped_box".to_owned(),
            Cursor::Exchange => "exchange".to_owned(),
            Cursor::Fleur => "fleur".to_owned(),
            Cursor::Gobbler => "gobbler".to_owned(),
            Cursor::Gumby => "gumby".to_owned(),
            Cursor::Hand1 => "hand1".to_owned(),
            Cursor::Hand2 => "hand2".to_owned(),
            Cursor::Heart => "heart".to_owned(),
            Cursor::Icon => "icon".to_owned(),
            Cursor::IronCross => "iron_cross".to_owned(),
            Cursor::LeftPtr => "left_ptr".to_owned(),
            Cursor::LeftSide => "left_side".to_owned(),
            Cursor::LeftTee => "left_tee".to_owned(),
            Cursor::Leftbutton => "leftbutton".to_owned(),
            Cursor::LlAngle => "ll_angle".to_owned(),
            Cursor::LrAngle => "lr_angle".to_owned(),
            Cursor::Man => "man".to_owned(),
            Cursor::Middlebutton => "middlebutton".to_owned(),
            Cursor::Mouse => "mouse".to_owned(),
            Cursor::Pencil => "pencil".to_owned(),
            Cursor::Pirate => "pirate".to_owned(),
            Cursor::Plus => "plus".to_owned(),
            Cursor::QuestionArrow => "question_arrow".to_owned(),
            Cursor::RightPtr => "right_ptr".to_owned(),
            Cursor::RightSide => "right_side".to_owned(),
            Cursor::RightTee => "right_tee".to_owned(),
            Cursor::Rightbutton => "rightbutton".to_owned(),
            Cursor::RtlLogo => "rtl_logo".to_owned(),
            Cursor::Sailboat => "sailboat".to_owned(),
            Cursor::SbDownArrow => "sb_down_arrow".to_owned(),
            Cursor::SbHDoubleArrow => "sb_h_double_arrow".to_owned(),
            Cursor::SbLeftArrow => "sb_left_arrow".to_owned(),
            Cursor::SbRightArrow => "sb_right_arrow".to_owned(),
            Cursor::SbUpArrow => "sb_up_arrow".to_owned(),
            Cursor::SbVDoubleArrow => "sb_v_double_arrow".to_owned(),
            Cursor::Shuttle => "shuttle".to_owned(),
            Cursor::Sizing => "sizing".to_owned(),
            Cursor::Spider => "spider".to_owned(),
            Cursor::Spraycan => "spraycan".to_owned(),
            Cursor::Star => "star".to_owned(),
            Cursor::Target => "target".to_owned(),
            Cursor::Tcross => "tcross".to_owned(),
            Cursor::TopLeftArrow => "top_left_arrow".to_owned(),
            Cursor::TopLeftCorner => "top_left_corner".to_owned(),
            Cursor::TopRightCorner => "top_right_corner".to_owned(),
            Cursor::TopSide => "top_side".to_owned(),
            Cursor::TopTee => "top_tee".to_owned(),
            Cursor::Trek => "trek".to_owned(),
            Cursor::UlAngle => "ul_angle".to_owned(),
            Cursor::Umbrella => "umbrella".to_owned(),
            Cursor::UrAngle => "ur_angle".to_owned(),
            Cursor::Watch => "watch".to_owned(),
            Cursor::Xterm => "xterm".to_owned(),
            Cursor::Custom(s) => s.clone(),
        }
    }
}

/// No rendered byte of an ASCII name free of the null character is the
/// null byte.
proof fn lemma_clean_ascii_name(s: Seq<char>)
    requires
        is_ascii_chars(s),
        forall|i: int| 0 <= i < s.len() ==> s[i] != '\0',
    ensures
        !encode_utf8(s).contains(0u8),
{
    is_ascii_chars_encode_utf8(s);
    assert forall|i: int| 0 <= i < encode_utf8(s).len() implies encode_utf8(s)[i] != 0u8 by {
        assert(s[i] as u8 == encode_utf8(s)[i]);
        assert(s[i] != '\0');
    }
}

/// Law: the canonical name of every standard glyph is free of embedded
/// null bytes, so encoding a standard cursor for the native lookup call
/// never fails — only a custom name can hit the encoding error.
pub proof fn lemma_standard_name_has_no_nul(c: Cursor)
    requires
        !(c matches Cursor::Custom(_)),
    ensures
        !c.spec_name_bytes().contains(0u8),
{
    match c {
        Cursor::XCursor => {
            reveal_strlit("X_cursor");
            lemma_clean_ascii_name("X_cursor"@);
        }
        Cursor::Arrow => {
            reveal_strlit("arrow");
            lemma_clean_ascii_name("arrow"@);
        }
        Cursor::BaseArrowDown => {
            reveal_strlit("based_arrow_down");
            lemma_clean_ascii_name("based_arrow_down"@);
        }
        Cursor::BasedArrowUp => {
            reveal_strlit("based_arrow_up");
            lemma_clean_ascii_name("based_arrow_up"@);
        }
        Cursor::Boat => {
            reveal_strlit("boat");
            lemma_clean_ascii_name("boat"@);
        }
        Cursor::Bogosity => {
            reveal_strlit("bogosity");
            lemma_clean_ascii_name("bogosity"@);
        }
        Cursor::BottomLeftCorner => {
            reveal_strlit("bottom_left_corner");
            lemma_clean_ascii_name("bottom_left_corner"@);
        }
        Cursor::BottomRightCorner => {
            reveal_strlit("bottom_right_corner");
            lemma_clean_ascii_name("bottom_right_corner"@);
        }
        Cursor::BottomSide => {
            reveal_strlit("bottom_side");
            lemma_clean_ascii_name("bottom_side"@);
        }
        Cursor::BottomTee => {
            reveal_strlit("bottom_tee");
            lemma_clean_ascii_name("bottom_tee"@);
        }
        Cursor::BoxSpiral => {
            reveal_strlit("box_spiral");
            lemma_clean_ascii_name("box_spiral"@);
        }
        Cursor::CenterPtr => {
            reveal_strlit("center_ptr");
            lemma_clean_ascii_name("center_ptr"@);
        }
        Cursor::Circle => {
            reveal_strlit("circle");
            lemma_clean_ascii_name("circle"@);
        }
        Cursor::Clock => {
            reveal_strlit("clock");
            lemma_clean_ascii_name("clock"@);
        }
        Cursor::CoffeeMug => {
            reveal_strlit("coffee_mug");
            lemma_clean_ascii_name("coffee_mug"@);
        }
        Cursor::Cross => {
            reveal_strlit("cross");
            lemma_clean_ascii_name("cross"@);
        }
        Cursor::CrossReverse => {
            reveal_strlit("cross_reverse");
            lemma_clean_ascii_name("cross_reverse"@);
        }
        Cursor::Crosshair => {
            reveal_strlit("crosshair");
            lemma_clean_ascii_name("crosshair"@);
        }
        Cursor::DiamongCross => {
            reveal_strlit("diamond_cross");
            lemma_clean_ascii_name("diamond_cross"@);
        }
        Cursor::Dot => {
            reveal_strlit("dot");
            lemma_clean_ascii_name("dot"@);
        }
        Cursor::Dotbox => {
            reveal_strlit("dotbox");
            lemma_clean_ascii_name("dotbox"@);
        }
        Cursor::DoubleArrow => {
            reveal_strlit("double_arrow");
            lemma_clean_ascii_name("double_arrow"@);
        }
        Cursor::DraftLarge => {
            reveal_strlit("draft_large");
            lemma_clean_ascii_name("draft_large"@);
        }
        Cursor::DrawftSmall => {
            reveal_strlit("draft_small");
            lemma_clean_ascii_name("draft_small"@);
        }
        Cursor::DrapedBox => {
            reveal_strlit("draped_box");
            lemma_clean_ascii_name("draped_box"@);
        }
        Cursor::Exchange => {
            reveal_strlit("exchange");
            lemma_clean_ascii_name("exchange"@);
        }
        Cursor::Fleur => {
            reveal_strlit("fleur");
            lemma_clean_ascii_name("fleur"@);
        }
        Cursor::Gobbler => {
            reveal_strlit("gobbler");
            lemma_clean_ascii_name("gobbler"@);
        }
        Cursor::Gumby => {
            reveal_strlit("gumby");
            lemma_clean_ascii_name("gumby"@);
        }
        Cursor::Hand1 => {
            reveal_strlit("hand1");
            lemma_clean_ascii_name("hand1"@);
        }
        Cursor::Hand2 => {
            reveal_strlit("hand2");
            lemma_clean_ascii_name("hand2"@);
        }
        Cursor::Heart => {
            reveal_strlit("heart");
            lemma_clean_ascii_name("heart"@);
        }
        Cursor::Icon => {
            reveal_strlit("icon");
            lemma_clean_ascii_name("icon"@);
        }
        Cursor::IronCross => {
            reveal_strlit("iron_cross");
            lemma_clean_ascii_name("iron_cross"@);
        }
        Cursor::LeftPtr => {
            reveal_strlit("left_ptr");
            lemma_clean_ascii_name("left_ptr"@);
        }
        Cursor::LeftSide => {
            reveal_strlit("left_side");
            lemma_clean_ascii_name("left_side"@);
        }
        Cursor::LeftTee => {
            reveal_strlit("left_tee");
            lemma_clean_ascii_name("left_tee"@);
        }
        Cursor::Leftbutton => {
            reveal_strlit("leftbutton");
            lemma_clean_ascii_name("leftbutton"@);
        }
        Cursor::LlAngle => {
            reveal_strlit("ll_angle");
            lemma_clean_ascii_name("ll_angle"@);
        }
        Cursor::LrAngle => {
            reveal_strlit("lr_angle");
            lemma_clean_ascii_name("lr_angle"@);
        }
        Cursor::Man => {
            reveal_strlit("man");
            lemma_clean_ascii_name("man"@);
        }
        Cursor::Middlebutton => {
            reveal_strlit("middlebutton");
            lemma_clean_ascii_name("middlebutton"@);
        }
        Cursor::Mouse => {
            reveal_strlit("mouse");
            lemma_clean_ascii_name("mouse"@);
        }
        Cursor::Pencil => {
            reveal_strlit("pencil");
            lemma_clean_ascii_name("pencil"@);
        }
        Cursor::Pirate => {
            reveal_strlit("pirate");
            lemma_clean_ascii_name("pirate"@);
        }
        Cursor::Plus => {
            reveal_strlit("plus");
            lemma_clean_ascii_name("plus"@);
        }
        Cursor::QuestionArrow => {
            reveal_strlit("question_arrow");
            lemma_clean_ascii_name("question_arrow"@);
        }
        Cursor::RightPtr => {
            reveal_strlit("right_ptr");
            lemma_clean_ascii_name("right_ptr"@);
        }
        Cursor::RightSide => {
            reveal_strlit("right_side");
            lemma_clean_ascii_name("right_side"@);
        }
        Cursor::RightTee => {
            reveal_strlit("right_tee");
            lemma_clean_ascii_name("right_tee"@);
        }
        Cursor::Rightbutton => {
            reveal_strlit("rightbutton");
            lemma_clean_ascii_name("rightbutton"@);
        }
        Cursor::RtlLogo => {
            reveal_strlit("rtl_logo");
            lemma_clean_ascii_name("rtl_logo"@);
        }
        Cursor::Sailboat => {
            reveal_strlit("sailboat");
            lemma_clean_ascii_name("sailboat"@);
        }
        Cursor::SbDownArrow => {
            reveal_strlit("sb_down_arrow");
            lemma_clean_ascii_name("sb_down_arrow"@);
        }
        Cursor::SbHDoubleArrow => {
            reveal_strlit("sb_h_double_arrow");
            lemma_clean_ascii_name("sb_h_double_arrow"@);
        }
        Cursor::SbLeftArrow => {
            reveal_strlit("sb_left_arrow");
            lemma_clean_ascii_name("sb_left_arrow"@);
        }
        Cursor::SbRightArrow => {
            reveal_strlit("sb_right_arrow");
            lemma_clean_ascii_name("sb_right_arrow"@);
        }
        Cursor::SbUpArrow => {
            reveal_strlit("sb_up_arrow");
            lemma_clean_ascii_name("sb_up_arrow"@);
        }
        Cursor::SbVDoubleArrow => {
            reveal_strlit("sb_v_double_arrow");
            lemma_clean_ascii_name("sb_v_double_arrow"@);
        }
        Cursor::Shuttle => {
            reveal_strlit("shuttle");
            lemma_clean_ascii_name("shuttle"@);
        }
        Cursor::Sizing => {
            reveal_strlit("sizing");
            lemma_clean_ascii_name("sizing"@);
        }
        Cursor::Spider => {
            reveal_strlit("spider");
            lemma_clean_ascii_name("spider"@);
        }
        Cursor::Spraycan => {
            reveal_strlit("spraycan");
            lemma_clean_ascii_name("spraycan"@);
        }
        Cursor::Star => {
            reveal_strlit("star");
            lemma_clean_ascii_name("star"@);
        }
        Cursor::Target => {
            reveal_strlit("target");
            lemma_clean_ascii_name("target"@);
        }
        Cursor::Tcross => {
            reveal_strlit("tcross");
            lemma_clean_ascii_name("tcross"@);
        }
        Cursor::TopLeftArrow => {
            reveal_strlit("top_left_arrow");
            lemma_clean_ascii_name("top_left_arrow"@);
        }
        Cursor::TopLeftCorner => {
            reveal_strlit("top_left_corner");
            lemma_clean_ascii_name("top_left_corner"@);
        }
        Cursor::TopRightCorner => {
            reveal_strlit("top_right_corner");
            lemma_clean_ascii_name("top_right_corner"@);
        }
        Cursor::TopSide => {
            reveal_strlit("top_side");
            lemma_clean_ascii_name("top_side"@);
        }
        Cursor::TopTee => {
            reveal_strlit("top_tee");
            lemma_clean_ascii_name("top_tee"@);
        }
        Cursor::Trek => {
            reveal_strlit("trek");
            lemma_clean_ascii_name("trek"@);
        }
        Cursor::UlAngle => {
            reveal_strlit("ul_angle");
            lemma_clean_ascii_name("ul_angle"@);
        }
        Cursor::Umbrella => {
            reveal_strlit("umbrella");
            lemma_clean_ascii_name("umbrella"@);
        }
        Cursor::UrAngle => {
            reveal_strlit("ur_angle");
            lemma_clean_ascii_name("ur_angle"@);
        }
        Cursor::Watch => {
            reveal_strlit("watch");
            lemma_clean_ascii_name("watch"@);
        }
        Cursor::Xterm => {
            reveal_strlit("xterm");
            lemma_clean_ascii_name("xterm"@);
        }
        Cursor::Custom(_) => {}
    }
}

} // verus!

